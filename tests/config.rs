use capsules::config::{Config, Identity};
use capsules::layout::PathLayout;
use capsules::text::{contains, join_path};
use capsules::volumes::{compose, data_volume, fixed_mounts};
use capsules::CapsuleError;

fn identity() -> Identity {
    Identity::resolve(Some("bob".to_string()), Some("/home/bob".to_string())).unwrap()
}

fn words(v: &[&str]) -> Vec<String> {
    v.iter().map(|s| s.to_string()).collect()
}

fn is_default(c: &Config) -> bool {
    c.volumes_root.is_none() && c.capsule_home_dir.is_none()
}

#[test]
fn missing_malformed_and_empty_files_give_defaults() {
    assert!(is_default(&Config::load(None)));
    assert!(is_default(&Config::load(Some(""))));
    assert!(is_default(&Config::load(Some("this is = = not toml ["))));
}

#[test]
fn both_settings_are_read() {
    let c = Config::load(Some("volumes_root = \"/data\"\ncapsule_home_dir = \"/users\"\n"));
    assert_eq!(c.volumes_root.as_deref(), Some("/data"));
    assert_eq!(c.capsule_home_dir.as_deref(), Some("/users"));
    assert_eq!(c.capsule_home_dir(), "/users");
}

#[test]
fn unknown_keys_are_ignored_and_wrong_types_degrade() {
    let c = Config::load(Some("other = 3\ncapsule_home_dir = \"/h\""));
    assert!(c.volumes_root.is_none());
    assert_eq!(c.capsule_home_dir.as_deref(), Some("/h"));
    assert!(is_default(&Config::load(Some("volumes_root = 5\ncapsule_home_dir = \"/h\""))));
}

#[test]
fn capsule_home_dir_defaults_to_home() {
    assert_eq!(Config::defaults().capsule_home_dir(), "/home");
}

#[test]
fn volumes_root_absolute_relative_and_default() {
    let id = identity();
    let abs = Config { volumes_root: Some("/srv/v".to_string()), capsule_home_dir: None };
    assert_eq!(abs.volumes_root_path(&id), "/srv/v");
    let rel = Config { volumes_root: Some("vols".to_string()), capsule_home_dir: None };
    assert_eq!(rel.volumes_root_path(&id), "/home/bob/vols");
    assert_eq!(Config::defaults().volumes_root_path(&id), "/home/bob/.local/capsules/volumes");
}

#[test]
fn identity_needs_user_and_home() {
    assert!(matches!(Identity::resolve(None, Some("/h".into())), Err(CapsuleError::Configuration(_))));
    assert!(matches!(Identity::resolve(Some("".into()), Some("/h".into())), Err(CapsuleError::Configuration(_))));
    assert!(matches!(Identity::resolve(Some("u".into()), None), Err(CapsuleError::Configuration(_))));
    assert!(matches!(Identity::resolve(Some("u".into()), Some("".into())), Err(CapsuleError::Configuration(_))));
}

#[test]
fn layout_home_lies_under_capsule_root() {
    let cfg = Config { volumes_root: Some("/v/".to_string()), capsule_home_dir: None };
    let l = PathLayout::resolve("dev1", &cfg, &identity());
    assert_eq!(l.capsule_root, "/v/dev1");
    assert_eq!(l.home, "/v/dev1/home/bob");
    assert!(l.home.starts_with(&l.capsule_root));
    assert!(l.home.ends_with("/home/bob"));
    assert_eq!(l.bootstrap_staging, "/v/dev1/.bootstrap");
    assert_eq!(l.bootstrap_source, "/home/bob/.config/capsules/bootstrap/dev1");
}

#[test]
fn compose_keeps_order_and_puts_data_last() {
    let r = compose(words(&["f1", "f2"]), words(&["c1", "c2"]), "d".to_string());
    assert_eq!(r, words(&["f1", "f2", "c1", "c2", "d"]));
    let r = compose(vec![], vec![], "d".to_string());
    assert_eq!(r, words(&["d"]));
}

#[test]
fn data_volume_and_fixed_mounts() {
    assert_eq!(data_volume("/v/dev1"), "/v/dev1:/files:rw");
    let f = fixed_mounts("/home", "bob");
    assert_eq!(f.len(), 5);
    assert_eq!(f[3], "/files/projects/dotfiles/config:/home/bob/.config:rw");
    assert_eq!(f[4], "/files/projects/dotfiles/fonts:/home/bob/.fonts");
}

#[test]
fn path_joining_and_searching() {
    assert_eq!(join_path("/a/", "b"), "/a/b");
    assert_eq!(join_path("/a", "b"), "/a/b");
    assert!(contains("xx capsule yy", "capsule"));
    assert!(!contains("capsul", "capsule"));
    assert!(contains("abc", ""));
}
