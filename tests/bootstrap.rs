use capsules::bootstrap::{copy_plan, CopyAction, TreeEntry};

fn entry(path: &str, is_dir: bool) -> TreeEntry {
    TreeEntry { path: path.to_string(), is_dir }
}

#[test]
fn copy_plan_creates_destination_then_each_entry() {
    let entries = vec![entry("init.sh", false), entry("conf", true), entry("conf/a.toml", false)];
    let plan = copy_plan("/src/dev1", "/v/dev1/.bootstrap", &entries);
    assert_eq!(plan.len(), 4);
    match &plan[0] {
        CopyAction::MakeDir(p) => assert_eq!(p, "/v/dev1/.bootstrap"),
        other => panic!("unexpected {:?}", other),
    }
    match &plan[1] {
        CopyAction::CopyFile { from, to } => {
            assert_eq!(from, "/src/dev1/init.sh");
            assert_eq!(to, "/v/dev1/.bootstrap/init.sh");
        }
        other => panic!("unexpected {:?}", other),
    }
    match &plan[2] {
        CopyAction::MakeDir(p) => assert_eq!(p, "/v/dev1/.bootstrap/conf"),
        other => panic!("unexpected {:?}", other),
    }
    match &plan[3] {
        CopyAction::CopyFile { from, to } => {
            assert_eq!(from, "/src/dev1/conf/a.toml");
            assert_eq!(to, "/v/dev1/.bootstrap/conf/a.toml");
        }
        other => panic!("unexpected {:?}", other),
    }
}

#[test]
fn copy_plan_of_empty_tree_only_creates_destination() {
    let plan = copy_plan("/s", "/d/", &vec![]);
    assert_eq!(plan.len(), 1);
    assert!(matches!(&plan[0], CopyAction::MakeDir(p) if p == "/d/"));
}

#[test]
fn copy_plan_is_the_same_each_time() {
    let entries = vec![entry("x", false)];
    let a = copy_plan("/s", "/d", &entries);
    let b = copy_plan("/s", "/d", &entries);
    assert_eq!(format!("{:?}", a), format!("{:?}", b));
}
