//! The filesystem locations that belong to a capsule.
use vstd::prelude::*;

use crate::config::{Config, Identity};
use crate::text::{join_path, path_join};

verus! {

/// Where the per-capsule bootstrap trees live, below the user's home.
pub open spec fn bootstrap_subdir() -> Seq<char> {
    ".config/capsules/bootstrap"@
}

/// The capsule's data volume root: `identifier` below the volumes root.
pub open spec fn capsule_root_of(volumes_root: Seq<char>, identifier: Seq<char>) -> Seq<char> {
    path_join(volumes_root, identifier)
}

/// The user's home directory inside the capsule's data volume.
pub open spec fn home_of(capsule_root: Seq<char>, user: Seq<char>) -> Seq<char> {
    path_join(path_join(capsule_root, "home"@), user)
}

/// Where the bootstrap tree is staged inside the capsule's data volume.
pub open spec fn staging_of(capsule_root: Seq<char>) -> Seq<char> {
    path_join(capsule_root, ".bootstrap"@)
}

/// The bootstrap tree kept for `identifier` in the user's configuration.
pub open spec fn bootstrap_source_of(user_home: Seq<char>, identifier: Seq<char>) -> Seq<char> {
    path_join(path_join(user_home, bootstrap_subdir()), identifier)
}

/// All paths derived for one capsule.
#[derive(Debug, Clone)]
pub struct PathLayout {
    pub bootstrap_source: String,
    pub capsule_root: String,
    pub home: String,
    pub bootstrap_staging: String,
}

impl PathLayout {
    /// This layout is the one derived for `identifier` from `cfg` and `identity`.
    pub open spec fn derived(
        &self,
        identifier: Seq<char>,
        cfg: &Config,
        identity: &Identity,
    ) -> bool {
        &&& self.bootstrap_source@ == bootstrap_source_of(identity.home@, identifier)
        &&& self.capsule_root@ == capsule_root_of(cfg.volumes_root_spec(identity), identifier)
        &&& self.home@ == home_of(self.capsule_root@, identity.user@)
        &&& self.bootstrap_staging@ == staging_of(self.capsule_root@)
    }

    /// Derives the layout of capsule `identifier`; a pure function of its inputs.
    pub fn resolve(identifier: &str, cfg: &Config, identity: &Identity) -> (r: PathLayout)
        ensures
            r.derived(identifier@, cfg, identity),
    {
        let config_dir = join_path(identity.home.as_str(), ".config/capsules/bootstrap");
        let bootstrap_source = join_path(config_dir.as_str(), identifier);
        let volumes_root = cfg.volumes_root_path(identity);
        let capsule_root = join_path(volumes_root.as_str(), identifier);
        let home_parent = join_path(capsule_root.as_str(), "home");
        let home = join_path(home_parent.as_str(), identity.user.as_str());
        let bootstrap_staging = join_path(capsule_root.as_str(), ".bootstrap");
        PathLayout { bootstrap_source, capsule_root, home, bootstrap_staging }
    }
}

/// A capsule's home directory ends with `/home/<user>` and lies under the
/// capsule's own directory `<volumes root>/<identifier>`, for every identifier.
pub proof fn lemma_home_under_capsule_root(identifier: Seq<char>, cfg: &Config, identity: &Identity)
    ensures
        ({
            let root = capsule_root_of(cfg.volumes_root_spec(identity), identifier);
            let home = home_of(root, identity.user@);
            let tail = "/home/"@ + identity.user@;
            &&& root.len() < home.len()
            &&& home.subrange(0, root.len() as int) == root
            &&& tail.len() <= home.len()
            &&& home.subrange(home.len() - tail.len(), home.len() as int) == tail
        }),
{
    reveal_strlit("home");
    reveal_strlit("/home/");
    let root = capsule_root_of(cfg.volumes_root_spec(identity), identifier);
    let user = identity.user@;
    let mid = path_join(root, "home"@);
    let home = home_of(root, user);
    assert(mid.last() == 'e');
    assert(home == mid + seq!['/'] + user);
    if root.len() > 0 && root.last() == '/' {
        assert(mid == root + "home"@);
        assert(root == root.drop_last() + seq!['/']);
        assert(home == root.drop_last() + ("/home/"@ + user));
        assert(home.subrange(0, root.len() as int) =~= root);
    } else {
        assert(mid == root + seq!['/'] + "home"@);
        assert(home == root + ("/home/"@ + user));
        assert(home.subrange(0, root.len() as int) =~= root);
    }
    assert(home.subrange(home.len() - ("/home/"@ + user).len(), home.len() as int) =~= "/home/"@
        + user);
}

} // verus!
