//! Propagating a capsule's bootstrap tree into its staging area, as a plan
//! of plain directory and file copies over a model of the filesystem.
use vstd::prelude::*;

use crate::text::{join_path, path_join};

verus! {

/// An entry of a source tree, by its path relative to the tree's root.
#[derive(Debug, Clone)]
pub struct TreeEntry {
    pub path: String,
    pub is_dir: bool,
}

/// One filesystem action of a copy.
#[derive(Debug)]
pub enum CopyAction {
    /// Create a directory and its missing ancestors.
    MakeDir(String),
    /// Copy one file's bytes, replacing what stands at `to`.
    CopyFile { from: String, to: String },
}

/// What a path names in the filesystem model.
pub enum Node {
    Dir,
    File(Seq<u8>),
}

/// The filesystem as a map from path to what stands there.
pub type Tree = Map<Seq<char>, Node>;

/// The path an action writes.
pub open spec fn target_of(a: CopyAction) -> Seq<char> {
    match a {
        CopyAction::MakeDir(p) => p@,
        CopyAction::CopyFile { to, .. } => to@,
    }
}

/// One action on `t`: `None` where it fails (a directory over a file, a copy
/// from anything but a file or onto a directory).
pub open spec fn apply_action(t: Tree, a: CopyAction) -> Option<Tree> {
    match a {
        CopyAction::MakeDir(p) => if !t.contains_key(p@) {
            Some(t.insert(p@, Node::Dir))
        } else if t[p@] is Dir {
            Some(t)
        } else {
            None
        },
        CopyAction::CopyFile { from, to } => if t.contains_key(from@) && t[from@] is File && (
        !t.contains_key(to@) || t[to@] is File) {
            Some(t.insert(to@, t[from@]))
        } else {
            None
        },
    }
}

/// The actions of `s` in order on `t`, stopping at the first that fails.
pub open spec fn apply_actions(t: Tree, s: Seq<CopyAction>) -> Option<Tree>
    decreases s.len(),
{
    if s.len() == 0 {
        Some(t)
    } else {
        match apply_action(t, s[0]) {
            None => None,
            Some(t2) => apply_actions(t2, s.drop_first()),
        }
    }
}

/// The action that copies `e` from `source` to `destination`.
pub open spec fn action_for(
    source: Seq<char>,
    destination: Seq<char>,
    e: TreeEntry,
    a: CopyAction,
) -> bool {
    if e.is_dir {
        a matches CopyAction::MakeDir(p) && p@ == path_join(destination, e.path@)
    } else {
        a matches CopyAction::CopyFile { from, to } && from@ == path_join(source, e.path@) && to@
            == path_join(destination, e.path@)
    }
}

/// The plan that copies the entries of a tree: the destination is created,
/// then each entry is copied in the order listed (a directory before what it holds).
pub open spec fn is_copy_plan(
    source: Seq<char>,
    destination: Seq<char>,
    entries: Seq<TreeEntry>,
    plan: Seq<CopyAction>,
) -> bool {
    &&& plan.len() == entries.len() + 1
    &&& plan[0] matches CopyAction::MakeDir(p) && p@ == destination
    &&& forall|i: int|
        0 <= i < entries.len() ==> #[trigger] action_for(source, destination, entries[i], plan[i + 1])
}

/// The plan that copies the tree at `source`, whose entries are `entries`,
/// to `destination`.
pub fn copy_plan(source: &str, destination: &str, entries: &Vec<TreeEntry>) -> (r: Vec<CopyAction>)
    ensures
        is_copy_plan(source@, destination@, entries@, r@),
{
    let mut plan: Vec<CopyAction> = Vec::new();
    plan.push(CopyAction::MakeDir(String::from_str(destination)));
    let mut i: usize = 0;
    while i < entries.len()
        invariant
            i <= entries.len(),
            plan@.len() == i + 1,
            plan@[0] matches CopyAction::MakeDir(p) && p@ == destination@,
            forall|j: int|
                0 <= j < i ==> #[trigger] action_for(source@, destination@, entries@[j], plan@[j + 1]),
        decreases entries.len() - i,
    {
        let e = &entries[i];
        let to = join_path(destination, e.path.as_str());
        if e.is_dir {
            plan.push(CopyAction::MakeDir(to));
        } else {
            let from = join_path(source, e.path.as_str());
            plan.push(CopyAction::CopyFile { from, to });
        }
        assert(action_for(source@, destination@, entries@[i as int], plan@[i + 1]));
        i = i + 1;
    }
    plan
}

/// The path an action reads, if it reads one.
pub open spec fn read_of(a: CopyAction) -> Option<Seq<char>> {
    match a {
        CopyAction::MakeDir(_) => None,
        CopyAction::CopyFile { from, .. } => Some(from@),
    }
}

/// No two actions write one path, and no copy reads a path that an action writes.
pub open spec fn separated(s: Seq<CopyAction>) -> bool {
    &&& forall|i: int, j: int| 0 <= i < j < s.len() ==> target_of(s[i]) != target_of(s[j])
    &&& forall|i: int, j: int|
        #![trigger s[i], s[j]]
        0 <= i < s.len() && 0 <= j < s.len() ==> read_of(s[i]) != Some(target_of(s[j]))
}

/// What stands at an action's target once it has been done on `t`.
pub open spec fn written(t: Tree, a: CopyAction) -> Node {
    match a {
        CopyAction::MakeDir(_) => Node::Dir,
        CopyAction::CopyFile { from, .. } => t[from@],
    }
}

proof fn lemma_separated_rest(s: Seq<CopyAction>)
    requires
        s.len() > 0,
        separated(s),
    ensures
        separated(s.drop_first()),
        forall|j: int| 0 <= j < s.len() - 1 ==> #[trigger] s.drop_first()[j] == s[j + 1],
{
    let rest = s.drop_first();
    assert forall|i: int, j: int| 0 <= i < j < rest.len() implies target_of(rest[i]) != target_of(
        rest[j],
    ) by {
        assert(rest[i] == s[i + 1] && rest[j] == s[j + 1]);
    }
    assert forall|i: int, j: int|
        #![trigger rest[i], rest[j]]
        0 <= i < rest.len() && 0 <= j < rest.len() implies read_of(rest[i]) != Some(
        target_of(rest[j]),
    ) by {
        assert(rest[i] == s[i + 1] && rest[j] == s[j + 1]);
    }
}

/// A successful run leaves every path that no action writes as it was.
proof fn lemma_untouched(t: Tree, s: Seq<CopyAction>, t1: Tree, k: Seq<char>)
    requires
        apply_actions(t, s) == Some(t1),
        forall|i: int| 0 <= i < s.len() ==> target_of(#[trigger] s[i]) != k,
    ensures
        t1.contains_key(k) == t.contains_key(k),
        t1[k] == t[k],
    decreases s.len(),
{
    if s.len() > 0 {
        let t2 = apply_action(t, s[0]).unwrap();
        let rest = s.drop_first();
        assert(target_of(s[0]) != k);
        assert forall|j: int| 0 <= j < rest.len() implies target_of(#[trigger] rest[j]) != k by {
            assert(rest[j] == s[j + 1]);
        }
        lemma_untouched(t2, rest, t1, k);
    }
}

/// After a successful run of separated actions, each copy read a file, and
/// that file still holds what it held.
proof fn lemma_reads_kept(t: Tree, s: Seq<CopyAction>, t1: Tree, i: int)
    requires
        separated(s),
        apply_actions(t, s) == Some(t1),
        0 <= i < s.len(),
        read_of(s[i]) is Some,
    ensures
        t.contains_key(read_of(s[i]).unwrap()),
        t[read_of(s[i]).unwrap()] is File,
        t1.contains_key(read_of(s[i]).unwrap()),
        t1[read_of(s[i]).unwrap()] == t[read_of(s[i]).unwrap()],
    decreases s.len(),
{
    let from = read_of(s[i]).unwrap();
    assert forall|j: int| 0 <= j < s.len() implies target_of(#[trigger] s[j]) != from by {
        assert(read_of(s[i]) != Some(target_of(s[j])));
    }
    lemma_untouched(t, s, t1, from);
    if i > 0 {
        let t2 = apply_action(t, s[0]).unwrap();
        lemma_separated_rest(s);
        assert(s.drop_first()[i - 1] == s[i]);
        lemma_reads_kept(t2, s.drop_first(), t1, i - 1);
        assert(target_of(s[0]) != from);
    }
}

/// After a successful run of separated actions, each target holds what its
/// action wrote.
proof fn lemma_targets_written(t: Tree, s: Seq<CopyAction>, t1: Tree, i: int)
    requires
        separated(s),
        apply_actions(t, s) == Some(t1),
        0 <= i < s.len(),
    ensures
        t1.contains_key(target_of(s[i])),
        t1[target_of(s[i])] == written(t, s[i]),
    decreases s.len(),
{
    let t2 = apply_action(t, s[0]).unwrap();
    let rest = s.drop_first();
    lemma_separated_rest(s);
    if i == 0 {
        assert forall|j: int| 0 <= j < rest.len() implies target_of(#[trigger] rest[j])
            != target_of(s[0]) by {
            assert(rest[j] == s[j + 1]);
        }
        lemma_untouched(t2, rest, t1, target_of(s[0]));
    } else {
        assert(rest[i - 1] == s[i]);
        lemma_targets_written(t2, rest, t1, i - 1);
        assert(read_of(s[i]) != Some(target_of(s[0])));
    }
}

/// Actions each of which leaves `t1` as it is leave it as it is together.
proof fn lemma_fixed_point(t1: Tree, s: Seq<CopyAction>)
    requires
        forall|i: int| 0 <= i < s.len() ==> apply_action(t1, #[trigger] s[i]) == Some(t1),
    ensures
        apply_actions(t1, s) == Some(t1),
    decreases s.len(),
{
    if s.len() > 0 {
        let rest = s.drop_first();
        assert forall|i: int| 0 <= i < rest.len() implies apply_action(t1, #[trigger] rest[i])
            == Some(t1) by {
            assert(rest[i] == s[i + 1]);
        }
        assert(apply_action(t1, s[0]) == Some(t1));
        lemma_fixed_point(t1, rest);
    }
}

proof fn lemma_join_injective(a: Seq<char>, b1: Seq<char>, b2: Seq<char>)
    requires
        path_join(a, b1) == path_join(a, b2),
    ensures
        b1 == b2,
{
    let x = path_join(a, Seq::empty());
    assert(path_join(a, b1) == x + b1);
    assert(path_join(a, b2) == x + b2);
    assert(b1 =~= (x + b1).subrange(x.len() as int, (x + b1).len() as int));
    assert(b2 =~= (x + b2).subrange(x.len() as int, (x + b2).len() as int));
}

/// The entries of a tree listing: distinct, non-empty relative paths.
pub open spec fn listing_wf(entries: Seq<TreeEntry>) -> bool {
    &&& forall|i: int| 0 <= i < entries.len() ==> (#[trigger] entries[i]).path@.len() > 0
    &&& forall|i: int, j: int|
        0 <= i < j < entries.len() ==> (#[trigger] entries[i]).path@ != (#[trigger] entries[j]).path@
}

/// No path of the source tree is a path of the destination tree.
pub open spec fn trees_apart(source: Seq<char>, destination: Seq<char>, entries: Seq<TreeEntry>) -> bool {
    forall|i: int, j: int|
        0 <= i < entries.len() && 0 <= j < entries.len() ==> path_join(
            source,
            (#[trigger] entries[i]).path@,
        ) != destination && path_join(source, entries[i].path@) != path_join(
            destination,
            (#[trigger] entries[j]).path@,
        )
}

proof fn lemma_plan_separated(
    source: Seq<char>,
    destination: Seq<char>,
    entries: Seq<TreeEntry>,
    plan: Seq<CopyAction>,
)
    requires
        is_copy_plan(source, destination, entries, plan),
        listing_wf(entries),
        trees_apart(source, destination, entries),
    ensures
        separated(plan),
{
    assert forall|i: int| 0 < i < plan.len() implies target_of(#[trigger] plan[i]) == path_join(
        destination,
        entries[i - 1].path@,
    ) && (read_of(plan[i]) is Some ==> read_of(plan[i]) == Some(
        path_join(source, entries[i - 1].path@),
    )) by {
        assert(action_for(source, destination, entries[i - 1], plan[(i - 1) + 1]));
    }
    assert(target_of(plan[0]) == destination);
    assert(read_of(plan[0]) is None);
    assert forall|i: int, j: int| 0 <= i < j < plan.len() implies target_of(plan[i]) != target_of(
        plan[j],
    ) by {
        let pj = entries[j - 1].path@;
        if i == 0 {
            assert(path_join(destination, pj).len() > destination.len());
        } else {
            let pi = entries[i - 1].path@;
            if path_join(destination, pi) == path_join(destination, pj) {
                lemma_join_injective(destination, pi, pj);
            }
        }
    }
    assert forall|i: int, j: int|
        #![trigger plan[i], plan[j]]
        0 <= i < plan.len() && 0 <= j < plan.len() implies read_of(plan[i]) != Some(
        target_of(plan[j]),
    ) by {
        if i > 0 && read_of(plan[i]) is Some {
            if j == 0 {
                assert(path_join(source, entries[i - 1].path@) != destination);
            } else {
                assert(path_join(source, entries[i - 1].path@) != path_join(
                    destination,
                    entries[j - 1].path@,
                ));
            }
        }
    }
}

/// Copying a tree is idempotent: where a copy succeeds, copying again
/// succeeds and changes nothing, whatever the destination held before; and
/// after it each listed file's bytes stand at its place in the destination.
/// The source and destination trees must not share a path.
pub proof fn lemma_copy_twice_same_as_once(
    source: Seq<char>,
    destination: Seq<char>,
    entries: Seq<TreeEntry>,
    plan: Seq<CopyAction>,
    t: Tree,
    t1: Tree,
)
    requires
        is_copy_plan(source, destination, entries, plan),
        listing_wf(entries),
        trees_apart(source, destination, entries),
        apply_actions(t, plan) == Some(t1),
    ensures
        apply_actions(t1, plan) == Some(t1),
        forall|i: int|
            0 <= i < entries.len() && !(#[trigger] entries[i]).is_dir ==> t1.contains_key(
                path_join(destination, entries[i].path@),
            ) && t1[path_join(destination, entries[i].path@)] == t[path_join(source, entries[i].path@)],
        forall|i: int|
            0 <= i < entries.len() && (#[trigger] entries[i]).is_dir ==> t1.contains_key(
                path_join(destination, entries[i].path@),
            ) && t1[path_join(destination, entries[i].path@)] == Node::Dir,
{
    lemma_plan_separated(source, destination, entries, plan);
    assert forall|i: int| 0 <= i < plan.len() implies apply_action(t1, #[trigger] plan[i]) == Some(
        t1,
    ) by {
        lemma_targets_written(t, plan, t1, i);
        if read_of(plan[i]) is Some {
            lemma_reads_kept(t, plan, t1, i);
        }
        match plan[i] {
            CopyAction::MakeDir(p) => {
                assert(target_of(plan[i]) == p@);
            },
            CopyAction::CopyFile { from, to } => {
                assert(target_of(plan[i]) == to@);
                assert(t1.insert(to@, t1[from@]) =~= t1);
            },
        }
    }
    lemma_fixed_point(t1, plan);
    assert forall|i: int| 0 <= i < entries.len() implies (!(#[trigger] entries[i]).is_dir
        ==> t1.contains_key(path_join(destination, entries[i].path@)) && t1[path_join(
        destination,
        entries[i].path@,
    )] == t[path_join(source, entries[i].path@)]) && (entries[i].is_dir ==> t1.contains_key(
        path_join(destination, entries[i].path@),
    ) && t1[path_join(destination, entries[i].path@)] == Node::Dir) by {
        assert(action_for(source, destination, entries[i], plan[i + 1]));
        assert(0 <= i + 1 < plan.len());
        let a = plan[i + 1];
        lemma_targets_written(t, plan, t1, i + 1);
        assert(t1.contains_key(target_of(a)) && t1[target_of(a)] == written(t, a));
    }
}

} // verus!
