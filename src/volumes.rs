//! Bind-mount specifications handed to the runtime.
use vstd::prelude::*;

use crate::text::concat;

verus! {

/// The mount of a capsule's own data volume at `/files`, read-write.
pub open spec fn data_volume_of(capsule_root: Seq<char>) -> Seq<char> {
    capsule_root + ":/files:rw"@
}

/// The system mounts every capsule gets: the audio device, shared memory, the
/// pulse socket, and the user's dotfiles configuration and fonts placed in the
/// user's home inside the capsule.
pub open spec fn fixed_mounts_of(home_dir: Seq<char>, user: Seq<char>) -> Seq<Seq<char>> {
    seq![
        "/dev/snd:/dev/snd:rw"@,
        "/dev/shm:/dev/shm:rw"@,
        "/run/user/1000/pulse:/run/user/host/pulse:rw"@,
        "/files/projects/dotfiles/config:"@ + home_dir + "/"@ + user + "/.config:rw"@,
        "/files/projects/dotfiles/fonts:"@ + home_dir + "/"@ + user + "/.fonts"@,
    ]
}

/// `x` stands in `s` at its last position and nowhere else.
pub open spec fn only_last(s: Seq<Seq<char>>, x: Seq<char>) -> bool {
    &&& s.len() > 0
    &&& s.last() == x
    &&& forall|i: int| 0 <= i < s.len() - 1 ==> s[i] != x
}

/// Appends a fresh copy of `s` to `v`.
pub fn push_text(v: &mut Vec<String>, s: &str)
    ensures
        final(v).deep_view() == old(v).deep_view().push(s@),
{
    v.push(String::from_str(s));
    assert(final(v).deep_view() =~= old(v).deep_view().push(s@));
}

/// The data volume mount of the capsule whose data lives at `capsule_root`.
pub fn data_volume(capsule_root: &str) -> (r: String)
    ensures
        r@ == data_volume_of(capsule_root@),
{
    concat(capsule_root, ":/files:rw")
}

/// The system mounts, for a capsule whose home directories are under
/// `home_dir` and whose user is `user`.
pub fn fixed_mounts(home_dir: &str, user: &str) -> (r: Vec<String>)
    ensures
        r.deep_view() == fixed_mounts_of(home_dir@, user@),
{
    let mut r: Vec<String> = Vec::new();
    push_text(&mut r, "/dev/snd:/dev/snd:rw");
    push_text(&mut r, "/dev/shm:/dev/shm:rw");
    push_text(&mut r, "/run/user/1000/pulse:/run/user/host/pulse:rw");
    let config = concat("/files/projects/dotfiles/config:", home_dir).concat("/").concat(user).concat(
        "/.config:rw",
    );
    push_text(&mut r, config.as_str());
    let fonts = concat("/files/projects/dotfiles/fonts:", home_dir).concat("/").concat(user).concat(
        "/.fonts",
    );
    push_text(&mut r, fonts.as_str());
    assert(r.deep_view() =~= fixed_mounts_of(home_dir@, user@));
    r
}

/// The mounts of a capsule in order: the fixed ones, then the caller's in the
/// order given, then the data volume, once, last.
pub fn compose(fixed: Vec<String>, caller: Vec<String>, data: String) -> (r: Vec<String>)
    ensures
        r@ == fixed@ + caller@ + seq![data],
        r.deep_view() == fixed.deep_view() + caller.deep_view() + seq![data@],
        (forall|i: int| 0 <= i < fixed@.len() ==> fixed@[i]@ != data@) && (forall|i: int|
            0 <= i < caller@.len() ==> caller@[i]@ != data@) ==> only_last(r.deep_view(), data@),
{
    let ghost d = data@;
    let mut r = fixed;
    let mut rest = caller;
    r.append(&mut rest);
    r.push(data);
    assert(r.deep_view() =~= fixed.deep_view() + caller.deep_view() + seq![d]);
    r
}

/// The fixed mounts never coincide with a data volume mount.
pub proof fn lemma_fixed_mounts_differ_from_data(
    home_dir: Seq<char>,
    user: Seq<char>,
    capsule_root: Seq<char>,
)
    ensures
        forall|i: int|
            0 <= i < fixed_mounts_of(home_dir, user).len() ==> fixed_mounts_of(home_dir, user)[i]
                != data_volume_of(capsule_root),
{
    reveal_strlit(":/files:rw");
    reveal_strlit("/dev/snd:/dev/snd:rw");
    reveal_strlit("/dev/shm:/dev/shm:rw");
    reveal_strlit("/run/user/1000/pulse:/run/user/host/pulse:rw");
    reveal_strlit("/.config:rw");
    reveal_strlit("/.fonts");
    let d = data_volume_of(capsule_root);
    let f = fixed_mounts_of(home_dir, user);
    assert(d[d.len() - 4] == 's');
    assert(d.last() == 'w');
    assert(f[0][f[0].len() - 4] == 'd');
    assert(f[1][f[1].len() - 4] == 'm');
    assert(f[2][f[2].len() - 4] == 'e');
    let c = "/files/projects/dotfiles/config:"@ + home_dir + "/"@ + user;
    assert(f[3] == c + "/.config:rw"@);
    assert(f[3][f[3].len() - 4] == 'g');
    let g = "/files/projects/dotfiles/fonts:"@ + home_dir + "/"@ + user;
    assert(f[4] == g + "/.fonts"@);
    assert(f[4].last() == 's');
}

} // verus!
