//! Small string operations on which paths and names are built.
use vstd::prelude::*;

verus! {

/// `a` and `b` joined by one separator: none is added where `a` already
/// ends with `/`.
pub open spec fn path_join(a: Seq<char>, b: Seq<char>) -> Seq<char> {
    if a.len() > 0 && a.last() == '/' {
        a + b
    } else {
        a + seq!['/'] + b
    }
}

/// `p` names a location from the filesystem root.
pub open spec fn is_absolute(p: Seq<char>) -> bool {
    p.len() > 0 && p[0] == '/'
}

/// `t` occurs in `s` at position `k`.
pub open spec fn occurs_at(s: Seq<char>, t: Seq<char>, k: int) -> bool {
    0 <= k && k + t.len() <= s.len() && s.subrange(k, k + t.len()) == t
}

/// `t` occurs somewhere in `s`.
pub open spec fn contains_text(s: Seq<char>, t: Seq<char>) -> bool {
    exists|k: int| occurs_at(s, t, k)
}

/// A fresh string holding `a` followed by `b`.
pub fn concat(a: &str, b: &str) -> (r: String)
    ensures
        r@ == a@ + b@,
{
    let s = String::from_str(a);
    s.concat(b)
}

/// Whether `a` and `b` hold the same characters.
pub fn same_text(a: &str, b: &str) -> (r: bool)
    ensures
        r == (a@ == b@),
{
    let n = a.unicode_len();
    if n != b.unicode_len() {
        return false;
    }
    let mut i: usize = 0;
    while i < n
        invariant
            n == a@.len(),
            n == b@.len(),
            i <= n,
            a@.subrange(0, i as int) == b@.subrange(0, i as int),
        decreases n - i,
    {
        if a.get_char(i) != b.get_char(i) {
            return false;
        }
        assert(a@.subrange(0, i + 1) == a@.subrange(0, i as int).push(a@[i as int]));
        assert(b@.subrange(0, i + 1) == b@.subrange(0, i as int).push(b@[i as int]));
        i = i + 1;
    }
    assert(a@ == a@.subrange(0, n as int));
    assert(b@ == b@.subrange(0, n as int));
    true
}

/// Whether `t` occurs in `s` at position `k`.
pub fn text_at(s: &str, t: &str, k: usize) -> (r: bool)
    ensures
        r == occurs_at(s@, t@, k as int),
{
    let n = s.unicode_len();
    let m = t.unicode_len();
    if k > n || m > n - k {
        return false;
    }
    let part = s.substring_char(k, k + m);
    same_text(part, t)
}

/// Whether `t` occurs anywhere in `s`.
pub fn contains(s: &str, t: &str) -> (r: bool)
    ensures
        r == contains_text(s@, t@),
{
    let n = s.unicode_len();
    let m = t.unicode_len();
    if m > n {
        assert forall|k: int| !occurs_at(s@, t@, k) by {}
        return false;
    }
    let mut k: usize = 0;
    loop
        invariant
            n == s@.len(),
            m == t@.len(),
            m <= n,
            k <= n - m,
            forall|j: int| 0 <= j < k ==> !occurs_at(s@, t@, j),
        ensures
            forall|j: int| 0 <= j <= n - m ==> !occurs_at(s@, t@, j),
        decreases n - m - k,
    {
        if text_at(s, t, k) {
            return true;
        }
        if k == n - m {
            break;
        }
        k = k + 1;
    }
    assert forall|j: int| !occurs_at(s@, t@, j) by {
        if 0 <= j <= n - m {
        }
    }
    false
}

/// `a` and `b` joined by one separator, as `path_join` says.
pub fn join_path(a: &str, b: &str) -> (r: String)
    ensures
        r@ == path_join(a@, b@),
{
    let n = a.unicode_len();
    if n > 0 && a.get_char(n - 1) == '/' {
        concat(a, b)
    } else {
        let with_sep = concat(a, "/");
        proof {
            reveal_strlit("/");
        }
        assert(with_sep@ == a@ + seq!['/']);
        with_sep.concat(b)
    }
}

} // verus!
