//! Reading the runtime's listing of instances.
use vstd::prelude::*;

use crate::text::{contains, contains_text};

verus! {

/// The marker that every capsule's instance name carries.
pub open spec fn capsule_marker() -> Seq<char> {
    "capsule"@
}

/// A line without the carriage return that may end it.
pub open spec fn without_cr(l: Seq<char>) -> Seq<char> {
    if l.len() > 0 && l.last() == '\r' {
        l.drop_last()
    } else {
        l
    }
}

/// The lines that end within the first `i` characters of `s`, and where the
/// line that is still open begins.
pub open spec fn closed_lines(s: Seq<char>, i: int) -> (Seq<Seq<char>>, int)
    decreases i,
{
    if i <= 0 {
        (Seq::empty(), 0)
    } else {
        let (ls, start) = closed_lines(s, i - 1);
        if s[i - 1] == '\n' {
            (ls.push(without_cr(s.subrange(start, i - 1))), i)
        } else {
            (ls, start)
        }
    }
}

/// The lines of `s`: split at each line feed, a carriage return before it
/// dropped, and no empty line after a final line feed.
pub open spec fn lines_of(s: Seq<char>) -> Seq<Seq<char>> {
    let (ls, start) = closed_lines(s, s.len() as int);
    if start < s.len() {
        ls.push(s.subrange(start, s.len() as int))
    } else {
        ls
    }
}

pub open spec fn is_capsule_row(l: Seq<char>) -> bool {
    contains_text(l, capsule_marker())
}

/// The lines among `ls` that belong to capsules, in order.
pub open spec fn keep_capsule_rows(ls: Seq<Seq<char>>) -> Seq<Seq<char>>
    decreases ls.len(),
{
    if ls.len() == 0 {
        ls
    } else if is_capsule_row(ls.last()) {
        keep_capsule_rows(ls.drop_last()).push(ls.last())
    } else {
        keep_capsule_rows(ls.drop_last())
    }
}

/// The rows of a listing that belong to capsules, in order.
pub open spec fn capsule_rows_of(s: Seq<char>) -> Seq<Seq<char>> {
    keep_capsule_rows(lines_of(s))
}

proof fn lemma_closed_lines_bounds(s: Seq<char>, i: int)
    requires
        0 <= i <= s.len(),
    ensures
        0 <= closed_lines(s, i).1 <= i,
    decreases i,
{
    if i > 0 {
        lemma_closed_lines_bounds(s, i - 1);
    }
}

/// Appends `line` to `rows` where it belongs to a capsule.
fn keep_if_capsule(rows: &mut Vec<String>, line: &str)
    ensures
        is_capsule_row(line@) ==> final(rows).deep_view() == old(rows).deep_view().push(line@),
        !is_capsule_row(line@) ==> final(rows).deep_view() == old(rows).deep_view(),
{
    if contains(line, "capsule") {
        rows.push(String::from_str(line));
        assert(final(rows).deep_view() =~= old(rows).deep_view().push(line@));
    }
}

/// The rows of the runtime's listing `output` whose text carries the capsule
/// marker, in the order listed.
pub fn capsule_rows(output: &str) -> (r: Vec<String>)
    ensures
        r.deep_view() == capsule_rows_of(output@),
{
    let ghost s = output@;
    let n = output.unicode_len();
    let mut rows: Vec<String> = Vec::new();
    let mut start: usize = 0;
    let mut i: usize = 0;
    while i < n
        invariant
            n == s.len(),
            s == output@,
            i <= n,
            closed_lines(s, i as int).1 == start as int,
            rows.deep_view() == keep_capsule_rows(closed_lines(s, i as int).0),
        decreases n - i,
    {
        proof {
            lemma_closed_lines_bounds(s, i as int);
        }
        if output.get_char(i) == '\n' {
            let mut end = i;
            if end > start && output.get_char(end - 1) == '\r' {
                end = end - 1;
            }
            let line = output.substring_char(start, end);
            assert(line@ == without_cr(s.subrange(start as int, i as int)));
            let ghost ls = closed_lines(s, i as int).0;
            assert(closed_lines(s, i + 1) == (ls.push(line@), i + 1));
            assert(ls.push(line@).drop_last() == ls);
            keep_if_capsule(&mut rows, line);
            start = i + 1;
        } else {
            assert(closed_lines(s, i + 1) == closed_lines(s, i as int));
        }
        i = i + 1;
    }
    proof {
        lemma_closed_lines_bounds(s, n as int);
    }
    if start < n {
        let line = output.substring_char(start, n);
        let ghost ls = closed_lines(s, n as int).0;
        assert(ls.push(line@).drop_last() == ls);
        keep_if_capsule(&mut rows, line);
    }
    rows
}

} // verus!
