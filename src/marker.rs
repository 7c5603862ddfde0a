//! Searching text for a marker, ignoring ASCII letter case.
use vstd::prelude::*;
use vstd::string::*;

verus! {

/// The character with ASCII upper-case letters taken to lower case.
pub open spec fn fold_case(c: char) -> char {
    if 'A' <= c && c <= 'Z' {
        ((c as u8) + 32) as u8 as char
    } else {
        c
    }
}

/// `marker` occurs in `text` starting at position `i`, up to ASCII letter case.
pub open spec fn occurs_at(text: Seq<char>, marker: Seq<char>, i: int) -> bool {
    &&& 0 <= i
    &&& i + marker.len() <= text.len()
    &&& forall|j: int| 0 <= j < marker.len() ==> fold_case(#[trigger] text[i + j]) == fold_case(marker[j])
}

/// `marker` occurs somewhere in `text`, up to ASCII letter case.
pub open spec fn contains_folded(text: Seq<char>, marker: Seq<char>) -> bool {
    exists|i: int| occurs_at(text, marker, i)
}

fn fold_char(c: char) -> (r: char)
    ensures
        r == fold_case(c),
{
    if 'A' <= c && c <= 'Z' {
        ((c as u8) + 32) as char
    } else {
        c
    }
}

fn chars_of(s: &str) -> (r: Vec<char>)
    ensures
        r@ == s@,
{
    let n = s.unicode_len();
    let mut out: Vec<char> = Vec::new();
    let mut i: usize = 0;
    while i < n
        invariant
            n == s@.len(),
            i <= n,
            out@ == s@.subrange(0, i as int),
        decreases n - i,
    {
        out.push(s.get_char(i));
        i = i + 1;
    }
    assert(out@ =~= s@);
    out
}

fn matches_at(t: &Vec<char>, m: &Vec<char>, i: usize) -> (r: bool)
    requires
        i + m@.len() <= t@.len(),
    ensures
        r == occurs_at(t@, m@, i as int),
{
    let n = t.len();
    let mut j: usize = 0;
    while j < m.len()
        invariant
            n == t@.len(),
            i + m@.len() <= t@.len(),
            j <= m@.len(),
            forall|q: int| 0 <= q < j ==> fold_case(#[trigger] t@[i + q]) == fold_case(m@[q]),
        decreases m@.len() - j,
    {
        if fold_char(t[i + j]) != fold_char(m[j]) {
            assert(fold_case(t@[i + j as int]) != fold_case(m@[j as int]));
            return false;
        }
        j = j + 1;
    }
    true
}

/// Whether `marker` occurs in `text` when ASCII letter case is ignored.
pub fn contains_ignore_case(text: &str, marker: &str) -> (r: bool)
    ensures
        r == contains_folded(text@, marker@),
{
    let t = chars_of(text);
    let m = chars_of(marker);
    if m.len() > t.len() {
        return false;
    }
    let last = t.len() - m.len();
    let mut i: usize = 0;
    while i < last
        invariant
            t@ == text@,
            m@ == marker@,
            last == t@.len() - m@.len(),
            i <= last,
            forall|k: int| 0 <= k < i ==> !occurs_at(text@, marker@, k),
        decreases last - i,
    {
        if matches_at(&t, &m, i) {
            return true;
        }
        i = i + 1;
    }
    let found = matches_at(&t, &m, last);
    assert(!found ==> forall|k: int| !occurs_at(text@, marker@, k)) by {
        if !found {
            assert forall|k: int| !occurs_at(text@, marker@, k) by {
                if occurs_at(text@, marker@, k) {
                    assert(k < last);
                }
            }
        }
    }
    found
}

/// The word that marks a dark appearance in a preference or theme name.
pub open spec fn dark_marker() -> Seq<char> {
    seq!['d', 'a', 'r', 'k']
}

/// Whether `text` mentions the dark marker in any ASCII letter case.
pub fn mentions_dark(text: &str) -> (r: bool)
    ensures
        r == contains_folded(text@, dark_marker()),
{
    let marker = "dark";
    proof {
        reveal_strlit("dark");
    }
    assert(marker@ =~= dark_marker());
    contains_ignore_case(text, marker)
}

} // verus!
