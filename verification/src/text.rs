//! Searching and cutting character sequences.
//!
//! Paths and display names are derived from one another by deleting a fixed
//! piece wherever it occurs and by keeping what follows the last separator.
//! Both operations scan from the left and never let two occurrences overlap,
//! so they are defined here once, over `Seq<char>`, and every function of this
//! module is proved against those definitions.

use vstd::prelude::*;
use vstd::string::*;

verus! {

/// What a list of strings says: the character sequence of each, in order.
pub open spec fn texts(v: Seq<String>) -> Seq<Seq<char>> {
    v.map_values(|s: String| s@)
}

/// `pat` stands in `s` at offset `at`.
pub open spec fn occurs_at(s: Seq<char>, pat: Seq<char>, at: int) -> bool {
    &&& 0 <= at
    &&& at + pat.len() <= s.len()
    &&& s.subrange(at, at + pat.len()) == pat
}

/// The offset of the leftmost occurrence of `pat` in `s` that starts at or
/// after `from`, or `-1` when there is none.
pub open spec fn first_occurrence(s: Seq<char>, pat: Seq<char>, from: int) -> int
    decreases s.len() - from + 1,
{
    if from < 0 || from + pat.len() > s.len() {
        -1
    } else if occurs_at(s, pat, from) {
        from
    } else {
        first_occurrence(s, pat, from + 1)
    }
}

/// `s` with every occurrence of `pat` deleted. Occurrences are found from the
/// left and do not overlap: after one is deleted the search resumes behind it.
/// An empty `pat` deletes nothing.
pub open spec fn remove_all(s: Seq<char>, pat: Seq<char>) -> Seq<char>
    decreases s.len(),
{
    let at = first_occurrence(s, pat, 0);
    if pat.len() == 0 || at < 0 || at + pat.len() > s.len() {
        s
    } else {
        s.subrange(0, at) + remove_all(s.subrange(at + pat.len(), s.len() as int), pat)
    }
}

/// What follows the last separator `pat` when `s` is split at every
/// occurrence of `pat`, occurrences being found from the left without overlap;
/// all of `s` when `pat` does not occur. Splitting at the empty separator
/// leaves an empty last piece.
pub open spec fn last_segment(s: Seq<char>, pat: Seq<char>) -> Seq<char>
    decreases s.len(),
{
    let at = first_occurrence(s, pat, 0);
    if pat.len() == 0 {
        Seq::empty()
    } else if at < 0 || at + pat.len() > s.len() {
        s
    } else {
        last_segment(s.subrange(at + pat.len(), s.len() as int), pat)
    }
}

/// `first_occurrence` is an occurrence, and the leftmost one from `from` on;
/// `-1` means that there is none from `from` on.
pub proof fn lemma_first_occurrence_is_leftmost(s: Seq<char>, pat: Seq<char>, from: int)
    requires
        0 <= from,
    ensures
        ({
            let at = first_occurrence(s, pat, from);
            &&& at == -1 || (from <= at && occurs_at(s, pat, at))
            &&& forall|j: int| from <= j && (at == -1 || j < at) ==> !occurs_at(s, pat, j)
        }),
    decreases s.len() - from + 1,
{
    if from + pat.len() > s.len() {
    } else if occurs_at(s, pat, from) {
    } else {
        lemma_first_occurrence_is_leftmost(s, pat, from + 1);
    }
}

/// Searching in the tail of `s` that starts at `base` is searching in `s`
/// from `base` on, with offsets counted from `base`.
pub proof fn lemma_first_occurrence_in_tail(s: Seq<char>, pat: Seq<char>, base: int, from: int)
    requires
        0 <= base <= s.len(),
        0 <= from,
    ensures
        ({
            let whole = first_occurrence(s, pat, base + from);
            let tail = first_occurrence(s.subrange(base, s.len() as int), pat, from);
            tail == if whole < 0 {
                -1
            } else {
                whole - base
            }
        }),
    decreases s.len() - base - from + 1,
{
    let t = s.subrange(base, s.len() as int);
    if from + pat.len() > t.len() {
    } else {
        assert(t.subrange(from, from + pat.len()) == s.subrange(
            base + from,
            base + from + pat.len(),
        ));
        if occurs_at(t, pat, from) {
        } else {
            lemma_first_occurrence_in_tail(s, pat, base, from + 1);
        }
    }
}

/// The characters of `s`, one by one.
pub fn chars_of(s: &str) -> (v: Vec<char>)
    ensures
        v@ == s@,
{
    broadcast use vstd::string::group_string_axioms;

    let mut v: Vec<char> = Vec::new();
    for c in it: s.chars()
        invariant
            it.seq() == s@,
            v@ == it.seq().take(it.index() as int),
    {
        v.push(c);
    }
    assert(v@ == s@.take(s@.len() as int));
    v
}

/// Whether `pat` stands in `s` at offset `at`.
pub fn occurs(s: &Vec<char>, pat: &Vec<char>, at: usize) -> (r: bool)
    ensures
        r == occurs_at(s@, pat@, at as int),
{
    if pat.len() > s.len() || at > s.len() - pat.len() {
        return false;
    }
    let mut k: usize = 0;
    while k < pat.len()
        invariant
            k <= pat.len(),
            at + pat.len() <= s.len(),
            forall|j: int| 0 <= j < k ==> s@[at + j] == pat@[j],
        decreases pat.len() - k,
    {
        if s[at + k] != pat[k] {
            assert(s@.subrange(at as int, at + pat.len())[k as int] == s@[at + k]);
            return false;
        }
        k += 1;
    }
    assert(s@.subrange(at as int, at + pat.len()) =~= pat@);
    true
}

/// The leftmost occurrence of `pat` in `s` at or after `from`.
pub fn find(s: &Vec<char>, pat: &Vec<char>, from: usize) -> (r: Option<usize>)
    ensures
        match r {
            Some(at) => at == first_occurrence(s@, pat@, from as int),
            None => first_occurrence(s@, pat@, from as int) == -1,
        },
{
    if pat.len() > s.len() {
        return None;
    }
    let last: usize = s.len() - pat.len();
    if from > last {
        return None;
    }
    let mut at: usize = from;
    loop
        invariant
            last + pat.len() == s.len(),
            from <= at <= last,
            first_occurrence(s@, pat@, from as int) == first_occurrence(s@, pat@, at as int),
        decreases last - at,
    {
        if occurs(s, pat, at) {
            return Some(at);
        }
        if at == last {
            assert(first_occurrence(s@, pat@, at + 1) == -1);
            return None;
        }
        at += 1;
    }
}

/// `s` with every occurrence of `pat` deleted.
pub fn strip_all(s: &str, pat: &str) -> (r: String)
    ensures
        r@ == remove_all(s@, pat@),
{
    let text = chars_of(s);
    let piece = chars_of(pat);
    if piece.len() == 0 {
        return s.to_owned();
    }
    let mut out = String::new();
    let mut start: usize = 0;
    assert(text@.subrange(0, text@.len() as int) == text@);
    assert(out@ + remove_all(text@, piece@) == remove_all(text@, piece@));
    loop
        invariant
            text@ == s@,
            piece@ == pat@,
            piece@.len() > 0,
            start <= text.len(),
            out@ + remove_all(text@.subrange(start as int, text@.len() as int), piece@)
                == remove_all(text@, piece@),
        decreases text.len() - start,
    {
        let ghost tail = text@.subrange(start as int, text@.len() as int);
        proof {
            lemma_first_occurrence_in_tail(text@, piece@, start as int, 0);
            lemma_first_occurrence_is_leftmost(text@, piece@, start as int);
        }
        match find(&text, &piece, start) {
            None => {
                out.append(s.substring_char(start, text.len()));
                return out;
            },
            Some(at) => {
                proof {
                    assert(tail.subrange(0, at - start) == text@.subrange(start as int, at as int));
                    assert(tail.subrange(at - start + piece@.len(), tail.len() as int)
                        == text@.subrange(at + piece@.len(), text@.len() as int));
                }
                let ghost before = out@;
                out.append(s.substring_char(start, at));
                assert(out@ + remove_all(
                    text@.subrange(at + piece@.len(), text@.len() as int),
                    piece@,
                ) == before + remove_all(tail, piece@));
                start = at + piece.len();
            },
        }
    }
}

/// What follows the last separator `pat` in `s`.
pub fn split_last(s: &str, pat: &str) -> (r: String)
    ensures
        r@ == last_segment(s@, pat@),
{
    let text = chars_of(s);
    let piece = chars_of(pat);
    if piece.len() == 0 {
        return String::new();
    }
    let mut start: usize = 0;
    assert(text@.subrange(0, text@.len() as int) == text@);
    loop
        invariant
            text@ == s@,
            piece@ == pat@,
            piece@.len() > 0,
            start <= text.len(),
            last_segment(text@.subrange(start as int, text@.len() as int), piece@) == last_segment(
                text@,
                piece@,
            ),
        decreases text.len() - start,
    {
        let ghost tail = text@.subrange(start as int, text@.len() as int);
        proof {
            lemma_first_occurrence_in_tail(text@, piece@, start as int, 0);
            lemma_first_occurrence_is_leftmost(text@, piece@, start as int);
        }
        match find(&text, &piece, start) {
            None => {
                return s.substring_char(start, text.len()).to_owned();
            },
            Some(at) => {
                proof {
                    assert(tail.subrange(at - start + piece@.len(), tail.len() as int)
                        == text@.subrange(at + piece@.len(), text@.len() as int));
                }
                start = at + piece.len();
            },
        }
    }
}

} // verus!
