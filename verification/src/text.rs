//! Searching and cutting text, stated over sequences of characters.

use vstd::prelude::*;
use vstd::string::*;

verus! {

/// Whether `pat` stands in `s` at position `i`.
pub open spec fn occurs_at(s: Seq<char>, pat: Seq<char>, i: int) -> bool {
    0 <= i && i + pat.len() <= s.len() && s.subrange(i, i + pat.len()) == pat
}

/// The rightmost position below `bound` at which `pat` stands in `s`, or
/// `-1` where there is none.
pub open spec fn last_occurrence_below(s: Seq<char>, pat: Seq<char>, bound: int) -> int
    decreases bound,
{
    if bound <= 0 {
        -1
    } else if occurs_at(s, pat, bound - 1) {
        bound - 1
    } else {
        last_occurrence_below(s, pat, bound - 1)
    }
}

/// The rightmost position at which `pat` stands in `s`, or `-1`.
pub open spec fn last_occurrence(s: Seq<char>, pat: Seq<char>) -> int {
    last_occurrence_below(s, pat, s.len() as int + 1)
}

/// What follows the rightmost occurrence of `pat` in `s`; all of `s` where
/// `pat` does not occur.
pub open spec fn after_last(s: Seq<char>, pat: Seq<char>) -> Seq<char> {
    let i = last_occurrence(s, pat);
    if i < 0 {
        s
    } else {
        s.subrange(i + pat.len(), s.len() as int)
    }
}

/// The first position from `from` on at which `s` holds `c`, or the length
/// of `s` where it holds none.
pub open spec fn first_index_from(s: Seq<char>, c: char, from: int) -> int
    decreases s.len() - from,
{
    if from < 0 || from >= s.len() {
        s.len() as int
    } else if s[from] == c {
        from
    } else {
        first_index_from(s, c, from + 1)
    }
}

/// `last_occurrence_below` is an occurrence, and the rightmost one below the
/// bound; `-1` means that there is none below it.
pub proof fn lemma_last_occurrence_below(s: Seq<char>, pat: Seq<char>, bound: int)
    ensures
        -1 <= last_occurrence_below(s, pat, bound),
        last_occurrence_below(s, pat, bound) < bound || bound <= 0,
        last_occurrence_below(s, pat, bound) >= 0 ==> occurs_at(
            s,
            pat,
            last_occurrence_below(s, pat, bound),
        ),
        forall|j: int|
            last_occurrence_below(s, pat, bound) < j < bound ==> !occurs_at(s, pat, j),
    decreases bound,
{
    if bound > 0 && !occurs_at(s, pat, bound - 1) {
        lemma_last_occurrence_below(s, pat, bound - 1);
    }
}

/// `first_index_from` finds `c`, and nothing equal to `c` stands before it.
pub proof fn lemma_first_index_from(s: Seq<char>, c: char, from: int)
    requires
        0 <= from <= s.len(),
    ensures
        from <= first_index_from(s, c, from) <= s.len(),
        first_index_from(s, c, from) < s.len() ==> s[first_index_from(s, c, from)] == c,
        forall|j: int| from <= j < first_index_from(s, c, from) ==> s[j] != c,
    decreases s.len() - from,
{
    if from < s.len() && s[from] != c {
        lemma_first_index_from(s, c, from + 1);
    }
}

/// The characters of `s`, in order.
pub fn chars_of(s: &str) -> (v: Vec<char>)
    ensures
        v@ == s@,
{
    let mut v: Vec<char> = Vec::new();
    for c in it: s.chars()
        invariant
            it.seq() == s@,
            v@ == it.seq().take(it.index() as int),
    {
        v.push(c);
        assert(it.seq().take(it.index() + 1) =~= it.seq().take(it.index() as int).push(c));
    }
    assert(v@ =~= s@);
    v
}

/// Tells whether `pat` stands in `s` at position `i`.
pub fn matches_at(s: &Vec<char>, pat: &Vec<char>, i: usize) -> (r: bool)
    ensures
        r == occurs_at(s@, pat@, i as int),
{
    if pat.len() > s.len() || i > s.len() - pat.len() {
        return false;
    }
    let mut k: usize = 0;
    while k < pat.len()
        invariant
            k <= pat.len(),
            i + pat.len() <= s.len(),
            forall|j: int| 0 <= j < k ==> s@[i + j] == pat@[j],
        decreases pat.len() - k,
    {
        if s[i + k] != pat[k] {
            assert(s@.subrange(i as int, i + pat.len())[k as int] == s@[i + k]);
            return false;
        }
        k += 1;
    }
    assert(s@.subrange(i as int, i + pat.len()) =~= pat@);
    true
}

/// The rightmost position at which `pat` stands in `s`.
pub fn find_last(s: &Vec<char>, pat: &Vec<char>) -> (r: Option<usize>)
    ensures
        match r {
            Some(i) => i as int == last_occurrence(s@, pat@) && occurs_at(s@, pat@, i as int) && i
                + pat.len() <= s.len(),
            None => last_occurrence(s@, pat@) == -1,
        },
{
    let mut bound: usize = s.len();
    if matches_at(s, pat, bound) {
        return Some(bound);
    }
    while bound > 0
        invariant
            bound <= s.len(),
            last_occurrence(s@, pat@) == last_occurrence_below(s@, pat@, bound as int),
        decreases bound,
    {
        bound -= 1;
        if matches_at(s, pat, bound) {
            return Some(bound);
        }
    }
    None
}

/// The first position from `from` on at which `s` holds `c`, or the length
/// of `s`.
pub fn find_char_from(s: &Vec<char>, c: char, from: usize) -> (r: usize)
    requires
        from <= s.len(),
    ensures
        r as int == first_index_from(s@, c, from as int),
        from <= r <= s.len(),
{
    let mut i: usize = from;
    while i < s.len()
        invariant
            from <= i <= s.len(),
            first_index_from(s@, c, from as int) == first_index_from(s@, c, i as int),
        decreases s.len() - i,
    {
        if s[i] == c {
            return i;
        }
        i += 1;
    }
    i
}

/// The text of `s` from character `from` up to character `to`.
pub fn cut(s: &str, from: usize, to: usize) -> (r: String)
    requires
        from <= to <= s@.len(),
    ensures
        r@ == s@.subrange(from as int, to as int),
{
    s.substring_char(from, to).to_owned()
}

/// `head` followed by `tail`.
pub fn join(head: &str, tail: &str) -> (r: String)
    ensures
        r@ == head@ + tail@,
{
    let mut r = String::from_str(head);
    r.append(tail);
    r
}

} // verus!
