//! Plain text as a sequence of characters: reading a string into a vector, and
//! searching one text in another.

use vstd::prelude::*;

verus! {

/// `needle` stands in `hay` at position `at`.
pub open spec fn occurs_at(hay: Seq<char>, needle: Seq<char>, at: int) -> bool {
    &&& 0 <= at
    &&& at + needle.len() <= hay.len()
    &&& hay.subrange(at, at + needle.len()) == needle
}

/// `needle` stands somewhere in `hay`. Characters are compared as they are:
/// upper and lower case differ.
pub open spec fn contains_text(hay: Seq<char>, needle: Seq<char>) -> bool {
    exists|at: int| occurs_at(hay, needle, at)
}

/// The characters of `s`, in order.
pub fn chars_of(s: &str) -> (chars: Vec<char>)
    ensures
        chars@ == s@,
{
    let mut chars: Vec<char> = Vec::new();
    for c in it: s.chars()
        invariant
            it.seq() == s@,
            chars@ == it.seq().subrange(0, it.index() as int),
    {
        chars.push(c);
    }
    chars
}

/// Whether `needle` stands in `hay` at position `at`.
fn matches_at(hay: &Vec<char>, needle: &Vec<char>, at: usize) -> (found: bool)
    requires
        at + needle.len() <= hay.len(),
    ensures
        found == occurs_at(hay@, needle@, at as int),
{
    let mut k: usize = 0;
    while k < needle.len()
        invariant
            k <= needle.len(),
            at + needle.len() <= hay.len(),
            forall|j: int| 0 <= j < k ==> hay@[at + j] == needle@[j],
        decreases needle.len() - k,
    {
        if hay[at + k] != needle[k] {
            assert(hay@.subrange(at as int, at + needle.len())[k as int] == hay@[at + k]);
            return false;
        }
        k += 1;
    }
    assert(hay@.subrange(at as int, at + needle.len()) =~= needle@);
    true
}

/// Whether `needle` stands somewhere in `hay`, both given as characters.
pub fn contains_chars(hay: &Vec<char>, needle: &Vec<char>) -> (found: bool)
    ensures
        found == contains_text(hay@, needle@),
{
    if needle.len() > hay.len() {
        return false;
    }
    let last: usize = hay.len() - needle.len();
    let mut at: usize = 0;
    loop
        invariant
            at <= last,
            last == hay.len() - needle.len(),
            forall|j: int| 0 <= j < at ==> !occurs_at(hay@, needle@, j),
        decreases last - at,
    {
        if matches_at(hay, needle, at) {
            return true;
        }
        if at == last {
            return false;
        }
        at += 1;
    }
}

/// Whether `needle` stands somewhere in `hay`.
pub fn contains(hay: &str, needle: &str) -> (found: bool)
    ensures
        found == contains_text(hay@, needle@),
{
    let hay_chars = chars_of(hay);
    let needle_chars = chars_of(needle);
    contains_chars(&hay_chars, &needle_chars)
}

/// A character that stands at `at` and nowhere before it is the first of its
/// kind in `s`.
pub proof fn lemma_first_occurrence(s: Seq<char>, c: char, at: int)
    requires
        0 <= at < s.len(),
        s[at] == c,
        forall|j: int| 0 <= j < at ==> s[j] != c,
    ensures
        s.index_of_first(c) == Some(at),
{
    s.index_of_first_ensures(c);
    assert(s.contains(c));
}

/// A character that stands at `at` and nowhere after it is the last of its
/// kind in `s`.
pub proof fn lemma_last_occurrence(s: Seq<char>, c: char, at: int)
    requires
        0 <= at < s.len(),
        s[at] == c,
        forall|j: int| at < j < s.len() ==> s[j] != c,
    ensures
        s.index_of_last(c) == Some(at),
{
    s.index_of_last_ensures(c);
    assert(s.contains(c));
}

/// A character that stands nowhere in `s` has neither a first nor a last place
/// in it.
pub proof fn lemma_no_occurrence(s: Seq<char>, c: char)
    requires
        forall|j: int| 0 <= j < s.len() ==> s[j] != c,
    ensures
        s.index_of_first(c) is None,
        s.index_of_last(c) is None,
{
    s.index_of_first_ensures(c);
    s.index_of_last_ensures(c);
}

/// The first place of `c` in `chars`, if it has one.
pub fn find_first(chars: &Vec<char>, c: char) -> (place: Option<usize>)
    ensures
        match place {
            Some(at) => chars@.index_of_first(c) == Some(at as int),
            None => chars@.index_of_first(c) is None,
        },
{
    let mut at: usize = 0;
    while at < chars.len()
        invariant
            at <= chars.len(),
            forall|j: int| 0 <= j < at ==> chars@[j] != c,
        decreases chars.len() - at,
    {
        if chars[at] == c {
            proof {
                lemma_first_occurrence(chars@, c, at as int);
            }
            return Some(at);
        }
        at += 1;
    }
    proof {
        lemma_no_occurrence(chars@, c);
    }
    None
}

/// The last place of `c` in `chars`, if it has one.
pub fn find_last(chars: &Vec<char>, c: char) -> (place: Option<usize>)
    ensures
        match place {
            Some(at) => chars@.index_of_last(c) == Some(at as int),
            None => chars@.index_of_last(c) is None,
        },
{
    let mut left: usize = chars.len();
    while left > 0
        invariant
            left <= chars.len(),
            forall|j: int| left <= j < chars.len() ==> chars@[j] != c,
        decreases left,
    {
        left -= 1;
        if chars[left] == c {
            proof {
                lemma_last_occurrence(chars@, c, left as int);
            }
            return Some(left);
        }
    }
    proof {
        lemma_no_occurrence(chars@, c);
    }
    None
}

} // verus!
