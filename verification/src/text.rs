//! Text as sequences of characters: conversion between strings and character
//! vectors, and substring search.

use vstd::prelude::*;
use vstd::std_specs::iter::IteratorSpec;

verus! {

/// `String::push` appends one character to the end of the string.
pub assume_specification[ String::push ](s: &mut String, ch: char)
    ensures
        final(s)@ == old(s)@.push(ch),
;

/// `needle` stands in `hay` at position `at`.
pub open spec fn occurs_at(hay: Seq<char>, needle: Seq<char>, at: int) -> bool {
    &&& 0 <= at
    &&& at + needle.len() <= hay.len()
    &&& hay.subrange(at, at + needle.len()) == needle
}

/// `needle` stands somewhere in `hay`.
pub open spec fn contains(hay: Seq<char>, needle: Seq<char>) -> bool {
    exists|at: int| occurs_at(hay, needle, at)
}

/// `at` is the leftmost position at which `needle` stands in `hay`.
pub open spec fn is_first_occurrence(hay: Seq<char>, needle: Seq<char>, at: int) -> bool {
    &&& occurs_at(hay, needle, at)
    &&& forall|earlier: int| 0 <= earlier < at ==> !occurs_at(hay, needle, earlier)
}

/// The leftmost position of `needle` in `hay`, if it stands there at all.
pub open spec fn first_occurrence(hay: Seq<char>, needle: Seq<char>) -> Option<int> {
    if contains(hay, needle) {
        Some(choose|at: int| is_first_occurrence(hay, needle, at))
    } else {
        None
    }
}

/// Among the positions where `needle` stands, there is a leftmost one, and
/// `first_occurrence` names it.
pub proof fn lemma_first_occurrence(hay: Seq<char>, needle: Seq<char>, at: int)
    requires
        is_first_occurrence(hay, needle, at),
    ensures
        first_occurrence(hay, needle) == Some(at),
{
    assert(contains(hay, needle));
    let chosen = choose|c: int| is_first_occurrence(hay, needle, c);
    assert(is_first_occurrence(hay, needle, chosen));
    if chosen < at {
        assert(!occurs_at(hay, needle, chosen));
    } else if at < chosen {
        assert(!occurs_at(hay, needle, at));
    }
}

/// Wherever `needle` stands in `hay`, it stands at a leftmost position at or
/// before that place.
pub proof fn lemma_leftmost_exists(hay: Seq<char>, needle: Seq<char>, at: int)
    requires
        occurs_at(hay, needle, at),
    ensures
        exists|first: int| first <= at && is_first_occurrence(hay, needle, first),
    decreases at,
{
    if exists|earlier: int| 0 <= earlier < at && occurs_at(hay, needle, earlier) {
        let earlier = choose|earlier: int| 0 <= earlier < at && occurs_at(hay, needle, earlier);
        lemma_leftmost_exists(hay, needle, earlier);
    } else {
        assert(is_first_occurrence(hay, needle, at));
    }
}

/// Where `needle` stands in `hay`, `first_occurrence` is its leftmost
/// position.
pub proof fn lemma_first_occurrence_is_leftmost(hay: Seq<char>, needle: Seq<char>)
    requires
        contains(hay, needle),
    ensures
        first_occurrence(hay, needle) matches Some(at) && is_first_occurrence(hay, needle, at),
{
    let somewhere = choose|at: int| occurs_at(hay, needle, at);
    lemma_leftmost_exists(hay, needle, somewhere);
}

/// The characters of a string, in order.
pub fn chars_of(s: &str) -> (chars: Vec<char>)
    ensures
        chars@ == s@,
{
    let mut chars: Vec<char> = Vec::new();
    let mut rest = s.chars();
    loop
        invariant
            chars@ + rest.remaining() == s@,
        ensures
            chars@ =~= s@,
        decreases s@.len() - chars@.len(),
    {
        match rest.next() {
            Some(ch) => {
                chars.push(ch);
            },
            None => {
                break;
            },
        }
    }
    chars
}

/// The string made of the given characters, in order.
pub fn string_of(chars: &[char]) -> (s: String)
    ensures
        s@ == chars@,
{
    let mut s = String::new();
    let mut i: usize = 0;
    while i < chars.len()
        invariant
            i <= chars.len(),
            s@ == chars@.take(i as int),
        decreases chars.len() - i,
    {
        s.push(chars[i]);
        i += 1;
    }
    s
}

/// Whether `needle` stands in `hay` at position `at`.
pub fn matches_at(hay: &[char], needle: &[char], at: usize) -> (found: bool)
    ensures
        found == occurs_at(hay@, needle@, at as int),
{
    if needle.len() > hay.len() || at > hay.len() - needle.len() {
        return false;
    }
    let mut k: usize = 0;
    while k < needle.len()
        invariant
            k <= needle.len(),
            at + needle.len() <= hay.len(),
            hay@.subrange(at as int, at + k) == needle@.take(k as int),
        decreases needle.len() - k,
    {
        if hay[at + k] != needle[k] {
            proof {
                let window = hay@.subrange(at as int, at + needle.len());
                assert(window[k as int] != needle@[k as int]);
            }
            return false;
        }
        k += 1;
    }
    assert(needle@.take(k as int) =~= needle@);
    true
}

/// The leftmost position of `needle` in `hay` at or after `from`.
pub fn find_from(hay: &[char], needle: &[char], from: usize) -> (found: Option<usize>)
    ensures
        match found {
            Some(at) => {
                &&& from <= at
                &&& occurs_at(hay@, needle@, at as int)
                &&& forall|earlier: int| from <= earlier < at ==> !occurs_at(hay@, needle@, earlier)
            },
            None => forall|at: int| from <= at ==> !occurs_at(hay@, needle@, at),
        },
{
    if needle.len() > hay.len() {
        return None;
    }
    let last = hay.len() - needle.len();
    let mut at = from;
    while at <= last
        invariant
            from <= at,
            last == hay.len() - needle.len(),
            forall|earlier: int| from <= earlier < at ==> !occurs_at(hay@, needle@, earlier),
        decreases last + 1 - at,
    {
        if matches_at(hay, needle, at) {
            return Some(at);
        }
        if at == last {
            return None;
        }
        at += 1;
    }
    None
}

/// The leftmost position of `needle` in `hay`.
pub fn find(hay: &[char], needle: &[char]) -> (found: Option<usize>)
    ensures
        found.is_some() == contains(hay@, needle@),
        match found {
            Some(at) => {
                &&& is_first_occurrence(hay@, needle@, at as int)
                &&& first_occurrence(hay@, needle@) == Some(at as int)
            },
            None => first_occurrence(hay@, needle@).is_none(),
        },
{
    let found = find_from(hay, needle, 0);
    proof {
        match found {
            Some(at) => {
                lemma_first_occurrence(hay@, needle@, at as int);
            },
            None => {},
        }
    }
    found
}

} // verus!
