//! Removal of backslash escapes: a backslash stands for a literal copy of the
//! character that follows it, whatever that character is.

use crate::text::{chars_of, string_of};
use vstd::prelude::*;

verus! {

/// `first` followed by `rest`, where there is a rest.
pub open spec fn prepend(first: Seq<char>, rest: Option<Seq<char>>) -> Option<Seq<char>> {
    match rest {
        Some(tail) => Some(first + tail),
        None => None,
    }
}

/// The text that `s` stands for once its escapes are removed: every backslash
/// is dropped and the character after it is kept as it is. There is no such
/// text when a backslash is the last character and escapes nothing.
pub open spec fn unescaped(s: Seq<char>) -> Option<Seq<char>>
    decreases s.len(),
{
    if s.len() == 0 {
        Some(Seq::empty())
    } else if s[0] != '\\' {
        prepend(seq![s[0]], unescaped(s.skip(1)))
    } else if s.len() == 1 {
        None
    } else {
        prepend(seq![s[1]], unescaped(s.skip(2)))
    }
}

/// Unescaping goes from left to right: once a prefix has been unescaped, the
/// result for the whole text is that prefix's result followed by the result
/// for what remains.
pub proof fn lemma_unescaped_concat(head: Seq<char>, tail: Seq<char>)
    requires
        unescaped(head).is_some(),
    ensures
        unescaped(head + tail) == prepend(unescaped(head).unwrap(), unescaped(tail)),
    decreases head.len(),
{
    let whole = head + tail;
    if head.len() == 0 {
        assert(whole =~= tail);
        match unescaped(tail) {
            Some(t) => assert(Seq::<char>::empty() + t =~= t),
            None => {},
        }
    } else if head[0] != '\\' {
        assert(whole.skip(1) =~= head.skip(1) + tail);
        lemma_unescaped_concat(head.skip(1), tail);
        match unescaped(tail) {
            Some(t) => {
                let h = unescaped(head.skip(1)).unwrap();
                assert(seq![head[0]] + (h + t) =~= (seq![head[0]] + h) + t);
            },
            None => {},
        }
    } else {
        assert(head.len() >= 2);
        assert(whole.skip(2) =~= head.skip(2) + tail);
        lemma_unescaped_concat(head.skip(2), tail);
        match unescaped(tail) {
            Some(t) => {
                let h = unescaped(head.skip(2)).unwrap();
                assert(seq![head[1]] + (h + t) =~= (seq![head[1]] + h) + t);
            },
            None => {},
        }
    }
}

/// Text without a backslash is its own unescaped form.
pub proof fn lemma_unescaped_clean(s: Seq<char>)
    requires
        forall|i: int| 0 <= i < s.len() ==> s[i] != '\\',
    ensures
        unescaped(s) == Some(s),
    decreases s.len(),
{
    if s.len() > 0 {
        lemma_unescaped_clean(s.skip(1));
        assert(seq![s[0]] + s.skip(1) =~= s);
    } else {
        assert(s =~= Seq::<char>::empty());
    }
}

/// A backslash that ends the text, after a part that unescapes on its own,
/// escapes nothing: the text has no unescaped form.
pub proof fn lemma_unescaped_dangling(s: Seq<char>)
    requires
        unescaped(s).is_some(),
    ensures
        unescaped(s.push('\\')).is_none(),
{
    let tail = seq!['\\'];
    assert(unescaped(tail).is_none());
    lemma_unescaped_concat(s, tail);
    assert(s.push('\\') =~= s + tail);
}

/// The unescaped form is never longer than the text it comes from.
pub proof fn lemma_unescaped_len(s: Seq<char>)
    requires
        unescaped(s).is_some(),
    ensures
        unescaped(s).unwrap().len() <= s.len(),
    decreases s.len(),
{
    if s.len() == 0 {
    } else if s[0] != '\\' {
        lemma_unescaped_len(s.skip(1));
    } else {
        lemma_unescaped_len(s.skip(2));
    }
}

/// Removes the backslash escapes of `chars`; `None` when the text ends on a
/// backslash that escapes nothing.
pub fn unescape(chars: &[char]) -> (out: Option<Vec<char>>)
    ensures
        match out {
            Some(clean) => unescaped(chars@) == Some(clean@),
            None => unescaped(chars@).is_none(),
        },
{
    let mut clean: Vec<char> = Vec::new();
    let mut i: usize = 0;
    proof {
        assert(chars@.skip(0) =~= chars@);
        match unescaped(chars@) {
            Some(t) => assert(clean@ + t =~= t),
            None => {},
        }
    }
    while i < chars.len()
        invariant
            i <= chars.len(),
            unescaped(chars@) == prepend(clean@, unescaped(chars@.skip(i as int))),
        decreases chars.len() - i,
    {
        let ghost rest = chars@.skip(i as int);
        let ghost before = clean@;
        let ch = chars[i];
        if ch != '\\' {
            clean.push(ch);
            i += 1;
            proof {
                assert(rest.skip(1) =~= chars@.skip(i as int));
                match unescaped(rest.skip(1)) {
                    Some(t) => assert(before + (seq![ch] + t) =~= before.push(ch) + t),
                    None => {},
                }
            }
        } else if i + 1 == chars.len() {
            assert(rest.len() == 1);
            return None;
        } else {
            let kept = chars[i + 1];
            clean.push(kept);
            i += 2;
            proof {
                assert(rest.skip(2) =~= chars@.skip(i as int));
                match unescaped(rest.skip(2)) {
                    Some(t) => assert(before + (seq![kept] + t) =~= before.push(kept) + t),
                    None => {},
                }
            }
        }
    }
    proof {
        assert(chars@.skip(i as int) =~= Seq::<char>::empty());
        assert(clean@ + Seq::<char>::empty() =~= clean@);
    }
    Some(clean)
}

/// Removes the backslash escapes of `s`: each backslash yields a literal copy
/// of the character after it. `None` when `s` ends on a backslash that escapes
/// nothing.
pub fn stripslashes(s: &str) -> (out: Option<String>)
    ensures
        match out {
            Some(clean) => unescaped(s@) == Some(clean@),
            None => unescaped(s@).is_none(),
        },
{
    let chars = chars_of(s);
    match unescape(chars.as_slice()) {
        Some(clean) => Some(string_of(clean.as_slice())),
        None => None,
    }
}

} // verus!
