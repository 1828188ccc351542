//! The record that a post page carries: an escaped JSON text inside a script,
//! between the marker that opens it and the marker that closes the script.

use crate::error::{ParserError, ParserErrorView};
use crate::escape::{unescape, unescaped};
use crate::json::{json_document, parse_json, Json};
use crate::post::{decode_post, decoded, Post, PostView};
use crate::text::{
    chars_of, contains, find, first_occurrence, lemma_first_occurrence_is_leftmost, occurs_at,
    string_of,
};
use vstd::prelude::*;
use vstd::slice::slice_subrange;

verus! {

/// The text that opens the record: the call and the quote that starts the
/// escaped text.
pub open spec fn prefix_marker() -> Seq<char> {
    "JSON.parse(\""@
}

/// The text that closes the record: the end of the call and of the script.
pub open spec fn suffix_marker() -> Seq<char> {
    ")</script>"@
}

/// The text of a record that ends `end` characters into `rest`: all of it
/// but the one character before the closing marker, the quote that ends the
/// escaped text. Where nothing stands before the marker the text is empty.
pub open spec fn without_closing_quote(rest: Seq<char>, end: int) -> Seq<char> {
    if end > 0 {
        rest.take(end - 1)
    } else {
        Seq::empty()
    }
}

/// The escaped text of the record in a page: what stands after the first
/// opening marker and before the first closing marker that follows it, less
/// the closing quote. There is none where either marker is missing.
pub open spec fn record_literal(html: Seq<char>) -> Option<Seq<char>> {
    match first_occurrence(html, prefix_marker()) {
        None => None,
        Some(at) => {
            let rest = html.skip(at + prefix_marker().len());
            match first_occurrence(rest, suffix_marker()) {
                None => None,
                Some(end) => Some(without_closing_quote(rest, end)),
            }
        },
    }
}

/// The record of a page as JSON text: the escaped text with its escapes
/// removed.
pub open spec fn record_text(html: Seq<char>) -> Result<Seq<char>, ParserErrorView> {
    match record_literal(html) {
        None => Err(ParserErrorView::RecordNotFound),
        Some(literal) => match unescaped(literal) {
            None => Err(ParserErrorView::MalformedEscape),
            Some(text) => Ok(text),
        },
    }
}

/// The post that a record text stands for, given what the JSON parser made
/// of the text. A text that is no JSON, or no post record, fails with the
/// text and with the parser's message or the description of the fault.
pub open spec fn record_post(text: Seq<char>, parsed: Result<Json, Seq<char>>) -> Result<
    PostView,
    ParserErrorView,
> {
    match parsed {
        Err(message) => Err(ParserErrorView::RecordDecode { text, message }),
        Ok(document) => match decoded(document) {
            Err(fault) => Err(ParserErrorView::RecordDecode { text, message: fault.description() }),
            Ok(post) => Ok(post),
        },
    }
}

/// The post that a page carries.
pub open spec fn extraction(html: Seq<char>) -> Result<PostView, ParserErrorView> {
    match record_text(html) {
        Err(error) => Err(error),
        Ok(text) => record_post(text, json_document(text)),
    }
}

/// A page without the opening marker carries no record: its extraction
/// fails with `RecordNotFound`.
pub proof fn lemma_no_opening_marker(html: Seq<char>)
    requires
        !contains(html, prefix_marker()),
    ensures
        extraction(html) == Err::<PostView, ParserErrorView>(ParserErrorView::RecordNotFound),
{
}

/// A page without the closing marker carries no record either, whatever
/// stands after the opening marker: its extraction fails with
/// `RecordNotFound`.
pub proof fn lemma_no_closing_marker(html: Seq<char>)
    requires
        !contains(html, suffix_marker()),
    ensures
        extraction(html) == Err::<PostView, ParserErrorView>(ParserErrorView::RecordNotFound),
{
    match first_occurrence(html, prefix_marker()) {
        None => {},
        Some(at) => {
            lemma_first_occurrence_is_leftmost(html, prefix_marker());
            let from = at + prefix_marker().len();
            let rest = html.skip(from);
            if contains(rest, suffix_marker()) {
                let end = choose|end: int| occurs_at(rest, suffix_marker(), end);
                assert(rest.subrange(end, end + suffix_marker().len()) =~= html.subrange(
                    from + end,
                    from + end + suffix_marker().len(),
                ));
                assert(occurs_at(html, suffix_marker(), from + end));
            }
        },
    }
}

/// Where the escaped text of the record stands in a page: from the first
/// position to the second, which is not part of it.
pub fn locate_record(html: &[char]) -> (found: Option<(usize, usize)>)
    ensures
        match found {
            Some((from, to)) => {
                &&& from <= to <= html@.len()
                &&& record_literal(html@) == Some(html@.subrange(from as int, to as int))
            },
            None => record_literal(html@).is_none(),
        },
{
    let prefix = chars_of("JSON.parse(\"");
    let suffix = chars_of(")</script>");
    let at = match find(html, prefix.as_slice()) {
        Some(at) => at,
        None => { return None; },
    };
    let total = html.len();
    let from = at + prefix.len();
    let rest = slice_subrange(html, from, total);
    assert(rest@ =~= html@.skip(from as int));
    let end = match find(rest, suffix.as_slice()) {
        Some(end) => end,
        None => { return None; },
    };
    let kept = if end > 0 { end - 1 } else { 0 };
    assert(without_closing_quote(rest@, end as int) =~= html@.subrange(
        from as int,
        from + kept,
    ));
    Some((from, from + kept))
}

/// The record of a page as JSON text. Fails with `RecordNotFound` where the
/// page lacks one of the two markers, and with `MalformedEscape` where the
/// escaped text ends on a backslash that escapes nothing.
pub fn extract_record_text(html: &str) -> (out: Result<String, ParserError>)
    ensures
        match out {
            Ok(text) => record_text(html@) == Ok::<Seq<char>, ParserErrorView>(text@),
            Err(error) => record_text(html@) == Err::<Seq<char>, ParserErrorView>(error@),
        },
{
    let chars = chars_of(html);
    let (from, to) = match locate_record(chars.as_slice()) {
        Some(range) => range,
        None => { return Err(ParserError::RecordNotFound); },
    };
    match unescape(slice_subrange(chars.as_slice(), from, to)) {
        Some(clean) => Ok(string_of(clean.as_slice())),
        None => Err(ParserError::MalformedEscape),
    }
}

/// Reads the post out of a record text and of what the JSON parser made of
/// it.
pub fn decode_record(text: String, parsed: Result<Json, String>) -> (out: Result<
    Post,
    ParserError,
>)
    ensures
        match out {
            Ok(post) => record_post(text@, parsed_view(parsed)) == Ok::<PostView, ParserErrorView>(
                post@,
            ),
            Err(error) => record_post(text@, parsed_view(parsed)) == Err::<
                PostView,
                ParserErrorView,
            >(error@),
        },
{
    match parsed {
        Err(message) => Err(ParserError::RecordDecode { text, message }),
        Ok(document) => match decode_post(&document) {
            Ok(post) => Ok(post),
            Err(fault) => Err(ParserError::RecordDecode { text, message: fault.to_string() }),
        },
    }
}

/// What the parser made of a text, with its message as a character sequence.
pub open spec fn parsed_view(parsed: Result<Json, String>) -> Result<Json, Seq<char>> {
    match parsed {
        Ok(document) => Ok(document),
        Err(message) => Err(message@),
    }
}

/// Reads the post that a page carries: finds the record between its
/// markers, removes its escapes, and reads it as a post.
pub fn extract_post(html: &str) -> (out: Result<Post, ParserError>)
    ensures
        match out {
            Ok(post) => extraction(html@) == Ok::<PostView, ParserErrorView>(post@),
            Err(error) => extraction(html@) == Err::<PostView, ParserErrorView>(error@),
        },
{
    let text = match extract_record_text(html) {
        Ok(text) => text,
        Err(error) => { return Err(error); },
    };
    let parsed = parse_json(text.as_str());
    decode_record(text, parsed)
}

} // verus!
