//! JSON documents as plain values. The text is parsed by `serde_json`; what
//! the library reads of a document is looked up here.

use vstd::prelude::*;

verus! {

/// A JSON value. The members of an object stand in the order in which the
/// parser hands them out, each name once; a number is kept as its decimal
/// text.
#[derive(Debug)]
pub enum Json {
    Null,
    Bool(bool),
    Number(String),
    Text(String),
    Array(Vec<Json>),
    Object(Vec<(String, Json)>),
}

/// `serde_json::Value`, the parser's own form of a document; nothing is read
/// of it here but through `json_of_value`.
#[verifier::external_type_specification]
#[verifier::external_body]
pub struct ExValue(serde_json::Value);

/// What a `serde_json::Value` holds, in the library's own representation.
pub uninterp spec fn json_form(value: serde_json::Value) -> Json;

/// What `serde_json::from_str` makes of a text: the document, or the
/// parser's message where the text is not one JSON value.
pub uninterp spec fn json_document(text: Seq<char>) -> Result<Json, Seq<char>>;

/// Hands out what a `serde_json::Value` holds: variant for variant, a number
/// as the text that `serde_json::Number` prints, the members of arrays and
/// objects in the order in which the value yields them, each handed out in
/// turn.
#[verifier::external_body]
fn json_of_value(value: serde_json::Value) -> (json: Json)
    ensures
        json == json_form(value),
{
    match value {
        serde_json::Value::Null => Json::Null,
        serde_json::Value::Bool(flag) => Json::Bool(flag),
        serde_json::Value::Number(number) => Json::Number(number.to_string()),
        serde_json::Value::String(text) => Json::Text(text),
        serde_json::Value::Array(items) => Json::Array(items.into_iter().map(json_of_value).collect()),
        serde_json::Value::Object(members) => Json::Object(
            members.into_iter().map(|(name, member)| (name, json_of_value(member))).collect(),
        ),
    }
}

/// `serde_json::from_str`, read as a `serde_json::Value`: the result depends
/// on the text alone. An error is handed out as its message.
#[verifier::external_body]
fn parse_value(text: &str) -> (parsed: Result<serde_json::Value, String>)
    ensures
        match parsed {
            Ok(value) => json_document(text@) == Ok::<Json, Seq<char>>(json_form(value)),
            Err(message) => json_document(text@) == Err::<Json, Seq<char>>(message@),
        },
{
    match serde_json::from_str::<serde_json::Value>(text) {
        Ok(value) => Ok(value),
        Err(error) => Err(error.to_string()),
    }
}

/// Parses a text as one JSON value.
pub fn parse_json(text: &str) -> (parsed: Result<Json, String>)
    ensures
        match parsed {
            Ok(document) => json_document(text@) == Ok::<Json, Seq<char>>(document),
            Err(message) => json_document(text@) == Err::<Json, Seq<char>>(message@),
        },
{
    match parse_value(text) {
        Ok(value) => Ok(json_of_value(value)),
        Err(message) => Err(message),
    }
}

/// The value of the member called `name` among `members`, if there is one.
pub open spec fn member(members: Seq<(String, Json)>, name: Seq<char>) -> Option<Json>
    decreases members.len(),
{
    if members.len() == 0 {
        None
    } else if members[0].0@ == name {
        Some(members[0].1)
    } else {
        member(members.skip(1), name)
    }
}

/// Looks up the member called `name`.
pub fn find_member<'a>(members: &'a Vec<(String, Json)>, name: &str) -> (found: Option<&'a Json>)
    ensures
        match found {
            Some(value) => member(members@, name@) == Some(*value),
            None => member(members@, name@).is_none(),
        },
{
    let wanted = name.to_owned();
    let mut i: usize = 0;
    proof {
        assert(members@.skip(0) =~= members@);
    }
    while i < members.len()
        invariant
            i <= members.len(),
            wanted@ == name@,
            member(members@, name@) == member(members@.skip(i as int), name@),
        decreases members.len() - i,
    {
        let ghost rest = members@.skip(i as int);
        if members[i].0 == wanted {
            return Some(&members[i].1);
        }
        i += 1;
        proof {
            assert(rest.skip(1) =~= members@.skip(i as int));
        }
    }
    None
}

} // verus!
