//! The post record and how it is read out of a JSON document.

use crate::json::{find_member, member, Json};
use vstd::prelude::*;
use vstd::string::StringExecFns;

verus! {

/// The body of a post and what is told about it.
#[derive(Clone, Debug)]
pub struct Details {
    pub title: Option<String>,
    pub subtitle: Option<String>,
    pub canonical_url: Option<String>,
    pub body_html: Option<String>,
}

/// `Details` with its texts as character sequences.
pub struct DetailsView {
    pub title: Option<Seq<char>>,
    pub subtitle: Option<Seq<char>>,
    pub canonical_url: Option<Seq<char>>,
    pub body_html: Option<Seq<char>>,
}

/// An optional text as a character sequence.
pub open spec fn text_view(text: Option<String>) -> Option<Seq<char>> {
    match text {
        Some(s) => Some(s@),
        None => None,
    }
}

impl View for Details {
    type V = DetailsView;

    open spec fn view(&self) -> DetailsView {
        DetailsView {
            title: text_view(self.title),
            subtitle: text_view(self.subtitle),
            canonical_url: text_view(self.canonical_url),
            body_html: text_view(self.body_html),
        }
    }
}

/// One post of the site. Its address is never empty.
#[derive(Debug)]
pub struct Post {
    url: String,
    base_url: Option<String>,
    details: Option<Details>,
}

/// A `Post` with its texts as character sequences.
pub struct PostView {
    pub url: Seq<char>,
    pub base_url: Option<Seq<char>>,
    pub details: Option<DetailsView>,
}

impl PostView {
    /// The HTML body of the post, where it has one: a body that is absent
    /// or empty is none.
    pub open spec fn body(self) -> Option<Seq<char>> {
        match self.details {
            Some(details) => match details.body_html {
                Some(html) => if html.len() > 0 {
                    Some(html)
                } else {
                    None
                },
                None => None,
            },
            None => None,
        }
    }

    /// The title of the post, where it has one.
    pub open spec fn title(self) -> Option<Seq<char>> {
        match self.details {
            Some(details) => details.title,
            None => None,
        }
    }
}

impl View for Post {
    type V = PostView;

    closed spec fn view(&self) -> PostView {
        PostView {
            url: self.url@,
            base_url: text_view(self.base_url),
            details: match self.details {
                Some(details) => Some(details@),
                None => None,
            },
        }
    }
}

/// A copy of an optional text.
pub fn clone_text(text: &Option<String>) -> (copy: Option<String>)
    ensures
        text_view(copy) == text_view(*text),
{
    match text {
        Some(s) => Some(s.clone()),
        None => None,
    }
}

impl Details {
    /// A copy of the details, text for text.
    pub fn duplicate(&self) -> (copy: Details)
        ensures
            copy@ == self@,
    {
        Details {
            title: clone_text(&self.title),
            subtitle: clone_text(&self.subtitle),
            canonical_url: clone_text(&self.canonical_url),
            body_html: clone_text(&self.body_html),
        }
    }
}

impl Post {
    #[verifier::type_invariant]
    spec fn has_address(self) -> bool {
        self.url@.len() > 0
    }

    /// A post with the given address; `None` for an empty address, which no
    /// post has.
    pub fn new(url: String, base_url: Option<String>, details: Option<Details>) -> (made: Option<
        Post,
    >)
        ensures
            made.is_some() == (url@.len() > 0),
            made matches Some(post) ==> post@ == (PostView {
                url: url@,
                base_url: text_view(base_url),
                details: match details {
                    Some(d) => Some(d@),
                    None => None,
                },
            }),
    {
        if url.as_str().is_empty() {
            None
        } else {
            Some(Post { url, base_url, details })
        }
    }

    /// The canonical address of the post.
    pub fn url(&self) -> (url: &String)
        ensures
            url@ == self@.url,
            url@.len() > 0,
    {
        proof {
            use_type_invariant(self);
        }
        &self.url
    }

    /// The address of the site the post belongs to, where the record gives it.
    pub fn base_url(&self) -> (base_url: &Option<String>)
        ensures
            text_view(*base_url) == self@.base_url,
    {
        &self.base_url
    }

    /// The details of the post, where the record carries them.
    pub fn details(&self) -> (details: &Option<Details>)
        ensures
            match *details {
                Some(d) => self@.details == Some(d@),
                None => self@.details.is_none(),
            },
    {
        &self.details
    }

    /// A copy of the post, text for text.
    pub fn duplicate(&self) -> (copy: Post)
        ensures
            copy@ == self@,
    {
        proof {
            use_type_invariant(self);
        }
        Post {
            url: self.url.clone(),
            base_url: clone_text(&self.base_url),
            details: match &self.details {
                Some(d) => Some(d.duplicate()),
                None => None,
            },
        }
    }
}

/// What is wrong with a JSON document that is not a post record.
#[derive(Debug, Clone, Copy, PartialEq, Eq, Structural)]
pub enum DecodeFault {
    /// The document is not an object.
    NotAnObject,
    /// The object has no member `canonicalUrl`.
    MissingUrl,
    /// The member `canonicalUrl` is not a text.
    InvalidUrl,
    /// The member `canonicalUrl` is the empty text.
    EmptyUrl,
    /// The member `base_url` is neither a text nor null.
    InvalidBaseUrl,
    /// The member `post` is neither an object nor null.
    InvalidDetails,
    /// The member `title` of `post` is neither a text nor null.
    InvalidTitle,
    /// The member `subtitle` of `post` is neither a text nor null.
    InvalidSubtitle,
    /// The member `canonical_url` of `post` is neither a text nor null.
    InvalidCanonicalUrl,
    /// The member `body_html` of `post` is neither a text nor null.
    InvalidBody,
}

impl DecodeFault {
    /// The sentence that describes the fault.
    pub open spec fn description(self) -> Seq<char> {
        match self {
            DecodeFault::NotAnObject => "the record is not a JSON object"@,
            DecodeFault::MissingUrl => "missing field `canonicalUrl`"@,
            DecodeFault::InvalidUrl => "field `canonicalUrl` is not a string"@,
            DecodeFault::EmptyUrl => "field `canonicalUrl` is empty"@,
            DecodeFault::InvalidBaseUrl => "field `base_url` is not a string"@,
            DecodeFault::InvalidDetails => "field `post` is not an object"@,
            DecodeFault::InvalidTitle => "field `title` is not a string"@,
            DecodeFault::InvalidSubtitle => "field `subtitle` is not a string"@,
            DecodeFault::InvalidCanonicalUrl => "field `canonical_url` is not a string"@,
            DecodeFault::InvalidBody => "field `body_html` is not a string"@,
        }
    }

    /// The sentence that describes the fault.
    pub fn to_string(&self) -> (text: String)
        ensures
            text@ == self.description(),
    {
        match self {
            DecodeFault::NotAnObject => String::from_str("the record is not a JSON object"),
            DecodeFault::MissingUrl => String::from_str("missing field `canonicalUrl`"),
            DecodeFault::InvalidUrl => String::from_str("field `canonicalUrl` is not a string"),
            DecodeFault::EmptyUrl => String::from_str("field `canonicalUrl` is empty"),
            DecodeFault::InvalidBaseUrl => String::from_str("field `base_url` is not a string"),
            DecodeFault::InvalidDetails => String::from_str("field `post` is not an object"),
            DecodeFault::InvalidTitle => String::from_str("field `title` is not a string"),
            DecodeFault::InvalidSubtitle => String::from_str("field `subtitle` is not a string"),
            DecodeFault::InvalidCanonicalUrl => String::from_str(
                "field `canonical_url` is not a string",
            ),
            DecodeFault::InvalidBody => String::from_str("field `body_html` is not a string"),
        }
    }
}

/// An optional text member of an object: absent or null is no text, a text
/// is itself, anything else is `fault`.
pub open spec fn optional_text(
    members: Seq<(String, Json)>,
    name: Seq<char>,
    fault: DecodeFault,
) -> Result<Option<Seq<char>>, DecodeFault> {
    match member(members, name) {
        None => Ok(None),
        Some(Json::Null) => Ok(None),
        Some(Json::Text(text)) => Ok(Some(text@)),
        Some(_) => Err(fault),
    }
}

/// The details that the members of the object under `post` stand for. The
/// members are read in the order title, subtitle, canonical address, body,
/// and the first one that is no optional text decides the fault.
pub open spec fn decoded_details(members: Seq<(String, Json)>) -> Result<DetailsView, DecodeFault> {
    match optional_text(members, "title"@, DecodeFault::InvalidTitle) {
        Err(fault) => Err(fault),
        Ok(title) => match optional_text(members, "subtitle"@, DecodeFault::InvalidSubtitle) {
            Err(fault) => Err(fault),
            Ok(subtitle) => match optional_text(
                members,
                "canonical_url"@,
                DecodeFault::InvalidCanonicalUrl,
            ) {
                Err(fault) => Err(fault),
                Ok(canonical_url) => match optional_text(
                    members,
                    "body_html"@,
                    DecodeFault::InvalidBody,
                ) {
                    Err(fault) => Err(fault),
                    Ok(body_html) => Ok(DetailsView { title, subtitle, canonical_url, body_html }),
                },
            },
        },
    }
}

/// The optional member `post` of a record: absent or null is no details, an
/// object is read member by member, anything else is a fault.
pub open spec fn decoded_section(members: Seq<(String, Json)>) -> Result<
    Option<DetailsView>,
    DecodeFault,
> {
    match member(members, "post"@) {
        None => Ok(None),
        Some(Json::Null) => Ok(None),
        Some(Json::Object(inner)) => match decoded_details(inner@) {
            Ok(details) => Ok(Some(details)),
            Err(fault) => Err(fault),
        },
        Some(_) => Err(DecodeFault::InvalidDetails),
    }
}

/// The post that a JSON document stands for: an object whose member
/// `canonicalUrl` is a text that is not empty, whose member `base_url` is an
/// optional text and whose member `post` is an optional object of optional
/// texts. Other members are passed over. The address is read first, then
/// the site, then the details.
///
/// Only an object is a record: an array is none, even one that holds the
/// values of the members in their order. Where the text gives a member name
/// more than once, the parser keeps the last value under that name, and that
/// value is the one read.
pub open spec fn decoded(json: Json) -> Result<PostView, DecodeFault> {
    match json {
        Json::Object(members) => match member(members@, "canonicalUrl"@) {
            None => Err(DecodeFault::MissingUrl),
            Some(Json::Text(url)) => if url@.len() == 0 {
                Err(DecodeFault::EmptyUrl)
            } else {
                match optional_text(members@, "base_url"@, DecodeFault::InvalidBaseUrl) {
                    Err(fault) => Err(fault),
                    Ok(base_url) => match decoded_section(members@) {
                        Err(fault) => Err(fault),
                        Ok(details) => Ok(PostView { url: url@, base_url, details }),
                    },
                }
            },
            Some(_) => Err(DecodeFault::InvalidUrl),
        },
        _ => Err(DecodeFault::NotAnObject),
    }
}

/// Reads an optional text member of an object.
pub fn read_optional_text(members: &Vec<(String, Json)>, name: &str, fault: DecodeFault) -> (read:
    Result<Option<String>, DecodeFault>)
    ensures
        match read {
            Ok(text) => optional_text(members@, name@, fault) == Ok::<
                Option<Seq<char>>,
                DecodeFault,
            >(text_view(text)),
            Err(found) => optional_text(members@, name@, fault) == Err::<
                Option<Seq<char>>,
                DecodeFault,
            >(found),
        },
{
    match find_member(members, name) {
        None => Ok(None),
        Some(Json::Null) => Ok(None),
        Some(Json::Text(text)) => Ok(Some(text.clone())),
        Some(_) => Err(fault),
    }
}

/// Reads the details of a post out of the members of the object under `post`.
pub fn decode_details(members: &Vec<(String, Json)>) -> (read: Result<Details, DecodeFault>)
    ensures
        match read {
            Ok(details) => decoded_details(members@) == Ok::<DetailsView, DecodeFault>(details@),
            Err(fault) => decoded_details(members@) == Err::<DetailsView, DecodeFault>(fault),
        },
{
    let title = match read_optional_text(members, "title", DecodeFault::InvalidTitle) {
        Ok(text) => text,
        Err(fault) => { return Err(fault); },
    };
    let subtitle = match read_optional_text(members, "subtitle", DecodeFault::InvalidSubtitle) {
        Ok(text) => text,
        Err(fault) => { return Err(fault); },
    };
    let canonical_url = match read_optional_text(
        members,
        "canonical_url",
        DecodeFault::InvalidCanonicalUrl,
    ) {
        Ok(text) => text,
        Err(fault) => { return Err(fault); },
    };
    let body_html = match read_optional_text(members, "body_html", DecodeFault::InvalidBody) {
        Ok(text) => text,
        Err(fault) => { return Err(fault); },
    };
    Ok(Details { title, subtitle, canonical_url, body_html })
}

/// Reads a post out of a JSON document.
pub fn decode_post(json: &Json) -> (read: Result<Post, DecodeFault>)
    ensures
        match read {
            Ok(post) => decoded(*json) == Ok::<PostView, DecodeFault>(post@),
            Err(fault) => decoded(*json) == Err::<PostView, DecodeFault>(fault),
        },
{
    let members = match json {
        Json::Object(members) => members,
        _ => { return Err(DecodeFault::NotAnObject); },
    };
    let url = match find_member(members, "canonicalUrl") {
        None => { return Err(DecodeFault::MissingUrl); },
        Some(Json::Text(url)) => url.clone(),
        Some(_) => { return Err(DecodeFault::InvalidUrl); },
    };
    if url.as_str().is_empty() {
        return Err(DecodeFault::EmptyUrl);
    }
    let base_url = match read_optional_text(members, "base_url", DecodeFault::InvalidBaseUrl) {
        Ok(text) => text,
        Err(fault) => { return Err(fault); },
    };
    let details = match find_member(members, "post") {
        None => None,
        Some(Json::Null) => None,
        Some(Json::Object(inner)) => match decode_details(inner) {
            Ok(details) => Some(details),
            Err(fault) => { return Err(fault); },
        },
        Some(_) => { return Err(DecodeFault::InvalidDetails); },
    };
    Ok(Post { url, base_url, details })
}

} // verus!
