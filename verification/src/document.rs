//! The Markdown document of a post: the converted body with the title and
//! the slug under which the document is stored. The conversion of a body
//! from HTML is the caller's work; what is converted, and what becomes of
//! the result, is decided here.

use crate::post::{clone_text, text_view, Post, PostView};
use crate::text::{chars_of, string_of};
use vstd::prelude::*;
use vstd::string::StringExecFns;

verus! {

/// The Markdown document of a post.
#[derive(Debug)]
pub struct Document {
    /// The name under which the document is stored, without its extension.
    pub slug: String,
    /// The title of the post, where it has one.
    pub title: Option<String>,
    /// The body of the post as Markdown.
    pub markdown: String,
}

/// A `Document` with its texts as character sequences.
pub struct DocumentView {
    pub slug: Seq<char>,
    pub title: Option<Seq<char>>,
    pub markdown: Seq<char>,
}

impl View for Document {
    type V = DocumentView;

    open spec fn view(&self) -> DocumentView {
        DocumentView {
            slug: self.slug@,
            title: text_view(self.title),
            markdown: self.markdown@,
        }
    }
}

impl Document {
    /// A copy of the document, text for text.
    pub fn duplicate(&self) -> (copy: Document)
        ensures
            copy@ == self@,
    {
        Document {
            slug: self.slug.clone(),
            title: clone_text(&self.title),
            markdown: self.markdown.clone(),
        }
    }
}

/// The documents of a vector, each as its view.
pub open spec fn document_views(documents: Seq<Document>) -> Seq<DocumentView> {
    documents.map_values(|d: Document| d@)
}

/// The text that stands for the body of a post that has none.
pub open spec fn placeholder() -> Seq<char> {
    "none"@
}

/// A character that may stand in a file name on every file system: an ASCII
/// letter or digit, a hyphen or an underscore.
pub open spec fn is_slug_char(ch: char) -> bool {
    ||| 'a' <= ch <= 'z'
    ||| 'A' <= ch <= 'Z'
    ||| '0' <= ch <= '9'
    ||| ch == '-'
    ||| ch == '_'
}

/// The character that stands for `ch` in a slug: itself where it may stand
/// in a file name, a hyphen in place of any other.
pub open spec fn slug_char(ch: char) -> char {
    if is_slug_char(ch) {
        ch
    } else {
        '-'
    }
}

/// The length of `url` without the slashes at its end.
pub open spec fn trimmed_len(url: Seq<char>) -> int
    decreases url.len(),
{
    if url.len() > 0 && url.last() == '/' {
        trimmed_len(url.drop_last())
    } else {
        url.len() as int
    }
}

/// Where the last segment of the first `end` characters of `url` begins:
/// after their last slash, or at the start where they hold none.
pub open spec fn segment_start(url: Seq<char>, end: int) -> int
    decreases end,
{
    if end <= 0 {
        0
    } else if url[end - 1] == '/' {
        end
    } else {
        segment_start(url, end - 1)
    }
}

/// The last segment of an address: what stands after its last slash, the
/// slashes at its end set aside.
pub open spec fn last_segment(url: Seq<char>) -> Seq<char> {
    let end = trimmed_len(url);
    url.subrange(segment_start(url, end), end)
}

/// The slug of an address: its last segment, with a hyphen in place of each
/// character that may not stand in a file name.
pub open spec fn slug_of(url: Seq<char>) -> Seq<char> {
    last_segment(url).map_values(|ch: char| slug_char(ch))
}

/// The name of the file that holds the document with the given slug.
pub open spec fn file_name_of(slug: Seq<char>) -> Seq<char> {
    slug + ".md"@
}

/// The document of a post whose body has become `markdown`.
pub open spec fn document_of(post: PostView, markdown: Seq<char>) -> DocumentView {
    DocumentView { slug: slug_of(post.url), title: post.title(), markdown }
}

/// The document of a post without a body: the placeholder stands for the
/// body.
pub open spec fn placeholder_document_of(post: PostView) -> DocumentView {
    document_of(post, placeholder())
}

/// The bounds of the trimmed address and of its last segment lie inside the
/// address, in order.
pub proof fn lemma_segment_bounds(url: Seq<char>)
    ensures
        0 <= segment_start(url, trimmed_len(url)) <= trimmed_len(url) <= url.len(),
{
    lemma_trimmed_len(url);
    lemma_segment_start(url, trimmed_len(url));
}

/// The trimmed address ends where the slashes at the end of the address
/// begin: nothing but slashes follows, and no slash stands right before.
pub proof fn lemma_trimmed_len(url: Seq<char>)
    ensures
        0 <= trimmed_len(url) <= url.len(),
        trimmed_len(url) > 0 ==> url[trimmed_len(url) - 1] != '/',
        forall|i: int| trimmed_len(url) <= i < url.len() ==> url[i] == '/',
    decreases url.len(),
{
    if url.len() > 0 && url.last() == '/' {
        let shorter = url.drop_last();
        lemma_trimmed_len(shorter);
        assert forall|i: int| trimmed_len(url) <= i < url.len() implies url[i] == '/' by {
            if i < shorter.len() {
                assert(shorter[i] == url[i]);
            }
        }
    }
}

/// The last segment of the first `end` characters holds no slash, and a
/// slash stands right before it unless it begins the address.
pub proof fn lemma_segment_start(url: Seq<char>, end: int)
    requires
        0 <= end <= url.len(),
    ensures
        0 <= segment_start(url, end) <= end,
        forall|i: int| segment_start(url, end) <= i < end ==> url[i] != '/',
        segment_start(url, end) > 0 ==> url[segment_start(url, end) - 1] == '/',
    decreases end,
{
    if end > 0 && url[end - 1] != '/' {
        lemma_segment_start(url, end - 1);
    }
}

/// Every character of a slug may stand in a file name, and the slug is no
/// longer than the address it comes from.
pub proof fn lemma_slug_is_safe(url: Seq<char>)
    ensures
        slug_of(url).len() <= url.len(),
        forall|i: int| 0 <= i < slug_of(url).len() ==> is_slug_char(#[trigger] slug_of(url)[i]),
{
    lemma_segment_bounds(url);
}

/// An address that holds a character other than a slash has a slug that is
/// not empty.
pub proof fn lemma_slug_not_empty(url: Seq<char>, i: int)
    requires
        0 <= i < url.len(),
        url[i] != '/',
    ensures
        slug_of(url).len() > 0,
{
    lemma_trimmed_len(url);
    lemma_segment_start(url, trimmed_len(url));
}

/// Whether `ch` may stand in a file name on every file system.
pub fn slug_char_allowed(ch: char) -> (allowed: bool)
    ensures
        allowed == is_slug_char(ch),
{
    ('a' <= ch && ch <= 'z') || ('A' <= ch && ch <= 'Z') || ('0' <= ch && ch <= '9') || ch == '-'
        || ch == '_'
}

/// The slug of an address.
pub fn slug(url: &str) -> (out: String)
    ensures
        out@ == slug_of(url@),
{
    let chars = chars_of(url);
    let mut end: usize = chars.len();
    proof {
        assert(chars@.take(end as int) =~= chars@);
    }
    while end > 0 && chars[end - 1] == '/'
        invariant
            end <= chars.len(),
            trimmed_len(chars@) == trimmed_len(chars@.take(end as int)),
        decreases end,
    {
        proof {
            assert(chars@.take(end as int).drop_last() =~= chars@.take(end - 1));
        }
        end -= 1;
    }
    let mut start: usize = end;
    while start > 0 && chars[start - 1] != '/'
        invariant
            start <= end <= chars.len(),
            segment_start(chars@, end as int) == segment_start(chars@, start as int),
        decreases start,
    {
        start -= 1;
    }
    let mut out: Vec<char> = Vec::new();
    let mut i: usize = start;
    let ghost segment = chars@.subrange(start as int, end as int);
    while i < end
        invariant
            start <= i <= end <= chars.len(),
            segment == chars@.subrange(start as int, end as int),
            out@ == segment.take(i - start).map_values(|ch: char| slug_char(ch)),
        decreases end - i,
    {
        let ch = chars[i];
        let kept = if slug_char_allowed(ch) { ch } else { '-' };
        out.push(kept);
        i += 1;
        proof {
            assert(out@ =~= segment.take(i - start).map_values(|ch: char| slug_char(ch)));
        }
    }
    proof {
        assert(segment.take(end - start) =~= segment);
    }
    string_of(out.as_slice())
}

/// The name of the file that holds the document with the given slug.
pub fn file_name(slug: &str) -> (name: String)
    ensures
        name@ == file_name_of(slug@),
{
    String::from_str(slug).concat(".md")
}

/// The HTML body of a post, where it has one: a body that is absent or
/// empty is none.
pub fn body_of(post: &Post) -> (body: Option<String>)
    ensures
        text_view(body) == post@.body(),
{
    match post.details() {
        Some(details) => match &details.body_html {
            Some(html) => {
                if html.as_str().is_empty() {
                    None
                } else {
                    Some(html.clone())
                }
            },
            None => None,
        },
        None => None,
    }
}

/// The document of a post whose body has become `markdown`.
pub fn make_document(post: &Post, markdown: String) -> (document: Document)
    ensures
        document@ == document_of(post@, markdown@),
{
    let title = match post.details() {
        Some(details) => clone_text(&details.title),
        None => None,
    };
    Document { slug: slug(post.url().as_str()), title, markdown }
}

/// The document of a post without a body.
pub fn placeholder_document(post: &Post) -> (document: Document)
    ensures
        document@ == placeholder_document_of(post@),
{
    make_document(post, String::from_str("none"))
}

} // verus!
