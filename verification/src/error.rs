//! The failures of a run and of the post store, and the report of a store
//! that went through.

use vstd::prelude::*;
use vstd::string::StringExecFns;

verus! {

/// Why a step of the ingestion or of the store failed.
#[derive(Debug)]
pub enum ParserError {
    /// A post file could not be written, or the directory for the post files
    /// could not be created.
    SaveItems,
    /// The output directory exists and may not be replaced.
    NoOverwrite,
    /// The output directory exists and could not be removed.
    CantDelete,
    /// The sitemap could not be fetched, or came with a status that is not a
    /// success; `status` is absent where no answer came at all.
    Network { url: String, status: Option<u16> },
    /// The sitemap is not XML that can be read token by token.
    MalformedSitemap { message: String },
    /// A post page could not be fetched, or came with a status that is not a
    /// success; `status` is absent where no answer came at all.
    Fetch { url: String, status: Option<u16> },
    /// The page does not hold an embedded record between its two markers.
    RecordNotFound,
    /// The embedded record ends on a backslash that escapes nothing.
    MalformedEscape,
    /// The embedded record is not a post: `text` is the record as it was
    /// read, `message` says what is wrong with it.
    RecordDecode { text: String, message: String },
    /// The body of the post could not be converted to Markdown.
    Conversion,
}

/// A `ParserError` with its texts as character sequences.
pub enum ParserErrorView {
    SaveItems,
    NoOverwrite,
    CantDelete,
    Network { url: Seq<char>, status: Option<u16> },
    MalformedSitemap { message: Seq<char> },
    Fetch { url: Seq<char>, status: Option<u16> },
    RecordNotFound,
    MalformedEscape,
    RecordDecode { text: Seq<char>, message: Seq<char> },
    Conversion,
}

impl View for ParserError {
    type V = ParserErrorView;

    open spec fn view(&self) -> ParserErrorView {
        match *self {
            ParserError::SaveItems => ParserErrorView::SaveItems,
            ParserError::NoOverwrite => ParserErrorView::NoOverwrite,
            ParserError::CantDelete => ParserErrorView::CantDelete,
            ParserError::Network { url, status } => ParserErrorView::Network { url: url@, status },
            ParserError::MalformedSitemap { message } => ParserErrorView::MalformedSitemap {
                message: message@,
            },
            ParserError::Fetch { url, status } => ParserErrorView::Fetch { url: url@, status },
            ParserError::RecordNotFound => ParserErrorView::RecordNotFound,
            ParserError::MalformedEscape => ParserErrorView::MalformedEscape,
            ParserError::RecordDecode { text, message } => ParserErrorView::RecordDecode {
                text: text@,
                message: message@,
            },
            ParserError::Conversion => ParserErrorView::Conversion,
        }
    }
}

impl ParserErrorView {
    /// The sentence that describes the failure.
    pub open spec fn description(self) -> Seq<char> {
        match self {
            ParserErrorView::SaveItems => "Unable to save all items"@,
            ParserErrorView::NoOverwrite => "Overwrite not allowed"@,
            ParserErrorView::CantDelete => "Unable to delete directory"@,
            ParserErrorView::Network { .. } => "Failed to fetch the sitemap"@,
            ParserErrorView::MalformedSitemap { .. } => "Malformed sitemap"@,
            ParserErrorView::Fetch { .. } => "Failed to fetch the HTML content"@,
            ParserErrorView::RecordNotFound => "Embedded record not found"@,
            ParserErrorView::MalformedEscape => "Embedded record ends inside an escape"@,
            ParserErrorView::RecordDecode { .. } => "Embedded record is not a post"@,
            ParserErrorView::Conversion => "Failed to convert the body"@,
        }
    }
}

impl ParserError {
    /// A copy of the failure, text for text.
    pub fn duplicate(&self) -> (copy: ParserError)
        ensures
            copy@ == self@,
    {
        match self {
            ParserError::SaveItems => ParserError::SaveItems,
            ParserError::NoOverwrite => ParserError::NoOverwrite,
            ParserError::CantDelete => ParserError::CantDelete,
            ParserError::Network { url, status } => ParserError::Network {
                url: url.clone(),
                status: *status,
            },
            ParserError::MalformedSitemap { message } => ParserError::MalformedSitemap {
                message: message.clone(),
            },
            ParserError::Fetch { url, status } => ParserError::Fetch {
                url: url.clone(),
                status: *status,
            },
            ParserError::RecordNotFound => ParserError::RecordNotFound,
            ParserError::MalformedEscape => ParserError::MalformedEscape,
            ParserError::RecordDecode { text, message } => ParserError::RecordDecode {
                text: text.clone(),
                message: message.clone(),
            },
            ParserError::Conversion => ParserError::Conversion,
        }
    }

    /// The sentence that describes the failure.
    pub fn to_string(&self) -> (text: String)
        ensures
            text@ == self@.description(),
    {
        match self {
            ParserError::SaveItems => String::from_str("Unable to save all items"),
            ParserError::NoOverwrite => String::from_str("Overwrite not allowed"),
            ParserError::CantDelete => String::from_str("Unable to delete directory"),
            ParserError::Network { .. } => String::from_str("Failed to fetch the sitemap"),
            ParserError::MalformedSitemap { .. } => String::from_str("Malformed sitemap"),
            ParserError::Fetch { .. } => String::from_str("Failed to fetch the HTML content"),
            ParserError::RecordNotFound => String::from_str("Embedded record not found"),
            ParserError::MalformedEscape => String::from_str(
                "Embedded record ends inside an escape",
            ),
            ParserError::RecordDecode { .. } => String::from_str("Embedded record is not a post"),
            ParserError::Conversion => String::from_str("Failed to convert the body"),
        }
    }
}

/// How a store that went through ended.
#[derive(Debug, Clone, Copy, PartialEq, Eq, Structural)]
pub enum SaveStatus {
    /// Every post was written.
    Success,
}

impl SaveStatus {
    /// The sentence that reports the outcome.
    pub open spec fn description(self) -> Seq<char> {
        "Successfully saved posts"@
    }

    /// The sentence that reports the outcome.
    pub fn to_string(&self) -> (text: String)
        ensures
            text@ == self.description(),
    {
        match self {
            SaveStatus::Success => String::from_str("Successfully saved posts"),
        }
    }
}

/// No failure reads as the success of a store: the sentence of every
/// failure differs from the sentence that reports a store that went
/// through.
pub proof fn lemma_failure_never_reads_as_success(error: ParserErrorView)
    ensures
        error.description() != SaveStatus::Success.description(),
{
    reveal_strlit("Successfully saved posts");
    reveal_strlit("Unable to save all items");
    reveal_strlit("Overwrite not allowed");
    reveal_strlit("Unable to delete directory");
    reveal_strlit("Failed to fetch the sitemap");
    reveal_strlit("Malformed sitemap");
    reveal_strlit("Failed to fetch the HTML content");
    reveal_strlit("Embedded record not found");
    reveal_strlit("Embedded record ends inside an escape");
    reveal_strlit("Embedded record is not a post");
    reveal_strlit("Failed to convert the body");
    assert(SaveStatus::Success.description()[0] == 'S');
    assert(error.description()[0] != 'S');
}

/// The three failures of a store are told apart by their sentences: that of
/// a post file that could not be written differs from that of a directory
/// that may not be replaced and from that of one that could not be removed.
pub proof fn lemma_store_failures_read_apart()
    ensures
        ParserErrorView::SaveItems.description() != ParserErrorView::NoOverwrite.description(),
        ParserErrorView::SaveItems.description() != ParserErrorView::CantDelete.description(),
        ParserErrorView::NoOverwrite.description() != ParserErrorView::CantDelete.description(),
{
    reveal_strlit("Unable to save all items");
    reveal_strlit("Overwrite not allowed");
    reveal_strlit("Unable to delete directory");
    assert(ParserErrorView::SaveItems.description().len() == 24);
    assert(ParserErrorView::NoOverwrite.description().len() == 21);
    assert(ParserErrorView::CantDelete.description().len() == 26);
}

} // verus!
