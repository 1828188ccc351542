//! The sitemap of a site: its `<loc>` entries are read token by token with
//! `quick_xml`, and those that name a post are kept.

use crate::error::{ParserError, ParserErrorView};
use crate::text::{chars_of, contains, find};
use vstd::prelude::*;

verus! {

/// One token of an XML document, as far as the sitemap is concerned.
#[derive(Debug)]
pub enum XmlEvent {
    /// An opening tag, with its name as it stands in the document.
    Start(Vec<u8>),
    /// Character data, with its entities replaced.
    Text(String),
    /// Character data with an entity that cannot be replaced, with the
    /// reader's message.
    BadText(String),
    /// The end of the document.
    Eof,
    /// The document cannot be read further, with the reader's message.
    Malformed(String),
    /// Any other token.
    Other,
}

/// `quick_xml::Reader`, the pull parser that hands out the tokens of a
/// document one by one.
#[verifier::external_type_specification]
#[verifier::external_body]
#[verifier::reject_recursive_types(R)]
pub struct ExReader<R>(quick_xml::Reader<R>);

/// The tokens that a reader has yet to hand out before it reports the end
/// of its document. The end itself is not among them.
pub uninterp spec fn pending_events(reader: quick_xml::Reader<&[u8]>) -> Seq<XmlEvent>;

/// The tokens of a document, as a reader that trims the white space around
/// character data hands them out. The end itself is not among them.
pub uninterp spec fn xml_events(xml: Seq<char>) -> Seq<XmlEvent>;

/// `quick_xml::Reader::from_str`, followed by `trim_text(true)`: a reader at
/// the start of the document that skips white space around character data
/// and hands out no token for character data that is white space only.
#[verifier::external_body]
fn open_reader<'a>(xml: &'a str) -> (reader: quick_xml::Reader<&'a [u8]>)
    ensures
        pending_events(reader) == xml_events(xml@),
{
    let mut reader = quick_xml::Reader::from_str(xml);
    reader.trim_text(true);
    reader
}

/// `quick_xml::Reader::read_event_into`: hands out the next token and moves
/// past it; at the end of the document, and after a token that reports a
/// malformed document, it hands out `Eof` from then on. Of an opening tag
/// the name is kept (`BytesStart::name`), of character data the text with
/// its entities replaced (`BytesText::unescape`).
#[verifier::external_body]
fn next_event(reader: &mut quick_xml::Reader<&[u8]>) -> (event: XmlEvent)
    ensures
        (event is Eof) == (pending_events(*old(reader)).len() == 0),
        event is Eof ==> pending_events(*final(reader)).len() == 0,
        !(event is Eof) ==> event == pending_events(*old(reader))[0] && pending_events(
            *final(reader),
        ) == pending_events(*old(reader)).skip(1),
{
    let mut buffer = Vec::new();
    match reader.read_event_into(&mut buffer) {
        Ok(quick_xml::events::Event::Start(tag)) => XmlEvent::Start(tag.name().as_ref().to_vec()),
        Ok(quick_xml::events::Event::Text(text)) => match text.unescape() {
            Ok(content) => XmlEvent::Text(content.into_owned()),
            Err(error) => XmlEvent::BadText(error.to_string()),
        },
        Ok(quick_xml::events::Event::Eof) => XmlEvent::Eof,
        Ok(_) => XmlEvent::Other,
        Err(error) => XmlEvent::Malformed(error.to_string()),
    }
}

/// The name of the element that holds an address: the bytes of `loc`.
pub open spec fn loc_name() -> Seq<u8> {
    seq![0x6cu8, 0x6fu8, 0x63u8]
}

/// The part of an address that marks it as the address of a post.
pub open spec fn post_marker() -> Seq<char> {
    "/p/"@
}

/// An address names a post when the marker stands anywhere in it.
pub open spec fn names_post(url: Seq<char>) -> bool {
    contains(url, post_marker())
}

/// Whether `name` is the name of the element that holds an address.
pub fn is_loc(name: &[u8]) -> (yes: bool)
    ensures
        yes == (name@ == loc_name()),
{
    let yes = name.len() == 3 && name[0] == 0x6c && name[1] == 0x6f && name[2] == 0x63;
    proof {
        if yes {
            assert(name@ =~= loc_name());
        }
    }
    yes
}

/// Whether an address names a post.
pub fn is_post_url(url: &str) -> (yes: bool)
    ensures
        yes == names_post(url@),
{
    let chars = chars_of(url);
    let marker = chars_of("/p/");
    find(chars.as_slice(), marker.as_slice()).is_some()
}

/// The texts of a vector of strings.
pub open spec fn texts(strings: Seq<String>) -> Seq<Seq<char>> {
    strings.map_values(|s: String| s@)
}

/// The reading of a sitemap so far: the addresses of posts found, in the
/// order of the document, and whether the last token opened a `<loc>`.
#[derive(Debug)]
pub struct UrlScan {
    pub urls: Vec<String>,
    pub after_loc: bool,
}

/// A `UrlScan` with its addresses as character sequences.
pub struct UrlScanView {
    pub urls: Seq<Seq<char>>,
    pub after_loc: bool,
}

impl View for UrlScan {
    type V = UrlScanView;

    open spec fn view(&self) -> UrlScanView {
        UrlScanView { urls: texts(self.urls@), after_loc: self.after_loc }
    }
}

/// The reading before any token.
pub open spec fn scan_start() -> UrlScanView {
    UrlScanView { urls: Seq::empty(), after_loc: false }
}

/// The reading after one more token, or the message with which it fails. A
/// token that reports a malformed document fails the reading wherever it
/// comes. The token after the opening of a `<loc>` is the entry: character
/// data is kept where it names a post, character data with a bad entity
/// fails the reading, any other token is passed over. Elsewhere only the
/// opening of a `<loc>` counts.
pub open spec fn fed(scan: UrlScanView, event: XmlEvent) -> Result<UrlScanView, Seq<char>> {
    match event {
        XmlEvent::Malformed(message) => Err(message@),
        XmlEvent::Text(text) => if scan.after_loc && names_post(text@) {
            Ok(UrlScanView { urls: scan.urls.push(text@), after_loc: false })
        } else {
            Ok(UrlScanView { urls: scan.urls, after_loc: false })
        },
        XmlEvent::BadText(message) => if scan.after_loc {
            Err(message@)
        } else {
            Ok(UrlScanView { urls: scan.urls, after_loc: false })
        },
        XmlEvent::Start(name) => Ok(
            UrlScanView { urls: scan.urls, after_loc: !scan.after_loc && name@ == loc_name() },
        ),
        _ => Ok(UrlScanView { urls: scan.urls, after_loc: false }),
    }
}

/// The reading after all of `events`, or the message of the first token
/// that fails it.
pub open spec fn fed_all(scan: UrlScanView, events: Seq<XmlEvent>) -> Result<
    UrlScanView,
    Seq<char>,
>
    decreases events.len(),
{
    if events.len() == 0 {
        Ok(scan)
    } else {
        match fed(scan, events[0]) {
            Err(message) => Err(message),
            Ok(next) => fed_all(next, events.skip(1)),
        }
    }
}

/// The addresses of posts in a sitemap, given its tokens; or the failure of
/// a sitemap that cannot be read to its end.
pub open spec fn sitemap_urls(events: Seq<XmlEvent>) -> Result<Seq<Seq<char>>, ParserErrorView> {
    match fed_all(scan_start(), events) {
        Ok(scan) => Ok(scan.urls),
        Err(message) => Err(ParserErrorView::MalformedSitemap { message }),
    }
}

/// The texts of the `<loc>` entries among `events`, in the order of the
/// document: each is the character data that comes right after the opening
/// of a `<loc>`.
pub open spec fn loc_texts(events: Seq<XmlEvent>, after_loc: bool) -> Seq<Seq<char>>
    decreases events.len(),
{
    if events.len() == 0 {
        Seq::empty()
    } else {
        let rest = events.skip(1);
        match events[0] {
            XmlEvent::Text(text) => if after_loc {
                seq![text@] + loc_texts(rest, false)
            } else {
                loc_texts(rest, false)
            },
            XmlEvent::Start(name) => loc_texts(rest, !after_loc && name@ == loc_name()),
            _ => loc_texts(rest, false),
        }
    }
}

/// Those of a series of entries that name a post, in their order.
pub open spec fn post_entries(entries: Seq<Seq<char>>) -> Seq<Seq<char>> {
    entries.filter(|url: Seq<char>| names_post(url))
}

/// A reading that goes through keeps, of the entries of the sitemap, exactly
/// those that name a post, in the order in which they stand: as many
/// addresses as there are such entries, and none where no entry names a
/// post.
pub proof fn lemma_urls_are_the_post_entries(scan: UrlScanView, events: Seq<XmlEvent>)
    requires
        fed_all(scan, events).is_ok(),
    ensures
        fed_all(scan, events) matches Ok(end) && end.urls == scan.urls + post_entries(
            loc_texts(events, scan.after_loc),
        ),
    decreases events.len(),
{
    let keep = |url: Seq<char>| names_post(url);
    if events.len() == 0 {
        assert(scan.urls + Seq::<Seq<char>>::empty().filter(keep) =~= scan.urls);
    } else {
        let next = fed(scan, events[0])->Ok_0;
        let rest = events.skip(1);
        lemma_urls_are_the_post_entries(next, rest);
        match events[0] {
            XmlEvent::Text(text) => {
                if scan.after_loc {
                    let entry = seq![text@];
                    Seq::filter_distributes_over_add(entry, loc_texts(rest, false), keep);
                    reveal_with_fuel(Seq::filter, 2);
                    assert(entry.drop_last() =~= Seq::<Seq<char>>::empty());
                    if names_post(text@) {
                        assert(entry.filter(keep) =~= entry);
                        assert(scan.urls.push(text@) + loc_texts(rest, false).filter(keep)
                            =~= scan.urls + (entry + loc_texts(rest, false).filter(keep)));
                    } else {
                        assert(entry.filter(keep) =~= Seq::<Seq<char>>::empty());
                        assert(entry.filter(keep) + loc_texts(rest, false).filter(keep)
                            =~= loc_texts(rest, false).filter(keep));
                    }
                }
            },
            _ => {},
        }
    }
}

/// The addresses of a sitemap that can be read to its end are exactly those
/// of its `<loc>` entries that name a post, in the order of the document and
/// as often as they stand there; where no entry names a post there is no
/// address.
pub proof fn lemma_sitemap_urls_are_the_post_entries(events: Seq<XmlEvent>)
    requires
        sitemap_urls(events).is_ok(),
    ensures
        sitemap_urls(events) == Ok::<Seq<Seq<char>>, ParserErrorView>(
            post_entries(loc_texts(events, false)),
        ),
        (forall|i: int|
            0 <= i < loc_texts(events, false).len() ==> !names_post(
                #[trigger] loc_texts(events, false)[i],
            )) ==> sitemap_urls(events) == Ok::<Seq<Seq<char>>, ParserErrorView>(Seq::empty()),
{
    let keep = |url: Seq<char>| names_post(url);
    let entries = loc_texts(events, false);
    lemma_urls_are_the_post_entries(scan_start(), events);
    assert(scan_start().urls + entries.filter(keep) =~= entries.filter(keep));
    if forall|i: int| 0 <= i < entries.len() ==> !names_post(#[trigger] entries[i]) {
        lemma_filter_keeps_none(entries, keep);
    }
}

/// A filter that no element passes keeps nothing.
proof fn lemma_filter_keeps_none(s: Seq<Seq<char>>, keep: spec_fn(Seq<char>) -> bool)
    requires
        forall|i: int| 0 <= i < s.len() ==> !keep(#[trigger] s[i]),
    ensures
        s.filter(keep) == Seq::<Seq<char>>::empty(),
    decreases s.len(),
{
    reveal(Seq::filter);
    if s.len() > 0 {
        lemma_filter_keeps_none(s.drop_last(), keep);
    }
}

impl UrlScan {
    /// The reading before any token.
    pub fn new() -> (scan: UrlScan)
        ensures
            scan@ == scan_start(),
    {
        let scan = UrlScan { urls: Vec::new(), after_loc: false };
        assert(scan@.urls =~= Seq::<Seq<char>>::empty());
        scan
    }

    /// Takes one more token into the reading. Where the token fails the
    /// reading, the error holds its message and the reading is as before.
    pub fn feed(&mut self, event: XmlEvent) -> (out: Result<(), ParserError>)
        ensures
            match out {
                Ok(()) => fed(old(self)@, event) == Ok::<UrlScanView, Seq<char>>(final(self)@),
                Err(error) => {
                    &&& error@ matches ParserErrorView::MalformedSitemap { message }
                    &&& fed(old(self)@, event) == Err::<UrlScanView, Seq<char>>(message)
                    &&& final(self)@ == old(self)@
                },
            },
    {
        let after_loc = self.after_loc;
        match event {
            XmlEvent::Malformed(message) => {
                return Err(ParserError::MalformedSitemap { message });
            },
            XmlEvent::Text(text) => {
                self.after_loc = false;
                if after_loc && is_post_url(text.as_str()) {
                    self.urls.push(text);
                    assert(texts(self.urls@) =~= texts(old(self).urls@).push(text@));
                }
            },
            XmlEvent::BadText(message) => {
                if after_loc {
                    return Err(ParserError::MalformedSitemap { message });
                }
                self.after_loc = false;
            },
            XmlEvent::Start(name) => {
                self.after_loc = !after_loc && is_loc(name.as_slice());
            },
            _ => {
                self.after_loc = false;
            },
        }
        Ok(())
    }
}

/// The addresses of the posts that a sitemap lists: the texts of its `<loc>`
/// entries that name a post, in the order of the document and with nothing
/// left out for being there twice. Fails with `MalformedSitemap` where the
/// document cannot be read to its end.
pub fn extract_post_urls(xml: &str) -> (out: Result<Vec<String>, ParserError>)
    ensures
        match out {
            Ok(urls) => sitemap_urls(xml_events(xml@)) == Ok::<Seq<Seq<char>>, ParserErrorView>(
                texts(urls@),
            ),
            Err(error) => sitemap_urls(xml_events(xml@)) == Err::<
                Seq<Seq<char>>,
                ParserErrorView,
            >(error@),
        },
{
    let mut reader = open_reader(xml);
    let mut scan = UrlScan::new();
    loop
        invariant
            fed_all(scan_start(), xml_events(xml@)) == fed_all(scan@, pending_events(reader)),
        ensures
            fed_all(scan_start(), xml_events(xml@)) == Ok::<UrlScanView, Seq<char>>(scan@),
        decreases pending_events(reader).len(),
    {
        let event = next_event(&mut reader);
        if let XmlEvent::Eof = event {
            break;
        }
        match scan.feed(event) {
            Ok(()) => {},
            Err(error) => {
                return Err(error);
            },
        }
    }
    Ok(scan.urls)
}

} // verus!
