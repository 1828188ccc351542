//! The run over one site as a state machine. The caller fetches and converts
//! what the run asks for and hands back what came; the run decides what that
//! means and what to do next.

use crate::document::{
    body_of, document_of, make_document, placeholder, placeholder_document,
    placeholder_document_of, Document, DocumentView,
};
use crate::error::{ParserError, ParserErrorView};
use crate::post::{Post, PostView};
use crate::record::{extract_post, extraction};
use crate::sitemap::{extract_post_urls, sitemap_urls, texts, xml_events};
use crate::text::chars_of;
use vstd::prelude::*;
use vstd::string::StringExecFns;

verus! {

/// What came back from a request.
#[derive(Debug)]
pub enum Response {
    /// No answer: the request could not be sent, or the answer not be read.
    Unreachable,
    /// The server answered with this status and this body.
    Answered { status: u16, body: String },
    /// The server answered with this status and a body that is not text.
    NotText { status: u16 },
}

/// What the caller reports to the run.
#[derive(Debug)]
pub enum Event {
    /// The run is to begin.
    Start,
    /// What came back for the sitemap.
    Sitemap(Response),
    /// What came back for the page that was asked for last.
    Page(Response),
    /// The Markdown that the body asked about last has become; nothing
    /// where it could not be converted.
    Converted(Option<String>),
    /// The run is to stop; nothing more will be fetched.
    Cancel,
}

/// What the run asks of the caller.
#[derive(Debug)]
pub enum Action {
    /// Nothing before the run has begun.
    Wait,
    /// Fetch the sitemap at this address and report it.
    FetchSitemap(String),
    /// Fetch the page at this address and report it.
    FetchPage(String),
    /// Convert this HTML to Markdown and report it.
    Convert(String),
    /// Nothing more: the run has ended.
    Finish,
}

/// An `Action` with its address as a character sequence.
pub enum ActionView {
    Wait,
    FetchSitemap(Seq<char>),
    FetchPage(Seq<char>),
    Convert(Seq<char>),
    Finish,
}

impl View for Action {
    type V = ActionView;

    open spec fn view(&self) -> ActionView {
        match *self {
            Action::Wait => ActionView::Wait,
            Action::FetchSitemap(url) => ActionView::FetchSitemap(url@),
            Action::FetchPage(url) => ActionView::FetchPage(url@),
            Action::Convert(html) => ActionView::Convert(html@),
            Action::Finish => ActionView::Finish,
        }
    }
}

/// Where the run stands.
#[derive(Debug)]
pub enum Stage {
    /// Not begun.
    Idle,
    /// Waiting for the sitemap.
    DiscoveringUrls,
    /// At the address with this index: waiting for its page, or for the
    /// Markdown of its body.
    ProcessingUrl(usize),
    /// Ended, with what was converted and what failed.
    Done,
    /// Ended without addresses: the discovery failed.
    Failed(ParserError),
}

/// A `Stage` over mathematical values.
pub enum StageView {
    Idle,
    DiscoveringUrls,
    ProcessingUrl(int),
    Done,
    Failed(ParserErrorView),
}

impl View for Stage {
    type V = StageView;

    open spec fn view(&self) -> StageView {
        match *self {
            Stage::Idle => StageView::Idle,
            Stage::DiscoveringUrls => StageView::DiscoveringUrls,
            Stage::ProcessingUrl(index) => StageView::ProcessingUrl(index as int),
            Stage::Done => StageView::Done,
            Stage::Failed(error) => StageView::Failed(error@),
        }
    }
}

/// A post that was read and converted.
#[derive(Debug)]
pub struct ConvertedPost {
    pub post: Post,
    pub document: Document,
}

/// A `ConvertedPost` over character sequences.
pub struct ConvertedPostView {
    pub post: PostView,
    pub document: DocumentView,
}

impl View for ConvertedPost {
    type V = ConvertedPostView;

    open spec fn view(&self) -> ConvertedPostView {
        ConvertedPostView { post: self.post@, document: self.document@ }
    }
}

/// An address whose post could not be had, and why.
#[derive(Debug)]
pub struct Failure {
    pub url: String,
    pub error: ParserError,
}

/// A `Failure` over character sequences.
pub struct FailureView {
    pub url: Seq<char>,
    pub error: ParserErrorView,
}

impl View for Failure {
    type V = FailureView;

    open spec fn view(&self) -> FailureView {
        FailureView { url: self.url@, error: self.error@ }
    }
}

/// The converted posts of a vector, each as its view.
pub open spec fn converted_views(converted: Seq<ConvertedPost>) -> Seq<ConvertedPostView> {
    converted.map_values(|c: ConvertedPost| c@)
}

/// The failures of a vector, each as its view.
pub open spec fn failure_views(failures: Seq<Failure>) -> Seq<FailureView> {
    failures.map_values(|f: Failure| f@)
}

/// The run over one site.
#[derive(Debug)]
pub struct Run {
    /// The address of the site.
    pub site: String,
    /// Where the run stands.
    pub stage: Stage,
    /// The addresses of the posts, in the order of the sitemap.
    pub urls: Vec<String>,
    /// The post of the current address, while its body is converted.
    pub held: Option<Post>,
    /// The posts converted so far, in the order of their addresses.
    pub converted: Vec<ConvertedPost>,
    /// The addresses that failed so far, in their order.
    pub failures: Vec<Failure>,
}

/// A `Run` over mathematical values.
pub struct RunView {
    pub site: Seq<char>,
    pub stage: StageView,
    pub urls: Seq<Seq<char>>,
    pub held: Option<PostView>,
    pub converted: Seq<ConvertedPostView>,
    pub failures: Seq<FailureView>,
}

impl View for Run {
    type V = RunView;

    open spec fn view(&self) -> RunView {
        RunView {
            site: self.site@,
            stage: self.stage@,
            urls: texts(self.urls@),
            held: match self.held {
                Some(post) => Some(post@),
                None => None,
            },
            converted: converted_views(self.converted@),
            failures: failure_views(self.failures@),
        }
    }
}

/// A status in the range that stands for success.
pub open spec fn is_success(status: u16) -> bool {
    200 <= status < 300
}

/// The address of the sitemap of a site: `sitemap.xml` right under the
/// address of the site, with one slash between the two.
pub open spec fn sitemap_address(site: Seq<char>) -> Seq<char> {
    if site.len() > 0 && site.last() == '/' {
        site + "sitemap.xml"@
    } else {
        site + "/sitemap.xml"@
    }
}

/// The message for a sitemap that came with success and is not text.
pub open spec fn not_text_message() -> Seq<char> {
    "the sitemap is not UTF-8 text"@
}

/// What the answer to the request for the sitemap means: the addresses of
/// the posts, or why there are none to be had. No answer and an answer
/// without success are failures of the network; an answer with success is
/// read as a sitemap, and is a malformed one where its body is not text.
pub open spec fn discovery(site: Seq<char>, response: Response) -> Result<
    Seq<Seq<char>>,
    ParserErrorView,
> {
    match response {
        Response::Unreachable => Err(
            ParserErrorView::Network { url: sitemap_address(site), status: None },
        ),
        Response::Answered { status, body } => if is_success(status) {
            sitemap_urls(xml_events(body@))
        } else {
            Err(ParserErrorView::Network { url: sitemap_address(site), status: Some(status) })
        },
        Response::NotText { status } => if is_success(status) {
            Err(ParserErrorView::MalformedSitemap { message: not_text_message() })
        } else {
            Err(ParserErrorView::Network { url: sitemap_address(site), status: Some(status) })
        },
    }
}

/// What the answer to the request for a page means: the post of the page,
/// or why there is none. No answer, an answer without success and an answer
/// whose body is not text are failures of the fetch; an answer with success
/// and a text is read as a post page.
pub open spec fn page_outcome(url: Seq<char>, response: Response) -> Result<
    PostView,
    ParserErrorView,
> {
    match response {
        Response::Unreachable => Err(ParserErrorView::Fetch { url, status: None }),
        Response::Answered { status, body } => if is_success(status) {
            extraction(body@)
        } else {
            Err(ParserErrorView::Fetch { url, status: Some(status) })
        },
        Response::NotText { status } => Err(ParserErrorView::Fetch { url, status: Some(status) }),
    }
}

/// The HTML that is converted for a post: its body, or the placeholder for
/// a post that has none.
pub open spec fn body_source(post: PostView) -> Seq<char> {
    match post.body() {
        Some(html) => html,
        None => placeholder(),
    }
}

impl RunView {
    /// Whether the run is at an address that it has.
    pub open spec fn at_url(self) -> bool {
        self.stage matches StageView::ProcessingUrl(index) && 0 <= index < self.urls.len()
    }

    /// Whether the run waits for the page of an address that it has.
    pub open spec fn awaits_page(self) -> bool {
        self.at_url() && self.held.is_none()
    }

    /// Whether the run waits for the Markdown of the body of a post.
    pub open spec fn awaits_markdown(self) -> bool {
        self.at_url() && self.held.is_some()
    }

    /// The stage after the address with the given index: the next address,
    /// or the end after the last.
    pub open spec fn stage_after(self, index: int) -> StageView {
        if index + 1 < self.urls.len() {
            StageView::ProcessingUrl(index + 1)
        } else {
            StageView::Done
        }
    }

    /// The run with its stage replaced.
    pub open spec fn at(self, stage: StageView) -> RunView {
        RunView { stage, ..self }
    }

    /// The run after its current address has given a post with its document.
    pub open spec fn with_converted(self, index: int, converted: ConvertedPostView) -> RunView {
        RunView {
            converted: self.converted.push(converted),
            held: None,
            stage: self.stage_after(index),
            ..self
        }
    }

    /// The run after its current address has failed.
    pub open spec fn with_failure(self, index: int, error: ParserErrorView) -> RunView {
        RunView {
            failures: self.failures.push(FailureView { url: self.urls[index], error }),
            held: None,
            stage: self.stage_after(index),
            ..self
        }
    }

    /// What the run asks of the caller where it stands.
    pub open spec fn next_action(self) -> ActionView {
        match self.stage {
            StageView::Idle => ActionView::Wait,
            StageView::DiscoveringUrls => ActionView::FetchSitemap(sitemap_address(self.site)),
            StageView::ProcessingUrl(index) => if 0 <= index < self.urls.len() {
                match self.held {
                    None => ActionView::FetchPage(self.urls[index]),
                    Some(post) => ActionView::Convert(body_source(post)),
                }
            } else {
                ActionView::Finish
            },
            StageView::Done => ActionView::Finish,
            StageView::Failed(_) => ActionView::Finish,
        }
    }

    /// The run after an event. `Start` begins a run that has not begun. The
    /// sitemap, where the run waits for it, gives the addresses and leads to
    /// the first of them, to the end where there is none, or to failure. A
    /// page, where the run waits for one, gives a post or a failure of its
    /// address: a post without a body is kept with the placeholder document,
    /// a post with a body is held until its body is converted, and a failure
    /// is noted. The Markdown, where the run waits for it, makes the document
    /// of the post that is held; a body that could not be converted is a
    /// failure of its address. Once an address has given a post or a failure,
    /// the run goes on to the next address or to the end. `Cancel` ends a run
    /// that has not ended, with what it has. Any other event leaves the run
    /// as it is.
    pub open spec fn stepped(self, event: Event) -> RunView {
        match event {
            Event::Start => if self.stage is Idle {
                self.at(StageView::DiscoveringUrls)
            } else {
                self
            },
            Event::Sitemap(response) => if self.stage is DiscoveringUrls {
                match discovery(self.site, response) {
                    Ok(urls) => RunView {
                        urls,
                        stage: if urls.len() == 0 {
                            StageView::Done
                        } else {
                            StageView::ProcessingUrl(0)
                        },
                        ..self
                    },
                    Err(error) => self.at(StageView::Failed(error)),
                }
            } else {
                self
            },
            Event::Page(response) => if self.awaits_page() {
                let index = self.stage->ProcessingUrl_0;
                match page_outcome(self.urls[index], response) {
                    Ok(post) => if post.body().is_some() {
                        RunView { held: Some(post), ..self }
                    } else {
                        self.with_converted(
                            index,
                            ConvertedPostView { post, document: placeholder_document_of(post) },
                        )
                    },
                    Err(error) => self.with_failure(index, error),
                }
            } else {
                self
            },
            Event::Converted(markdown) => if self.awaits_markdown() {
                let index = self.stage->ProcessingUrl_0;
                let post = self.held->0;
                match markdown {
                    Some(text) => self.with_converted(
                        index,
                        ConvertedPostView { post, document: document_of(post, text@) },
                    ),
                    None => self.with_failure(index, ParserErrorView::Conversion),
                }
            } else {
                self
            },
            Event::Cancel => match self.stage {
                StageView::Done => self,
                StageView::Failed(_) => self,
                _ => RunView { stage: StageView::Done, held: None, ..self },
            },
        }
    }

    /// The run after a series of events, one after the other.
    pub open spec fn stepped_all(self, events: Seq<Event>) -> RunView
        decreases events.len(),
    {
        if events.len() == 0 {
            self
        } else {
            self.stepped(events[0]).stepped_all(events.skip(1))
        }
    }

    /// What holds of a run at every stage: before the addresses are known
    /// and after a failed discovery there is nothing; while the pages are
    /// fetched, every address before the current one has given a post or a
    /// failure; a post is held only at its address and only for a body that
    /// it has; and every document belongs to its post.
    pub open spec fn wf(self) -> bool {
        &&& match self.stage {
            StageView::ProcessingUrl(index) => 0 <= index < self.urls.len()
                && self.converted.len() + self.failures.len() == index,
            StageView::Done => self.converted.len() + self.failures.len() <= self.urls.len(),
            _ => self.urls.len() == 0 && self.converted.len() + self.failures.len() == 0,
        }
        &&& self.held matches Some(post) ==> self.stage is ProcessingUrl
            && post.body().is_some()
        &&& forall|k: int|
            0 <= k < self.converted.len() ==> {
                let entry = #[trigger] self.converted[k];
                entry.document == document_of(entry.post, entry.document.markdown)
            }
    }
}

/// Whether a status stands for success.
pub fn status_is_success(status: u16) -> (yes: bool)
    ensures
        yes == is_success(status),
{
    200 <= status && status < 300
}

/// The address of the sitemap of a site.
pub fn sitemap_url(site: &str) -> (url: String)
    ensures
        url@ == sitemap_address(site@),
{
    let chars = chars_of(site);
    if chars.len() > 0 && chars[chars.len() - 1] == '/' {
        String::from_str(site).concat("sitemap.xml")
    } else {
        String::from_str(site).concat("/sitemap.xml")
    }
}

/// Reads the answer to the request for the sitemap of `site`.
pub fn discover(site: &str, response: Response) -> (out: Result<Vec<String>, ParserError>)
    ensures
        match out {
            Ok(urls) => discovery(site@, response) == Ok::<Seq<Seq<char>>, ParserErrorView>(
                texts(urls@),
            ),
            Err(error) => discovery(site@, response) == Err::<Seq<Seq<char>>, ParserErrorView>(
                error@,
            ),
        },
{
    match response {
        Response::Unreachable => Err(ParserError::Network { url: sitemap_url(site), status: None }),
        Response::Answered { status, body } => {
            if status_is_success(status) {
                extract_post_urls(body.as_str())
            } else {
                Err(ParserError::Network { url: sitemap_url(site), status: Some(status) })
            }
        },
        Response::NotText { status } => {
            if status_is_success(status) {
                Err(
                    ParserError::MalformedSitemap {
                        message: String::from_str("the sitemap is not UTF-8 text"),
                    },
                )
            } else {
                Err(ParserError::Network { url: sitemap_url(site), status: Some(status) })
            }
        },
    }
}

/// Reads the answer to the request for the page at `url`.
pub fn process_page(url: &str, response: Response) -> (out: Result<Post, ParserError>)
    ensures
        match out {
            Ok(post) => page_outcome(url@, response) == Ok::<PostView, ParserErrorView>(post@),
            Err(error) => page_outcome(url@, response) == Err::<PostView, ParserErrorView>(
                error@,
            ),
        },
{
    match response {
        Response::Unreachable => Err(
            ParserError::Fetch { url: String::from_str(url), status: None },
        ),
        Response::Answered { status, body } => {
            if status_is_success(status) {
                extract_post(body.as_str())
            } else {
                Err(ParserError::Fetch { url: String::from_str(url), status: Some(status) })
            }
        },
        Response::NotText { status } => Err(
            ParserError::Fetch { url: String::from_str(url), status: Some(status) },
        ),
    }
}

/// The HTML that is converted for a post.
pub fn body_to_convert(post: &Post) -> (html: String)
    ensures
        html@ == body_source(post@),
{
    match body_of(post) {
        Some(html) => html,
        None => String::from_str("none"),
    }
}

impl Run {
    /// A run over the site at the given address that has not begun.
    pub fn new(site: String) -> (run: Run)
        ensures
            run@ == (RunView {
                site: site@,
                stage: StageView::Idle,
                urls: Seq::empty(),
                held: None,
                converted: Seq::empty(),
                failures: Seq::empty(),
            }),
            run@.wf(),
    {
        let run = Run {
            site,
            stage: Stage::Idle,
            urls: Vec::new(),
            held: None,
            converted: Vec::new(),
            failures: Vec::new(),
        };
        assert(run@.urls =~= Seq::empty());
        assert(run@.converted =~= Seq::empty());
        assert(run@.failures =~= Seq::empty());
        run
    }

    /// What the run asks of the caller where it stands.
    pub fn pending(&self) -> (action: Action)
        ensures
            action@ == self@.next_action(),
    {
        match &self.stage {
            Stage::Idle => Action::Wait,
            Stage::DiscoveringUrls => Action::FetchSitemap(sitemap_url(self.site.as_str())),
            Stage::ProcessingUrl(index) => {
                if *index < self.urls.len() {
                    match &self.held {
                        None => Action::FetchPage(self.urls[*index].clone()),
                        Some(post) => Action::Convert(body_to_convert(post)),
                    }
                } else {
                    Action::Finish
                }
            },
            Stage::Done => Action::Finish,
            Stage::Failed(_) => Action::Finish,
        }
    }

    /// The index of the address that the run is at, where it is at one.
    fn current(&self) -> (index: Option<usize>)
        ensures
            match index {
                Some(i) => self@.at_url() && self@.stage == StageView::ProcessingUrl(i as int),
                None => !self@.at_url(),
            },
    {
        match &self.stage {
            Stage::ProcessingUrl(index) => {
                if *index < self.urls.len() {
                    Some(*index)
                } else {
                    None
                }
            },
            _ => None,
        }
    }

    /// Goes on from the address with the given index.
    fn move_on(&mut self, index: usize)
        requires
            index < old(self).urls.len(),
        ensures
            final(self)@ == (RunView { stage: old(self)@.stage_after(index as int), ..old(self)@ }),
    {
        self.stage = if index + 1 < self.urls.len() {
            Stage::ProcessingUrl(index + 1)
        } else {
            Stage::Done
        };
    }

    /// Notes that the address with the given index has given a post.
    fn keep(&mut self, index: usize, post: Post, document: Document)
        requires
            index < old(self).urls.len(),
            old(self).held.is_none(),
        ensures
            final(self)@ == old(self)@.with_converted(
                index as int,
                ConvertedPostView { post: post@, document: document@ },
            ),
    {
        self.converted.push(ConvertedPost { post, document });
        assert(self@.converted =~= old(self)@.converted.push(
            ConvertedPostView { post: post@, document: document@ },
        ));
        self.move_on(index);
    }

    /// Notes that the address with the given index has failed.
    fn fail(&mut self, index: usize, error: ParserError)
        requires
            index < old(self).urls.len(),
            old(self).held.is_none(),
        ensures
            final(self)@ == old(self)@.with_failure(index as int, error@),
    {
        let failure = Failure { url: self.urls[index].clone(), error };
        self.failures.push(failure);
        assert(self@.failures =~= old(self)@.failures.push(failure@));
        self.move_on(index);
    }

    /// Takes an event into the run and says what to do next.
    pub fn step(&mut self, event: Event) -> (action: Action)
        ensures
            final(self)@ == old(self)@.stepped(event),
            action@ == final(self)@.next_action(),
            old(self)@.wf() ==> final(self)@.wf(),
    {
        match event {
            Event::Start => {
                if let Stage::Idle = self.stage {
                    self.stage = Stage::DiscoveringUrls;
                }
            },
            Event::Sitemap(response) => {
                if let Stage::DiscoveringUrls = self.stage {
                    match discover(self.site.as_str(), response) {
                        Ok(urls) => {
                            self.stage = if urls.len() == 0 {
                                Stage::Done
                            } else {
                                Stage::ProcessingUrl(0)
                            };
                            self.urls = urls;
                        },
                        Err(error) => {
                            self.stage = Stage::Failed(error);
                        },
                    }
                }
            },
            Event::Page(response) => {
                if let Some(index) = self.current() {
                    if self.held.is_none() {
                        match process_page(self.urls[index].as_str(), response) {
                            Ok(post) => {
                                if body_of(&post).is_some() {
                                    self.held = Some(post);
                                } else {
                                    let document = placeholder_document(&post);
                                    self.keep(index, post, document);
                                }
                            },
                            Err(error) => {
                                self.fail(index, error);
                            },
                        }
                    }
                }
            },
            Event::Converted(markdown) => {
                if let Some(index) = self.current() {
                    if let Some(post) = self.held.take() {
                        match markdown {
                            Some(text) => {
                                let document = make_document(&post, text);
                                self.keep(index, post, document);
                            },
                            None => {
                                self.fail(index, ParserError::Conversion);
                            },
                        }
                    }
                }
            },
            Event::Cancel => {
                match &self.stage {
                    Stage::Done => {},
                    Stage::Failed(_) => {},
                    _ => {
                        self.stage = Stage::Done;
                        self.held = None;
                    },
                }
            },
        }
        proof {
            if old(self)@.wf() {
                lemma_step_keeps_wf(old(self)@, event);
            }
        }
        self.pending()
    }
}

/// Every step keeps what holds of a run at every stage.
pub proof fn lemma_step_keeps_wf(run: RunView, event: Event)
    requires
        run.wf(),
    ensures
        run.stepped(event).wf(),
{
}

/// A page never fails the run: whatever comes back for it, the run holds
/// the post for its body to be converted, or goes on to the next address or
/// to the end with a post or a failure more.
pub proof fn lemma_page_moves_on(run: RunView, response: Response)
    requires
        run.awaits_page(),
    ensures
        ({
            let index = run.stage->ProcessingUrl_0;
            let after = run.stepped(Event::Page(response));
            &&& !(after.stage is Failed)
            &&& after.urls == run.urls
            &&& after.awaits_markdown() || (after.stage == run.stage_after(index)
                && after.converted.len() + after.failures.len() == run.converted.len()
                + run.failures.len() + 1)
        }),
{
}

/// A page that is no post page fails its address and nothing else: the
/// failure is noted with the address, and the run goes on to the next
/// address or to the end.
pub proof fn lemma_failed_page_is_noted(run: RunView, response: Response)
    requires
        run.awaits_page(),
        page_outcome(run.urls[run.stage->ProcessingUrl_0], response).is_err(),
    ensures
        ({
            let index = run.stage->ProcessingUrl_0;
            let after = run.stepped(Event::Page(response));
            &&& after.stage == run.stage_after(index)
            &&& after.converted == run.converted
            &&& after.failures == run.failures.push(
                FailureView {
                    url: run.urls[index],
                    error: page_outcome(run.urls[index], response)->Err_0,
                },
            )
        }),
{
}

/// A post whose body is absent or empty is never a failure: its page gives
/// the post with the placeholder document at once, and nothing is asked to
/// be converted.
pub proof fn lemma_missing_body_gives_placeholder(run: RunView, response: Response)
    requires
        run.awaits_page(),
        page_outcome(run.urls[run.stage->ProcessingUrl_0], response) matches Ok(post)
            && post.body().is_none(),
    ensures
        ({
            let index = run.stage->ProcessingUrl_0;
            let post = page_outcome(run.urls[index], response)->Ok_0;
            let after = run.stepped(Event::Page(response));
            &&& after.stage == run.stage_after(index)
            &&& after.failures == run.failures
            &&& after.converted == run.converted.push(
                ConvertedPostView { post, document: placeholder_document_of(post) },
            )
            &&& after.converted.last().document.markdown == placeholder()
        }),
{
}

/// The Markdown never fails the run either: whatever comes back for a body,
/// the run goes on to the next address or to the end with a post or a
/// failure more.
pub proof fn lemma_markdown_moves_on(run: RunView, markdown: Option<String>)
    requires
        run.awaits_markdown(),
    ensures
        ({
            let index = run.stage->ProcessingUrl_0;
            let after = run.stepped(Event::Converted(markdown));
            &&& after.stage == run.stage_after(index)
            &&& after.held.is_none()
            &&& after.converted.len() + after.failures.len() == run.converted.len()
                + run.failures.len() + 1
        }),
{
}

/// A run that has ended stays as it is, and asks for nothing more.
pub proof fn lemma_ended_run_stays(run: RunView, event: Event)
    requires
        run.stage is Done || run.stage is Failed,
    ensures
        run.stepped(event) == run,
        run.next_action() == ActionView::Finish,
{
}

/// Once the addresses are known, nothing fails the run: whatever is
/// reported from then on, for however many pages and bodies, the run is at
/// an address or has ended in `Done`.
pub proof fn lemma_run_survives_its_pages(run: RunView, events: Seq<Event>)
    requires
        run.stage is ProcessingUrl || run.stage is Done,
    ensures
        run.stepped_all(events).stage is ProcessingUrl || run.stepped_all(events).stage is Done,
        run.stepped_all(events).urls == run.urls,
    decreases events.len(),
{
    if events.len() > 0 {
        lemma_run_survives_its_pages(run.stepped(events[0]), events.skip(1));
    }
}

/// Only the discovery fails a run: a step leads to `Failed` only from the
/// wait for the sitemap, on the sitemap's answer.
pub proof fn lemma_only_discovery_fails(run: RunView, event: Event)
    requires
        !(run.stage is Failed),
        run.stepped(event).stage is Failed,
    ensures
        run.stage is DiscoveringUrls,
        event is Sitemap,
{
}

} // verus!
