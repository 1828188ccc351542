use newsletter_ingest::pipeline::{Action, Event, Response};
use newsletter_ingest::post::DecodeFault;
use newsletter_ingest::store::{SaveAction, SaveEvent};
use newsletter_ingest::{Parser, ParserError, SaveStatus};

fn answered(body: &str) -> Response {
    Response::Answered { status: 200, body: body.to_string() }
}

const SITEMAP: &str =
    "<urlset><url><loc>http://x/p/one</loc></url><url><loc>http://x/p/two</loc></url></urlset>";

const PAGE_ONE: &str = "JSON.parse(\"{\\\"canonicalUrl\\\":\\\"http://x/p/one\\\",\\\"post\\\":{\\\"title\\\":\\\"One\\\",\\\"body_html\\\":\\\"<p>First <i>post<\\\\/i><\\\\/p>\\\"}}\")</script>";

#[test]
fn new_parser_has_read_nothing() {
    let parser = Parser::new("http://x/".to_string(), "out".to_string());
    assert_eq!(parser.original_url, "http://x/");
    assert_eq!(parser.output_dir, "out");
    assert!(parser.items.is_empty());
}

#[test]
fn posts_of_a_run_become_the_items() {
    let mut parser = Parser::new("http://x/".to_string(), "out".to_string());
    let mut run = parser.begin();
    assert!(matches!(run.step(Event::Start), Action::FetchSitemap(_)));
    run.step(Event::Sitemap(answered(SITEMAP)));
    match run.step(Event::Page(answered(PAGE_ONE))) {
        Action::Convert(html) => {
            assert_eq!(html, "<p>First <i>post</i></p>");
            run.step(Event::Converted(Some(html2md::parse_html(&html))));
        }
        _ => panic!("expected a body to convert"),
    }
    run.step(Event::Page(answered("nothing")));
    let harvest = parser.finish(run).unwrap();
    assert_eq!(parser.items.len(), 1);
    assert_eq!(parser.items[0].url(), "http://x/p/one");
    assert_eq!(harvest.failures.len(), 1);
    assert_eq!(harvest.failures[0].url, "http://x/p/two");
    assert_eq!(harvest.documents.len(), 1);
    assert_eq!(harvest.documents[0].slug, "one");
    assert_eq!(harvest.documents[0].title.as_deref(), Some("One"));
    assert_eq!(harvest.documents[0].markdown, "First *post*");

    let mut store = parser.store(harvest.documents, true);
    assert!(matches!(store.pending(), SaveAction::CheckDir(_)));
    store.step(SaveEvent::Exists(false));
    match store.step(SaveEvent::Created(true)) {
        SaveAction::WriteFile { dir, name, contents, .. } => {
            assert_eq!(dir, "out");
            assert_eq!(name, "one.md");
            assert_eq!(contents, "First *post*");
        }
        _ => panic!("expected a file to write"),
    }
    store.step(SaveEvent::Written(true));
    assert!(matches!(store.outcome(), Some(Ok(SaveStatus::Success))));
}

#[test]
fn failed_run_leaves_the_items() {
    let mut parser = Parser::new("http://x/".to_string(), "out".to_string());
    let mut run = parser.begin();
    run.step(Event::Start);
    run.step(Event::Sitemap(answered(SITEMAP)));
    run.step(Event::Page(answered(PAGE_ONE)));
    run.step(Event::Converted(Some("First *post*".to_string())));
    run.step(Event::Cancel);
    let harvest = parser.finish(run).unwrap();
    assert!(harvest.failures.is_empty());
    assert_eq!(harvest.documents.len(), 1);
    assert_eq!(parser.items.len(), 1);

    let mut run = parser.begin();
    run.step(Event::Start);
    run.step(Event::Sitemap(Response::Unreachable));
    assert!(matches!(parser.finish(run), Err(ParserError::Network { .. })));
    assert_eq!(parser.items.len(), 1);
}

#[test]
fn descriptions_are_fixed_sentences() {
    assert_eq!(ParserError::CantDelete.to_string(), "Unable to delete directory");
    assert_eq!(ParserError::NoOverwrite.to_string(), "Overwrite not allowed");
    assert_eq!(ParserError::SaveItems.to_string(), "Unable to save all items");
    assert_eq!(ParserError::RecordNotFound.to_string(), "Embedded record not found");
    assert_eq!(ParserError::MalformedEscape.to_string(), "Embedded record ends inside an escape");
    assert_eq!(
        ParserError::Fetch { url: "u".to_string(), status: Some(500) }.to_string(),
        "Failed to fetch the HTML content"
    );
    assert_eq!(
        ParserError::Network { url: "u".to_string(), status: None }.to_string(),
        "Failed to fetch the sitemap"
    );
    assert_eq!(
        ParserError::MalformedSitemap { message: "m".to_string() }.to_string(),
        "Malformed sitemap"
    );
    assert_eq!(
        ParserError::RecordDecode { text: "t".to_string(), message: "m".to_string() }.to_string(),
        "Embedded record is not a post"
    );
    assert_eq!(ParserError::Conversion.to_string(), "Failed to convert the body");
    assert_eq!(SaveStatus::Success.to_string(), "Successfully saved posts");
    assert_eq!(DecodeFault::MissingUrl.to_string(), "missing field `canonicalUrl`");
}

#[test]
fn duplicate_copies_every_text() {
    let error = ParserError::RecordDecode { text: "t".to_string(), message: "m".to_string() };
    match error.duplicate() {
        ParserError::RecordDecode { text, message } => {
            assert_eq!(text, "t");
            assert_eq!(message, "m");
        }
        _ => panic!("expected a decode failure"),
    }
}

#[test]
fn failure_to_save_names_itself() {
    let sentence = ParserError::SaveItems.to_string();
    assert_eq!(sentence, "Unable to save all items");
    assert_ne!(sentence, ParserError::NoOverwrite.to_string());
    assert_ne!(sentence, ParserError::CantDelete.to_string());
    assert_ne!(sentence, SaveStatus::Success.to_string());
    assert!(!sentence.starts_with("Success"));
}
