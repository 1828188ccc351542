use newsletter_ingest::document::Document;
use newsletter_ingest::store::{staging_name, SaveAction, SaveEvent, SaveRun, SaveStage};
use newsletter_ingest::{ParserError, SaveStatus};

fn document(slug: &str, markdown: &str) -> Document {
    Document { slug: slug.to_string(), title: None, markdown: markdown.to_string() }
}

fn two_documents() -> Vec<Document> {
    vec![document("first", "# One"), document("second", "# Two")]
}

fn expect_write(action: &SaveAction, dir: &str, name: &str, staging: &str, contents: &str) {
    match action {
        SaveAction::WriteFile { dir: d, name: n, staging: s, contents: c } => {
            assert_eq!(d, dir);
            assert_eq!(n, name);
            assert_eq!(s, staging);
            assert_eq!(c, contents);
        }
        _ => panic!("expected a file to write"),
    }
}

#[test]
fn existing_directory_is_not_replaced_without_leave() {
    let mut run = SaveRun::new("out".to_string(), false, two_documents());
    match run.pending() {
        SaveAction::CheckDir(dir) => assert_eq!(dir, "out"),
        _ => panic!("expected a check"),
    }
    let action = run.step(SaveEvent::Exists(true));
    assert!(matches!(action, SaveAction::Finish));
    assert!(matches!(run.outcome(), Some(Err(ParserError::NoOverwrite))));
    for event in [
        SaveEvent::Exists(false),
        SaveEvent::Removed(true),
        SaveEvent::Created(true),
        SaveEvent::Written(true),
    ] {
        assert!(matches!(run.step(event), SaveAction::Finish));
    }
    assert!(matches!(run.outcome(), Some(Err(ParserError::NoOverwrite))));
}

#[test]
fn existing_directory_is_removed_before_anything_is_written() {
    let mut run = SaveRun::new("out".to_string(), true, two_documents());
    match run.step(SaveEvent::Exists(true)) {
        SaveAction::RemoveDir(dir) => assert_eq!(dir, "out"),
        _ => panic!("expected a removal"),
    }
    assert!(matches!(run.step(SaveEvent::Written(true)), SaveAction::RemoveDir(_)));
    assert!(matches!(run.step(SaveEvent::Created(true)), SaveAction::RemoveDir(_)));
    match run.step(SaveEvent::Removed(true)) {
        SaveAction::CreateDir(dir) => assert_eq!(dir, "out"),
        _ => panic!("expected a creation"),
    }
    let action = run.step(SaveEvent::Created(true));
    expect_write(&action, "out", "first.md", ".first.md.part", "# One");
    let action = run.step(SaveEvent::Written(true));
    expect_write(&action, "out", "second.md", ".second.md.part", "# Two");
    assert!(run.outcome().is_none());
    assert!(matches!(run.step(SaveEvent::Written(true)), SaveAction::Finish));
    assert!(matches!(run.outcome(), Some(Ok(SaveStatus::Success))));
}

#[test]
fn failed_removal_ends_the_store() {
    let mut run = SaveRun::new("out".to_string(), true, two_documents());
    run.step(SaveEvent::Exists(true));
    let action = run.step(SaveEvent::Removed(false));
    assert!(matches!(action, SaveAction::Finish));
    assert!(matches!(run.outcome(), Some(Err(ParserError::CantDelete))));
    assert!(matches!(run.step(SaveEvent::Created(true)), SaveAction::Finish));
    assert!(matches!(run.step(SaveEvent::Written(true)), SaveAction::Finish));
}

#[test]
fn missing_directory_is_created() {
    let mut run = SaveRun::new("out".to_string(), false, two_documents());
    assert!(matches!(run.step(SaveEvent::Exists(false)), SaveAction::CreateDir(_)));
    assert!(matches!(run.step(SaveEvent::Created(true)), SaveAction::WriteFile { .. }));
}

#[test]
fn failed_creation_ends_the_store() {
    let mut run = SaveRun::new("out".to_string(), false, two_documents());
    run.step(SaveEvent::Exists(false));
    assert!(matches!(run.step(SaveEvent::Created(false)), SaveAction::Finish));
    assert!(matches!(run.outcome(), Some(Err(ParserError::SaveItems))));
}

#[test]
fn failed_file_is_noted_and_the_store_goes_on() {
    let mut run = SaveRun::new("out".to_string(), false, two_documents());
    run.step(SaveEvent::Exists(false));
    run.step(SaveEvent::Created(true));
    let action = run.step(SaveEvent::Written(false));
    expect_write(&action, "out", "second.md", ".second.md.part", "# Two");
    assert!(matches!(run.step(SaveEvent::Written(true)), SaveAction::Finish));
    assert!(matches!(run.stage, SaveStage::Saved));
    assert_eq!(run.failed, vec![0]);
    assert!(matches!(run.outcome(), Some(Err(ParserError::SaveItems))));
}

#[test]
fn store_without_documents_ends_after_the_directory() {
    let mut run = SaveRun::new("out".to_string(), false, Vec::new());
    run.step(SaveEvent::Exists(false));
    assert!(matches!(run.step(SaveEvent::Created(true)), SaveAction::Finish));
    assert!(matches!(run.outcome(), Some(Ok(SaveStatus::Success))));
}

#[test]
fn staging_name_is_hidden() {
    assert_eq!(staging_name("my-post"), ".my-post.md.part");
}
