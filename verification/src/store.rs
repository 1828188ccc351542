//! The store of the documents as a state machine. The caller does to the
//! file system what the store asks for and reports how it went; the store
//! decides what is done, in which order, and how the whole ends.

use crate::document::{document_views, file_name, file_name_of, Document, DocumentView};
use crate::error::{ParserError, ParserErrorView, SaveStatus};
use vstd::prelude::*;
use vstd::string::StringExecFns;

verus! {

/// What the caller reports to the store.
#[derive(Debug, Clone, Copy, PartialEq, Eq, Structural)]
pub enum SaveEvent {
    /// Whether the output directory exists.
    Exists(bool),
    /// Whether the output directory was removed with all it held.
    Removed(bool),
    /// Whether the output directory was created.
    Created(bool),
    /// Whether the file asked for last was written and moved into place.
    Written(bool),
}

/// What the store asks of the caller.
#[derive(Debug)]
pub enum SaveAction {
    /// Say whether this directory exists.
    CheckDir(String),
    /// Remove this directory with all it holds.
    RemoveDir(String),
    /// Create this directory.
    CreateDir(String),
    /// Write `contents` to the file `staging` in the directory `dir`, then
    /// move that file to `name` in the same directory; where either step
    /// fails, leave no file behind.
    WriteFile { dir: String, name: String, staging: String, contents: String },
    /// Nothing more: the store has ended.
    Finish,
}

/// A `SaveAction` over character sequences.
pub enum SaveActionView {
    CheckDir(Seq<char>),
    RemoveDir(Seq<char>),
    CreateDir(Seq<char>),
    WriteFile { dir: Seq<char>, name: Seq<char>, staging: Seq<char>, contents: Seq<char> },
    Finish,
}

impl View for SaveAction {
    type V = SaveActionView;

    open spec fn view(&self) -> SaveActionView {
        match *self {
            SaveAction::CheckDir(dir) => SaveActionView::CheckDir(dir@),
            SaveAction::RemoveDir(dir) => SaveActionView::RemoveDir(dir@),
            SaveAction::CreateDir(dir) => SaveActionView::CreateDir(dir@),
            SaveAction::WriteFile { dir, name, staging, contents } => SaveActionView::WriteFile {
                dir: dir@,
                name: name@,
                staging: staging@,
                contents: contents@,
            },
            SaveAction::Finish => SaveActionView::Finish,
        }
    }
}

impl SaveActionView {
    /// Whether the action changes anything on the file system.
    pub open spec fn changes_files(self) -> bool {
        self is RemoveDir || self is CreateDir || self is WriteFile
    }
}

/// Where the store stands.
#[derive(Debug)]
pub enum SaveStage {
    /// Waiting to hear whether the output directory exists.
    Checking,
    /// Waiting for the removal of the output directory.
    Removing,
    /// Waiting for the creation of the output directory.
    Creating,
    /// Waiting for the file of the document with this index.
    Writing(usize),
    /// Ended, with every document tried.
    Saved,
    /// Ended before any document was tried.
    Failed(ParserError),
}

/// A `SaveStage` over mathematical values.
pub enum SaveStageView {
    Checking,
    Removing,
    Creating,
    Writing(int),
    Saved,
    Failed(ParserErrorView),
}

impl View for SaveStage {
    type V = SaveStageView;

    open spec fn view(&self) -> SaveStageView {
        match *self {
            SaveStage::Checking => SaveStageView::Checking,
            SaveStage::Removing => SaveStageView::Removing,
            SaveStage::Creating => SaveStageView::Creating,
            SaveStage::Writing(index) => SaveStageView::Writing(index as int),
            SaveStage::Saved => SaveStageView::Saved,
            SaveStage::Failed(error) => SaveStageView::Failed(error@),
        }
    }
}

/// The store of a set of documents under one directory.
#[derive(Debug)]
pub struct SaveRun {
    /// The directory that the documents are stored under.
    pub output_dir: String,
    /// Whether a directory that exists may be replaced.
    pub overwrite: bool,
    /// The documents to store, in their order.
    pub documents: Vec<Document>,
    /// Where the store stands.
    pub stage: SaveStage,
    /// The indices of the documents whose file could not be written.
    pub failed: Vec<usize>,
}

/// A `SaveRun` over mathematical values.
pub struct SaveRunView {
    pub output_dir: Seq<char>,
    pub overwrite: bool,
    pub documents: Seq<DocumentView>,
    pub stage: SaveStageView,
    pub failed: Seq<int>,
}

impl View for SaveRun {
    type V = SaveRunView;

    open spec fn view(&self) -> SaveRunView {
        SaveRunView {
            output_dir: self.output_dir@,
            overwrite: self.overwrite,
            documents: document_views(self.documents@),
            stage: self.stage@,
            failed: self.failed@.map_values(|index: usize| index as int),
        }
    }
}

/// The name of the file under which a document is written before it is
/// moved into place: hidden, and unlike the name of any document.
pub open spec fn staging_name_of(slug: Seq<char>) -> Seq<char> {
    "."@ + slug + ".md.part"@
}

impl SaveRunView {
    /// Whether the store waits for the file of a document that it has.
    pub open spec fn awaits_file(self) -> bool {
        self.stage matches SaveStageView::Writing(index) && 0 <= index < self.documents.len()
    }

    /// The stage after the document with the given index: the next
    /// document, or the end after the last.
    pub open spec fn stage_after(self, index: int) -> SaveStageView {
        if index + 1 < self.documents.len() {
            SaveStageView::Writing(index + 1)
        } else {
            SaveStageView::Saved
        }
    }

    /// The store with its stage replaced.
    pub open spec fn at(self, stage: SaveStageView) -> SaveRunView {
        SaveRunView { stage, ..self }
    }

    /// What the store asks of the caller where it stands.
    pub open spec fn next_action(self) -> SaveActionView {
        match self.stage {
            SaveStageView::Checking => SaveActionView::CheckDir(self.output_dir),
            SaveStageView::Removing => SaveActionView::RemoveDir(self.output_dir),
            SaveStageView::Creating => SaveActionView::CreateDir(self.output_dir),
            SaveStageView::Writing(index) => if 0 <= index < self.documents.len() {
                SaveActionView::WriteFile {
                    dir: self.output_dir,
                    name: file_name_of(self.documents[index].slug),
                    staging: staging_name_of(self.documents[index].slug),
                    contents: self.documents[index].markdown,
                }
            } else {
                SaveActionView::Finish
            },
            SaveStageView::Saved => SaveActionView::Finish,
            SaveStageView::Failed(_) => SaveActionView::Finish,
        }
    }

    /// The store after an event. A directory that exists is removed where it
    /// may be replaced, and fails the store with `NoOverwrite` where it may
    /// not; one that does not exist is created. A removal that went through
    /// leads to the creation, one that did not fails the store with
    /// `CantDelete`. A creation that went through leads to the first
    /// document, or to the end where there is none; one that did not fails
    /// the store with `SaveItems`. A file leads to the next document or to
    /// the end, and is noted where it could not be written. An event that
    /// the store does not wait for leaves it as it is.
    pub open spec fn stepped(self, event: SaveEvent) -> SaveRunView {
        match (self.stage, event) {
            (SaveStageView::Checking, SaveEvent::Exists(true)) => if self.overwrite {
                self.at(SaveStageView::Removing)
            } else {
                self.at(SaveStageView::Failed(ParserErrorView::NoOverwrite))
            },
            (SaveStageView::Checking, SaveEvent::Exists(false)) => self.at(SaveStageView::Creating),
            (SaveStageView::Removing, SaveEvent::Removed(true)) => self.at(SaveStageView::Creating),
            (SaveStageView::Removing, SaveEvent::Removed(false)) => self.at(
                SaveStageView::Failed(ParserErrorView::CantDelete),
            ),
            (SaveStageView::Creating, SaveEvent::Created(true)) => self.at(self.stage_after(-1)),
            (SaveStageView::Creating, SaveEvent::Created(false)) => self.at(
                SaveStageView::Failed(ParserErrorView::SaveItems),
            ),
            (SaveStageView::Writing(index), SaveEvent::Written(written)) => if self.awaits_file() {
                SaveRunView {
                    stage: self.stage_after(index),
                    failed: if written {
                        self.failed
                    } else {
                        self.failed.push(index)
                    },
                    ..self
                }
            } else {
                self
            },
            _ => self,
        }
    }

    /// How the store ended, where it has: with success where every file
    /// was written, with `SaveItems` where one was not, and with the
    /// failure that ended it before any file was tried.
    pub open spec fn outcome(self) -> Option<Result<SaveStatus, ParserErrorView>> {
        match self.stage {
            SaveStageView::Saved => if self.failed.len() == 0 {
                Some(Ok(SaveStatus::Success))
            } else {
                Some(Err(ParserErrorView::SaveItems))
            },
            SaveStageView::Failed(error) => Some(Err(error)),
            _ => None,
        }
    }

    /// What holds of a store at every stage: no file has failed before the
    /// first is tried; the files that failed are among those tried so far,
    /// in their order and each once.
    pub open spec fn wf(self) -> bool {
        &&& match self.stage {
            SaveStageView::Writing(index) => 0 <= index < self.documents.len() && forall|k: int|
                0 <= k < self.failed.len() ==> 0 <= #[trigger] self.failed[k] < index,
            SaveStageView::Saved => forall|k: int|
                0 <= k < self.failed.len() ==> 0 <= #[trigger] self.failed[k]
                    < self.documents.len(),
            _ => self.failed.len() == 0,
        }
        &&& forall|j: int, k: int|
            0 <= j < k < self.failed.len() ==> self.failed[j] < self.failed[k]
    }

    /// The store after a series of events, one after the other.
    pub open spec fn stepped_all(self, events: Seq<SaveEvent>) -> SaveRunView
        decreases events.len(),
    {
        if events.len() == 0 {
            self
        } else {
            self.stepped(events[0]).stepped_all(events.skip(1))
        }
    }
}

/// The name of the file under which a document is written before it is
/// moved into place.
pub fn staging_name(slug: &str) -> (name: String)
    ensures
        name@ == staging_name_of(slug@),
{
    String::from_str(".").concat(slug).concat(".md.part")
}

impl SaveRun {
    /// A store of `documents` under `output_dir` that has yet to hear
    /// whether the directory exists.
    pub fn new(output_dir: String, overwrite: bool, documents: Vec<Document>) -> (run: SaveRun)
        ensures
            run@ == (SaveRunView {
                output_dir: output_dir@,
                overwrite,
                documents: document_views(documents@),
                stage: SaveStageView::Checking,
                failed: Seq::empty(),
            }),
            run@.wf(),
    {
        let run = SaveRun {
            output_dir,
            overwrite,
            documents,
            stage: SaveStage::Checking,
            failed: Vec::new(),
        };
        assert(run@.failed =~= Seq::empty());
        run
    }

    /// What the store asks of the caller where it stands.
    pub fn pending(&self) -> (action: SaveAction)
        ensures
            action@ == self@.next_action(),
    {
        match &self.stage {
            SaveStage::Checking => SaveAction::CheckDir(self.output_dir.clone()),
            SaveStage::Removing => SaveAction::RemoveDir(self.output_dir.clone()),
            SaveStage::Creating => SaveAction::CreateDir(self.output_dir.clone()),
            SaveStage::Writing(index) => {
                if *index < self.documents.len() {
                    let document = &self.documents[*index];
                    SaveAction::WriteFile {
                        dir: self.output_dir.clone(),
                        name: file_name(document.slug.as_str()),
                        staging: staging_name(document.slug.as_str()),
                        contents: document.markdown.clone(),
                    }
                } else {
                    SaveAction::Finish
                }
            },
            SaveStage::Saved => SaveAction::Finish,
            SaveStage::Failed(_) => SaveAction::Finish,
        }
    }

    /// The stage in which the document with index `next` is written, or the
    /// end where there is no such document.
    fn stage_from(&self, next: usize) -> (stage: SaveStage)
        ensures
            stage@ == self@.stage_after(next - 1),
    {
        if next < self.documents.len() {
            SaveStage::Writing(next)
        } else {
            SaveStage::Saved
        }
    }

    /// Takes an event into the store and says what to do next.
    pub fn step(&mut self, event: SaveEvent) -> (action: SaveAction)
        ensures
            final(self)@ == old(self)@.stepped(event),
            action@ == final(self)@.next_action(),
            old(self)@.wf() ==> final(self)@.wf(),
    {
        let index = match &self.stage {
            SaveStage::Writing(index) => *index,
            _ => self.documents.len(),
        };
        match (&self.stage, event) {
            (SaveStage::Checking, SaveEvent::Exists(true)) => {
                self.stage = if self.overwrite {
                    SaveStage::Removing
                } else {
                    SaveStage::Failed(ParserError::NoOverwrite)
                };
            },
            (SaveStage::Checking, SaveEvent::Exists(false)) => {
                self.stage = SaveStage::Creating;
            },
            (SaveStage::Removing, SaveEvent::Removed(true)) => {
                self.stage = SaveStage::Creating;
            },
            (SaveStage::Removing, SaveEvent::Removed(false)) => {
                self.stage = SaveStage::Failed(ParserError::CantDelete);
            },
            (SaveStage::Creating, SaveEvent::Created(true)) => {
                self.stage = self.stage_from(0);
            },
            (SaveStage::Creating, SaveEvent::Created(false)) => {
                self.stage = SaveStage::Failed(ParserError::SaveItems);
            },
            (SaveStage::Writing(_), SaveEvent::Written(written)) => {
                if index < self.documents.len() {
                    if !written {
                        self.failed.push(index);
                        assert(self@.failed =~= old(self)@.failed.push(index as int));
                    }
                    self.stage = self.stage_from(index + 1);
                }
            },
            _ => {},
        }
        self.pending()
    }

    /// How the store ended, where it has.
    pub fn outcome(&self) -> (out: Option<Result<SaveStatus, ParserError>>)
        ensures
            match out {
                None => self@.outcome().is_none(),
                Some(Ok(status)) => self@.outcome() == Some(
                    Ok::<SaveStatus, ParserErrorView>(status),
                ),
                Some(Err(error)) => self@.outcome() == Some(
                    Err::<SaveStatus, ParserErrorView>(error@),
                ),
            },
    {
        match &self.stage {
            SaveStage::Saved => {
                if self.failed.len() == 0 {
                    Some(Ok(SaveStatus::Success))
                } else {
                    Some(Err(ParserError::SaveItems))
                }
            },
            SaveStage::Failed(error) => Some(Err(error.duplicate())),
            _ => None,
        }
    }
}

/// Every step keeps what holds of a store at every stage.
pub proof fn lemma_step_keeps_wf(run: SaveRunView, event: SaveEvent)
    requires
        run.wf(),
    ensures
        run.stepped(event).wf(),
{
}

/// A store that finds its directory and may not replace it fails with
/// `NoOverwrite`; from then on it asks for nothing, whatever it is told, so
/// that nothing on the file system is ever changed on its behalf.
pub proof fn lemma_no_overwrite_changes_nothing(run: SaveRunView, events: Seq<SaveEvent>)
    requires
        run.stage is Checking,
        !run.overwrite,
    ensures
        !run.next_action().changes_files(),
        run.stepped(SaveEvent::Exists(true)).outcome() == Some(
            Err::<SaveStatus, ParserErrorView>(ParserErrorView::NoOverwrite),
        ),
        run.stepped(SaveEvent::Exists(true)).stepped_all(events) == run.stepped(
            SaveEvent::Exists(true),
        ),
        run.stepped(SaveEvent::Exists(true)).next_action() == SaveActionView::Finish,
{
    lemma_ended_store_stays(run.stepped(SaveEvent::Exists(true)), events);
}

/// A store that has ended stays as it is whatever it is told, and asks for
/// nothing more.
pub proof fn lemma_ended_store_stays(run: SaveRunView, events: Seq<SaveEvent>)
    requires
        run.stage is Saved || run.stage is Failed,
    ensures
        run.stepped_all(events) == run,
        run.next_action() == SaveActionView::Finish,
    decreases events.len(),
{
    if events.len() > 0 {
        lemma_ended_store_stays(run, events.skip(1));
    }
}

/// A store that finds its directory and may replace it asks for the removal
/// first. Until the removal is reported it asks for nothing else; a removal
/// that failed ends the store with `CantDelete` before anything is created
/// or written, and only a removal that went through leads to the creation.
pub proof fn lemma_overwrite_removes_first(run: SaveRunView, event: SaveEvent)
    requires
        run.stage is Checking,
        run.overwrite,
    ensures
        ({
            let removing = run.stepped(SaveEvent::Exists(true));
            let after = removing.stepped(event);
            &&& removing.next_action() == SaveActionView::RemoveDir(run.output_dir)
            &&& event == SaveEvent::Removed(true) ==> after.stage is Creating
            &&& event == SaveEvent::Removed(false) ==> after.outcome() == Some(
                Err::<SaveStatus, ParserErrorView>(ParserErrorView::CantDelete),
            ) && after.next_action() == SaveActionView::Finish
            &&& !(event is Removed) ==> after == removing
        }),
{
}

/// While the removal of a directory that exists has not gone through,
/// nothing is created and nothing is written, whatever else is reported:
/// the store keeps asking for the removal, or has ended.
pub proof fn lemma_nothing_written_before_removal(run: SaveRunView, events: Seq<SaveEvent>)
    requires
        run.stage is Removing,
        forall|i: int| 0 <= i < events.len() ==> events[i] != SaveEvent::Removed(true),
    ensures
        ({
            let after = run.stepped_all(events);
            &&& after.stage is Removing || after.stage is Failed
            &&& after.next_action() == SaveActionView::RemoveDir(run.output_dir)
                || after.next_action() == SaveActionView::Finish
        }),
    decreases events.len(),
{
    if events.len() > 0 {
        let next = run.stepped(events[0]);
        let rest = events.skip(1);
        if next.stage is Removing {
            assert forall|i: int| 0 <= i < rest.len() implies rest[i] != SaveEvent::Removed(
                true,
            ) by {
                assert(rest[i] == events[i + 1]);
            }
            lemma_nothing_written_before_removal(next, rest);
        } else {
            lemma_ended_store_stays(next, rest);
        }
    }
}

/// The documents are written in their order, one file each: while the
/// store waits for a file, whatever is reported for it leads to the next
/// document or to the end, and a file that could not be written does not
/// end the store.
pub proof fn lemma_write_moves_on(run: SaveRunView, written: bool)
    requires
        run.awaits_file(),
    ensures
        ({
            let index = run.stage->Writing_0;
            let after = run.stepped(SaveEvent::Written(written));
            &&& after.stage == run.stage_after(index)
            &&& !(after.stage is Failed)
            &&& after.documents == run.documents
            &&& written ==> after.failed == run.failed
            &&& !written ==> after.failed == run.failed.push(index)
        }),
{
}

} // verus!
