//! The ingestion of one site: where it reads from, where it stores to, and
//! the posts it has read.

use crate::document::{document_views, Document, DocumentView};
use crate::error::ParserError;
use crate::pipeline::{failure_views, ConvertedPostView, Failure, Run, RunView, Stage, StageView};
use crate::post::{Post, PostView};
use crate::store::{SaveRun, SaveRunView, SaveStageView};
use vstd::prelude::*;

verus! {

/// The ingestion of one site.
pub struct Parser {
    /// The directory that the posts are stored under.
    pub output_dir: String,
    /// The address of the site.
    pub original_url: String,
    /// The posts read, in the order of the sitemap.
    pub items: Vec<Post>,
}

/// What a run hands over beside its posts.
#[derive(Debug)]
pub struct Harvest {
    /// The documents of the posts, in the order of the posts.
    pub documents: Vec<Document>,
    /// The addresses that failed, in their order, with the reasons.
    pub failures: Vec<Failure>,
}

/// The posts of a vector, each as its view.
pub open spec fn post_views(posts: Seq<Post>) -> Seq<PostView> {
    posts.map_values(|post: Post| post@)
}

/// The posts of a series of converted posts, in their order.
pub open spec fn converted_posts(converted: Seq<ConvertedPostView>) -> Seq<PostView> {
    converted.map_values(|c: ConvertedPostView| c.post)
}

/// The documents of a series of converted posts, in their order.
pub open spec fn converted_documents(converted: Seq<ConvertedPostView>) -> Seq<DocumentView> {
    converted.map_values(|c: ConvertedPostView| c.document)
}

impl Parser {
    /// An ingestion of the site at `url` that stores under `output_dir` and
    /// has read no post yet.
    pub fn new(url: String, output_dir: String) -> (parser: Parser)
        ensures
            parser.original_url == url,
            parser.output_dir == output_dir,
            parser.items@ == Seq::<Post>::empty(),
    {
        Parser { original_url: url, output_dir, items: Vec::new() }
    }

    /// A run over the site that has not begun.
    pub fn begin(&self) -> (run: Run)
        ensures
            run@ == (RunView {
                site: self.original_url@,
                stage: StageView::Idle,
                urls: Seq::empty(),
                held: None,
                converted: Seq::empty(),
                failures: Seq::empty(),
            }),
            run@.wf(),
    {
        Run::new(self.original_url.clone())
    }

    /// Takes over what a run has gathered. Of a run whose discovery failed
    /// nothing is taken, and the failure is handed back. Of any other run
    /// the posts replace those read before, in their order, and their
    /// documents are handed back with the failures of single addresses.
    pub fn finish(&mut self, run: Run) -> (out: Result<Harvest, ParserError>)
        ensures
            final(self).original_url == old(self).original_url,
            final(self).output_dir == old(self).output_dir,
            match out {
                Ok(harvest) => {
                    &&& !(run@.stage is Failed)
                    &&& post_views(final(self).items@) == converted_posts(run@.converted)
                    &&& document_views(harvest.documents@) == converted_documents(
                        run@.converted,
                    )
                    &&& failure_views(harvest.failures@) == run@.failures
                },
                Err(error) => {
                    &&& run@.stage == StageView::Failed(error@)
                    &&& final(self).items == old(self).items
                },
            },
    {
        let Run { site: _, stage, urls: _, held: _, converted, failures } = run;
        if let Stage::Failed(error) = stage {
            return Err(error);
        }
        let mut items: Vec<Post> = Vec::new();
        let mut documents: Vec<Document> = Vec::new();
        let mut i: usize = 0;
        while i < converted.len()
            invariant
                i <= converted.len(),
                items.len() == i,
                documents.len() == i,
                forall|k: int| 0 <= k < i ==> (#[trigger] items[k])@ == converted[k].post@,
                forall|k: int|
                    0 <= k < i ==> (#[trigger] documents[k])@ == converted[k].document@,
            decreases converted.len() - i,
        {
            items.push(converted[i].post.duplicate());
            documents.push(converted[i].document.duplicate());
            i += 1;
        }
        assert(post_views(items@) =~= converted_posts(run@.converted));
        assert(document_views(documents@) =~= converted_documents(run@.converted));
        self.items = items;
        Ok(Harvest { documents, failures })
    }

    /// A store of `documents` under the output directory, which may replace
    /// a directory that exists only where `overwrite` is set.
    pub fn store(&self, documents: Vec<Document>, overwrite: bool) -> (run: SaveRun)
        ensures
            run@ == (SaveRunView {
                output_dir: self.output_dir@,
                overwrite,
                documents: document_views(documents@),
                stage: SaveStageView::Checking,
                failed: Seq::empty(),
            }),
            run@.wf(),
    {
        SaveRun::new(self.output_dir.clone(), overwrite, documents)
    }
}

} // verus!
