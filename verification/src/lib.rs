//! Ingestion of the posts of a newsletter site: discovery of the post
//! addresses in the site's sitemap, extraction of the record embedded in each
//! post page, the document that each post becomes, and the decisions of the
//! run and of the post store.
//!
//! The library touches neither the network nor the file system, and it does
//! not convert HTML itself. A [`Run`] and a [`SaveRun`] say what is to be
//! fetched, converted, removed or written next; the caller does it and
//! reports what came of it.

pub mod document;
pub mod error;
pub mod escape;
pub mod json;
pub mod parser;
pub mod pipeline;
pub mod post;
pub mod record;
pub mod sitemap;
pub mod store;
pub mod text;

pub use document::Document;
pub use error::{ParserError, SaveStatus};
pub use escape::stripslashes;
pub use parser::Parser;
pub use pipeline::Run;
pub use post::Post;
pub use store::SaveRun;
