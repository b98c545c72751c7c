//! Ingestion and enrichment of syndicated feed items.
//!
//! The library holds the decisions of the pipeline; the store and the
//! network are left to the caller, and so are the feed parser and the
//! image decoder, whose answers the caller hands over. Work that
//! alternates between the two is a task: it states one action, the caller
//! carries it out and reports what came of it, and the task states the
//! next.
//!
//! - `feed`: feed documents and their normalised entries.
//! - `ingest`: the dedup gate, the composition of an article, and what a
//!   pull does to the store.
//! - `enrich`: the task that carries one entry from its lookup to its write.
//! - `scrape`: what a page or a video yields for an article.
//! - `summary`: the summary cache in front of the completion service.
//! - `channel`, `resolve`: the display record of a source, and the task
//!   that resolves it.
//! - `color`: the dominant colour of a bitmap.
//! - `status`: the read-status command.
//! - `article`, `keys`: the records and the layout of the store's keys.
//! - `schedule`: bounded concurrency.
//! - `fallback`, `text`: helpers.
//! - `outside`: the calls into other crates, whose contracts are taken on
//!   trust.

pub mod article;
pub mod channel;
pub mod color;
pub mod enrich;
pub mod fallback;
pub mod feed;
pub mod ingest;
pub mod keys;
pub mod outside;
pub mod resolve;
pub mod schedule;
pub mod scrape;
pub mod status;
pub mod summary;
pub mod text;
