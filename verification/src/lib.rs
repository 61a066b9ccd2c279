//! A directory scanner's core: content-type classification, streaming
//! content hashing, the discovery/completion message protocol between a
//! walker, a worker pool and a single aggregator, and the formatting of
//! result lines for a file or console sink.

pub mod aggregator;
pub mod cli;
pub mod content;
pub mod hashing;
pub mod messages;
pub mod output;
pub mod processor;
pub mod progress;
pub mod protocol;
pub mod search;
pub mod text;
pub mod walker;
