//! The message protocol between the walker, the worker pool and the
//! single aggregating consumer: one discovery task per file, exactly one
//! terminal completion per task, and one discovery-complete signal.

use vstd::prelude::*;
use crate::content::ContentKind;

verus! {

/// One unit of work: a file the walker discovered, with the position at
/// which it was discovered. Created once, consumed by exactly one
/// worker, never mutated.
#[derive(Clone)]
pub struct DiscoveryTask {
    pub path: String,
    pub index: u64,
}

/// What flows back to the aggregator over the single return channel.
#[derive(Clone)]
pub enum CompletionMessage {
    /// The file of the task at `index` was read whole: its rendered
    /// hash and its classification (`None` when the file was empty).
    Hashed { path: String, index: u64, hash: String, content_type: Option<ContentKind> },
    /// The task at `index` could not be completed — the file vanished
    /// or could not be opened or read. Non-fatal and final: a skipped
    /// file is never retried.
    Skipped { index: u64 },
    /// Discovery is over; `total` is the number of tasks the walker
    /// emitted. Sent exactly once, after every task of the run.
    DiscoveryComplete { total: u64 },
}

impl CompletionMessage {
    /// A terminal message: the one completion a task eventually gets.
    pub open spec fn is_terminal(self) -> bool {
        self is Hashed || self is Skipped
    }

    /// The task a terminal message completes.
    pub open spec fn terminal_index(self) -> u64
        recommends
            self.is_terminal(),
    {
        match self {
            CompletionMessage::Hashed { index, .. } => index,
            CompletionMessage::Skipped { index } => index,
            CompletionMessage::DiscoveryComplete { .. } => 0,
        }
    }
}

/// The result the aggregator writes for one hashed file: never kept
/// beyond being handed to the output sink.
#[derive(Clone)]
pub struct FileRecord {
    pub path: String,
    pub hash: String,
    pub content_type: Option<ContentKind>,
}

} // verus!
