//! The walker: decides, entry by entry, which filesystem entries become
//! discovery tasks. Non-regular entries are skipped, and so is the
//! entry that *is* the output destination — identified by a file
//! identity check that the caller performs, not by the path's spelling
//! — so that the scan never hashes its own output. The traversal itself
//! and the identity check are the caller's business; the walker owns
//! the decision and the task numbering.

use vstd::prelude::*;
use crate::messages::{CompletionMessage, DiscoveryTask};

verus! {

/// What the walker sees of one directory entry.
#[derive(Clone)]
pub struct ScanEntry {
    pub path: String,
    /// Whether the entry is a regular file (not a directory, symlink or
    /// other special entry).
    pub is_regular_file: bool,
    /// Whether the entry names the same underlying file as the output
    /// destination.
    pub is_output_destination: bool,
}

impl ScanEntry {
    /// An entry becomes a task exactly when it is a regular file and
    /// not the output destination itself.
    pub open spec fn included(self) -> bool {
        self.is_regular_file && !self.is_output_destination
    }
}

/// The tasks a walk over `entries` emits, in order: one per included
/// entry, numbered from 0 in discovery order.
pub open spec fn walk_tasks(entries: Seq<ScanEntry>) -> Seq<DiscoveryTask>
    decreases entries.len(),
{
    if entries.len() == 0 {
        Seq::empty()
    } else {
        let prior = walk_tasks(entries.drop_last());
        if entries.last().included() {
            prior.push(DiscoveryTask { path: entries.last().path, index: prior.len() as u64 })
        } else {
            prior
        }
    }
}

/// The walker's own state: nothing but the next task number, which is
/// also the count of tasks emitted so far.
pub struct Walker {
    next_index: u64,
}

impl Walker {
    /// How many tasks this walker has emitted.
    pub closed spec fn emitted(self) -> u64 {
        self.next_index
    }

    pub fn new() -> (r: Self)
        ensures
            r.emitted() == 0,
    {
        Self { next_index: 0 }
    }

    /// How many tasks this walker has emitted.
    pub fn emitted_count(&self) -> (r: u64)
        ensures
            r == self.emitted(),
    {
        self.next_index
    }

    /// Decides one entry: an included entry gets the next task, in
    /// discovery order; everything else is silently skipped.
    pub fn consider(&mut self, entry: &ScanEntry) -> (r: Option<DiscoveryTask>)
        requires
            old(self).emitted() < u64::MAX,
        ensures
            entry.included() ==> (r matches Some(t) && t.path == entry.path
                && t.index == old(self).emitted()
                && final(self).emitted() == old(self).emitted() + 1),
            !entry.included() ==> r is None && final(self).emitted() == old(self).emitted(),
    {
        if entry.is_regular_file && !entry.is_output_destination {
            let index = self.next_index;
            self.next_index = self.next_index + 1;
            Some(DiscoveryTask { path: entry.path.clone(), index })
        } else {
            None
        }
    }

    /// The discovery-complete signal: carries exactly the number of
    /// tasks emitted, not counting anything that was skipped.
    pub fn complete(&self) -> (m: CompletionMessage)
        ensures
            m == (CompletionMessage::DiscoveryComplete { total: self.emitted() }),
    {
        CompletionMessage::DiscoveryComplete { total: self.next_index }
    }
}

/// Walks a whole listing at once: the tasks for the included entries in
/// order, then the discovery-complete signal carrying their number.
pub fn walk(entries: &Vec<ScanEntry>) -> (r: (Vec<DiscoveryTask>, CompletionMessage))
    requires
        entries@.len() < u64::MAX,
    ensures
        r.0@ == walk_tasks(entries@),
        r.1 == (CompletionMessage::DiscoveryComplete {
            total: walk_tasks(entries@).len() as u64,
        }),
{
    let mut walker = Walker::new();
    let mut tasks: Vec<DiscoveryTask> = Vec::new();
    let mut i: usize = 0;
    while i < entries.len()
        invariant
            i <= entries@.len() < u64::MAX,
            tasks@ == walk_tasks(entries@.take(i as int)),
            walker.emitted() == tasks@.len(),
        decreases entries@.len() - i,
    {
        proof {
            lemma_walk_tasks_len(entries@.take(i as int));
            assert(entries@.take(i + 1).drop_last() =~= entries@.take(i as int));
            assert(entries@.take(i + 1).last() == entries@[i as int]);
        }
        match walker.consider(&entries[i]) {
            Some(t) => tasks.push(t),
            None => (),
        }
        i = i + 1;
    }
    proof {
        assert(entries@.take(entries@.len() as int) =~= entries@);
    }
    let m = walker.complete();
    (tasks, m)
}

/// A walk emits no more tasks than it saw entries.
pub proof fn lemma_walk_tasks_len(entries: Seq<ScanEntry>)
    ensures
        walk_tasks(entries).len() <= entries.len(),
    decreases entries.len(),
{
    if entries.len() > 0 {
        lemma_walk_tasks_len(entries.drop_last());
    }
}

/// Task numbers are positions: the `k`-th task emitted carries index
/// `k`.
pub proof fn lemma_walk_task_indices(entries: Seq<ScanEntry>, k: int)
    requires
        entries.len() <= u64::MAX,
        0 <= k < walk_tasks(entries).len(),
    ensures
        walk_tasks(entries)[k].index == k,
    decreases entries.len(),
{
    if entries.len() > 0 {
        let prior = walk_tasks(entries.drop_last());
        if k < prior.len() {
            lemma_walk_task_indices(entries.drop_last(), k);
        } else {
            lemma_walk_tasks_len(entries.drop_last());
        }
    }
}

/// Every task comes from an included entry: its path is the path of
/// some entry that was a regular file and not the output destination.
pub proof fn lemma_tasks_from_included_entries(entries: Seq<ScanEntry>, k: int)
    requires
        0 <= k < walk_tasks(entries).len(),
    ensures
        exists|j: int|
            0 <= j < entries.len() && #[trigger] entries[j].included()
                && walk_tasks(entries)[k].path == entries[j].path,
    decreases entries.len(),
{
    if entries.len() > 0 {
        let prior = walk_tasks(entries.drop_last());
        if k < prior.len() {
            lemma_tasks_from_included_entries(entries.drop_last(), k);
            let j = choose|j: int|
                0 <= j < entries.drop_last().len() && #[trigger] entries.drop_last()[j].included()
                    && walk_tasks(entries.drop_last())[k].path == entries.drop_last()[j].path;
            assert(entries[j].included());
            assert(walk_tasks(entries)[k].path == entries[j].path);
        } else {
            let j = entries.len() - 1;
            assert(entries[j].included());
            assert(walk_tasks(entries)[k].path == entries[j].path);
        }
    }
}

/// Self-exclusion: when every entry at a path was identified as the
/// output destination, no task of the walk carries that path — the
/// destination is never hashed as its own input.
pub proof fn lemma_destination_excluded(entries: Seq<ScanEntry>, p: Seq<char>)
    requires
        forall|j: int|
            0 <= j < entries.len() && #[trigger] entries[j].path@ == p
                ==> entries[j].is_output_destination,
    ensures
        forall|k: int|
            0 <= k < walk_tasks(entries).len() ==> #[trigger] walk_tasks(entries)[k].path@ != p,
{
    assert forall|k: int|
        0 <= k < walk_tasks(entries).len() implies #[trigger] walk_tasks(entries)[k].path@ != p by {
        lemma_tasks_from_included_entries(entries, k);
        let j = choose|j: int|
            0 <= j < entries.len() && #[trigger] entries[j].included()
                && walk_tasks(entries)[k].path == entries[j].path;
        if entries[j].path@ == p {
            assert(entries[j].is_output_destination);
        }
    }
}

} // verus!
