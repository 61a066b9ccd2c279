//! The aggregator: the sole consumer of the return channel. On each
//! terminal message it advances the progress counts and, for a hashed
//! file, hands back the record to write; on the discovery-complete
//! signal it learns the total. It owns all of this state alone on one
//! thread, so no locking is ever involved.

use vstd::prelude::*;
use crate::messages::{CompletionMessage, FileRecord};

verus! {

/// The progress state the aggregator owns: how many completions it has
/// seen, how many of them were successful, and the total task count
/// once discovery has finished.
pub struct ProgressState {
    pub processed: nat,
    pub success: nat,
    pub total: Option<nat>,
}

/// The state before any message: nothing processed, total unknown.
pub open spec fn init_state() -> ProgressState {
    ProgressState { processed: 0, success: 0, total: Option::None }
}

/// One transition of the aggregator's state machine: a hashed file
/// counts as processed and successful, a skipped one as processed only,
/// and the discovery-complete signal records the total.
pub open spec fn step_state(s: ProgressState, m: CompletionMessage) -> ProgressState {
    match m {
        CompletionMessage::Hashed { .. } => ProgressState {
            processed: s.processed + 1,
            success: s.success + 1,
            total: s.total,
        },
        CompletionMessage::Skipped { .. } => ProgressState {
            processed: s.processed + 1,
            success: s.success,
            total: s.total,
        },
        CompletionMessage::DiscoveryComplete { total } => ProgressState {
            processed: s.processed,
            success: s.success,
            total: Option::Some(total as nat),
        },
    }
}

/// The state after the first `k` messages of a run.
pub open spec fn run_state(msgs: Seq<CompletionMessage>, k: int) -> ProgressState
    decreases k,
{
    if k <= 0 {
        init_state()
    } else {
        step_state(run_state(msgs, k - 1), msgs[k - 1])
    }
}

/// The records written for the first `k` messages of a run, in arrival
/// order: one per hashed file, none for a skip or a signal.
pub open spec fn run_records(msgs: Seq<CompletionMessage>, k: int) -> Seq<FileRecord>
    decreases k,
{
    if k <= 0 {
        Seq::empty()
    } else {
        let prior = run_records(msgs, k - 1);
        match msgs[k - 1] {
            CompletionMessage::Hashed { path, index: _, hash, content_type } => prior.push(
                FileRecord { path, hash, content_type },
            ),
            _ => prior,
        }
    }
}

/// The aggregator's concrete state.
pub struct Aggregator {
    processed: u64,
    success: u64,
    total: Option<u64>,
}

impl Aggregator {
    /// The progress state this aggregator is in.
    pub closed spec fn state(self) -> ProgressState {
        ProgressState {
            processed: self.processed as nat,
            success: self.success as nat,
            total: match self.total {
                Option::Some(t) => Option::Some(t as nat),
                Option::None => Option::None,
            },
        }
    }

    pub fn new() -> (r: Self)
        ensures
            r.state() == init_state(),
    {
        Self { processed: 0, success: 0, total: Option::None }
    }

    pub fn processed_count(&self) -> (r: u64)
        ensures
            r == self.state().processed,
    {
        self.processed
    }

    pub fn success_count(&self) -> (r: u64)
        ensures
            r == self.state().success,
    {
        self.success
    }

    pub fn total(&self) -> (r: Option<u64>)
        ensures
            r is Some <==> self.state().total is Some,
            r matches Some(t) ==> self.state().total == Option::Some(t as nat),
    {
        self.total
    }

    /// Consumes one message: advances the state machine and returns the
    /// record to write, which exists exactly for a hashed file.
    pub fn step(&mut self, msg: CompletionMessage) -> (r: Option<FileRecord>)
        requires
            old(self).state().processed < u64::MAX,
            old(self).state().success < u64::MAX,
        ensures
            final(self).state() == step_state(old(self).state(), msg),
            r is Some <==> msg is Hashed,
            msg matches CompletionMessage::Hashed { path, index: _, hash, content_type }
                ==> (r matches Some(rec) && rec.path == path && rec.hash == hash
                    && rec.content_type == content_type),
    {
        match msg {
            CompletionMessage::Hashed { path, index: _, hash, content_type } => {
                self.processed = self.processed + 1;
                self.success = self.success + 1;
                Some(FileRecord { path, hash, content_type })
            },
            CompletionMessage::Skipped { index: _ } => {
                self.processed = self.processed + 1;
                None
            },
            CompletionMessage::DiscoveryComplete { total } => {
                self.total = Some(total);
                None
            },
        }
    }

    /// Whether the countdown has finished: the total is known and every
    /// counted task has been processed. The run as a whole ends when
    /// the return channel closes; this is the check that, at that
    /// point, nothing was lost.
    pub fn is_complete(&self) -> (r: bool)
        ensures
            r == (self.state().total matches Some(t) && self.state().processed == t),
    {
        match self.total {
            Some(t) => self.processed == t,
            None => false,
        }
    }
}

/// Success never outruns processing, and processing grows by at most
/// one per message: the prefix counts of a run are bounded by its
/// length.
pub proof fn lemma_run_state_bounds(msgs: Seq<CompletionMessage>, k: int)
    requires
        0 <= k <= msgs.len(),
    ensures
        run_state(msgs, k).success <= run_state(msgs, k).processed <= k,
    decreases k,
{
    if k > 0 {
        lemma_run_state_bounds(msgs, k - 1);
    }
}

/// One output line per success: a run yields exactly as many records
/// as its success count — a line is written for every hashed file and
/// for nothing else.
pub proof fn lemma_records_match_success(msgs: Seq<CompletionMessage>, k: int)
    requires
        0 <= k <= msgs.len(),
    ensures
        run_records(msgs, k).len() == run_state(msgs, k).success,
    decreases k,
{
    if k > 0 {
        lemma_records_match_success(msgs, k - 1);
    }
}

/// Drains a whole run at once: feeds every message to a fresh
/// aggregator and collects the records in arrival order.
pub fn drain(msgs: Vec<CompletionMessage>) -> (r: (Aggregator, Vec<FileRecord>))
    ensures
        r.0.state() == run_state(msgs@, msgs@.len() as int),
        r.1@ == run_records(msgs@, msgs@.len() as int),
{
    let ghost all = msgs@;
    let mut msgs = msgs;
    let mut agg = Aggregator::new();
    let mut records: Vec<FileRecord> = Vec::new();
    let mut i: usize = 0;
    let n = msgs.len();
    while i < n
        invariant
            i <= n == all.len(),
            msgs@ =~= all.skip(i as int),
            agg.state() == run_state(all, i as int),
            records@ == run_records(all, i as int),
        decreases n - i,
    {
        proof {
            lemma_run_state_bounds(all, i as int);
            assert(all.skip(i as int)[0] == all[i as int]);
        }
        let msg = msgs.remove(0);
        match agg.step(msg) {
            Some(rec) => records.push(rec),
            None => (),
        }
        i = i + 1;
        proof {
            assert(all.skip(i - 1).remove(0) =~= all.skip(i as int));
        }
    }
    (agg, records)
}

} // verus!
