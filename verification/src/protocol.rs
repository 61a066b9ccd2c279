//! The pipeline's delivery contract and what follows from it. A run is
//! the sequence of messages the aggregator consumes, in arrival order;
//! the channel guarantees that every task sent gets exactly one
//! terminal completion and that discovery completes exactly once, and
//! from that alone the counts must add up — no message lost, none
//! duplicated, whatever order the workers finish in.

use vstd::prelude::*;
use crate::aggregator::{run_state, ProgressState};
use crate::messages::CompletionMessage;
use crate::walker::{lemma_walk_task_indices, lemma_walk_tasks_len, walk_tasks, ScanEntry};

verus! {

/// How many terminal messages (`Hashed` or `Skipped`) a run holds.
pub open spec fn terminal_count(msgs: Seq<CompletionMessage>) -> nat
    decreases msgs.len(),
{
    if msgs.len() == 0 {
        0
    } else {
        terminal_count(msgs.drop_last()) + if msgs.last().is_terminal() {
            1nat
        } else {
            0nat
        }
    }
}

/// How many discovery-complete signals a run holds.
pub open spec fn discovery_count(msgs: Seq<CompletionMessage>) -> nat
    decreases msgs.len(),
{
    if msgs.len() == 0 {
        0
    } else {
        discovery_count(msgs.drop_last()) + if msgs.last() is DiscoveryComplete {
            1nat
        } else {
            0nat
        }
    }
}

/// How many terminal messages of a run complete the task numbered `i`.
pub open spec fn index_count(msgs: Seq<CompletionMessage>, i: u64) -> nat
    decreases msgs.len(),
{
    if msgs.len() == 0 {
        0
    } else {
        index_count(msgs.drop_last(), i) + if msgs.last().is_terminal()
            && msgs.last().terminal_index() == i {
            1nat
        } else {
            0nat
        }
    }
}

/// The terminal messages of a run that complete tasks numbered below
/// `j`, counted task by task.
pub open spec fn sum_index_counts(msgs: Seq<CompletionMessage>, j: int) -> nat
    decreases j,
{
    if j <= 0 {
        0
    } else {
        sum_index_counts(msgs, j - 1) + index_count(msgs, (j - 1) as u64)
    }
}

/// The delivery contract for a run of `n` tasks: discovery completes
/// exactly once and announces `n`; every task numbered below `n` gets
/// exactly one terminal completion; and no terminal message completes a
/// task that was never sent.
pub open spec fn valid_run(msgs: Seq<CompletionMessage>, n: u64) -> bool {
    &&& discovery_count(msgs) == 1
    &&& forall|k: int|
        0 <= k < msgs.len() ==> (#[trigger] msgs[k] matches
            CompletionMessage::DiscoveryComplete { total } ==> total == n)
    &&& forall|i: u64| i < n ==> #[trigger] index_count(msgs, i) == 1
    &&& forall|k: int|
        0 <= k < msgs.len() && (#[trigger] msgs[k]).is_terminal() ==> msgs[k].terminal_index()
            < n
}

proof fn lemma_processed_is_terminal_count(msgs: Seq<CompletionMessage>, k: int)
    requires
        0 <= k <= msgs.len(),
    ensures
        run_state(msgs, k).processed == terminal_count(msgs.take(k)),
    decreases k,
{
    if k > 0 {
        lemma_processed_is_terminal_count(msgs, k - 1);
        assert(msgs.take(k).drop_last() =~= msgs.take(k - 1));
        assert(msgs.take(k).last() == msgs[k - 1]);
    }
}

proof fn lemma_total_once_announced(msgs: Seq<CompletionMessage>, n: u64, k: int)
    requires
        0 <= k <= msgs.len(),
        forall|j: int|
            0 <= j < msgs.len() ==> (#[trigger] msgs[j] matches
                CompletionMessage::DiscoveryComplete { total } ==> total == n),
    ensures
        run_state(msgs, k).total == if discovery_count(msgs.take(k)) >= 1 {
            Option::Some(n as nat)
        } else {
            Option::<nat>::None
        },
    decreases k,
{
    if k > 0 {
        lemma_total_once_announced(msgs, n, k - 1);
        assert(msgs.take(k).drop_last() =~= msgs.take(k - 1));
        assert(msgs.take(k).last() == msgs[k - 1]);
    }
}

proof fn lemma_sum_snoc(s: Seq<CompletionMessage>, m: CompletionMessage, j: int)
    requires
        0 <= j <= u64::MAX,
    ensures
        sum_index_counts(s.push(m), j) == sum_index_counts(s, j) + if m.is_terminal()
            && m.terminal_index() < j {
            1nat
        } else {
            0nat
        },
    decreases j,
{
    if j > 0 {
        lemma_sum_snoc(s, m, j - 1);
        assert(s.push(m).drop_last() =~= s);
        assert(index_count(s.push(m), (j - 1) as u64) == index_count(s, (j - 1) as u64)
            + if m.is_terminal() && m.terminal_index() == (j - 1) as u64 {
                1nat
            } else {
                0nat
            });
    }
}

proof fn lemma_terminal_count_is_sum(msgs: Seq<CompletionMessage>, n: u64)
    requires
        forall|k: int|
            0 <= k < msgs.len() && (#[trigger] msgs[k]).is_terminal() ==> msgs[k].terminal_index()
                < n,
    ensures
        terminal_count(msgs) == sum_index_counts(msgs, n as int),
    decreases msgs.len(),
{
    if msgs.len() == 0 {
        lemma_sum_empty(msgs, n as int);
    } else {
        let s = msgs.drop_last();
        let m = msgs.last();
        assert forall|k: int| 0 <= k < s.len() && (#[trigger] s[k]).is_terminal() implies s[k].terminal_index() < n by {
            assert(s[k] == msgs[k]);
        }
        lemma_terminal_count_is_sum(s, n);
        lemma_sum_snoc(s, m, n as int);
        assert(s.push(m) =~= msgs);
        if m.is_terminal() {
            assert(msgs[msgs.len() - 1].is_terminal());
        }
    }
}

proof fn lemma_sum_empty(msgs: Seq<CompletionMessage>, j: int)
    requires
        msgs.len() == 0,
    ensures
        sum_index_counts(msgs, j) == 0,
    decreases j,
{
    if j > 0 {
        lemma_sum_empty(msgs, j - 1);
    }
}

proof fn lemma_sum_of_ones(msgs: Seq<CompletionMessage>, j: int, n: u64)
    requires
        0 <= j <= n,
        forall|i: u64| i < n ==> #[trigger] index_count(msgs, i) == 1,
    ensures
        sum_index_counts(msgs, j) == j,
    decreases j,
{
    if j > 0 {
        lemma_sum_of_ones(msgs, j - 1, n);
    }
}

/// Exactly-once delivery adds up: in a valid run of `n` tasks there are
/// exactly `n` terminal messages — the announced total equals the
/// number of `Hashed` and `Skipped` messages — and the aggregator that
/// consumes the whole run ends with its processed count equal to the
/// total it learned.
pub proof fn lemma_valid_run_drains(msgs: Seq<CompletionMessage>, n: u64)
    requires
        valid_run(msgs, n),
    ensures
        terminal_count(msgs) == n,
        run_state(msgs, msgs.len() as int).processed == n,
        run_state(msgs, msgs.len() as int).total == Option::Some(n as nat),
{
    lemma_terminal_count_is_sum(msgs, n);
    lemma_sum_of_ones(msgs, n as int, n);
    lemma_processed_is_terminal_count(msgs, msgs.len() as int);
    lemma_total_once_announced(msgs, n, msgs.len() as int);
    assert(msgs.take(msgs.len() as int) =~= msgs);
}

/// Every discovered file is eventually completed exactly once: in a
/// valid run over the tasks of a walk, each emitted task — and so each
/// regular file that is not the output destination — is the subject of
/// exactly one terminal message.
pub proof fn lemma_each_task_completed_once(
    entries: Seq<ScanEntry>,
    msgs: Seq<CompletionMessage>,
    k: int,
)
    requires
        entries.len() <= u64::MAX,
        valid_run(msgs, walk_tasks(entries).len() as u64),
        0 <= k < walk_tasks(entries).len(),
    ensures
        index_count(msgs, walk_tasks(entries)[k].index) == 1,
{
    lemma_walk_tasks_len(entries);
    lemma_walk_task_indices(entries, k);
}

} // verus!
