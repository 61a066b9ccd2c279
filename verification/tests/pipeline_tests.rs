//! Walker and aggregator behavior: self-exclusion, task numbering,
//! exactly-one completion per task, and the processed/total countdown.

use hashscan::aggregator::{drain, Aggregator};
use hashscan::messages::CompletionMessage;
use hashscan::walker::{walk, ScanEntry, Walker};

fn entry(path: &str, regular: bool, is_destination: bool) -> ScanEntry {
    ScanEntry {
        path: path.to_string(),
        is_regular_file: regular,
        is_output_destination: is_destination,
    }
}

fn total_of(msg: &CompletionMessage) -> u64 {
    match msg {
        CompletionMessage::DiscoveryComplete { total } => *total,
        _ => panic!("expected the discovery-complete signal"),
    }
}

#[test]
fn walker_numbers_tasks_from_zero() {
    let mut w = Walker::new();
    let t0 = w.consider(&entry("a", true, false)).unwrap();
    let t1 = w.consider(&entry("b", true, false)).unwrap();
    assert_eq!(t0.index, 0);
    assert_eq!(t0.path, "a");
    assert_eq!(t1.index, 1);
    assert_eq!(total_of(&w.complete()), 2);
}

#[test]
fn walker_skips_non_regular_entries() {
    let mut w = Walker::new();
    assert!(w.consider(&entry("some_dir", false, false)).is_none());
    assert_eq!(total_of(&w.complete()), 0);
}

#[test]
fn walker_skips_the_output_destination() {
    let mut w = Walker::new();
    assert!(w.consider(&entry("out.csv", true, true)).is_none());
    let t = w.consider(&entry("a", true, false)).unwrap();
    assert_eq!(t.index, 0);
    assert_eq!(total_of(&w.complete()), 1);
}

#[test]
fn walk_excludes_destination_inside_the_root() {
    // The destination lies inside the scanned tree: it must not become
    // a task, and the total must not count it.
    let entries = vec![
        entry("root/a.txt", true, false),
        entry("root/out.csv", true, true),
        entry("root/sub", false, false),
        entry("root/sub/b.txt", true, false),
    ];
    let (tasks, complete) = walk(&entries);
    assert_eq!(tasks.len(), 2);
    assert!(tasks.iter().all(|t| t.path != "root/out.csv"));
    assert_eq!(tasks[0].path, "root/a.txt");
    assert_eq!(tasks[1].path, "root/sub/b.txt");
    assert_eq!(total_of(&complete), 2);
}

#[test]
fn aggregator_counts_hashed_and_skipped() {
    let mut agg = Aggregator::new();
    assert!(!agg.is_complete());
    let rec = agg
        .step(CompletionMessage::Hashed {
            path: "a".to_string(),
            index: 0,
            hash: "h".to_string(),
            content_type: None,
        })
        .unwrap();
    assert_eq!(rec.path, "a");
    assert_eq!(rec.hash, "h");
    assert!(agg.step(CompletionMessage::Skipped { index: 1 }).is_none());
    assert_eq!(agg.processed_count(), 2);
    assert_eq!(agg.success_count(), 1);
    assert!(!agg.is_complete());
    assert!(agg
        .step(CompletionMessage::DiscoveryComplete { total: 2 })
        .is_none());
    assert_eq!(agg.total(), Some(2));
    assert!(agg.is_complete());
}

#[test]
fn discovery_total_counts_all_terminal_messages() {
    // The signal may arrive before some completions; the counts still
    // add up at the end of the run.
    let msgs = vec![
        CompletionMessage::Skipped { index: 0 },
        CompletionMessage::DiscoveryComplete { total: 3 },
        CompletionMessage::Hashed {
            path: "b".to_string(),
            index: 1,
            hash: "hb".to_string(),
            content_type: None,
        },
        CompletionMessage::Hashed {
            path: "c".to_string(),
            index: 2,
            hash: "hc".to_string(),
            content_type: None,
        },
    ];
    let (agg, records) = drain(msgs);
    assert_eq!(agg.processed_count(), 3);
    assert_eq!(agg.success_count(), 2);
    assert_eq!(agg.total(), Some(3));
    assert!(agg.is_complete());
    assert_eq!(records.len(), 2);
    assert_eq!(records[0].path, "b");
    assert_eq!(records[1].path, "c");
}

#[test]
fn vanished_file_is_skipped_not_fatal() {
    // A file deleted between discovery and hashing yields a skip; the
    // countdown still completes.
    let entries = vec![entry("kept.txt", true, false), entry("gone.txt", true, false)];
    let (tasks, complete) = walk(&entries);
    assert_eq!(tasks.len(), 2);
    let msgs = vec![
        CompletionMessage::Hashed {
            path: tasks[0].path.clone(),
            index: tasks[0].index,
            hash: "h".to_string(),
            content_type: None,
        },
        // The worker could not open `gone.txt` any more.
        CompletionMessage::Skipped { index: tasks[1].index },
        complete,
    ];
    let (agg, records) = drain(msgs);
    assert_eq!(agg.processed_count(), 2);
    assert_eq!(agg.total(), Some(2));
    assert!(agg.is_complete());
    assert_eq!(records.len(), 1);
    assert_eq!(records[0].path, "kept.txt");
}
