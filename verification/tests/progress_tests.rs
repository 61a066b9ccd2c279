//! The progress reporter's presentation state machine.

use hashscan::progress::{status_message, Progress, ProgressAction};

#[test]
fn disabled_reporter_stays_silent() {
    let mut p = Progress::new();
    assert!(!p.build_status());
    assert!(matches!(p.inc(0, 0, 0), ProgressAction::Quiet));
    assert!(!p.build_bar(10));
    assert!(matches!(p.inc(0, 0, 0), ProgressAction::Quiet));
    assert_eq!(p.count(), 2);
}

#[test]
fn indeterminate_ticks_with_counter_message() {
    let mut p = Progress::new();
    p.set_enabled(true);
    assert!(p.build_status());
    match p.inc(2, 3, 4) {
        ProgressAction::Tick { message } => {
            assert_eq!(message, "Processing files (1) (2 : 3 / 4)");
        }
        _ => panic!("expected a tick"),
    }
    assert_eq!(p.count(), 1);
}

#[test]
fn determinate_bar_advances() {
    let mut p = Progress::new();
    p.set_enabled(true);
    assert!(p.build_status());
    let _ = p.inc(0, 0, 0);
    // Discovery completes: the reporter becomes a bar and never ticks
    // again.
    assert!(p.build_bar(5));
    assert!(matches!(p.inc(0, 0, 0), ProgressAction::Advance));
    assert!(matches!(p.inc_success(0, 0, 0), ProgressAction::Advance));
    assert_eq!(p.count(), 3);
}

#[test]
fn tick_message_counts_up() {
    let mut p = Progress::new();
    p.set_enabled(true);
    assert!(p.build_status());
    let _ = p.inc(0, 0, 4);
    match p.inc_success(1, 2, 4) {
        ProgressAction::Tick { message } => {
            assert_eq!(message, "Processing files (2) (1 : 2 / 4)");
        }
        _ => panic!("expected a tick"),
    }
}

#[test]
fn status_message_renders_all_counters() {
    assert_eq!(status_message(0, 0, 0, 0), "Processing files (0) (0 : 0 / 0)");
    assert_eq!(
        status_message(1234567890123, 10, 8, 16),
        "Processing files (1234567890123) (10 : 8 / 16)"
    );
}
