use gravity_crop::batch::{batch_result, summarize, BatchSummary, EntryOutcome};

#[test]
fn summary_counts_each_entry_once() {
    let outcomes = vec![
        EntryOutcome::Completed,
        EntryOutcome::Skipped,
        EntryOutcome::Completed,
        EntryOutcome::Failed,
        EntryOutcome::Unreadable,
    ];
    let s = summarize(&outcomes);
    assert_eq!(
        s,
        BatchSummary { attempted: 5, completed: 2, failed: 1, skipped: 1, unreadable: 1 }
    );
}

#[test]
fn empty_batch() {
    let s = summarize(&Vec::new());
    assert_eq!(
        s,
        BatchSummary { attempted: 0, completed: 0, failed: 0, skipped: 0, unreadable: 0 }
    );
}

#[test]
fn batch_isolation_counts() {
    // N = 5 images of which K = 2 are undecodable: exactly N - K completed
    // outputs and K skips, and the run as a whole is a success.
    let outcomes = vec![
        EntryOutcome::Completed,
        EntryOutcome::Skipped,
        EntryOutcome::Completed,
        EntryOutcome::Skipped,
        EntryOutcome::Completed,
    ];
    let s = summarize(&outcomes);
    assert_eq!(s.attempted, 5);
    assert_eq!(s.completed, 3);
    assert_eq!(s.skipped, 2);
    assert_eq!(s.failed, 0);
    assert_eq!(s.unreadable, 0);
    assert!(batch_result(&s).is_ok());
}

#[test]
fn failures_do_not_change_the_run_result() {
    let outcomes = vec![EntryOutcome::Failed, EntryOutcome::Failed];
    let s = summarize(&outcomes);
    assert_eq!(s.failed, 2);
    assert!(batch_result(&s).is_ok());
}
