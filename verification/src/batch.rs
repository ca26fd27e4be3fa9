//! Tallying of a batch run: one outcome per directory entry, counted once
//! each, with per-item failures isolated from the rest of the run.

use vstd::prelude::*;

verus! {

/// What became of one directory entry during a batch run.
#[derive(Clone, Copy, PartialEq, Eq, Structural, Debug)]
pub enum EntryOutcome {
    /// The entry could not be read from the directory listing.
    Unreadable,
    /// The entry was not a decodable image and was skipped.
    Skipped,
    /// The entry ran through the whole pipeline and was written out.
    Completed,
    /// The entry was a decodable image whose processing failed.
    Failed,
}

/// Number of occurrences of one outcome in a run.
pub open spec fn count_of(s: Seq<EntryOutcome>, o: EntryOutcome) -> int
    decreases s.len(),
{
    if s.len() == 0 {
        0
    } else {
        count_of(s.drop_last(), o) + if s.last() == o {
            1int
        } else {
            0int
        }
    }
}

/// Totals of a batch run.  `attempted` counts every entry exactly once,
/// whatever its outcome.
#[derive(Clone, Copy, PartialEq, Eq, Structural, Debug)]
pub struct BatchSummary {
    pub attempted: usize,
    pub completed: usize,
    pub failed: usize,
    pub skipped: usize,
    pub unreadable: usize,
}

/// Tally a batch run: every entry is counted exactly once, under the one
/// outcome it had.
pub fn summarize(outcomes: &Vec<EntryOutcome>) -> (s: BatchSummary)
    ensures
        s.attempted == outcomes.len(),
        s.unreadable == count_of(outcomes@, EntryOutcome::Unreadable),
        s.skipped == count_of(outcomes@, EntryOutcome::Skipped),
        s.completed == count_of(outcomes@, EntryOutcome::Completed),
        s.failed == count_of(outcomes@, EntryOutcome::Failed),
        s.unreadable + s.skipped + s.completed + s.failed == s.attempted,
{
    let mut unreadable: usize = 0;
    let mut skipped: usize = 0;
    let mut completed: usize = 0;
    let mut failed: usize = 0;
    let n = outcomes.len();
    let mut i: usize = 0;
    while i < n
        invariant
            0 <= i <= n == outcomes@.len(),
            unreadable == count_of(outcomes@.take(i as int), EntryOutcome::Unreadable),
            skipped == count_of(outcomes@.take(i as int), EntryOutcome::Skipped),
            completed == count_of(outcomes@.take(i as int), EntryOutcome::Completed),
            failed == count_of(outcomes@.take(i as int), EntryOutcome::Failed),
            unreadable + skipped + completed + failed == i,
        decreases n - i,
    {
        proof {
            assert(outcomes@.take(i + 1).drop_last() =~= outcomes@.take(i as int));
            assert(outcomes@.take(i + 1).last() == outcomes@[i as int]);
        }
        match outcomes[i] {
            EntryOutcome::Unreadable => {
                unreadable = unreadable + 1;
            },
            EntryOutcome::Skipped => {
                skipped = skipped + 1;
            },
            EntryOutcome::Completed => {
                completed = completed + 1;
            },
            EntryOutcome::Failed => {
                failed = failed + 1;
            },
        }
        i = i + 1;
    }
    proof {
        assert(outcomes@.take(n as int) =~= outcomes@);
    }
    BatchSummary { attempted: n, completed, failed, skipped, unreadable }
}

/// Batch isolation: in a run over decodable and undecodable entries alone
/// (none unreadable, none failing past the decode filter), the number of
/// completed outputs is exactly the number of entries minus the skips.
pub proof fn lemma_batch_isolation(s: Seq<EntryOutcome>)
    requires
        forall|i: int|
            0 <= i < s.len() ==> s[i] == EntryOutcome::Completed || s[i] == EntryOutcome::Skipped,
    ensures
        count_of(s, EntryOutcome::Completed) == s.len() - count_of(s, EntryOutcome::Skipped),
        count_of(s, EntryOutcome::Failed) == 0,
        count_of(s, EntryOutcome::Unreadable) == 0,
    decreases s.len(),
{
    if s.len() > 0 {
        assert(forall|i: int|
            0 <= i < s.drop_last().len() ==> s.drop_last()[i] == EntryOutcome::Completed
                || s.drop_last()[i] == EntryOutcome::Skipped);
        lemma_batch_isolation(s.drop_last());
    }
}

/// A batch run's overall result: completing the loop is success, however
/// many individual entries failed.  Per-item failures never change it.
pub fn batch_result(summary: &BatchSummary) -> (r: Result<BatchSummary, ()>)
    ensures
        r == Ok::<BatchSummary, ()>(*summary),
{
    Ok(*summary)
}

} // verus!
