//! The deletion stage and its report.
//!
//! Deletion calls are network work and happen outside the library; the
//! session here makes every decision around them. It hands out the next
//! identifier to delete, records each outcome, and guarantees that every
//! flagged identifier gets exactly one deletion attempt, in fetch order,
//! whatever the individual outcomes are: a failed deletion is captured
//! in the report and never aborts the remaining deletions or the run.

use vstd::prelude::*;

verus! {

/// The outcome of one deletion attempt: the comment was removed, or the
/// attempt failed with an opaque cause.
pub enum DeletionOutcome {
    Removed,
    Failed(String),
}

/// One line of the final report: an identifier that was flagged, and
/// how its deletion attempt ended.
pub struct ReportEntry {
    pub id: String,
    pub outcome: DeletionOutcome,
}

/// A purge in progress: the flagged identifiers to delete, in fetch
/// order, and the outcomes recorded so far. Outcomes are recorded
/// strictly in target order, one per target, so a completed session's
/// report lists every flagged identifier exactly once.
pub struct PurgeSession {
    targets: Vec<String>,
    entries: Vec<ReportEntry>,
}

impl PurgeSession {
    /// The flagged identifiers this session will attempt to delete.
    pub closed spec fn targets_seq(self) -> Seq<String> {
        self.targets@
    }

    /// The report entries recorded so far.
    pub closed spec fn entries_seq(self) -> Seq<ReportEntry> {
        self.entries@
    }

    /// Every recorded entry belongs to the target at its own position:
    /// outcomes arrive in target order and never outnumber the targets.
    pub open spec fn wf(self) -> bool {
        &&& self.entries_seq().len() <= self.targets_seq().len()
        &&& forall|i: int|
            0 <= i < self.entries_seq().len() ==> self.entries_seq()[i].id == self.targets_seq()[i]
    }

    /// Opens a session over the flagged identifiers, with nothing
    /// attempted yet. An empty target list yields a session that is
    /// complete at once: the deletion stage is then never invoked.
    pub fn begin(targets: Vec<String>) -> (s: Self)
        ensures
            s.wf(),
            s.targets_seq() == targets@,
            s.entries_seq() == Seq::<ReportEntry>::empty(),
    {
        PurgeSession { targets, entries: Vec::new() }
    }

    /// The identifier whose deletion should be attempted next, or
    /// nothing when every target already has a recorded outcome.
    pub fn next_target(&self) -> (r: Option<String>)
        ensures
            match r {
                Some(id) => self.entries_seq().len() < self.targets_seq().len() && id
                    == self.targets_seq()[self.entries_seq().len() as int],
                None => self.entries_seq().len() >= self.targets_seq().len(),
            },
    {
        let attempted = self.entries.len();
        if attempted < self.targets.len() {
            Some(self.targets[attempted].clone())
        } else {
            None
        }
    }

    /// Records the outcome of the deletion attempt on the current
    /// target. A failure is stored like a success: it never ends the
    /// session, which moves on to the next target either way.
    pub fn record_outcome(&mut self, outcome: DeletionOutcome)
        requires
            old(self).wf(),
            old(self).entries_seq().len() < old(self).targets_seq().len(),
        ensures
            final(self).wf(),
            final(self).targets_seq() == old(self).targets_seq(),
            final(self).entries_seq() == old(self).entries_seq().push(
                (ReportEntry {
                    id: old(self).targets_seq()[old(self).entries_seq().len() as int],
                    outcome: outcome,
                }),
            ),
    {
        let attempted = self.entries.len();
        let id = self.targets[attempted].clone();
        self.entries.push(ReportEntry { id, outcome });
    }

    /// Whether every target has a recorded outcome.
    pub fn is_complete(&self) -> (r: bool)
        ensures
            r == (self.entries_seq().len() >= self.targets_seq().len()),
    {
        self.entries.len() >= self.targets.len()
    }

    /// Closes the session and hands out the report: one entry per
    /// recorded attempt, in fetch order.
    pub fn into_report(self) -> (r: Vec<ReportEntry>)
        ensures
            r@ == self.entries_seq(),
    {
        self.entries
    }
}

/// A completed well-formed session attempted exactly one deletion per
/// flagged identifier: its report has one entry per target, and the
/// entry at each position names the target at that position.
pub proof fn lemma_complete_session_covers_targets(s: PurgeSession)
    requires
        s.wf(),
        s.entries_seq().len() >= s.targets_seq().len(),
    ensures
        s.entries_seq().len() == s.targets_seq().len(),
        forall|i: int| 0 <= i < s.targets_seq().len() ==> s.entries_seq()[i].id == s.targets_seq()[i],
{
}

/// How many entries of a report are failures.
pub open spec fn spec_failure_count(entries: Seq<ReportEntry>) -> int
    decreases entries.len(),
{
    if entries.len() == 0 {
        0
    } else {
        spec_failure_count(entries.drop_last()) + if entries.last().outcome is Failed {
            1int
        } else {
            0int
        }
    }
}

/// A report never has more failures than entries, and never a negative
/// count.
pub proof fn lemma_failure_count_bounds(entries: Seq<ReportEntry>)
    ensures
        0 <= spec_failure_count(entries) <= entries.len(),
    decreases entries.len(),
{
    if entries.len() > 0 {
        lemma_failure_count_bounds(entries.drop_last());
    }
}

/// Counts the failed deletion attempts of a report, for the final
/// summary; failures are surfaced there, never dropped.
pub fn failure_count(entries: &Vec<ReportEntry>) -> (n: usize)
    ensures
        n == spec_failure_count(entries@),
{
    let mut n: usize = 0;
    let mut i: usize = 0;
    while i < entries.len()
        invariant
            i <= entries@.len(),
            n <= i,
            n == spec_failure_count(entries@.take(i as int)),
        decreases entries@.len() - i,
    {
        proof {
            assert(entries@.take(i + 1).drop_last() =~= entries@.take(i as int));
            assert(entries@.take(i + 1).last() == entries@[i as int]);
            lemma_failure_count_bounds(entries@.take(i as int));
        }
        if let DeletionOutcome::Failed(_) = &entries[i].outcome {
            n += 1;
        }
        i += 1;
    }
    proof {
        assert(entries@.take(entries@.len() as int) =~= entries@);
    }
    n
}

} // verus!
