//! The applier's aggregated report.
//!
//! Operations of a plan are causally independent, so the caller may run them
//! in any order or in parallel; each outcome is captured independently and a
//! failure of one operation never aborts the others. The report lists one
//! outcome per operation in the plan's original order, and the run as a
//! whole succeeds only when no operation failed.

use vstd::prelude::*;

verus! {

/// The outcome of one operation of a plan.
#[derive(Clone, Debug)]
pub enum Outcome {
    /// The remote call succeeded.
    Success,
    /// The remote call failed; carries the cause, for diagnostics. The
    /// failed operation is found by position.
    Failure { message: String },
}

/// How many outcomes report a failure.
pub open spec fn spec_failure_count(s: Seq<Outcome>) -> nat
    decreases s.len(),
{
    if s.len() == 0 {
        0
    } else {
        spec_failure_count(s.drop_last()) + if s.last() is Failure {
            1nat
        } else {
            0
        }
    }
}

/// The run succeeds exactly when no outcome reports a failure.
pub proof fn lemma_success_iff_no_failures(s: Seq<Outcome>)
    ensures
        (spec_failure_count(s) == 0) <==> (forall|i: int|
            0 <= i < s.len() ==> (#[trigger] s[i]) is Success),
    decreases s.len(),
{
    if s.len() == 0 {
    } else {
        lemma_success_iff_no_failures(s.drop_last());
        assert(s[s.len() - 1] == s.last());
        assert(forall|i: int| 0 <= i < s.drop_last().len() ==> s.drop_last()[i] == s[i]);
        if spec_failure_count(s) == 0 {
            assert forall|i: int| 0 <= i < s.len() implies (#[trigger] s[i]) is Success by {
                if i < s.len() - 1 {
                    assert(s.drop_last()[i] == s[i]);
                }
            }
        }
    }
}

/// The aggregated result of applying a plan: one outcome per operation, in
/// the plan's original order, whatever order the remote calls ran in.
#[derive(Clone, Debug)]
pub struct Report {
    pub outcomes: Vec<Outcome>,
}

impl Report {
    /// An empty report, ready to collect outcomes.
    pub fn new() -> (r: Report)
        ensures
            r.outcomes@.len() == 0,
    {
        Report { outcomes: Vec::new() }
    }

    /// Appends one operation's outcome.
    pub fn push(&mut self, outcome: Outcome)
        ensures
            final(self).outcomes@ == old(self).outcomes@.push(outcome),
    {
        self.outcomes.push(outcome);
    }

    /// How many operations failed.
    pub fn failure_count(&self) -> (n: usize)
        ensures
            n == spec_failure_count(self.outcomes@),
    {
        let m = self.outcomes.len();
        let mut n: usize = 0;
        let mut i: usize = 0;
        proof {
            assert(self.outcomes@.take(0).len() == 0);
        }
        while i < m
            invariant
                0 <= i <= m,
                m == self.outcomes@.len(),
                n <= i,
                n == spec_failure_count(self.outcomes@.take(i as int)),
            decreases m - i,
        {
            proof {
                assert(self.outcomes@.take(i + 1).drop_last() =~= self.outcomes@.take(i as int));
                assert(self.outcomes@.take(i + 1).last() == self.outcomes@[i as int]);
            }
            match &self.outcomes[i] {
                Outcome::Failure { .. } => {
                    n += 1;
                },
                Outcome::Success => {},
            }
            i += 1;
        }
        proof {
            assert(self.outcomes@.take(m as int) =~= self.outcomes@);
        }
        n
    }

    /// Did every operation succeed? The run as a whole reports failure when
    /// any operation failed, but completed operations are never rolled
    /// back.
    pub fn is_success(&self) -> (b: bool)
        ensures
            b == (forall|i: int|
                0 <= i < self.outcomes@.len() ==> (#[trigger] self.outcomes@[i]) is Success),
    {
        let m = self.outcomes.len();
        let mut i: usize = 0;
        while i < m
            invariant
                0 <= i <= m,
                m == self.outcomes@.len(),
                forall|k: int| 0 <= k < i ==> (#[trigger] self.outcomes@[k]) is Success,
            decreases m - i,
        {
            match &self.outcomes[i] {
                Outcome::Failure { .. } => {
                    return false;
                },
                Outcome::Success => {},
            }
            i += 1;
        }
        true
    }
}

} // verus!
