//! The summary cycle: how many per-target summaries a block is expected to
//! hold, how many have been seen, and the token that waits for the block
//! to complete.

use vstd::prelude::*;

verus! {

/// The number of summaries seen after one more, which stays where it is
/// once it cannot grow.
pub open spec fn observed_after_summary(observed: u32) -> u32 {
    if observed < u32::MAX {
        (observed + 1) as u32
    } else {
        observed
    }
}

/// The number of summaries expected after one more has been seen: a block
/// that turns out longer than expected raises the expectation.
pub open spec fn expected_after_summary(expected: u32, observed: u32) -> u32 {
    if observed_after_summary(observed) > expected {
        observed_after_summary(observed)
    } else {
        expected
    }
}

/// Whether the summary that is about to be counted completes the cycle.
pub open spec fn completes(expected: u32, observed: u32) -> bool {
    observed_after_summary(observed) >= expected
}

/// What counting one summary did.
pub struct SummaryOutcome<T> {
    /// The cycle is complete.
    pub completed: bool,
    /// The block held more summaries than expected.
    pub raised: bool,
    /// The token that waited for the cycle.
    pub released: Option<T>,
}

/// What a marker found.
#[derive(Clone, Copy, Debug, PartialEq, Eq, Structural)]
pub enum MarkerOutcome {
    /// A token waits for the block that the marker opens.
    Awaited,
    /// No token waits: the probe printed this block unasked.
    Unsolicited,
    /// A token waits, and the block before this one was cut short.
    Abandoned,
}

pub struct SummaryCycle<T> {
    expected_targets: u32,
    observed_targets: u32,
    held: Option<T>,
}

impl<T> SummaryCycle<T> {
    pub closed spec fn expected(self) -> u32 {
        self.expected_targets
    }

    pub closed spec fn observed(self) -> u32 {
        self.observed_targets
    }

    pub closed spec fn token(self) -> Option<T> {
        self.held
    }

    /// Within a cycle no more summaries have been seen than are expected,
    /// and at least one is expected.
    pub open spec fn wf(self) -> bool {
        1 <= self.expected() && self.observed() <= self.expected()
    }

    /// As many summaries have been seen as are expected.
    pub open spec fn complete(self) -> bool {
        self.observed() == self.expected()
    }

    /// What `on_marker` reports.
    pub open spec fn marker_outcome(self) -> MarkerOutcome {
        if self.token() is None {
            MarkerOutcome::Unsolicited
        } else if 0 < self.observed() < self.expected() {
            MarkerOutcome::Abandoned
        } else {
            MarkerOutcome::Awaited
        }
    }

    /// A cycle that expects one summary, the one that the probe prints
    /// when it ends, and holds no token.
    pub fn new() -> (cycle: Self)
        ensures
            cycle.wf(),
            cycle.expected() == 1,
            cycle.observed() == 0,
            cycle.token() is None,
    {
        SummaryCycle { expected_targets: 1, observed_targets: 0, held: None }
    }

    pub fn expected_targets(&self) -> (expected: u32)
        ensures
            expected == self.expected(),
    {
        self.expected_targets
    }

    pub fn observed_targets(&self) -> (observed: u32)
        ensures
            observed == self.observed(),
    {
        self.observed_targets
    }

    pub fn is_complete(&self) -> (complete: bool)
        ensures
            complete == self.complete(),
    {
        self.observed_targets == self.expected_targets
    }

    pub fn held_token(&self) -> (token: &Option<T>)
        ensures
            *token == self.token(),
    {
        &self.held
    }

    /// Stores the token of a flush request; a token already held is
    /// dropped.
    pub fn hold(&mut self, token: T)
        ensures
            final(self).expected() == old(self).expected(),
            final(self).observed() == old(self).observed(),
            final(self).token() == Some(token),
    {
        self.held = Some(token);
    }

    /// Gives up the token, if one is held.
    pub fn take_token(&mut self) -> (token: Option<T>)
        ensures
            final(self).expected() == old(self).expected(),
            final(self).observed() == old(self).observed(),
            final(self).token() is None,
            token == old(self).token(),
    {
        self.held.take()
    }

    /// Counts the summary of one target. Where that completes the cycle
    /// the token is released.
    pub fn on_summary(&mut self) -> (outcome: SummaryOutcome<T>)
        requires
            old(self).wf(),
        ensures
            final(self).wf(),
            final(self).observed() == observed_after_summary(old(self).observed()),
            final(self).expected() == expected_after_summary(
                old(self).expected(),
                old(self).observed(),
            ),
            outcome.completed == completes(old(self).expected(), old(self).observed()),
            outcome.completed == final(self).complete(),
            outcome.raised == (observed_after_summary(old(self).observed()) > old(self).expected()),
            outcome.released == if outcome.completed {
                old(self).token()
            } else {
                None
            },
            final(self).token() == if outcome.completed {
                None
            } else {
                old(self).token()
            },
    {
        if self.observed_targets < u32::MAX {
            self.observed_targets = self.observed_targets + 1;
        }
        let raised = self.observed_targets > self.expected_targets;
        if raised {
            self.expected_targets = self.observed_targets;
        }
        if self.observed_targets == self.expected_targets {
            SummaryOutcome { completed: true, raised, released: self.held.take() }
        } else {
            SummaryOutcome { completed: false, raised, released: None }
        }
    }

    /// Starts the next block: the expectation is raised to the number of
    /// summaries that the block before held, and the count starts over.
    pub fn on_marker(&mut self) -> (outcome: MarkerOutcome)
        requires
            old(self).wf(),
        ensures
            final(self).wf(),
            final(self).expected() == if old(self).observed() > old(self).expected() {
                old(self).observed()
            } else {
                old(self).expected()
            },
            final(self).observed() == 0,
            final(self).token() == old(self).token(),
            outcome == old(self).marker_outcome(),
    {
        let outcome = if self.held.is_none() {
            MarkerOutcome::Unsolicited
        } else if 0 < self.observed_targets && self.observed_targets < self.expected_targets {
            MarkerOutcome::Abandoned
        } else {
            MarkerOutcome::Awaited
        };
        if self.observed_targets > self.expected_targets {
            self.expected_targets = self.observed_targets;
        }
        self.observed_targets = 0;
        outcome
    }
}

/// Within a block the cycle completes at the summary that brings the
/// count to the expected number, and at none before it: a token that
/// waits for the block is released once, at that summary. A summary
/// beyond the expected number raises the expectation to the count, which
/// completes the cycle again.
pub proof fn lemma_completion_point(expected: u32, observed: u32)
    requires
        observed <= expected,
    ensures
        observed < expected ==> {
            &&& completes(expected, observed) <==> observed + 1 == expected
            &&& observed_after_summary(observed) == observed + 1
            &&& expected_after_summary(expected, observed) == expected
        },
        observed == expected ==> {
            &&& completes(expected, observed)
            &&& expected_after_summary(expected, observed) == observed_after_summary(observed)
        },
        observed_after_summary(observed) <= expected_after_summary(expected, observed),
{
}

} // verus!
