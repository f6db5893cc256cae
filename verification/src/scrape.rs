//! How a scrape of the metrics is synchronised with the probe.

use crate::fping::version::Version;
use vstd::prelude::*;

verus! {

/// The versions of the probe that print a summary when they are sent the
/// quit signal.
pub const SUMMARY_ON_SIGNAL: &'static str = ">=4.3.0";

/// Whether a version of the probe prints a summary when it is sent the
/// quit signal: 4.3.0 and every version after it.
pub open spec fn summary_on_signal(version: Version) -> bool {
    version.major > 4 || (version.major == 4 && version.minor >= 3)
}

/// `semver::VersionReq::parse`, then `VersionReq::matches` on
/// `semver::Version::new(major, minor, patch)`; a requirement that cannot
/// be read is met by no version. Of the one requirement that the library
/// asks about, `>=4.3.0`, the contract says what semver's comparison of
/// the three numbers comes to; of others it says nothing.
#[verifier::external_body]
fn requirement_met(requirement: &str, major: u64, minor: u64, patch: u64) -> (met: bool)
    ensures
        requirement@ == ">=4.3.0"@ ==> met == (major > 4 || (major == 4 && minor >= 3)),
{
    match semver::VersionReq::parse(requirement) {
        Ok(requirement) => requirement.matches(&semver::Version::new(major, minor, patch)),
        Err(_) => false,
    }
}

/// How a scrape gets at the metrics.
#[derive(Clone, Copy, Debug, PartialEq, Eq, Structural)]
pub enum ScrapeMode {
    /// Each scrape first asks the probe for a summary and waits for it.
    Limited,
    /// Each scrape reads what is there.
    Unlimited,
}

impl ScrapeMode {
    /// The mode for a version of the probe: limited where the probe can
    /// be asked for a summary.
    pub fn for_version(version: &Version) -> (mode: Self)
        ensures
            mode == if summary_on_signal(*version) {
                ScrapeMode::Limited
            } else {
                ScrapeMode::Unlimited
            },
    {
        Self::select(
            requirement_met(SUMMARY_ON_SIGNAL, version.major, version.minor, version.patch),
        )
    }

    /// The mode for a probe that can, or cannot, be asked for a summary.
    pub fn select(summary_on_signal: bool) -> (mode: Self)
        ensures
            mode == if summary_on_signal {
                ScrapeMode::Limited
            } else {
                ScrapeMode::Unlimited
            },
    {
        if summary_on_signal {
            ScrapeMode::Limited
        } else {
            ScrapeMode::Unlimited
        }
    }

    /// How many flush requests may queue up for the multiplexer: one in
    /// limited mode; in unlimited mode there is no queue.
    pub fn queue_capacity(&self) -> (capacity: Option<usize>)
        ensures
            capacity == match *self {
                ScrapeMode::Limited => Some(1usize),
                ScrapeMode::Unlimited => None,
            },
    {
        match self {
            ScrapeMode::Limited => Some(1),
            ScrapeMode::Unlimited => None,
        }
    }
}

/// Why a scrape fails.
#[derive(Clone, Copy, Debug, PartialEq, Eq, Structural)]
pub enum AccessError {
    /// The probe has exited: nobody takes flush requests any more.
    FpingProcessDead,
    /// The flush request was dropped before its cycle completed.
    RequestDropped,
}

/// How far a scrape has come.
#[derive(Clone, Copy, Debug, PartialEq, Eq, Structural)]
pub enum ScrapeStage {
    /// Nothing has happened yet.
    Start,
    /// The flush request is on its way into the queue.
    Requesting,
    /// The flush request is queued; its cycle has not completed.
    Waiting,
    /// The scrape has ended.
    Finished,
}

/// What a scrape learns while it runs.
#[derive(Clone, Copy, Debug, PartialEq, Eq, Structural)]
pub enum ScrapeEvent {
    /// The scrape begins.
    Begin,
    /// The queue took the flush request.
    Accepted,
    /// The queue is closed.
    Refused,
    /// The cycle of the flush request has completed.
    Completed,
    /// The flush request was dropped.
    Dropped,
}

/// What a scrape does next.
#[derive(Clone, Copy, Debug, PartialEq, Eq, Structural)]
pub enum ScrapeAction {
    /// Put a flush request into the queue, waiting for room.
    Request,
    /// Wait for the cycle to complete.
    Await,
    /// Read the metrics.
    Snapshot,
    /// Give up.
    Fail(AccessError),
}

/// The step that a scrape takes on an event; `None` for an event that
/// cannot come at that stage.
pub open spec fn scrape_step(mode: ScrapeMode, stage: ScrapeStage, event: ScrapeEvent) -> Option<
    (ScrapeStage, ScrapeAction),
> {
    match (mode, stage, event) {
        (ScrapeMode::Unlimited, ScrapeStage::Start, ScrapeEvent::Begin) => Some(
            (ScrapeStage::Finished, ScrapeAction::Snapshot),
        ),
        (ScrapeMode::Limited, ScrapeStage::Start, ScrapeEvent::Begin) => Some(
            (ScrapeStage::Requesting, ScrapeAction::Request),
        ),
        (ScrapeMode::Limited, ScrapeStage::Requesting, ScrapeEvent::Accepted) => Some(
            (ScrapeStage::Waiting, ScrapeAction::Await),
        ),
        (ScrapeMode::Limited, ScrapeStage::Requesting, ScrapeEvent::Refused) => Some(
            (ScrapeStage::Finished, ScrapeAction::Fail(AccessError::FpingProcessDead)),
        ),
        (ScrapeMode::Limited, ScrapeStage::Waiting, ScrapeEvent::Completed) => Some(
            (ScrapeStage::Finished, ScrapeAction::Snapshot),
        ),
        (ScrapeMode::Limited, ScrapeStage::Waiting, ScrapeEvent::Dropped) => Some(
            (ScrapeStage::Finished, ScrapeAction::Fail(AccessError::RequestDropped)),
        ),
        _ => None,
    }
}

/// Takes one step of a scrape.
pub fn advance(mode: ScrapeMode, stage: ScrapeStage, event: ScrapeEvent) -> (step: Option<
    (ScrapeStage, ScrapeAction),
>)
    ensures
        step == scrape_step(mode, stage, event),
{
    match mode {
        ScrapeMode::Unlimited => match (stage, event) {
            (ScrapeStage::Start, ScrapeEvent::Begin) => Some(
                (ScrapeStage::Finished, ScrapeAction::Snapshot),
            ),
            _ => None,
        },
        ScrapeMode::Limited => match (stage, event) {
            (ScrapeStage::Start, ScrapeEvent::Begin) => Some(
                (ScrapeStage::Requesting, ScrapeAction::Request),
            ),
            (ScrapeStage::Requesting, ScrapeEvent::Accepted) => Some(
                (ScrapeStage::Waiting, ScrapeAction::Await),
            ),
            (ScrapeStage::Requesting, ScrapeEvent::Refused) => Some(
                (ScrapeStage::Finished, ScrapeAction::Fail(AccessError::FpingProcessDead)),
            ),
            (ScrapeStage::Waiting, ScrapeEvent::Completed) => Some(
                (ScrapeStage::Finished, ScrapeAction::Snapshot),
            ),
            (ScrapeStage::Waiting, ScrapeEvent::Dropped) => Some(
                (ScrapeStage::Finished, ScrapeAction::Fail(AccessError::RequestDropped)),
            ),
            _ => None,
        },
    }
}

/// The actions of a scrape that starts at `stage` and meets `events` one
/// after the other; `None` where an event cannot come at its stage.
pub open spec fn scrape_actions(mode: ScrapeMode, stage: ScrapeStage, events: Seq<ScrapeEvent>) -> Option<
    Seq<ScrapeAction>,
>
    decreases events.len(),
{
    if events.len() == 0 {
        Some(Seq::empty())
    } else {
        match scrape_step(mode, stage, events[0]) {
            Some((next, action)) => match scrape_actions(mode, next, events.skip(1)) {
                Some(rest) => Some(seq![action] + rest),
                None => None,
            },
            None => None,
        }
    }
}

/// In limited mode the metrics are read only once the cycle of the
/// scrape's own flush request has completed, and a queue that is closed
/// ends the scrape at once, before it waits for anything.
pub proof fn lemma_limited_scrape_waits(stage: ScrapeStage, event: ScrapeEvent)
    ensures
        scrape_step(ScrapeMode::Limited, stage, event) matches Some((_, action)) && action
            == ScrapeAction::Snapshot ==> stage == ScrapeStage::Waiting && event
            == ScrapeEvent::Completed,
        scrape_step(ScrapeMode::Limited, stage, event) matches Some((next, _)) && next
            == ScrapeStage::Waiting ==> stage == ScrapeStage::Requesting && event
            == ScrapeEvent::Accepted,
        scrape_step(ScrapeMode::Limited, ScrapeStage::Requesting, ScrapeEvent::Refused) == Some(
            (ScrapeStage::Finished, ScrapeAction::Fail(AccessError::FpingProcessDead)),
        ),
        scrape_step(ScrapeMode::Limited, ScrapeStage::Finished, event) is None,
{
}

/// A whole scrape in limited mode that reads the metrics has asked for a
/// summary, was queued and saw its cycle complete, in that order and with
/// nothing else in between.
pub proof fn lemma_limited_scrape_runs(events: Seq<ScrapeEvent>)
    requires
        scrape_actions(ScrapeMode::Limited, ScrapeStage::Start, events) matches Some(actions)
            && actions.contains(ScrapeAction::Snapshot),
    ensures
        events == seq![ScrapeEvent::Begin, ScrapeEvent::Accepted, ScrapeEvent::Completed],
{
    let mode = ScrapeMode::Limited;
    let queued = events.skip(1);
    let waiting = queued.skip(1);
    let finished = waiting.skip(1);
    // the actions of each stage that the run passes through
    let _ = scrape_actions(mode, ScrapeStage::Requesting, queued);
    let _ = scrape_actions(mode, ScrapeStage::Waiting, waiting);
    let _ = scrape_actions(mode, ScrapeStage::Finished, finished);
    let _ = scrape_actions(mode, ScrapeStage::Finished, waiting);
}

} // verus!
