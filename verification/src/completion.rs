//! What a completion token must offer to the aggregator that holds it.

use crate::event_stream::ControlDisabled;
use crate::util::lock::Claim;
use crate::util::signal::Interrupted;
use vstd::prelude::*;

verus! {

/// A token that somebody waits on until a summary cycle has completed.
pub trait OnSummaryComplete: Sized {
    /// Tells the waiting side that the cycle has completed.
    fn on_completed(self);

    /// What the token may answer when it is asked whether anybody still
    /// waits on it. A token that states nothing may answer either way.
    open spec fn answers(&self, alive: bool) -> bool {
        true
    }

    /// Whether anybody still waits on the token.
    fn is_alive(&self) -> (alive: bool)
        ensures
            self.answers(alive),
    ;
}

/// With control disabled there is no token, hence nothing to tell and
/// nobody who waits.
impl OnSummaryComplete for ControlDisabled {
    open spec fn answers(&self, alive: bool) -> bool {
        !alive
    }

    fn on_completed(self) {
    }

    fn is_alive(&self) -> (alive: bool)
        ensures
            !alive,
    {
        false
    }
}

/// `tokio::sync::oneshot::Sender`, carried as it is.
#[verifier::external_type_specification]
#[verifier::external_body]
#[verifier::reject_recursive_types(T)]
pub struct ExSender<T>(tokio::sync::oneshot::Sender<T>);

/// `tokio::sync::oneshot::Sender::send`: hands the claim to the receiving
/// side, or drops it where that side is gone. Nothing comes back.
#[verifier::external_body]
fn send_claim(sender: tokio::sync::oneshot::Sender<Claim>, claim: Claim) {
    let _ = sender.send(claim);
}

/// `tokio::sync::oneshot::Sender::is_closed`: whether the receiving side
/// has been dropped or closed. That is decided elsewhere, so the contract
/// claims nothing of it.
#[verifier::external_body]
fn is_closed(sender: &tokio::sync::oneshot::Sender<Claim>) -> bool {
    sender.is_closed()
}

/// Whether anybody waits on a token whose channel is, or is not, closed:
/// a scrape waits for as long as it keeps the receiving side.
pub fn awaited(closed: bool) -> (alive: bool)
    ensures
        alive == !closed,
{
    !closed
}

/// The token of a scrape that waits for a flush cycle: the claim on the
/// lock travels back to the scrape, and the lock is free again when the
/// scrape lets go of it.
impl OnSummaryComplete for Interrupted<(tokio::sync::oneshot::Sender<Claim>, Claim)> {
    fn on_completed(self) {
        let Interrupted((sender, claim)) = self;
        send_claim(sender, claim)
    }

    /// Whether the scrape still keeps the receiving side is decided by
    /// the scrape; `awaited` says the rest.
    fn is_alive(&self) -> bool {
        awaited(is_closed(&self.0.0))
    }
}

} // verus!
