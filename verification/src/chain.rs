//! The chain as it is put together for a run: outermost the stage that
//! waits for the first line, then the lock, then the signal, and the
//! aggregator at the end.

use crate::event_stream::{Delivery, EventHandler};
use crate::metrics::MetricsState;
use crate::util::lock::{Claim, LockControl};
use crate::util::signal::{ControlToInterrupt, Interruptable, Interrupted, KnownSignals};
use crate::util::NoPrelaunchControl;
use vstd::prelude::*;

verus! {

/// The aggregator of a chain, which holds tokens that carry a claim and
/// whose signal was delivered.
pub type Aggregator<T, H> = MetricsState<Interrupted<(T, Claim)>, H>;

/// The chain for tokens of type `T`, a process handle of type `H` and its
/// signals of type `S`.
pub type Chain<T, H, S> = NoPrelaunchControl<LockControl<ControlToInterrupt<Aggregator<T, H>, S>>>;

/// The aggregator at the end of a chain.
pub open spec fn aggregator<T, H, S>(chain: Chain<T, H, S>) -> Aggregator<T, H> {
    chain.inner().inner().inner()
}

/// Puts the chain together around a new aggregator. Each token will ask
/// the probe for a summary with `signal`.
pub fn assemble<T, H, S>(signal: S) -> (chain: Chain<T, H, S>)
    ensures
        !chain.launched(),
        chain.inner().inner().signal() == signal,
        aggregator(chain).valid(),
        aggregator(chain).delays() == Map::<Seq<char>, nat>::empty(),
        aggregator(chain).expected() == 1,
        aggregator(chain).observed() == 0,
        aggregator(chain).token() is None,
{
    NoPrelaunchControl::new(LockControl::new(ControlToInterrupt::new(MetricsState::new(), signal)))
}

/// The signal that a chain sends for each token.
pub open spec fn signal_of<T, H, S>(chain: Chain<T, H, S>) -> S {
    chain.inner().inner().signal()
}

/// What a control token can do to a chain. The aggregator comes to hold
/// it only when a line had been seen, the lock was free and the chain's
/// signal was sent to the handle and delivered; the token then carries
/// its claim. A token that is dropped before the signal leaves the
/// process handle untouched, and a token that is dropped at any stage
/// leaves the aggregator as it was. The chain never fails: a signal that
/// could not be sent drops the token and is named in the result.
/// Whatever happens, the delays and the counts of the cycle stay.
pub proof fn lemma_token_is_held_only_when_signalled<T, H, S>(
    pre: Chain<T, H, S>,
    handle: H,
    token: T,
    post: Chain<T, H, S>,
    handle_post: H,
    result: Result<Delivery<H::Failure>, H::Failure>,
) where
    H: Interruptable<Signal = S>,
    S: Copy + KnownSignals,
    Interrupted<(T, Claim)>: crate::completion::OnSummaryComplete,

    requires
        <Chain<T, H, S> as EventHandler<String, String, H, T>>::control_step(
            pre,
            handle,
            token,
            post,
            handle_post,
            result,
        ),
    ensures
        result is Ok,
        match result {
            Ok(Delivery::Held) => {
                &&& pre.launched()
                &&& H::interrupt_step(handle, signal_of(pre), handle_post, Ok(true))
                &&& exists|claim: Claim| #[trigger]
                    aggregator(post).token() == Some(Interrupted((token, claim)))
            },
            Ok(Delivery::DroppedPrelaunch) => {
                &&& !pre.launched()
                &&& handle_post == handle
                &&& aggregator(post) == aggregator(pre)
            },
            Ok(Delivery::DroppedContended) => {
                &&& pre.launched()
                &&& handle_post == handle
                &&& aggregator(post) == aggregator(pre)
            },
            Ok(Delivery::DroppedUnsignalled) => {
                &&& pre.launched()
                &&& H::interrupt_step(handle, signal_of(pre), handle_post, Ok(false))
                &&& aggregator(post) == aggregator(pre)
            },
            Ok(Delivery::DroppedUndelivered(failure)) => {
                &&& pre.launched()
                &&& H::interrupt_step(handle, signal_of(pre), handle_post, Err(failure))
                &&& aggregator(post) == aggregator(pre)
            },
            Err(_) => true,
        },
        post.launched() == pre.launched(),
        signal_of(post) == signal_of(pre),
        aggregator(post).delays() == aggregator(pre).delays(),
        aggregator(post).expected() == aggregator(pre).expected(),
        aggregator(post).observed() == aggregator(pre).observed(),
{
    if pre.launched() {
        let lock_pre = pre.inner();
        let lock_post = post.inner();
        let claim = choose|claim: Option<Claim>| #[trigger]
            LockControl::<ControlToInterrupt<Aggregator<T, H>, S>>::resumed(
                lock_pre,
                handle,
                token,
                claim,
                lock_post,
                handle_post,
                result,
            );
        match claim {
            Some(claim) => {
                let (signalled, outcome) = choose|signalled: H, outcome: Result<bool, H::Failure>|
                    {
                        &&& H::interrupt_step(handle, lock_pre.inner().signal(), signalled, outcome)
                        &&& #[trigger] ControlToInterrupt::<Aggregator<T, H>, S>::resumed(
                            lock_pre.inner(),
                            signalled,
                            (token, claim),
                            outcome,
                            lock_post.inner(),
                            handle_post,
                            result,
                        )
                    };
            },
            None => {},
        }
    }
}

} // verus!
