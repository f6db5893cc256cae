//! Mutual exclusion between flush cycles.

use crate::event_stream::{Delivery, EventHandler};
use std::sync::Arc;
use vstd::prelude::*;

verus! {

/// `tokio::sync::Mutex`, carried as it is.
#[verifier::external_type_specification]
#[verifier::external_body]
#[verifier::reject_recursive_types(T)]
pub struct ExMutex<T: ?Sized>(tokio::sync::Mutex<T>);

/// `tokio::sync::OwnedMutexGuard`, carried as it is.
#[verifier::external_type_specification]
#[verifier::external_body]
#[verifier::reject_recursive_types(T)]
pub struct ExOwnedMutexGuard<T: ?Sized>(tokio::sync::OwnedMutexGuard<T>);

/// Exclusive permission to run a flush cycle. The lock is free again once
/// the claim is dropped.
#[derive(Debug)]
pub struct Claim {
    inner: tokio::sync::OwnedMutexGuard<()>,
}

/// `tokio::sync::Mutex::new`: a lock that nobody holds. The contract
/// claims nothing of it.
#[verifier::external_body]
fn new_lock() -> tokio::sync::Mutex<()> {
    tokio::sync::Mutex::new(())
}

/// `tokio::sync::Mutex::try_lock_owned` on a clone of the `Arc`: a claim
/// when the lock was free, `None` when it is held somewhere else. Which of
/// the two comes back depends on the other holders, so the contract claims
/// nothing of it.
#[verifier::external_body]
fn try_claim(lock: &Arc<tokio::sync::Mutex<()>>) -> Option<Claim> {
    match lock.clone().try_lock_owned() {
        Ok(inner) => Some(Claim { inner }),
        Err(_) => None,
    }
}

/// Passes a control token on only while it can take the lock; the claim
/// travels with the token.
#[derive(Debug)]
pub struct LockControl<F> {
    handler: F,
    lock: Arc<tokio::sync::Mutex<()>>,
}

impl<F> LockControl<F> {
    /// The wrapped handler.
    pub closed spec fn inner(self) -> F {
        self.handler
    }

    pub fn new(handler: F) -> (stage: Self)
        ensures
            stage.inner() == handler,
    {
        LockControl { handler, lock: Arc::new(new_lock()) }
    }

    /// What `resume` establishes, for each outcome of the attempt to take
    /// the lock.
    pub open spec fn resumed<Out, Diag, Handle, Token>(
        pre: Self,
        handle: Handle,
        token: Token,
        claim: Option<Claim>,
        post: Self,
        handle_post: Handle,
        result: Result<Delivery<F::Failure>, F::Failure>,
    ) -> bool where F: EventHandler<Out, Diag, Handle, (Token, Claim)> {
        match claim {
            Some(claim) => F::control_step(
                pre.inner(),
                handle,
                (token, claim),
                post.inner(),
                handle_post,
                result,
            ),
            None => {
                &&& post.inner() == pre.inner()
                &&& handle_post == handle
                &&& result == Ok::<Delivery<F::Failure>, F::Failure>(Delivery::DroppedContended)
            },
        }
    }

    /// Continues with a token once the attempt to take the lock has ended:
    /// with a claim the token is passed on together with it, without one
    /// the token is dropped and neither the wrapped handler nor the handle
    /// is touched.
    pub fn resume<Out, Diag, Handle, Token>(
        &mut self,
        handle: &mut Handle,
        token: Token,
        claim: Option<Claim>,
    ) -> (result: Result<Delivery<F::Failure>, F::Failure>) where
        F: EventHandler<Out, Diag, Handle, (Token, Claim)>,

        requires
            old(self).inner().wf(),
        ensures
            final(self).inner().wf(),
            Self::resumed(
                *old(self),
                *old(handle),
                token,
                claim,
                *final(self),
                *final(handle),
                result,
            ),
    {
        match claim {
            Some(claim) => self.handler.on_control(handle, (token, claim)),
            None => Ok(Delivery::DroppedContended),
        }
    }
}

impl<F, Out, Diag, Handle, Token> EventHandler<Out, Diag, Handle, Token> for LockControl<F> where
    F: EventHandler<Out, Diag, Handle, (Token, Claim)>,
 {
    type Report = F::Report;

    type Failure = F::Failure;

    open spec fn wf(&self) -> bool {
        self.inner().wf()
    }

    open spec fn output_step(pre: Self, event: Out, post: Self, report: Self::Report) -> bool {
        F::output_step(pre.inner(), event, post.inner(), report)
    }

    open spec fn error_step(pre: Self, event: Diag, post: Self, report: Self::Report) -> bool {
        F::error_step(pre.inner(), event, post.inner(), report)
    }

    /// Whether the lock could be taken is decided elsewhere; `resumed`
    /// says the rest.
    open spec fn control_step(
        pre: Self,
        handle: Handle,
        token: Token,
        post: Self,
        handle_post: Handle,
        result: Result<Delivery<Self::Failure>, Self::Failure>,
    ) -> bool {
        exists|claim: Option<Claim>| #[trigger]
            Self::resumed(pre, handle, token, claim, post, handle_post, result)
    }

    fn on_output(&mut self, event: Out) -> (report: Self::Report) {
        self.handler.on_output(event)
    }

    fn on_error(&mut self, event: Diag) -> (report: Self::Report) {
        self.handler.on_error(event)
    }

    fn on_control(&mut self, handle: &mut Handle, token: Token) -> (result: Result<Delivery<Self::Failure>, Self::Failure>) {
        let claim = try_claim(&self.lock);
        self.resume(handle, token, claim)
    }
}

/// A token that arrives while the lock is held is dropped, and nothing
/// beyond this stage learns of it: the wrapped handler and the process
/// handle stay as they are, so no signal is sent for it.
pub proof fn lemma_contended_token_goes_nowhere<F, Out, Diag, Handle, Token>(
    pre: LockControl<F>,
    handle: Handle,
    token: Token,
    post: LockControl<F>,
    handle_post: Handle,
    result: Result<Delivery<F::Failure>, F::Failure>,
) where F: EventHandler<Out, Diag, Handle, (Token, Claim)>
    requires
        LockControl::<F>::resumed(pre, handle, token, None, post, handle_post, result),
    ensures
        post.inner() == pre.inner(),
        handle_post == handle,
        result == Ok::<Delivery<F::Failure>, F::Failure>(Delivery::DroppedContended),
{
}

} // verus!
