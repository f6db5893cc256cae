//! Stages that wrap a handler and intercept its control tokens.

use crate::event_stream::{Delivery, EventHandler};
use vstd::prelude::*;

pub mod lock;
pub mod signal;

verus! {

/// Drops every control token that arrives before the probe has printed
/// its first line; from then on tokens pass through unchanged.
pub struct NoPrelaunchControl<F> {
    handler: F,
    initialized: bool,
}

impl<F> NoPrelaunchControl<F> {
    /// The wrapped handler.
    pub closed spec fn inner(self) -> F {
        self.handler
    }

    /// Whether a line has been seen.
    pub closed spec fn launched(self) -> bool {
        self.initialized
    }

    pub fn new(handler: F) -> (stage: Self)
        ensures
            stage.inner() == handler,
            !stage.launched(),
    {
        NoPrelaunchControl { handler, initialized: false }
    }

    pub fn is_launched(&self) -> (launched: bool)
        ensures
            launched == self.launched(),
    {
        self.initialized
    }
}

impl<F, Out, Diag, Handle, Token> EventHandler<Out, Diag, Handle, Token> for NoPrelaunchControl<
    F,
> where F: EventHandler<Out, Diag, Handle, Token> {
    type Report = F::Report;

    type Failure = F::Failure;

    open spec fn wf(&self) -> bool {
        self.inner().wf()
    }

    open spec fn output_step(pre: Self, event: Out, post: Self, report: Self::Report) -> bool {
        &&& post.launched()
        &&& F::output_step(pre.inner(), event, post.inner(), report)
    }

    open spec fn error_step(pre: Self, event: Diag, post: Self, report: Self::Report) -> bool {
        &&& post.launched()
        &&& F::error_step(pre.inner(), event, post.inner(), report)
    }

    open spec fn control_step(
        pre: Self,
        handle: Handle,
        token: Token,
        post: Self,
        handle_post: Handle,
        result: Result<Delivery<Self::Failure>, Self::Failure>,
    ) -> bool {
        if pre.launched() {
            &&& post.launched()
            &&& F::control_step(pre.inner(), handle, token, post.inner(), handle_post, result)
        } else {
            &&& post == pre
            &&& handle_post == handle
            &&& result == Ok::<Delivery<Self::Failure>, Self::Failure>(Delivery::DroppedPrelaunch)
        }
    }

    fn on_output(&mut self, event: Out) -> (report: Self::Report) {
        self.initialized = true;
        self.handler.on_output(event)
    }

    fn on_error(&mut self, event: Diag) -> (report: Self::Report) {
        self.initialized = true;
        self.handler.on_error(event)
    }

    fn on_control(&mut self, handle: &mut Handle, token: Token) -> (result: Result<Delivery<Self::Failure>, Self::Failure>) {
        if self.initialized {
            self.handler.on_control(handle, token)
        } else {
            Ok(Delivery::DroppedPrelaunch)
        }
    }
}

/// Until the probe has printed a line, every control token is dropped:
/// the wrapped handler and the process handle stay as they are. The first
/// line lets tokens through, and so does every line after it.
pub proof fn lemma_tokens_wait_for_the_first_line<F, Out, Diag, Handle, Token>(
    pre: NoPrelaunchControl<F>,
    handle: Handle,
    token: Token,
    post: NoPrelaunchControl<F>,
    handle_post: Handle,
    result: Result<Delivery<F::Failure>, F::Failure>,
) where F: EventHandler<Out, Diag, Handle, Token>
    requires
        <NoPrelaunchControl<F> as EventHandler<Out, Diag, Handle, Token>>::control_step(
            pre,
            handle,
            token,
            post,
            handle_post,
            result,
        ),
    ensures
        !pre.launched() ==> post.inner() == pre.inner() && handle_post == handle && result == Ok::<Delivery<F::Failure>, F::Failure>(Delivery::DroppedPrelaunch),
        post.launched() == pre.launched(),
        forall|line: Out, next: NoPrelaunchControl<F>, report: F::Report|
            <NoPrelaunchControl<F> as EventHandler<Out, Diag, Handle, Token>>::output_step(
                pre,
                line,
                next,
                report,
            ) ==> next.launched(),
        forall|line: Diag, next: NoPrelaunchControl<F>, report: F::Report|
            <NoPrelaunchControl<F> as EventHandler<Out, Diag, Handle, Token>>::error_step(
                pre,
                line,
                next,
                report,
            ) ==> next.launched(),
{
}

} // verus!
