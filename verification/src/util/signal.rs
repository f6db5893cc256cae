//! Turning control tokens into a signal that is sent to the probe.

use crate::event_stream::{Delivery, EventHandler};
use vstd::prelude::*;

verus! {

/// The signals that the chain needs to name.
pub trait KnownSignals: Sized {
    /// The signal that asks the probe for a summary.
    fn sigquit() -> Self;

    /// The signal that asks the probe to stop.
    fn sigint() -> Self;
}

/// A process handle that can be sent a signal. `Ok(true)` means that the
/// signal was delivered, `Ok(false)` that it was not.
pub trait Interruptable: Sized {
    type Signal: KnownSignals;

    type Failure;

    /// How sending `signal` changes the handle, and how it can end. A
    /// handle that states nothing promises nothing.
    open spec fn interrupt_step(
        pre: Self,
        signal: Self::Signal,
        post: Self,
        outcome: Result<bool, Self::Failure>,
    ) -> bool {
        true
    }

    fn interrupt(&mut self, signal: Self::Signal) -> (outcome: Result<bool, Self::Failure>)
        ensures
            Self::interrupt_step(*old(self), signal, *final(self), outcome),
    ;
}

/// `nix::sys::signal::Signal`, carried as it is.
#[verifier::external_type_specification]
#[verifier::external_body]
pub struct ExSignal(nix::sys::signal::Signal);

/// What `nix::sys::signal::Signal::as_str` calls a signal.
pub uninterp spec fn signal_name(signal: nix::sys::signal::Signal) -> Seq<char>;

/// `nix::sys::signal::Signal::SIGQUIT`: the signal that nix calls
/// `SIGQUIT`.
#[verifier::external_body]
fn nix_sigquit() -> (signal: nix::sys::signal::Signal)
    ensures
        signal_name(signal) == "SIGQUIT"@,
{
    nix::sys::signal::Signal::SIGQUIT
}

/// `nix::sys::signal::Signal::SIGINT`: the signal that nix calls `SIGINT`.
#[verifier::external_body]
fn nix_sigint() -> (signal: nix::sys::signal::Signal)
    ensures
        signal_name(signal) == "SIGINT"@,
{
    nix::sys::signal::Signal::SIGINT
}

impl KnownSignals for nix::sys::signal::Signal {
    /// The probe prints a summary when it is sent `SIGQUIT`.
    fn sigquit() -> (signal: Self)
        ensures
            signal_name(signal) == "SIGQUIT"@,
    {
        nix_sigquit()
    }

    /// The probe stops when it is sent `SIGINT`.
    fn sigint() -> (signal: Self)
        ensures
            signal_name(signal) == "SIGINT"@,
    {
        nix_sigint()
    }
}

/// A token whose signal has been delivered to the probe.
#[derive(Debug)]
pub struct Interrupted<T>(pub T);

/// Sends a fixed signal to the probe for every control token, and passes
/// the token on only when the signal was delivered.
pub struct ControlToInterrupt<F, S> {
    handler: F,
    signal: S,
}

impl<F, S> ControlToInterrupt<F, S> {
    /// The wrapped handler.
    pub closed spec fn inner(self) -> F {
        self.handler
    }

    /// The signal that is sent for each token.
    pub closed spec fn signal(self) -> S {
        self.signal
    }

    pub fn new(handler: F, signal: S) -> (stage: Self)
        ensures
            stage.inner() == handler,
            stage.signal() == signal,
    {
        Self { handler, signal }
    }
}

impl<F, S: Copy> ControlToInterrupt<F, S> {
    /// What `resume` establishes, for each outcome of the attempt to
    /// signal the probe.
    pub open spec fn resumed<Out, Diag, Handle, Token>(
        pre: Self,
        handle: Handle,
        token: Token,
        outcome: Result<bool, F::Failure>,
        post: Self,
        handle_post: Handle,
        result: Result<Delivery<F::Failure>, F::Failure>,
    ) -> bool where F: EventHandler<Out, Diag, Handle, Interrupted<Token>> {
        &&& post.signal() == pre.signal()
        &&& match outcome {
            Ok(true) => F::control_step(
                pre.inner(),
                handle,
                Interrupted(token),
                post.inner(),
                handle_post,
                result,
            ),
            Ok(false) => {
                &&& post.inner() == pre.inner()
                &&& handle_post == handle
                &&& result == Ok::<Delivery<F::Failure>, F::Failure>(Delivery::DroppedUnsignalled)
            },
            Err(failure) => {
                &&& post.inner() == pre.inner()
                &&& handle_post == handle
                &&& result == Ok::<Delivery<F::Failure>, F::Failure>(
                    Delivery::DroppedUndelivered(failure),
                )
            },
        }
    }

    /// Continues with a token once the attempt to signal the probe has
    /// ended with `outcome`: a delivered signal passes the token on,
    /// marked as interrupted; an undelivered one drops it; a failure
    /// drops it too, and is handed out with the result for the log. The
    /// stage itself never fails.
    pub fn resume<Out, Diag, Handle, Token>(
        &mut self,
        handle: &mut Handle,
        token: Token,
        outcome: Result<bool, F::Failure>,
    ) -> (result: Result<Delivery<F::Failure>, F::Failure>) where
        F: EventHandler<Out, Diag, Handle, Interrupted<Token>>,

        requires
            old(self).inner().wf(),
        ensures
            final(self).inner().wf(),
            Self::resumed(
                *old(self),
                *old(handle),
                token,
                outcome,
                *final(self),
                *final(handle),
                result,
            ),
    {
        match outcome {
            Err(failure) => Ok(Delivery::DroppedUndelivered(failure)),
            Ok(false) => Ok(Delivery::DroppedUnsignalled),
            Ok(true) => self.handler.on_control(handle, Interrupted(token)),
        }
    }
}

impl<F, S, Out, Diag, Handle, Token> EventHandler<Out, Diag, Handle, Token> for ControlToInterrupt<
    F,
    S,
> where
    F: EventHandler<Out, Diag, Handle, Interrupted<Token>>,
    S: Copy + KnownSignals,
    Handle: Interruptable<Signal = S, Failure = F::Failure>,
 {
    type Report = F::Report;

    type Failure = F::Failure;

    open spec fn wf(&self) -> bool {
        self.inner().wf()
    }

    open spec fn output_step(pre: Self, event: Out, post: Self, report: Self::Report) -> bool {
        &&& post.signal() == pre.signal()
        &&& F::output_step(pre.inner(), event, post.inner(), report)
    }

    open spec fn error_step(pre: Self, event: Diag, post: Self, report: Self::Report) -> bool {
        &&& post.signal() == pre.signal()
        &&& F::error_step(pre.inner(), event, post.inner(), report)
    }

    /// The handle is first sent the stage's signal, as `interrupt_step`
    /// says; `resumed` says the rest.
    open spec fn control_step(
        pre: Self,
        handle: Handle,
        token: Token,
        post: Self,
        handle_post: Handle,
        result: Result<Delivery<Self::Failure>, Self::Failure>,
    ) -> bool {
        exists|signalled: Handle, outcome: Result<bool, F::Failure>|
            {
                &&& Handle::interrupt_step(handle, pre.signal(), signalled, outcome)
                &&& #[trigger] Self::resumed(
                    pre,
                    signalled,
                    token,
                    outcome,
                    post,
                    handle_post,
                    result,
                )
            }
    }

    fn on_output(&mut self, event: Out) -> (report: Self::Report) {
        self.handler.on_output(event)
    }

    fn on_error(&mut self, event: Diag) -> (report: Self::Report) {
        self.handler.on_error(event)
    }

    fn on_control(&mut self, handle: &mut Handle, token: Token) -> (result: Result<
        Delivery<Self::Failure>,
        Self::Failure,
    >) {
        let outcome = handle.interrupt(self.signal);
        self.resume(handle, token, outcome)
    }
}

/// A token goes beyond this stage only when the signal was delivered.
/// After an undelivered signal, or a failure to send it, the token is
/// dropped, the wrapped handler and the handle are as they were, and the
/// result is a success that names the drop: a failure to signal the probe
/// never ends the listening.
pub proof fn lemma_unsignalled_token_goes_nowhere<F, S: Copy, Out, Diag, Handle, Token>(
    pre: ControlToInterrupt<F, S>,
    handle: Handle,
    token: Token,
    outcome: Result<bool, F::Failure>,
    post: ControlToInterrupt<F, S>,
    handle_post: Handle,
    result: Result<Delivery<F::Failure>, F::Failure>,
) where F: EventHandler<Out, Diag, Handle, Interrupted<Token>>
    requires
        ControlToInterrupt::<F, S>::resumed(pre, handle, token, outcome, post, handle_post, result),
        outcome != Ok::<bool, F::Failure>(true),
    ensures
        post.inner() == pre.inner(),
        handle_post == handle,
        outcome is Ok ==> result == Ok::<Delivery<F::Failure>, F::Failure>(
            Delivery::DroppedUnsignalled,
        ),
        outcome matches Err(failure) ==> result == Ok::<Delivery<F::Failure>, F::Failure>(
            Delivery::DroppedUndelivered(failure),
        ),
{
}

} // verus!
