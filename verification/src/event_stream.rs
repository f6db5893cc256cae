//! The handler interface shared by every stage of the chain, and the state
//! machine of the multiplexer that feeds it.

use vstd::prelude::*;

verus! {

/// What became of a control token that was pushed into a handler.
#[derive(Clone, Copy, Debug, PartialEq, Eq)]
pub enum Delivery<Failure> {
    /// The token reached the end of the chain and is held there.
    Held,
    /// Dropped: no line had been seen from the probe yet.
    DroppedPrelaunch,
    /// Dropped: another flush cycle still owns the lock.
    DroppedContended,
    /// Dropped: the probe reported that the signal was not delivered.
    DroppedUnsignalled,
    /// Dropped: the signal could not be sent; why is enclosed, for the
    /// log.
    DroppedUndelivered(Failure),
}

/// Token type of a stream that accepts no control tokens at all.
#[derive(Debug)]
pub struct ControlDisabled {
    never: core::convert::Infallible,
}

/// A consumer of the probe's two line streams and of control tokens.
///
/// Each operation is described by a relation between the handler before
/// the call, the arguments, the handler after the call and the result.
/// Stages that wrap another handler define their relation in terms of the
/// relation of the handler they wrap.
pub trait EventHandler<Out, Diag, Handle, Token>: Sized {
    /// What handling one line yields.
    type Report;

    /// Why pushing a control token can fail.
    type Failure;

    /// The handler's invariant. A handler that states none has none.
    open spec fn wf(&self) -> bool {
        true
    }

    /// How a line of standard output changes the handler. A handler that
    /// states nothing promises nothing.
    open spec fn output_step(pre: Self, event: Out, post: Self, report: Self::Report) -> bool {
        true
    }

    /// How a line of standard error changes the handler.
    open spec fn error_step(pre: Self, event: Diag, post: Self, report: Self::Report) -> bool {
        true
    }

    /// How a control token changes the handler and the process handle.
    open spec fn control_step(
        pre: Self,
        handle: Handle,
        token: Token,
        post: Self,
        handle_post: Handle,
        result: Result<Delivery<Self::Failure>, Self::Failure>,
    ) -> bool {
        true
    }

    fn on_output(&mut self, event: Out) -> (report: Self::Report)
        requires
            old(self).wf(),
        ensures
            final(self).wf(),
            Self::output_step(*old(self), event, *final(self), report),
    ;

    fn on_error(&mut self, event: Diag) -> (report: Self::Report)
        requires
            old(self).wf(),
        ensures
            final(self).wf(),
            Self::error_step(*old(self), event, *final(self), report),
    ;

    fn on_control(&mut self, handle: &mut Handle, token: Token) -> (result: Result<Delivery<Self::Failure>, Self::Failure>)
        requires
            old(self).wf(),
        ensures
            final(self).wf(),
            Self::control_step(
                *old(self),
                *old(handle),
                token,
                *final(self),
                *final(handle),
                result,
            ),
    ;
}

/// One thing that the multiplexer can observe while it waits.
pub enum StreamEvent<Out, Diag, Token, Fault> {
    /// A line arrived on standard output.
    Output(Out),
    /// Standard output reached its end.
    OutputEnd,
    /// Reading standard output failed.
    OutputFault(Fault),
    /// A line arrived on standard error.
    Error(Diag),
    /// Standard error reached its end.
    ErrorEnd,
    /// Reading standard error failed.
    ErrorFault(Fault),
    /// A control token arrived.
    Control(Token),
}

/// What the multiplexer did with one event.
pub enum Dispatch<Report, Failure> {
    /// A line was handled; the handler's report is enclosed.
    Reported(Report),
    /// A control token was pushed into the chain.
    Pushed(Delivery<Failure>),
    /// A stream was marked closed.
    Closed,
    /// The event came from a source that is no longer listened to.
    Ignored,
}

/// Why listening stops early.
pub enum ListenError<Fault, Failure> {
    /// A line stream could not be read.
    Read(Fault),
    /// The chain failed to process a control token.
    Control(Failure),
}

/// The sources that the multiplexer should wait on next.
#[derive(Clone, Copy, Debug, PartialEq, Eq, Structural)]
pub struct Interest {
    pub stdout: bool,
    pub stderr: bool,
    pub control: bool,
}

/// State of the multiplexer: which of the two line streams are still open.
/// It has terminated when both are closed.
#[derive(Clone, Copy, Debug, PartialEq, Eq, Structural)]
pub struct Multiplexer {
    pub stdout_open: bool,
    pub stderr_open: bool,
}

impl Multiplexer {
    /// Both line streams are closed.
    pub open spec fn terminated(self) -> bool {
        !self.stdout_open && !self.stderr_open
    }

    /// The state after `event`, whatever the handler does with it.
    pub open spec fn after<Out, Diag, Token, Fault>(
        self,
        event: StreamEvent<Out, Diag, Token, Fault>,
    ) -> Multiplexer {
        match event {
            StreamEvent::OutputEnd => Multiplexer { stdout_open: false, stderr_open: self.stderr_open },
            StreamEvent::ErrorEnd => Multiplexer { stdout_open: self.stdout_open, stderr_open: false },
            _ => self,
        }
    }

    /// The state after a run of events.
    pub open spec fn after_all<Out, Diag, Token, Fault>(
        self,
        events: Seq<StreamEvent<Out, Diag, Token, Fault>>,
    ) -> Multiplexer
        decreases events.len(),
    {
        if events.len() == 0 {
            self
        } else {
            self.after_all(events.drop_last()).after(events.last())
        }
    }

    /// A multiplexer that listens to both streams.
    pub fn new() -> (state: Self)
        ensures
            state.stdout_open,
            state.stderr_open,
    {
        Multiplexer { stdout_open: true, stderr_open: true }
    }

    pub fn is_terminated(&self) -> (done: bool)
        ensures
            done == self.terminated(),
    {
        !self.stdout_open && !self.stderr_open
    }

    /// The sources to wait on: each line stream while it is open, the
    /// control channel while at least one line stream is.
    pub fn interest(&self) -> (wanted: Interest)
        ensures
            wanted.stdout == self.stdout_open,
            wanted.stderr == self.stderr_open,
            wanted.control == !self.terminated(),
    {
        Interest {
            stdout: self.stdout_open,
            stderr: self.stderr_open,
            control: self.stdout_open || self.stderr_open,
        }
    }

    /// The relation that `dispatch` establishes.
    pub open spec fn dispatched<Out, Diag, Handle, Token, Fault, F: EventHandler<
        Out,
        Diag,
        Handle,
        Token,
    >>(
        self,
        handler: F,
        handle: Handle,
        event: StreamEvent<Out, Diag, Token, Fault>,
        handler_post: F,
        handle_post: Handle,
        result: Result<Dispatch<F::Report, F::Failure>, ListenError<Fault, F::Failure>>,
    ) -> bool {
        match event {
            StreamEvent::Output(line) => if self.stdout_open {
                &&& handle_post == handle
                &&& result matches Ok(Dispatch::Reported(report))
                &&& F::output_step(handler, line, handler_post, report)
            } else {
                handler_post == handler && handle_post == handle && result == Ok::<
                    Dispatch<F::Report, F::Failure>,
                    ListenError<Fault, F::Failure>,
                >(Dispatch::Ignored)
            },
            StreamEvent::Error(line) => if self.stderr_open {
                &&& handle_post == handle
                &&& result matches Ok(Dispatch::Reported(report))
                &&& F::error_step(handler, line, handler_post, report)
            } else {
                handler_post == handler && handle_post == handle && result == Ok::<
                    Dispatch<F::Report, F::Failure>,
                    ListenError<Fault, F::Failure>,
                >(Dispatch::Ignored)
            },
            StreamEvent::Control(token) => if !self.terminated() {
                exists|pushed: Result<Delivery<F::Failure>, F::Failure>|
                    {
                        &&& #[trigger] F::control_step(
                            handler,
                            handle,
                            token,
                            handler_post,
                            handle_post,
                            pushed,
                        )
                        &&& result == match pushed {
                            Ok(delivery) => Ok::<
                                Dispatch<F::Report, F::Failure>,
                                ListenError<Fault, F::Failure>,
                            >(Dispatch::Pushed(delivery)),
                            Err(failure) => Err(ListenError::Control(failure)),
                        }
                    }
            } else {
                handler_post == handler && handle_post == handle && result == Ok::<
                    Dispatch<F::Report, F::Failure>,
                    ListenError<Fault, F::Failure>,
                >(Dispatch::Ignored)
            },
            StreamEvent::OutputEnd | StreamEvent::ErrorEnd => {
                handler_post == handler && handle_post == handle && result == Ok::<
                    Dispatch<F::Report, F::Failure>,
                    ListenError<Fault, F::Failure>,
                >(Dispatch::Closed)
            },
            StreamEvent::OutputFault(fault) | StreamEvent::ErrorFault(fault) => {
                handler_post == handler && handle_post == handle && result == Err::<
                    Dispatch<F::Report, F::Failure>,
                    ListenError<Fault, F::Failure>,
                >(ListenError::Read(fault))
            },
        }
    }

    /// Processes one event: a line goes to the handler, a token is pushed
    /// into the chain, the end of a stream closes it. Events from a closed
    /// stream, and tokens after termination, are ignored. A failure leaves
    /// the state as it was.
    pub fn dispatch<Out, Diag, Handle, Token, Fault, F: EventHandler<Out, Diag, Handle, Token>>(
        &mut self,
        handler: &mut F,
        handle: &mut Handle,
        event: StreamEvent<Out, Diag, Token, Fault>,
    ) -> (result: Result<Dispatch<F::Report, F::Failure>, ListenError<Fault, F::Failure>>)
        requires
            old(handler).wf(),
        ensures
            final(handler).wf(),
            *final(self) == old(self).after(event),
            old(self).dispatched(
                *old(handler),
                *old(handle),
                event,
                *final(handler),
                *final(handle),
                result,
            ),
    {
        match event {
            StreamEvent::Output(line) => {
                if self.stdout_open {
                    Ok(Dispatch::Reported(handler.on_output(line)))
                } else {
                    Ok(Dispatch::Ignored)
                }
            },
            StreamEvent::OutputEnd => {
                self.stdout_open = false;
                Ok(Dispatch::Closed)
            },
            StreamEvent::OutputFault(fault) => Err(ListenError::Read(fault)),
            StreamEvent::Error(line) => {
                if self.stderr_open {
                    Ok(Dispatch::Reported(handler.on_error(line)))
                } else {
                    Ok(Dispatch::Ignored)
                }
            },
            StreamEvent::ErrorEnd => {
                self.stderr_open = false;
                Ok(Dispatch::Closed)
            },
            StreamEvent::ErrorFault(fault) => Err(ListenError::Read(fault)),
            StreamEvent::Control(token) => {
                if self.stdout_open || self.stderr_open {
                    let pushed = handler.on_control(handle, token);
                    match pushed {
                        Ok(delivery) => Ok(Dispatch::Pushed(delivery)),
                        Err(failure) => Err(ListenError::Control(failure)),
                    }
                } else {
                    Ok(Dispatch::Ignored)
                }
            },
        }
    }
}

/// A stream that is closed stays closed, only the end of a stream closes
/// it, and the multiplexer has terminated exactly when both streams are
/// closed: a control token, or the end of the control channel, never
/// terminates it.
pub proof fn lemma_streams_only_close<Out, Diag, Token, Fault>(
    state: Multiplexer,
    event: StreamEvent<Out, Diag, Token, Fault>,
)
    ensures
        !state.stdout_open ==> !state.after(event).stdout_open,
        !state.stderr_open ==> !state.after(event).stderr_open,
        state.after(event).stdout_open != state.stdout_open ==> event is OutputEnd,
        state.after(event).stderr_open != state.stderr_open ==> event is ErrorEnd,
        state.terminated() ==> state.after(event).terminated(),
        state.after(event).terminated() <==> (!state.stdout_open || event is OutputEnd) && (
        !state.stderr_open || event is ErrorEnd),
{
}

/// Once the multiplexer has terminated no event reaches the handler or
/// the process handle.
pub proof fn lemma_terminated_is_silent<Out, Diag, Handle, Token, Fault, F: EventHandler<
    Out,
    Diag,
    Handle,
    Token,
>>(
    state: Multiplexer,
    handler: F,
    handle: Handle,
    event: StreamEvent<Out, Diag, Token, Fault>,
    handler_post: F,
    handle_post: Handle,
    result: Result<Dispatch<F::Report, F::Failure>, ListenError<Fault, F::Failure>>,
)
    requires
        state.terminated(),
        state.dispatched(handler, handle, event, handler_post, handle_post, result),
    ensures
        handler_post == handler,
        handle_post == handle,
{
}

/// After any run of events a stream is open exactly when it was open
/// before and the run does not hold its end. So a multiplexer that starts
/// with both streams open has terminated exactly when the run holds the
/// end of standard output and the end of standard error, whatever else
/// it holds.
pub proof fn lemma_run_ends_with_both_streams<Out, Diag, Token, Fault>(
    state: Multiplexer,
    events: Seq<StreamEvent<Out, Diag, Token, Fault>>,
)
    ensures
        state.after_all(events).stdout_open <==> state.stdout_open && forall|i: int|
            0 <= i < events.len() ==> !(#[trigger] events[i] is OutputEnd),
        state.after_all(events).stderr_open <==> state.stderr_open && forall|i: int|
            0 <= i < events.len() ==> !(#[trigger] events[i] is ErrorEnd),
        state.stdout_open && state.stderr_open ==> (state.after_all(events).terminated() <==> (
        exists|i: int| 0 <= i < events.len() && #[trigger] events[i] is OutputEnd) && (exists|j: int|
            0 <= j < events.len() && #[trigger] events[j] is ErrorEnd)),
    decreases events.len(),
{
    if events.len() > 0 {
        let before = events.drop_last();
        lemma_run_ends_with_both_streams(state, before);
        assert(forall|i: int| 0 <= i < before.len() ==> before[i] == events[i]);
    }
}

} // verus!
