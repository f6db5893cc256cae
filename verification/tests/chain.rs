use fping_exporter::chain::{assemble, Chain};
use fping_exporter::completion::{awaited, OnSummaryComplete};
use fping_exporter::event_stream::{
    ControlDisabled, Delivery, Dispatch, EventHandler, Interest, ListenError, Multiplexer, StreamEvent,
};
use fping_exporter::metrics::{MetricsState, Notice, Record, Report};
use fping_exporter::util::lock::{Claim, LockControl};
use fping_exporter::util::signal::{ControlToInterrupt, Interrupted, Interruptable, KnownSignals};
use fping_exporter::util::NoPrelaunchControl;
use nix::sys::signal::Signal;
use tokio::sync::oneshot;

#[derive(Clone, Copy, Debug, PartialEq)]
struct Sig(u8);

impl KnownSignals for Sig {
    fn sigquit() -> Self {
        Sig(3)
    }

    fn sigint() -> Self {
        Sig(2)
    }
}

/// A process handle that records the signals it is sent and answers as told.
struct Handle {
    sent: Vec<Sig>,
    answer: Result<bool, String>,
}

impl Handle {
    fn delivering() -> Self {
        Handle { sent: Vec::new(), answer: Ok(true) }
    }
}

impl Interruptable for Handle {
    type Signal = Sig;
    type Failure = String;

    fn interrupt(&mut self, signal: Sig) -> Result<bool, String> {
        self.sent.push(signal);
        self.answer.clone()
    }
}

type Token = Interrupted<(oneshot::Sender<Claim>, Claim)>;

fn chain() -> Chain<oneshot::Sender<Claim>, Handle, Sig> {
    assemble(Sig::sigquit())
}

#[test]
fn chain_is_the_stages_in_their_order() {
    let by_hand: NoPrelaunchControl<LockControl<ControlToInterrupt<MetricsState<Token, Handle>, Sig>>> =
        NoPrelaunchControl::new(LockControl::new(ControlToInterrupt::new(MetricsState::new(), Sig::sigquit())));
    let mut chains = [by_hand, chain()];
    for chain in chains.iter_mut() {
        let mut handle = Handle::delivering();
        assert!(!chain.is_launched());
        chain.on_error(String::new());
        let (tx, _rx) = oneshot::channel();
        assert_eq!(chain.on_control(&mut handle, tx), Ok(Delivery::Held));
        assert_eq!(handle.sent, vec![Sig(3)]);
    }
}

fn release(report: Report<Token>) -> bool {
    match report.released {
        Some(token) => {
            token.on_completed();
            true
        }
        None => false,
    }
}

const SUMMARY: &str = "localhost (127.0.0.1) : xmt/rcv/%loss = 104/104/0%, min/avg/max = 0.025/0.063/0.189";
const REPLY: &str = "[1611765997.71135] localhost (127.0.0.1) : [9], 64 bytes, 0.029 ms (0.040 avg, 0% loss)";

#[test]
fn tokens_are_dropped_before_the_first_line() {
    let mut chain = chain();
    let mut handle = Handle::delivering();
    assert!(!chain.is_launched());
    let (tx, mut rx) = oneshot::channel();
    assert_eq!(chain.on_control(&mut handle, tx), Ok(Delivery::DroppedPrelaunch));
    assert!(handle.sent.is_empty());
    assert!(rx.try_recv().is_err());
    // the lock was never taken: the first token after a line gets through
    chain.on_output(REPLY.to_string());
    assert!(chain.is_launched());
    let (tx, _rx) = oneshot::channel();
    assert_eq!(chain.on_control(&mut handle, tx), Ok(Delivery::Held));
    assert_eq!(handle.sent, vec![Sig(3)]);
}

#[test]
fn first_line_of_standard_error_lets_tokens_through() {
    let mut chain = chain();
    let mut handle = Handle::delivering();
    chain.on_error(String::new());
    let (tx, _rx) = oneshot::channel();
    assert_eq!(chain.on_control(&mut handle, tx), Ok(Delivery::Held));
}

#[test]
fn second_flush_request_sends_no_signal() {
    let mut chain = chain();
    let mut handle = Handle::delivering();
    chain.on_output(REPLY.to_string());
    let (first, mut first_rx) = oneshot::channel();
    let (second, mut second_rx) = oneshot::channel();
    assert_eq!(chain.on_control(&mut handle, first), Ok(Delivery::Held));
    assert_eq!(chain.on_control(&mut handle, second), Ok(Delivery::DroppedContended));
    assert_eq!(handle.sent, vec![Sig(3)]);
    // the dropped request is told so, the held one still waits
    assert!(matches!(second_rx.try_recv(), Err(oneshot::error::TryRecvError::Closed)));
    assert!(matches!(first_rx.try_recv(), Err(oneshot::error::TryRecvError::Empty)));

    // the cycle completes: the claim travels back, and with it the lock
    assert!(release(chain.on_error(SUMMARY.to_string())));
    let claim = first_rx.try_recv().unwrap();
    let (third, _third_rx) = oneshot::channel();
    assert_eq!(chain.on_control(&mut handle, third), Ok(Delivery::DroppedContended));
    drop(claim);
    let (fourth, _fourth_rx) = oneshot::channel();
    assert_eq!(chain.on_control(&mut handle, fourth), Ok(Delivery::Held));
    assert_eq!(handle.sent, vec![Sig(3), Sig(3)]);
}

#[test]
fn undelivered_signal_drops_the_token() {
    let mut chain = chain();
    let mut handle = Handle { sent: Vec::new(), answer: Ok(false) };
    chain.on_output(REPLY.to_string());
    let (tx, mut rx) = oneshot::channel();
    assert_eq!(chain.on_control(&mut handle, tx), Ok(Delivery::DroppedUnsignalled));
    assert!(matches!(rx.try_recv(), Err(oneshot::error::TryRecvError::Closed)));
    assert_eq!(handle.sent, vec![Sig(3)]);
    // nothing is held, so the summary finds no token
    let report = chain.on_error(SUMMARY.to_string());
    assert!(report.released.is_none());
    assert_eq!(report.notices, vec![Notice::SummaryWithoutToken]);
    // and the lock is free again
    handle.answer = Ok(true);
    let (tx, _rx) = oneshot::channel();
    assert_eq!(chain.on_control(&mut handle, tx), Ok(Delivery::Held));
}

#[test]
fn failed_signal_drops_the_token_and_is_handed_out() {
    let mut chain = chain();
    let mut handle = Handle { sent: Vec::new(), answer: Err("gone".to_string()) };
    chain.on_output(REPLY.to_string());
    let (tx, mut rx) = oneshot::channel();
    assert_eq!(chain.on_control(&mut handle, tx), Ok(Delivery::DroppedUndelivered("gone".to_string())));
    // the scrape learns that its request is gone
    assert!(matches!(rx.try_recv(), Err(oneshot::error::TryRecvError::Closed)));
    assert_eq!(handle.sent, vec![Sig(3)]);
    // nothing is held
    let report = chain.on_error(SUMMARY.to_string());
    assert!(report.released.is_none());
    assert_eq!(report.notices, vec![Notice::SummaryWithoutToken]);
    // and the next request is taken as any other: the lock is free again
    handle.answer = Ok(true);
    let (tx, _rx) = oneshot::channel();
    assert_eq!(chain.on_control(&mut handle, tx), Ok(Delivery::Held));
}

/// A handler at the end of a chain that keeps what it is given, until it
/// is full.
struct Sink<T> {
    lines: u32,
    tokens: Vec<T>,
}

impl<T> Sink<T> {
    const ROOM: usize = 2;
}

impl<T> EventHandler<String, String, Handle, T> for Sink<T> {
    type Report = u32;
    type Failure = String;

    fn on_output(&mut self, _event: String) -> u32 {
        self.lines += 1;
        self.lines
    }

    fn on_error(&mut self, _event: String) -> u32 {
        self.lines += 1;
        self.lines
    }

    fn on_control(&mut self, _handle: &mut Handle, token: T) -> Result<Delivery<String>, String> {
        if self.tokens.len() == Self::ROOM {
            return Err("full".to_string());
        }
        self.tokens.push(token);
        Ok(Delivery::Held)
    }
}

#[test]
fn stage_continues_with_the_outcome_it_is_given() {
    let mut handle = Handle::delivering();
    let mut stage = ControlToInterrupt::new(Sink { lines: 0, tokens: Vec::new() }, Sig::sigint());
    assert_eq!(stage.resume(&mut handle, 1u8, Ok(false)), Ok(Delivery::DroppedUnsignalled));
    assert_eq!(
        stage.resume(&mut handle, 2u8, Err("no".to_string())),
        Ok(Delivery::DroppedUndelivered("no".to_string()))
    );
    assert_eq!(stage.resume(&mut handle, 3u8, Ok(true)), Ok(Delivery::Held));
    assert!(handle.sent.is_empty());
    assert_eq!(stage.on_control(&mut handle, 4u8), Ok(Delivery::Held));
    assert_eq!(handle.sent, vec![Sig(2)]);
    assert_eq!(stage.on_output(String::new()), 1);
    assert_eq!(stage.on_error(String::new()), 2);

    let mut stage = LockControl::new(Sink::<(u8, Claim)> { lines: 0, tokens: Vec::new() });
    assert_eq!(stage.resume(&mut handle, 1u8, None), Ok(Delivery::DroppedContended));
    assert_eq!(stage.on_control(&mut handle, 2u8), Ok(Delivery::Held));
    assert_eq!(stage.on_control(&mut handle, 3u8), Ok(Delivery::DroppedContended));
    assert_eq!(stage.on_error(String::new()), 1);
}

#[test]
fn dead_token_is_dropped_on_the_next_reply() {
    let mut chain = chain();
    let mut handle = Handle::delivering();
    chain.on_output(REPLY.to_string());
    let (tx, rx) = oneshot::channel();
    assert_eq!(chain.on_control(&mut handle, tx), Ok(Delivery::Held));
    let report = chain.on_output(REPLY.to_string());
    assert!(report.notices.is_empty());
    drop(rx);
    let report = chain.on_output(REPLY.to_string());
    assert_eq!(report.notices, vec![Notice::DeadTokenDropped]);
    // the claim went with the token
    let (tx, _rx) = oneshot::channel();
    assert_eq!(chain.on_control(&mut handle, tx), Ok(Delivery::Held));
}

#[test]
fn token_is_alive_while_its_channel_is_open() {
    assert!(awaited(false));
    assert!(!awaited(true));
    let chain_token = |rx_kept: bool| {
        let mut chain = chain();
        let mut handle = Handle::delivering();
        chain.on_error(String::new());
        let (tx, rx) = oneshot::channel();
        assert_eq!(chain.on_control(&mut handle, tx), Ok(Delivery::Held));
        if rx_kept {
            (chain.on_output(REPLY.to_string()).notices, Some(rx))
        } else {
            drop(rx);
            (chain.on_output(REPLY.to_string()).notices, None)
        }
    };
    assert_eq!(chain_token(true).0, vec![]);
    assert_eq!(chain_token(false).0, vec![Notice::DeadTokenDropped]);
}

#[test]
fn nix_signals_are_known() {
    assert_eq!(<Signal as KnownSignals>::sigquit().as_str(), "SIGQUIT");
    assert_eq!(<Signal as KnownSignals>::sigint().as_str(), "SIGINT");
    assert_eq!(<Signal as KnownSignals>::sigquit(), Signal::SIGQUIT);
    assert_eq!(<Signal as KnownSignals>::sigint(), Signal::SIGINT);
}

fn no_token(never: ControlDisabled) -> bool {
    never.is_alive()
}

#[test]
fn disabled_control_has_no_token() {
    // the type has no value: a handler for it can be named, never called
    let handler: fn(ControlDisabled) -> bool = no_token;
    assert_eq!(std::mem::size_of_val(&handler), std::mem::size_of::<usize>());
}

type Event = StreamEvent<String, String, oneshot::Sender<Claim>, &'static str>;

#[test]
fn multiplexer_runs_until_both_streams_end() {
    let mut state = Multiplexer::new();
    let mut chain = chain();
    let mut handle = Handle::delivering();
    assert_eq!(state.interest(), Interest { stdout: true, stderr: true, control: true });

    let (tx, _rx) = oneshot::channel();
    let pushed = state.dispatch(&mut chain, &mut handle, Event::Control(tx));
    assert!(matches!(pushed, Ok(Dispatch::Pushed(Delivery::DroppedPrelaunch))));

    let reported = state.dispatch(&mut chain, &mut handle, Event::Output(REPLY.to_string()));
    match reported {
        Ok(Dispatch::Reported(report)) => assert!(matches!(report.record, Some(Record::Ping { seq: 9, .. }))),
        _ => panic!("a reply is reported"),
    }

    assert!(matches!(state.dispatch(&mut chain, &mut handle, Event::OutputEnd), Ok(Dispatch::Closed)));
    assert!(!state.is_terminated());
    assert_eq!(state.interest(), Interest { stdout: false, stderr: true, control: true });
    assert!(matches!(
        state.dispatch(&mut chain, &mut handle, Event::Output(REPLY.to_string())),
        Ok(Dispatch::Ignored)
    ));

    let (tx, _rx) = oneshot::channel();
    let pushed = state.dispatch(&mut chain, &mut handle, Event::Control(tx));
    assert!(matches!(pushed, Ok(Dispatch::Pushed(Delivery::Held))));

    let reported = state.dispatch(&mut chain, &mut handle, Event::Error(SUMMARY.to_string()));
    match reported {
        Ok(Dispatch::Reported(report)) => {
            assert!(matches!(report.record, Some(Record::Summary { sent: 104, received: 104, .. })));
            assert!(report.released.is_some());
        }
        _ => panic!("a summary is reported"),
    }

    assert!(matches!(state.dispatch(&mut chain, &mut handle, Event::ErrorEnd), Ok(Dispatch::Closed)));
    assert!(state.is_terminated());
    assert_eq!(state.interest(), Interest { stdout: false, stderr: false, control: false });
    let (tx, mut rx) = oneshot::channel();
    assert!(matches!(state.dispatch(&mut chain, &mut handle, Event::Control(tx)), Ok(Dispatch::Ignored)));
    assert!(matches!(rx.try_recv(), Err(oneshot::error::TryRecvError::Closed)));
    assert!(matches!(
        state.dispatch(&mut chain, &mut handle, Event::Error(SUMMARY.to_string())),
        Ok(Dispatch::Ignored)
    ));
    assert_eq!(handle.sent, vec![Sig(3)]);
}

#[test]
fn multiplexer_stops_on_failures() {
    let mut state = Multiplexer::new();
    let mut chain = chain();
    let mut handle = Handle::delivering();
    assert!(matches!(
        state.dispatch(&mut chain, &mut handle, Event::OutputFault("broken pipe")),
        Err(ListenError::Read("broken pipe"))
    ));
    assert!(matches!(
        state.dispatch(&mut chain, &mut handle, Event::ErrorFault("reset")),
        Err(ListenError::Read("reset"))
    ));
    assert_eq!(state, Multiplexer { stdout_open: true, stderr_open: true });

    // a handler of one's own may fail on a token
    let mut stage = ControlToInterrupt::new(Sink { lines: 0, tokens: Vec::new() }, Sig::sigquit());
    type Tokens = StreamEvent<String, String, u8, &'static str>;
    assert!(matches!(
        state.dispatch(&mut stage, &mut handle, Tokens::Control(1)),
        Ok(Dispatch::Pushed(Delivery::Held))
    ));
    assert!(matches!(
        state.dispatch(&mut stage, &mut handle, Tokens::Control(2)),
        Ok(Dispatch::Pushed(Delivery::Held))
    ));
    match state.dispatch(&mut stage, &mut handle, Tokens::Control(3)) {
        Err(ListenError::Control(failure)) => assert_eq!(failure, "full"),
        _ => panic!("the failure of the handler ends the listening"),
    }
}

#[test]
fn multiplexer_goes_on_after_a_failed_signal() {
    let mut state = Multiplexer::new();
    let mut chain = chain();
    let mut handle = Handle { sent: Vec::new(), answer: Err("gone".to_string()) };
    state.dispatch(&mut chain, &mut handle, Event::Error(String::new())).ok();
    let (tx, _rx) = oneshot::channel();
    match state.dispatch(&mut chain, &mut handle, Event::Control(tx)) {
        Ok(Dispatch::Pushed(Delivery::DroppedUndelivered(failure))) => assert_eq!(failure, "gone"),
        _ => panic!("a signal that cannot be sent drops the token and no more"),
    }
    assert!(!state.is_terminated());
    assert!(matches!(
        state.dispatch(&mut chain, &mut handle, Event::Output(REPLY.to_string())),
        Ok(Dispatch::Reported(_))
    ));
}

#[test]
fn control_channel_does_not_end_the_run() {
    let mut state = Multiplexer::new();
    let mut chain = chain();
    let mut handle = Handle::delivering();
    state.dispatch(&mut chain, &mut handle, Event::ErrorEnd).ok();
    assert!(!state.is_terminated());
    assert!(state.interest().control);
    state.dispatch(&mut chain, &mut handle, Event::ErrorEnd).ok();
    assert!(!state.is_terminated());
    state.dispatch(&mut chain, &mut handle, Event::OutputEnd).ok();
    assert!(state.is_terminated());
}
