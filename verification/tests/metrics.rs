use fping_exporter::completion::OnSummaryComplete;
use fping_exporter::event_stream::{Delivery, EventHandler};
use fping_exporter::fping::protocol::{Control, Ping, SentReceivedSummary};
use fping_exporter::metrics::cycle::{MarkerOutcome, SummaryCycle};
use fping_exporter::metrics::delay::DelayTable;
use fping_exporter::metrics::{ErrorClass, MetricsState, Notice, Record};
use fping_exporter::util::signal::{Interruptable, KnownSignals};
use std::cell::Cell;
use std::rc::Rc;
use std::time::Duration;

struct NoSignal;

impl KnownSignals for NoSignal {
    fn sigquit() -> Self {
        NoSignal
    }

    fn sigint() -> Self {
        NoSignal
    }
}

struct NoProcess;

impl Interruptable for NoProcess {
    type Signal = NoSignal;
    type Failure = ();

    fn interrupt(&mut self, _signal: NoSignal) -> Result<bool, ()> {
        Ok(false)
    }
}

/// A token that counts how often it is completed.
#[derive(Debug)]
struct Counted {
    id: u32,
    completed: Rc<Cell<u32>>,
    alive: Rc<Cell<bool>>,
}

impl OnSummaryComplete for Counted {
    fn on_completed(self) {
        self.completed.set(self.completed.get() + 1);
    }

    fn is_alive(&self) -> bool {
        self.alive.get()
    }
}

struct Watch {
    completed: Rc<Cell<u32>>,
    alive: Rc<Cell<bool>>,
}

impl Watch {
    fn new() -> Self {
        Watch { completed: Rc::new(Cell::new(0)), alive: Rc::new(Cell::new(true)) }
    }

    fn token(&self, id: u32) -> Counted {
        Counted { id, completed: self.completed.clone(), alive: self.alive.clone() }
    }
}

type State = MetricsState<Counted, NoProcess>;

fn summary(target: &str) -> String {
    format!("{} (10.0.0.1) : xmt/rcv/%loss = 3/2/33%", target)
}

fn reply(target: &str, seq: u64, rtt: &str) -> String {
    format!("[1611765997.5] {} (10.0.0.1) : [{}], 64 bytes, {} ms (1 avg, 0% loss)", target, seq, rtt)
}

/// Feeds a line of standard error and completes the token that it releases.
fn feed(state: &mut State, line: String) -> (bool, Vec<Notice>) {
    let report = state.on_error(line);
    let released = report.released.is_some();
    if let Some(token) = report.released {
        token.on_completed();
    }
    (released, report.notices)
}

#[test]
fn variation_is_the_distance_between_one_way_delays() {
    let mut state = State::new();
    let ms = Duration::from_millis;
    assert_eq!(state.calc_ipdv("dns.google", ms(20)), None);
    assert_eq!(state.last_delay("dns.google"), Some(ms(10)));
    assert_eq!(state.calc_ipdv("dns.google", ms(30)), Some(ms(5)));
    assert_eq!(state.last_delay("dns.google"), Some(ms(15)));
    assert_eq!(state.calc_ipdv("dns.google", ms(10)), Some(ms(10)));
    assert_eq!(state.last_delay("dns.google"), Some(ms(5)));
}

#[test]
fn variation_is_kept_for_each_target() {
    let mut table = DelayTable::new();
    let us = Duration::from_micros;
    assert_eq!(table.last_delay("a"), None);
    assert_eq!(table.calc_ipdv("a", us(100)), None);
    assert_eq!(table.calc_ipdv("b", us(300)), None);
    assert_eq!(table.calc_ipdv("", us(7)), None);
    assert_eq!(table.calc_ipdv("a", us(500)), Some(us(200)));
    assert_eq!(table.calc_ipdv("b", us(300)), Some(us(0)));
    assert_eq!(table.calc_ipdv("a", us(100)), Some(us(200)));
    assert_eq!(table.last_delay("a"), Some(us(50)));
    assert_eq!(table.last_delay("b"), Some(us(150)));
    assert_eq!(table.last_delay(""), Some(Duration::from_nanos(3500)));
    assert_eq!(table.last_delay("c"), None);
    // half a nanosecond is cut off
    assert_eq!(table.calc_ipdv("c", Duration::from_nanos(3)), None);
    assert_eq!(table.last_delay("c"), Some(Duration::from_nanos(1)));
}

#[test]
fn replies_become_records() {
    let mut state = State::new();
    let ms = Duration::from_millis;
    let variations: Vec<Option<Duration>> = ["20", "30", "10"]
        .iter()
        .map(|rtt| match state.on_output(reply("dns.google", 4, rtt)).record {
            Some(Record::Ping { variation, .. }) => variation,
            other => panic!("no ping: {:?}", other),
        })
        .collect();
    assert_eq!(variations, vec![None, Some(ms(5)), Some(ms(10))]);

    let report = state.on_output(reply("localhost", 17, "0.5"));
    assert_eq!(
        report.record,
        Some(Record::Ping {
            target: "localhost".to_string(),
            addr: "10.0.0.1".to_string(),
            seq: 17,
            round_trip: Some(Duration::from_micros(500)),
            variation: None,
        })
    );
    assert!(report.released.is_none());
    assert!(report.notices.is_empty());
}

#[test]
fn timeout_keeps_the_last_delay() {
    let mut state = State::new();
    state.on_output(reply("t", 0, "20"));
    let report = state.on_output("[1611765998.5] t (10.0.0.1) : [1], timed out (20 avg, 50% loss)".to_string());
    assert_eq!(
        report.record,
        Some(Record::Ping {
            target: "t".to_string(),
            addr: "10.0.0.1".to_string(),
            seq: 1,
            round_trip: None,
            variation: None,
        })
    );
    assert_eq!(state.last_delay("t"), Some(Duration::from_millis(10)));
    match state.on_output(reply("t", 2, "24")).record {
        Some(Record::Ping { variation, .. }) => assert_eq!(variation, Some(Duration::from_millis(2))),
        other => panic!("no ping: {:?}", other),
    }
}

#[test]
fn unread_output_is_noted() {
    let mut state = State::new();
    let report = state.on_output("garbage".to_string());
    assert_eq!(report.record, None);
    assert_eq!(report.notices, vec![Notice::UnhandledOutput]);
    let report = state.apply_output(None, true);
    assert_eq!(report.notices, vec![Notice::UnhandledOutput]);
}

#[test]
fn cycle_completes_after_the_third_summary() {
    let watch = Watch::new();
    let mut state = State::new();
    let mut handle = NoProcess;
    assert_eq!(state.expected_targets(), 1);
    assert_eq!(state.on_control(&mut handle, watch.token(1)), Ok(Delivery::Held));

    // the first block holds one summary, as expected at the start
    assert_eq!(feed(&mut state, summary("a")), (true, vec![]));
    assert_eq!(watch.completed.get(), 1);
    assert!(!state.holds_token());

    assert_eq!(feed(&mut state, "[16:55:13]".to_string()), (false, vec![Notice::UnsolicitedSummary]));
    assert_eq!((state.expected_targets(), state.observed_targets()), (1, 0));

    // the next block holds three
    assert_eq!(feed(&mut state, summary("a")), (false, vec![Notice::SummaryWithoutToken]));
    assert_eq!(feed(&mut state, summary("b")), (false, vec![Notice::ExcessSummary, Notice::SummaryWithoutToken]));
    assert_eq!(feed(&mut state, summary("c")), (false, vec![Notice::ExcessSummary, Notice::SummaryWithoutToken]));
    assert_eq!((state.expected_targets(), state.observed_targets()), (3, 3));
    assert_eq!(watch.completed.get(), 1);
}

#[test]
fn token_is_released_once_in_a_calibrated_cycle() {
    let watch = Watch::new();
    let mut state = State::new();
    let mut handle = NoProcess;
    for line in [summary("a"), "[16:55:13]".to_string(), summary("a"), summary("b"), summary("c")] {
        feed(&mut state, line);
    }
    assert_eq!(state.expected_targets(), 3);

    state.on_control(&mut handle, watch.token(2)).unwrap();
    assert_eq!(feed(&mut state, "[16:55:14]".to_string()), (false, vec![]));
    assert_eq!(feed(&mut state, summary("a")), (false, vec![]));
    assert_eq!(feed(&mut state, summary("b")), (false, vec![]));
    assert_eq!(watch.completed.get(), 0);
    assert!(state.holds_token());
    assert_eq!(feed(&mut state, summary("c")), (true, vec![]));
    assert_eq!(watch.completed.get(), 1);
    assert!(!state.holds_token());

    // a block that nobody asked for
    assert_eq!(feed(&mut state, "[16:55:15]".to_string()), (false, vec![Notice::UnsolicitedSummary]));
    assert_eq!(feed(&mut state, summary("a")), (false, vec![]));
    assert_eq!(feed(&mut state, summary("b")), (false, vec![]));
    assert_eq!(feed(&mut state, summary("c")), (false, vec![Notice::SummaryWithoutToken]));
    assert_eq!(watch.completed.get(), 1);
}

#[test]
fn marker_during_a_cycle_is_noted() {
    let watch = Watch::new();
    let mut state = State::new();
    let mut handle = NoProcess;
    for line in [summary("a"), "[1]".to_string(), summary("a"), summary("b"), "[2]".to_string(), summary("a")] {
        feed(&mut state, line);
    }
    state.on_control(&mut handle, watch.token(3)).unwrap();
    assert_eq!(feed(&mut state, "[3]".to_string()), (false, vec![Notice::AbandonedCycle]));
    assert_eq!((state.expected_targets(), state.observed_targets()), (2, 0));
    assert_eq!(feed(&mut state, summary("a")), (false, vec![]));
    assert_eq!(feed(&mut state, summary("b")), (true, vec![]));
    assert_eq!(watch.completed.get(), 1);
}

#[test]
fn errors_become_records() {
    let mut state = State::new();
    let report = state.on_error("ICMP Host Unreachable from 10.0.0.1 for ICMP Echo sent to dns.google (8.8.8.8)".to_string());
    assert_eq!(
        report.record,
        Some(Record::Error { target: "dns.google (8.8.8.8)".to_string(), class: ErrorClass::Icmp })
    );
    assert!(report.notices.is_empty());
    let report = state.on_error("nowhere.invalid: Name or service not known".to_string());
    assert_eq!(
        report.record,
        Some(Record::Error { target: "nowhere.invalid".to_string(), class: ErrorClass::Fping })
    );
    let report = state.on_error("what is this".to_string());
    assert_eq!(report.record, None);
    assert_eq!(report.notices, vec![Notice::UnexpectedLine]);
    let report = state.on_error(String::new());
    assert_eq!(report.record, None);
    assert!(report.notices.is_empty());
    assert_eq!((state.expected_targets(), state.observed_targets()), (1, 0));
    assert_eq!(ErrorClass::Fping.label(), "fping");
    assert_eq!(ErrorClass::Icmp.label(), "icmp");
}

#[test]
fn readings_are_applied_as_given() {
    let mut state = State::new();
    let report = state.apply_control(Control::TargetSummary(SentReceivedSummary {
        target: "t",
        addr: "a",
        sent: 9,
        received: 8,
    }));
    assert_eq!(
        report.record,
        Some(Record::Summary { target: "t".to_string(), addr: "a".to_string(), sent: 9, received: 8 })
    );
    assert_eq!(report.notices, vec![Notice::SummaryWithoutToken]);
    let ping = Ping { timestamp: Duration::from_secs(1), target: "t", addr: "a", seq: 1, result: Some(Duration::from_millis(8)) };
    let report = state.apply_output(Some(ping), true);
    assert!(matches!(report.record, Some(Record::Ping { seq: 1, variation: None, .. })));
    assert_eq!(state.last_delay("t"), Some(Duration::from_millis(4)));
}

#[test]
fn later_token_replaces_the_held_one() {
    let watch = Watch::new();
    let mut state = State::new();
    state.on_flush_request(watch.token(1));
    state.on_flush_request(watch.token(2));
    let report = state.on_error(summary("a"));
    assert_eq!(report.released.map(|token| token.id), Some(2));
    assert!(!state.holds_token());
}

#[test]
fn dead_token_is_dropped() {
    let watch = Watch::new();
    let mut state = State::new();
    state.on_flush_request(watch.token(1));
    assert!(state.on_output(reply("t", 0, "1")).notices.is_empty());
    assert!(state.holds_token());
    watch.alive.set(false);
    assert_eq!(state.on_output(reply("t", 1, "1")).notices, vec![Notice::DeadTokenDropped]);
    assert!(!state.holds_token());
    assert_eq!(state.on_output("x".to_string()).notices, vec![Notice::UnhandledOutput]);
    state.on_flush_request(watch.token(2));
    assert_eq!(
        state.apply_output(None, false).notices,
        vec![Notice::UnhandledOutput, Notice::DeadTokenDropped]
    );
    assert_eq!(watch.completed.get(), 0);
}

#[test]
fn summary_cycle_counts() {
    let mut cycle: SummaryCycle<u8> = SummaryCycle::new();
    assert_eq!((cycle.expected_targets(), cycle.observed_targets(), cycle.is_complete()), (1, 0, false));
    assert_eq!(cycle.on_marker(), MarkerOutcome::Unsolicited);
    cycle.hold(7);
    assert_eq!(cycle.held_token(), &Some(7));
    assert_eq!(cycle.on_marker(), MarkerOutcome::Awaited);
    let outcome = cycle.on_summary();
    assert_eq!((outcome.completed, outcome.raised, outcome.released), (true, false, Some(7)));
    assert!(cycle.is_complete());
    let outcome = cycle.on_summary();
    assert_eq!((outcome.completed, outcome.raised, outcome.released), (true, true, None));
    assert_eq!((cycle.expected_targets(), cycle.observed_targets()), (2, 2));
    cycle.hold(8);
    assert_eq!(cycle.on_marker(), MarkerOutcome::Awaited);
    let outcome = cycle.on_summary();
    assert_eq!((outcome.completed, outcome.raised, outcome.released), (false, false, None));
    assert_eq!(cycle.on_marker(), MarkerOutcome::Abandoned);
    assert_eq!(cycle.take_token(), Some(8));
    assert_eq!(cycle.take_token(), None);
    assert_eq!((cycle.expected_targets(), cycle.observed_targets()), (2, 0));
}
