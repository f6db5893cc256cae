//! The aggregator at the end of the chain: it turns lines into records for
//! the metrics collector and matches summary blocks to flush requests.

use crate::completion::OnSummaryComplete;
use crate::event_stream::{Delivery, EventHandler};
use crate::fping::protocol::{
    control_of, fping_error_groups, icmp_error_groups, ping_groups, ping_of_captures,
    status_groups, Control, Patterns, Ping, PingModel, FPING_ERROR_PATTERN,
    ICMP_ERROR_PATTERN, PING_PATTERN, STATUS_PATTERN,
};
use crate::text::regex_captures;
use crate::time::{nanos_of, nanos_of_option};
use crate::util::signal::Interruptable;
use core::marker::PhantomData;
use std::time::Duration;
use vstd::prelude::*;

pub mod cycle;
pub mod delay;

use cycle::{completes, expected_after_summary, observed_after_summary, MarkerOutcome, SummaryCycle};
use delay::{one_way_delay, variation_of, DelayTable};

verus! {

/// The kind of an error that the probe reports for a target.
#[derive(Clone, Copy, Debug, PartialEq, Eq, Structural)]
pub enum ErrorClass {
    /// The probe itself failed on the target.
    Fping,
    /// An ICMP error came back for the target.
    Icmp,
}

impl ErrorClass {
    /// The value of the `type` label.
    pub fn label(&self) -> (label: &'static str)
        ensures
            label@ == match *self {
                ErrorClass::Fping => "fping"@,
                ErrorClass::Icmp => "icmp"@,
            },
    {
        match self {
            ErrorClass::Fping => "fping",
            ErrorClass::Icmp => "icmp",
        }
    }
}

/// One update of the metrics collector.
#[derive(Debug, PartialEq)]
pub enum Record {
    /// A reply or a timeout, with the variation against the reply before.
    Ping {
        target: String,
        addr: String,
        seq: u64,
        round_trip: Option<Duration>,
        variation: Option<Duration>,
    },
    /// The counters of a target at the end of a summary block.
    Summary { target: String, addr: String, sent: u32, received: u32 },
    /// An error reported for a target.
    Error { target: String, class: ErrorClass },
}

/// What a `Record` holds: texts, and spans in nanoseconds.
pub enum RecordModel {
    Ping {
        target: Seq<char>,
        addr: Seq<char>,
        seq: nat,
        round_trip: Option<nat>,
        variation: Option<nat>,
    },
    Summary { target: Seq<char>, addr: Seq<char>, sent: u32, received: u32 },
    Error { target: Seq<char>, class: ErrorClass },
}

impl View for Record {
    type V = RecordModel;

    open spec fn view(&self) -> RecordModel {
        match *self {
            Record::Ping { target, addr, seq, round_trip, variation } => RecordModel::Ping {
                target: target@,
                addr: addr@,
                seq: seq as nat,
                round_trip: nanos_of_option(round_trip),
                variation: nanos_of_option(variation),
            },
            Record::Summary { target, addr, sent, received } => RecordModel::Summary {
                target: target@,
                addr: addr@,
                sent,
                received,
            },
            Record::Error { target, class } => RecordModel::Error { target: target@, class },
        }
    }
}

/// What an optional record holds.
pub open spec fn record_view(record: Option<Record>) -> Option<RecordModel> {
    match record {
        Some(record) => Some(record@),
        None => None,
    }
}

/// Something out of the ordinary that the aggregator came across.
#[derive(Clone, Copy, Debug, PartialEq, Eq, Structural)]
pub enum Notice {
    /// A line of standard output was no reply.
    UnhandledOutput,
    /// The held token was dropped because nobody waits on it any more.
    DeadTokenDropped,
    /// A summary block held more targets than expected.
    ExcessSummary,
    /// A cycle completed while no token was held.
    SummaryWithoutToken,
    /// A summary block began while no token was held.
    UnsolicitedSummary,
    /// A summary block began while a token was held and the block before
    /// was incomplete.
    AbandonedCycle,
    /// A line of standard error had no known form.
    UnexpectedLine,
}

/// What handling one line yields.
#[derive(Debug)]
pub struct Report<T> {
    /// The update that the collector is owed.
    pub record: Option<Record>,
    /// The token whose cycle has completed.
    pub released: Option<T>,
    /// What is worth a line in the log.
    pub notices: Vec<Notice>,
}

/// A list of notices with one more, if it applies.
pub open spec fn noting(notices: Seq<Notice>, applies: bool, notice: Notice) -> Seq<Notice> {
    if applies {
        notices.push(notice)
    } else {
        notices
    }
}

/// The record of a ping, given the delays known before it.
pub open spec fn ping_record(delays: Map<Seq<char>, nat>, ping: PingModel) -> RecordModel {
    RecordModel::Ping {
        target: ping.target,
        addr: ping.addr,
        seq: ping.seq,
        round_trip: ping.result,
        variation: match ping.result {
            Some(round_trip) => variation_of(delays, ping.target, round_trip),
            None => None,
        },
    }
}

/// The delays known after a line of standard output.
pub open spec fn delays_after(delays: Map<Seq<char>, nat>, ping: Option<PingModel>) -> Map<
    Seq<char>,
    nat,
> {
    match ping {
        Some(ping) => match ping.result {
            Some(round_trip) => delays.insert(ping.target, one_way_delay(round_trip)),
            None => delays,
        },
        None => delays,
    }
}

/// The record of a line of standard error.
pub open spec fn control_record(control: Control<Seq<char>>) -> Option<RecordModel> {
    match control {
        Control::TargetSummary(summary) => Some(
            RecordModel::Summary {
                target: summary.target,
                addr: summary.addr,
                sent: summary.sent,
                received: summary.received,
            },
        ),
        Control::IcmpError { target, addr, error } => Some(
            RecordModel::Error { target, class: ErrorClass::Icmp },
        ),
        Control::FpingError { target, message } => Some(
            RecordModel::Error { target, class: ErrorClass::Fping },
        ),
        _ => None,
    }
}

/// The state of the aggregator: the last delay of each target and the
/// summary cycle, beside the compiled patterns that it reads lines with.
/// `H` is the kind of process handle that its chain drives.
pub struct MetricsState<T, H> {
    patterns: Patterns,
    last_result: DelayTable,
    cycle: SummaryCycle<T>,
    _marker: PhantomData<H>,
}

impl<T, H> MetricsState<T, H> {
    /// The last one-way delay of each target, in nanoseconds.
    pub closed spec fn delays(self) -> Map<Seq<char>, nat> {
        self.last_result@
    }

    /// The number of summaries that a block is expected to hold.
    pub closed spec fn expected(self) -> u32 {
        self.cycle.expected()
    }

    /// The number of summaries seen in the current block.
    pub closed spec fn observed(self) -> u32 {
        self.cycle.observed()
    }

    /// The token that waits for the cycle to complete.
    pub closed spec fn token(self) -> Option<T> {
        self.cycle.token()
    }

    pub closed spec fn valid(self) -> bool {
        self.patterns.wf() && self.last_result.wf() && self.cycle.wf()
    }

    /// What is known of a valid state.
    pub proof fn lemma_valid(self)
        requires
            self.valid(),
        ensures
            1 <= self.expected(),
            self.observed() <= self.expected(),
    {
    }

    /// The summary cycle is where it was.
    pub open spec fn same_cycle(self, post: Self) -> bool {
        &&& post.expected() == self.expected()
        &&& post.observed() == self.observed()
        &&& post.token() == self.token()
    }

    /// What `apply_output` establishes: `ping` is the reading of the line,
    /// `alive` says whether anybody waits on the held token.
    pub open spec fn applied_output(
        self,
        ping: Option<PingModel>,
        alive: bool,
        post: Self,
        report: Report<T>,
    ) -> bool {
        let dropped = self.token() is Some && !alive;
        &&& post.delays() == delays_after(self.delays(), ping)
        &&& post.expected() == self.expected()
        &&& post.observed() == self.observed()
        &&& post.token() == if dropped {
            None
        } else {
            self.token()
        }
        &&& record_view(report.record) == match ping {
            Some(ping) => Some(ping_record(self.delays(), ping)),
            None => None,
        }
        &&& report.released is None
        &&& report.notices@ == noting(
            noting(Seq::empty(), ping is None, Notice::UnhandledOutput),
            dropped,
            Notice::DeadTokenDropped,
        )
    }

    /// What `apply_control` establishes.
    pub open spec fn applied_control(
        self,
        control: Control<Seq<char>>,
        post: Self,
        report: Report<T>,
    ) -> bool {
        &&& post.delays() == self.delays()
        &&& record_view(report.record) == control_record(control)
        &&& match control {
            Control::TargetSummary(summary) => {
                let completed = completes(self.expected(), self.observed());
                &&& post.observed() == observed_after_summary(self.observed())
                &&& post.expected() == expected_after_summary(self.expected(), self.observed())
                &&& post.token() == if completed {
                    None
                } else {
                    self.token()
                }
                &&& report.released == if completed {
                    self.token()
                } else {
                    None
                }
                &&& report.notices@ == noting(
                    noting(
                        Seq::empty(),
                        observed_after_summary(self.observed()) > self.expected(),
                        Notice::ExcessSummary,
                    ),
                    completed && self.token() is None,
                    Notice::SummaryWithoutToken,
                )
            },
            Control::SummaryLocalTime => {
                &&& post.observed() == 0
                &&& post.expected() == self.expected()
                &&& post.token() == self.token()
                &&& report.released is None
                &&& report.notices@ == noting(
                    noting(Seq::empty(), self.token() is None, Notice::UnsolicitedSummary),
                    self.token() is Some && 0 < self.observed() < self.expected(),
                    Notice::AbandonedCycle,
                )
            },
            Control::Unhandled(raw) => {
                &&& self.same_cycle(post)
                &&& report.released is None
                &&& report.notices@ == seq![Notice::UnexpectedLine]
            },
            _ => {
                &&& self.same_cycle(post)
                &&& report.released is None
                &&& report.notices@ == Seq::<Notice>::empty()
            },
        }
    }

    /// An aggregator that knows no target, expects one summary and holds
    /// no token.
    pub fn new() -> (state: Self)
        ensures
            state.valid(),
            state.delays() == Map::<Seq<char>, nat>::empty(),
            state.expected() == 1,
            state.observed() == 0,
            state.token() is None,
    {
        MetricsState {
            patterns: Patterns::new(),
            last_result: DelayTable::new(),
            cycle: SummaryCycle::new(),
            _marker: PhantomData,
        }
    }

    pub fn expected_targets(&self) -> (expected: u32)
        ensures
            expected == self.expected(),
    {
        self.cycle.expected_targets()
    }

    pub fn observed_targets(&self) -> (observed: u32)
        ensures
            observed == self.observed(),
    {
        self.cycle.observed_targets()
    }

    pub fn holds_token(&self) -> (held: bool)
        ensures
            held == self.token() is Some,
    {
        self.cycle.held_token().is_some()
    }

    /// The last one-way delay of a target, if it has replied.
    pub fn last_delay(&self, target: &str) -> (delay: Option<Duration>)
        requires
            self.valid(),
        ensures
            nanos_of_option(delay) == if self.delays().dom().contains(target@) {
                Some(self.delays()[target@])
            } else {
                None
            },
    {
        self.last_result.last_delay(target)
    }

    /// The packet delay variation of a reply; see `DelayTable::calc_ipdv`.
    pub fn calc_ipdv(&mut self, target: &str, rtt: Duration) -> (variation: Option<Duration>)
        requires
            old(self).valid(),
        ensures
            final(self).valid(),
            old(self).same_cycle(*final(self)),
            final(self).delays() == old(self).delays().insert(
                target@,
                one_way_delay(nanos_of(rtt)),
            ),
            nanos_of_option(variation) == variation_of(old(self).delays(), target@, nanos_of(rtt)),
    {
        self.last_result.calc_ipdv(target, rtt)
    }

    /// Takes the reading of a line of standard output: a ping becomes a
    /// record, with its variation; anything else is noted. A held token
    /// that nobody waits on any more is dropped.
    pub fn apply_output(&mut self, ping: Option<Ping<&str>>, alive: bool) -> (report: Report<T>)
        requires
            old(self).valid(),
        ensures
            final(self).valid(),
            old(self).applied_output(Ping::model_of(ping), alive, *final(self), report),
    {
        let mut notices = Vec::new();
        let record = match ping {
            Some(ping) => {
                let variation = match ping.result {
                    Some(rtt) => self.last_result.calc_ipdv(ping.target, rtt),
                    None => None,
                };
                Some(
                    Record::Ping {
                        target: ping.target.to_owned(),
                        addr: ping.addr.to_owned(),
                        seq: ping.seq,
                        round_trip: ping.result,
                        variation,
                    },
                )
            },
            None => {
                notices.push(Notice::UnhandledOutput);
                None
            },
        };
        if self.cycle.held_token().is_some() && !alive {
            let _ = self.cycle.take_token();
            notices.push(Notice::DeadTokenDropped);
        }
        Report { record, released: None, notices }
    }

    /// Takes the reading of a line of standard error: a summary is
    /// counted and may complete the cycle, a marker starts the next block,
    /// an error becomes a record, an unknown line is noted.
    pub fn apply_control(&mut self, control: Control<&str>) -> (report: Report<T>)
        requires
            old(self).valid(),
        ensures
            final(self).valid(),
            old(self).applied_control(control@, *final(self), report),
    {
        let mut notices = Vec::new();
        match control {
            Control::TargetSummary(summary) => {
                let unclaimed = self.cycle.held_token().is_none();
                let outcome = self.cycle.on_summary();
                if outcome.raised {
                    notices.push(Notice::ExcessSummary);
                }
                if outcome.completed && unclaimed {
                    notices.push(Notice::SummaryWithoutToken);
                }
                Report {
                    record: Some(
                        Record::Summary {
                            target: summary.target.to_owned(),
                            addr: summary.addr.to_owned(),
                            sent: summary.sent,
                            received: summary.received,
                        },
                    ),
                    released: outcome.released,
                    notices,
                }
            },
            Control::SummaryLocalTime => {
                match self.cycle.on_marker() {
                    MarkerOutcome::Awaited => {},
                    MarkerOutcome::Unsolicited => {
                        notices.push(Notice::UnsolicitedSummary);
                    },
                    MarkerOutcome::Abandoned => {
                        notices.push(Notice::AbandonedCycle);
                    },
                }
                Report { record: None, released: None, notices }
            },
            Control::Unhandled(_) => {
                notices.push(Notice::UnexpectedLine);
                Report { record: None, released: None, notices }
            },
            Control::IcmpError { target, addr: _, error: _ } => Report {
                record: Some(Record::Error { target: target.to_owned(), class: ErrorClass::Icmp }),
                released: None,
                notices,
            },
            Control::FpingError { target, message: _ } => Report {
                record: Some(Record::Error { target: target.to_owned(), class: ErrorClass::Fping }),
                released: None,
                notices,
            },
            Control::BlankLine => Report { record: None, released: None, notices },
        }
    }

    /// Stores the token of a flush request.
    pub fn on_flush_request(&mut self, token: T)
        requires
            old(self).valid(),
        ensures
            final(self).valid(),
            final(self).delays() == old(self).delays(),
            final(self).expected() == old(self).expected(),
            final(self).observed() == old(self).observed(),
            final(self).token() == Some(token),
    {
        self.cycle.hold(token);
    }
}

impl<T: OnSummaryComplete, H: Interruptable> EventHandler<String, String, H, T> for MetricsState<
    T,
    H,
> {
    type Report = Report<T>;

    type Failure = H::Failure;

    open spec fn wf(&self) -> bool {
        self.valid()
    }

    /// Whether anybody waits on the held token is what the token itself
    /// answers; `applied_output` says the rest.
    open spec fn output_step(pre: Self, event: String, post: Self, report: Self::Report) -> bool {
        exists|alive: bool|
            {
                &&& pre.token() matches Some(held) ==> held.answers(alive)
                &&& #[trigger] pre.applied_output(
                    ping_of_captures(regex_captures(PING_PATTERN@, ping_groups(), event@)),
                    alive,
                    post,
                    report,
                )
            }
    }

    open spec fn error_step(pre: Self, event: String, post: Self, report: Self::Report) -> bool {
        pre.applied_control(
            control_of(
                event@,
                regex_captures(ICMP_ERROR_PATTERN@, icmp_error_groups(), event@),
                regex_captures(STATUS_PATTERN@, status_groups(), event@),
                regex_captures(FPING_ERROR_PATTERN@, fping_error_groups(), event@),
            ),
            post,
            report,
        )
    }

    open spec fn control_step(
        pre: Self,
        handle: H,
        token: T,
        post: Self,
        handle_post: H,
        result: Result<Delivery<Self::Failure>, Self::Failure>,
    ) -> bool {
        &&& post.delays() == pre.delays()
        &&& post.expected() == pre.expected()
        &&& post.observed() == pre.observed()
        &&& post.token() == Some(token)
        &&& handle_post == handle
        &&& result == Ok::<Delivery<Self::Failure>, Self::Failure>(Delivery::Held)
    }

    fn on_output(&mut self, event: String) -> (report: Self::Report) {
        let alive = match self.cycle.held_token() {
            Some(token) => token.is_alive(),
            None => true,
        };
        let ping = Ping::parse_with(&self.patterns, event.as_str());
        let report = self.apply_output(ping, alive);
        assert(old(self).applied_output(
            ping_of_captures(regex_captures(PING_PATTERN@, ping_groups(), event@)),
            alive,
            *self,
            report,
        ));
        report
    }

    fn on_error(&mut self, event: String) -> (report: Self::Report) {
        let control = Control::parse_with(&self.patterns, event.as_str());
        self.apply_control(control)
    }

    fn on_control(&mut self, handle: &mut H, token: T) -> (result: Result<Delivery<Self::Failure>, Self::Failure>) {
        self.on_flush_request(token);
        Ok(Delivery::Held)
    }
}

/// Handling a line of standard error neither copies nor loses the token:
/// a token is released only by a summary that completes the cycle, it is
/// then the token that was held, and it is no longer held; in every other
/// case the state holds what it held before.
pub proof fn lemma_token_is_released_once<T, H>(
    pre: MetricsState<T, H>,
    control: Control<Seq<char>>,
    post: MetricsState<T, H>,
    report: Report<T>,
)
    requires
        pre.valid(),
        pre.applied_control(control, post, report),
    ensures
        report.released is Some ==> {
            &&& control is TargetSummary
            &&& report.released == pre.token()
            &&& post.token() is None
            &&& post.observed() == post.expected()
        },
        report.released is None ==> post.token() == pre.token() || (control is TargetSummary
            && pre.token() is None),
        post.observed() <= post.expected(),
        post.expected() >= pre.expected(),
{
    pre.lemma_valid();
}

/// Handling a line of standard output never releases a token and never
/// forgets a target: every target with a known delay keeps one.
pub proof fn lemma_delays_only_grow<T, H>(
    pre: MetricsState<T, H>,
    ping: Option<PingModel>,
    alive: bool,
    post: MetricsState<T, H>,
    report: Report<T>,
)
    requires
        pre.applied_output(ping, alive, post, report),
    ensures
        report.released is None,
        pre.delays().dom().subset_of(post.delays().dom()),
        alive ==> post.token() == pre.token(),
{
}

} // verus!
