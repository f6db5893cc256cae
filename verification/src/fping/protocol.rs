//! The lines that the probe prints: replies on standard output, everything
//! else on standard error.

use crate::text::{
    decimal_up_to, groups_view, is_part, names_view, parse_u32, parse_u64, regex_captures,
    text_of, Groups, Matcher,
};
use crate::time::{millis_of, nanos_of, nanos_of_option, parse_millis, parse_seconds, seconds_of};
use std::time::Duration;
use vstd::prelude::*;
use vstd::string::*;

verus! {

/// The labels that every per-target metric carries.
pub const LABEL_NAMES: [&'static str; 2] = ["target", "addr"];

/// `[<seconds>] <target> (<address>) : [<sequence>], ` and then either
/// `timed out ...` or `<size> bytes, <round trip> ms ...`.
pub const PING_PATTERN: &'static str =
    r"^\[(?P<ts>[^\]]+)\]\s(?P<id>.+?)\s\((?P<addr>[^\)]+)\)\s+:\s\[(?P<seq>\d+)\],\s(?:timed|\d+\sbytes,\s(?P<rtt>[^\s]+)\sms).*$";

/// `<message> from <address> for ICMP Echo sent to <target>`.
pub const ICMP_ERROR_PATTERN: &'static str =
    r"^(?P<error>.+) from (?P<addr>[^\s]+) for ICMP Echo sent to (?P<target>.+)$";

/// `<target> (<address>) : xmt/rcv/%loss = <sent>/<received>...`.
pub const STATUS_PATTERN: &'static str =
    r"^(?P<target>.+?) \((?P<addr>[^\)]+)\)\s+: [^\s]+ = (?P<xmt>\d+)/(?P<rcv>\d+).*$";

/// `<target>: <message>`.
pub const FPING_ERROR_PATTERN: &'static str = r"^(?P<target>[^:]+): (?P<msg>.*)$";

/// The groups of `PING_PATTERN`, in the order in which they are read.
pub open spec fn ping_groups() -> Seq<Seq<char>> {
    seq!["ts"@, "id"@, "addr"@, "seq"@, "rtt"@]
}

/// The groups of `ICMP_ERROR_PATTERN`.
pub open spec fn icmp_error_groups() -> Seq<Seq<char>> {
    seq!["error"@, "addr"@, "target"@]
}

/// The groups of `STATUS_PATTERN`.
pub open spec fn status_groups() -> Seq<Seq<char>> {
    seq!["target"@, "addr"@, "xmt"@, "rcv"@]
}

/// The groups of `FPING_ERROR_PATTERN`.
pub open spec fn fping_error_groups() -> Seq<Seq<char>> {
    seq!["target"@, "msg"@]
}

/// The four patterns of the probe's lines, compiled once.
pub struct Patterns {
    ping: Matcher<'static>,
    icmp_error: Matcher<'static>,
    status: Matcher<'static>,
    fping_error: Matcher<'static>,
}

impl Patterns {
    /// Each matcher is of its pattern.
    pub closed spec fn wf(self) -> bool {
        &&& self.ping.pattern() == PING_PATTERN@
        &&& self.icmp_error.pattern() == ICMP_ERROR_PATTERN@
        &&& self.status.pattern() == STATUS_PATTERN@
        &&& self.fping_error.pattern() == FPING_ERROR_PATTERN@
    }

    /// Compiles the four patterns.
    pub fn new() -> (patterns: Self)
        ensures
            patterns.wf(),
    {
        Patterns {
            ping: Matcher::new(PING_PATTERN),
            icmp_error: Matcher::new(ICMP_ERROR_PATTERN),
            status: Matcher::new(STATUS_PATTERN),
            fping_error: Matcher::new(FPING_ERROR_PATTERN),
        }
    }
}

/// One reply, or one missing reply, of a target.
#[derive(Debug, PartialEq)]
pub struct Ping<S> {
    pub timestamp: Duration,
    pub target: S,
    pub addr: S,
    pub seq: u64,
    /// The round-trip time; `None` when the probe timed out.
    pub result: Option<Duration>,
}

/// What a `Ping` holds: texts, and spans in nanoseconds.
pub struct PingModel {
    pub timestamp: nat,
    pub target: Seq<char>,
    pub addr: Seq<char>,
    pub seq: nat,
    pub result: Option<nat>,
}

/// The ping that the fields of a line make, once the two spans have been
/// read: every field must be there, the sequence number must be a decimal
/// number of 64 bits, and `result` is `None` where the round-trip time
/// could not be read, `Some(None)` for a timeout.
pub open spec fn ping_of(
    timestamp: Option<nat>,
    target: Option<Seq<char>>,
    addr: Option<Seq<char>>,
    seq: Option<Seq<char>>,
    result: Option<Option<nat>>,
) -> Option<PingModel> {
    if timestamp is Some && target is Some && addr is Some && seq is Some && decimal_up_to(
        seq->0,
        u64::MAX as nat,
    ) is Some && result is Some {
        Some(
            PingModel {
                timestamp: timestamp->0,
                target: target->0,
                addr: addr->0,
                seq: decimal_up_to(seq->0, u64::MAX as nat)->0,
                result: result->0,
            },
        )
    } else {
        None
    }
}

/// The timestamp that a captured text denotes, in seconds.
pub open spec fn timestamp_of(text: Option<Seq<char>>) -> Option<nat> {
    match text {
        Some(text) => seconds_of(text),
        None => None,
    }
}

/// The round-trip time that a captured text denotes, in milliseconds; a
/// line without one reports a timeout.
pub open spec fn round_trip_of(text: Option<Seq<char>>) -> Option<Option<nat>> {
    match text {
        Some(text) => match millis_of(text) {
            Some(span) => Some(Some(span)),
            None => None,
        },
        None => Some(None),
    }
}

/// The ping that the captured groups of a line make.
pub open spec fn ping_of_captures(groups: Option<Groups>) -> Option<PingModel> {
    match groups {
        Some(found) => if found.len() == 5 {
            ping_of(timestamp_of(found[0]), found[1], found[2], found[3], round_trip_of(found[4]))
        } else {
            None
        },
        None => None,
    }
}

/// The spans of an optional optional span.
pub open spec fn nanos_of_result(result: Option<Option<Duration>>) -> Option<Option<nat>> {
    match result {
        Some(span) => Some(nanos_of_option(span)),
        None => None,
    }
}

impl<'y> Ping<&'y str> {
    pub open spec fn model(self) -> PingModel {
        PingModel {
            timestamp: nanos_of(self.timestamp),
            target: self.target@,
            addr: self.addr@,
            seq: self.seq as nat,
            result: nanos_of_option(self.result),
        }
    }

    /// What an optional ping holds.
    pub open spec fn model_of(ping: Option<Self>) -> Option<PingModel> {
        match ping {
            Some(ping) => Some(ping.model()),
            None => None,
        }
    }

    /// Makes a ping of the fields of a line, the timestamp and the
    /// round-trip time already read.
    pub fn assemble(
        timestamp: Option<Duration>,
        target: Option<&'y str>,
        addr: Option<&'y str>,
        seq: Option<&str>,
        result: Option<Option<Duration>>,
    ) -> (ping: Option<Self>)
        ensures
            Self::model_of(ping) == ping_of(
                nanos_of_option(timestamp),
                text_of(target),
                text_of(addr),
                text_of(seq),
                nanos_of_result(result),
            ),
    {
        let timestamp = match timestamp {
            Some(timestamp) => timestamp,
            None => { return None; },
        };
        let target = match target {
            Some(target) => target,
            None => { return None; },
        };
        let addr = match addr {
            Some(addr) => addr,
            None => { return None; },
        };
        let seq = match seq {
            Some(text) => match parse_u64(text) {
                Some(seq) => seq,
                None => { return None; },
            },
            None => { return None; },
        };
        let result = match result {
            Some(result) => result,
            None => { return None; },
        };
        Some(Ping { timestamp, target, addr, seq, result })
    }

    fn read(matcher: &Matcher, raw: &'y str) -> (ping: Option<Self>)
        requires
            matcher.pattern() == PING_PATTERN@,
        ensures
            Self::model_of(ping) == ping_of_captures(
                regex_captures(PING_PATTERN@, ping_groups(), raw@),
            ),
            ping matches Some(ping) ==> is_part(ping.target@, raw@) && is_part(ping.addr@, raw@),
    {
        let names = ["ts", "id", "addr", "seq", "rtt"];
        assert(names_view(names@) =~= ping_groups());
        let found = match matcher.captures(&names, raw) {
            Some(found) => found,
            None => { return None; },
        };
        let timestamp = match found[0] {
            Some(text) => parse_seconds(text),
            None => None,
        };
        let result = match found[4] {
            Some(text) => match parse_millis(text) {
                Some(span) => Some(Some(span)),
                None => None,
            },
            None => Some(None),
        };
        Self::assemble(timestamp, found[1], found[2], found[3], result)
    }

    /// Reads one line of the probe's standard output. A line that does not
    /// have the form of a reply, or whose numbers cannot be read, gives
    /// `None`. The pattern is compiled for this one line.
    pub fn parse(raw: &'y str) -> (ping: Option<Self>)
        ensures
            Self::model_of(ping) == ping_of_captures(
                regex_captures(PING_PATTERN@, ping_groups(), raw@),
            ),
            ping matches Some(ping) ==> is_part(ping.target@, raw@) && is_part(ping.addr@, raw@),
    {
        Self::read(&Matcher::new(PING_PATTERN), raw)
    }

    /// Reads one line of the probe's standard output, as `parse` does,
    /// with patterns that are compiled already.
    pub fn parse_with(patterns: &Patterns, raw: &'y str) -> (ping: Option<Self>)
        requires
            patterns.wf(),
        ensures
            Self::model_of(ping) == ping_of_captures(
                regex_captures(PING_PATTERN@, ping_groups(), raw@),
            ),
            ping matches Some(ping) ==> is_part(ping.target@, raw@) && is_part(ping.addr@, raw@),
    {
        Self::read(&patterns.ping, raw)
    }
}

impl<S: Copy> Ping<S> {
    /// The values of `LABEL_NAMES` for this ping.
    pub fn labels(&self) -> (labels: [S; 2])
        ensures
            labels@ == seq![self.target, self.addr],
    {
        let labels = [self.target, self.addr];
        labels
    }
}

/// The counters of one target at the end of a summary block.
#[derive(Debug, PartialEq)]
pub struct SentReceivedSummary<S> {
    pub target: S,
    pub addr: S,
    pub sent: u32,
    pub received: u32,
}

impl<S: Copy> SentReceivedSummary<S> {
    /// The values of `LABEL_NAMES` for this summary.
    pub fn labels(&self) -> (labels: [S; 2])
        ensures
            labels@ == seq![self.target, self.addr],
    {
        let labels = [self.target, self.addr];
        labels
    }
}

impl<'t> View for SentReceivedSummary<&'t str> {
    type V = SentReceivedSummary<Seq<char>>;

    open spec fn view(&self) -> SentReceivedSummary<Seq<char>> {
        SentReceivedSummary {
            target: self.target@,
            addr: self.addr@,
            sent: self.sent,
            received: self.received,
        }
    }
}

/// One line of the probe's standard error.
#[derive(Debug, PartialEq)]
pub enum Control<S> {
    IcmpError { target: S, addr: S, error: S },
    FpingError { target: S, message: S },
    BlankLine,
    SummaryLocalTime,
    TargetSummary(SentReceivedSummary<S>),
    Unhandled(S),
}

impl<'t> View for Control<&'t str> {
    type V = Control<Seq<char>>;

    open spec fn view(&self) -> Control<Seq<char>> {
        match *self {
            Control::IcmpError { target, addr, error } => Control::IcmpError {
                target: target@,
                addr: addr@,
                error: error@,
            },
            Control::FpingError { target, message } => Control::FpingError {
                target: target@,
                message: message@,
            },
            Control::BlankLine => Control::BlankLine,
            Control::SummaryLocalTime => Control::SummaryLocalTime,
            Control::TargetSummary(summary) => Control::TargetSummary(summary@),
            Control::Unhandled(raw) => Control::Unhandled(raw@),
        }
    }
}

/// What an optional line holds.
pub open spec fn control_view(control: Option<Control<&str>>) -> Option<Control<Seq<char>>> {
    match control {
        Some(control) => Some(control@),
        None => None,
    }
}

/// The ICMP error that the captured groups of a line make.
pub open spec fn icmp_error_of(groups: Option<Groups>) -> Option<Control<Seq<char>>> {
    match groups {
        Some(found) => if found.len() == 3 && found[0] is Some && found[1] is Some
            && found[2] is Some {
            Some(Control::IcmpError { error: found[0]->0, addr: found[1]->0, target: found[2]->0 })
        } else {
            None
        },
        None => None,
    }
}

/// The summary that the captured groups of a line make: both counters
/// must be decimal numbers of 32 bits.
pub open spec fn status_of(groups: Option<Groups>) -> Option<Control<Seq<char>>> {
    match groups {
        Some(found) => if found.len() == 4 && found[0] is Some && found[1] is Some
            && found[2] is Some && found[3] is Some && decimal_up_to(
            found[2]->0,
            u32::MAX as nat,
        ) is Some && decimal_up_to(found[3]->0, u32::MAX as nat) is Some {
            Some(
                Control::TargetSummary(
                    SentReceivedSummary {
                        target: found[0]->0,
                        addr: found[1]->0,
                        sent: decimal_up_to(found[2]->0, u32::MAX as nat)->0 as u32,
                        received: decimal_up_to(found[3]->0, u32::MAX as nat)->0 as u32,
                    },
                ),
            )
        } else {
            None
        },
        None => None,
    }
}

/// The probe error that the captured groups of a line make.
pub open spec fn fping_error_of(groups: Option<Groups>) -> Option<Control<Seq<char>>> {
    match groups {
        Some(found) => if found.len() == 2 && found[0] is Some && found[1] is Some {
            Some(Control::FpingError { target: found[0]->0, message: found[1]->0 })
        } else {
            None
        },
        None => None,
    }
}

/// A line that starts with `[` and ends with `]`.
pub open spec fn is_bracketed(raw: Seq<char>) -> bool {
    raw.len() > 0 && raw.first() == '[' && raw.last() == ']'
}

/// The reading of a line of standard error, given what each of the three
/// patterns captures in it. The forms are tried in a fixed order: the
/// empty line, the bracketed line, the ICMP error, the summary, the probe
/// error. A line of no form is kept as it is.
pub open spec fn control_of(
    raw: Seq<char>,
    icmp_error: Option<Groups>,
    status: Option<Groups>,
    fping_error: Option<Groups>,
) -> Control<Seq<char>> {
    if raw.len() == 0 {
        Control::BlankLine
    } else if is_bracketed(raw) {
        Control::SummaryLocalTime
    } else if icmp_error_of(icmp_error) is Some {
        icmp_error_of(icmp_error)->0
    } else if status_of(status) is Some {
        status_of(status)->0
    } else if fping_error_of(fping_error) is Some {
        fping_error_of(fping_error)->0
    } else {
        Control::Unhandled(raw)
    }
}

/// Every text that a reading holds stands somewhere in the line that
/// was read; a line that was left unread is held whole.
pub open spec fn fields_within(control: Control<Seq<char>>, raw: Seq<char>) -> bool {
    match control {
        Control::IcmpError { target, addr, error } => is_part(target, raw) && is_part(addr, raw)
            && is_part(error, raw),
        Control::FpingError { target, message } => is_part(target, raw) && is_part(message, raw),
        Control::TargetSummary(summary) => is_part(summary.target, raw) && is_part(
            summary.addr,
            raw,
        ),
        Control::Unhandled(kept) => kept == raw,
        Control::BlankLine | Control::SummaryLocalTime => true,
    }
}

/// What an optional reading holds stands somewhere in the line.
pub open spec fn reading_within(control: Option<Control<&str>>, raw: Seq<char>) -> bool {
    control matches Some(control) ==> fields_within(control@, raw)
}

impl<'t> Control<&'t str> {
    /// Makes an ICMP error of what `ICMP_ERROR_PATTERN` captured.
    pub fn icmp_error_from(groups: Option<Vec<Option<&'t str>>>) -> (control: Option<Self>)
        ensures
            control_view(control) == icmp_error_of(groups_view(groups)),
    {
        let found = match groups {
            Some(found) => found,
            None => { return None; },
        };
        if found.len() != 3 {
            return None;
        }
        match (found[0], found[1], found[2]) {
            (Some(error), Some(addr), Some(target)) => Some(
                Control::IcmpError { target, addr, error },
            ),
            _ => None,
        }
    }

    /// Makes a summary of what `STATUS_PATTERN` captured.
    pub fn status_from(groups: Option<Vec<Option<&'t str>>>) -> (control: Option<Self>)
        ensures
            control_view(control) == status_of(groups_view(groups)),
    {
        let found = match groups {
            Some(found) => found,
            None => { return None; },
        };
        if found.len() != 4 {
            return None;
        }
        match (found[0], found[1], found[2], found[3]) {
            (Some(target), Some(addr), Some(xmt), Some(rcv)) => {
                let received = match parse_u32(rcv) {
                    Some(received) => received,
                    None => { return None; },
                };
                let sent = match parse_u32(xmt) {
                    Some(sent) => sent,
                    None => { return None; },
                };
                Some(Control::TargetSummary(SentReceivedSummary { target, addr, sent, received }))
            },
            _ => None,
        }
    }

    /// Makes a probe error of what `FPING_ERROR_PATTERN` captured.
    pub fn fping_error_from(groups: Option<Vec<Option<&'t str>>>) -> (control: Option<Self>)
        ensures
            control_view(control) == fping_error_of(groups_view(groups)),
    {
        let found = match groups {
            Some(found) => found,
            None => { return None; },
        };
        if found.len() != 2 {
            return None;
        }
        match (found[0], found[1]) {
            (Some(target), Some(message)) => Some(Control::FpingError { target, message }),
            _ => None,
        }
    }

    fn icmp_error_in(matcher: &Matcher, raw: &'t str) -> (control: Option<Self>)
        requires
            matcher.pattern() == ICMP_ERROR_PATTERN@,
        ensures
            control_view(control) == icmp_error_of(
                regex_captures(ICMP_ERROR_PATTERN@, icmp_error_groups(), raw@),
            ),
            reading_within(control, raw@),
    {
        let names = ["error", "addr", "target"];
        assert(names_view(names@) =~= icmp_error_groups());
        Self::icmp_error_from(matcher.captures(&names, raw))
    }

    fn status_in(matcher: &Matcher, raw: &'t str) -> (control: Option<Self>)
        requires
            matcher.pattern() == STATUS_PATTERN@,
        ensures
            control_view(control) == status_of(
                regex_captures(STATUS_PATTERN@, status_groups(), raw@),
            ),
            reading_within(control, raw@),
    {
        let names = ["target", "addr", "xmt", "rcv"];
        assert(names_view(names@) =~= status_groups());
        Self::status_from(matcher.captures(&names, raw))
    }

    fn fping_error_in(matcher: &Matcher, raw: &'t str) -> (control: Option<Self>)
        requires
            matcher.pattern() == FPING_ERROR_PATTERN@,
        ensures
            control_view(control) == fping_error_of(
                regex_captures(FPING_ERROR_PATTERN@, fping_error_groups(), raw@),
            ),
            reading_within(control, raw@),
    {
        let names = ["target", "msg"];
        assert(names_view(names@) =~= fping_error_groups());
        Self::fping_error_from(matcher.captures(&names, raw))
    }

    /// Reads a line as an ICMP error.
    pub fn parse_icmp_error(raw: &'t str) -> (control: Option<Self>)
        ensures
            control_view(control) == icmp_error_of(
                regex_captures(ICMP_ERROR_PATTERN@, icmp_error_groups(), raw@),
            ),
            reading_within(control, raw@),
    {
        Self::icmp_error_in(&Matcher::new(ICMP_ERROR_PATTERN), raw)
    }

    /// Reads a line as the summary of one target.
    pub fn parse_status_line(raw: &'t str) -> (control: Option<Self>)
        ensures
            control_view(control) == status_of(
                regex_captures(STATUS_PATTERN@, status_groups(), raw@),
            ),
            reading_within(control, raw@),
    {
        Self::status_in(&Matcher::new(STATUS_PATTERN), raw)
    }

    /// Reads a line as an error of the probe itself.
    pub fn parse_fping_error(raw: &'t str) -> (control: Option<Self>)
        ensures
            control_view(control) == fping_error_of(
                regex_captures(FPING_ERROR_PATTERN@, fping_error_groups(), raw@),
            ),
            reading_within(control, raw@),
    {
        Self::fping_error_in(&Matcher::new(FPING_ERROR_PATTERN), raw)
    }

    /// Whether a line is empty, bracketed, or neither.
    fn plain_form(raw: &'t str) -> (control: Option<Self>)
        ensures
            control_view(control) == if raw@.len() == 0 {
                Some(Control::<Seq<char>>::BlankLine)
            } else if is_bracketed(raw@) {
                Some(Control::<Seq<char>>::SummaryLocalTime)
            } else {
                None
            },
    {
        let len = raw.unicode_len();
        if len == 0 {
            Some(Control::BlankLine)
        } else if raw.get_char(0) == '[' && raw.get_char(len - 1) == ']' {
            Some(Control::SummaryLocalTime)
        } else {
            None
        }
    }

    /// Reads one line of the probe's standard error. Each pattern that
    /// the line is held against is compiled for this one line.
    pub fn parse(raw: &'t str) -> (control: Self)
        ensures
            control@ == control_of(
                raw@,
                regex_captures(ICMP_ERROR_PATTERN@, icmp_error_groups(), raw@),
                regex_captures(STATUS_PATTERN@, status_groups(), raw@),
                regex_captures(FPING_ERROR_PATTERN@, fping_error_groups(), raw@),
            ),
            fields_within(control@, raw@),
    {
        if let Some(control) = Self::plain_form(raw) {
            return control;
        }
        if let Some(control) = Self::parse_icmp_error(raw) {
            return control;
        }
        if let Some(control) = Self::parse_status_line(raw) {
            return control;
        }
        if let Some(control) = Self::parse_fping_error(raw) {
            return control;
        }
        Control::Unhandled(raw)
    }

    /// Reads one line of the probe's standard error, as `parse` does,
    /// with patterns that are compiled already.
    pub fn parse_with(patterns: &Patterns, raw: &'t str) -> (control: Self)
        requires
            patterns.wf(),
        ensures
            control@ == control_of(
                raw@,
                regex_captures(ICMP_ERROR_PATTERN@, icmp_error_groups(), raw@),
                regex_captures(STATUS_PATTERN@, status_groups(), raw@),
                regex_captures(FPING_ERROR_PATTERN@, fping_error_groups(), raw@),
            ),
            fields_within(control@, raw@),
    {
        if let Some(control) = Self::plain_form(raw) {
            return control;
        }
        if let Some(control) = Self::icmp_error_in(&patterns.icmp_error, raw) {
            return control;
        }
        if let Some(control) = Self::status_in(&patterns.status, raw) {
            return control;
        }
        if let Some(control) = Self::fping_error_in(&patterns.fping_error, raw) {
            return control;
        }
        Control::Unhandled(raw)
    }
}

/// A line whose fields are all there and whose numbers can be read gives
/// a ping that holds the target and the address as they were captured,
/// the sequence number that its digits denote, and the round-trip time
/// that its text denotes, or none for a timeout.
pub proof fn lemma_ping_fields_are_kept(
    timestamp: Seq<char>,
    target: Seq<char>,
    addr: Seq<char>,
    seq: Seq<char>,
    round_trip: Option<Seq<char>>,
)
    requires
        seconds_of(timestamp) is Some,
        decimal_up_to(seq, u64::MAX as nat) is Some,
        round_trip matches Some(text) ==> millis_of(text) is Some,
    ensures
        ping_of_captures(
            Some(seq![Some(timestamp), Some(target), Some(addr), Some(seq), round_trip]),
        ) == Some(
            PingModel {
                timestamp: seconds_of(timestamp)->0,
                target,
                addr,
                seq: decimal_up_to(seq, u64::MAX as nat)->0,
                result: match round_trip {
                    Some(text) => millis_of(text),
                    None => None,
                },
            },
        ),
{
}

/// A line that does not have the form of a reply gives no ping, and
/// neither does one whose timestamp, sequence number or round-trip time
/// cannot be read.
pub proof fn lemma_malformed_ping_is_refused(groups: Option<Groups>)
    requires
        groups matches Some(found) ==> found.len() == 5,
        ({
            ||| groups is None
            ||| timestamp_of(groups->0[0]) is None
            ||| groups->0[3] is None
            ||| decimal_up_to(groups->0[3]->0, u64::MAX as nat) is None
            ||| round_trip_of(groups->0[4]) is None
        }),
    ensures
        ping_of_captures(groups) is None,
{
}

/// Each form of line gives its own variant, the first form that fits
/// wins, and a line is left unread exactly when it fits none; it is then
/// kept as it was.
pub proof fn lemma_control_selection(
    raw: Seq<char>,
    icmp_error: Option<Groups>,
    status: Option<Groups>,
    fping_error: Option<Groups>,
)
    ensures
        icmp_error_of(icmp_error) matches Some(control) ==> control is IcmpError,
        status_of(status) matches Some(control) ==> control is TargetSummary,
        fping_error_of(fping_error) matches Some(control) ==> control is FpingError,
        match control_of(raw, icmp_error, status, fping_error) {
            Control::BlankLine => raw.len() == 0,
            Control::SummaryLocalTime => is_bracketed(raw),
            Control::IcmpError { .. } => raw.len() > 0 && !is_bracketed(raw),
            Control::TargetSummary(_) => raw.len() > 0 && !is_bracketed(raw) && icmp_error_of(
                icmp_error,
            ) is None,
            Control::FpingError { .. } => raw.len() > 0 && !is_bracketed(raw) && icmp_error_of(
                icmp_error,
            ) is None && status_of(status) is None,
            Control::Unhandled(kept) => kept == raw && raw.len() > 0 && !is_bracketed(raw)
                && icmp_error_of(icmp_error) is None && status_of(status) is None
                && fping_error_of(fping_error) is None,
        },
{
}

} // verus!
