use vstd::prelude::*;

use crate::text::{
    decimal_text, decode_lossy, is_white_space, lemma_trimmed_end_shape, lossy_utf8, signed_decimal, trim_end, trimmed_end,
};

verus! {

/// How the worker's process ended: its exit code and, on Unix, the signal
/// that ended it.
#[derive(Clone, Copy, Debug, PartialEq, Eq, Structural)]
pub struct ExitStatus {
    pub code: Option<i32>,
    pub signal: Option<i32>,
}

/// One event of the worker's lifecycle, as its event stream delivers it.
#[derive(Debug)]
pub enum SidecarEvent {
    /// A line the worker wrote to its standard output.
    Stdout(Vec<u8>),
    /// A line the worker wrote to its standard error.
    Stderr(Vec<u8>),
    /// The worker exited.
    Terminated(ExitStatus),
    /// Spawning the worker or reading its output failed.
    Error(String),
}

/// The level of a log entry.
#[derive(Clone, Copy, Debug, PartialEq, Eq, Structural)]
pub enum Severity {
    Info,
    Warn,
    Error,
}

/// One entry for the application's log.
#[derive(Debug)]
pub struct LogRecord {
    pub level: Severity,
    pub text: String,
}

/// After this event the stream has nothing more to say.
pub open spec fn is_terminal(e: SidecarEvent) -> bool {
    e is Terminated || e is Error
}

pub open spec fn level_of(e: SidecarEvent) -> Severity {
    match e {
        SidecarEvent::Stdout(_) => Severity::Info,
        SidecarEvent::Stderr(_) => Severity::Warn,
        SidecarEvent::Terminated(_) => Severity::Info,
        SidecarEvent::Error(_) => Severity::Error,
    }
}

/// The text of an output line: decoded, trailing white space removed.
pub open spec fn line_text(b: Seq<u8>) -> Seq<char> {
    trimmed_end(lossy_utf8(b))
}

pub open spec fn optional_number_text(label: Seq<char>, n: Option<i32>) -> Seq<char> {
    match n {
        Some(v) => label + signed_decimal(v as int),
        None => Seq::empty(),
    }
}

pub open spec fn exit_text(s: ExitStatus) -> Seq<char> {
    "terminated"@ + optional_number_text(" with code "@, s.code) + optional_number_text(
        " by signal "@,
        s.signal,
    )
}

pub open spec fn text_of(e: SidecarEvent) -> Seq<char> {
    match e {
        SidecarEvent::Stdout(b) => line_text(b@),
        SidecarEvent::Stderr(b) => line_text(b@),
        SidecarEvent::Terminated(s) => exit_text(s),
        SidecarEvent::Error(m) => "error: "@ + m@,
    }
}

/// `r` is the log entry for `e`.
pub open spec fn records(r: LogRecord, e: SidecarEvent) -> bool {
    r.level == level_of(e) && r.text@ == text_of(e)
}

/// Of the events `s`, the relay reads exactly the first `n`: up to and
/// including the first terminal one, or all of them if none is terminal.
pub open spec fn reads(s: Seq<SidecarEvent>, n: int) -> bool {
    &&& 0 <= n <= s.len()
    &&& forall|i: int| 0 <= i < n - 1 ==> !is_terminal(#[trigger] s[i])
    &&& n == s.len() || (n > 0 && is_terminal(s[n - 1]))
}

/// Every standard-output line is logged at info and every standard-error line
/// at warning. The text is the line decoded with its trailing white space
/// removed: a prefix of the decoded line, followed there by white space alone,
/// that does not itself end in white space.
pub proof fn law_output_line_entries(e: SidecarEvent, b: Vec<u8>)
    requires
        e == SidecarEvent::Stdout(b) || e == SidecarEvent::Stderr(b),
    ensures
        e is Stdout ==> level_of(e) == Severity::Info,
        e is Stderr ==> level_of(e) == Severity::Warn,
        text_of(e) == trimmed_end(lossy_utf8(b@)),
        text_of(e).len() <= lossy_utf8(b@).len(),
        text_of(e) == lossy_utf8(b@).subrange(0, text_of(e).len() as int),
        forall|i: int|
            text_of(e).len() <= i < lossy_utf8(b@).len() ==> is_white_space(
                #[trigger] lossy_utf8(b@)[i],
            ),
        text_of(e).len() == 0 || !is_white_space(text_of(e).last()),
{
    lemma_trimmed_end_shape(lossy_utf8(b@));
}

fn line_record(b: &Vec<u8>) -> (r: String)
    ensures
        r@ == line_text(b@),
{
    let decoded = decode_lossy(b);
    let trimmed = trim_end(decoded.as_str());
    String::from_str(trimmed)
}

fn optional_number(label: &str, n: Option<i32>) -> (r: String)
    ensures
        r@ == optional_number_text(label@, n),
{
    match n {
        Some(v) => {
            let digits = decimal_text(v);
            String::from_str(label).concat(digits.as_str())
        },
        None => String::new(),
    }
}

fn exit_record(s: &ExitStatus) -> (r: String)
    ensures
        r@ == exit_text(*s),
{
    let code = optional_number(" with code ", s.code);
    let signal = optional_number(" by signal ", s.signal);
    let r = String::from_str("terminated").concat(code.as_str()).concat(signal.as_str());
    proof {
        reveal_strlit("terminated");
        reveal_strlit(" with code ");
        reveal_strlit(" by signal ");
    }
    r
}

/// The log entry for one event: standard output at info, standard error at
/// warning, the exit at info, a failure at error.
pub fn record_for(e: &SidecarEvent) -> (r: LogRecord)
    ensures
        records(r, *e),
{
    match e {
        SidecarEvent::Stdout(b) => LogRecord { level: Severity::Info, text: line_record(b) },
        SidecarEvent::Stderr(b) => LogRecord { level: Severity::Warn, text: line_record(b) },
        SidecarEvent::Terminated(s) => LogRecord { level: Severity::Info, text: exit_record(s) },
        SidecarEvent::Error(m) => {
            proof {
                reveal_strlit("error: ");
            }
            LogRecord { level: Severity::Error, text: String::from_str("error: ").concat(m.as_str()) }
        },
    }
}

pub fn is_terminal_event(e: &SidecarEvent) -> (r: bool)
    ensures
        r == is_terminal(*e),
{
    match e {
        SidecarEvent::Terminated(_) | SidecarEvent::Error(_) => true,
        _ => false,
    }
}

/// Relays the events of one worker to the log, in order, and stops reading at
/// the first terminal event.
pub fn relay_all(events: &Vec<SidecarEvent>) -> (r: (Vec<LogRecord>, usize))
    ensures
        reads(events@, r.1 as int),
        r.0@.len() == r.1,
        forall|i: int| 0 <= i < r.1 ==> records(#[trigger] r.0@[i], events@[i]),
{
    let mut out: Vec<LogRecord> = Vec::new();
    let mut i: usize = 0;
    let mut stopped = false;
    while i < events.len() && !stopped
        invariant
            0 <= i <= events@.len(),
            out@.len() == i,
            forall|j: int| 0 <= j < i ==> records(#[trigger] out@[j], events@[j]),
            forall|j: int| 0 <= j < i - 1 ==> !is_terminal(#[trigger] events@[j]),
            stopped <==> (i > 0 && is_terminal(events@[i - 1])),
        decreases events@.len() - i,
    {
        let rec = record_for(&events[i]);
        stopped = is_terminal_event(&events[i]);
        out.push(rec);
        i = i + 1;
    }
    (out, i)
}

/// The relay of one worker's output: it forwards events until the first
/// terminal one, then reads no more.
pub struct Relay {
    stopped: bool,
}

impl Relay {
    /// The relay has seen a terminal event.
    pub closed spec fn is_done(&self) -> bool {
        self.stopped
    }

    pub fn new() -> (r: Relay)
        ensures
            !r.is_done(),
    {
        Relay { stopped: false }
    }

    /// Whether the relay still wants events.
    pub fn wants_more(&self) -> (r: bool)
        ensures
            r == !self.is_done(),
    {
        !self.stopped
    }

    /// Takes the next event: the entry to log for it, or nothing once a
    /// terminal event has been seen.
    pub fn on_event(&mut self, e: &SidecarEvent) -> (r: Option<LogRecord>)
        ensures
            old(self).is_done() ==> r is None && final(self).is_done(),
            !old(self).is_done() ==> r is Some && records(r->Some_0, *e),
            !old(self).is_done() ==> (final(self).is_done() <==> is_terminal(*e)),
    {
        if self.stopped {
            None
        } else {
            let rec = record_for(e);
            self.stopped = is_terminal_event(e);
            Some(rec)
        }
    }
}

} // verus!
