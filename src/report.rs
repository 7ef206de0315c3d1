//! The fault reporter: renders a failure and its source location onto the
//! channel, then halts.
//!
//! It moves through three phases. Capturing is its construction from what the
//! failure site provides; rendering writes the report; halting writes nothing,
//! for as many steps as the caller's endless loop takes.

use vstd::prelude::*;
use vstd::utf8::encode_utf8;

use crate::channel::Strategy;
use crate::writer::{carried, widen_all, write_str, Writer};

verus! {

/// What a failure carries: a text message, or an object that is not text.
#[derive(Debug, PartialEq, Eq)]
pub enum FailurePayload {
    Text(String),
    Opaque,
}

/// Where a failure happened.
#[derive(Debug, PartialEq, Eq)]
pub struct Location {
    pub file: String,
    pub line: u32,
    pub column: u32,
}

/// The character of a decimal digit.
pub open spec fn digit_char(d: nat) -> char
    recommends
        d < 10,
{
    seq!['0', '1', '2', '3', '4', '5', '6', '7', '8', '9'][d as int]
}

/// `n` in decimal: most significant digit first, no sign, no padding.
pub open spec fn decimal(n: nat) -> Seq<char>
    decreases n,
{
    if n < 10 {
        seq![digit_char(n)]
    } else {
        decimal(n / 10).push(digit_char(n % 10))
    }
}

/// The payload as it appears in the report.
pub open spec fn payload_text(payload: FailurePayload) -> Seq<char> {
    match payload {
        FailurePayload::Text(s) => s@,
        FailurePayload::Opaque => "dyn Any"@,
    }
}

/// The location segment of the report; empty when no location is known.
pub open spec fn location_text(location: Option<Location>) -> Seq<char> {
    match location {
        Some(l) => ", "@ + l.file@ + ":"@ + decimal(l.line as nat) + ":"@ + decimal(
            l.column as nat,
        ),
        None => seq![],
    }
}

/// The whole report: `panicked at '<payload>', <file>:<line>:<column>` and a newline.
pub open spec fn report_text(payload: FailurePayload, location: Option<Location>) -> Seq<char> {
    "panicked at '"@ + payload_text(payload) + "'"@ + location_text(location) + "\n"@
}

/// The words that a channel with `strategy` carries for the text `chars`.
#[verifier::opaque]
pub open spec fn sent(strategy: Strategy, chars: Seq<char>) -> Seq<u32> {
    carried(strategy, widen_all(encode_utf8(chars)))
}

proof fn lemma_encode_utf8_concat(a: Seq<char>, b: Seq<char>)
    ensures
        encode_utf8(a + b) == encode_utf8(a) + encode_utf8(b),
    decreases a.len(),
{
    if a.len() == 0 {
        assert(a + b =~= b);
    } else {
        assert((a + b).drop_first() =~= a.drop_first() + b);
        lemma_encode_utf8_concat(a.drop_first(), b);
    }
}

proof fn lemma_sent_concat(strategy: Strategy, a: Seq<char>, b: Seq<char>)
    ensures
        sent(strategy, a) + sent(strategy, b) == sent(strategy, a + b),
{
    reveal(sent);
    lemma_encode_utf8_concat(a, b);
    assert(widen_all(encode_utf8(a)) + widen_all(encode_utf8(b)) =~= widen_all(
        encode_utf8(a) + encode_utf8(b),
    ));
    if !strategy.delivers() {
        assert(Seq::<u32>::empty() + Seq::<u32>::empty() =~= Seq::<u32>::empty());
    }
}

/// Relies on ufmt's `uDisplay` for `u32`, written into a `String`: the decimal
/// digits of `n`, most significant first, with no sign or padding.
#[verifier::external_body]
fn decimal_string(n: u32) -> (r: String)
    ensures
        r@ == decimal(n as nat),
{
    let mut s = String::new();
    let _ = <u32 as ufmt::uDisplay>::fmt(&n, &mut ufmt::Formatter::new(&mut s));
    s
}

/// Writes the text `s`.
fn write_text(w: &mut Writer, s: &str)
    ensures
        final(w).strategy() == old(w).strategy(),
        final(w).pending() == old(w).pending() + sent(old(w).strategy(), s@),
{
    reveal(sent);
    write_str(w, s);
}

/// Writes `n` in decimal.
fn write_decimal(w: &mut Writer, n: u32)
    ensures
        final(w).strategy() == old(w).strategy(),
        final(w).pending() == old(w).pending() + sent(old(w).strategy(), decimal(n as nat)),
{
    let s = decimal_string(n);
    write_text(w, s.as_str());
}

/// Writes the location segment of the report.
fn write_location(w: &mut Writer, l: &Location)
    ensures
        final(w).strategy() == old(w).strategy(),
        final(w).pending() == old(w).pending() + sent(old(w).strategy(), location_text(Some(*l))),
{
    let ghost st = w.strategy();
    let ghost p0 = w.pending();
    write_text(w, ", ");
    write_text(w, l.file.as_str());
    write_text(w, ":");
    write_decimal(w, l.line);
    write_text(w, ":");
    write_decimal(w, l.column);
    proof {
        let a = ", "@;
        let b = a + l.file@;
        let c = b + ":"@;
        let d = c + decimal(l.line as nat);
        let e = d + ":"@;
        lemma_sent_concat(st, a, l.file@);
        lemma_sent_concat(st, b, ":"@);
        lemma_sent_concat(st, c, decimal(l.line as nat));
        lemma_sent_concat(st, d, ":"@);
        lemma_sent_concat(st, e, decimal(l.column as nat));
        assert(w.pending() =~= p0 + sent(st, e + decimal(l.column as nat)));
    }
}

/// Writes the report of a failure with `payload` at `location`.
pub fn render_report(w: &mut Writer, payload: &FailurePayload, location: &Option<Location>)
    ensures
        final(w).strategy() == old(w).strategy(),
        final(w).pending() == old(w).pending() + sent(
            old(w).strategy(),
            report_text(*payload, *location),
        ),
{
    let ghost st = w.strategy();
    let ghost p0 = w.pending();
    write_text(w, "panicked at '");
    match payload {
        FailurePayload::Text(s) => write_text(w, s.as_str()),
        FailurePayload::Opaque => write_text(w, "dyn Any"),
    }
    write_text(w, "'");
    let ghost head = "panicked at '"@ + payload_text(*payload) + "'"@;
    proof {
        lemma_sent_concat(st, "panicked at '"@, payload_text(*payload));
        lemma_sent_concat(st, "panicked at '"@ + payload_text(*payload), "'"@);
        assert(w.pending() =~= p0 + sent(st, head));
    }
    match location {
        Some(l) => write_location(w, l),
        None => {},
    }
    proof {
        lemma_sent_concat(st, head, location_text(*location));
        if location.is_none() {
            reveal(sent);
        }
        assert(w.pending() =~= p0 + sent(st, head + location_text(*location)));
    }
    write_text(w, "\n");
    proof {
        lemma_sent_concat(st, head + location_text(*location), "\n"@);
        assert(w.pending() =~= p0 + sent(st, report_text(*payload, *location)));
    }
}

/// The phase a fault reporter is in, once it has captured the failure.
#[derive(Clone, Copy, Debug, PartialEq, Eq, Structural)]
pub enum Phase {
    /// The report is still to be written.
    Rendering,
    /// The report is written; nothing more is ever written.
    Halting,
}

/// The phase after one step.
pub open spec fn next_phase(phase: Phase) -> Phase {
    match phase {
        Phase::Rendering => Phase::Halting,
        Phase::Halting => Phase::Halting,
    }
}

/// What one step in `phase` adds to the channel, where `report` is the words
/// of the whole report.
pub open spec fn step_output(phase: Phase, report: Seq<u32>) -> Seq<u32> {
    match phase {
        Phase::Rendering => report,
        Phase::Halting => seq![],
    }
}

/// The phase and the pending words after `n` steps from `phase` and `pending`.
pub open spec fn run_steps(phase: Phase, report: Seq<u32>, pending: Seq<u32>, n: nat) -> (
    Phase,
    Seq<u32>,
)
    decreases n,
{
    if n == 0 {
        (phase, pending)
    } else {
        run_steps(next_phase(phase), report, pending + step_output(phase, report), (n - 1) as nat)
    }
}

/// The failure handler: captures a failure, writes its report once, then halts.
pub struct FaultReporter {
    phase: Phase,
    payload: FailurePayload,
    location: Option<Location>,
}

impl FaultReporter {
    pub closed spec fn phase(&self) -> Phase {
        self.phase
    }

    pub closed spec fn payload(&self) -> FailurePayload {
        self.payload
    }

    pub closed spec fn location(&self) -> Option<Location> {
        self.location
    }

    /// The words of this reporter's report on a channel with `strategy`.
    pub open spec fn report(&self, strategy: Strategy) -> Seq<u32> {
        sent(strategy, report_text(self.payload(), self.location()))
    }

    /// Captures a failure: its message if the payload is text (`None` if it is
    /// not), and its location if one is known.
    pub fn capture(text: Option<&str>, location: Option<Location>) -> (r: FaultReporter)
        ensures
            r.phase() == Phase::Rendering,
            r.location() == location,
            match text {
                Some(t) => r.payload() is Text && payload_text(r.payload()) == t@,
                None => r.payload() == FailurePayload::Opaque,
            },
    {
        let payload = match text {
            Some(t) => FailurePayload::Text(t.to_owned()),
            None => FailurePayload::Opaque,
        };
        FaultReporter { phase: Phase::Rendering, payload, location }
    }

    /// The phase this reporter is in.
    pub fn current_phase(&self) -> (p: Phase)
        ensures
            p == self.phase(),
    {
        self.phase
    }

    /// One step: in the rendering phase writes the report and moves to halting;
    /// in the halting phase writes nothing and stays there.
    pub fn step(&mut self, w: &mut Writer)
        ensures
            final(self).phase() == next_phase(old(self).phase()),
            final(self).payload() == old(self).payload(),
            final(self).location() == old(self).location(),
            final(w).strategy() == old(w).strategy(),
            final(w).pending() == old(w).pending() + step_output(
                old(self).phase(),
                old(self).report(old(w).strategy()),
            ),
    {
        match self.phase {
            Phase::Rendering => {
                render_report(w, &self.payload, &self.location);
                self.phase = Phase::Halting;
            },
            Phase::Halting => {
                assert(w.pending() =~= w.pending() + Seq::<u32>::empty());
            },
        }
    }
}

/// A reporter that has captured a failure writes its report exactly once:
/// after any positive number of steps it halts with the report written one time.
pub proof fn law_report_written_once(report: Seq<u32>, pending: Seq<u32>, n: nat)
    requires
        n > 0,
    ensures
        run_steps(Phase::Rendering, report, pending, n) == (Phase::Halting, pending + report),
{
    law_halting_is_final(report, pending + report, (n - 1) as nat);
}

/// Once a reporter halts, no number of further steps writes anything or leaves
/// the halting phase.
pub proof fn law_halting_is_final(report: Seq<u32>, pending: Seq<u32>, n: nat)
    ensures
        run_steps(Phase::Halting, report, pending, n) == (Phase::Halting, pending),
    decreases n,
{
    if n > 0 {
        assert(pending + step_output(Phase::Halting, report) =~= pending);
        law_halting_is_final(report, pending, (n - 1) as nat);
    }
}

} // verus!
