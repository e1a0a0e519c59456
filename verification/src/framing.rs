//! The framing engine as an explicit state machine. One [`Exchange`] is one
//! command round-trip: stale input is drained, the command line is written,
//! and the reply is accumulated until a prompt marker, the idle window or the
//! overall timeout ends it. The machine performs no input or output itself:
//! it is told what happened on the link and when, and answers with what to do
//! next.

use vstd::prelude::*;
use vstd::string::StringExecFns;
use crate::chars::{contains, occurs_at, to_chars, to_text};
use crate::error::PowerCliError;
use crate::reply::{
    any_marker, clean, cleaned, is_marker, lemma_prompt_alone_is_empty, Terminators,
};

verus! {

/// Where a round-trip stands.
#[derive(Debug, Clone, Copy, PartialEq, Eq, Structural)]
pub enum Phase {
    /// Stale input is being read and discarded.
    Draining,
    /// The command line was handed out for writing.
    Sent,
    /// The reply is being collected.
    Accumulating,
    /// A prompt marker was seen; trailing input is being collected.
    Settling,
    /// The reply is complete.
    Completed,
    /// The overall timeout passed without a prompt marker.
    TimedOut,
    /// The link failed.
    Failed,
}

/// How the collection of a reply ended.
#[derive(Debug, Clone, Copy, PartialEq, Eq, Structural)]
pub enum ReplyExit {
    /// A prompt marker was seen.
    Terminator,
    /// Nothing arrived for longer than the idle window.
    Idle,
    /// The fixed window of a disruptive command passed.
    Deadline,
    /// The link closed or dropped.
    Closed,
}

/// What the caller must do next on the link.
#[derive(Debug, Clone, Copy, PartialEq, Eq, Structural)]
pub enum Action {
    /// Read once, waiting at most this long, and report what arrived.
    Read { wait_ms: u64 },
    /// Write the command line, flush, and report the result.
    Write,
    /// Nothing more: fetch the outcome.
    Finish,
}

/// The time windows of the engine. All are supplied by the caller.
#[derive(Debug, Clone, Copy, PartialEq, Eq, Structural)]
pub struct Timing {
    /// Overall command timeout, in seconds.
    pub timeout_secs: u64,
    /// Longest silence after the last byte before a reply counts as ended.
    pub idle_ms: u64,
    /// Longest time spent on discarding stale input before a command.
    pub drain_ms: u64,
    /// Longest time spent on trailing input after a prompt marker.
    pub settle_ms: u64,
    /// Time for which the reply to a disruptive command is awaited.
    pub disruptive_ms: u64,
    /// Longest wait of a single read.
    pub poll_ms: u64,
}

impl Timing {
    /// The customary windows around a given overall timeout.
    pub fn standard(timeout_secs: u64) -> (r: Timing)
        ensures
            r == (Timing {
                timeout_secs,
                idle_ms: 500,
                drain_ms: 100,
                settle_ms: 200,
                disruptive_ms: 500,
                poll_ms: 100,
            }),
    {
        Timing {
            timeout_secs,
            idle_ms: 500,
            drain_ms: 100,
            settle_ms: 200,
            disruptive_ms: 500,
            poll_ms: 100,
        }
    }
}

/// The operation on the link that failed.
#[derive(Debug, Clone, Copy, PartialEq, Eq, Structural)]
pub enum Fault {
    /// A read.
    Read,
    /// The write of the command line.
    Write,
    /// The flush after the write.
    Flush,
}

/// What happened on the link.
#[derive(Debug, Clone, PartialEq, Eq)]
pub enum Event {
    /// Input arrived.
    Data(String),
    /// A read waited its full time and nothing arrived.
    Quiet,
    /// The link reported its end.
    Closed,
    /// An operation failed; `reason` is what the transport said of it.
    Failed { fault: Fault, reason: String },
    /// The command line was written and flushed.
    Written,
}

/// Mathematical content of an [`Event`].
pub enum Incoming {
    Data(Seq<char>),
    Quiet,
    Closed,
    Failed(Fault, Seq<char>),
    Written,
}

impl View for Event {
    type V = Incoming;

    open spec fn view(&self) -> Incoming {
        match self {
            Event::Data(d) => Incoming::Data(d@),
            Event::Quiet => Incoming::Quiet,
            Event::Closed => Incoming::Closed,
            Event::Failed { fault, reason } => Incoming::Failed(*fault, reason@),
            Event::Written => Incoming::Written,
        }
    }
}

/// The text that bytes decode to when every invalid sequence is replaced by
/// U+FFFD, as `String::from_utf8_lossy` does.
pub uninterp spec fn lossy_text(bytes: Seq<u8>) -> Seq<char>;

/// Calls `String::from_utf8_lossy`. Trusted: the result is the lossy decoding
/// of the bytes, named by `lossy_text`.
#[verifier::external_body]
pub(crate) fn decode_lossy(bytes: &[u8]) -> (r: String)
    ensures
        r@ == lossy_text(bytes@),
{
    String::from_utf8_lossy(bytes).into_owned()
}

impl Event {
    /// The event for a chunk of bytes read from the link. Bytes that are no
    /// valid UTF-8 are decoded lossily; an empty chunk is the link's end.
    pub fn from_bytes(chunk: &[u8]) -> (r: Event)
        ensures
            chunk@.len() == 0 ==> r@ == Incoming::Closed,
            chunk@.len() > 0 ==> r@ == Incoming::Data(lossy_text(chunk@)),
    {
        if chunk.len() == 0 {
            Event::Closed
        } else {
            Event::Data(decode_lossy(chunk))
        }
    }
}

/// What stays fixed during a round-trip.
pub struct Setup {
    pub command: Seq<char>,
    pub disruptive: bool,
    pub timing: Timing,
    pub terminators: Seq<Seq<char>>,
}

/// What changes during a round-trip.
pub struct Machine {
    pub phase: Phase,
    /// The text received since the command was written.
    pub buffer: Seq<char>,
    /// When the current phase began.
    pub since: u64,
    /// When the command was written.
    pub sent_at: u64,
    /// When text last arrived.
    pub last_rx: u64,
    /// When the round-trip ended.
    pub ended_at: u64,
    /// Whether the command was written.
    pub sent: bool,
    pub exit: ReplyExit,
    /// The operation that failed, where one did.
    pub fault: Fault,
    /// What the transport said of the failure.
    pub reason: Seq<char>,
}

/// The time from `since` to `now` on a clock that does not run backwards.
pub open spec fn elapsed(now: u64, since: u64) -> u64 {
    if now >= since {
        (now - since) as u64
    } else {
        0
    }
}

/// The overall timeout in milliseconds, capped at the largest number.
pub open spec fn deadline_ms(secs: u64) -> u64 {
    if secs <= 18_446_744_073_709_551 {
        (secs * 1000) as u64
    } else {
        0xffff_ffff_ffff_ffff
    }
}

/// The text that an event brings.
pub open spec fn arrived(ev: Incoming) -> Seq<char> {
    match ev {
        Incoming::Data(d) => d,
        _ => Seq::empty(),
    }
}

/// The state at the start of a round-trip.
pub open spec fn initial(now: u64) -> Machine {
    Machine {
        phase: Phase::Draining,
        buffer: Seq::empty(),
        since: now,
        sent_at: now,
        last_rx: now,
        ended_at: now,
        sent: false,
        exit: ReplyExit::Closed,
        fault: Fault::Write,
        reason: Seq::empty(),
    }
}

/// The operation that an event reports as failed. An event that reports no
/// failure, where the outcome of the write is awaited, counts as a failed
/// write.
pub open spec fn fault_of(ev: Incoming) -> Fault {
    match ev {
        Incoming::Failed(fault, _) => fault,
        _ => Fault::Write,
    }
}

/// What the transport said of a failure; for an event that reports none, that
/// the write was not confirmed.
pub open spec fn reason_of(ev: Incoming) -> Seq<char> {
    match ev {
        Incoming::Failed(_, reason) => reason,
        _ => "the write was not confirmed"@,
    }
}

/// `m`, ended by the failure that `ev` reports.
pub open spec fn failed(m: Machine, ev: Incoming, now: u64) -> Machine {
    Machine {
        phase: Phase::Failed,
        ended_at: now,
        fault: fault_of(ev),
        reason: reason_of(ev),
        ..m
    }
}

/// How the message of a failure begins.
pub open spec fn fault_prefix(fault: Fault) -> Seq<char> {
    match fault {
        Fault::Read => "Serial read error: "@,
        Fault::Write => "Failed to write to serial port: "@,
        Fault::Flush => "Failed to flush serial port: "@,
    }
}

/// `m`, ended.
pub open spec fn ended(m: Machine, phase: Phase, exit: ReplyExit, now: u64) -> Machine {
    Machine { phase, exit, ended_at: now, ..m }
}

/// `m` after the text of `ev` was appended at time `now`.
pub open spec fn grown(m: Machine, ev: Incoming, now: u64) -> Machine {
    Machine {
        buffer: m.buffer + arrived(ev),
        last_rx: if arrived(ev).len() > 0 {
            now
        } else {
            m.last_rx
        },
        ..m
    }
}

/// The transition function: the state that follows `m` when `ev` is reported
/// at time `now`. A failure that is reported while the command is written or
/// its reply awaited ends the round-trip and is kept with its reason, unless
/// the command is disruptive and the link drops after the write. A failure
/// of a read that only drains stale or trailing input ends that reading and
/// nothing else.
pub open spec fn next(s: Setup, m: Machine, ev: Incoming, now: u64) -> Machine {
    match m.phase {
        Phase::Draining => if arrived(ev).len() > 0 && elapsed(now, m.since) < s.timing.drain_ms {
            m
        } else {
            Machine { phase: Phase::Sent, since: now, ..m }
        },
        Phase::Sent => if ev is Written {
            Machine {
                phase: Phase::Accumulating,
                sent: true,
                since: now,
                sent_at: now,
                last_rx: now,
                ..m
            }
        } else {
            failed(m, ev, now)
        },
        Phase::Accumulating => if ev is Closed || (ev is Failed && s.disruptive) {
            ended(m, Phase::Completed, ReplyExit::Closed, now)
        } else if ev is Failed {
            failed(m, ev, now)
        } else if s.disruptive {
            if elapsed(now, m.sent_at) >= s.timing.disruptive_ms {
                ended(grown(m, ev, now), Phase::Completed, ReplyExit::Deadline, now)
            } else {
                grown(m, ev, now)
            }
        } else if arrived(ev).len() > 0 && any_marker(m.buffer + arrived(ev), s.terminators) {
            Machine { phase: Phase::Settling, since: now, ..grown(m, ev, now) }
        } else if elapsed(now, m.sent_at) >= deadline_ms(s.timing.timeout_secs) {
            ended(grown(m, ev, now), Phase::TimedOut, m.exit, now)
        } else if arrived(ev).len() == 0 && m.buffer.len() > 0 && elapsed(now, m.last_rx)
            > s.timing.idle_ms {
            ended(m, Phase::Completed, ReplyExit::Idle, now)
        } else {
            grown(m, ev, now)
        },
        Phase::Settling => if arrived(ev).len() > 0 && elapsed(now, m.since)
            < s.timing.settle_ms {
            grown(m, ev, now)
        } else {
            ended(grown(m, ev, now), Phase::Completed, ReplyExit::Terminator, now)
        },
        _ => m,
    }
}

/// What the caller must do in a given phase.
pub open spec fn pending(s: Setup, phase: Phase) -> Action {
    match phase {
        Phase::Draining | Phase::Accumulating | Phase::Settling => Action::Read {
            wait_ms: s.timing.poll_ms,
        },
        Phase::Sent => Action::Write,
        _ => Action::Finish,
    }
}

/// A phase in which a round-trip rests.
pub open spec fn is_final(phase: Phase) -> bool {
    phase == Phase::Completed || phase == Phase::TimedOut || phase == Phase::Failed
}

/// A complete reply.
#[derive(Debug, Clone, PartialEq, Eq)]
pub struct Reply {
    /// The reply without echo, prompt and surrounding white space.
    pub text: String,
    /// Everything that arrived after the command was written.
    pub raw: String,
    /// Whether a prompt marker was seen.
    pub terminated: bool,
    /// The time between the last arrival and the end of the round-trip.
    pub idle_ms: u64,
    /// How the collection ended.
    pub exit: ReplyExit,
}

/// The state `m` holds a finished round-trip of which `r` is the result.
pub open spec fn is_outcome(
    s: Setup,
    m: Machine,
    r: Option<Result<Reply, PowerCliError>>,
) -> bool {
    match m.phase {
        Phase::Completed => r matches Some(Ok(reply)) && reply.text@ == cleaned(
            m.buffer,
            s.command,
            s.terminators,
        ) && reply.raw@ == m.buffer && reply.terminated == (m.exit == ReplyExit::Terminator)
            && reply.idle_ms == elapsed(m.ended_at, m.last_rx) && reply.exit == m.exit,
        Phase::TimedOut => r == Some(
            Err::<Reply, PowerCliError>(PowerCliError::Timeout { timeout: s.timing.timeout_secs }),
        ),
        Phase::Failed => r matches Some(Err(PowerCliError::Io(text))) && text@ == fault_prefix(
            m.fault,
        ) + m.reason,
        _ => r is None,
    }
}

fn push_all(buffer: &mut Vec<char>, more: &[char])
    ensures
        final(buffer)@ == old(buffer)@ + more@,
{
    let mut i: usize = 0;
    while i < more.len()
        invariant
            i <= more.len(),
            buffer@ == old(buffer)@ + more@.subrange(0, i as int),
        decreases more.len() - i,
    {
        buffer.push(more[i]);
        proof {
            assert(buffer@ =~= old(buffer)@ + more@.subrange(0, i + 1));
        }
        i += 1;
    }
    proof {
        assert(more@.subrange(0, more@.len() as int) =~= more@);
    }
}

fn since(now: u64, then: u64) -> (r: u64)
    ensures
        r == elapsed(now, then),
{
    if now >= then {
        now - then
    } else {
        0
    }
}

fn to_deadline(secs: u64) -> (r: u64)
    ensures
        r == deadline_ms(secs),
{
    if secs <= 18_446_744_073_709_551 {
        secs * 1000
    } else {
        0xffff_ffff_ffff_ffff
    }
}

/// One command round-trip.
#[derive(Debug, Clone, PartialEq, Eq)]
pub struct Exchange {
    command: Vec<char>,
    disruptive: bool,
    timing: Timing,
    terminators: Terminators,
    phase: Phase,
    buffer: Vec<char>,
    since: u64,
    sent_at: u64,
    last_rx: u64,
    ended_at: u64,
    sent: bool,
    exit: ReplyExit,
    fault: Fault,
    reason: String,
}

impl Exchange {
    /// What stays fixed.
    pub closed spec fn setup(&self) -> Setup {
        Setup {
            command: self.command@,
            disruptive: self.disruptive,
            timing: self.timing,
            terminators: self.terminators@,
        }
    }

    /// What changes.
    pub closed spec fn model(&self) -> Machine {
        Machine {
            phase: self.phase,
            buffer: self.buffer@,
            since: self.since,
            sent_at: self.sent_at,
            last_rx: self.last_rx,
            ended_at: self.ended_at,
            sent: self.sent,
            exit: self.exit,
            fault: self.fault,
            reason: self.reason@,
        }
    }

    /// Starts a round-trip at time `now_ms`. Nothing has been written yet:
    /// the first thing asked of the caller is a read that drains stale input.
    pub fn start(
        command: &str,
        disruptive: bool,
        timing: Timing,
        terminators: Terminators,
        now_ms: u64,
    ) -> (r: Exchange)
        ensures
            r.setup() == (Setup {
                command: command@,
                disruptive,
                timing,
                terminators: terminators@,
            }),
            r.model() == initial(now_ms),
    {
        Exchange {
            command: to_chars(command),
            disruptive,
            timing,
            terminators,
            phase: Phase::Draining,
            buffer: Vec::new(),
            since: now_ms,
            sent_at: now_ms,
            last_rx: now_ms,
            ended_at: now_ms,
            sent: false,
            exit: ReplyExit::Closed,
            fault: Fault::Write,
            reason: String::new(),
        }
    }

    /// The phase in which the round-trip stands.
    pub fn phase(&self) -> (p: Phase)
        ensures
            p == self.model().phase,
    {
        self.phase
    }

    /// Whether the round-trip has ended.
    pub fn is_finished(&self) -> (b: bool)
        ensures
            b == is_final(self.model().phase),
    {
        self.phase == Phase::Completed || self.phase == Phase::TimedOut || self.phase
            == Phase::Failed
    }

    /// What the caller must do now.
    pub fn action(&self) -> (a: Action)
        ensures
            a == pending(self.setup(), self.model().phase),
    {
        match self.phase {
            Phase::Draining | Phase::Accumulating | Phase::Settling => Action::Read {
                wait_ms: self.timing.poll_ms,
            },
            Phase::Sent => Action::Write,
            _ => Action::Finish,
        }
    }

    /// The line to write: the command followed by one line break.
    pub fn wire_line(&self) -> (r: String)
        ensures
            r@ == self.setup().command.push('\n'),
    {
        let mut line = to_text(self.command.as_slice());
        line.push('\n');
        line
    }

    fn end(&mut self, phase: Phase, exit: ReplyExit, now_ms: u64)
        ensures
            final(self).setup() == old(self).setup(),
            final(self).model() == ended(old(self).model(), phase, exit, now_ms),
    {
        self.phase = phase;
        self.exit = exit;
        self.ended_at = now_ms;
    }

    fn fail(&mut self, event: &Event, now_ms: u64)
        ensures
            final(self).setup() == old(self).setup(),
            final(self).model() == failed(old(self).model(), event@, now_ms),
    {
        match event {
            Event::Failed { fault, reason } => {
                self.fault = *fault;
                self.reason = reason.clone();
            },
            _ => {
                self.fault = Fault::Write;
                self.reason = String::from_str("the write was not confirmed");
            },
        }
        self.phase = Phase::Failed;
        self.ended_at = now_ms;
    }

    fn grow(&mut self, text: &[char], now_ms: u64)
        ensures
            final(self).setup() == old(self).setup(),
            final(self).model() == grown(old(self).model(), Incoming::Data(text@), now_ms),
    {
        push_all(&mut self.buffer, text);
        if text.len() > 0 {
            self.last_rx = now_ms;
        }
    }

    /// Advances the round-trip by one event, reported at time `now_ms`, and
    /// says what to do next.
    pub fn step(&mut self, event: &Event, now_ms: u64) -> (a: Action)
        ensures
            final(self).setup() == old(self).setup(),
            final(self).model() == next(old(self).setup(), old(self).model(), event@, now_ms),
            a == pending(final(self).setup(), final(self).model().phase),
    {
        let text: Vec<char> = match event {
            Event::Data(d) => to_chars(d.as_str()),
            _ => Vec::new(),
        };
        let closed = match event {
            Event::Closed => true,
            _ => false,
        };
        let failed = match event {
            Event::Failed { .. } => true,
            _ => false,
        };
        let written = match event {
            Event::Written => true,
            _ => false,
        };
        proof {
            assert(text@ == arrived(event@));
            assert(old(self).model().buffer + Seq::<char>::empty() =~= old(self).model().buffer);
        }
        match self.phase {
            Phase::Draining => {
                if !(text.len() > 0 && since(now_ms, self.since) < self.timing.drain_ms) {
                    self.phase = Phase::Sent;
                    self.since = now_ms;
                }
            },
            Phase::Sent => {
                if written {
                    self.phase = Phase::Accumulating;
                    self.sent = true;
                    self.since = now_ms;
                    self.sent_at = now_ms;
                    self.last_rx = now_ms;
                } else {
                    self.fail(event, now_ms);
                }
            },
            Phase::Accumulating => {
                if closed || (failed && self.disruptive) {
                    self.end(Phase::Completed, ReplyExit::Closed, now_ms);
                } else if failed {
                    self.fail(event, now_ms);
                } else if self.disruptive {
                    let late = since(now_ms, self.sent_at) >= self.timing.disruptive_ms;
                    self.grow(text.as_slice(), now_ms);
                    if late {
                        self.end(Phase::Completed, ReplyExit::Deadline, now_ms);
                    }
                } else {
                    let idle = text.len() == 0 && self.buffer.len() > 0 && since(
                        now_ms,
                        self.last_rx,
                    ) > self.timing.idle_ms;
                    let late = since(now_ms, self.sent_at) >= to_deadline(
                        self.timing.timeout_secs,
                    );
                    let had = text.len() > 0;
                    let ghost before = self.model();
                    if had {
                        self.grow(text.as_slice(), now_ms);
                        if self.terminators.found_in(self.buffer.as_slice()) {
                            self.phase = Phase::Settling;
                            self.since = now_ms;
                        } else if late {
                            let exit = self.exit;
                            self.end(Phase::TimedOut, exit, now_ms);
                        }
                    } else if late {
                        let exit = self.exit;
                        proof {
                            assert(grown(before, event@, now_ms) == before);
                        }
                        self.end(Phase::TimedOut, exit, now_ms);
                    } else if idle {
                        self.end(Phase::Completed, ReplyExit::Idle, now_ms);
                    } else {
                        proof {
                            assert(grown(before, event@, now_ms) == before);
                        }
                    }
                }
            },
            Phase::Settling => {
                let more = text.len() > 0 && since(now_ms, self.since) < self.timing.settle_ms;
                self.grow(text.as_slice(), now_ms);
                if !more {
                    self.end(Phase::Completed, ReplyExit::Terminator, now_ms);
                }
            },
            _ => {},
        }
        self.action()
    }

    /// The result of the round-trip, once it has ended: the cleaned reply,
    /// or the timeout with the configured number of seconds, or the failure
    /// of the link, which names the operation that failed and carries what
    /// the transport said of it. Nothing before that.
    pub fn outcome(&self) -> (r: Option<Result<Reply, PowerCliError>>)
        ensures
            is_outcome(self.setup(), self.model(), r),
    {
        match self.phase {
            Phase::Completed => {
                let text = clean(self.buffer.as_slice(), self.command.as_slice(), &self.terminators);
                Some(
                    Ok(
                        Reply {
                            text: to_text(text.as_slice()),
                            raw: to_text(self.buffer.as_slice()),
                            terminated: self.exit == ReplyExit::Terminator,
                            idle_ms: since(self.ended_at, self.last_rx),
                            exit: self.exit,
                        },
                    ),
                )
            },
            Phase::TimedOut => Some(
                Err(PowerCliError::Timeout { timeout: self.timing.timeout_secs }),
            ),
            Phase::Failed => {
                let prefix = match self.fault {
                    Fault::Read => "Serial read error: ",
                    Fault::Write => "Failed to write to serial port: ",
                    Fault::Flush => "Failed to flush serial port: ",
                };
                Some(
                    Err(PowerCliError::Io(String::from_str(prefix).concat(self.reason.as_str()))),
                )
            },
            _ => None,
        }
    }
}

/// The state reached from `m` after the events of `events`, each with the
/// time at which it was reported.
pub open spec fn run(s: Setup, m: Machine, events: Seq<(Incoming, u64)>) -> Machine
    decreases events.len(),
{
    if events.len() == 0 {
        m
    } else {
        next(s, run(s, m, events.drop_last()), events.last().0, events.last().1)
    }
}

/// `r` is the overall timeout, whatever number of seconds it carries.
pub open spec fn is_timeout(r: Option<Result<Reply, PowerCliError>>) -> bool {
    r matches Some(Err(PowerCliError::Timeout { .. }))
}

/// No event takes a disruptive command into the timed-out phase.
pub proof fn lemma_disruptive_step(s: Setup, m: Machine, ev: Incoming, now: u64)
    requires
        s.disruptive,
        m.phase != Phase::TimedOut,
    ensures
        next(s, m, ev, now).phase != Phase::TimedOut,
{
}

/// A disruptive command never ends in the overall timeout: whatever events
/// are reported, at whatever times, and whether or not any text arrives, the
/// round-trip does not reach the timed-out phase and its outcome is no
/// timeout.
pub proof fn lemma_disruptive_never_times_out(
    s: Setup,
    started: u64,
    events: Seq<(Incoming, u64)>,
    r: Option<Result<Reply, PowerCliError>>,
)
    requires
        s.disruptive,
    ensures
        run(s, initial(started), events).phase != Phase::TimedOut,
        is_outcome(s, run(s, initial(started), events), r) ==> !is_timeout(r),
    decreases events.len(),
{
    if events.len() > 0 {
        lemma_disruptive_never_times_out(s, started, events.drop_last(), r);
        lemma_disruptive_step(
            s,
            run(s, initial(started), events.drop_last()),
            events.last().0,
            events.last().1,
        );
    }
}

/// While a reply is awaited and no marker has been seen, an event that brings
/// no text at or after the overall timeout ends the round-trip in the
/// timeout, and the timeout reported is the configured number of seconds,
/// however short the idle window is.
pub proof fn lemma_silence_times_out(
    s: Setup,
    m: Machine,
    ev: Incoming,
    now: u64,
    r: Option<Result<Reply, PowerCliError>>,
)
    requires
        !s.disruptive,
        m.phase == Phase::Accumulating,
        ev is Quiet || ev is Written || (ev is Data && arrived(ev).len() == 0),
        elapsed(now, m.sent_at) >= deadline_ms(s.timing.timeout_secs),
    ensures
        next(s, m, ev, now).phase == Phase::TimedOut,
        is_outcome(s, next(s, m, ev, now), r) ==> r == Some(
            Err::<Reply, PowerCliError>(PowerCliError::Timeout { timeout: s.timing.timeout_secs }),
        ),
{
}

/// A finished round-trip stays as it is.
pub proof fn lemma_final_is_stable(s: Setup, m: Machine, ev: Incoming, now: u64)
    requires
        is_final(m.phase),
    ensures
        next(s, m, ev, now) == m,
{
}

/// Nothing is handed out for writing before the drain has ended, and the
/// command is written once: the phase `Sent` is entered from `Draining` only.
pub proof fn lemma_written_once(s: Setup, m: Machine, ev: Incoming, now: u64)
    requires
        next(s, m, ev, now).phase == Phase::Sent,
    ensures
        m.phase == Phase::Draining,
{
}

/// What holds of every state that a round-trip reaches: nothing is collected
/// before the command is written; while a reply is awaited, and when the
/// timeout or the idle rule ends it, the text collected holds no marker; and
/// a marker is reported as seen only where the text holds one.
pub open spec fn is_consistent(s: Setup, m: Machine) -> bool {
    &&& (m.phase == Phase::Draining || m.phase == Phase::Sent) ==> m.buffer.len() == 0 && !m.sent
    &&& (m.phase == Phase::Accumulating || m.phase == Phase::Settling || m.phase
        == Phase::Completed || m.phase == Phase::TimedOut) ==> m.sent
    &&& m.phase == Phase::Accumulating && !s.disruptive ==> !any_marker(m.buffer, s.terminators)
    &&& m.phase == Phase::Settling ==> !s.disruptive && any_marker(m.buffer, s.terminators)
    &&& m.phase == Phase::TimedOut ==> !s.disruptive && !any_marker(m.buffer, s.terminators)
    &&& m.phase == Phase::Completed ==> (m.exit == ReplyExit::Terminator ==> !s.disruptive
        && any_marker(m.buffer, s.terminators))
    &&& m.phase == Phase::Completed && !s.disruptive && m.exit != ReplyExit::Terminator
        ==> !any_marker(m.buffer, s.terminators)
    &&& m.phase == Phase::Completed && s.disruptive ==> m.exit == ReplyExit::Deadline || m.exit
        == ReplyExit::Closed
}

proof fn lemma_marker_stays(buffer: Seq<char>, more: Seq<char>, terms: Seq<Seq<char>>)
    requires
        any_marker(buffer, terms),
    ensures
        any_marker(buffer + more, terms),
{
    let k = choose|k: int| 0 <= k < terms.len() && contains(buffer, #[trigger] terms[k]);
    let t = terms[k];
    let i = choose|i: int| occurs_at(buffer, t, i);
    assert((buffer + more).subrange(i, i + t.len()) =~= buffer.subrange(i, i + t.len()));
    assert(occurs_at(buffer + more, t, i));
    assert(contains(buffer + more, terms[k]));
}

proof fn lemma_nothing_holds_no_marker(terms: Seq<Seq<char>>)
    requires
        forall|k: int| 0 <= k < terms.len() ==> is_marker(#[trigger] terms[k]),
    ensures
        !any_marker(Seq::<char>::empty(), terms),
{
    if any_marker(Seq::<char>::empty(), terms) {
        let k = choose|k: int|
            0 <= k < terms.len() && contains(Seq::<char>::empty(), #[trigger] terms[k]);
        assert(is_marker(terms[k]));
        let i = choose|i: int| occurs_at(Seq::<char>::empty(), terms[k], i);
        assert(false);
    }
}

/// Every event keeps a consistent state consistent.
pub proof fn lemma_step_is_consistent(s: Setup, m: Machine, ev: Incoming, now: u64)
    requires
        forall|k: int| 0 <= k < s.terminators.len() ==> is_marker(#[trigger] s.terminators[k]),
        is_consistent(s, m),
    ensures
        is_consistent(s, next(s, m, ev, now)),
{
    let after = next(s, m, ev, now);
    if arrived(ev).len() == 0 {
        assert(m.buffer + arrived(ev) =~= m.buffer);
    }
    lemma_nothing_holds_no_marker(s.terminators);
    if m.phase == Phase::Settling {
        lemma_marker_stays(m.buffer, arrived(ev), s.terminators);
    }
    if m.phase == Phase::Draining || m.phase == Phase::Sent {
        assert(m.buffer =~= Seq::<char>::empty());
    }
}

/// Every state that a round-trip reaches is consistent.
pub proof fn lemma_run_is_consistent(s: Setup, started: u64, events: Seq<(Incoming, u64)>)
    requires
        forall|k: int| 0 <= k < s.terminators.len() ==> is_marker(#[trigger] s.terminators[k]),
    ensures
        is_consistent(s, run(s, initial(started), events)),
    decreases events.len(),
{
    if events.len() > 0 {
        lemma_run_is_consistent(s, started, events.drop_last());
        lemma_step_is_consistent(
            s,
            run(s, initial(started), events.drop_last()),
            events.last().0,
            events.last().1,
        );
    }
}

/// A reply says that a marker was seen only where its raw text holds one,
/// and the reply to a command that is not disruptive says so wherever its
/// raw text holds one.
pub proof fn lemma_terminated_is_truthful(
    s: Setup,
    started: u64,
    events: Seq<(Incoming, u64)>,
    reply: Reply,
)
    requires
        forall|k: int| 0 <= k < s.terminators.len() ==> is_marker(#[trigger] s.terminators[k]),
        is_outcome(s, run(s, initial(started), events), Some(Ok(reply))),
    ensures
        reply.terminated ==> any_marker(reply.raw@, s.terminators),
        !s.disruptive ==> (reply.terminated <==> any_marker(reply.raw@, s.terminators)),
{
    lemma_run_is_consistent(s, started, events);
}

/// The text of a reply that is a marker and nothing else: the echoed command
/// line before it or not, a line break after it or not.
pub open spec fn bare_prompt(
    command: Seq<char>,
    marker: Seq<char>,
    echoed: bool,
    broken: bool,
) -> Seq<char> {
    (if echoed {
        command + seq!['\n']
    } else {
        Seq::empty()
    }) + marker + (if broken {
        seq!['\n']
    } else {
        Seq::empty()
    })
}

/// A reply that is a marker and nothing else, arriving in one piece, ends
/// the round-trip with an empty cleaned reply and no failure.
pub proof fn lemma_bare_prompt_round_trip(
    s: Setup,
    m: Machine,
    k: int,
    echoed: bool,
    broken: bool,
    at: u64,
    then: u64,
    r: Option<Result<Reply, PowerCliError>>,
)
    requires
        forall|j: int| 0 <= j < s.terminators.len() ==> is_marker(#[trigger] s.terminators[j]),
        forall|j: int| 0 <= j < s.command.len() ==> s.command[j] != '\n',
        0 <= k < s.terminators.len(),
        !s.disruptive,
        m.phase == Phase::Accumulating,
        m.buffer.len() == 0,
        is_outcome(
            s,
            next(
                s,
                next(
                    s,
                    m,
                    Incoming::Data(bare_prompt(s.command, s.terminators[k], echoed, broken)),
                    at,
                ),
                Incoming::Quiet,
                then,
            ),
            r,
        ),
    ensures
        r matches Some(Ok(reply)) && reply.text@.len() == 0 && reply.terminated,
{
    let t = s.terminators[k];
    let sent = bare_prompt(s.command, t, echoed, broken);
    let head = if echoed {
        s.command + seq!['\n']
    } else {
        Seq::<char>::empty()
    };
    assert(is_marker(t));
    assert(m.buffer + sent =~= sent);
    assert(sent.subrange(head.len() as int, head.len() as int + t.len()) =~= t);
    assert(occurs_at(sent, t, head.len() as int));
    assert(contains(sent, s.terminators[k]));
    assert(any_marker(sent, s.terminators));
    let settling = next(s, m, Incoming::Data(sent), at);
    assert(settling.phase == Phase::Settling);
    assert(settling.buffer == sent);
    let done = next(s, settling, Incoming::Quiet, then);
    assert(done.buffer =~= sent);
    lemma_prompt_alone_is_empty(s.command, s.terminators, k);
    assert(bare_prompt(s.command, t, false, false) =~= t);
    assert(bare_prompt(s.command, t, false, true) =~= t + seq!['\n']);
    assert(bare_prompt(s.command, t, true, false) =~= s.command + seq!['\n'] + t);
    assert(bare_prompt(s.command, t, true, true) =~= s.command + seq!['\n'] + t + seq!['\n']);
}

} // verus!
