//! The decisions of the loop that polls an open port.
//!
//! The caller performs each action (reading, writing, sleeping) and hands the
//! outcome back as the next event; the session only decides.
use vstd::prelude::*;
use crate::config::PortConfig;

verus! {

/// Size of the buffer that each read fills.
pub const READ_BUFFER_LEN: usize = 1024;

/// Where a session stands.
#[derive(Debug, Clone, Copy, PartialEq, Eq, Structural)]
pub enum Phase {
    /// The port is being opened and its DTR and RTS lines set.
    Opening,
    /// The port is open and read at a fixed pace.
    Polling,
    /// Startup failed or a stop was asked for; nothing more happens.
    Stopped,
}

/// What the caller reports back after acting.
#[derive(Debug, Clone, PartialEq, Eq)]
pub enum Event {
    /// The port is open and its DTR and RTS lines are set.
    Ready,
    /// Opening the port or setting a line failed, with the reason.
    StartFailed(String),
    /// A read put this many bytes at the start of the read buffer.
    Received(usize),
    /// A read failed, with the reason.
    ReadFailed(String),
    /// The caller asks the session to end.
    StopRequested,
}

/// What the caller is to do next.
#[derive(Debug, Clone, PartialEq, Eq)]
pub enum Action {
    /// Read from the port now.
    Poll,
    /// Write these bytes to the output and flush it, sleep, then read again.
    Emit { bytes: Vec<u8>, pause_secs: u64 },
    /// Print this read error as a diagnostic, sleep, then read again.
    Report { error: String, pause_secs: u64 },
    /// Give up: the port could not be started.
    Abort { error: String },
    /// End the session on request.
    Halt,
    /// The event does not belong to the current phase; do nothing.
    Ignore,
}

/// The state of one port session.
#[derive(Debug, Clone, PartialEq, Eq)]
pub struct Session {
    pub phase: Phase,
    /// Pause between two reads, in seconds.
    pub poll_secs: u64,
}

/// The phase that an event leads to.
pub open spec fn next_phase(phase: Phase, event: Event) -> Phase {
    match event {
        Event::StopRequested => Phase::Stopped,
        Event::Ready => if phase == Phase::Opening { Phase::Polling } else { phase },
        Event::StartFailed(_) => if phase == Phase::Opening { Phase::Stopped } else { phase },
        Event::Received(_) => phase,
        Event::ReadFailed(_) => phase,
    }
}

/// Whether `a` is what a session in `phase`, pausing `pause` seconds between
/// reads, answers to `event` when the read buffer holds `buffer`.
pub open spec fn answers(a: Action, phase: Phase, pause: u64, buffer: Seq<u8>, event: Event) -> bool {
    match event {
        Event::StopRequested => a == Action::Halt,
        Event::Ready => if phase == Phase::Opening { a == Action::Poll } else { a == Action::Ignore },
        Event::StartFailed(e) => if phase == Phase::Opening {
            a == Action::Abort { error: e }
        } else {
            a == Action::Ignore
        },
        Event::Received(n) => if phase == Phase::Polling {
            a matches Action::Emit { bytes, pause_secs } && bytes@ == buffer.subrange(0, n as int)
                && pause_secs == pause
        } else {
            a == Action::Ignore
        },
        Event::ReadFailed(e) => if phase == Phase::Polling {
            a == Action::Report { error: e, pause_secs: pause }
        } else {
            a == Action::Ignore
        },
    }
}

/// Whether an event is the outcome of a read, successful or not.
pub open spec fn is_read_outcome(event: Event) -> bool {
    event is Received || event is ReadFailed
}

/// The phase reached from `phase` after the events of `events`, in order.
pub open spec fn phase_after(phase: Phase, events: Seq<Event>) -> Phase
    decreases events.len(),
{
    if events.len() == 0 {
        phase
    } else {
        phase_after(next_phase(phase, events[0]), events.drop_first())
    }
}

/// A polling session stays polling through any run of read outcomes, failed
/// reads included: only a stop request ends it.
pub proof fn lemma_reads_keep_polling(events: Seq<Event>)
    requires
        forall|i: int| 0 <= i < events.len() ==> is_read_outcome(#[trigger] events[i]),
    ensures
        phase_after(Phase::Polling, events) == Phase::Polling,
    decreases events.len(),
{
    if events.len() > 0 {
        let rest = events.drop_first();
        assert forall|i: int| 0 <= i < rest.len() implies is_read_outcome(#[trigger] rest[i]) by {
            assert(rest[i] == events[i + 1]);
        }
        assert(is_read_outcome(events[0]));
        lemma_reads_keep_polling(rest);
    }
}

/// A failed read is reported and followed by the usual pause, never by an
/// end of the session.
pub proof fn lemma_read_failure_is_reported(a: Action, pause: u64, buffer: Seq<u8>, e: String)
    requires
        answers(a, Phase::Polling, pause, buffer, Event::ReadFailed(e)),
    ensures
        a == (Action::Report { error: e, pause_secs: pause }),
        next_phase(Phase::Polling, Event::ReadFailed(e)) == Phase::Polling,
{
}

/// A successful read in a polling session emits exactly the bytes read, pauses
/// for the configured interval and leaves the session polling.
pub proof fn lemma_read_success_is_emitted(a: Action, pause: u64, buffer: Seq<u8>, n: usize)
    requires
        n <= buffer.len(),
        answers(a, Phase::Polling, pause, buffer, Event::Received(n)),
    ensures
        a matches Action::Emit { bytes, pause_secs } && bytes@ == buffer.subrange(0, n as int)
            && pause_secs == pause,
        next_phase(Phase::Polling, Event::Received(n)) == Phase::Polling,
{
}

/// A session ends only on a stop request or on a failed startup, and once
/// ended it stays ended.
pub proof fn lemma_how_sessions_end(phase: Phase, event: Event)
    ensures
        phase != Phase::Stopped && next_phase(phase, event) == Phase::Stopped ==> (event
            is StopRequested || (phase == Phase::Opening && event is StartFailed)),
        phase == Phase::Stopped ==> next_phase(phase, event) == Phase::Stopped,
{
}

/// Every answer to a read outcome pauses for exactly the configured interval,
/// so an interval of zero means polling again at once.
pub proof fn lemma_pause_is_interval(a: Action, pause: u64, buffer: Seq<u8>, event: Event)
    requires
        is_read_outcome(event),
        answers(a, Phase::Polling, pause, buffer, event),
    ensures
        a matches Action::Emit { pause_secs, .. } ==> pause_secs == pause,
        a matches Action::Report { pause_secs, .. } ==> pause_secs == pause,
        a is Emit || a is Report,
{
}

/// A zeroed buffer of `READ_BUFFER_LEN` bytes, to be reused by every read.
pub fn new_read_buffer() -> (r: Vec<u8>)
    ensures
        r@ == Seq::new(READ_BUFFER_LEN as nat, |_i: int| 0u8),
{
    let mut r: Vec<u8> = Vec::new();
    while r.len() < READ_BUFFER_LEN
        invariant
            r.len() <= READ_BUFFER_LEN,
            forall|j: int| 0 <= j < r.len() ==> r@[j] == 0u8,
        decreases READ_BUFFER_LEN - r.len(),
    {
        r.push(0u8);
    }
    assert(r@ == Seq::new(READ_BUFFER_LEN as nat, |_i: int| 0u8));
    r
}

/// A copy of the first `n` bytes of `buffer`.
fn prefix(buffer: &Vec<u8>, n: usize) -> (r: Vec<u8>)
    requires
        n <= buffer.len(),
    ensures
        r@ == buffer@.subrange(0, n as int),
{
    let mut r: Vec<u8> = Vec::new();
    let mut i: usize = 0;
    while i < n
        invariant
            i <= n,
            n <= buffer.len(),
            r@ == buffer@.subrange(0, i as int),
        decreases n - i,
    {
        r.push(buffer[i]);
        i = i + 1;
    }
    r
}

impl Session {
    /// A session for `config`, about to open its port.
    pub fn new(config: &PortConfig) -> (r: Session)
        ensures
            r.phase == Phase::Opening,
            r.poll_secs == config.poll_secs,
    {
        Session { phase: Phase::Opening, poll_secs: config.poll_secs }
    }

    /// Takes the outcome of the last action and decides the next one.
    pub fn step(&mut self, buffer: &Vec<u8>, event: Event) -> (r: Action)
        requires
            event matches Event::Received(n) ==> n <= buffer.len(),
        ensures
            final(self).poll_secs == old(self).poll_secs,
            final(self).phase == next_phase(old(self).phase, event),
            answers(r, old(self).phase, old(self).poll_secs, buffer@, event),
    {
        match event {
            Event::StopRequested => {
                self.phase = Phase::Stopped;
                Action::Halt
            },
            Event::Ready => {
                if self.phase == Phase::Opening {
                    self.phase = Phase::Polling;
                    Action::Poll
                } else {
                    Action::Ignore
                }
            },
            Event::StartFailed(error) => {
                if self.phase == Phase::Opening {
                    self.phase = Phase::Stopped;
                    Action::Abort { error }
                } else {
                    Action::Ignore
                }
            },
            Event::Received(n) => {
                if self.phase == Phase::Polling {
                    Action::Emit { bytes: prefix(buffer, n), pause_secs: self.poll_secs }
                } else {
                    Action::Ignore
                }
            },
            Event::ReadFailed(error) => {
                if self.phase == Phase::Polling {
                    Action::Report { error, pause_secs: self.poll_secs }
                } else {
                    Action::Ignore
                }
            },
        }
    }
}

} // verus!
