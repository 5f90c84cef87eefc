//! The per-connection handler, as a pure state machine.
//!
//! A handler owns one connection for one linear pass: read at most
//! [`READ_LIMIT`] bytes once (never inspecting them), write the fixed
//! response, flush, close. The runtime outside the library performs each
//! [`Action`] on the socket and hands the outcome back as an [`Event`];
//! the functions here decide what comes next, and their contracts prove that
//! the decisions never depend on what the client sent or on how any I/O
//! attempt turned out.

use vstd::prelude::*;

use crate::response::{fixed_response, response_bytes};

verus! {

/// The most bytes a handler ever asks to read from a connection.
pub const READ_LIMIT: usize = 1024;

/// Where a handler stands in its single linear pass over the connection.
#[derive(Clone, Copy, Debug, PartialEq, Eq, Structural)]
pub enum Phase {
    /// Waiting for the one read attempt to finish.
    Reading,
    /// Waiting for the one write attempt to finish.
    Writing,
    /// Waiting for the flush attempt to finish.
    Flushing,
    /// The connection is closed; nothing more happens.
    Done,
}

/// The outcome of one I/O attempt, reported back by the runtime.
///
/// A handler treats every outcome of an attempt alike: a full read, a short
/// read, a zero-byte read and a read error all lead to the same write, and
/// write or flush failures are discarded without a retry.
#[derive(Clone, Copy, Debug, PartialEq, Eq, Structural)]
pub enum Event {
    /// The read attempt returned this many bytes (possibly zero).
    ReadFinished(usize),
    /// The read attempt failed or timed out at the transport level.
    ReadFailed,
    /// The write attempt delivered the whole buffer.
    WriteFinished,
    /// The write attempt failed.
    WriteFailed,
    /// The flush attempt finished.
    FlushFinished,
    /// The flush attempt failed.
    FlushFailed,
}

/// One socket operation the runtime is asked to perform.
#[derive(Debug)]
pub enum Action {
    /// Read once into a scratch buffer of this size; the bytes are discarded.
    ReadAtMost(usize),
    /// Write this entire buffer to the connection.
    WriteAll(Vec<u8>),
    /// Flush the connection.
    Flush,
    /// Drop the connection handle.
    Close,
}

/// The mathematical shape of an [`Action`]: what it does to the byte stream.
pub enum IoStep {
    ReadAtMost(nat),
    Write(Seq<u8>),
    Flush,
    Close,
}

impl View for Action {
    type V = IoStep;

    open spec fn view(&self) -> IoStep {
        match self {
            Action::ReadAtMost(n) => IoStep::ReadAtMost(*n as nat),
            Action::WriteAll(buf) => IoStep::Write(buf@),
            Action::Flush => IoStep::Flush,
            Action::Close => IoStep::Close,
        }
    }
}

/// What a handler does next, given where it stands.
///
/// The event it just received is deliberately absent: a handler's course
/// never depends on the outcome of any I/O attempt, only on how far along
/// its linear pass it is.
pub open spec fn next_phase(phase: Phase) -> Phase {
    match phase {
        Phase::Reading => Phase::Writing,
        Phase::Writing => Phase::Flushing,
        Phase::Flushing => Phase::Done,
        Phase::Done => Phase::Done,
    }
}

/// The operation a handler requests when it reaches `phase`.
pub open spec fn action_at(phase: Phase) -> IoStep {
    match phase {
        Phase::Reading => IoStep::Write(response_bytes()),
        Phase::Writing => IoStep::Flush,
        Phase::Flushing => IoStep::Close,
        Phase::Done => IoStep::Close,
    }
}

/// Starts a handler for one accepted connection: the first and only read,
/// bounded by [`READ_LIMIT`] bytes.
pub fn handler_start() -> (r: (Phase, Action))
    ensures
        r.0 is Reading,
        r.1@ == IoStep::ReadAtMost(READ_LIMIT as nat),
{
    (Phase::Reading, Action::ReadAtMost(READ_LIMIT))
}

/// Advances a handler after one I/O attempt.
///
/// The contract holds for every event, with no precondition: whatever was
/// read (any bytes, none at all, or a transport error) the next action is to
/// write the complete fixed response, and whatever the write and flush
/// attempts returned, the handler flushes and then closes.
pub fn handler_step(phase: Phase, event: Event) -> (r: (Phase, Action))
    ensures
        r.0 == next_phase(phase),
        r.1@ == action_at(phase),
{
    match phase {
        Phase::Reading => (Phase::Writing, Action::WriteAll(fixed_response())),
        Phase::Writing => (Phase::Flushing, Action::Flush),
        Phase::Flushing => (Phase::Done, Action::Close),
        Phase::Done => (Phase::Done, Action::Close),
    }
}

/// The operations a handler requests from `phase` on, one per event received.
pub open spec fn run_from(phase: Phase, events: Seq<Event>) -> Seq<IoStep>
    decreases events.len(),
{
    if events.len() == 0 {
        Seq::empty()
    } else {
        seq![action_at(phase)] + run_from(next_phase(phase), events.drop_first())
    }
}

/// Law: a handler never reacts to what it received. Two runs fed any two
/// event sequences of the same length — different requests, a request and
/// none, successes and failures — request exactly the same operations.
pub proof fn lemma_event_independent(phase: Phase, events1: Seq<Event>, events2: Seq<Event>)
    requires
        events1.len() == events2.len(),
    ensures
        run_from(phase, events1) == run_from(phase, events2),
    decreases events1.len(),
{
    if events1.len() == 0 {
        assert(run_from(phase, events1) =~= run_from(phase, events2));
    } else {
        lemma_event_independent(next_phase(phase), events1.drop_first(), events2.drop_first());
        assert(run_from(phase, events1) =~= run_from(phase, events2));
    }
}

/// Law: after the initial read request, no step of a handler ever asks to
/// read again, so at most [`READ_LIMIT`] bytes of a request are consumed and
/// the rest is never read.
pub proof fn lemma_no_second_read(phase: Phase)
    ensures
        !(action_at(phase) is ReadAtMost),
{
}

/// Law: a complete run — the read outcome, the write outcome and the flush
/// outcome, whatever each of them was — performs exactly one write, of
/// exactly the fixed response bytes, then closes the connection.
pub proof fn lemma_complete_run(events: Seq<Event>)
    requires
        events.len() == 3,
    ensures
        run_from(Phase::Reading, events)
            == seq![IoStep::Write(response_bytes()), IoStep::Flush, IoStep::Close],
{
    let tail = events.drop_first();
    let tail2 = tail.drop_first();
    let tail3 = tail2.drop_first();
    assert(tail3.len() == 0);
    assert(run_from(Phase::Done, tail3) =~= Seq::<IoStep>::empty());
    assert(run_from(Phase::Flushing, tail2) =~= seq![IoStep::Close]);
    assert(run_from(Phase::Writing, tail) =~= seq![IoStep::Flush, IoStep::Close]);
    assert(run_from(Phase::Reading, events)
        =~= seq![IoStep::Write(response_bytes()), IoStep::Flush, IoStep::Close]);
}

/// Law: handlers cannot interfere with one another. Each run's operations
/// are a function of that handler's own progress alone, so any two
/// connections — served concurrently or not — see identical action
/// sequences, each carrying the full fixed response.
pub proof fn lemma_runs_identical(events1: Seq<Event>, events2: Seq<Event>)
    requires
        events1.len() == 3,
        events2.len() == 3,
    ensures
        run_from(Phase::Reading, events1) == run_from(Phase::Reading, events2),
{
    lemma_complete_run(events1);
    lemma_complete_run(events2);
}

} // verus!
