//! The frame reader: how the worker of a serial probe recovers reports from
//! the byte stream of the port.
//!
//! The reader owns no port. It is told what the port did and says what to do
//! next, so that whoever owns the port only carries out reads and signals.

use vstd::prelude::*;

use crate::controllers::b0xx::B0xxReport;
use crate::controllers::b0xx::END_BYTE;
use crate::controllers::ControllerState;
use crate::controllers::REPORT_LEN;
use crate::error::IoErrorKind;
use crate::error::SerialPortError;
use crate::error::ViewerError;
use crate::probe::ControllerMessage;

verus! {

/// Number of bytes of a healthy report on the wire, its end byte included.
pub const FRAME_LEN: usize = 25;

/// Number of bytes between the report window and the end byte.
pub const TRAILER_LEN: usize = 4;

/// What a read of one report turned out to be.
#[derive(Debug, Clone, Copy, PartialEq, Eq, Structural)]
pub enum FrameVerdict {
    /// A full report, decoded.
    Decoded(ControllerState),
    /// A read of full length whose window does not hold a report.
    Dropped,
    /// A read of any other length: the stream is out of step.
    Torn,
}

/// Where the reader stands: what it waits for.
#[derive(Debug, Clone, Copy, PartialEq, Eq, Structural)]
pub enum ReaderPhase {
    /// For the port to be opened.
    Opening,
    /// For the next single byte, on the way to the end of a report.
    Resyncing,
    /// For the port's buffers to be cleared.
    Clearing,
    /// For the read-ready signal to be set.
    Raising,
    /// For the bytes of one report.
    Reading,
    /// For the read-ready signal to be reset, the report read being held.
    Lowering(FrameVerdict),
    /// For nothing: the worker ends.
    Stopped,
}

/// What the port did.
#[derive(Debug, Clone, PartialEq, Eq)]
pub enum ReaderEvent {
    /// The operation asked for (open, clear, or set the signal) was done.
    Completed,
    /// The operation asked for (open, clear, or set the signal) failed.
    PortFailed(SerialPortError),
    /// The single byte asked for.
    Byte(u8),
    /// The bytes read for one report, up to and with the first end byte.
    Frame(Vec<u8>),
    /// The read asked for failed.
    ReadFailed(IoErrorKind),
}

/// What to do with the port next.
#[derive(Debug, Clone, Copy, PartialEq, Eq, Structural)]
pub enum ReaderAction {
    /// Open the port.
    Open,
    /// Read exactly one byte.
    ReadByte,
    /// Discard whatever the port has buffered, in both directions.
    ClearBuffers,
    /// Set the read-ready ("request to send") signal to the given level.
    SetRequestToSend(bool),
    /// Read up to and with the next end byte, `FRAME_LEN` bytes at most.
    ReadFrame,
    /// End the worker.
    Stop,
}

/// The reader's answer to an event: where it stands now, and what is to be
/// handed to the display layer.
#[derive(Debug, Clone, PartialEq, Eq)]
pub struct Transition {
    pub next: ReaderPhase,
    pub message: Option<ControllerMessage>,
}

/// `at` is the place of the first end byte in `bytes`.
pub open spec fn is_first_end(bytes: Seq<u8>, at: int) -> bool {
    &&& 0 <= at < bytes.len()
    &&& bytes[at] == END_BYTE
    &&& forall|before: int| 0 <= before < at ==> bytes[before] != END_BYTE
}

/// The report window of a read whose first end byte is at `end`: the
/// `REPORT_LEN` bytes that come `TRAILER_LEN` bytes before the end byte, or
/// as many of them as the read holds.
pub open spec fn window_before(bytes: Seq<u8>, end: int) -> Seq<u8> {
    let stop = if end >= TRAILER_LEN {
        end - TRAILER_LEN
    } else {
        0
    };
    let start = if stop >= REPORT_LEN {
        stop - REPORT_LEN
    } else {
        0
    };
    bytes.subrange(start, stop)
}

/// The report window of a read. A read without an end byte has none.
pub open spec fn window_of(bytes: Seq<u8>) -> Seq<u8> {
    if exists|at: int| is_first_end(bytes, at) {
        window_before(bytes, choose|at: int| is_first_end(bytes, at))
    } else {
        Seq::empty()
    }
}

/// What a read of one report turns out to be.
pub open spec fn verdict_of(bytes: Seq<u8>) -> FrameVerdict {
    if bytes.len() != FRAME_LEN {
        FrameVerdict::Torn
    } else {
        match B0xxReport::decode(B0xxReport::of_bytes(window_of(bytes))) {
            Ok(state) => FrameVerdict::Decoded(state),
            Err(_) => FrameVerdict::Dropped,
        }
    }
}

/// What the display layer is told when a read fails: to connect again where
/// the failure is transient, to give up where it is not.
pub open spec fn message_for(kind: IoErrorKind) -> ControllerMessage {
    if kind.spec_is_transient() {
        ControllerMessage::Reconnect
    } else {
        ControllerMessage::Quit
    }
}

/// The end of the worker, with a word to the display layer.
pub open spec fn stop_with(message: ControllerMessage) -> Transition {
    Transition { next: ReaderPhase::Stopped, message: Some(message) }
}

/// A step that tells the display layer nothing.
pub open spec fn go_to(next: ReaderPhase) -> Transition {
    Transition { next, message: None }
}

impl ReaderPhase {
    /// What the reader asks of the port in this phase.
    pub open spec fn spec_pending(self) -> ReaderAction {
        match self {
            ReaderPhase::Opening => ReaderAction::Open,
            ReaderPhase::Resyncing => ReaderAction::ReadByte,
            ReaderPhase::Clearing => ReaderAction::ClearBuffers,
            ReaderPhase::Raising => ReaderAction::SetRequestToSend(true),
            ReaderPhase::Reading => ReaderAction::ReadFrame,
            ReaderPhase::Lowering(_) => ReaderAction::SetRequestToSend(false),
            ReaderPhase::Stopped => ReaderAction::Stop,
        }
    }

    /// The reader's answer, in this phase, to an event.
    ///
    /// A port that cannot be opened, or whose signal cannot be set, ends the
    /// worker with the port's error. A failed read ends it with
    /// `message_for`. A failed clearing is reported and the worker goes on.
    /// An event that answers nothing the phase asks for ends the worker with
    /// `UnknownError`.
    pub open spec fn answer(self, event: ReaderEvent) -> Transition {
        match (self, event) {
            (ReaderPhase::Stopped, _) => go_to(ReaderPhase::Stopped),
            (ReaderPhase::Opening, ReaderEvent::Completed) => go_to(ReaderPhase::Resyncing),
            (ReaderPhase::Opening, ReaderEvent::PortFailed(e)) => stop_with(
                ControllerMessage::Error(ViewerError::SerialPortError(e)),
            ),
            (ReaderPhase::Resyncing, ReaderEvent::Byte(byte)) => if byte == END_BYTE {
                go_to(ReaderPhase::Clearing)
            } else {
                go_to(ReaderPhase::Resyncing)
            },
            (ReaderPhase::Resyncing, ReaderEvent::ReadFailed(kind)) => stop_with(message_for(kind)),
            (ReaderPhase::Clearing, ReaderEvent::Completed) => go_to(ReaderPhase::Raising),
            (ReaderPhase::Clearing, ReaderEvent::PortFailed(e)) => Transition {
                next: ReaderPhase::Raising,
                message: Some(ControllerMessage::Error(ViewerError::SerialPortError(e))),
            },
            (ReaderPhase::Raising, ReaderEvent::Completed) => go_to(ReaderPhase::Reading),
            (ReaderPhase::Raising, ReaderEvent::PortFailed(e)) => stop_with(
                ControllerMessage::Error(ViewerError::SerialPortError(e)),
            ),
            (ReaderPhase::Reading, ReaderEvent::Frame(bytes)) => go_to(
                ReaderPhase::Lowering(verdict_of(bytes@)),
            ),
            (ReaderPhase::Reading, ReaderEvent::ReadFailed(kind)) => stop_with(message_for(kind)),
            (ReaderPhase::Lowering(verdict), ReaderEvent::Completed) => match verdict {
                FrameVerdict::Decoded(state) => Transition {
                    next: ReaderPhase::Raising,
                    message: Some(ControllerMessage::State(state)),
                },
                FrameVerdict::Dropped => go_to(ReaderPhase::Raising),
                FrameVerdict::Torn => go_to(ReaderPhase::Resyncing),
            },
            (ReaderPhase::Lowering(_), ReaderEvent::PortFailed(e)) => stop_with(
                ControllerMessage::Error(ViewerError::SerialPortError(e)),
            ),
            (_, _) => stop_with(ControllerMessage::Error(ViewerError::UnknownError)),
        }
    }

    /// What the reader asks of the port in this phase.
    #[verifier::when_used_as_spec(spec_pending)]
    pub fn pending(self) -> (action: ReaderAction)
        ensures
            action == self.spec_pending(),
    {
        match self {
            ReaderPhase::Opening => ReaderAction::Open,
            ReaderPhase::Resyncing => ReaderAction::ReadByte,
            ReaderPhase::Clearing => ReaderAction::ClearBuffers,
            ReaderPhase::Raising => ReaderAction::SetRequestToSend(true),
            ReaderPhase::Reading => ReaderAction::ReadFrame,
            ReaderPhase::Lowering(_) => ReaderAction::SetRequestToSend(false),
            ReaderPhase::Stopped => ReaderAction::Stop,
        }
    }
}

/// What the display layer is told when a read fails.
pub fn read_failure_message(kind: IoErrorKind) -> (message: ControllerMessage)
    ensures
        message == message_for(kind),
{
    if kind.is_transient() {
        ControllerMessage::Reconnect
    } else {
        ControllerMessage::Quit
    }
}

/// The place of the first end byte in `bytes`, if there is one.
pub fn find_end(bytes: &Vec<u8>) -> (place: Option<usize>)
    ensures
        match place {
            Some(at) => is_first_end(bytes@, at as int),
            None => forall|at: int| !is_first_end(bytes@, at),
        },
{
    let mut at: usize = 0;
    while at < bytes.len()
        invariant
            at <= bytes.len(),
            forall|before: int| 0 <= before < at ==> bytes@[before] != END_BYTE,
        decreases bytes.len() - at,
    {
        if bytes[at] == END_BYTE {
            return Some(at);
        }
        at += 1;
    }
    None
}

/// The report window of a read, as symbols of the wire alphabet.
pub fn window_symbols(bytes: &Vec<u8>) -> (symbols: Vec<B0xxReport>)
    ensures
        symbols@ == B0xxReport::of_bytes(window_of(bytes@)),
{
    let mut symbols: Vec<B0xxReport> = Vec::new();
    let end = match find_end(bytes) {
        Some(end) => end,
        None => {
            assert(symbols@ == B0xxReport::of_bytes(Seq::<u8>::empty()));
            return symbols;
        },
    };
    proof {
        lemma_first_end_is_unique(bytes@, end as int, choose|at: int| is_first_end(bytes@, at));
    }
    let stop = if end >= TRAILER_LEN {
        end - TRAILER_LEN
    } else {
        0
    };
    let start = if stop >= REPORT_LEN {
        stop - REPORT_LEN
    } else {
        0
    };
    let ghost window = bytes@.subrange(start as int, stop as int);
    let mut at: usize = start;
    while at < stop
        invariant
            start <= at <= stop <= bytes.len(),
            window == bytes@.subrange(start as int, stop as int),
            symbols@ == B0xxReport::of_bytes(window.take(at - start)),
        decreases stop - at,
    {
        symbols.push(B0xxReport::from(bytes[at]));
        assert(symbols@ == B0xxReport::of_bytes(window.take(at + 1 - start))) by {
            assert(window[at - start] == bytes@[at as int]);
            assert(window.take(at + 1 - start) == window.take(at - start).push(window[at - start]));
        }
        at += 1;
    }
    assert(window.take(stop - start) == window);
    symbols
}

/// What a read of one report turns out to be.
pub fn frame_verdict(bytes: &Vec<u8>) -> (verdict: FrameVerdict)
    ensures
        verdict == verdict_of(bytes@),
{
    if bytes.len() != FRAME_LEN {
        return FrameVerdict::Torn;
    }
    let symbols = window_symbols(bytes);
    match ControllerState::try_from(symbols.as_slice()) {
        Ok(state) => FrameVerdict::Decoded(state),
        Err(_) => FrameVerdict::Dropped,
    }
}

/// The reader of one worker.
#[derive(Debug)]
pub struct FrameReader {
    phase: ReaderPhase,
}

impl FrameReader {
    /// Where the reader stands.
    pub closed spec fn phase(&self) -> ReaderPhase {
        self.phase
    }

    /// A reader for a port that is yet to be opened.
    pub fn new() -> (reader: FrameReader)
        ensures
            reader.phase() == ReaderPhase::Opening,
    {
        FrameReader { phase: ReaderPhase::Opening }
    }

    /// Where the reader stands.
    pub fn current_phase(&self) -> (phase: ReaderPhase)
        ensures
            phase == self.phase(),
    {
        self.phase
    }

    /// What the reader asks of the port now.
    pub fn action(&self) -> (action: ReaderAction)
        ensures
            action == self.phase().spec_pending(),
    {
        self.phase.pending()
    }

    /// Ends the worker where the display layer no longer listens, and leaves
    /// the reader as it is where it does.
    pub fn settle(&mut self, listening: bool)
        ensures
            final(self).phase() == if listening {
                old(self).phase()
            } else {
                ReaderPhase::Stopped
            },
    {
        if !listening {
            self.phase = ReaderPhase::Stopped;
        }
    }

    /// Takes what the port did, moves on, and returns what is to be handed
    /// to the display layer.
    pub fn step(&mut self, event: ReaderEvent) -> (message: Option<ControllerMessage>)
        ensures
            final(self).phase() == old(self).phase().answer(event).next,
            message == old(self).phase().answer(event).message,
    {
        let (next, message) = match self.phase {
            ReaderPhase::Stopped => (ReaderPhase::Stopped, None),
            ReaderPhase::Opening => match event {
                ReaderEvent::Completed => (ReaderPhase::Resyncing, None),
                ReaderEvent::PortFailed(e) => port_failure(e),
                _ => out_of_turn(),
            },
            ReaderPhase::Resyncing => match event {
                ReaderEvent::Byte(byte) => if byte == END_BYTE {
                    (ReaderPhase::Clearing, None)
                } else {
                    (ReaderPhase::Resyncing, None)
                },
                ReaderEvent::ReadFailed(kind) => (
                    ReaderPhase::Stopped,
                    Some(read_failure_message(kind)),
                ),
                _ => out_of_turn(),
            },
            ReaderPhase::Clearing => match event {
                ReaderEvent::Completed => (ReaderPhase::Raising, None),
                ReaderEvent::PortFailed(e) => (
                    ReaderPhase::Raising,
                    Some(ControllerMessage::Error(ViewerError::SerialPortError(e))),
                ),
                _ => out_of_turn(),
            },
            ReaderPhase::Raising => match event {
                ReaderEvent::Completed => (ReaderPhase::Reading, None),
                ReaderEvent::PortFailed(e) => port_failure(e),
                _ => out_of_turn(),
            },
            ReaderPhase::Reading => match event {
                ReaderEvent::Frame(bytes) => (ReaderPhase::Lowering(frame_verdict(&bytes)), None),
                ReaderEvent::ReadFailed(kind) => (
                    ReaderPhase::Stopped,
                    Some(read_failure_message(kind)),
                ),
                _ => out_of_turn(),
            },
            ReaderPhase::Lowering(verdict) => match event {
                ReaderEvent::Completed => match verdict {
                    FrameVerdict::Decoded(state) => (
                        ReaderPhase::Raising,
                        Some(ControllerMessage::State(state)),
                    ),
                    FrameVerdict::Dropped => (ReaderPhase::Raising, None),
                    FrameVerdict::Torn => (ReaderPhase::Resyncing, None),
                },
                ReaderEvent::PortFailed(e) => port_failure(e),
                _ => out_of_turn(),
            },
        };
        self.phase = next;
        message
    }
}

/// The end of the worker on a failure of the port.
fn port_failure(e: SerialPortError) -> (end: (ReaderPhase, Option<ControllerMessage>))
    ensures
        end.0 == ReaderPhase::Stopped,
        end.1 == Some(ControllerMessage::Error(ViewerError::SerialPortError(e))),
{
    (ReaderPhase::Stopped, Some(ControllerMessage::Error(ViewerError::SerialPortError(e))))
}

/// The end of the worker on an event that answers nothing it asked for.
fn out_of_turn() -> (end: (ReaderPhase, Option<ControllerMessage>))
    ensures
        end.0 == ReaderPhase::Stopped,
        end.1 == Some(ControllerMessage::Error(ViewerError::UnknownError)),
{
    (ReaderPhase::Stopped, Some(ControllerMessage::Error(ViewerError::UnknownError)))
}

/// A read has one first end byte at most.
pub proof fn lemma_first_end_is_unique(bytes: Seq<u8>, at: int, other: int)
    requires
        is_first_end(bytes, at),
        is_first_end(bytes, other),
    ensures
        at == other,
{
    if at < other {
        assert(bytes[at] != END_BYTE);
    } else if other < at {
        assert(bytes[other] != END_BYTE);
    }
}

/// A read of full length holds a report exactly when its only end byte is
/// its last byte. The report is then what the first `REPORT_LEN` bytes say,
/// whatever the trailer holds; every other read of full length is dropped.
pub proof fn lemma_full_read(bytes: Seq<u8>)
    requires
        bytes.len() == FRAME_LEN,
    ensures
        is_first_end(bytes, FRAME_LEN - 1) ==> verdict_of(bytes) == FrameVerdict::Decoded(
            ControllerState::from_flags(
                B0xxReport::flags_of(B0xxReport::of_bytes(bytes.take(REPORT_LEN as int))),
            ),
        ),
        !is_first_end(bytes, FRAME_LEN - 1) ==> verdict_of(bytes) == FrameVerdict::Dropped,
{
    let last = FRAME_LEN - 1;
    if exists|at: int| is_first_end(bytes, at) {
        let at = choose|at: int| is_first_end(bytes, at);
        if is_first_end(bytes, last) {
            lemma_first_end_is_unique(bytes, at, last);
            assert(window_of(bytes) == bytes.take(REPORT_LEN as int));
        } else {
            assert(at < last);
            assert(window_of(bytes).len() < REPORT_LEN);
        }
    } else {
        assert(window_of(bytes).len() == 0);
    }
}

/// In a decoded report each control is held exactly when its byte on the
/// wire is the byte for a held control.
pub proof fn lemma_report_follows_bytes(bytes: Seq<u8>, n: int)
    requires
        bytes.len() == FRAME_LEN,
        is_first_end(bytes, FRAME_LEN - 1),
        0 <= n < REPORT_LEN,
    ensures
        verdict_of(bytes) matches FrameVerdict::Decoded(state) && state.flags()[n] == (bytes[n]
            == crate::controllers::b0xx::ON_BYTE),
{
    lemma_full_read(bytes);
    let flags = B0xxReport::flags_of(B0xxReport::of_bytes(bytes.take(REPORT_LEN as int)));
    ControllerState::lemma_flags_of_state(flags.take(REPORT_LEN as int));
    assert(flags.take(REPORT_LEN as int) == flags);
}

/// A read that is not of full length is never decoded: the reader tells the
/// display layer nothing and goes for the end of the report byte by byte.
pub proof fn lemma_torn_read_resyncs(bytes: Vec<u8>)
    requires
        bytes@.len() != FRAME_LEN,
    ensures
        ReaderPhase::Reading.answer(ReaderEvent::Frame(bytes)) == go_to(
            ReaderPhase::Lowering(FrameVerdict::Torn),
        ),
        ReaderPhase::Lowering(FrameVerdict::Torn).answer(ReaderEvent::Completed) == go_to(
            ReaderPhase::Resyncing,
        ),
        ReaderPhase::Resyncing.spec_pending() == ReaderAction::ReadByte,
{
}

/// Resynchronization reads on until the end byte, then has the port's
/// buffers cleared, then reads reports again.
pub proof fn lemma_resync_ends_at_end_byte(byte: u8)
    ensures
        ReaderPhase::Resyncing.answer(ReaderEvent::Byte(byte)) == go_to(
            if byte == END_BYTE {
                ReaderPhase::Clearing
            } else {
                ReaderPhase::Resyncing
            },
        ),
        ReaderPhase::Clearing.spec_pending() == ReaderAction::ClearBuffers,
        ReaderPhase::Clearing.answer(ReaderEvent::Completed) == go_to(ReaderPhase::Raising),
{
}

/// The display layer gets a snapshot only for a read that was decoded, and
/// only when the read-ready signal has been reset after it.
pub proof fn lemma_state_comes_from_report(phase: ReaderPhase, event: ReaderEvent, state: ControllerState)
    requires
        phase.answer(event).message == Some(ControllerMessage::State(state)),
    ensures
        phase == ReaderPhase::Lowering(FrameVerdict::Decoded(state)),
        event == ReaderEvent::Completed,
{
}

/// A failed read ends the worker. The display layer is told to connect
/// again exactly when the failure is a timeout or a broken connection, and
/// to give up on every other failure.
pub proof fn lemma_read_failure_ends_worker(phase: ReaderPhase, kind: IoErrorKind)
    requires
        phase == ReaderPhase::Resyncing || phase == ReaderPhase::Reading,
    ensures
        phase.answer(ReaderEvent::ReadFailed(kind)).next == ReaderPhase::Stopped,
        (kind == IoErrorKind::TimedOut || kind == IoErrorKind::BrokenPipe) <==> phase.answer(
            ReaderEvent::ReadFailed(kind),
        ).message == Some(ControllerMessage::Reconnect),
        !(kind == IoErrorKind::TimedOut || kind == IoErrorKind::BrokenPipe) <==> phase.answer(
            ReaderEvent::ReadFailed(kind),
        ).message == Some(ControllerMessage::Quit),
{
}

/// Where the reader stands after a run of events, taken in order.
pub open spec fn phase_after(phase: ReaderPhase, events: Seq<ReaderEvent>) -> ReaderPhase
    decreases events.len(),
{
    if events.len() == 0 {
        phase
    } else {
        phase_after(phase.answer(events[0]).next, events.skip(1))
    }
}

/// What the display layer is handed over a run of events, in order.
pub open spec fn messages_over(phase: ReaderPhase, events: Seq<ReaderEvent>) -> Seq<
    ControllerMessage,
>
    decreases events.len(),
{
    if events.len() == 0 {
        Seq::empty()
    } else {
        let first = phase.answer(events[0]);
        let rest = messages_over(first.next, events.skip(1));
        match first.message {
            Some(message) => seq![message] + rest,
            None => rest,
        }
    }
}

/// The event is a read that was decoded to `state`.
pub open spec fn reads_report(event: ReaderEvent, state: ControllerState) -> bool {
    match event {
        ReaderEvent::Frame(bytes) => verdict_of(bytes@) == FrameVerdict::Decoded(state),
        _ => false,
    }
}

/// The event is a read of full length whose only end byte is its last byte,
/// and whose first `REPORT_LEN` bytes say `state`.
pub open spec fn reads_full_report(event: ReaderEvent, state: ControllerState) -> bool {
    match event {
        ReaderEvent::Frame(bytes) => {
            &&& bytes@.len() == FRAME_LEN
            &&& is_first_end(bytes@, FRAME_LEN - 1)
            &&& state == ControllerState::from_flags(
                B0xxReport::flags_of(B0xxReport::of_bytes(bytes@.take(REPORT_LEN as int))),
            )
        },
        _ => false,
    }
}

/// Some event of the run is a read that was decoded to `state`.
pub open spec fn has_report(events: Seq<ReaderEvent>, state: ControllerState) -> bool {
    exists|i: int| 0 <= i < events.len() && reads_report(#[trigger] events[i], state)
}

/// Over any run of events, from any phase, a snapshot that the display layer
/// is handed is the report of a read of the run, or the report that the
/// reader held when the run began.
pub proof fn lemma_states_are_reports(
    phase: ReaderPhase,
    events: Seq<ReaderEvent>,
    state: ControllerState,
)
    requires
        messages_over(phase, events).contains(ControllerMessage::State(state)),
    ensures
        phase == ReaderPhase::Lowering(FrameVerdict::Decoded(state)) || has_report(events, state),
    decreases events.len(),
{
    let wanted = ControllerMessage::State(state);
    if events.len() > 0 {
        let first = phase.answer(events[0]);
        let rest = messages_over(first.next, events.skip(1));
        let sent = messages_over(phase, events);
        let at = choose|at: int| 0 <= at < sent.len() && sent[at] == wanted;
        let in_rest = match first.message {
            Some(message) => {
                if at == 0 {
                    lemma_state_comes_from_report(phase, events[0], state);
                    false
                } else {
                    assert(rest[at - 1] == wanted);
                    true
                }
            },
            None => {
                assert(rest[at] == wanted);
                true
            },
        };
        if in_rest {
            lemma_states_are_reports(first.next, events.skip(1), state);
            if has_report(events.skip(1), state) {
                let i = choose|i: int|
                    0 <= i < events.skip(1).len() && reads_report(
                        #[trigger] events.skip(1)[i],
                        state,
                    );
                assert(reads_report(events[i + 1], state));
            } else {
                // The reader came to hold the report by the first event.
                assert(reads_report(events[0], state));
            }
        }
    }
}

/// From the start of a worker on, every snapshot that the display layer is
/// handed is the report of a read of full length whose only end byte is its
/// last byte: no read that is torn, and no part of a read, is ever shown.
pub proof fn lemma_only_full_reports_are_shown(events: Seq<ReaderEvent>, state: ControllerState)
    requires
        messages_over(ReaderPhase::Opening, events).contains(ControllerMessage::State(state)),
    ensures
        exists|i: int| 0 <= i < events.len() && reads_full_report(#[trigger] events[i], state),
{
    lemma_states_are_reports(ReaderPhase::Opening, events, state);
    let i = choose|i: int| 0 <= i < events.len() && reads_report(#[trigger] events[i], state);
    match events[i] {
        ReaderEvent::Frame(bytes) => {
            lemma_full_read(bytes@);
        },
        _ => {},
    }
    assert(reads_full_report(events[i], state));
}

/// Once a worker has ended, the display layer is handed nothing more.
pub proof fn lemma_nothing_after_the_end(events: Seq<ReaderEvent>)
    ensures
        messages_over(ReaderPhase::Stopped, events) == Seq::<ControllerMessage>::empty(),
        phase_after(ReaderPhase::Stopped, events) == ReaderPhase::Stopped,
    decreases events.len(),
{
    if events.len() > 0 {
        lemma_nothing_after_the_end(events.skip(1));
    }
}

/// A worker that has ended stays ended and says nothing more.
pub proof fn lemma_stopped_is_final(event: ReaderEvent)
    ensures
        ReaderPhase::Stopped.answer(event) == go_to(ReaderPhase::Stopped),
        ReaderPhase::Stopped.spec_pending() == ReaderAction::Stop,
{
}

} // verus!
