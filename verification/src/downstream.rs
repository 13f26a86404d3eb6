//! The downstream connection handler: the decision core of the loop that
//! serves one accepted client socket.
//!
//! The handler is a state machine. The surrounding binary performs the
//! socket reads and writes and the pool calls, and feeds what it observed
//! back as a [`HandlerEvent`]; [`handler_step`] answers with the next state
//! and the next action to perform. All protocol decisions — header
//! decoding, the size ceiling, when a connection terminates and with what
//! outcome — are made here.

use vstd::prelude::*;
use crate::errors::LbError;
use crate::frame::Frame;
use crate::frame::spec_decode;

verus! {

/// Why a handler's connection ended.
#[derive(Debug, Clone, Copy, PartialEq, Eq, Structural)]
pub enum Termination {
    /// The client closed the connection at a header boundary: a normal
    /// disconnect, not an error.
    Disconnected,
    /// The client socket itself failed (or closed mid-message).
    SocketFailed,
    /// A protocol, size, or upstream failure; the kind says which.
    Failed(LbError),
}

/// Where the handler stands in serving one client connection.
#[derive(Debug, Clone, Copy, PartialEq, Eq, Structural)]
pub enum HandlerState {
    /// Waiting for the next 8-byte request header.
    ReadHeader,
    /// Header accepted; reading `msg_len` payload bytes into the buffer.
    ReadPayload { msg_len: u32 },
    /// Payload loaded; handing the buffer and length to the pool.
    Dispatch { msg_len: u32 },
    /// Ticket enqueued; waiting for its completion signal.
    AwaitResponse { msg_len: u32 },
    /// Response of `resp_len` bytes sits in the buffer; writing it back.
    WriteResponse { resp_len: usize },
    /// The connection is over.
    Closed { outcome: Termination },
}

/// What the surrounding loop observed since the last step.
#[derive(Debug, Clone, Copy)]
pub enum HandlerEvent {
    /// Exactly 8 header bytes were read.
    HeaderBytes { bytes: [u8; 8] },
    /// The client closed the connection where a header was expected.
    Disconnected,
    /// A socket read or write failed (or the client closed mid-message).
    IoFailed,
    /// Exactly the requested payload bytes were read into the buffer.
    PayloadLoaded,
    /// The ticket was accepted onto the pool's queue.
    TicketEnqueued,
    /// The pool's queue refused the ticket: the pool has shut down.
    EnqueueRefused,
    /// The ticket resolved: a `resp_len`-byte response sits in the buffer.
    Resolved { resp_len: usize },
    /// The ticket resolved with a failure.
    RequestFailed { err: LbError },
    /// The response bytes were written back to the client.
    ResponseWritten,
}

/// What the surrounding loop must do next.
#[derive(Debug, Clone, Copy, PartialEq, Eq, Structural)]
pub enum HandlerAction {
    /// Read exactly 8 bytes into the front of the buffer.
    ReadHeaderBytes,
    /// Read exactly `count` bytes into the front of the buffer.
    ReadPayloadBytes { count: u32 },
    /// Hand the buffer and `count` to the pool as one ticket.
    EnqueueTicket { count: u32 },
    /// Suspend until the ticket's completion signal fires.
    AwaitCompletion,
    /// Write exactly the first `count` buffer bytes back to the client.
    WriteResponseBytes { resp_count: usize },
    /// Close the client connection.
    CloseConnection,
}

/// The handler's transition function. `None` means the machine defines no
/// transition for that state and event: a correctly driven handler never
/// reaches such a pair, and a driver that does must close the connection.
pub open spec fn spec_handler_step(
    max_message_length: usize,
    state: HandlerState,
    event: HandlerEvent,
) -> Option<(HandlerState, HandlerAction)> {
    match (state, event) {
        (HandlerState::ReadHeader, HandlerEvent::HeaderBytes { bytes }) => match spec_decode(
            bytes@,
        ) {
            Err(e) => Some(
                (
                    HandlerState::Closed { outcome: Termination::Failed(LbError::Protocol(e)) },
                    HandlerAction::CloseConnection,
                ),
            ),
            Ok(f) => {
                if f.msg_len > max_message_length {
                    Some(
                        (
                            HandlerState::Closed {
                                outcome: Termination::Failed(LbError::OversizedPayload),
                            },
                            HandlerAction::CloseConnection,
                        ),
                    )
                } else {
                    Some(
                        (
                            HandlerState::ReadPayload { msg_len: f.msg_len },
                            HandlerAction::ReadPayloadBytes { count: f.msg_len },
                        ),
                    )
                }
            },
        },
        (HandlerState::ReadHeader, HandlerEvent::Disconnected) => Some(
            (
                HandlerState::Closed { outcome: Termination::Disconnected },
                HandlerAction::CloseConnection,
            ),
        ),
        (HandlerState::ReadHeader, HandlerEvent::IoFailed) => Some(
            (
                HandlerState::Closed { outcome: Termination::SocketFailed },
                HandlerAction::CloseConnection,
            ),
        ),
        (HandlerState::ReadPayload { msg_len }, HandlerEvent::PayloadLoaded) => Some(
            (HandlerState::Dispatch { msg_len }, HandlerAction::EnqueueTicket { count: msg_len }),
        ),
        (HandlerState::ReadPayload { .. }, HandlerEvent::IoFailed) => Some(
            (
                HandlerState::Closed { outcome: Termination::SocketFailed },
                HandlerAction::CloseConnection,
            ),
        ),
        (HandlerState::ReadPayload { .. }, HandlerEvent::Disconnected) => Some(
            (
                HandlerState::Closed { outcome: Termination::SocketFailed },
                HandlerAction::CloseConnection,
            ),
        ),
        (HandlerState::Dispatch { msg_len }, HandlerEvent::TicketEnqueued) => Some(
            (HandlerState::AwaitResponse { msg_len }, HandlerAction::AwaitCompletion),
        ),
        (HandlerState::Dispatch { .. }, HandlerEvent::EnqueueRefused) => Some(
            (
                HandlerState::Closed { outcome: Termination::Failed(LbError::QueueClosed) },
                HandlerAction::CloseConnection,
            ),
        ),
        (HandlerState::AwaitResponse { .. }, HandlerEvent::Resolved { resp_len }) => {
            if resp_len <= max_message_length {
                Some(
                    (
                        HandlerState::WriteResponse { resp_len },
                        HandlerAction::WriteResponseBytes { resp_count: resp_len },
                    ),
                )
            } else {
                None
            }
        },
        (HandlerState::AwaitResponse { .. }, HandlerEvent::RequestFailed { err }) => Some(
            (
                HandlerState::Closed { outcome: Termination::Failed(err) },
                HandlerAction::CloseConnection,
            ),
        ),
        (HandlerState::WriteResponse { .. }, HandlerEvent::ResponseWritten) => Some(
            (HandlerState::ReadHeader, HandlerAction::ReadHeaderBytes),
        ),
        (HandlerState::WriteResponse { .. }, HandlerEvent::IoFailed) => Some(
            (
                HandlerState::Closed { outcome: Termination::SocketFailed },
                HandlerAction::CloseConnection,
            ),
        ),
        _ => None,
    }
}

/// A state the machine can actually be in when the buffer holds
/// `max_message_length` bytes: every recorded length fits the buffer, and a
/// request in flight is never empty.
pub open spec fn spec_handler_state_wf(max_message_length: usize, state: HandlerState) -> bool {
    match state {
        HandlerState::ReadHeader => true,
        HandlerState::ReadPayload { msg_len } => 0 < msg_len <= max_message_length,
        HandlerState::Dispatch { msg_len } => 0 < msg_len <= max_message_length,
        HandlerState::AwaitResponse { msg_len } => 0 < msg_len <= max_message_length,
        HandlerState::WriteResponse { resp_len } => resp_len <= max_message_length,
        HandlerState::Closed { .. } => true,
    }
}

/// An action that never touches the buffer outside its
/// `max_message_length` bytes.
pub open spec fn spec_handler_action_wf(max_message_length: usize, action: HandlerAction) -> bool {
    match action {
        HandlerAction::ReadHeaderBytes => max_message_length >= 8,
        HandlerAction::ReadPayloadBytes { count } => 0 < count <= max_message_length,
        HandlerAction::EnqueueTicket { count } => 0 < count <= max_message_length,
        HandlerAction::AwaitCompletion => true,
        HandlerAction::WriteResponseBytes { resp_count } => resp_count <= max_message_length,
        HandlerAction::CloseConnection => true,
    }
}

/// The state and first action a fresh connection's handler starts from.
pub fn handler_start() -> (r: (HandlerState, HandlerAction))
    ensures
        r == (HandlerState::ReadHeader, HandlerAction::ReadHeaderBytes),
{
    (HandlerState::ReadHeader, HandlerAction::ReadHeaderBytes)
}

/// Advance the handler by one observed event.
///
/// Buffer safety: from a well-formed state with a buffer of at least 8
/// bytes, every action this returns stays inside the buffer, and the next
/// state is well-formed again.
pub fn handler_step(max_message_length: usize, state: HandlerState, event: HandlerEvent) -> (r:
    Option<(HandlerState, HandlerAction)>)
    ensures
        r == spec_handler_step(max_message_length, state, event),
        spec_handler_state_wf(max_message_length, state) && max_message_length >= 8 ==> (r matches
            Some((s2, a)) ==> spec_handler_state_wf(max_message_length, s2)
            && spec_handler_action_wf(max_message_length, a)),
{
    match (state, event) {
        (HandlerState::ReadHeader, HandlerEvent::HeaderBytes { bytes }) => match Frame::from_bytes(
            &bytes,
        ) {
            Err(e) => Some(
                (
                    HandlerState::Closed { outcome: Termination::Failed(LbError::Protocol(e)) },
                    HandlerAction::CloseConnection,
                ),
            ),
            Ok(f) => {
                if f.msg_len as usize > max_message_length {
                    Some(
                        (
                            HandlerState::Closed {
                                outcome: Termination::Failed(LbError::OversizedPayload),
                            },
                            HandlerAction::CloseConnection,
                        ),
                    )
                } else {
                    Some(
                        (
                            HandlerState::ReadPayload { msg_len: f.msg_len },
                            HandlerAction::ReadPayloadBytes { count: f.msg_len },
                        ),
                    )
                }
            },
        },
        (HandlerState::ReadHeader, HandlerEvent::Disconnected) => Some(
            (
                HandlerState::Closed { outcome: Termination::Disconnected },
                HandlerAction::CloseConnection,
            ),
        ),
        (HandlerState::ReadHeader, HandlerEvent::IoFailed) => Some(
            (
                HandlerState::Closed { outcome: Termination::SocketFailed },
                HandlerAction::CloseConnection,
            ),
        ),
        (HandlerState::ReadPayload { msg_len }, HandlerEvent::PayloadLoaded) => Some(
            (HandlerState::Dispatch { msg_len }, HandlerAction::EnqueueTicket { count: msg_len }),
        ),
        (HandlerState::ReadPayload { .. }, HandlerEvent::IoFailed) => Some(
            (
                HandlerState::Closed { outcome: Termination::SocketFailed },
                HandlerAction::CloseConnection,
            ),
        ),
        (HandlerState::ReadPayload { .. }, HandlerEvent::Disconnected) => Some(
            (
                HandlerState::Closed { outcome: Termination::SocketFailed },
                HandlerAction::CloseConnection,
            ),
        ),
        (HandlerState::Dispatch { msg_len }, HandlerEvent::TicketEnqueued) => Some(
            (HandlerState::AwaitResponse { msg_len }, HandlerAction::AwaitCompletion),
        ),
        (HandlerState::Dispatch { .. }, HandlerEvent::EnqueueRefused) => Some(
            (
                HandlerState::Closed { outcome: Termination::Failed(LbError::QueueClosed) },
                HandlerAction::CloseConnection,
            ),
        ),
        (HandlerState::AwaitResponse { .. }, HandlerEvent::Resolved { resp_len }) => {
            if resp_len <= max_message_length {
                Some(
                    (
                        HandlerState::WriteResponse { resp_len },
                        HandlerAction::WriteResponseBytes { resp_count: resp_len },
                    ),
                )
            } else {
                None
            }
        },
        (HandlerState::AwaitResponse { .. }, HandlerEvent::RequestFailed { err }) => Some(
            (
                HandlerState::Closed { outcome: Termination::Failed(err) },
                HandlerAction::CloseConnection,
            ),
        ),
        (HandlerState::WriteResponse { .. }, HandlerEvent::ResponseWritten) => Some(
            (HandlerState::ReadHeader, HandlerAction::ReadHeaderBytes),
        ),
        (HandlerState::WriteResponse { .. }, HandlerEvent::IoFailed) => Some(
            (
                HandlerState::Closed { outcome: Termination::SocketFailed },
                HandlerAction::CloseConnection,
            ),
        ),
        _ => None,
    }
}

/// The state the handler reaches after consuming `events` in order. An
/// event with no defined transition leaves the machine where it stands (the
/// driver closes the connection at that point).
pub open spec fn spec_handler_run(
    max_message_length: usize,
    state: HandlerState,
    events: Seq<HandlerEvent>,
) -> HandlerState
    decreases events.len(),
{
    if events.len() == 0 {
        state
    } else {
        match spec_handler_step(max_message_length, state, events[0]) {
            Some((s2, _)) => spec_handler_run(max_message_length, s2, events.drop_first()),
            None => state,
        }
    }
}

/// Law: whatever events a connection's driver observes, in whatever order,
/// a handler that starts well-formed only ever moves through well-formed
/// states — no reachable state records a length its buffer cannot hold.
pub proof fn lemma_handler_states_stay_well_formed(
    max_message_length: usize,
    state: HandlerState,
    events: Seq<HandlerEvent>,
)
    requires
        max_message_length >= 8,
        spec_handler_state_wf(max_message_length, state),
    ensures
        spec_handler_state_wf(
            max_message_length,
            spec_handler_run(max_message_length, state, events),
        ),
    decreases events.len(),
{
    if events.len() > 0 {
        match spec_handler_step(max_message_length, state, events[0]) {
            Some((s2, _)) => {
                lemma_handler_states_stay_well_formed(max_message_length, s2, events.drop_first());
            },
            None => {},
        }
    }
}

/// Law: a request announcing more payload than the configured maximum
/// closes that client's connection with the oversized-payload outcome —
/// and, the handler being one connection's private machine, touches no
/// other state.
pub proof fn lemma_oversized_request_closes(max_message_length: usize, bytes: [u8; 8])
    requires
        spec_decode(bytes@) is Ok,
        spec_decode(bytes@)->Ok_0.msg_len > max_message_length,
    ensures
        spec_handler_step(
            max_message_length,
            HandlerState::ReadHeader,
            HandlerEvent::HeaderBytes { bytes },
        ) == Some(
            (
                HandlerState::Closed { outcome: Termination::Failed(LbError::OversizedPayload) },
                HandlerAction::CloseConnection,
            ),
        ),
{
}

} // verus!
