//! The upstream connection's serve loop: the decision core of the task that
//! owns one live backend socket and services tickets off the shared queue,
//! strictly one at a time.
//!
//! As with the downstream handler, the surrounding binary does the waiting,
//! writing and reading, and feeds observations back as a [`ServeEvent`];
//! [`serve_step`] answers with the next state and action. The queue-wait
//! timeout check, response header decoding, the response size ceiling, and
//! which sentinel resolves the ticket are all decided here.

use vstd::prelude::*;
use crate::frame::Frame;
use crate::frame::spec_decode;

verus! {

/// Microseconds a ticket may sit in the queue before the connection that
/// pulls it resolves it as timed out instead of serving it.
pub const DEFAULT_QUEUE_TIMEOUT_US: u64 = 4000;

/// Why a serve loop stopped.
#[derive(Debug, Clone, Copy, PartialEq, Eq, Structural)]
pub enum ServeExit {
    /// The shared queue is closed: a clean end, the slot retires for good.
    QueueClosed,
    /// The backend socket failed mid-request; the slot reconnects.
    SocketFailed,
    /// The backend sent a header that does not decode; the slot reconnects.
    BadResponseHeader,
    /// The backend announced a response larger than the buffer; the slot
    /// reconnects. The ticket in flight is abandoned, which its awaiting
    /// side observes as an interrupted connection.
    OversizedResponse,
}

/// Where the serve loop stands.
#[derive(Debug, Clone, Copy, PartialEq, Eq, Structural)]
pub enum ServeState {
    /// Waiting to pull the next ticket off the shared queue.
    AwaitTicket,
    /// Writing the ticket's `msg_len` buffered payload bytes to the backend.
    SendRequest { msg_len: usize },
    /// Request written; reading the 8-byte response header.
    ReadResponseHeader,
    /// Header accepted; reading `resp_len` response bytes into the ticket's
    /// buffer, over the request payload.
    ReadResponseBody { resp_len: u32 },
    /// The loop is over.
    Stopped { cause: ServeExit },
}

/// What the surrounding loop observed since the last step.
#[derive(Debug, Clone, Copy)]
pub enum ServeEvent {
    /// A ticket of `msg_len` payload bytes was pulled, `waited_us`
    /// microseconds after it was enqueued.
    TicketReceived { msg_len: usize, waited_us: u64 },
    /// The queue returned an error: it is closed and empty.
    QueueRecvFailed,
    /// The request bytes were all written to the backend.
    WriteCompleted,
    /// Writing to the backend socket failed.
    WriteFailed,
    /// Exactly 8 response header bytes were read.
    HeaderBytes { bytes: [u8; 8] },
    /// Reading from the backend socket failed.
    ReadFailed,
    /// Exactly the announced response bytes were read into the buffer.
    BodyLoaded,
}

/// What the surrounding loop must do next.
#[derive(Debug, Clone, Copy, PartialEq, Eq, Structural)]
pub enum ServeAction {
    /// Suspend until the queue yields the next ticket.
    AwaitNextTicket,
    /// Resolve the ticket with the queue-timeout sentinel without touching
    /// the socket, drop it, and await the next ticket.
    ResolveTimeoutAndSkip,
    /// Write the first `count` bytes of the ticket's buffer to the backend.
    WriteRequestBytes { req_count: usize },
    /// Read exactly 8 bytes from the backend into the ticket's buffer.
    ReadHeaderBytes,
    /// Read exactly `count` bytes from the backend into the ticket's buffer.
    ReadBodyBytes { count: u32 },
    /// Resolve the ticket with the response length and await the next one.
    ResolveAndContinue { resp_len: u32 },
    /// Resolve the ticket with the upstream-error sentinel and stop.
    FailTicketAndStop,
    /// Stop without resolving anything.
    StopServing,
}

/// The serve loop's transition function. `buffer_size` is the ceiling the
/// connection was configured with (the shared buffers' length);
/// `queue_timeout_us` is the queue-wait threshold. `None` means the machine
/// defines no transition for that state and event; in particular a ticket
/// whose recorded length exceeds the buffer has none, since no in-bounds
/// write could serve it.
pub open spec fn spec_serve_step(
    buffer_size: usize,
    queue_timeout_us: u64,
    state: ServeState,
    event: ServeEvent,
) -> Option<(ServeState, ServeAction)> {
    match (state, event) {
        (ServeState::AwaitTicket, ServeEvent::TicketReceived { msg_len, waited_us }) => {
            if waited_us > queue_timeout_us {
                Some((ServeState::AwaitTicket, ServeAction::ResolveTimeoutAndSkip))
            } else if msg_len > buffer_size {
                None
            } else {
                Some(
                    (
                        ServeState::SendRequest { msg_len },
                        ServeAction::WriteRequestBytes { req_count: msg_len },
                    ),
                )
            }
        },
        (ServeState::AwaitTicket, ServeEvent::QueueRecvFailed) => Some(
            (ServeState::Stopped { cause: ServeExit::QueueClosed }, ServeAction::StopServing),
        ),
        (ServeState::SendRequest { .. }, ServeEvent::WriteCompleted) => Some(
            (ServeState::ReadResponseHeader, ServeAction::ReadHeaderBytes),
        ),
        (ServeState::SendRequest { .. }, ServeEvent::WriteFailed) => Some(
            (ServeState::Stopped { cause: ServeExit::SocketFailed }, ServeAction::FailTicketAndStop),
        ),
        (ServeState::ReadResponseHeader, ServeEvent::HeaderBytes { bytes }) => match spec_decode(
            bytes@,
        ) {
            Err(_) => Some(
                (
                    ServeState::Stopped { cause: ServeExit::BadResponseHeader },
                    ServeAction::FailTicketAndStop,
                ),
            ),
            Ok(f) => {
                if f.msg_len > buffer_size {
                    Some(
                        (
                            ServeState::Stopped { cause: ServeExit::OversizedResponse },
                            ServeAction::StopServing,
                        ),
                    )
                } else {
                    Some(
                        (
                            ServeState::ReadResponseBody { resp_len: f.msg_len },
                            ServeAction::ReadBodyBytes { count: f.msg_len },
                        ),
                    )
                }
            },
        },
        (ServeState::ReadResponseHeader, ServeEvent::ReadFailed) => Some(
            (ServeState::Stopped { cause: ServeExit::SocketFailed }, ServeAction::FailTicketAndStop),
        ),
        (ServeState::ReadResponseBody { resp_len }, ServeEvent::BodyLoaded) => Some(
            (ServeState::AwaitTicket, ServeAction::ResolveAndContinue { resp_len }),
        ),
        (ServeState::ReadResponseBody { .. }, ServeEvent::ReadFailed) => Some(
            (ServeState::Stopped { cause: ServeExit::SocketFailed }, ServeAction::FailTicketAndStop),
        ),
        _ => None,
    }
}

/// A state the machine can be in when the shared buffers hold
/// `buffer_size` bytes.
pub open spec fn spec_serve_state_wf(buffer_size: usize, state: ServeState) -> bool {
    match state {
        ServeState::AwaitTicket => true,
        ServeState::SendRequest { msg_len } => msg_len <= buffer_size,
        ServeState::ReadResponseHeader => true,
        ServeState::ReadResponseBody { resp_len } => 0 < resp_len <= buffer_size,
        ServeState::Stopped { .. } => true,
    }
}

/// An action that never touches the ticket's buffer outside its
/// `buffer_size` bytes.
pub open spec fn spec_serve_action_wf(buffer_size: usize, action: ServeAction) -> bool {
    match action {
        ServeAction::AwaitNextTicket => true,
        ServeAction::ResolveTimeoutAndSkip => true,
        ServeAction::WriteRequestBytes { req_count } => req_count <= buffer_size,
        ServeAction::ReadHeaderBytes => buffer_size >= 8,
        ServeAction::ReadBodyBytes { count } => 0 < count <= buffer_size,
        ServeAction::ResolveAndContinue { resp_len } => 0 < resp_len <= buffer_size,
        ServeAction::FailTicketAndStop => true,
        ServeAction::StopServing => true,
    }
}

/// The state the serve loop reaches after consuming `events` in order. An
/// event with no defined transition leaves the machine where it stands (the
/// driver stops the connection at that point).
pub open spec fn spec_serve_run(
    buffer_size: usize,
    queue_timeout_us: u64,
    state: ServeState,
    events: Seq<ServeEvent>,
) -> ServeState
    decreases events.len(),
{
    if events.len() == 0 {
        state
    } else {
        match spec_serve_step(buffer_size, queue_timeout_us, state, events[0]) {
            Some((s2, _)) => spec_serve_run(
                buffer_size,
                queue_timeout_us,
                s2,
                events.drop_first(),
            ),
            None => state,
        }
    }
}

/// Law: whatever events a connection's driver observes, in whatever order,
/// a serve loop that starts well-formed only ever moves through well-formed
/// states — no reachable state records a length the shared buffers cannot
/// hold.
pub proof fn lemma_serve_states_stay_well_formed(
    buffer_size: usize,
    queue_timeout_us: u64,
    state: ServeState,
    events: Seq<ServeEvent>,
)
    requires
        buffer_size >= 8,
        spec_serve_state_wf(buffer_size, state),
    ensures
        spec_serve_state_wf(
            buffer_size,
            spec_serve_run(buffer_size, queue_timeout_us, state, events),
        ),
    decreases events.len(),
{
    if events.len() > 0 {
        match spec_serve_step(buffer_size, queue_timeout_us, state, events[0]) {
            Some((s2, _)) => {
                lemma_serve_states_stay_well_formed(
                    buffer_size,
                    queue_timeout_us,
                    s2,
                    events.drop_first(),
                );
            },
            None => {},
        }
    }
}

/// The state and first action a freshly connected serve loop starts from.
pub fn serve_start() -> (r: (ServeState, ServeAction))
    ensures
        r == (ServeState::AwaitTicket, ServeAction::AwaitNextTicket),
{
    (ServeState::AwaitTicket, ServeAction::AwaitNextTicket)
}

/// Advance the serve loop by one observed event.
///
/// Buffer safety: from a well-formed state with buffers of at least 8
/// bytes, every action this returns stays inside the buffer, and the next
/// state is well-formed again.
pub fn serve_step(
    buffer_size: usize,
    queue_timeout_us: u64,
    state: ServeState,
    event: ServeEvent,
) -> (r: Option<(ServeState, ServeAction)>)
    ensures
        r == spec_serve_step(buffer_size, queue_timeout_us, state, event),
        spec_serve_state_wf(buffer_size, state) && buffer_size >= 8 ==> (r matches Some((s2, a))
            ==> spec_serve_state_wf(buffer_size, s2) && spec_serve_action_wf(buffer_size, a)),
{
    match (state, event) {
        (ServeState::AwaitTicket, ServeEvent::TicketReceived { msg_len, waited_us }) => {
            if waited_us > queue_timeout_us {
                Some((ServeState::AwaitTicket, ServeAction::ResolveTimeoutAndSkip))
            } else if msg_len > buffer_size {
                None
            } else {
                Some(
                    (
                        ServeState::SendRequest { msg_len },
                        ServeAction::WriteRequestBytes { req_count: msg_len },
                    ),
                )
            }
        },
        (ServeState::AwaitTicket, ServeEvent::QueueRecvFailed) => Some(
            (ServeState::Stopped { cause: ServeExit::QueueClosed }, ServeAction::StopServing),
        ),
        (ServeState::SendRequest { .. }, ServeEvent::WriteCompleted) => Some(
            (ServeState::ReadResponseHeader, ServeAction::ReadHeaderBytes),
        ),
        (ServeState::SendRequest { .. }, ServeEvent::WriteFailed) => Some(
            (ServeState::Stopped { cause: ServeExit::SocketFailed }, ServeAction::FailTicketAndStop),
        ),
        (ServeState::ReadResponseHeader, ServeEvent::HeaderBytes { bytes }) => match Frame::from_bytes(
            &bytes,
        ) {
            Err(_) => Some(
                (
                    ServeState::Stopped { cause: ServeExit::BadResponseHeader },
                    ServeAction::FailTicketAndStop,
                ),
            ),
            Ok(f) => {
                if f.msg_len as usize > buffer_size {
                    Some(
                        (
                            ServeState::Stopped { cause: ServeExit::OversizedResponse },
                            ServeAction::StopServing,
                        ),
                    )
                } else {
                    Some(
                        (
                            ServeState::ReadResponseBody { resp_len: f.msg_len },
                            ServeAction::ReadBodyBytes { count: f.msg_len },
                        ),
                    )
                }
            },
        },
        (ServeState::ReadResponseHeader, ServeEvent::ReadFailed) => Some(
            (ServeState::Stopped { cause: ServeExit::SocketFailed }, ServeAction::FailTicketAndStop),
        ),
        (ServeState::ReadResponseBody { resp_len }, ServeEvent::BodyLoaded) => Some(
            (ServeState::AwaitTicket, ServeAction::ResolveAndContinue { resp_len }),
        ),
        (ServeState::ReadResponseBody { .. }, ServeEvent::ReadFailed) => Some(
            (ServeState::Stopped { cause: ServeExit::SocketFailed }, ServeAction::FailTicketAndStop),
        ),
        _ => None,
    }
}

} // verus!
