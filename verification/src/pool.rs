//! The upstream pool's decision logic: how a ticket's single-use completion
//! signal is encoded and resolved, and how a connection slot supervises
//! reconnection with backoff.
//!
//! The pool itself — the shared unbounded queue, the spawned slot tasks —
//! lives in the surrounding binary. One slot task exists per configured
//! backend host and connection index; each runs its connect/serve loop by
//! driving [`slot_step`], and each enqueue-and-await caller maps what came
//! back over the completion channel through [`resolve_completion`].

use vstd::prelude::*;
use crate::downstream::HandlerAction;
use crate::downstream::HandlerEvent;
use crate::downstream::HandlerState;
use crate::downstream::spec_handler_step;
use crate::errors::LbError;
use crate::frame::spec_decode;
use crate::upstream::ServeAction;
use crate::upstream::ServeEvent;
use crate::upstream::ServeExit;
use crate::upstream::ServeState;
use crate::upstream::spec_serve_step;

verus! {

/// Completion value meaning the ticket waited too long in the queue.
pub const QUEUE_TIMEOUT_SENTINEL: i64 = -2;

/// Completion value meaning the backend round-trip failed.
pub const UPSTREAM_ERROR_SENTINEL: i64 = -1;

/// Longest a slot sleeps between two connection attempts, in seconds.
pub const MAX_BACKOFF_SECS: u64 = 60;

/// The completion value a serve-loop action instructs its driver to send on
/// the ticket's single-use channel: a non-negative response length, one of
/// the two negative sentinels, or nothing at all.
pub open spec fn spec_completion_value(action: ServeAction) -> Option<i64> {
    match action {
        ServeAction::ResolveTimeoutAndSkip => Some(QUEUE_TIMEOUT_SENTINEL),
        ServeAction::FailTicketAndStop => Some(UPSTREAM_ERROR_SENTINEL),
        ServeAction::ResolveAndContinue { resp_len } => Some(resp_len as i64),
        _ => None,
    }
}

/// See [`spec_completion_value`]. A response length is always delivered
/// non-negative, and the two failure sentinels are the only negative values
/// ever sent.
pub fn completion_value(action: &ServeAction) -> (r: Option<i64>)
    ensures
        r == spec_completion_value(*action),
        r matches Some(n) ==> (n < 0 ==> n == QUEUE_TIMEOUT_SENTINEL || n
            == UPSTREAM_ERROR_SENTINEL),
{
    match action {
        ServeAction::ResolveTimeoutAndSkip => Some(QUEUE_TIMEOUT_SENTINEL),
        ServeAction::FailTicketAndStop => Some(UPSTREAM_ERROR_SENTINEL),
        ServeAction::ResolveAndContinue { resp_len } => Some(*resp_len as i64),
        _ => None,
    }
}

/// What an enqueue-and-await caller concludes from its completion channel:
/// `received` is the value delivered, or `None` if the channel was dropped
/// before resolving.
pub open spec fn spec_resolve_completion(received: Option<i64>) -> Result<usize, LbError>
    recommends
        received matches Some(n) ==> n <= usize::MAX,
{
    match received {
        None => Err(LbError::ConnectionInterrupted),
        Some(n) => {
            if n == QUEUE_TIMEOUT_SENTINEL {
                Err(LbError::QueueTimeout)
            } else if n < 0 {
                Err(LbError::UpstreamIo)
            } else {
                Ok(n as usize)
            }
        },
    }
}

/// Map a completion-channel outcome to the caller's result: an abandoned
/// channel is a distinct failure from either sentinel, and a non-negative
/// value is the length of the response now sitting in the shared buffer.
pub fn resolve_completion(received: Option<i64>) -> (r: Result<usize, LbError>)
    requires
        received matches Some(n) ==> n <= usize::MAX,
    ensures
        r == spec_resolve_completion(received),
        received is None <==> r == Err::<usize, LbError>(LbError::ConnectionInterrupted),
        received == Some(QUEUE_TIMEOUT_SENTINEL) <==> r == Err::<usize, LbError>(
            LbError::QueueTimeout,
        ),
        r matches Ok(len) ==> received == Some(len as i64),
{
    match received {
        None => Err(LbError::ConnectionInterrupted),
        Some(n) => {
            if n == QUEUE_TIMEOUT_SENTINEL {
                Err(LbError::QueueTimeout)
            } else if n < 0 {
                Err(LbError::UpstreamIo)
            } else {
                Ok(n as usize)
            }
        },
    }
}

/// Where one connection slot (one backend host, one connection index)
/// stands in its supervise loop.
#[derive(Debug, Clone, Copy, PartialEq, Eq, Structural)]
pub enum SlotState {
    /// No live socket; `try_num` connection attempts have failed since the
    /// last success. The counter saturates at `MAX_BACKOFF_SECS`, past
    /// which every further failure backs off the same.
    Connecting { try_num: u64 },
    /// A socket is live and its serve loop is running.
    Serving,
    /// The queue closed and the serve loop ended cleanly; the slot is done
    /// for good.
    Retired,
}

/// What the slot's supervise loop observed.
#[derive(Debug, Clone, Copy, PartialEq, Eq, Structural)]
pub enum SlotEvent {
    /// The connection attempt failed.
    ConnectFailed,
    /// The connection attempt produced a live socket.
    Connected,
    /// The serve loop stopped; `clean` is true exactly when it stopped
    /// because the queue closed.
    ServeStopped { clean: bool },
}

/// What the slot's supervise loop must do next.
#[derive(Debug, Clone, Copy, PartialEq, Eq, Structural)]
pub enum SlotAction {
    /// Sleep `secs` seconds, then attempt to connect again.
    SleepThenReconnect { secs: u64 },
    /// Enter the serve loop on the fresh socket.
    RunServeLoop,
    /// Attempt to connect again at once.
    Reconnect,
    /// Stop supervising; the slot terminates permanently.
    Retire,
}

/// The backoff a slot applies after its next connection failure: linear in
/// the number of consecutive failures, capped at `MAX_BACKOFF_SECS`.
pub open spec fn spec_backoff_secs(try_num: u64) -> u64 {
    if try_num + 1 < MAX_BACKOFF_SECS {
        (try_num + 1) as u64
    } else {
        MAX_BACKOFF_SECS
    }
}

/// The slot supervise loop's transition function. Retries are unbounded: a
/// connecting slot that fails again always retries, only ever more slowly.
pub open spec fn spec_slot_step(state: SlotState, event: SlotEvent) -> Option<
    (SlotState, SlotAction),
> {
    match (state, event) {
        (SlotState::Connecting { try_num }, SlotEvent::ConnectFailed) => {
            let t2 = spec_backoff_secs(try_num);
            Some((SlotState::Connecting { try_num: t2 }, SlotAction::SleepThenReconnect { secs: t2 }))
        },
        (SlotState::Connecting { .. }, SlotEvent::Connected) => Some(
            (SlotState::Serving, SlotAction::RunServeLoop),
        ),
        (SlotState::Serving, SlotEvent::ServeStopped { clean }) => {
            if clean {
                Some((SlotState::Retired, SlotAction::Retire))
            } else {
                Some((SlotState::Connecting { try_num: 0 }, SlotAction::Reconnect))
            }
        },
        _ => None,
    }
}

/// Advance a slot's supervise loop by one observed event. A successful
/// connection resets the failure counter; a serve loop that ends on a
/// socket error sends the slot straight back to connecting; only a closed
/// queue retires it.
pub fn slot_step(state: SlotState, event: SlotEvent) -> (r: Option<(SlotState, SlotAction)>)
    ensures
        r == spec_slot_step(state, event),
        state matches SlotState::Connecting { try_num } ==> (event is ConnectFailed ==> (r matches
            Some((s2, a)) && a == (SlotAction::SleepThenReconnect {
                secs: spec_backoff_secs(try_num),
            }))),
{
    match (state, event) {
        (SlotState::Connecting { try_num }, SlotEvent::ConnectFailed) => {
            let t2: u64 = if try_num < MAX_BACKOFF_SECS {
                try_num + 1
            } else {
                MAX_BACKOFF_SECS
            };
            Some(
                (
                    SlotState::Connecting { try_num: t2 },
                    SlotAction::SleepThenReconnect { secs: t2 },
                ),
            )
        },
        (SlotState::Connecting { .. }, SlotEvent::Connected) => Some(
            (SlotState::Serving, SlotAction::RunServeLoop),
        ),
        (SlotState::Serving, SlotEvent::ServeStopped { clean }) => {
            if clean {
                Some((SlotState::Retired, SlotAction::Retire))
            } else {
                Some((SlotState::Connecting { try_num: 0 }, SlotAction::Reconnect))
            }
        },
        _ => None,
    }
}

/// Law: a ticket that no connection claimed within the timeout window is
/// resolved — the puller delivers the queue-timeout sentinel without
/// touching its socket and returns to the queue — and the caller awaiting
/// that ticket observes the queue-timeout error, rather than hanging.
pub proof fn lemma_queue_timeout_resolves(
    buffer_size: usize,
    queue_timeout_us: u64,
    msg_len: usize,
    waited_us: u64,
)
    requires
        waited_us > queue_timeout_us,
    ensures
        spec_serve_step(
            buffer_size,
            queue_timeout_us,
            ServeState::AwaitTicket,
            ServeEvent::TicketReceived { msg_len, waited_us },
        ) == Some((ServeState::AwaitTicket, ServeAction::ResolveTimeoutAndSkip)),
        spec_resolve_completion(spec_completion_value(ServeAction::ResolveTimeoutAndSkip))
            == Err::<usize, LbError>(LbError::QueueTimeout),
{
}

/// Law: when the backend socket drops mid-flight — the request write fails,
/// or a read fails before the response is complete — the ticket in flight
/// resolves with the upstream-error outcome; the slot that owned the socket
/// goes back to connecting, backing off min(tries, 60) seconds after each
/// failed attempt; and once an attempt succeeds the slot serves again.
pub proof fn lemma_backend_drop_fails_ticket_and_reconnects(
    buffer_size: usize,
    queue_timeout_us: u64,
    msg_len: usize,
    resp_len: u32,
    try_num: u64,
)
    ensures
        spec_serve_step(
            buffer_size,
            queue_timeout_us,
            ServeState::SendRequest { msg_len },
            ServeEvent::WriteFailed,
        ) == Some(
            (ServeState::Stopped { cause: ServeExit::SocketFailed }, ServeAction::FailTicketAndStop),
        ),
        spec_serve_step(
            buffer_size,
            queue_timeout_us,
            ServeState::ReadResponseHeader,
            ServeEvent::ReadFailed,
        ) == Some(
            (ServeState::Stopped { cause: ServeExit::SocketFailed }, ServeAction::FailTicketAndStop),
        ),
        spec_serve_step(
            buffer_size,
            queue_timeout_us,
            ServeState::ReadResponseBody { resp_len },
            ServeEvent::ReadFailed,
        ) == Some(
            (ServeState::Stopped { cause: ServeExit::SocketFailed }, ServeAction::FailTicketAndStop),
        ),
        spec_resolve_completion(spec_completion_value(ServeAction::FailTicketAndStop))
            == Err::<usize, LbError>(LbError::UpstreamIo),
        spec_slot_step(SlotState::Serving, SlotEvent::ServeStopped { clean: false }) == Some(
            (SlotState::Connecting { try_num: 0 }, SlotAction::Reconnect),
        ),
        spec_slot_step(SlotState::Connecting { try_num }, SlotEvent::ConnectFailed) matches Some(
            (s2, a),
        ) && a == (SlotAction::SleepThenReconnect { secs: spec_backoff_secs(try_num) }),
        spec_slot_step(SlotState::Connecting { try_num }, SlotEvent::Connected) == Some(
            (SlotState::Serving, SlotAction::RunServeLoop),
        ),
{
}

/// Law: one client request of `n` payload bytes whose backend answers with
/// a `k`-byte framed response flows through the machines without truncation
/// or padding. The handler reads exactly `n` bytes and enqueues exactly
/// `n`; the connection that claims the ticket in time writes exactly `n`,
/// reads exactly `k`, and resolves the ticket with exactly `k`; the caller
/// awaiting the ticket observes `Ok(k)`; and the handler then writes
/// exactly the first `k` buffer bytes back to its own client — no other
/// client's handler is involved, each being its own machine.
pub proof fn lemma_exact_round_trip(
    max_message_length: usize,
    queue_timeout_us: u64,
    req: [u8; 8],
    resp: [u8; 8],
    waited_us: u64,
)
    requires
        spec_decode(req@) is Ok,
        spec_decode(req@)->Ok_0.msg_len <= max_message_length,
        spec_decode(resp@) is Ok,
        spec_decode(resp@)->Ok_0.msg_len <= max_message_length,
        waited_us <= queue_timeout_us,
    ensures
        ({
            let n = spec_decode(req@)->Ok_0.msg_len;
            let k = spec_decode(resp@)->Ok_0.msg_len;
            &&& spec_handler_step(
                max_message_length,
                HandlerState::ReadHeader,
                HandlerEvent::HeaderBytes { bytes: req },
            ) == Some(
                (
                    HandlerState::ReadPayload { msg_len: n },
                    HandlerAction::ReadPayloadBytes { count: n },
                ),
            )
            &&& spec_handler_step(
                max_message_length,
                HandlerState::ReadPayload { msg_len: n },
                HandlerEvent::PayloadLoaded,
            ) == Some(
                (HandlerState::Dispatch { msg_len: n }, HandlerAction::EnqueueTicket { count: n }),
            )
            &&& spec_handler_step(
                max_message_length,
                HandlerState::Dispatch { msg_len: n },
                HandlerEvent::TicketEnqueued,
            ) == Some((HandlerState::AwaitResponse { msg_len: n }, HandlerAction::AwaitCompletion))
            &&& spec_serve_step(
                max_message_length,
                queue_timeout_us,
                ServeState::AwaitTicket,
                ServeEvent::TicketReceived { msg_len: n as usize, waited_us },
            ) == Some(
                (
                    ServeState::SendRequest { msg_len: n as usize },
                    ServeAction::WriteRequestBytes { req_count: n as usize },
                ),
            )
            &&& spec_serve_step(
                max_message_length,
                queue_timeout_us,
                ServeState::SendRequest { msg_len: n as usize },
                ServeEvent::WriteCompleted,
            ) == Some((ServeState::ReadResponseHeader, ServeAction::ReadHeaderBytes))
            &&& spec_serve_step(
                max_message_length,
                queue_timeout_us,
                ServeState::ReadResponseHeader,
                ServeEvent::HeaderBytes { bytes: resp },
            ) == Some(
                (
                    ServeState::ReadResponseBody { resp_len: k },
                    ServeAction::ReadBodyBytes { count: k },
                ),
            )
            &&& spec_serve_step(
                max_message_length,
                queue_timeout_us,
                ServeState::ReadResponseBody { resp_len: k },
                ServeEvent::BodyLoaded,
            ) == Some((ServeState::AwaitTicket, ServeAction::ResolveAndContinue { resp_len: k }))
            &&& spec_resolve_completion(
                spec_completion_value(ServeAction::ResolveAndContinue { resp_len: k }),
            ) == Ok::<usize, LbError>(k as usize)
            &&& spec_handler_step(
                max_message_length,
                HandlerState::AwaitResponse { msg_len: n },
                HandlerEvent::Resolved { resp_len: k as usize },
            ) == Some(
                (
                    HandlerState::WriteResponse { resp_len: k as usize },
                    HandlerAction::WriteResponseBytes { resp_count: k as usize },
                ),
            )
            &&& spec_handler_step(
                max_message_length,
                HandlerState::WriteResponse { resp_len: k as usize },
                HandlerEvent::ResponseWritten,
            ) == Some((HandlerState::ReadHeader, HandlerAction::ReadHeaderBytes))
        }),
{
}

} // verus!
