//! The failure kinds the load balancer surfaces, and which layer each one
//! terminates.

use vstd::prelude::*;
use crate::frame::FrameError;

verus! {

/// Everything that can make a request fail or end a connection.
#[derive(Debug, Clone, Copy, PartialEq, Eq, Structural)]
pub enum LbError {
    /// The peer sent a header that does not decode (bad version byte or a
    /// zero length field); fatal to the connection that produced it.
    Protocol(FrameError),
    /// A message announced more payload than the configured maximum; fatal
    /// to the connection that sent it.
    OversizedPayload,
    /// A queued request waited too long for a free backend connection;
    /// fails only that request.
    QueueTimeout,
    /// A backend socket failed mid-request; fails the ticket in flight
    /// while the connection slot reconnects.
    UpstreamIo,
    /// The shared request queue is closed: the pool has shut down.
    QueueClosed,
    /// The completion signal was abandoned before it resolved, for example
    /// because the servicing connection stopped without completing it.
    ConnectionInterrupted,
}

} // verus!
