//! End-to-end scenarios: the state machines driven together over stubbed
//! sockets, the way the surrounding binary drives them over real ones.

use l3::downstream::HandlerAction;
use l3::downstream::HandlerEvent;
use l3::downstream::HandlerState;
use l3::downstream::handler_start;
use l3::downstream::handler_step;
use l3::errors::LbError;
use l3::frame::Frame;
use l3::pool::SlotAction;
use l3::pool::SlotEvent;
use l3::pool::SlotState;
use l3::pool::completion_value;
use l3::pool::resolve_completion;
use l3::pool::slot_step;
use l3::upstream::DEFAULT_QUEUE_TIMEOUT_US;
use l3::upstream::ServeAction;
use l3::upstream::ServeEvent;
use l3::upstream::ServeState;
use l3::upstream::serve_step;

const MAX: usize = 32;

/// What the stubbed backends compute: the payload reversed.
fn stub_response(payload: &[u8]) -> Vec<u8> {
    payload.iter().rev().copied().collect()
}

/// One client connection: its handler machine and its shared buffer.
struct SimClient {
    state: HandlerState,
    buffer: Vec<u8>,
}

impl SimClient {
    fn new() -> SimClient {
        let (state, action) = handler_start();
        assert_eq!(action, HandlerAction::ReadHeaderBytes);
        SimClient { state, buffer: vec![0; MAX] }
    }

    /// Read a framed request off the stub client socket and enqueue it;
    /// returns the enqueued length.
    fn submit(&mut self, payload: &[u8]) -> usize {
        let head = Frame::new(1, payload.len() as u32).as_bytes();
        let (s, a) = handler_step(MAX, self.state, HandlerEvent::HeaderBytes { bytes: head })
            .expect("header transition");
        assert_eq!(a, HandlerAction::ReadPayloadBytes { count: payload.len() as u32 });
        self.buffer[..payload.len()].copy_from_slice(payload);
        let (s, a) = handler_step(MAX, s, HandlerEvent::PayloadLoaded).expect("payload transition");
        let HandlerAction::EnqueueTicket { count } = a else {
            panic!("expected an enqueue action");
        };
        assert_eq!(count as usize, payload.len());
        let (s, a) = handler_step(MAX, s, HandlerEvent::TicketEnqueued).expect("enqueue transition");
        assert_eq!(a, HandlerAction::AwaitCompletion);
        self.state = s;
        count as usize
    }

    /// Complete the awaited request with what came over the completion
    /// channel; returns the bytes written back to the stub client socket,
    /// or the error that closed the connection.
    fn complete(&mut self, received: Option<i64>) -> Result<Vec<u8>, LbError> {
        let event = match resolve_completion(received) {
            Ok(resp_len) => HandlerEvent::Resolved { resp_len },
            Err(err) => HandlerEvent::RequestFailed { err },
        };
        let (s, a) = handler_step(MAX, self.state, event).expect("completion transition");
        match a {
            HandlerAction::WriteResponseBytes { resp_count } => {
                let delivered = self.buffer[..resp_count].to_vec();
                let (s2, a2) = handler_step(MAX, s, HandlerEvent::ResponseWritten)
                    .expect("write transition");
                assert_eq!(a2, HandlerAction::ReadHeaderBytes);
                self.state = s2;
                Ok(delivered)
            }
            HandlerAction::CloseConnection => {
                let HandlerState::Closed {
                    outcome: l3::downstream::Termination::Failed(err),
                } = s
                else {
                    panic!("expected a failed close");
                };
                self.state = s;
                Err(err)
            }
            _ => panic!("unexpected completion action"),
        }
    }
}

/// One upstream connection: its serve machine and whether its stubbed
/// backend socket is still alive.
struct SimConnection {
    state: ServeState,
    backend_alive: bool,
}

impl SimConnection {
    fn new() -> SimConnection {
        SimConnection { state: ServeState::AwaitTicket, backend_alive: true }
    }

    /// Serve one ticket: returns the completion value to deliver, or
    /// `None` when the serve loop stopped without resolving the ticket.
    /// `client` is the ticket's shared buffer holding `msg_len` bytes.
    fn serve(&mut self, client: &mut SimClient, msg_len: usize, waited_us: u64) -> Option<i64> {
        let (s, a) = serve_step(
            MAX,
            DEFAULT_QUEUE_TIMEOUT_US,
            self.state,
            ServeEvent::TicketReceived { msg_len, waited_us },
        )
        .expect("ticket transition");
        self.state = s;
        match a {
            ServeAction::ResolveTimeoutAndSkip => return completion_value(&a),
            ServeAction::WriteRequestBytes { req_count } => {
                assert_eq!(req_count, msg_len);
            }
            _ => panic!("unexpected ticket action"),
        }

        if !self.backend_alive {
            let (s, a) = serve_step(MAX, DEFAULT_QUEUE_TIMEOUT_US, self.state, ServeEvent::WriteFailed)
                .expect("write failure transition");
            assert_eq!(a, ServeAction::FailTicketAndStop);
            self.state = s;
            return completion_value(&a);
        }

        // the stub backend reads the request and frames its echo response
        let response = stub_response(&client.buffer[..msg_len]);
        let (s, a) = serve_step(MAX, DEFAULT_QUEUE_TIMEOUT_US, self.state, ServeEvent::WriteCompleted)
            .expect("write transition");
        assert_eq!(a, ServeAction::ReadHeaderBytes);
        let head = Frame::new(1, response.len() as u32).as_bytes();
        let (s, a) = serve_step(MAX, DEFAULT_QUEUE_TIMEOUT_US, s, ServeEvent::HeaderBytes {
            bytes: head,
        })
        .expect("response header transition");
        let ServeAction::ReadBodyBytes { count } = a else {
            panic!("expected a body read");
        };
        assert_eq!(count as usize, response.len());
        client.buffer[..response.len()].copy_from_slice(&response);
        let (s, a) = serve_step(MAX, DEFAULT_QUEUE_TIMEOUT_US, s, ServeEvent::BodyLoaded)
            .expect("body transition");
        assert_eq!(s, ServeState::AwaitTicket);
        self.state = s;
        completion_value(&a)
    }
}

#[test]
fn every_client_gets_exactly_its_own_response() {
    // 2 backend hosts x 2 connections each, 5 clients x 50 sequential
    // requests: every request must yield the exact response the stubbed
    // backend computed for its exact payload, delivered to its own client.
    const N_CLIENTS: usize = 5;
    const N_REQ: usize = 50;
    const N_CONNS: usize = 4;

    let mut clients: Vec<SimClient> = (0..N_CLIENTS).map(|_| SimClient::new()).collect();
    let mut conns: Vec<SimConnection> = (0..N_CONNS).map(|_| SimConnection::new()).collect();
    let mut served = 0usize;

    for round in 0..N_REQ {
        // all clients enqueue before any ticket is pulled, as under load
        let mut queue: Vec<(usize, usize, Vec<u8>)> = Vec::new();
        for (c, client) in clients.iter_mut().enumerate() {
            let payload = format!("client {c} round {round}").into_bytes();
            assert!(payload.len() <= MAX);
            let n = client.submit(&payload);
            queue.push((c, n, payload));
        }
        // first free connection wins: tickets come off in queue order
        for (c, n, payload) in queue {
            let conn = &mut conns[served % N_CONNS];
            served += 1;
            let value = conn.serve(&mut clients[c], n, 0);
            let delivered = clients[c].complete(value).expect("request should succeed");
            assert_eq!(delivered, stub_response(&payload));
        }
    }
}

#[test]
fn a_dying_backend_is_replaced_without_touching_other_clients() {
    // one host x 2 connections; the first connection's backend closes its
    // socket after the first request it serves
    let mut conn_a = SimConnection::new();
    let mut conn_b = SimConnection::new();
    let mut slot_a = SlotState::Serving;

    let mut alice = SimClient::new();
    let mut bob = SimClient::new();

    // first request over connection A succeeds, then its backend goes away
    let n = alice.submit(b"alice first");
    let value = conn_a.serve(&mut alice, n, 0);
    let delivered = alice.complete(value).unwrap();
    assert_eq!(delivered, stub_response(b"alice first"));
    conn_a.backend_alive = false;

    // bob's request hits the dead socket: that ticket alone fails, and the
    // slot goes back to connecting
    let n = bob.submit(b"bob first");
    let value = conn_a.serve(&mut bob, n, 0);
    let err = bob.complete(value).unwrap_err();
    assert_eq!(err, LbError::UpstreamIo);
    assert!(matches!(conn_a.state, ServeState::Stopped { .. }));
    let (s, a) = slot_step(slot_a, SlotEvent::ServeStopped { clean: false }).unwrap();
    assert_eq!(s, SlotState::Connecting { try_num: 0 });
    assert_eq!(a, SlotAction::Reconnect);
    slot_a = s;

    // alice, on the healthy connection, never observes any of it
    let n = alice.submit(b"alice second");
    let value = conn_b.serve(&mut alice, n, 0);
    let delivered = alice.complete(value).unwrap();
    assert_eq!(delivered, stub_response(b"alice second"));

    // the slot re-establishes a replacement connection...
    let (s, a) = slot_step(slot_a, SlotEvent::Connected).unwrap();
    assert_eq!(s, SlotState::Serving);
    assert_eq!(a, SlotAction::RunServeLoop);
    conn_a = SimConnection::new();

    // ...and subsequent requests over it succeed again
    let mut carol = SimClient::new();
    let n = carol.submit(b"carol first");
    let value = conn_a.serve(&mut carol, n, 0);
    let delivered = carol.complete(value).unwrap();
    assert_eq!(delivered, stub_response(b"carol first"));
}

#[test]
fn a_ticket_that_waited_too_long_times_out_instead_of_hanging() {
    let mut conn = SimConnection::new();
    let mut client = SimClient::new();
    let n = client.submit(b"late");
    let value = conn.serve(&mut client, n, DEFAULT_QUEUE_TIMEOUT_US + 1);
    let err = client.complete(value).unwrap_err();
    assert_eq!(err, LbError::QueueTimeout);
    // the connection is untouched and keeps serving fresh tickets
    assert_eq!(conn.state, ServeState::AwaitTicket);
    let mut next = SimClient::new();
    let n = next.submit(b"fresh");
    let value = conn.serve(&mut next, n, 0);
    let delivered = next.complete(value).unwrap();
    assert_eq!(delivered, stub_response(b"fresh"));
}
