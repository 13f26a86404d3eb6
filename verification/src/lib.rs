//! A TCP load balancer core: a length-framed wire protocol, the decision
//! logic of the downstream connection handler, the upstream serve loop, and
//! the connection pool's reconnect and completion handling.
//!
//! Everything here is pure: sockets, queues and timers live in the
//! surrounding binary, which drives these state machines with the events it
//! observes and performs the actions they return.

pub mod config;
pub mod downstream;
pub mod errors;
pub mod frame;
pub mod pool;
pub mod upstream;

pub use frame::Frame;
pub use frame::FrameError;
