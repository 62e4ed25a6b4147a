//! Decision logic of a remote shell tunnelled through a publish/subscribe
//! broker: the reconnect back-off, the transport state machines of the agent
//! and the controller, the resize message codec, the lossy fan-out of shell
//! output, and the controller's key encoder.
//!
//! Everything here is plain data in, plain data out. The processes that own
//! the pseudo-terminal, the broker connection and the local terminal drive
//! these functions and perform the actions they return.

pub mod agent;
pub mod backoff;
pub mod controller;
pub mod fanout;
pub mod json;
pub mod keys;
pub mod link;
pub mod relay;
pub mod resize;
pub mod session;
pub mod status;
pub mod text;
pub mod topics;
