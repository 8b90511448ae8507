//! The multiplexing core of a peer-to-peer networking stack.
//!
//! The crate holds the decisions of the stack as verified code: which handler
//! an event of a connection goes to, which identifier an outbound substream
//! gets, and how a notification substream moves between closed, validating,
//! opening and open. Sockets, tasks and awaiting live outside of it.

pub mod error;
pub mod types;
pub mod peer_id;
pub mod crypto;
pub mod codec;
pub mod channel;
pub mod context;
pub mod protocol;
pub mod transport;
