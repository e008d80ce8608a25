//! Point-to-point message exchange between two processes over named pipes.
//!
//! The verified core of the protocol: the tagged message type and its
//! byte-level codec, the length-prefixed framing of messages on a byte
//! stream, the derivation of per-connection pipe paths from a numeric
//! identifier, and the handshake state machines of the two sides.
//! The actual pipe I/O (creating, opening, reading and writing FIFOs)
//! lives outside the library and drives the state machines.

pub mod codec;
pub mod error;
pub mod fifo;
pub mod frame;
pub mod handshake;
pub mod msg;
pub mod paths;

pub use error::Error;
pub use fifo::ChannelPair;
pub use fifo::Fifo;
pub use msg::Message;
pub use msg::MessageView;
