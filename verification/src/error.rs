//! The error taxonomy of the protocol.

use vstd::prelude::*;

verus! {

/// What can go wrong while establishing a connection or exchanging a
/// message.
///
/// - `IoError`: a pipe could not be created, opened, read, written or
///   removed, or a read or write ended short. Fatal to the operation in
///   progress; never retried.
/// - `DecodeError`: payload bytes do not match any known message
///   encoding. Fatal to that connection.
/// - `ProtocolViolation`: a well-formed message arrived in a state that
///   does not expect it. Fatal to that connection.
#[derive(Clone, Copy, Debug, PartialEq, Eq, Structural)]
pub enum Error {
    IoError,
    DecodeError,
    ProtocolViolation,
}

} // verus!
