//! The filesystem identities of the protocol's pipes, and the 4-byte
//! identifier cell that crosses the rendezvous pipe.
//!
//! The identifier crosses the pipe in a fixed little-endian byte
//! order, like every integer this protocol puts on a wire, so the two
//! ends agree whatever the machine.

use vstd::prelude::*;
use vstd::bytes::{
    spec_u32_from_le_bytes, spec_u32_to_le_bytes, u32_from_le_bytes, u32_to_le_bytes,
    lemma_auto_spec_u32_to_from_le_bytes,
};
use crate::paths::{read_path, spec_read_path, spec_write_path, write_path};

verus! {

/// One named pipe's filesystem identity.
///
/// At most one `Fifo` value logically owns a given path at a time. The
/// surrounding program creates the FIFO when it takes ownership —
/// removing any stale entry left at the path first — and must remove
/// the filesystem entry when the owning scope ends, on success and on
/// failure alike.
#[derive(Debug)]
pub struct Fifo {
    pub path: String,
}

impl View for Fifo {
    type V = Seq<char>;

    open spec fn view(&self) -> Seq<char> {
        self.path@
    }
}

impl Fifo {
    /// Takes logical ownership of the pipe at `path`.
    pub fn new(path: String) -> (f: Fifo)
        ensures
            f@ == path@,
    {
        Fifo { path }
    }

    /// The filesystem path of the pipe.
    pub fn path(&self) -> (p: &str)
        ensures
            p@ == self@,
    {
        self.path.as_str()
    }
}

/// The two pipe paths of one connection, derived from its identifier.
///
/// The naming is from the sender's perspective: the sender reads
/// replies on `read` and writes requests on `write`; the listener opens
/// the same two paths with the I/O directions swapped.
pub struct ChannelPair {
    pub id: u32,
    pub read: Fifo,
    pub write: Fifo,
}

impl ChannelPair {
    /// Whether the pair's paths are the ones its identifier derives
    /// under `base`.
    pub open spec fn wf(&self, base: Seq<char>) -> bool {
        self.read@ == spec_read_path(base, self.id as nat) && self.write@ == spec_write_path(
            base,
            self.id as nat,
        )
    }

    /// Derives the pair of connection `id` under `base`.
    pub fn new(base: &str, id: u32) -> (p: ChannelPair)
        ensures
            p.wf(base@),
            p.id == id,
    {
        ChannelPair { id, read: Fifo::new(read_path(base, id)), write: Fifo::new(write_path(base, id)) }
    }
}

/// Encodes an identifier as the 4 bytes its sender writes into the
/// rendezvous pipe.
pub fn identifier_bytes(id: u32) -> (r: Vec<u8>)
    ensures
        r@ == spec_u32_to_le_bytes(id),
        r@.len() == 4,
{
    u32_to_le_bytes(id)
}

/// Decodes the 4 bytes an accept read from the rendezvous pipe back
/// into the identifier their sender wrote.
pub fn identifier_from_bytes(b: &[u8]) -> (id: u32)
    requires
        b@.len() == 4,
    ensures
        id == spec_u32_from_le_bytes(b@),
        spec_u32_to_le_bytes(id) == b@,
{
    proof {
        lemma_auto_spec_u32_to_from_le_bytes();
    }
    u32_from_le_bytes(b)
}

} // verus!
