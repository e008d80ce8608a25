//! Length-prefixed framing of messages on a byte stream.
//!
//! A frame is an 8-byte little-endian count of payload bytes followed
//! by exactly that many bytes of encoded message. The length prefix is
//! the only delimiter: a reader must take the count first and then read
//! exactly that many bytes, for the encoding has no trailing
//! terminator.

use vstd::prelude::*;
use vstd::bytes::{
    spec_u64_from_le_bytes, spec_u64_to_le_bytes, u64_from_le_bytes, u64_to_le_bytes,
    lemma_auto_spec_u64_to_from_le_bytes,
};
use vstd::slice::slice_subrange;
use crate::codec::{decode, decoded, encode, encoded, lemma_codec_round_trip, wf_message};
use crate::error::Error;
use crate::msg::{Message, MessageView};

verus! {

/// The full frame of a message: length prefix, then encoded payload.
pub open spec fn framed(m: MessageView) -> Seq<u8> {
    spec_u64_to_le_bytes(encoded(m).len() as u64) + encoded(m)
}

/// What reading one frame from the front of a byte stream yields: the
/// message and the count of bytes consumed; `IoError` when the stream
/// ends before the header or the payload is complete (a short read);
/// `DecodeError` when the payload bytes encode no known message.
pub open spec fn frame_read(stream: Seq<u8>) -> Result<(MessageView, int), Error> {
    if stream.len() < 8 {
        Err(Error::IoError)
    } else {
        let n = spec_u64_from_le_bytes(stream.subrange(0, 8));
        if stream.len() - 8 < n {
            Err(Error::IoError)
        } else {
            match decoded(stream.subrange(8, 8 + n)) {
                Some(v) => Ok((v, 8 + n)),
                None => Err(Error::DecodeError),
            }
        }
    }
}

/// Builds the frame that carries `m`: what a writer puts on the pipe,
/// length prefix first, payload after.
pub fn encode_frame(m: &Message) -> (r: Vec<u8>)
    ensures
        r@ == framed(m@),
{
    let mut payload = encode(m);
    let mut out = u64_to_le_bytes(payload.len() as u64);
    out.append(&mut payload);
    proof {
        assert(out@ =~= framed(m@));
    }
    out
}

/// Reads the length field of a frame header.
pub fn frame_header_len(h: &[u8]) -> (n: u64)
    requires
        h@.len() == 8,
    ensures
        n == spec_u64_from_le_bytes(h@),
{
    u64_from_le_bytes(h)
}

/// Reads one frame from the front of `stream` and returns the decoded
/// message together with the count of bytes consumed; bytes past the
/// frame are left unread. Fails with `IoError` when the stream is too
/// short for the header or for the announced payload, and with
/// `DecodeError` when the payload encodes no known message.
pub fn read_framed(stream: &[u8]) -> (r: Result<(Message, usize), Error>)
    ensures
        match frame_read(stream@) {
            Ok((v, used)) => r matches Ok(p) && p.0@ == v && p.1 == used,
            Err(e) => r == Err::<(Message, usize), Error>(e),
        },
{
    if stream.len() < 8 {
        return Err(Error::IoError);
    }
    let n = u64_from_le_bytes(slice_subrange(stream, 0, 8));
    let avail = stream.len() - 8;
    if (avail as u64) < n {
        return Err(Error::IoError);
    }
    let n_us = n as usize;
    let payload = slice_subrange(stream, 8, 8 + n_us);
    match decode(payload) {
        Ok(m) => Ok((m, 8 + n_us)),
        Err(e) => Err(e),
    }
}

/// Framing exactness. Reading from a stream that starts with the exact
/// frame of `m` yields `m` and consumes exactly the frame, whatever
/// follows it: appended bytes are simply left unread. Truncating the
/// frame's last byte instead makes the payload fall short of the
/// announced length, so the read fails with `IoError`.
pub proof fn lemma_framing_exactness(m: MessageView, rest: Seq<u8>)
    requires
        wf_message(m),
    ensures
        frame_read(framed(m) + rest) == Ok::<(MessageView, int), Error>(
            (m, framed(m).len() as int),
        ),
        frame_read(framed(m).take(framed(m).len() - 1)) == Err::<(MessageView, int), Error>(
            Error::IoError,
        ),
{
    lemma_auto_spec_u64_to_from_le_bytes();
    vstd::bytes::lemma_auto_spec_u32_to_from_le_bytes();
    lemma_codec_round_trip(m);
    let b = encoded(m);
    let f = framed(m);
    assert(b.len() >= 4 && b.len() <= u64::MAX);
    assert(f.len() == 8 + b.len());
    let s = f + rest;
    assert(s.subrange(0, 8) =~= spec_u64_to_le_bytes(b.len() as u64));
    assert(spec_u64_from_le_bytes(s.subrange(0, 8)) == b.len());
    assert(s.subrange(8, 8 + b.len() as int) =~= b);
    assert(frame_read(s) == Ok::<(MessageView, int), Error>((m, f.len() as int)));
    let t = f.take(f.len() - 1);
    assert(t.len() == 8 + b.len() - 1 >= 8);
    assert(t.subrange(0, 8) =~= spec_u64_to_le_bytes(b.len() as u64));
    assert(spec_u64_from_le_bytes(t.subrange(0, 8)) == b.len());
    assert(t.len() - 8 < b.len());
}

} // verus!
