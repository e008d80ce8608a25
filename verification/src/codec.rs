//! Byte-level encoding and decoding of messages.
//!
//! A message is encoded as a 4-byte little-endian variant tag; a text
//! payload carries, after the tag, an 8-byte little-endian byte count
//! followed by that many bytes of UTF-8. The encoding is deterministic
//! and has no failure modes for the two defined variants; decoding
//! accepts exactly the canonical encodings and nothing else.

use vstd::prelude::*;
use vstd::bytes::{
    spec_u32_from_le_bytes, spec_u32_to_le_bytes, spec_u64_from_le_bytes, spec_u64_to_le_bytes,
    u32_from_le_bytes, u32_to_le_bytes, u64_from_le_bytes, u64_to_le_bytes,
    lemma_auto_spec_u32_to_from_le_bytes, lemma_auto_spec_u64_to_from_le_bytes,
};
use vstd::utf8::{decode_utf8, encode_utf8, valid_utf8};
use vstd::slice::{slice_subrange, slice_to_vec};
use vstd::string::StrSliceExecFns;
use crate::error::Error;
use crate::msg::{Message, MessageView};

verus! {

/// Wire tag of a text payload.
pub const TAG_PRINT: u32 = 0;

/// Wire tag of an acknowledgment.
pub const TAG_ACK: u32 = 1;

/// Whether a message value fits the wire format: the whole encoding of
/// a text payload must be addressable by a 64-bit length. Every message
/// that exists in memory satisfies this; only the unbounded spec-level
/// values escape it.
pub open spec fn wf_message(m: MessageView) -> bool {
    match m {
        MessageView::Print(s) => 12 + encode_utf8(s).len() <= u64::MAX,
        MessageView::Ack => true,
    }
}

/// The canonical encoding of a message.
pub open spec fn encoded(m: MessageView) -> Seq<u8> {
    match m {
        MessageView::Print(s) => spec_u32_to_le_bytes(TAG_PRINT) + spec_u64_to_le_bytes(
            encode_utf8(s).len() as u64,
        ) + encode_utf8(s),
        MessageView::Ack => spec_u32_to_le_bytes(TAG_ACK),
    }
}

/// The partial inverse of [`encoded`]: the message that a byte string
/// is the exact encoding of, if any.
pub open spec fn decoded(b: Seq<u8>) -> Option<MessageView> {
    if b.len() < 4 {
        None
    } else {
        let tag = spec_u32_from_le_bytes(b.subrange(0, 4));
        if tag == TAG_ACK {
            if b.len() == 4 {
                Some(MessageView::Ack)
            } else {
                None
            }
        } else if tag == TAG_PRINT {
            if b.len() < 12 {
                None
            } else {
                let n = spec_u64_from_le_bytes(b.subrange(4, 12));
                let payload = b.subrange(12, b.len() as int);
                if n == b.len() - 12 && valid_utf8(payload) {
                    Some(MessageView::Print(decode_utf8(payload)))
                } else {
                    None
                }
            }
        } else {
            None
        }
    }
}

/// Relies on `String::from_utf8`: it succeeds exactly on input that is
/// valid UTF-8, and then returns the string whose characters are the
/// UTF-8 decoding of that input.
#[verifier::external_body]
fn string_from_utf8(bytes: Vec<u8>) -> (r: Option<String>)
    ensures
        r is Some <==> valid_utf8(bytes@),
        r matches Some(s) ==> s@ == decode_utf8(bytes@),
{
    String::from_utf8(bytes).ok()
}

/// Encodes a message into its canonical wire bytes.
pub fn encode(m: &Message) -> (r: Vec<u8>)
    ensures
        r@ == encoded(m@),
{
    match m {
        Message::Print(s) => {
            let mut payload: Vec<u8> = s.as_str().as_bytes_vec();
            let mut out = u32_to_le_bytes(TAG_PRINT);
            let mut len_bytes = u64_to_le_bytes(payload.len() as u64);
            out.append(&mut len_bytes);
            out.append(&mut payload);
            proof {
                assert(out@ =~= encoded(m@));
            }
            out
        },
        Message::Ack() => u32_to_le_bytes(TAG_ACK),
    }
}

/// Decodes a byte string that must hold exactly one encoded message.
/// Fails with `DecodeError` when the bytes are not the canonical
/// encoding of any message.
pub fn decode(bytes: &[u8]) -> (r: Result<Message, Error>)
    ensures
        match decoded(bytes@) {
            Some(v) => r matches Ok(m) && m@ == v,
            None => r == Err::<Message, Error>(Error::DecodeError),
        },
{
    if bytes.len() < 4 {
        return Err(Error::DecodeError);
    }
    let tag = u32_from_le_bytes(slice_subrange(bytes, 0, 4));
    if tag == TAG_ACK {
        if bytes.len() == 4 {
            Ok(Message::Ack())
        } else {
            Err(Error::DecodeError)
        }
    } else if tag == TAG_PRINT {
        if bytes.len() < 12 {
            return Err(Error::DecodeError);
        }
        let n = u64_from_le_bytes(slice_subrange(bytes, 4, 12));
        let rem = bytes.len() - 12;
        if n != rem as u64 {
            return Err(Error::DecodeError);
        }
        let payload = slice_to_vec(slice_subrange(bytes, 12, bytes.len()));
        match string_from_utf8(payload) {
            Some(s) => Ok(Message::Print(s)),
            None => Err(Error::DecodeError),
        }
    } else {
        Err(Error::DecodeError)
    }
}

/// Decoding is canonical: whenever a byte string decodes at all, it is
/// the exact encoding of the message it decodes to. With the round
/// trip below, `decoded` succeeds on the canonical encodings and on
/// nothing else.
pub proof fn lemma_decoded_canonical(b: Seq<u8>, v: MessageView)
    requires
        decoded(b) == Some(v),
    ensures
        encoded(v) == b,
{
    lemma_auto_spec_u32_to_from_le_bytes();
    lemma_auto_spec_u64_to_from_le_bytes();
    assert(b.len() >= 4);
    let tag = spec_u32_from_le_bytes(b.subrange(0, 4));
    if tag == TAG_ACK {
        assert(b.len() == 4 && v == MessageView::Ack);
        assert(b.subrange(0, 4) =~= b);
        assert(encoded(v) == spec_u32_to_le_bytes(spec_u32_from_le_bytes(b)));
        assert(encoded(v) =~= b);
    } else {
        broadcast use vstd::utf8::decode_utf8_encode_utf8;

        assert(tag == TAG_PRINT && b.len() >= 12);
        let n = spec_u64_from_le_bytes(b.subrange(4, 12));
        let payload = b.subrange(12, b.len() as int);
        assert(n == b.len() - 12 && valid_utf8(payload));
        assert(v == MessageView::Print(decode_utf8(payload)));
        assert(encode_utf8(decode_utf8(payload)) == payload);
        assert(spec_u64_to_le_bytes(spec_u64_from_le_bytes(b.subrange(4, 12))) == b.subrange(
            4,
            12,
        ));
        assert(encoded(v) =~= b);
    }
}

/// Round trip: decoding the encoding of any message yields that message
/// back, for every message small enough to exist on the wire.
pub proof fn lemma_codec_round_trip(m: MessageView)
    requires
        wf_message(m),
    ensures
        decoded(encoded(m)) == Some(m),
{
    lemma_auto_spec_u32_to_from_le_bytes();
    lemma_auto_spec_u64_to_from_le_bytes();
    let b = encoded(m);
    match m {
        MessageView::Ack => {
            assert(b.subrange(0, 4) =~= spec_u32_to_le_bytes(TAG_ACK));
        },
        MessageView::Print(s) => {
            broadcast use vstd::utf8::encode_utf8_valid_utf8, vstd::utf8::encode_utf8_decode_utf8;

            let u = encode_utf8(s);
            assert(b.len() == 12 + u.len());
            assert(b.subrange(0, 4) =~= spec_u32_to_le_bytes(TAG_PRINT));
            assert(b.subrange(4, 12) =~= spec_u64_to_le_bytes(u.len() as u64));
            assert(b.subrange(12, b.len() as int) =~= u);
            assert(spec_u64_from_le_bytes(b.subrange(4, 12)) == u.len());
            assert(decode_utf8(u) == s);
        },
    }
}

} // verus!
