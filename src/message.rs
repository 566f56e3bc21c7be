//! The message taxonomy and its wire encoding: a message is its variant
//! index written as a variable-length `u32`, and a unit's payload is exactly
//! one encoded message.

use vstd::prelude::*;
use crate::varint::{
    decode_u32, encode_u32, lemma_varint_prefix_truncated, lemma_varint_round_trip, read_varint_u32, varint_u32,
    VarintFault,
};

verus! {

/// The messages of the protocol. The variant index is the wire tag, so a
/// new variant is added at the end.
#[derive(Debug, Clone, Copy, PartialEq, Eq, Structural)]
pub enum Message {
    Echo,
    Ping,
    Pong,
}

/// Why a payload is not a message.
#[derive(Debug, Clone, Copy, PartialEq, Eq, Structural)]
pub enum DecodeError {
    /// The bytes do not match the layout of any known variant, or bytes
    /// follow a complete message.
    Malformed,
    /// The bytes end before the message is complete.
    Truncated,
}

/// The wire tag of a message.
pub open spec fn tag_of(m: Message) -> u32 {
    match m {
        Message::Echo => 0,
        Message::Ping => 1,
        Message::Pong => 2,
    }
}

/// The message that a wire tag names, if any.
pub open spec fn message_of_tag(t: u32) -> Option<Message> {
    if t == 0 {
        Some(Message::Echo)
    } else if t == 1 {
        Some(Message::Ping)
    } else if t == 2 {
        Some(Message::Pong)
    } else {
        None
    }
}

/// The bytes that encode `m`.
pub open spec fn encoding(m: Message) -> Seq<u8> {
    varint_u32(tag_of(m))
}

/// What decoding `s` gives: the tag is read from the front; it must name a
/// variant and take all of `s`.
pub open spec fn decoding(s: Seq<u8>) -> Result<Message, DecodeError> {
    match read_varint_u32(s) {
        Err(VarintFault::UnexpectedEnd) => Err(DecodeError::Truncated),
        Err(VarintFault::InvalidWidth) => Err(DecodeError::Malformed),
        Ok((t, n)) => {
            if n < s.len() {
                Err(DecodeError::Malformed)
            } else {
                match message_of_tag(t) {
                    Some(m) => Ok(m),
                    None => Err(DecodeError::Malformed),
                }
            }
        },
    }
}

/// The message that the lenient policy puts in place of one that does not
/// decode.
pub open spec fn default_message() -> Message {
    Message::Echo
}

/// Encodes a message. This never fails, and equal messages give equal bytes.
pub fn encode(msg: &Message) -> (r: Vec<u8>)
    ensures
        r@ == encoding(*msg),
{
    let t: u32 = match msg {
        Message::Echo => 0,
        Message::Ping => 1,
        Message::Pong => 2,
    };
    match encode_u32(t) {
        Ok(b) => b,
        Err(_) => {
            proof {
                assert(false);
            }
            Vec::new()
        },
    }
}

/// Decodes one message that takes the whole of `bytes`.
pub fn decode(bytes: &[u8]) -> (r: Result<Message, DecodeError>)
    ensures
        r == decoding(bytes@),
{
    match decode_u32(bytes) {
        Err(VarintFault::UnexpectedEnd) => Err(DecodeError::Truncated),
        Err(VarintFault::InvalidWidth) => Err(DecodeError::Malformed),
        Ok((t, n)) => {
            if n < bytes.len() {
                Err(DecodeError::Malformed)
            } else if t == 0 {
                Ok(Message::Echo)
            } else if t == 1 {
                Ok(Message::Ping)
            } else if t == 2 {
                Ok(Message::Pong)
            } else {
                Err(DecodeError::Malformed)
            }
        },
    }
}

/// Decodes a message, or yields the default message where the bytes do not
/// decode.
pub fn decode_or_default(bytes: &[u8]) -> (r: Message)
    ensures
        r == match decoding(bytes@) {
            Ok(m) => m,
            Err(_) => default_message(),
        },
{
    match decode(bytes) {
        Ok(m) => m,
        Err(_) => Message::Echo,
    }
}

/// Decoding the encoding of any message gives that message back.
pub proof fn lemma_round_trip(m: Message)
    ensures
        decoding(encoding(m)) == Ok::<Message, DecodeError>(m),
{
    lemma_varint_round_trip(tag_of(m));
}

/// Every strict, non-empty prefix of an encoding decodes as truncated.
pub proof fn lemma_prefix_truncated(m: Message, k: int)
    requires
        0 < k < encoding(m).len(),
    ensures
        decoding(encoding(m).take(k)) == Err::<Message, DecodeError>(DecodeError::Truncated),
{
    lemma_varint_prefix_truncated(tag_of(m), k);
}

/// Distinct messages have distinct encodings.
pub proof fn lemma_encoding_injective(a: Message, b: Message)
    requires
        encoding(a) == encoding(b),
    ensures
        a == b,
{
    assert(encoding(a)[0] == encoding(b)[0]);
    assert(encoding(a)[0] == tag_of(a) as u8);
    assert(encoding(b)[0] == tag_of(b) as u8);
}

} // verus!
