//! One exchange on one unit: the payload bound, decoding under the error
//! policy, and the responder's echo reply.

use vstd::prelude::*;
use crate::config::{route_of, ErrorPolicy, ReplyRoute, SessionConfig};
use crate::message::{decode, decode_or_default, decoding, default_message, encode, encoding, DecodeError, Message};

verus! {

/// What the transport can report instead of a payload.
#[derive(Debug, Clone, Copy, PartialEq, Eq, Structural)]
pub enum TransportError {
    /// The connection is closing or closed; for an acceptor this is the
    /// normal end.
    ConnectionClosed,
    /// The peer sent more than the size limit before finishing.
    OversizedMessage,
    /// The unit was reset or failed otherwise.
    Failed,
}

/// Why one exchange failed.
#[derive(Debug, Clone, Copy, PartialEq, Eq, Structural)]
pub enum ExchangeError {
    Transport(TransportError),
    Decode(DecodeError),
}

/// A read as its bytes.
pub open spec fn read_view(read: Result<Vec<u8>, TransportError>) -> Result<Seq<u8>, TransportError> {
    match read {
        Ok(b) => Ok(b@),
        Err(e) => Err(e),
    }
}

/// The message that a unit's read yields under `cfg`: a transport error is
/// passed on, a payload over the limit is refused, and one that does not
/// decode fails under the strict policy and becomes the default message
/// under the lenient one.
pub open spec fn payload_message(
    cfg: SessionConfig,
    read: Result<Seq<u8>, TransportError>,
) -> Result<Message, ExchangeError> {
    match read {
        Err(e) => Err(ExchangeError::Transport(e)),
        Ok(s) => {
            if s.len() > cfg.max_bytes {
                Err(ExchangeError::Transport(TransportError::OversizedMessage))
            } else {
                match decoding(s) {
                    Ok(m) => Ok(m),
                    Err(d) => {
                        if cfg.policy == ErrorPolicy::Lenient {
                            Ok(default_message())
                        } else {
                            Err(ExchangeError::Decode(d))
                        }
                    },
                }
            }
        },
    }
}

/// Reads a unit's payload as a message under the configuration's limit and
/// error policy.
pub fn receive_payload(cfg: &SessionConfig, read: Result<Vec<u8>, TransportError>) -> (r: Result<
    Message,
    ExchangeError,
>)
    ensures
        r == payload_message(*cfg, read_view(read)),
{
    match read {
        Err(e) => Err(ExchangeError::Transport(e)),
        Ok(bytes) => {
            if bytes.len() > cfg.max_bytes {
                Err(ExchangeError::Transport(TransportError::OversizedMessage))
            } else {
                match cfg.policy {
                    ErrorPolicy::Lenient => Ok(decode_or_default(bytes.as_slice())),
                    ErrorPolicy::Strict => match decode(bytes.as_slice()) {
                        Ok(m) => Ok(m),
                        Err(d) => Err(ExchangeError::Decode(d)),
                    },
                }
            }
        },
    }
}

/// What the responder sends back for one unit.
#[derive(Debug, Clone, PartialEq, Eq)]
pub enum Reply {
    /// Write these bytes on the request's own unit, then finish it.
    OnSameUnit(Vec<u8>),
    /// Open a new unit, write these bytes on it, then finish it.
    OnNewUnit(Vec<u8>),
    /// Send nothing.
    Silent,
}

/// `reply` echoes `m` along `route`.
pub open spec fn echoes(reply: Reply, route: ReplyRoute, m: Message) -> bool {
    match route {
        ReplyRoute::SameUnit => reply matches Reply::OnSameUnit(b) && b@ == encoding(m),
        ReplyRoute::NewUnit => reply matches Reply::OnNewUnit(b) && b@ == encoding(m),
        ReplyRoute::NoReply => reply is Silent,
    }
}

/// A unit that the responder served: the message it read and its reply.
#[derive(Debug, Clone, PartialEq, Eq)]
pub struct Served {
    pub received: Message,
    pub reply: Reply,
}

/// The responder's work on one accepted unit: read its message, then echo
/// it back where the configuration routes replies. A failure here belongs to
/// this unit alone.
pub fn serve_unit(cfg: &SessionConfig, read: Result<Vec<u8>, TransportError>) -> (r: Result<
    Served,
    ExchangeError,
>)
    ensures
        match payload_message(*cfg, read_view(read)) {
            Ok(m) => r matches Ok(s) && s.received == m && echoes(s.reply, route_of(*cfg), m),
            Err(e) => r == Err::<Served, ExchangeError>(e),
        },
{
    match receive_payload(cfg, read) {
        Err(e) => Err(e),
        Ok(m) => {
            let reply = match cfg.route() {
                ReplyRoute::SameUnit => Reply::OnSameUnit(encode(&m)),
                ReplyRoute::NewUnit => Reply::OnNewUnit(encode(&m)),
                ReplyRoute::NoReply => Reply::Silent,
            };
            Ok(Served { received: m, reply })
        },
    }
}

/// A payload of exactly the limit passes the size check, and one byte more
/// is refused as oversized.
pub proof fn lemma_size_bound(cfg: SessionConfig, at_limit: Seq<u8>, over_limit: Seq<u8>)
    requires
        at_limit.len() == cfg.max_bytes,
        over_limit.len() == cfg.max_bytes + 1,
    ensures
        payload_message(cfg, Ok(over_limit)) == Err::<Message, ExchangeError>(
            ExchangeError::Transport(TransportError::OversizedMessage),
        ),
        payload_message(cfg, Ok(at_limit)) != Err::<Message, ExchangeError>(
            ExchangeError::Transport(TransportError::OversizedMessage),
        ),
{
}

/// Under a limit that admits an encoding, a unit carrying the encoding of
/// `m` is served with `m` echoed back.
pub proof fn lemma_echo_served(cfg: SessionConfig, m: Message)
    requires
        encoding(m).len() <= cfg.max_bytes,
    ensures
        payload_message(cfg, Ok(encoding(m))) == Ok::<Message, ExchangeError>(m),
{
    crate::message::lemma_round_trip(m);
}

} // verus!
