//! A message-exchange protocol over a reliable, multiplexed connection:
//! the message codec, the initiator's session engine, the responder's
//! acceptor loop and the connection lifecycle, each as verified logic that
//! an asynchronous driver runs against a real transport.

pub mod varint;
pub mod message;
pub mod config;
pub mod exchange;
pub mod acceptor;
pub mod session;
pub mod lifecycle;
