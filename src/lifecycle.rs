//! The connection's lifecycle: open until either side closes it. A local
//! close carries a code and a reason for the peer; once closed, no unit may
//! be opened and every read in flight ends as `ConnectionClosed`.

use vstd::prelude::*;
use crate::exchange::{read_view, TransportError};

verus! {

#[derive(Debug, Clone, PartialEq, Eq)]
pub enum ConnState {
    Open,
    /// Closed here, with the code and reason sent to the peer.
    ClosedLocally { code: u32, reason: Vec<u8> },
    /// Closed by the peer.
    ClosedByPeer,
}

#[derive(Debug, Clone, PartialEq, Eq)]
pub struct Lifecycle {
    pub state: ConnState,
}

/// What a read yields on a connection in state `st`: once it is closed,
/// `ConnectionClosed`, whatever the unit reported.
pub open spec fn settled(st: ConnState, read: Result<Seq<u8>, TransportError>) -> Result<Seq<u8>, TransportError> {
    if st is Open {
        read
    } else {
        Err(TransportError::ConnectionClosed)
    }
}

impl Lifecycle {
    pub fn new() -> (r: Lifecycle)
        ensures
            r.state is Open,
    {
        Lifecycle { state: ConnState::Open }
    }

    pub fn is_open(&self) -> (r: bool)
        ensures
            r == self.state is Open,
    {
        matches!(self.state, ConnState::Open)
    }

    /// Closes the connection with a code and a reason for the peer. Only
    /// the first close counts; the result says whether this one did.
    pub fn close(&mut self, code: u32, reason: Vec<u8>) -> (r: bool)
        ensures
            r == old(self).state is Open,
            !(final(self).state is Open),
            r ==> final(self).state == (ConnState::ClosedLocally { code, reason }),
            !r ==> *final(self) == *old(self),
    {
        if self.is_open() {
            self.state = ConnState::ClosedLocally { code, reason };
            true
        } else {
            false
        }
    }

    /// Records that the peer closed the connection.
    pub fn on_peer_closed(&mut self)
        ensures
            !(final(self).state is Open),
            old(self).state is Open ==> final(self).state is ClosedByPeer,
            !(old(self).state is Open) ==> *final(self) == *old(self),
    {
        if self.is_open() {
            self.state = ConnState::ClosedByPeer;
        }
    }

    /// Whether a new unit may be opened or accepted now.
    pub fn admit_unit(&self) -> (r: Result<(), TransportError>)
        ensures
            self.state is Open ==> r is Ok,
            !(self.state is Open) ==> r == Err::<(), TransportError>(TransportError::ConnectionClosed),
    {
        if self.is_open() {
            Ok(())
        } else {
            Err(TransportError::ConnectionClosed)
        }
    }

    /// Settles a read that was in flight: on a closed connection it ends as
    /// `ConnectionClosed`.
    pub fn settle_read(&self, read: Result<Vec<u8>, TransportError>) -> (r: Result<Vec<u8>, TransportError>)
        ensures
            read_view(r) == settled(self.state, read_view(read)),
    {
        if self.is_open() {
            read
        } else {
            Err(TransportError::ConnectionClosed)
        }
    }
}

/// Once the connection is closed, by either side, every read in flight
/// ends as `ConnectionClosed`, whatever the unit reported.
pub proof fn lemma_closed_ends_reads(st: ConnState, read: Result<Seq<u8>, TransportError>)
    requires
        !(st is Open),
    ensures
        settled(st, read) == Err::<Seq<u8>, TransportError>(TransportError::ConnectionClosed),
{
}

} // verus!
