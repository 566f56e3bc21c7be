//! The initiator's session engine. Each request is given a unit number; the
//! driver opens the unit the engine asks for and writes the payload, then
//! hands back the read of the reply. Exchanges that await a reply stay
//! pending until then, each independent of the others.

use vstd::prelude::*;
use crate::config::{route_of, Direction, ReplyRoute, SessionConfig, StreamStrategy};
use crate::exchange::{payload_message, read_view, receive_payload, ExchangeError, TransportError};
use crate::message::{encode, encoding, Message};

verus! {

/// The kind of unit that carries a request.
#[derive(Debug, Clone, Copy, PartialEq, Eq, Structural)]
pub enum UnitKind {
    Duplex,
    Simplex,
}

/// Why the engine refused a request or a reply.
#[derive(Debug, Clone, Copy, PartialEq, Eq, Structural)]
pub enum SessionError {
    /// The session's one shared unit is already in use.
    Busy,
    /// Every unit number has been handed out.
    UnitsExhausted,
    /// No pending exchange has this unit.
    UnknownUnit,
    /// No exchange awaits a reply.
    NothingPending,
    /// The exchange itself failed.
    Exchange(ExchangeError),
}

/// A request ready to go out.
#[derive(Debug, Clone, PartialEq, Eq)]
pub struct Outbound {
    pub unit: u64,
    pub kind: UnitKind,
    pub payload: Vec<u8>,
    pub awaits_reply: bool,
}

/// A finished exchange: the request and the reply read for it.
#[derive(Debug, Clone, Copy, PartialEq, Eq, Structural)]
pub struct Completion {
    pub unit: u64,
    pub request: Message,
    pub reply: Message,
}

#[derive(Debug, Clone, Copy, PartialEq, Eq, Structural)]
pub struct Pending {
    pub unit: u64,
    pub request: Message,
}

/// The unit kind that a configuration sends requests on.
pub open spec fn kind_of(cfg: SessionConfig) -> UnitKind {
    if cfg.direction == Direction::Bidirectional {
        UnitKind::Duplex
    } else {
        UnitKind::Simplex
    }
}

/// What completing the exchange on `unit` gives, with `pending` the pending
/// requests by unit and `read` the read of its reply.
pub open spec fn completion(
    cfg: SessionConfig,
    pending: Map<u64, Message>,
    unit: u64,
    read: Result<Seq<u8>, TransportError>,
) -> Result<Completion, SessionError> {
    if !pending.contains_key(unit) {
        Err(SessionError::UnknownUnit)
    } else {
        match payload_message(cfg, read) {
            Ok(m) => Ok(Completion { unit, request: pending[unit], reply: m }),
            Err(e) => Err(SessionError::Exchange(e)),
        }
    }
}

/// Why a new request is refused, if it is: a shared unit carries one
/// exchange only, and unit numbers are finite.
pub open spec fn begin_refusal(cfg: SessionConfig, next_unit: u64) -> Option<SessionError> {
    if cfg.strategy == StreamStrategy::SharedStream && next_unit > 0 {
        Some(SessionError::Busy)
    } else if next_unit == u64::MAX {
        Some(SessionError::UnitsExhausted)
    } else {
        None
    }
}

/// `unit` is the oldest pending exchange.
pub open spec fn is_oldest(pending: Map<u64, Message>, unit: u64) -> bool {
    pending.contains_key(unit) && forall|k: u64| pending.contains_key(k) ==> unit <= k
}

spec fn units_ascending(p: Seq<Pending>) -> bool {
    forall|i: int, j: int| 0 <= i < j < p.len() ==> p[i].unit < p[j].unit
}

spec fn units_below(p: Seq<Pending>, n: u64) -> bool {
    forall|i: int| 0 <= i < p.len() ==> p[i].unit < n
}

spec fn entries_in(p: Seq<Pending>, m: Map<u64, Message>) -> bool {
    forall|i: int| 0 <= i < p.len() ==> #[trigger] m.contains_key(p[i].unit) && m[p[i].unit] == p[i].request
}

spec fn keys_in(m: Map<u64, Message>, p: Seq<Pending>) -> bool {
    forall|u: u64| #[trigger] m.contains_key(u) ==> exists|i: int| 0 <= i < p.len() && p[i].unit == u
}

pub struct Initiator {
    cfg: SessionConfig,
    next_unit: u64,
    pending: Vec<Pending>,
    model: Ghost<Map<u64, Message>>,
}

impl Initiator {
    pub closed spec fn config(&self) -> SessionConfig {
        self.cfg
    }

    /// The number the next request's unit gets.
    pub closed spec fn next_unit(&self) -> u64 {
        self.next_unit
    }

    /// The requests that await a reply, by unit.
    pub closed spec fn pending_view(&self) -> Map<u64, Message> {
        self.model@
    }

    pub closed spec fn wf(&self) -> bool {
        &&& self.cfg.is_valid()
        &&& units_ascending(self.pending@)
        &&& units_below(self.pending@, self.next_unit)
        &&& entries_in(self.pending@, self.model@)
        &&& keys_in(self.model@, self.pending@)
    }

    /// A session with nothing sent yet.
    pub fn new(cfg: &SessionConfig) -> (r: Initiator)
        requires
            cfg.is_valid(),
        ensures
            r.wf(),
            r.config() == *cfg,
            r.next_unit() == 0,
            r.pending_view() == Map::<u64, Message>::empty(),
    {
        Initiator { cfg: *cfg, next_unit: 0, pending: Vec::new(), model: Ghost(Map::empty()) }
    }

    /// The number of exchanges that await a reply.
    pub fn pending_count(&self) -> (r: usize)
        requires
            self.wf(),
        ensures
            r == self.pending_view().len(),
    {
        proof {
            self.lemma_view_domain();
        }
        self.pending.len()
    }

    proof fn lemma_view_domain(&self)
        requires
            self.wf(),
        ensures
            self.model@.dom() == self.pending@.map_values(|p: Pending| p.unit).to_set(),
            self.model@.dom().finite(),
            self.model@.dom().len() == self.pending@.len(),
    {
        let units = self.pending@.map_values(|p: Pending| p.unit);
        assert forall|u: u64| self.model@.dom().contains(u) <==> units.to_set().contains(u) by {
            if self.model@.contains_key(u) {
                let i = choose|i: int| 0 <= i < self.pending@.len() && self.pending@[i].unit == u;
                assert(units[i] == u);
            }
            if units.to_set().contains(u) {
                let i = choose|i: int| 0 <= i < units.len() && units[i] == u;
                assert(self.model@.contains_key(self.pending@[i].unit));
            }
        }
        assert(self.model@.dom() =~= units.to_set());
        assert forall|i: int, j: int| 0 <= i < units.len() && 0 <= j < units.len() && i != j implies units[i]
            != units[j] by {
            if i < j {
                assert(self.pending@[i].unit < self.pending@[j].unit);
            } else {
                assert(self.pending@[j].unit < self.pending@[i].unit);
            }
        }
        assert(units.no_duplicates());
        units.unique_seq_to_set();
    }

    /// Prepares a request: the unit it goes on, the kind of unit to open,
    /// its payload, and whether a reply is awaited, in which case the
    /// exchange becomes pending. A shared unit carries one exchange only.
    pub fn begin(&mut self, msg: &Message) -> (r: Result<Outbound, SessionError>)
        requires
            old(self).wf(),
        ensures
            final(self).wf(),
            final(self).config() == old(self).config(),
            match begin_refusal(old(self).config(), old(self).next_unit()) {
                Some(e) => r == Err::<Outbound, SessionError>(e) && *final(self) == *old(self),
                None => r matches Ok(o) && ({
                    &&& o.unit == old(self).next_unit()
                    &&& o.kind == kind_of(old(self).config())
                    &&& o.payload@ == encoding(*msg)
                    &&& o.awaits_reply == (route_of(old(self).config()) != ReplyRoute::NoReply)
                    &&& final(self).next_unit() == old(self).next_unit() + 1
                    &&& final(self).pending_view() == if o.awaits_reply {
                        old(self).pending_view().insert(o.unit, *msg)
                    } else {
                        old(self).pending_view()
                    }
                }),
            },
    {
        if matches!(self.cfg.strategy, StreamStrategy::SharedStream) && self.next_unit > 0 {
            return Err(SessionError::Busy);
        }
        if self.next_unit == u64::MAX {
            return Err(SessionError::UnitsExhausted);
        }
        let unit = self.next_unit;
        let kind = match self.cfg.direction {
            Direction::Bidirectional => UnitKind::Duplex,
            Direction::Unidirectional => UnitKind::Simplex,
        };
        let awaits_reply = !matches!(self.cfg.route(), ReplyRoute::NoReply);
        let payload = encode(msg);
        if awaits_reply {
            let ghost old_pending = self.pending@;
            let ghost old_model = self.model@;
            self.pending.push(Pending { unit, request: *msg });
            self.model = Ghost(self.model@.insert(unit, *msg));
            proof {
                assert forall|a: int| 0 <= a < self.pending@.len() implies #[trigger] self.model@.contains_key(
                    self.pending@[a].unit,
                ) && self.model@[self.pending@[a].unit] == self.pending@[a].request by {
                    if a < old_pending.len() {
                        assert(self.pending@[a] == old_pending[a]);
                        assert(old_pending[a].unit < unit);
                        assert(old_model.contains_key(old_pending[a].unit));
                    }
                }
                assert forall|a: int, b: int| 0 <= a < b < self.pending@.len() implies self.pending@[a].unit
                    < self.pending@[b].unit by {
                    assert(self.pending@[a] == old_pending[a]);
                    if b < old_pending.len() {
                        assert(self.pending@[b] == old_pending[b]);
                    }
                }
                assert forall|u: u64| #[trigger] self.model@.contains_key(u) implies exists|i: int|
                    0 <= i < self.pending@.len() && self.pending@[i].unit == u by {
                    if u == unit {
                        assert(self.pending@[old_pending.len() as int].unit == u);
                    } else {
                        let i = choose|i: int| 0 <= i < old_pending.len() && old_pending[i].unit == u;
                        assert(self.pending@[i].unit == u);
                    }
                }
                assert forall|a: int| 0 <= a < self.pending@.len() implies self.pending@[a].unit < unit + 1 by {
                    if a < old_pending.len() {
                        assert(self.pending@[a] == old_pending[a]);
                    }
                }
            }
        }
        self.next_unit = unit + 1;
        proof {
            assert(self.wf());
        }
        Ok(Outbound { unit, kind, payload, awaits_reply })
    }

    /// Completes the pending exchange on `unit` with the read of its reply.
    /// The exchange leaves the pending set whether the reply was good or
    /// not; the other exchanges are untouched.
    pub fn complete(&mut self, unit: u64, read: Result<Vec<u8>, TransportError>) -> (r: Result<
        Completion,
        SessionError,
    >)
        requires
            old(self).wf(),
        ensures
            final(self).wf(),
            final(self).config() == old(self).config(),
            final(self).next_unit() == old(self).next_unit(),
            final(self).pending_view() == old(self).pending_view().remove(unit),
            r == completion(old(self).config(), old(self).pending_view(), unit, read_view(read)),
    {
        let mut i: usize = 0;
        while i < self.pending.len() && self.pending[i].unit != unit
            invariant
                self.wf(),
                0 <= i <= self.pending@.len(),
                forall|j: int| 0 <= j < i ==> self.pending@[j].unit != unit,
            decreases self.pending@.len() - i,
        {
            i = i + 1;
        }
        if i == self.pending.len() {
            proof {
                if self.model@.contains_key(unit) {
                    let k = choose|k: int| 0 <= k < self.pending@.len() && self.pending@[k].unit == unit;
                    assert(self.pending@[k].unit != unit);
                }
                assert(self.model@.remove(unit) =~= self.model@);
            }
            return Err(SessionError::UnknownUnit);
        }
        self.take_at(i, read)
    }

    /// Completes the oldest pending exchange with the read of a reply that
    /// came on a unit of the responder's: replies are matched to requests
    /// by position.
    pub fn complete_next(&mut self, read: Result<Vec<u8>, TransportError>) -> (r: Result<
        Completion,
        SessionError,
    >)
        requires
            old(self).wf(),
        ensures
            final(self).wf(),
            final(self).config() == old(self).config(),
            final(self).next_unit() == old(self).next_unit(),
            old(self).pending_view().len() == 0 ==> r == Err::<Completion, SessionError>(
                SessionError::NothingPending,
            ) && *final(self) == *old(self),
            old(self).pending_view().len() > 0 ==> exists|u: u64|
                is_oldest(old(self).pending_view(), u) && final(self).pending_view() == old(
                    self,
                ).pending_view().remove(u) && r == completion(
                    old(self).config(),
                    old(self).pending_view(),
                    u,
                    read_view(read),
                ),
    {
        proof {
            self.lemma_view_domain();
        }
        if self.pending.len() == 0 {
            return Err(SessionError::NothingPending);
        }
        proof {
            let u = self.pending@[0].unit;
            assert forall|k: u64| self.model@.contains_key(k) implies u <= k by {
                let j = choose|j: int| 0 <= j < self.pending@.len() && self.pending@[j].unit == k;
                if j > 0 {
                    assert(self.pending@[0].unit < self.pending@[j].unit);
                }
            }
        }
        self.take_at(0, read)
    }

    fn take_at(&mut self, i: usize, read: Result<Vec<u8>, TransportError>) -> (r: Result<Completion, SessionError>)
        requires
            old(self).wf(),
            i < old(self).pending@.len(),
        ensures
            final(self).wf(),
            final(self).cfg == old(self).cfg,
            final(self).next_unit == old(self).next_unit,
            final(self).model@ == old(self).model@.remove(old(self).pending@[i as int].unit),
            r == completion(old(self).cfg, old(self).model@, old(self).pending@[i as int].unit, read_view(read)),
    {
        let ghost old_pending = self.pending@;
        let ghost old_model = self.model@;
        let p = self.pending.remove(i);
        self.model = Ghost(self.model@.remove(p.unit));
        proof {
            assert forall|a: int, b: int| 0 <= a < b < self.pending@.len() implies self.pending@[a].unit
                < self.pending@[b].unit by {
                let a0 = if a < i { a } else { a + 1 };
                let b0 = if b < i { b } else { b + 1 };
                assert(self.pending@[a] == old_pending[a0]);
                assert(self.pending@[b] == old_pending[b0]);
            }
            assert forall|a: int| 0 <= a < self.pending@.len() implies #[trigger] self.model@.contains_key(
                self.pending@[a].unit,
            ) && self.model@[self.pending@[a].unit] == self.pending@[a].request by {
                let a0 = if a < i { a } else { a + 1 };
                assert(self.pending@[a] == old_pending[a0]);
                assert(old_model.contains_key(old_pending[a0].unit));
                if a0 < i {
                    assert(old_pending[a0].unit < old_pending[i as int].unit);
                } else {
                    assert(old_pending[i as int].unit < old_pending[a0].unit);
                }
            }
            assert forall|u: u64| #[trigger] self.model@.contains_key(u) implies exists|a: int|
                0 <= a < self.pending@.len() && self.pending@[a].unit == u by {
                let k = choose|k: int| 0 <= k < old_pending.len() && old_pending[k].unit == u;
                assert(k != i);
                let a = if k < i { k } else { k - 1 };
                assert(self.pending@[a] == old_pending[k]);
            }
            assert forall|a: int| 0 <= a < self.pending@.len() implies self.pending@[a].unit < self.next_unit by {
                let a0 = if a < i { a } else { a + 1 };
                assert(self.pending@[a] == old_pending[a0]);
            }
            assert(self.wf());
        }
        match receive_payload(&self.cfg, read) {
            Ok(m) => Ok(Completion { unit: p.unit, request: p.request, reply: m }),
            Err(e) => Err(SessionError::Exchange(e)),
        }
    }
}

/// Exchanges on distinct units are independent: completing `a` and `b` in
/// either order gives each the same outcome and leaves the same pending set.
pub proof fn lemma_completion_order_free(
    cfg: SessionConfig,
    pending: Map<u64, Message>,
    a: u64,
    b: u64,
    read_a: Result<Seq<u8>, TransportError>,
    read_b: Result<Seq<u8>, TransportError>,
)
    requires
        a != b,
    ensures
        completion(cfg, pending, a, read_a) == completion(cfg, pending.remove(b), a, read_a),
        completion(cfg, pending, b, read_b) == completion(cfg, pending.remove(a), b, read_b),
        pending.remove(a).remove(b) == pending.remove(b).remove(a),
{
    assert(pending.remove(a).remove(b) =~= pending.remove(b).remove(a));
}

/// A reply that carries the encoding of the request, as an echoing
/// responder sends, completes the exchange with the request as its reply.
pub proof fn lemma_echo_matches(
    cfg: SessionConfig,
    pending: Map<u64, Message>,
    unit: u64,
)
    requires
        pending.contains_key(unit),
        encoding(pending[unit]).len() <= cfg.max_bytes,
    ensures
        completion(cfg, pending, unit, Ok(encoding(pending[unit]))) == Ok::<Completion, SessionError>(
            Completion { unit, request: pending[unit], reply: pending[unit] },
        ),
{
    crate::exchange::lemma_echo_served(cfg, pending[unit]);
}

} // verus!
