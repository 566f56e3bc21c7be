use stream_echo::acceptor::{AcceptEvent, Acceptor, AcceptorAction};
use stream_echo::config::{Correlation, Direction, ErrorPolicy, SessionConfig, StreamStrategy};
use stream_echo::exchange::{receive_payload, serve_unit, ExchangeError, Reply, Served, TransportError};
use stream_echo::lifecycle::{ConnState, Lifecycle};
use stream_echo::message::{encode, DecodeError, Message};
use stream_echo::session::{Initiator, SessionError, UnitKind};

fn cfg(
    strategy: StreamStrategy,
    direction: Direction,
    correlation: Correlation,
    policy: ErrorPolicy,
    max_bytes: usize,
) -> SessionConfig {
    SessionConfig::new(strategy, direction, correlation, policy, max_bytes, 8).unwrap()
}

fn per_unit() -> SessionConfig {
    cfg(
        StreamStrategy::StreamPerMessage,
        Direction::Bidirectional,
        Correlation::PerUnit,
        ErrorPolicy::Strict,
        1024,
    )
}

#[test]
fn size_limit_is_inclusive() {
    let c = cfg(
        StreamStrategy::StreamPerMessage,
        Direction::Bidirectional,
        Correlation::PerUnit,
        ErrorPolicy::Strict,
        1,
    );
    assert_eq!(receive_payload(&c, Ok(vec![1])), Ok(Message::Ping));
    assert_eq!(
        receive_payload(&c, Ok(vec![1, 1])),
        Err(ExchangeError::Transport(TransportError::OversizedMessage))
    );
    let c3 = SessionConfig { max_bytes: 3, ..c };
    assert_eq!(
        receive_payload(&c3, Ok(vec![0, 0, 0])),
        Err(ExchangeError::Decode(DecodeError::Malformed))
    );
    assert_eq!(
        receive_payload(&c3, Ok(vec![0, 0, 0, 0])),
        Err(ExchangeError::Transport(TransportError::OversizedMessage))
    );
}

#[test]
fn transport_errors_pass_through() {
    assert_eq!(
        receive_payload(&per_unit(), Err(TransportError::ConnectionClosed)),
        Err(ExchangeError::Transport(TransportError::ConnectionClosed))
    );
    assert_eq!(
        serve_unit(&per_unit(), Err(TransportError::Failed)),
        Err(ExchangeError::Transport(TransportError::Failed))
    );
}

#[test]
fn lenient_policy_serves_default() {
    let c = cfg(
        StreamStrategy::StreamPerMessage,
        Direction::Bidirectional,
        Correlation::PerUnit,
        ErrorPolicy::Lenient,
        1024,
    );
    assert_eq!(
        serve_unit(&c, Ok(vec![42])),
        Ok(Served { received: Message::Echo, reply: Reply::OnSameUnit(vec![0]) })
    );
    assert_eq!(
        serve_unit(&per_unit(), Ok(vec![42])),
        Err(ExchangeError::Decode(DecodeError::Malformed))
    );
}

#[test]
fn echo_on_same_unit() {
    let c = per_unit();
    let mut session = Initiator::new(&c);
    let out = session.begin(&Message::Echo).unwrap();
    assert_eq!(out.kind, UnitKind::Duplex);
    assert!(out.awaits_reply);
    let served = serve_unit(&c, Ok(out.payload.clone())).unwrap();
    let reply = match served.reply {
        Reply::OnSameUnit(b) => b,
        other => panic!("unexpected reply {:?}", other),
    };
    let done = session.complete(out.unit, Ok(reply)).unwrap();
    assert_eq!(done.request, Message::Echo);
    assert_eq!(done.reply, Message::Echo);
    assert_eq!(session.pending_count(), 0);
}

#[test]
fn three_messages_on_new_units() {
    let c = SessionConfig::per_message_echo();
    let mut session = Initiator::new(&c);
    let mut replies = Vec::new();
    for m in [Message::Echo, Message::Ping, Message::Pong] {
        let out = session.begin(&m).unwrap();
        match serve_unit(&c, Ok(out.payload)).unwrap().reply {
            Reply::OnNewUnit(b) => replies.push(b),
            other => panic!("unexpected reply {:?}", other),
        }
    }
    assert_eq!(session.pending_count(), 3);
    replies.reverse();
    let mut got = Vec::new();
    for r in replies {
        got.push(session.complete_next(Ok(r)).unwrap().reply);
    }
    got.sort_by_key(|m| encode(m));
    assert_eq!(got, vec![Message::Echo, Message::Ping, Message::Pong]);
    assert_eq!(session.complete_next(Ok(vec![0])), Err(SessionError::NothingPending));
}

#[test]
fn replies_in_either_order() {
    let c = per_unit();
    let mut session = Initiator::new(&c);
    let a = session.begin(&Message::Ping).unwrap();
    let b = session.begin(&Message::Pong).unwrap();
    assert_ne!(a.unit, b.unit);
    let rb = session.complete(b.unit, Ok(encode(&Message::Pong))).unwrap();
    let ra = session.complete(a.unit, Ok(encode(&Message::Ping))).unwrap();
    assert_eq!((rb.request, rb.reply), (Message::Pong, Message::Pong));
    assert_eq!((ra.request, ra.reply), (Message::Ping, Message::Ping));
    assert_eq!(session.complete(a.unit, Ok(vec![1])), Err(SessionError::UnknownUnit));
}

#[test]
fn failed_exchange_leaves_others() {
    let c = per_unit();
    let mut session = Initiator::new(&c);
    let a = session.begin(&Message::Echo).unwrap();
    let b = session.begin(&Message::Ping).unwrap();
    assert_eq!(
        session.complete(a.unit, Ok(vec![])),
        Err(SessionError::Exchange(ExchangeError::Decode(DecodeError::Truncated)))
    );
    assert_eq!(session.pending_count(), 1);
    assert_eq!(session.complete(b.unit, Ok(vec![1])).unwrap().reply, Message::Ping);
}

#[test]
fn shared_stream_carries_one_exchange() {
    let c = cfg(
        StreamStrategy::SharedStream,
        Direction::Bidirectional,
        Correlation::PerUnit,
        ErrorPolicy::Strict,
        64,
    );
    let mut session = Initiator::new(&c);
    let out = session.begin(&Message::Ping).unwrap();
    assert_eq!(out.payload, vec![1]);
    assert_eq!(session.begin(&Message::Pong), Err(SessionError::Busy));
}

#[test]
fn simplex_messages_await_nothing() {
    let c = cfg(
        StreamStrategy::StreamPerMessage,
        Direction::Unidirectional,
        Correlation::Positional,
        ErrorPolicy::Strict,
        64,
    );
    let mut session = Initiator::new(&c);
    let out = session.begin(&Message::Pong).unwrap();
    assert_eq!(out.kind, UnitKind::Simplex);
    assert!(!out.awaits_reply);
    assert_eq!(session.pending_count(), 0);
    assert_eq!(
        serve_unit(&c, Ok(out.payload)),
        Ok(Served { received: Message::Pong, reply: Reply::Silent })
    );
}

fn drive(acc: &mut Acceptor, ev: AcceptEvent) -> AcceptorAction {
    assert!(acc.permits(ev));
    acc.step(ev)
}

#[test]
fn failing_unit_does_not_stop_acceptor() {
    let c = per_unit();
    let mut acc = Acceptor::new(&c);
    let payloads = vec![vec![0u8], vec![1], vec![99], vec![2], vec![0]];
    let mut outcomes = Vec::new();
    for p in &payloads {
        assert_eq!(drive(&mut acc, AcceptEvent::Accepted), AcceptorAction::AcceptNext);
        outcomes.push(serve_unit(&c, Ok(p.clone())).is_ok());
    }
    for ok in &outcomes {
        assert_ne!(drive(&mut acc, AcceptEvent::TaskFinished(*ok)), AcceptorAction::Stop);
    }
    assert_eq!(outcomes, vec![true, true, false, true, true]);
    assert_eq!((acc.served, acc.failed, acc.in_flight), (4, 1, 0));
    assert!(acc.open);
    assert_eq!(acc.next_action(), AcceptorAction::AcceptNext);
}

#[test]
fn thousand_simplex_units() {
    let c = cfg(
        StreamStrategy::StreamPerMessage,
        Direction::Unidirectional,
        Correlation::Positional,
        ErrorPolicy::Strict,
        64,
    );
    let mut acc = Acceptor::new(&c);
    let mut running = 0usize;
    for i in 0..1000u32 {
        while acc.next_action() == AcceptorAction::AwaitTask {
            drive(&mut acc, AcceptEvent::TaskFinished(true));
            running -= 1;
        }
        assert_eq!(acc.next_action(), AcceptorAction::AcceptNext);
        drive(&mut acc, AcceptEvent::Accepted);
        running += 1;
        assert!(acc.in_flight <= c.max_in_flight);
        let m = [Message::Echo, Message::Ping, Message::Pong][(i % 3) as usize];
        assert_eq!(serve_unit(&c, Ok(encode(&m))).unwrap().reply, Reply::Silent);
    }
    assert_eq!(
        drive(&mut acc, AcceptEvent::AcceptFailed(TransportError::Failed)),
        AcceptorAction::AwaitTask
    );
    assert!(acc.open);
    drive(&mut acc, AcceptEvent::AcceptFailed(TransportError::ConnectionClosed));
    while running > 0 {
        drive(&mut acc, AcceptEvent::TaskFinished(true));
        running -= 1;
    }
    assert_eq!(acc.next_action(), AcceptorAction::Stop);
    assert_eq!(acc.accepted, 1000);
    assert_eq!(acc.served, 1000);
}

#[test]
fn acceptor_refuses_over_cap() {
    let c = SessionConfig { max_in_flight: 2, ..per_unit() };
    let mut acc = Acceptor::new(&c);
    drive(&mut acc, AcceptEvent::Accepted);
    assert_eq!(drive(&mut acc, AcceptEvent::Accepted), AcceptorAction::AwaitTask);
    assert!(!acc.permits(AcceptEvent::Accepted));
}

#[test]
fn close_ends_reads_in_flight() {
    let mut life = Lifecycle::new();
    assert_eq!(life.settle_read(Ok(vec![1])), Ok(vec![1]));
    assert!(life.admit_unit().is_ok());
    assert!(life.close(0, b"bye!".to_vec()));
    assert_eq!(life.state, ConnState::ClosedLocally { code: 0, reason: b"bye!".to_vec() });
    assert_eq!(life.settle_read(Ok(vec![1])), Err(TransportError::ConnectionClosed));
    assert_eq!(life.admit_unit(), Err(TransportError::ConnectionClosed));
    assert!(!life.close(7, vec![]));
    life.on_peer_closed();
    assert_eq!(life.state, ConnState::ClosedLocally { code: 0, reason: b"bye!".to_vec() });
}

#[test]
fn peer_close_is_distinguished() {
    let mut life = Lifecycle::new();
    life.on_peer_closed();
    assert_eq!(life.state, ConnState::ClosedByPeer);
    assert!(!life.is_open());
    assert_eq!(life.settle_read(Err(TransportError::Failed)), Err(TransportError::ConnectionClosed));
}
