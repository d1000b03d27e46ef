use flexible_hyper_server_tls::accept::{AcceptAction, AcceptEvent, AcceptLoop};
use flexible_hyper_server_tls::handshake::{HandshakeManager, HandshakeOutcome, SubmitError};
use flexible_hyper_server_tls::peer::PeerAddr;
use flexible_hyper_server_tls::stream::{ShutdownState, ShutdownStep, StreamKind};

fn peer(n: u16) -> PeerAddr {
    PeerAddr::v4(0x7f00_0001, n)
}

#[test]
fn submit_sets_deadline_from_timeout() {
    let mut m = HandshakeManager::new(50, None);
    assert_eq!(m.submit(1, peer(1), 1000), Ok(1050));
    assert_eq!(m.in_flight_len(), 1);
    assert_eq!(m.next_deadline(), Some(1050));
}

#[test]
fn deadline_stops_at_the_largest_instant() {
    let mut m = HandshakeManager::new(u64::MAX, None);
    assert_eq!(m.submit(1, peer(1), 5), Ok(u64::MAX));
}

#[test]
fn duplicate_id_is_refused() {
    let mut m = HandshakeManager::new(50, None);
    assert_eq!(m.submit(7, peer(1), 0), Ok(50));
    assert_eq!(m.submit(7, peer(2), 0), Err(SubmitError::DuplicateId));
    assert_eq!(m.in_flight_len(), 1);
}

#[test]
fn capacity_bound_refuses_extra_handshakes() {
    let mut m = HandshakeManager::new(50, Some(2));
    assert!(m.submit(1, peer(1), 0).is_ok());
    assert!(m.submit(2, peer(2), 0).is_ok());
    assert_eq!(m.submit(3, peer(3), 0), Err(SubmitError::AtCapacity));
    let _ = m.complete(1, true, 10);
    assert_eq!(m.submit(3, peer(3), 10), Ok(60));
}

#[test]
fn completion_before_deadline_succeeds_or_fails() {
    let mut m = HandshakeManager::new(100, None);
    m.submit(1, peer(1), 0).unwrap();
    m.submit(2, peer(2), 0).unwrap();
    match m.complete(2, false, 10) {
        HandshakeOutcome::Failed(p) => assert_eq!((p.id, p.peer), (2, peer(2))),
        other => panic!("unexpected {:?}", other),
    }
    match m.complete(1, true, 20) {
        HandshakeOutcome::Succeeded(p) => assert_eq!(p.id, 1),
        other => panic!("unexpected {:?}", other),
    }
    assert_eq!(m.complete(1, true, 30), HandshakeOutcome::NotInFlight);
    assert_eq!(m.counts(), (2, 1, 1, 0));
}

#[test]
fn completion_at_deadline_is_a_timeout() {
    let mut m = HandshakeManager::new(50, None);
    m.submit(1, peer(1), 0).unwrap();
    assert!(matches!(m.complete(1, true, 50), HandshakeOutcome::TimedOut(_)));
    assert_eq!(m.counts(), (1, 0, 0, 1));
}

#[test]
fn zero_timeout_never_succeeds() {
    let mut m = HandshakeManager::new(0, None);
    m.submit(1, peer(1), 100).unwrap();
    assert!(matches!(m.complete(1, true, 100), HandshakeOutcome::TimedOut(_)));
    m.submit(2, peer(2), 200).unwrap();
    // An earlier instant does not move the clock back.
    assert!(matches!(m.complete(2, true, 0), HandshakeOutcome::TimedOut(_)));
}

#[test]
fn expire_drops_only_late_handshakes() {
    let mut m = HandshakeManager::new(50, None);
    m.submit(1, peer(1), 0).unwrap();
    m.submit(3, peer(3), 10).unwrap();
    m.submit(2, peer(2), 30).unwrap();
    let dropped = m.expire(60);
    let ids: Vec<u64> = dropped.iter().map(|p| p.id).collect();
    assert_eq!(ids, vec![1, 3]);
    assert_eq!(m.in_flight_len(), 1);
    assert_eq!(m.next_deadline(), Some(80));
    assert_eq!(m.counts(), (3, 0, 0, 2));
}

#[test]
fn every_submission_ends_in_one_outcome() {
    let mut m = HandshakeManager::new(100, None);
    for id in 0..10u64 {
        m.submit(id, peer(id as u16), id).unwrap();
    }
    for id in 0..4u64 {
        let _ = m.complete(id, id % 2 == 0, 50);
    }
    let dropped = m.expire(500);
    assert_eq!(dropped.len(), 6);
    let (submitted, ok, failed, timed_out) = m.counts();
    assert_eq!(submitted, 10);
    assert_eq!(ok + failed + timed_out, 10);
    assert_eq!((ok, failed, timed_out), (2, 2, 6));
    assert_eq!(m.next_deadline(), None);
}

#[test]
fn plain_loop_serves_at_once() {
    let mut l = AcceptLoop::new(StreamKind::Plain, 10_000, None);
    let acts = l.step(AcceptEvent::RawAccepted { conn: 4, peer: peer(9) }, 0);
    assert_eq!(acts, vec![AcceptAction::Serve { conn: 4, peer: peer(9), kind: StreamKind::Plain }]);
    assert_eq!(l.step(AcceptEvent::RawAcceptFailed, 1), vec![AcceptAction::ReportAcceptError]);
    assert!(l.step(AcceptEvent::DeadlineReached, 2).is_empty());
    assert_eq!(l.handshakes.in_flight_len(), 0);
}

#[test]
fn secure_loop_serves_after_handshake() {
    let mut l = AcceptLoop::new(StreamKind::Secure, 50, None);
    let acts = l.step(AcceptEvent::RawAccepted { conn: 1, peer: peer(1) }, 0);
    assert_eq!(acts, vec![AcceptAction::StartHandshake { conn: 1, peer: peer(1), deadline_ms: 50 }]);
    let acts = l.step(AcceptEvent::RawAccepted { conn: 2, peer: peer(2) }, 5);
    assert_eq!(acts, vec![AcceptAction::StartHandshake { conn: 2, peer: peer(2), deadline_ms: 55 }]);
    let acts = l.step(AcceptEvent::HandshakeFinished { conn: 2, ok: true }, 10);
    assert_eq!(acts, vec![AcceptAction::Serve { conn: 2, peer: peer(2), kind: StreamKind::Secure }]);
    let acts = l.step(AcceptEvent::DeadlineReached, 50);
    assert_eq!(acts, vec![AcceptAction::DropTimedOut { conn: 1, peer: peer(1) }]);
    assert!(l.step(AcceptEvent::HandshakeFinished { conn: 1, ok: true }, 51).is_empty());
}

#[test]
fn secure_loop_reports_failed_handshake() {
    let mut l = AcceptLoop::new(StreamKind::Secure, 50, Some(1));
    l.step(AcceptEvent::RawAccepted { conn: 1, peer: peer(1) }, 0);
    let acts = l.step(AcceptEvent::RawAccepted { conn: 2, peer: peer(2) }, 0);
    assert_eq!(
        acts,
        vec![AcceptAction::Refuse { conn: 2, peer: peer(2), reason: SubmitError::AtCapacity }]
    );
    let acts = l.step(AcceptEvent::HandshakeFinished { conn: 1, ok: false }, 3);
    assert_eq!(acts, vec![AcceptAction::ReportHandshakeError { conn: 1, peer: peer(1) }]);
}

#[test]
fn slow_handshake_does_not_block_later_clients() {
    let mut l = AcceptLoop::new(StreamKind::Secure, 50, None);
    l.step(AcceptEvent::RawAccepted { conn: 1, peer: peer(1) }, 0);
    l.step(AcceptEvent::RawAccepted { conn: 2, peer: peer(2) }, 1);
    let acts = l.step(AcceptEvent::HandshakeFinished { conn: 2, ok: true }, 2);
    assert_eq!(acts, vec![AcceptAction::Serve { conn: 2, peer: peer(2), kind: StreamKind::Secure }]);
    // The stalled client finishes only after its deadline.
    let acts = l.step(AcceptEvent::HandshakeFinished { conn: 1, ok: true }, 200);
    assert_eq!(acts, vec![AcceptAction::DropTimedOut { conn: 1, peer: peer(1) }]);
}

#[test]
fn second_shutdown_is_a_no_op() {
    let mut s = ShutdownState::new();
    assert_eq!(s.request_shutdown(), ShutdownStep::Forward);
    // The transport has not finished yet: the request is passed on again.
    s.record_shutdown(false);
    assert_eq!(s.request_shutdown(), ShutdownStep::Forward);
    s.record_shutdown(true);
    assert_eq!(s.request_shutdown(), ShutdownStep::AlreadyShutDown);
    s.record_shutdown(false);
    assert_eq!(s.request_shutdown(), ShutdownStep::AlreadyShutDown);
    assert!(s.shut_down);
}

#[test]
fn zero_timeout_loop_drops_an_instant_handshake() {
    let mut l = AcceptLoop::new(StreamKind::Secure, 0, None);
    let acts = l.step(AcceptEvent::RawAccepted { conn: 1, peer: peer(1) }, 5);
    assert_eq!(acts, vec![AcceptAction::StartHandshake { conn: 1, peer: peer(1), deadline_ms: 5 }]);
    let acts = l.step(AcceptEvent::HandshakeFinished { conn: 1, ok: true }, 5);
    assert_eq!(acts, vec![AcceptAction::DropTimedOut { conn: 1, peer: peer(1) }]);
    let acts = l.step(AcceptEvent::RawAccepted { conn: 2, peer: peer(2) }, 6);
    assert_eq!(acts, vec![AcceptAction::StartHandshake { conn: 2, peer: peer(2), deadline_ms: 6 }]);
}

#[test]
fn peer_addresses_keep_their_parts() {
    let a = PeerAddr::v4(0x0a00_0001, 8080);
    assert_eq!((a.ip, a.port, a.is_v6), (0x0a00_0001, 8080, false));
    let b = PeerAddr::v6(1, 443);
    assert_eq!((b.ip, b.port, b.is_v6), (1, 443, true));
}

#[test]
fn hundred_plain_clients_are_each_served_once() {
    let mut l = AcceptLoop::new(StreamKind::Plain, 10_000, None);
    let mut served = Vec::new();
    for conn in 0..100u64 {
        let acts = l.step(AcceptEvent::RawAccepted { conn, peer: peer(conn as u16) }, conn);
        assert_eq!(acts.len(), 1);
        match acts[0] {
            AcceptAction::Serve { conn: c, peer: p, kind: StreamKind::Plain } => {
                assert_eq!(p, peer(conn as u16));
                served.push(c);
            }
            other => panic!("unexpected {:?}", other),
        }
    }
    assert_eq!(served, (0..100u64).collect::<Vec<u64>>());
}

#[test]
fn mixed_handshake_durations_give_one_outcome_each() {
    let mut l = AcceptLoop::new(StreamKind::Secure, 50, None);
    let durations: [u64; 8] = [5, 200, 49, 50, 0, 120, 10, 75];
    for (i, _) in durations.iter().enumerate() {
        let acts = l.step(AcceptEvent::RawAccepted { conn: i as u64, peer: peer(i as u16) }, 0);
        assert!(matches!(acts[0], AcceptAction::StartHandshake { deadline_ms: 50, .. }));
    }
    let mut order: Vec<usize> = (0..durations.len()).collect();
    order.sort_by_key(|&i| durations[i]);
    let mut outcomes = 0;
    for i in order {
        if durations[i] >= 50 {
            outcomes += l.step(AcceptEvent::DeadlineReached, 50).len();
        }
        outcomes += l.step(AcceptEvent::HandshakeFinished { conn: i as u64, ok: i % 3 != 0 }, durations[i]).len();
    }
    assert_eq!(outcomes, durations.len());
    let (submitted, ok, failed, timed_out) = l.handshakes.counts();
    assert_eq!((submitted, ok, failed, timed_out), (8, 2, 2, 4));
}
