use webtransport_echo::acceptor::{
    AcceptAction, AcceptorState, ChannelKind, SessionAcceptor, SessionEvent,
};
use webtransport_echo::channel::{HandlerStatus, StopReason};
use webtransport_echo::server::Listener;

fn active_acceptor() -> SessionAcceptor {
    let mut s = SessionAcceptor::new();
    s.on_inbound();
    s.on_negotiated(true);
    s
}

#[test]
fn acceptor_lifecycle_to_active() {
    let mut s = SessionAcceptor::new();
    assert_eq!(s.state(), AcceptorState::Listening);
    s.on_inbound();
    assert_eq!(s.state(), AcceptorState::Negotiating);
    s.on_negotiated(true);
    assert_eq!(s.state(), AcceptorState::Active);
    assert_eq!(s.channel_count(), 0);
}

#[test]
fn acceptor_negotiation_failure_closes() {
    let mut s = SessionAcceptor::new();
    s.on_inbound();
    s.on_negotiated(false);
    assert_eq!(s.state(), AcceptorState::Closed);
}

#[test]
fn acceptor_spawns_one_handler_per_channel() {
    let mut s = active_acceptor();
    match s.step(SessionEvent::BiAccepted) {
        AcceptAction::SpawnBistream(idx) => assert_eq!(idx, 0),
        _ => panic!("a new bidirectional channel must get its own handler"),
    }
    match s.step(SessionEvent::UniAccepted) {
        AcceptAction::SpawnUnistream(idx) => assert_eq!(idx, 1),
        _ => panic!("a new unidirectional channel must get its own handler"),
    }
    assert_eq!(s.channel_count(), 2);
    assert_eq!(s.channel(0).kind, ChannelKind::Bidirectional);
    assert_eq!(s.channel(1).kind, ChannelKind::Unidirectional);
    assert_eq!(s.channel(0).status, HandlerStatus::Running);
    assert_eq!(s.channel(1).status, HandlerStatus::Running);
}

#[test]
fn acceptor_echoes_datagram_inline() {
    let mut s = active_acceptor();
    match s.step(SessionEvent::DatagramReceived(b"ping".to_vec())) {
        AcceptAction::ReplyDatagram(r) => assert_eq!(r, b"Received: ping".to_vec()),
        _ => panic!("a well-formed datagram must be answered inline"),
    }
    assert_eq!(s.state(), AcceptorState::Active);
}

#[test]
fn acceptor_discards_malformed_datagram() {
    let mut s = active_acceptor();
    match s.step(SessionEvent::DatagramReceived(vec![0xf0, 0x28])) {
        AcceptAction::DiscardDatagram => {}
        _ => panic!("a malformed datagram must be discarded, not fatal"),
    }
    assert_eq!(s.state(), AcceptorState::Active);
    match s.step(SessionEvent::DatagramReceived(b"ok".to_vec())) {
        AcceptAction::ReplyDatagram(r) => assert_eq!(r, b"Received: ok".to_vec()),
        _ => panic!("the datagram loop must keep echoing afterwards"),
    }
}

#[test]
fn channel_failure_stays_contained() {
    let mut s = active_acceptor();
    for _ in 0..3 {
        s.step(SessionEvent::BiAccepted);
    }
    match s.step(SessionEvent::ChannelStopped(1, StopReason::Transport)) {
        AcceptAction::Continue => {}
        _ => panic!("a channel loss asks nothing more of the driver"),
    }
    assert_eq!(s.state(), AcceptorState::Active);
    assert_eq!(s.channel(0).status, HandlerStatus::Running);
    assert_eq!(s.channel(1).status, HandlerStatus::Stopped(StopReason::Transport));
    assert_eq!(s.channel(2).status, HandlerStatus::Running);
    match s.step(SessionEvent::DatagramReceived(b"alive".to_vec())) {
        AcceptAction::ReplyDatagram(r) => assert_eq!(r, b"Received: alive".to_vec()),
        _ => panic!("the datagram loop must survive a channel loss"),
    }
}

#[test]
fn many_simultaneous_accepts_all_serviced() {
    let mut s = active_acceptor();
    let n = 16;
    for k in 0..n {
        match s.step(SessionEvent::BiAccepted) {
            AcceptAction::SpawnBistream(idx) => assert_eq!(idx, k),
            _ => panic!("every pending request must be accepted"),
        }
    }
    assert_eq!(s.channel_count(), n);
    for k in 0..n {
        assert_eq!(s.channel(k).status, HandlerStatus::Running);
        assert_eq!(s.channel(k).kind, ChannelKind::Bidirectional);
    }
}

#[test]
fn session_close_cancels_outstanding_handlers() {
    let mut s = active_acceptor();
    s.step(SessionEvent::BiAccepted);
    s.step(SessionEvent::BiAccepted);
    s.step(SessionEvent::ChannelStopped(0, StopReason::EndOfStream));
    match s.step(SessionEvent::SessionClosed) {
        AcceptAction::ShutdownAll => {}
        _ => panic!("session closure must shut everything down"),
    }
    assert_eq!(s.state(), AcceptorState::Closed);
    assert_eq!(s.channel(0).status, HandlerStatus::Stopped(StopReason::EndOfStream));
    assert_eq!(s.channel(1).status, HandlerStatus::Stopped(StopReason::Cancelled));
}

#[test]
fn closing_one_session_leaves_siblings_alone() {
    let mut l = Listener::new();
    let a = l.on_incoming();
    let b = l.on_incoming();
    l.session_inbound(a);
    l.session_negotiated(a, true);
    l.session_inbound(b);
    l.session_negotiated(b, true);
    l.session_step(b, SessionEvent::BiAccepted);
    match l.close_session(a) {
        AcceptAction::ShutdownAll => {}
        _ => panic!("closing a session must shut it down"),
    }
    assert_eq!(l.session_state(a), AcceptorState::Closed);
    assert_eq!(l.session_state(b), AcceptorState::Active);
    match l.session_step(b, SessionEvent::DatagramReceived(b"hello b".to_vec())) {
        AcceptAction::ReplyDatagram(r) => assert_eq!(r, b"Received: hello b".to_vec()),
        _ => panic!("the sibling session must keep working"),
    }
}
