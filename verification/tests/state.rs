use kcp_link::conn_id::ConnId;
use kcp_link::conn_state::{forwarded_reply, next_slot, KcpConnectionState, MAX_SYN_ACK_RETRIES};
use kcp_link::error::Error;
use kcp_link::packet_def::{KcpPacket, ACK, DATA, FIN, PING, RST, SYN};
use kcp_link::state::{KcpConnectionFSM, PacketHeaderFlagManipulator, ACK_DATA, SYN_ACK};

const SECOND: u64 = 1_000_000_000;

fn packet(flag: u8) -> KcpPacket {
    let mut p = KcpPacket::new(0);
    p.mut_header().flag = flag;
    p
}

fn step(state: KcpConnectionFSM, flag: u8) -> (KcpConnectionFSM, Option<u8>, bool) {
    let mut fsm = state;
    let mut out = None;
    let result = fsm.handle_packet(&packet(flag), &mut out);
    if let Some(p) = &out {
        assert!(p.payload().is_empty());
    }
    (fsm, out.map(|p| p.header().flag), result.is_ok())
}

#[test]
fn handshake_establishes_both_sides() {
    let mut syn = KcpPacket::new(0);
    assert_eq!(KcpConnectionFSM::connect(&mut syn), KcpConnectionFSM::SynSent);
    assert_eq!(syn.header().flag, SYN);
    assert_eq!(KcpConnectionFSM::listen(), KcpConnectionFSM::Listen);
    assert_eq!(
        step(KcpConnectionFSM::Listen, SYN),
        (KcpConnectionFSM::SynReceived, Some(SYN_ACK), true)
    );
    assert_eq!(
        step(KcpConnectionFSM::SynSent, SYN_ACK),
        (KcpConnectionFSM::Established, Some(ACK_DATA), true)
    );
    assert_eq!(
        step(KcpConnectionFSM::SynReceived, ACK_DATA),
        (KcpConnectionFSM::Established, None, true)
    );
}

#[test]
fn repeated_handshake_packets_get_the_same_answer() {
    assert_eq!(
        step(KcpConnectionFSM::SynReceived, SYN),
        (KcpConnectionFSM::SynReceived, Some(SYN_ACK), true)
    );
    assert_eq!(
        step(KcpConnectionFSM::Established, SYN_ACK),
        (KcpConnectionFSM::Established, Some(ACK_DATA), true)
    );
}

#[test]
fn reset_closes_every_state_without_an_answer() {
    for state in [
        KcpConnectionFSM::SynSent,
        KcpConnectionFSM::SynReceived,
        KcpConnectionFSM::Established,
        KcpConnectionFSM::LocalClosed,
        KcpConnectionFSM::PeerClosed,
        KcpConnectionFSM::Closed,
    ] {
        assert_eq!(step(state, RST), (KcpConnectionFSM::Closed, None, true));
    }
}

#[test]
fn misfits_are_rejected_and_change_nothing() {
    assert_eq!(
        step(KcpConnectionFSM::Listen, ACK | DATA),
        (KcpConnectionFSM::Listen, Some(RST), false)
    );
    assert_eq!(
        step(KcpConnectionFSM::SynSent, ACK | DATA),
        (KcpConnectionFSM::SynSent, Some(RST), false)
    );
    assert_eq!(
        step(KcpConnectionFSM::Established, SYN),
        (KcpConnectionFSM::Established, Some(RST), false)
    );
    assert_eq!(
        step(KcpConnectionFSM::Closed, ACK | DATA),
        (KcpConnectionFSM::Closed, Some(RST), false)
    );
    let mut fsm = KcpConnectionFSM::Closed;
    let mut out = None;
    assert_eq!(
        fsm.handle_packet(&packet(FIN), &mut out),
        Err(Error::InvalidState)
    );
}

#[test]
fn each_side_closes_on_its_own() {
    let mut fin = KcpPacket::new(0);
    let mut a = KcpConnectionFSM::Established;
    assert!(a.close(&mut fin).is_ok());
    assert_eq!(a, KcpConnectionFSM::LocalClosed);
    assert_eq!(fin.header().flag, FIN);
    let (mut b, reply, ok) = step(KcpConnectionFSM::Established, FIN);
    assert_eq!((b, reply, ok), (KcpConnectionFSM::PeerClosed, None, true));
    assert_eq!(step(a, ACK_DATA), (KcpConnectionFSM::LocalClosed, None, true));
    assert!(b.close(&mut KcpPacket::new(0)).is_ok());
    assert_eq!(b, KcpConnectionFSM::Closed);
    assert_eq!(step(a, FIN), (KcpConnectionFSM::Closed, None, true));
}

#[test]
fn closing_twice_is_an_error() {
    let mut fsm = KcpConnectionFSM::LocalClosed;
    let mut out = KcpPacket::new(0);
    assert_eq!(fsm.close(&mut out), Err(Error::InvalidState));
    assert_eq!(fsm, KcpConnectionFSM::LocalClosed);
    assert_eq!(out.header().flag, 0);
}

#[test]
fn flags_are_reached_through_the_packet() {
    let mut p = KcpPacket::new(3);
    p.set_syn(true);
    p.set_ack(true);
    p.set_fin(true);
    p.set_rst(true);
    p.set_data(true);
    assert_eq!(p.header().flag, 0b0001_1111);
    p.set_rst(false);
    assert!(p.has_syn() && p.has_ack() && p.has_fin() && p.has_data() && !p.has_rst());
    assert_eq!(p.payload(), &[0u8, 0, 0][..]);
}

#[test]
fn answers_go_out_only_when_they_should() {
    let open = KcpConnectionFSM::Established;
    let closed = KcpConnectionFSM::Closed;
    let err = Err(Error::InvalidState);
    assert!(forwarded_reply(open, open, err, Some(packet(RST))).is_none());
    assert!(forwarded_reply(open, open, Ok(()), Some(packet(ACK_DATA))).is_some());
    assert!(forwarded_reply(open, closed, err, Some(packet(RST))).is_some());
    assert!(forwarded_reply(open, open, Ok(()), None).is_none());
}

#[test]
fn stray_packet_is_not_answered_but_counts_as_a_sign_of_life() {
    let mut state = KcpConnectionState::new(KcpConnectionFSM::Established, 5);
    let outcome = state.handle_packet(&packet(SYN), 9);
    assert!(outcome.reply.is_none());
    assert!(!outcome.changed);
    assert!(state.is_established());
    assert_eq!(state.last_pong(), 9);
}

#[test]
fn repeated_syn_is_answered() {
    let mut state = KcpConnectionState::new(KcpConnectionFSM::SynReceived, 0);
    let outcome = state.handle_packet(&packet(SYN), 1);
    assert_eq!(outcome.reply.unwrap().header().flag, SYN_ACK);
    assert!(!outcome.changed);
    let outcome = state.handle_packet(&packet(ACK_DATA), 2);
    assert!(outcome.reply.is_none());
    assert!(outcome.changed);
}

#[test]
fn silence_times_out_after_a_minute() {
    let state = KcpConnectionState::new(KcpConnectionFSM::Established, 7);
    assert!(!state.is_pong_timeout(7 + 60 * SECOND));
    assert!(state.is_pong_timeout(8 + 60 * SECOND));
    assert!(!state.is_pong_timeout(0));
    assert!(state.is_live(7 + 60 * SECOND));
    assert!(!KcpConnectionState::new(KcpConnectionFSM::Closed, 7).is_live(7));
}

#[test]
fn states_are_told_apart() {
    let peer_closed = KcpConnectionState::new(KcpConnectionFSM::PeerClosed, 0);
    assert!(peer_closed.is_peer_closed() && !peer_closed.is_closed());
    let closed = KcpConnectionState::new(KcpConnectionFSM::Closed, 0);
    assert!(closed.is_peer_closed() && closed.is_closed() && !closed.is_established());
    assert_eq!(closed.fsm(), KcpConnectionFSM::Closed);
}

#[test]
fn closing_a_connection_gives_a_fin() {
    let mut state = KcpConnectionState::new(KcpConnectionFSM::Established, 0);
    assert_eq!(state.close().unwrap().header().flag, FIN);
    assert_eq!(state.close().unwrap_err(), Error::InvalidState);
}

#[test]
fn ticks_spend_the_budget_and_then_stop() {
    let id = ConnId { conv: 7, src_session_id: 1, dst_session_id: 3 };
    let mut state = KcpConnectionState::new(KcpConnectionFSM::SynReceived, 0);
    for _ in 0..MAX_SYN_ACK_RETRIES {
        let p = state.tick(&id, 0).unwrap();
        assert_eq!(p.header().flag, SYN_ACK);
        assert_eq!(ConnId::from(&p), id);
        let _ = state.handle_packet(&packet(SYN), 1);
    }
    assert!(state.tick(&id, 0).is_none());
}

#[test]
fn pings_go_out_once_a_round_and_never_during_a_handshake() {
    let id = ConnId { conv: 27, src_session_id: 1, dst_session_id: 3 };
    for fsm in [
        KcpConnectionFSM::Established,
        KcpConnectionFSM::LocalClosed,
        KcpConnectionFSM::PeerClosed,
    ] {
        let mut state = KcpConnectionState::new(fsm, 0);
        let mut slot = 4;
        let mut pings = Vec::new();
        for _ in 0..10 {
            if let Some(p) = state.tick(&id, slot) {
                assert_eq!(p.header().flag, PING);
                pings.push(slot);
            }
            slot = next_slot(slot);
        }
        assert_eq!(pings, vec![7]);
        assert_eq!(slot, 4);
    }
    for fsm in [KcpConnectionFSM::SynSent, KcpConnectionFSM::Closed] {
        let mut state = KcpConnectionState::new(fsm, 0);
        for slot in 0..10 {
            assert!(state.tick(&id, slot).is_none());
        }
    }
}

#[test]
fn connections_only_move_forward() {
    let progress = |state: KcpConnectionFSM| match state {
        KcpConnectionFSM::Listen => 0,
        KcpConnectionFSM::SynSent | KcpConnectionFSM::SynReceived => 1,
        KcpConnectionFSM::Established => 2,
        KcpConnectionFSM::LocalClosed | KcpConnectionFSM::PeerClosed => 3,
        KcpConnectionFSM::Closed => 4,
    };
    for state in [
        KcpConnectionFSM::Listen,
        KcpConnectionFSM::SynSent,
        KcpConnectionFSM::SynReceived,
        KcpConnectionFSM::Established,
        KcpConnectionFSM::LocalClosed,
        KcpConnectionFSM::PeerClosed,
        KcpConnectionFSM::Closed,
    ] {
        for flag in 0u8..=255 {
            let (next, _, ok) = step(state, flag);
            assert!(next == state || progress(next) > progress(state));
            assert!(ok || next == state);
        }
    }
}

#[test]
fn connections_print_where_they_are() {
    let state = KcpConnectionState::new(KcpConnectionFSM::Established, 7);
    assert_eq!(format!("{state:?}"), "KcpConnectionState { fsm: Established }");
}
