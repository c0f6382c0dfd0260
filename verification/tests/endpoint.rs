use bytes::Bytes;
use kcp_link::conn_id::ConnId;
use kcp_link::conn_state::{next_slot, MAX_SYN_ACK_RETRIES};
use kcp_link::endpoint::{AcceptAction, KcpEndpointData};
use kcp_link::error::Error;
use kcp_link::packet_def::{KcpPacket, ACK, DATA, FIN, PING, PONG, RST, SYN};
use kcp_link::state::{ACK_DATA, SYN_ACK};

const SECOND: u64 = 1_000_000_000;

fn packet(id: ConnId, flag: u8, payload: &[u8]) -> KcpPacket {
    let mut p = KcpPacket::new_with_payload(payload);
    id.fill_packet_header(&mut p);
    p.mut_header().flag = flag;
    p
}

fn id(conv: u32) -> ConnId {
    ConnId { conv, src_session_id: 1, dst_session_id: 3 }
}

/// Two endpoints with an open connection between them.
fn open_pair() -> (KcpEndpointData, KcpEndpointData, ConnId) {
    let mut client = KcpEndpointData::starting_at(7);
    let mut server = KcpEndpointData::new();
    let (id, syn) = client.begin_connect(1, 3, Bytes::from("conn"), 0).unwrap();
    let at_server = server.handle_input(&syn, 0);
    let at_client = client.handle_input(&at_server.reply.unwrap(), 0);
    let done = server.handle_input(&at_client.reply.unwrap(), 0);
    assert!(done.established && done.reply.is_none());
    assert_eq!(client.finish_connect(id, at_client.notify), Ok(id));
    assert_eq!(server.accept(Some(id)), AcceptAction::Accept { id });
    (client, server, id)
}

#[test]
fn handshake_opens_both_ends_and_carries_the_data() {
    let (client, server, id) = open_pair();
    assert_eq!(id, ConnId { conv: 7, src_session_id: 1, dst_session_id: 3 });
    assert_eq!(client.conn_data(&id).unwrap(), Bytes::from("conn"));
    assert_eq!(server.conn_data(&id).unwrap(), Bytes::from("conn"));
    assert!(server.conn_data(&ConnId { conv: 8, ..id }).is_none());
}

#[test]
fn handshake_recovers_from_loss_of_syn_and_syn_ack() {
    let mut client = KcpEndpointData::starting_at(0);
    let mut server = KcpEndpointData::new();
    let (id, syn) = client.begin_connect(1, 3, Bytes::from("conn"), 0).unwrap();
    // The first SYN is lost, and so is the answer to the second.
    let lost = server.handle_input(&syn.clone(), 1);
    assert_eq!(lost.reply.unwrap().header().flag, SYN_ACK);
    let again = server.handle_input(&syn, 2);
    let at_client = client.handle_input(&again.reply.unwrap(), 2);
    let done = server.handle_input(&at_client.reply.unwrap(), 2);
    assert!(done.established);
    assert_eq!(client.finish_connect(id, at_client.notify), Ok(id));
}

#[test]
fn handshake_recovers_from_loss_of_the_ack() {
    let mut client = KcpEndpointData::starting_at(0);
    let mut server = KcpEndpointData::new();
    let (id, syn) = client.begin_connect(1, 3, Bytes::from("conn"), 0).unwrap();
    let syn_ack = server.handle_input(&syn, 0).reply.unwrap();
    let lost = client.handle_input(&syn_ack, 0);
    assert!(lost.established);
    assert_eq!(server.accept(Some(id)), AcceptAction::Ignore);
    let retransmits = server.liveness_tick(0);
    assert_eq!(retransmits.len(), 1);
    let re_ack = client.handle_input(&retransmits[0], 1).reply.unwrap();
    assert_eq!(re_ack.header().flag, ACK_DATA);
    assert!(server.handle_input(&re_ack, 1).established);
    assert_eq!(server.accept(Some(id)), AcceptAction::Accept { id });
}

#[test]
fn test_kcp_syn_ack_retransmit_is_capped() {
    let mut server = KcpEndpointData::new();

    let mut syn = KcpPacket::new(0);
    syn.mut_header()
        .set_conv(7)
        .set_src_session_id(1)
        .set_dst_session_id(3);
    syn.mut_header().set_syn(true);

    let mut syn_acks = 0usize;
    let reply = server.handle_input(&syn, 0).reply.unwrap();
    if reply.header().is_syn() && reply.header().is_ack() {
        syn_acks += 1;
    }
    let mut slot = 0;
    // 30 seconds of silence.
    for _ in 0..30 {
        for p in server.liveness_tick(slot) {
            let h = p.header();
            if h.is_syn() && h.is_ack() {
                syn_acks += 1;
            }
        }
        slot = next_slot(slot);
    }

    assert_eq!(
        syn_acks,
        1 + MAX_SYN_ACK_RETRIES as usize,
        "timer retransmits must be capped"
    );
}

#[test]
fn connection_closes_in_two_steps() {
    let (mut client, mut server, id) = open_pair();
    let close = client.close_conn(id).unwrap();
    assert!(!close.remove_conn);
    let fin = close.packet.unwrap();
    assert_eq!(fin.header().flag, FIN);
    let at_server = server.handle_input(&fin, 1);
    assert!(at_server.close_recv && !at_server.remove_conn && at_server.reply.is_none());
    // The server can still send.
    let late = client.handle_input(&packet(id, ACK_DATA, b"world"), 2);
    assert!(late.deliver && !late.close_recv && late.reply.is_none());
    let close = server.close_conn(id).unwrap();
    assert!(close.remove_conn);
    let at_client = client.handle_input(&close.packet.unwrap(), 3);
    assert!(at_client.close_recv && at_client.remove_conn && at_client.notify);
    let again = client.close_conn(id).unwrap();
    assert_eq!(again.packet.unwrap_err(), Error::InvalidState);
    assert!(again.remove_conn);
    assert!(client.close_conn(ConnId { conv: 99, ..id }).is_none());
}

#[test]
fn reset_ends_an_open_connection() {
    let (mut client, _server, id) = open_pair();
    let outcome = client.handle_input(&packet(id, RST, b""), 1);
    assert!(outcome.notify && outcome.close_recv && outcome.remove_conn);
    assert!(outcome.reply.is_none());
    assert_eq!(client.accept(Some(id)), AcceptAction::Ignore);
}

#[test]
fn packets_for_nobody_are_reset_but_resets_are_not() {
    let mut server = KcpEndpointData::new();
    let outcome = server.handle_input(&packet(id(5), ACK | DATA, b"x"), 0);
    let reply = outcome.reply.unwrap();
    assert_eq!(reply.header().flag, RST);
    assert_eq!(ConnId::from(&reply), id(5));
    assert!(outcome.deliver && !outcome.close_recv);
    assert!(!server.contains(&id(5)));
    assert!(server.handle_input(&packet(id(5), RST, b""), 0).reply.is_none());
    assert!(!server.contains(&id(5)));
}

#[test]
fn pings_are_answered_while_the_connection_lives() {
    let (mut client, _server, id) = open_pair();
    let _ = client.close_conn(id);
    let (consumed, pong) = client.try_handle_pingpong(&packet(id, PING, b"p"), 5 * SECOND);
    let pong = pong.unwrap();
    assert!(consumed);
    assert_eq!(pong.header().flag, PING | PONG);
    assert_eq!(pong.payload(), b"p");
    assert_eq!(ConnId::from(&pong), id);
    // A pong is not answered.
    let (consumed, answer) = client.try_handle_pingpong(&pong, 6 * SECOND);
    assert!(consumed && answer.is_none());
    // Other packets are left alone, but count as a sign of life.
    let (consumed, answer) = client.try_handle_pingpong(&packet(id, ACK_DATA, b""), 7 * SECOND);
    assert!(!consumed && answer.is_none());
    assert!(client.reap(67 * SECOND).is_empty());
    assert!(client.contains(&id));
}

#[test]
fn pings_on_unknown_or_closed_connections_are_reset() {
    let mut server = KcpEndpointData::new();
    let outcome = server.handle_input(&packet(id(5), PING, b""), 0);
    assert_eq!(outcome.reply.unwrap().header().flag, RST);
    assert!(!server.contains(&id(5)));
    let (mut client, _server, id) = open_pair();
    let _ = client.handle_input(&packet(id, RST, b""), 0);
    let outcome = client.handle_input(&packet(id, PING | DATA, b"x"), 0);
    assert_eq!(outcome.reply.unwrap().header().flag, RST | DATA);
    assert!(!outcome.deliver && !outcome.remove_conn);
}

#[test]
fn answers_do_not_go_on_forever() {
    let (mut client, _server, id) = open_pair();
    let mut other = KcpEndpointData::new();
    for flag in 0u8..=255 {
        let mut current = Some(packet(id, flag, b""));
        let mut answers = 0;
        let mut at_client = true;
        while let Some(p) = current {
            current = if at_client {
                client.handle_input(&p, 0).reply
            } else {
                other.handle_input(&p, 0).reply
            };
            at_client = !at_client;
            if current.is_some() {
                answers += 1;
            }
        }
        assert!(answers <= 3, "flag {flag}");
    }
}

#[test]
fn silent_and_closed_connections_are_reaped() {
    let mut server = KcpEndpointData::new();
    let _ = server.handle_input(&packet(id(1), SYN, b""), 0);
    let _ = server.handle_input(&packet(id(2), SYN, b""), 50 * SECOND);
    let _ = server.handle_input(&packet(id(3), SYN, b""), 50 * SECOND);
    let _ = server.handle_input(&packet(id(3), RST, b""), 50 * SECOND);
    assert!(server.contains(&id(3)));
    assert_eq!(server.reap(61 * SECOND), vec![(id(1), 61 * SECOND)]);
    assert!(!server.contains(&id(1)));
    assert!(server.contains(&id(2)));
    assert!(!server.contains(&id(3)));
    assert!(server.reap(61 * SECOND).is_empty());
}

#[test]
fn a_tick_serves_each_connection_once() {
    let mut server = KcpEndpointData::new();
    for conv in 0..20 {
        let _ = server.handle_input(&packet(id(conv), SYN, b""), 0);
        if conv != 13 {
            let _ = server.handle_input(&packet(id(conv), ACK_DATA, b""), 0);
        }
    }
    let mut sent: Vec<(u32, u8)> = server
        .liveness_tick(4)
        .iter()
        .map(|p| (p.header().conv(), p.header().flag))
        .collect();
    sent.sort();
    assert_eq!(sent, vec![(4, PING), (13, SYN_ACK), (14, PING)]);
}

#[test]
fn conversation_numbers_wrap_around_and_skip_what_is_taken() {
    let mut client = KcpEndpointData::starting_at(u32::MAX);
    let (a, _) = client.begin_connect(1, 3, Bytes::new(), 0).unwrap();
    assert_eq!(a.conv, u32::MAX);
    let _ = client.handle_input(&packet(id(0), SYN, b""), 0);
    let (b, _) = client.begin_connect(1, 3, Bytes::new(), 0).unwrap();
    assert_eq!(b.conv, 1);
    // Another pair of sessions has numbers of its own.
    let (c, _) = client.begin_connect(2, 3, Bytes::new(), 0).unwrap();
    assert_eq!(c.conv, 2);
}

#[test]
fn connect_packet_carries_address_flag_and_data() {
    let mut client = KcpEndpointData::starting_at(5);
    let (conn, syn) = client.begin_connect(8, 9, Bytes::from("hi"), 0).unwrap();
    assert_eq!(ConnId::from(&syn), conn);
    assert_eq!(conn, ConnId { conv: 5, src_session_id: 8, dst_session_id: 9 });
    assert_eq!(syn.header().flag, SYN);
    assert_eq!(syn.payload(), b"hi");
}

#[test]
fn failed_attempts_are_forgotten() {
    let mut client = KcpEndpointData::starting_at(0);
    let (a, _) = client.begin_connect(1, 3, Bytes::new(), 0).unwrap();
    assert_eq!(client.finish_connect(a, false), Err(Error::ConnectTimeout));
    assert!(!client.contains(&a));
    let (b, _) = client.begin_connect(1, 3, Bytes::new(), 0).unwrap();
    let outcome = client.handle_input(&packet(b, RST, b""), 0);
    assert!(outcome.notify);
    assert_eq!(client.finish_connect(b, true), Err(Error::ConnectFailed));
    assert!(!client.contains(&b));
    assert_eq!(client.finish_connect(b, true), Err(Error::ConnectFailed));
}

#[test]
fn accept_ends_with_the_endpoint() {
    let server = KcpEndpointData::new();
    assert_eq!(server.accept(None), AcceptAction::Fail { error: Error::Shutdown });
    assert_eq!(server.accept(Some(id(1))), AcceptAction::Ignore);
}

#[test]
fn a_packet_leaves_other_connections_alone() {
    let mut server = KcpEndpointData::new();
    let _ = server.handle_input(&packet(id(1), SYN, b"one"), 0);
    let _ = server.handle_input(&packet(id(2), SYN, b"two"), 0);
    let _ = server.handle_input(&packet(id(2), ACK_DATA, b""), 30 * SECOND);
    let _ = server.handle_input(&packet(id(2), RST, b""), 30 * SECOND);
    assert_eq!(server.conn_data(&id(1)).unwrap(), Bytes::from("one"));
    assert_eq!(server.accept(Some(id(1))), AcceptAction::Ignore);
    let outcome = server.handle_input(&packet(id(1), ACK_DATA, b""), 40 * SECOND);
    assert!(outcome.established && !outcome.remove_conn);
    assert_eq!(server.accept(Some(id(1))), AcceptAction::Accept { id: id(1) });
}

#[test]
fn only_a_syn_is_remembered() {
    for flag in 0u8..=255 {
        let mut server = KcpEndpointData::new();
        let outcome = server.handle_input(&packet(id(1), flag, b"x"), 0);
        let opens = flag & (SYN | ACK | RST | PING) == SYN;
        assert_eq!(server.contains(&id(1)), opens, "flag {flag}");
        assert!(!outcome.established && !outcome.notify && !outcome.close_recv);
    }
}

#[test]
fn traffic_keeps_a_connection() {
    let (mut client, _, id) = open_pair();
    let _ = client.handle_input(&packet(id, ACK_DATA, b"x"), 59 * SECOND);
    assert!(client.reap(119 * SECOND).is_empty());
    assert!(client.contains(&id));
    assert_eq!(client.reap(119 * SECOND + 1), vec![(id, 60 * SECOND + 1)]);
    assert!(!client.contains(&id));
}
