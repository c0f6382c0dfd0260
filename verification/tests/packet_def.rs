use bytes::{Bytes, BytesMut};
use kcp_link::packet_def::{KcpPacket, KcpPacketHeader, HEADER_LEN};

fn assert_accessors_are_safe(p: KcpPacket) {
    let mut p = p;
    assert!(p.len() >= HEADER_LEN, "packet shorter than its header");
    let _ = p.header().conv();
    let _ = p.mut_header().set_syn(true);
    let _ = p.payload();
    let _ = format!("{p:?}");
}

#[test]
fn construction_never_yields_a_packet_shorter_than_the_header() {
    assert_accessors_are_safe(KcpPacket::new(0));
    assert_accessors_are_safe(KcpPacket::default());
    assert_accessors_are_safe(KcpPacket::new_with_payload(&[]));
    for short in 0..HEADER_LEN {
        assert_accessors_are_safe(KcpPacket::from(BytesMut::from(&vec![0xABu8; short][..])));
    }
}

#[test]
fn new_sizes_to_the_request() {
    for body in [0usize, 1, 7, 64, 1200] {
        let p = KcpPacket::new(body);
        assert_eq!(p.len(), HEADER_LEN + body, "body_size {body}");
        assert_eq!(p.payload().len(), body, "body_size {body}");
    }
    assert!(KcpPacket::new(0).payload().is_empty());
}

#[test]
fn from_bytes_preserves_payload_and_pads_only_short_input() {
    let payload = b"payload";
    let mut bytes = BytesMut::from(&[0u8; HEADER_LEN][..]);
    bytes.extend_from_slice(payload);
    let p = KcpPacket::from(bytes);
    assert_eq!(
        p.payload(),
        payload,
        "a full-length buffer must pass through"
    );

    // Short input is padded to exactly the header, never further.
    let p = KcpPacket::from(BytesMut::from(&[0xABu8; 3][..]));
    assert_eq!(p.len(), HEADER_LEN);
    assert!(p.payload().is_empty());
}

#[test]
fn every_flag_byte_parses() {
    let flag_offset = HEADER_LEN - 2;
    for flag in 0u8..=255 {
        let mut bytes = BytesMut::from(&[0u8; HEADER_LEN][..]);
        bytes[flag_offset] = flag;
        let p = KcpPacket::from(bytes);
        let h = p.header();
        assert_eq!(h.is_syn(), flag & 0b1 != 0);
        let _ = (h.is_ack(), h.is_fin(), h.is_data(), h.is_rst());
        let _ = (h.is_ping(), h.is_pong());
    }
}

fn sample() -> KcpPacket {
    let mut p = KcpPacket::new_with_payload(b"abc");
    p.mut_header()
        .set_conv(0x0403_0201)
        .set_src_session_id(0x0807_0605)
        .set_dst_session_id(0x0c0b_0a09);
    p.mut_header().set_syn(true).set_ack(true).set_pong(true);
    p
}

#[test]
fn header_is_laid_out_little_endian() {
    let bytes = sample().inner();
    assert_eq!(
        &bytes[..],
        &[1, 2, 3, 4, 5, 6, 7, 8, 9, 10, 11, 12, 0b0100_0011, 0, b'a', b'b', b'c'][..]
    );
}

#[test]
fn packet_survives_the_wire() {
    let sent = sample();
    let header = *sent.header();
    let frozen = Bytes::from(sent.clone());
    let received = KcpPacket::from(BytesMut::from(sent));
    assert_eq!(*received.header(), header);
    assert_eq!(received.payload(), b"abc");
    assert_eq!(received.len(), HEADER_LEN + 3);
    assert!(!received.is_empty());
    assert_eq!(Bytes::from(received), frozen);
}

#[test]
fn header_fields_are_read_from_their_bytes() {
    let bytes: Vec<u8> = (1u8..=16).collect();
    let p = KcpPacket::from(BytesMut::from(&bytes[..]));
    assert_eq!(p.header().conv(), 0x0403_0201);
    assert_eq!(p.header().src_session_id(), 0x0807_0605);
    assert_eq!(p.header().dst_session_id(), 0x0c0b_0a09);
    assert_eq!(p.header().flag, 13);
    assert_eq!(p.header().rsv, 14);
    assert_eq!(p.payload(), &[15u8, 16][..]);
    assert_eq!(&p.inner()[..], &bytes[..]);
}

#[test]
fn short_input_keeps_its_bytes_and_is_filled_up_with_zeros() {
    let p = KcpPacket::from(BytesMut::from(&[0xABu8; 3][..]));
    assert_eq!(p.header().conv(), 0x00AB_ABAB);
    assert_eq!(
        &p.inner()[..],
        &[0xAB, 0xAB, 0xAB, 0, 0, 0, 0, 0, 0, 0, 0, 0, 0, 0][..]
    );
}

#[test]
fn a_flag_is_set_and_cleared_alone() {
    let mut h = KcpPacketHeader::default();
    h.set_fin(true).set_data(true).set_rst(true).set_ping(true);
    assert!(h.is_fin() && h.is_data() && h.is_rst() && h.is_ping());
    assert!(!h.is_syn() && !h.is_ack() && !h.is_pong());
    h.set_data(false).set_syn(true);
    assert!(h.is_fin() && !h.is_data() && h.is_rst() && h.is_ping() && h.is_syn());
    assert_eq!(h.flag, 0b0011_0101);
}

#[test]
fn a_bit_without_a_name_is_carried_along() {
    let mut bytes = BytesMut::from(&[0u8; HEADER_LEN][..]);
    bytes[12] = 0b1000_0001;
    bytes[13] = 7;
    let mut p = KcpPacket::from(bytes);
    p.mut_header().set_syn(false).set_fin(true);
    let out = p.inner();
    assert_eq!(out[12], 0b1000_0100);
    assert_eq!(out[13], 7);
}

#[test]
fn a_clone_is_a_packet_of_its_own() {
    let first = sample();
    let mut copy = first.clone();
    copy.mut_header().set_conv(9);
    assert_eq!(copy.payload(), first.payload());
    assert_eq!(copy.header().conv(), 9);
    assert_eq!(first.header().conv(), 0x0403_0201);
}

#[test]
fn packets_print_their_header_and_payload() {
    let text = "KcpPacket { header: KcpPacketHeader { conv: 67305985, \
                src_session_id: 134678021, dst_session_id: 202050057, \
                flag: KcpPacketHeaderFlags(SYN | ACK | PONG) }, payload: [97, 98, 99] }";
    assert_eq!(format!("{:?}", sample()), text);
    let received = KcpPacket::from(sample().inner());
    assert_eq!(format!("{received:?}"), text);
    let pretty = "KcpPacketHeader {\n    conv: 1,\n    src_session_id: 0,\n    \
                  dst_session_id: 0,\n    flag: KcpPacketHeaderFlags(\n        \
                  FIN | DATA,\n    ),\n}";
    let mut header = KcpPacketHeader::default();
    header.set_conv(1).set_fin(true).set_data(true);
    assert_eq!(format!("{header:#?}"), pretty);
}

#[test]
fn flags_print_by_name() {
    let text = |flag: u8| {
        let header = KcpPacketHeader { flag, ..KcpPacketHeader::default() };
        let text = format!("{header:?}");
        let start = text.find("flag: ").unwrap() + 6;
        text[start..text.len() - 2].to_string()
    };
    assert_eq!(text(0), "KcpPacketHeaderFlags(0x0)");
    assert_eq!(text(0b0011_0000), "KcpPacketHeaderFlags(RST | PING)");
    assert_eq!(text(0b1000_0000), "KcpPacketHeaderFlags(0x80)");
    assert_eq!(
        text(0b1111_1111),
        "KcpPacketHeaderFlags(SYN | ACK | FIN | DATA | RST | PING | PONG | 0x80)"
    );
}
