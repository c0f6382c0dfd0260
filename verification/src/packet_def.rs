//! Packets and their fixed-size header.
//!
//! On the wire a packet is a header of [`HEADER_LEN`] bytes and a payload:
//!
//! | bytes | field            |
//! |-------|------------------|
//! | 0..4  | `conv`           |
//! | 4..8  | `src_session_id` |
//! | 8..12 | `dst_session_id` |
//! | 12    | `flag`           |
//! | 13    | `rsv`            |
//!
//! The three numbers are little-endian.

use crate::buffer::{
    bytes_contents, bytes_mut_as_mut_slice, bytes_mut_as_slice, bytes_mut_clone,
    bytes_mut_contents, bytes_mut_extend_from_slice, bytes_mut_freeze, bytes_mut_len,
    bytes_mut_resize, bytes_mut_with_capacity, zeros,
};
use crate::printing::{formatter_text, is_printed, shown_bytes, shown_number, ShownField};
use crate::wire::{
    le_u32, le_u32_bytes, le_u32_reads_what_was_written, le_u32_writes_what_was_read, read_le_u32,
    write_le_u32,
};
pub use bytes::{Bytes, BytesMut};
use vstd::prelude::*;

verus! {

/// Length of the header on the wire.
pub const HEADER_LEN: usize = 14;

pub const SYN: u8 = 0b0000_0001;

pub const ACK: u8 = 0b0000_0010;

pub const FIN: u8 = 0b0000_0100;

pub const DATA: u8 = 0b0000_1000;

pub const RST: u8 = 0b0001_0000;

pub const PING: u8 = 0b0010_0000;

pub const PONG: u8 = 0b0100_0000;

/// Whether all bits of `bit` are set in `flag`.
pub open spec fn has_bit(flag: u8, bit: u8) -> bool {
    flag & bit == bit
}

/// `flag` with the bits of `bit` set or cleared.
pub open spec fn with_bit(flag: u8, bit: u8, on: bool) -> u8 {
    if on {
        flag | bit
    } else {
        flag & !bit
    }
}

/// How the flag in bit `i` is printed, counted from the lowest bit. The highest has no name.
pub open spec fn flag_name(i: int) -> Seq<char> {
    if i == 0 {
        "SYN"@
    } else if i == 1 {
        "ACK"@
    } else if i == 2 {
        "FIN"@
    } else if i == 3 {
        "DATA"@
    } else if i == 4 {
        "RST"@
    } else if i == 5 {
        "PING"@
    } else if i == 6 {
        "PONG"@
    } else {
        "0x80"@
    }
}

/// The bits of the flags that [`flag_name`] prints.
pub open spec fn printed_flags() -> Seq<u8> {
    seq![SYN, ACK, FIN, DATA, RST, PING, PONG, 0b1000_0000]
}

/// How those of the first `n` flags are printed that are set in `flag`.
pub open spec fn names_set(flag: u8, n: nat) -> Seq<Seq<char>>
    decreases n,
{
    if n == 0 {
        Seq::empty()
    } else if has_bit(flag, printed_flags()[n - 1]) {
        names_set(flag, (n - 1) as nat).push(flag_name(n - 1))
    } else {
        names_set(flag, (n - 1) as nat)
    }
}

/// `names` with bars between them.
pub open spec fn with_bars(names: Seq<Seq<char>>) -> Seq<char>
    decreases names.len(),
{
    if names.len() == 0 {
        Seq::empty()
    } else if names.len() == 1 {
        names[0]
    } else {
        with_bars(names.drop_last()) + " | "@ + names.last()
    }
}

/// How a flag byte is printed: the names of the flags that are set, or a zero.
pub open spec fn flag_text(flag: u8) -> Seq<char> {
    if flag == 0 {
        "0x0"@
    } else {
        with_bars(names_set(flag, 8))
    }
}

/// A flag byte that is printed by name.
pub struct FlagNames(pub u8);

impl core::fmt::Debug for FlagNames {
    fn fmt(&self, f: &mut core::fmt::Formatter<'_>) -> (result: core::fmt::Result)
        ensures
            result is Ok ==> formatter_text(*final(f)) == formatter_text(*old(f)) + flag_text(
                self.0,
            ),
    {
        let flag = self.0;
        if flag == 0 {
            return f.write_str("0x0");
        }
        let bits: [u8; 8] = [SYN, ACK, FIN, DATA, RST, PING, PONG, 0b1000_0000];
        let names: [&str; 8] = ["SYN", "ACK", "FIN", "DATA", "RST", "PING", "PONG", "0x80"];
        let mut first = true;
        let mut i: usize = 0;
        while i < 8
            invariant
                i <= 8,
                flag == self.0,
                bits@ == printed_flags(),
                names@.len() == 8,
                forall|j: int| 0 <= j < 8 ==> (#[trigger] names@[j])@ == flag_name(j),
                first == (names_set(flag, i as nat).len() == 0),
                formatter_text(*f) == formatter_text(*old(f)) + with_bars(
                    names_set(flag, i as nat),
                ),
            decreases 8 - i,
        {
            if flag & bits[i] == bits[i] {
                if !first {
                    f.write_str(" | ")?;
                }
                f.write_str(names[i])?;
                first = false;
                proof {
                    let before = names_set(flag, i as nat);
                    let after = names_set(flag, (i + 1) as nat);
                    assert(after == before.push(flag_name(i as int)));
                    assert(after.drop_last() =~= before);
                    assert(formatter_text(*f) =~= formatter_text(*old(f)) + with_bars(after));
                }
            }
            i = i + 1;
        }
        Ok(())
    }
}

/// A flag byte as the header prints it.
#[derive(Debug)]
pub struct KcpPacketHeaderFlags(pub FlagNames);

/// A field that shows a flag byte by the names of its flags.
pub open spec fn shown_flags(name: Seq<char>, flag: u8) -> ShownField {
    let value: &dyn core::fmt::Debug = &KcpPacketHeaderFlags(FlagNames(flag));
    ShownField { name, value }
}

/// A field that shows a header.
pub open spec fn shown_header(name: Seq<char>, header: &KcpPacketHeader) -> ShownField {
    let value: &dyn core::fmt::Debug = &header;
    ShownField { name, value }
}

/// The header of a packet. Every value of every field is legal: bits of `flag` without a
/// name, and `rsv`, are carried along untouched.
#[derive(Clone, Copy, PartialEq, Eq, Structural)]
pub struct KcpPacketHeader {
    pub conv: u32,
    pub src_session_id: u32,
    pub dst_session_id: u32,
    pub flag: u8,
    pub rsv: u8,
}

impl Default for KcpPacketHeader {
    fn default() -> (header: Self)
        ensures
            header == KcpPacketHeader::zero(),
    {
        KcpPacketHeader { conv: 0, src_session_id: 0, dst_session_id: 0, flag: 0, rsv: 0 }
    }
}

impl core::fmt::Debug for KcpPacketHeader {
    /// Shows the address and the flags.
    fn fmt(&self, f: &mut core::fmt::Formatter<'_>) -> (result: core::fmt::Result)
        ensures
            is_printed(
                formatter_text(*old(f)),
                "KcpPacketHeader"@,
                Seq::empty().push(shown_number("conv"@, self.conv)).push(
                    shown_number("src_session_id"@, self.src_session_id),
                ).push(shown_number("dst_session_id"@, self.dst_session_id)).push(
                    shown_flags("flag"@, self.flag),
                ),
                result,
            ),
    {
        f.debug_struct("KcpPacketHeader").field("conv", &self.conv()).field(
            "src_session_id",
            &self.src_session_id(),
        ).field("dst_session_id", &self.dst_session_id()).field(
            "flag",
            &KcpPacketHeaderFlags(FlagNames(self.flag)),
        ).finish()
    }
}

impl KcpPacketHeader {
    /// The header whose fields are all zero.
    pub open spec fn zero() -> Self {
        KcpPacketHeader { conv: 0, src_session_id: 0, dst_session_id: 0, flag: 0, rsv: 0 }
    }

    /// Whether the flag `bit` is set.
    pub open spec fn has(self, bit: u8) -> bool {
        has_bit(self.flag, bit)
    }

    /// This header with the flag `bit` set or cleared and nothing else changed.
    pub open spec fn with(self, bit: u8, on: bool) -> Self {
        KcpPacketHeader { flag: with_bit(self.flag, bit, on), ..self }
    }

    /// The header as it stands on the wire.
    pub open spec fn encode(self) -> Seq<u8> {
        le_u32_bytes(self.conv) + le_u32_bytes(self.src_session_id) + le_u32_bytes(
            self.dst_session_id,
        ) + seq![self.flag, self.rsv]
    }

    /// The header that the first [`HEADER_LEN`] bytes of `wire` stand for.
    pub open spec fn decode(wire: Seq<u8>) -> Self
        recommends
            wire.len() >= HEADER_LEN,
    {
        KcpPacketHeader {
            conv: le_u32(wire.subrange(0, 4)),
            src_session_id: le_u32(wire.subrange(4, 8)),
            dst_session_id: le_u32(wire.subrange(8, 12)),
            flag: wire[12],
            rsv: wire[13],
        }
    }

    /// Reads a header off the front of `wire`.
    fn load(wire: &[u8]) -> (header: Self)
        requires
            wire@.len() >= HEADER_LEN,
        ensures
            header == KcpPacketHeader::decode(wire@),
    {
        let conv = [wire[0], wire[1], wire[2], wire[3]];
        let src_session_id = [wire[4], wire[5], wire[6], wire[7]];
        let dst_session_id = [wire[8], wire[9], wire[10], wire[11]];
        assert(conv@ =~= wire@.subrange(0, 4));
        assert(src_session_id@ =~= wire@.subrange(4, 8));
        assert(dst_session_id@ =~= wire@.subrange(8, 12));
        KcpPacketHeader {
            conv: read_le_u32(conv),
            src_session_id: read_le_u32(src_session_id),
            dst_session_id: read_le_u32(dst_session_id),
            flag: wire[12],
            rsv: wire[13],
        }
    }

    /// Writes this header over the front of `wire`.
    fn store(&self, wire: &mut [u8])
        requires
            old(wire)@.len() >= HEADER_LEN,
        ensures
            final(wire)@ == self.encode() + old(wire)@.skip(HEADER_LEN as int),
    {
        let conv = write_le_u32(self.conv);
        let src_session_id = write_le_u32(self.src_session_id);
        let dst_session_id = write_le_u32(self.dst_session_id);
        wire[0] = conv[0];
        wire[1] = conv[1];
        wire[2] = conv[2];
        wire[3] = conv[3];
        wire[4] = src_session_id[0];
        wire[5] = src_session_id[1];
        wire[6] = src_session_id[2];
        wire[7] = src_session_id[3];
        wire[8] = dst_session_id[0];
        wire[9] = dst_session_id[1];
        wire[10] = dst_session_id[2];
        wire[11] = dst_session_id[3];
        wire[12] = self.flag;
        wire[13] = self.rsv;
        assert(wire@ =~= self.encode() + old(wire)@.skip(HEADER_LEN as int));
    }

    pub fn conv(&self) -> (conv: u32)
        ensures
            conv == self.conv,
    {
        self.conv
    }

    pub fn src_session_id(&self) -> (session_id: u32)
        ensures
            session_id == self.src_session_id,
    {
        self.src_session_id
    }

    pub fn dst_session_id(&self) -> (session_id: u32)
        ensures
            session_id == self.dst_session_id,
    {
        self.dst_session_id
    }

    pub fn is_syn(&self) -> (on: bool)
        ensures
            on == self.has(SYN),
    {
        self.flag & SYN == SYN
    }

    pub fn is_ack(&self) -> (on: bool)
        ensures
            on == self.has(ACK),
    {
        self.flag & ACK == ACK
    }

    pub fn is_fin(&self) -> (on: bool)
        ensures
            on == self.has(FIN),
    {
        self.flag & FIN == FIN
    }

    pub fn is_data(&self) -> (on: bool)
        ensures
            on == self.has(DATA),
    {
        self.flag & DATA == DATA
    }

    pub fn is_rst(&self) -> (on: bool)
        ensures
            on == self.has(RST),
    {
        self.flag & RST == RST
    }

    pub fn is_ping(&self) -> (on: bool)
        ensures
            on == self.has(PING),
    {
        self.flag & PING == PING
    }

    pub fn is_pong(&self) -> (on: bool)
        ensures
            on == self.has(PONG),
    {
        self.flag & PONG == PONG
    }

    pub fn set_conv(&mut self, conv: u32) -> (header: &mut Self)
        ensures
            *header == (KcpPacketHeader { conv, ..*old(self) }),
            *final(self) == *final(header),
    {
        self.conv = conv;
        self
    }

    pub fn set_src_session_id(&mut self, session_id: u32) -> (header: &mut Self)
        ensures
            *header == (KcpPacketHeader { src_session_id: session_id, ..*old(self) }),
            *final(self) == *final(header),
    {
        self.src_session_id = session_id;
        self
    }

    pub fn set_dst_session_id(&mut self, session_id: u32) -> (header: &mut Self)
        ensures
            *header == (KcpPacketHeader { dst_session_id: session_id, ..*old(self) }),
            *final(self) == *final(header),
    {
        self.dst_session_id = session_id;
        self
    }

    fn set_bit(&mut self, bit: u8, on: bool)
        ensures
            *final(self) == old(self).with(bit, on),
    {
        if on {
            self.flag = self.flag | bit;
        } else {
            self.flag = self.flag & !bit;
        }
    }

    pub fn set_syn(&mut self, syn: bool) -> (header: &mut Self)
        ensures
            *header == old(self).with(SYN, syn),
            *final(self) == *final(header),
    {
        self.set_bit(SYN, syn);
        self
    }

    pub fn set_ack(&mut self, ack: bool) -> (header: &mut Self)
        ensures
            *header == old(self).with(ACK, ack),
            *final(self) == *final(header),
    {
        self.set_bit(ACK, ack);
        self
    }

    pub fn set_fin(&mut self, fin: bool) -> (header: &mut Self)
        ensures
            *header == old(self).with(FIN, fin),
            *final(self) == *final(header),
    {
        self.set_bit(FIN, fin);
        self
    }

    pub fn set_data(&mut self, data: bool) -> (header: &mut Self)
        ensures
            *header == old(self).with(DATA, data),
            *final(self) == *final(header),
    {
        self.set_bit(DATA, data);
        self
    }

    pub fn set_rst(&mut self, rst: bool) -> (header: &mut Self)
        ensures
            *header == old(self).with(RST, rst),
            *final(self) == *final(header),
    {
        self.set_bit(RST, rst);
        self
    }

    pub fn set_ping(&mut self, ping: bool) -> (header: &mut Self)
        ensures
            *header == old(self).with(PING, ping),
            *final(self) == *final(header),
    {
        self.set_bit(PING, ping);
        self
    }

    pub fn set_pong(&mut self, pong: bool) -> (header: &mut Self)
        ensures
            *header == old(self).with(PONG, pong),
            *final(self) == *final(header),
    {
        self.set_bit(PONG, pong);
        self
    }
}

/// A buffer that is never shorter than a header.
struct Frame {
    bytes: BytesMut,
}

impl Frame {
    #[verifier::type_invariant]
    closed spec fn holds_a_header(self) -> bool {
        bytes_mut_contents(self.bytes).len() >= HEADER_LEN
    }
}

/// A packet: a header and a payload in one buffer.
///
/// While the packet is in memory its header is kept decoded in `header`; the front of the
/// buffer is brought up to date when the buffer is given away.
pub struct KcpPacket {
    header: KcpPacketHeader,
    frame: Frame,
}

/// `wire`, filled up with zeros to the length of a header where it is shorter.
pub open spec fn padded(wire: Seq<u8>) -> Seq<u8> {
    if wire.len() < HEADER_LEN {
        wire + zeros((HEADER_LEN - wire.len()) as nat)
    } else {
        wire
    }
}

impl View for KcpPacket {
    type V = Seq<u8>;

    /// The packet as it stands on the wire.
    open spec fn view(&self) -> Seq<u8> {
        self.spec_header().encode() + self.spec_payload()
    }
}

impl Default for KcpPacket {
    /// A packet without payload whose header is all zero.
    fn default() -> (packet: Self)
        ensures
            packet.spec_header() == KcpPacketHeader::zero(),
            packet.spec_payload() == Seq::<u8>::empty(),
    {
        let packet = KcpPacket::new(0);
        assert(zeros(0) =~= Seq::<u8>::empty());
        packet
    }
}

impl core::fmt::Debug for KcpPacket {
    /// Shows the header and the payload.
    fn fmt(&self, f: &mut core::fmt::Formatter<'_>) -> (result: core::fmt::Result)
        ensures
            exists|payload: &[u8]|
                payload@ == self.spec_payload() && #[trigger] is_printed(
                    formatter_text(*old(f)),
                    "KcpPacket"@,
                    Seq::empty().push(shown_header("header"@, &self.spec_header())).push(
                        shown_bytes("payload"@, payload),
                    ),
                    result,
                ),
    {
        let payload = self.payload();
        let result = f.debug_struct("KcpPacket").field("header", &self.header()).field(
            "payload",
            &payload,
        ).finish();
        assert(is_printed(
            formatter_text(*old(f)),
            "KcpPacket"@,
            Seq::empty().push(shown_header("header"@, &self.spec_header())).push(
                shown_bytes("payload"@, payload),
            ),
            result,
        ));
        result
    }
}

impl Clone for KcpPacket {
    fn clone(&self) -> (copy: Self)
        ensures
            copy.spec_header() == self.spec_header(),
            copy.spec_payload() == self.spec_payload(),
    {
        proof {
            use_type_invariant(&self.frame);
        }
        KcpPacket {
            header: self.header,
            frame: Frame { bytes: bytes_mut_clone(&self.frame.bytes) },
        }
    }
}

impl vstd::std_specs::convert::FromSpecImpl<BytesMut> for KcpPacket {
    open spec fn obeys_from_spec() -> bool {
        false
    }

    open spec fn from_spec(v: BytesMut) -> Self {
        arbitrary()
    }
}

impl From<BytesMut> for KcpPacket {
    /// Takes any bytes for a packet. Bytes that are too few for a header are filled up
    /// with zeros to exactly a header, so that no packet is shorter than that.
    fn from(inner: BytesMut) -> (packet: Self)
        ensures
            packet@ == padded(bytes_mut_contents(inner)),
            packet.spec_header() == KcpPacketHeader::decode(padded(bytes_mut_contents(inner))),
            packet.spec_payload() == padded(bytes_mut_contents(inner)).skip(HEADER_LEN as int),
    {
        let mut bytes = inner;
        if bytes_mut_len(&bytes) < HEADER_LEN {
            bytes_mut_resize(&mut bytes, HEADER_LEN, 0);
        }
        assert(bytes_mut_contents(bytes) =~= padded(bytes_mut_contents(inner)));
        let header = KcpPacketHeader::load(bytes_mut_as_slice(&bytes));
        let packet = KcpPacket { header, frame: Frame { bytes } };
        proof {
            header_encodes_what_was_decoded(padded(bytes_mut_contents(inner)));
        }
        packet
    }
}

impl vstd::std_specs::convert::FromSpecImpl<KcpPacket> for BytesMut {
    open spec fn obeys_from_spec() -> bool {
        false
    }

    open spec fn from_spec(v: KcpPacket) -> Self {
        arbitrary()
    }
}

impl From<KcpPacket> for BytesMut {
    fn from(val: KcpPacket) -> (bytes: Self)
        ensures
            bytes_mut_contents(bytes) == val@,
    {
        val.inner()
    }
}

impl vstd::std_specs::convert::FromSpecImpl<KcpPacket> for Bytes {
    open spec fn obeys_from_spec() -> bool {
        false
    }

    open spec fn from_spec(v: KcpPacket) -> Self {
        arbitrary()
    }
}

impl From<KcpPacket> for Bytes {
    fn from(val: KcpPacket) -> (bytes: Self)
        ensures
            bytes_contents(bytes) == val@,
    {
        bytes_mut_freeze(val.inner())
    }
}

impl KcpPacket {
    /// The header of the packet.
    pub closed spec fn spec_header(&self) -> KcpPacketHeader {
        self.header
    }

    /// What follows the header.
    pub closed spec fn spec_payload(&self) -> Seq<u8> {
        bytes_mut_contents(self.frame.bytes).skip(HEADER_LEN as int)
    }

    /// A packet of `body_size` zero bytes under a header that is all zero.
    pub fn new(body_size: usize) -> (packet: Self)
        requires
            HEADER_LEN + body_size <= isize::MAX,
        ensures
            packet.spec_header() == KcpPacketHeader::zero(),
            packet.spec_payload() == zeros(body_size as nat),
            packet@ == zeros((HEADER_LEN + body_size) as nat),
    {
        let len = HEADER_LEN + body_size;
        let mut bytes = bytes_mut_with_capacity(len);
        bytes_mut_resize(&mut bytes, len, 0);
        assert(bytes_mut_contents(bytes) =~= zeros(len as nat));
        let packet = KcpPacket { header: Default::default(), frame: Frame { bytes } };
        assert(packet.spec_payload() =~= zeros(body_size as nat));
        assert(packet@ =~= zeros(len as nat));
        packet
    }

    /// A packet that carries `payload` under a header that is all zero.
    pub fn new_with_payload(payload: &[u8]) -> (packet: Self)
        requires
            HEADER_LEN + payload@.len() <= isize::MAX,
        ensures
            packet.spec_header() == KcpPacketHeader::zero(),
            packet.spec_payload() == payload@,
            packet@ == zeros(HEADER_LEN as nat) + payload@,
    {
        let mut bytes = bytes_mut_with_capacity(HEADER_LEN + payload.len());
        bytes_mut_resize(&mut bytes, HEADER_LEN, 0);
        bytes_mut_extend_from_slice(&mut bytes, payload);
        let packet = KcpPacket { header: Default::default(), frame: Frame { bytes } };
        assert(packet.spec_payload() =~= payload@);
        assert(packet@ =~= zeros(HEADER_LEN as nat) + payload@);
        packet
    }

    pub fn mut_header(&mut self) -> (header: &mut KcpPacketHeader)
        ensures
            *header == old(self).spec_header(),
            final(self).spec_header() == *final(header),
            final(self).spec_payload() == old(self).spec_payload(),
    {
        &mut self.header
    }

    pub fn header(&self) -> (header: &KcpPacketHeader)
        ensures
            *header == self.spec_header(),
    {
        &self.header
    }

    pub fn payload(&self) -> (payload: &[u8])
        ensures
            payload@ == self.spec_payload(),
    {
        proof {
            use_type_invariant(&self.frame);
        }
        let bytes = bytes_mut_as_slice(&self.frame.bytes);
        let payload = vstd::slice::slice_subrange(bytes, HEADER_LEN, bytes.len());
        assert(payload@ =~= self.spec_payload());
        payload
    }

    /// The buffer of the packet, with the header written to its front.
    pub fn inner(self) -> (bytes: BytesMut)
        ensures
            bytes_mut_contents(bytes) == self@,
    {
        proof {
            use_type_invariant(&self.frame);
        }
        let mut bytes = self.frame.bytes;
        self.header.store(bytes_mut_as_mut_slice(&mut bytes));
        bytes
    }

    /// Length of the packet on the wire.
    pub fn len(&self) -> (len: usize)
        ensures
            len == self@.len(),
            len >= HEADER_LEN,
    {
        proof {
            use_type_invariant(&self.frame);
        }
        bytes_mut_len(&self.frame.bytes)
    }

    /// Whether the packet has no bytes on the wire, which is never the case.
    pub fn is_empty(&self) -> (empty: bool)
        ensures
            empty == (self@.len() == 0),
            !empty,
    {
        self.len() == 0
    }
}

/// A header survives being written to the wire and read back.
pub proof fn header_decodes_what_was_encoded(header: KcpPacketHeader, payload: Seq<u8>)
    ensures
        header.encode().len() == HEADER_LEN,
        KcpPacketHeader::decode(header.encode() + payload) == header,
{
    let wire = header.encode() + payload;
    le_u32_reads_what_was_written(header.conv);
    le_u32_reads_what_was_written(header.src_session_id);
    le_u32_reads_what_was_written(header.dst_session_id);
    assert(wire.subrange(0, 4) =~= le_u32_bytes(header.conv));
    assert(wire.subrange(4, 8) =~= le_u32_bytes(header.src_session_id));
    assert(wire.subrange(8, 12) =~= le_u32_bytes(header.dst_session_id));
}

/// Bytes that are read as a header are the bytes that the header is written as.
pub proof fn header_encodes_what_was_decoded(wire: Seq<u8>)
    requires
        wire.len() >= HEADER_LEN,
    ensures
        KcpPacketHeader::decode(wire).encode() + wire.skip(HEADER_LEN as int) == wire,
{
    le_u32_writes_what_was_read(wire.subrange(0, 4));
    le_u32_writes_what_was_read(wire.subrange(4, 8));
    le_u32_writes_what_was_read(wire.subrange(8, 12));
    assert(KcpPacketHeader::decode(wire).encode() + wire.skip(HEADER_LEN as int) =~= wire);
}

/// What a receiver reads off the wire is what the sender put there: taking the bytes of a
/// packet for a packet gives the same header and the same payload.
pub proof fn packet_survives_the_wire(header: KcpPacketHeader, payload: Seq<u8>)
    ensures
        padded(header.encode() + payload) == header.encode() + payload,
        KcpPacketHeader::decode(padded(header.encode() + payload)) == header,
        padded(header.encode() + payload).skip(HEADER_LEN as int) == payload,
{
    header_decodes_what_was_encoded(header, payload);
    assert((header.encode() + payload).skip(HEADER_LEN as int) =~= payload);
}

/// Distinct headers are distinct on the wire.
pub proof fn distinct_headers_encode_differently(a: KcpPacketHeader, b: KcpPacketHeader)
    requires
        a.encode() == b.encode(),
    ensures
        a == b,
{
    header_decodes_what_was_encoded(a, Seq::empty());
    header_decodes_what_was_encoded(b, Seq::empty());
}

/// A flag reads back as it was set, and flags that share no bit with it keep their value.
pub proof fn setting_a_flag_sets_only_that_flag(flag: u8, bit: u8, other: u8, on: bool)
    requires
        bit != 0,
        bit & other == 0,
    ensures
        has_bit(with_bit(flag, bit, on), bit) == on,
        has_bit(with_bit(flag, bit, on), other) == has_bit(flag, other),
{
    assert((flag | bit) & bit == bit) by (bit_vector);
    assert((flag & !bit) & bit == 0) by (bit_vector);
    assert((flag | bit) & other == flag & other) by (bit_vector)
        requires
            bit & other == 0,
    ;
    assert((flag & !bit) & other == flag & other) by (bit_vector)
        requires
            bit & other == 0,
    ;
}

/// No two of the named flags share a bit, and none is empty.
pub proof fn flags_are_distinct()
    ensures
        forall|i: int, j: int|
            0 <= i < j < 7 ==> #[trigger] all_flags()[i] & #[trigger] all_flags()[j] == 0,
        forall|i: int| 0 <= i < 7 ==> #[trigger] all_flags()[i] != 0,
{
    assert(1u8 & 2 == 0 && 1u8 & 4 == 0 && 1u8 & 8 == 0 && 1u8 & 16 == 0 && 1u8 & 32 == 0 && 1u8
        & 64 == 0 && 2u8 & 4 == 0 && 2u8 & 8 == 0 && 2u8 & 16 == 0 && 2u8 & 32 == 0 && 2u8 & 64
        == 0 && 4u8 & 8 == 0 && 4u8 & 16 == 0 && 4u8 & 32 == 0 && 4u8 & 64 == 0 && 8u8 & 16 == 0
        && 8u8 & 32 == 0 && 8u8 & 64 == 0 && 16u8 & 32 == 0 && 16u8 & 64 == 0 && 32u8 & 64 == 0)
        by (bit_vector);
}

/// The flag bytes that the library puts on the wire, built up flag by flag, and which
/// flags they hold.
pub proof fn flag_reads()
    ensures
        0u8 | SYN == SYN,
        0u8 | FIN == FIN,
        0u8 | RST == RST,
        0u8 | PING == PING,
        (0u8 | SYN) | ACK == 0b0000_0011,
        (0u8 | ACK) | DATA == 0b0000_1010,
        (0u8 | DATA) | ACK == 0b0000_1010,
        has_bit(SYN, SYN) && !has_bit(SYN, ACK) && !has_bit(SYN, FIN) && !has_bit(SYN, DATA)
            && !has_bit(SYN, RST) && !has_bit(SYN, PING),
        has_bit(3, SYN) && has_bit(3, ACK) && !has_bit(3, FIN) && !has_bit(3, DATA) && !has_bit(
            3,
            RST,
        ) && !has_bit(3, PING),
        !has_bit(10, SYN) && has_bit(10, ACK) && !has_bit(10, FIN) && has_bit(10, DATA)
            && !has_bit(10, RST) && !has_bit(10, PING),
        !has_bit(FIN, SYN) && !has_bit(FIN, ACK) && has_bit(FIN, FIN) && !has_bit(FIN, DATA)
            && !has_bit(FIN, RST) && !has_bit(FIN, PING),
        !has_bit(RST, SYN) && !has_bit(RST, ACK) && !has_bit(RST, FIN) && !has_bit(RST, DATA)
            && has_bit(RST, RST) && !has_bit(RST, PING),
        !has_bit(PING, SYN) && !has_bit(PING, ACK) && !has_bit(PING, FIN) && !has_bit(PING, DATA)
            && !has_bit(PING, RST) && has_bit(PING, PING) && !has_bit(PING, PONG),
{
    assert(0u8 | 1 == 1 && 0u8 | 4 == 4 && 0u8 | 16 == 16 && 0u8 | 32 == 32 && (0u8 | 1) | 2 == 3
        && (0u8 | 2) | 8 == 10 && (0u8 | 8) | 2 == 10) by (bit_vector);
    assert(1u8 & 1 == 1 && 1u8 & 2 == 0 && 1u8 & 4 == 0 && 1u8 & 8 == 0 && 1u8 & 16 == 0 && 1u8
        & 32 == 0) by (bit_vector);
    assert(3u8 & 1 == 1 && 3u8 & 2 == 2 && 3u8 & 4 == 0 && 3u8 & 8 == 0 && 3u8 & 16 == 0 && 3u8
        & 32 == 0) by (bit_vector);
    assert(10u8 & 1 == 0 && 10u8 & 2 == 2 && 10u8 & 4 == 0 && 10u8 & 8 == 8 && 10u8 & 16 == 0
        && 10u8 & 32 == 0) by (bit_vector);
    assert(4u8 & 1 == 0 && 4u8 & 2 == 0 && 4u8 & 4 == 4 && 4u8 & 8 == 0 && 4u8 & 16 == 0 && 4u8
        & 32 == 0) by (bit_vector);
    assert(16u8 & 1 == 0 && 16u8 & 2 == 0 && 16u8 & 4 == 0 && 16u8 & 8 == 0 && 16u8 & 16 == 16
        && 16u8 & 32 == 0) by (bit_vector);
    assert(32u8 & 1 == 0 && 32u8 & 2 == 0 && 32u8 & 4 == 0 && 32u8 & 8 == 0 && 32u8 & 16 == 0
        && 32u8 & 32 == 32 && 32u8 & 64 == 0) by (bit_vector);
}

/// The named flags.
pub open spec fn all_flags() -> Seq<u8> {
    seq![SYN, ACK, FIN, DATA, RST, PING, PONG]
}

/// Each named flag is one binary digit of the flag byte.
pub proof fn flags_are_digits(flag: u8)
    ensures
        has_bit(flag, SYN) <==> flag % 2 == 1,
        has_bit(flag, ACK) <==> flag / 2 % 2 == 1,
        has_bit(flag, FIN) <==> flag / 4 % 2 == 1,
        has_bit(flag, DATA) <==> flag / 8 % 2 == 1,
        has_bit(flag, RST) <==> flag / 16 % 2 == 1,
        has_bit(flag, PING) <==> flag / 32 % 2 == 1,
        has_bit(flag, PONG) <==> flag / 64 % 2 == 1,
{
    assert((flag & 1 == 1) == (flag % 2 == 1) && (flag & 2 == 2) == (flag / 2 % 2 == 1) && (flag & 4
        == 4) == (flag / 4 % 2 == 1) && (flag & 8 == 8) == (flag / 8 % 2 == 1) && (flag & 16 == 16)
        == (flag / 16 % 2 == 1) && (flag & 32 == 32) == (flag / 32 % 2 == 1) && (flag & 64 == 64)
        == (flag / 64 % 2 == 1)) by (bit_vector);
}

/// Setting or clearing a flag of a header leaves all other fields alone, doing it twice is
/// doing it once, and doing it the other way round undoes it where it changed anything.
pub proof fn setting_a_flag_keeps_the_address(header: KcpPacketHeader, bit: u8, on: bool)
    ensures
        header.with(bit, on).conv == header.conv,
        header.with(bit, on).src_session_id == header.src_session_id,
        header.with(bit, on).dst_session_id == header.dst_session_id,
        header.with(bit, on).rsv == header.rsv,
        header.with(bit, on).flag == with_bit(header.flag, bit, on),
        header.has(bit) == has_bit(header.flag, bit),
        header.with(bit, on).with(bit, on) == header.with(bit, on),
        header.has(bit) ==> header.with(bit, false).with(bit, true) == header,
        header.with(bit, true).has(bit),
{
    let flag = header.flag;
    assert((flag | bit) | bit == flag | bit && (flag & !bit) & !bit == flag & !bit && (flag & bit
        == bit ==> (flag & !bit) | bit == flag) && (flag | bit) & bit == bit) by (bit_vector);
}

/// Where the fields stand on the wire, and how: three little-endian numbers, the flags, and
/// one byte more.
pub proof fn header_layout(header: KcpPacketHeader)
    ensures
        ({
            let wire = header.encode();
            &&& wire.len() == 14
            &&& header.conv == wire[0] + 0x100 * wire[1] + 0x1_0000 * wire[2] + 0x100_0000 * wire[3]
            &&& header.src_session_id == wire[4] + 0x100 * wire[5] + 0x1_0000 * wire[6]
                + 0x100_0000 * wire[7]
            &&& header.dst_session_id == wire[8] + 0x100 * wire[9] + 0x1_0000 * wire[10]
                + 0x100_0000 * wire[11]
            &&& header.flag == wire[12]
            &&& header.rsv == wire[13]
        }),
{
    crate::wire::le_u32_digits(header.conv);
    crate::wire::le_u32_digits(header.src_session_id);
    crate::wire::le_u32_digits(header.dst_session_id);
}

/// Bytes that are taken for a packet are kept as they are, and only where they are too few for
/// a header are they filled up, with zeros and to exactly a header.
pub proof fn padding_only_fills_up(wire: Seq<u8>)
    ensures
        padded(wire).len() == (if wire.len() < 14 {
            14
        } else {
            wire.len()
        }),
        forall|i: int| 0 <= i < wire.len() ==> #[trigger] padded(wire)[i] == wire[i],
        forall|i: int| wire.len() <= i < padded(wire).len() ==> #[trigger] padded(wire)[i] == 0,
{
}

/// A flag byte is printed by the flags that are set in it, each once and from the lowest to
/// the highest.
pub proof fn names_are_those_of_the_flags_set(flag: u8, n: nat)
    requires
        n <= 8,
    ensures
        names_set(flag, n).len() == flags_set(flag, n),
        forall|i: int|
            0 <= i < n && has_bit(flag, #[trigger] printed_flags()[i]) ==> names_set(
                flag,
                n,
            )[flags_set(flag, i as nat) as int] == flag_name(i),
    decreases n,
{
    if n > 0 {
        names_are_those_of_the_flags_set(flag, (n - 1) as nat);
        assert forall|i: int|
            0 <= i < n && has_bit(flag, #[trigger] printed_flags()[i]) implies names_set(
            flag,
            n,
        )[flags_set(flag, i as nat) as int] == flag_name(i) by {
            if i < n - 1 {
                flags_set_grows(flag, (i + 1) as nat, (n - 1) as nat);
            }
        }
    }
}

/// How many of the first `n` flags are set in `flag`.
pub open spec fn flags_set(flag: u8, n: nat) -> nat
    decreases n,
{
    if n == 0 {
        0
    } else {
        flags_set(flag, (n - 1) as nat) + (if has_bit(flag, printed_flags()[n - 1]) {
            1nat
        } else {
            0nat
        })
    }
}

proof fn flags_set_grows(flag: u8, m: nat, n: nat)
    requires
        m <= n,
    ensures
        flags_set(flag, m) <= flags_set(flag, n),
    decreases n,
{
    if m < n {
        flags_set_grows(flag, m, (n - 1) as nat);
    }
}

/// Zeros are as many as asked for, and zero.
pub proof fn zeros_are_zero(n: nat)
    ensures
        zeros(n).len() == n,
        forall|i: int| 0 <= i < n ==> #[trigger] zeros(n)[i] == 0,
{
}

/// The header that is all zero has no address and no flags.
pub proof fn zero_header_is_empty(bit: u8)
    requires
        bit != 0,
    ensures
        KcpPacketHeader::zero().conv == 0,
        KcpPacketHeader::zero().src_session_id == 0,
        KcpPacketHeader::zero().dst_session_id == 0,
        KcpPacketHeader::zero().rsv == 0,
        !KcpPacketHeader::zero().has(bit),
{
    assert(0u8 & bit == 0) by (bit_vector);
}

/// Names that are printed stand behind each other with a bar between any two, and a flag byte
/// without flags is printed as a zero.
pub proof fn names_are_joined_by_bars(names: Seq<Seq<char>>, name: Seq<char>, flag: u8)
    ensures
        with_bars(Seq::empty()) == Seq::<char>::empty(),
        with_bars(Seq::empty().push(name)) == name,
        names.len() > 0 ==> with_bars(names.push(name)) == with_bars(names) + " | "@ + name,
        flag == 0 ==> flag_text(flag) == "0x0"@,
        flag != 0 ==> flag_text(flag) == with_bars(names_set(flag, 8)),
{
    assert(names.push(name).drop_last() =~= names);
}

} // verus!
