//! What tells one connection of an endpoint from another.

use crate::packet_def::{KcpPacket, KcpPacketHeader};
use vstd::prelude::*;

verus! {

/// The address of a connection, which every packet of it carries in its header.
#[derive(Clone, Copy, Debug, PartialEq, Eq, Hash, Structural)]
pub struct ConnId {
    pub conv: u32,
    pub src_session_id: u32,
    pub dst_session_id: u32,
}

impl ConnId {
    /// The connection that a packet with this header belongs to.
    pub open spec fn of_header(header: KcpPacketHeader) -> Self {
        ConnId {
            conv: header.conv,
            src_session_id: header.src_session_id,
            dst_session_id: header.dst_session_id,
        }
    }

    /// `header` with the address of this connection.
    pub open spec fn addressed(self, header: KcpPacketHeader) -> KcpPacketHeader {
        KcpPacketHeader {
            conv: self.conv,
            src_session_id: self.src_session_id,
            dst_session_id: self.dst_session_id,
            ..header
        }
    }

    /// The three numbers of the address, under which the connection is filed.
    pub open spec fn spec_key(&self) -> (u32, u32, u32) {
        (self.conv, self.src_session_id, self.dst_session_id)
    }

    /// The three numbers of the address, under which the connection is filed.
    #[verifier::when_used_as_spec(spec_key)]
    pub fn key(&self) -> (key: (u32, u32, u32))
        ensures
            key == self.spec_key(),
    {
        (self.conv, self.src_session_id, self.dst_session_id)
    }

    /// The connection that is filed under `key`.
    pub open spec fn spec_of_key(key: (u32, u32, u32)) -> Self {
        ConnId { conv: key.0, src_session_id: key.1, dst_session_id: key.2 }
    }

    /// The connection that is filed under `key`.
    #[verifier::when_used_as_spec(spec_of_key)]
    pub fn of_key(key: (u32, u32, u32)) -> (id: Self)
        ensures
            id == ConnId::spec_of_key(key),
    {
        ConnId { conv: key.0, src_session_id: key.1, dst_session_id: key.2 }
    }

    /// Puts the address of this connection into the header of `packet`.
    pub fn fill_packet_header(&self, packet: &mut KcpPacket)
        ensures
            final(packet).spec_header() == self.addressed(old(packet).spec_header()),
            final(packet).spec_payload() == old(packet).spec_payload(),
    {
        packet.mut_header().set_conv(self.conv).set_src_session_id(
            self.src_session_id,
        ).set_dst_session_id(self.dst_session_id);
    }
}

impl<'a> vstd::std_specs::convert::FromSpecImpl<&'a KcpPacket> for ConnId {
    open spec fn obeys_from_spec() -> bool {
        true
    }

    open spec fn from_spec(packet: &'a KcpPacket) -> Self {
        ConnId::of_header(packet.spec_header())
    }
}

impl<'a> From<&'a KcpPacket> for ConnId {
    fn from(packet: &'a KcpPacket) -> Self {
        ConnId {
            conv: packet.header().conv(),
            src_session_id: packet.header().src_session_id(),
            dst_session_id: packet.header().dst_session_id(),
        }
    }
}

/// A packet that was addressed to a connection is recognised as one of it, and addressing
/// it leaves its flags alone.
pub proof fn address_reads_back(id: ConnId, header: KcpPacketHeader)
    ensures
        ConnId::of_header(id.addressed(header)) == id,
        id.addressed(header).flag == header.flag,
        id.addressed(header).rsv == header.rsv,
        ConnId::of_header(header).addressed(header) == header,
{
}

/// The address of a packet is what its header says, number by number, and connections are
/// filed apart: each under its own key, from which its address can be told.
pub proof fn addresses_and_keys_correspond(a: ConnId, b: ConnId, header: KcpPacketHeader)
    ensures
        ConnId::of_header(header).conv == header.conv,
        ConnId::of_header(header).src_session_id == header.src_session_id,
        ConnId::of_header(header).dst_session_id == header.dst_session_id,
        ConnId::spec_of_key(a.spec_key()) == a,
        a.spec_key() == b.spec_key() <==> a == b,
        a.spec_key().0 == a.conv,
        a.spec_key().1 == a.src_session_id,
        a.spec_key().2 == a.dst_session_id,
{
}

} // verus!
