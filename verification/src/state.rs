//! The state machine of a connection.
//!
//! A connection is opened by a handshake of three packets, SYN, SYN-ACK and ACK+data,
//! and closed by one FIN from each side or by an RST from either. Packets of the handshake
//! may be lost or arrive twice: a repeated SYN is answered by the same SYN-ACK, a repeated
//! SYN-ACK by the same ACK+data, and neither changes the state.

use crate::error::Error;
use crate::packet_def::{
    flag_reads, has_bit, with_bit, KcpPacket, KcpPacketHeader, ACK, DATA, FIN, RST, SYN,
};
use vstd::prelude::*;

verus! {

/// Reading and writing the flags that the state machine looks at.
pub trait PacketHeaderFlagManipulator {
    /// The flag byte.
    spec fn spec_flag(&self) -> u8;

    fn has_syn(&self) -> (on: bool)
        ensures
            on == has_bit(self.spec_flag(), SYN),
    ;

    fn has_ack(&self) -> (on: bool)
        ensures
            on == has_bit(self.spec_flag(), ACK),
    ;

    fn has_fin(&self) -> (on: bool)
        ensures
            on == has_bit(self.spec_flag(), FIN),
    ;

    fn has_rst(&self) -> (on: bool)
        ensures
            on == has_bit(self.spec_flag(), RST),
    ;

    fn has_data(&self) -> (on: bool)
        ensures
            on == has_bit(self.spec_flag(), DATA),
    ;

    fn set_syn(&mut self, value: bool)
        ensures
            final(self).spec_flag() == with_bit(old(self).spec_flag(), SYN, value),
    ;

    fn set_ack(&mut self, value: bool)
        ensures
            final(self).spec_flag() == with_bit(old(self).spec_flag(), ACK, value),
    ;

    fn set_fin(&mut self, value: bool)
        ensures
            final(self).spec_flag() == with_bit(old(self).spec_flag(), FIN, value),
    ;

    fn set_rst(&mut self, value: bool)
        ensures
            final(self).spec_flag() == with_bit(old(self).spec_flag(), RST, value),
    ;

    fn set_data(&mut self, value: bool)
        ensures
            final(self).spec_flag() == with_bit(old(self).spec_flag(), DATA, value),
    ;
}

impl PacketHeaderFlagManipulator for KcpPacket {
    open spec fn spec_flag(&self) -> u8 {
        self.spec_header().flag
    }

    fn has_syn(&self) -> bool {
        self.header().is_syn()
    }

    fn has_ack(&self) -> bool {
        self.header().is_ack()
    }

    fn has_fin(&self) -> bool {
        self.header().is_fin()
    }

    fn has_rst(&self) -> bool {
        self.header().is_rst()
    }

    fn has_data(&self) -> bool {
        self.header().is_data()
    }

    fn set_syn(&mut self, value: bool)
        ensures
            final(self).spec_header() == old(self).spec_header().with(SYN, value),
            final(self).spec_payload() == old(self).spec_payload(),
    {
        self.mut_header().set_syn(value);
    }

    fn set_ack(&mut self, value: bool)
        ensures
            final(self).spec_header() == old(self).spec_header().with(ACK, value),
            final(self).spec_payload() == old(self).spec_payload(),
    {
        self.mut_header().set_ack(value);
    }

    fn set_fin(&mut self, value: bool)
        ensures
            final(self).spec_header() == old(self).spec_header().with(FIN, value),
            final(self).spec_payload() == old(self).spec_payload(),
    {
        self.mut_header().set_fin(value);
    }

    fn set_rst(&mut self, value: bool)
        ensures
            final(self).spec_header() == old(self).spec_header().with(RST, value),
            final(self).spec_payload() == old(self).spec_payload(),
    {
        self.mut_header().set_rst(value);
    }

    fn set_data(&mut self, value: bool)
        ensures
            final(self).spec_header() == old(self).spec_header().with(DATA, value),
            final(self).spec_payload() == old(self).spec_payload(),
    {
        self.mut_header().set_data(value);
    }
}

/// The state of a connection, as this side knows it.
#[derive(Clone, Copy, Debug, PartialEq, Eq, Structural)]
pub enum KcpConnectionFSM {
    /// Waiting for the SYN of a peer.
    Listen,
    /// SYN sent, waiting for the SYN-ACK.
    SynSent,
    /// SYN received and answered, waiting for the ACK+data.
    SynReceived,
    /// Open in both directions.
    Established,
    /// This side has closed, the peer may still send.
    LocalClosed,
    /// The peer has closed, this side may still send.
    PeerClosed,
    /// Closed in both directions.
    Closed,
}

/// What a packet does to a connection.
pub struct FsmStep {
    /// The state after the packet.
    pub next: KcpConnectionFSM,
    /// The flags of the answer, if there is one. It has no payload.
    pub reply: Option<u8>,
    /// Whether the packet fits the state.
    pub ok: bool,
}

/// SYN and ACK: the second packet of the handshake.
pub const SYN_ACK: u8 = 0b0000_0011;

/// ACK and data: the third packet of the handshake, and every packet with user data.
pub const ACK_DATA: u8 = 0b0000_1010;

/// Whether the flags are those of a SYN that opens a connection.
pub open spec fn is_opening_syn(flag: u8) -> bool {
    has_bit(flag, SYN) && !has_bit(flag, ACK)
}

/// Whether the flags are those of a SYN-ACK.
pub open spec fn is_syn_ack(flag: u8) -> bool {
    has_bit(flag, SYN) && has_bit(flag, ACK)
}

/// Whether the flags are those of a packet with data, the third of the handshake among
/// them.
pub open spec fn is_ack_data(flag: u8) -> bool {
    !has_bit(flag, SYN) && has_bit(flag, ACK) && has_bit(flag, DATA)
}

/// Whether the flags are those of a packet between open ends that is no FIN.
pub open spec fn is_steady(flag: u8) -> bool {
    !has_bit(flag, SYN) && (has_bit(flag, ACK) || has_bit(flag, DATA))
}

/// The step that stays in `state`.
pub open spec fn fsm_stay(state: KcpConnectionFSM, reply: Option<u8>) -> FsmStep {
    FsmStep { next: state, reply, ok: true }
}

/// The step to `next`.
pub open spec fn fsm_go(next: KcpConnectionFSM, reply: Option<u8>) -> FsmStep {
    FsmStep { next, reply, ok: true }
}

/// The step on a packet that does not fit: the state stays, the answer is an RST.
pub open spec fn fsm_reject(state: KcpConnectionFSM) -> FsmStep {
    FsmStep { next: state, reply: Some(RST), ok: false }
}

/// What a packet with the flags `flag` does to a connection in `state`.
pub open spec fn fsm_step(state: KcpConnectionFSM, flag: u8) -> FsmStep {
    if has_bit(flag, RST) {
        fsm_go(KcpConnectionFSM::Closed, None)
    } else {
        match state {
            KcpConnectionFSM::Listen => if is_opening_syn(flag) {
                fsm_go(KcpConnectionFSM::SynReceived, Some(SYN_ACK))
            } else {
                fsm_reject(state)
            },
            KcpConnectionFSM::SynSent => if is_syn_ack(flag) {
                fsm_go(KcpConnectionFSM::Established, Some(ACK_DATA))
            } else {
                fsm_reject(state)
            },
            KcpConnectionFSM::SynReceived => if is_opening_syn(flag) {
                fsm_stay(state, Some(SYN_ACK))
            } else if is_ack_data(flag) {
                fsm_go(KcpConnectionFSM::Established, None)
            } else {
                fsm_reject(state)
            },
            KcpConnectionFSM::Established => if has_bit(flag, FIN) {
                fsm_go(KcpConnectionFSM::PeerClosed, None)
            } else if is_syn_ack(flag) {
                fsm_stay(state, Some(ACK_DATA))
            } else if is_steady(flag) {
                fsm_stay(state, None)
            } else {
                fsm_reject(state)
            },
            KcpConnectionFSM::LocalClosed => if has_bit(flag, FIN) {
                fsm_go(KcpConnectionFSM::Closed, None)
            } else if is_steady(flag) {
                fsm_stay(state, None)
            } else {
                fsm_reject(state)
            },
            KcpConnectionFSM::PeerClosed => if has_bit(flag, FIN) || is_steady(flag) {
                fsm_stay(state, None)
            } else {
                fsm_reject(state)
            },
            KcpConnectionFSM::Closed => fsm_reject(state),
        }
    }
}

/// The state after this side closes, or `None` where there is nothing to close.
pub open spec fn fsm_close(state: KcpConnectionFSM) -> Option<KcpConnectionFSM> {
    match state {
        KcpConnectionFSM::Established => Some(KcpConnectionFSM::LocalClosed),
        KcpConnectionFSM::PeerClosed => Some(KcpConnectionFSM::Closed),
        _ => None,
    }
}

/// The header of an answer before it is addressed: the flags and nothing else.
pub open spec fn bare_header(flag: u8) -> KcpPacketHeader {
    KcpPacketHeader { flag, ..KcpPacketHeader::zero() }
}

/// Whether `packet` has the given flags, no addresses and no payload.
pub open spec fn is_bare_packet(packet: KcpPacket, flag: u8) -> bool {
    &&& packet.spec_header() == bare_header(flag)
    &&& packet.spec_payload() == Seq::<u8>::empty()
}

fn syn_ack_packet() -> (packet: KcpPacket)
    ensures
        is_bare_packet(packet, SYN_ACK),
{
    let mut packet = KcpPacket::default();
    PacketHeaderFlagManipulator::set_syn(&mut packet, true);
    PacketHeaderFlagManipulator::set_ack(&mut packet, true);
    proof {
        flag_reads();
    }
    packet
}

fn ack_data_packet() -> (packet: KcpPacket)
    ensures
        is_bare_packet(packet, ACK_DATA),
{
    let mut packet = KcpPacket::default();
    PacketHeaderFlagManipulator::set_ack(&mut packet, true);
    PacketHeaderFlagManipulator::set_data(&mut packet, true);
    proof {
        flag_reads();
    }
    packet
}

fn rst_packet() -> (packet: KcpPacket)
    ensures
        is_bare_packet(packet, RST),
{
    let mut packet = KcpPacket::default();
    PacketHeaderFlagManipulator::set_rst(&mut packet, true);
    proof {
        flag_reads();
    }
    packet
}

impl KcpConnectionFSM {
    /// Starts to wait for a peer.
    pub fn listen() -> (fsm: Self)
        ensures
            fsm == KcpConnectionFSM::Listen,
    {
        KcpConnectionFSM::Listen
    }

    /// Starts to open a connection: marks `out_packet` as the SYN to send.
    pub fn connect(out_packet: &mut KcpPacket) -> (fsm: Self)
        ensures
            fsm == KcpConnectionFSM::SynSent,
            final(out_packet).spec_header() == old(out_packet).spec_header().with(SYN, true),
            final(out_packet).spec_payload() == old(out_packet).spec_payload(),
    {
        PacketHeaderFlagManipulator::set_syn(out_packet, true);
        KcpConnectionFSM::SynSent
    }

    /// Closes this side: marks `out_packet` as the FIN to send. Where there is nothing to
    /// close, neither the state nor the packet changes.
    pub fn close(&mut self, out_packet: &mut KcpPacket) -> (result: Result<(), Error>)
        ensures
            match fsm_close(*old(self)) {
                Some(next) => {
                    &&& result == Ok::<(), Error>(())
                    &&& *final(self) == next
                    &&& final(out_packet).spec_header() == old(out_packet).spec_header().with(
                        FIN,
                        true,
                    )
                    &&& final(out_packet).spec_payload() == old(out_packet).spec_payload()
                },
                None => {
                    &&& result == Err::<(), Error>(Error::InvalidState)
                    &&& *final(self) == *old(self)
                    &&& *final(out_packet) == *old(out_packet)
                },
            },
    {
        match *self {
            KcpConnectionFSM::Established => {
                *self = KcpConnectionFSM::LocalClosed;
            },
            KcpConnectionFSM::PeerClosed => {
                *self = KcpConnectionFSM::Closed;
            },
            _ => {
                return Err(Error::InvalidState);
            },
        }
        PacketHeaderFlagManipulator::set_fin(out_packet, true);
        Ok(())
    }

    /// Takes in a packet from the peer. An answer, if there is one, is left in
    /// `out_packet`, also where the packet does not fit.
    pub fn handle_packet(
        &mut self,
        packet: &KcpPacket,
        out_packet: &mut Option<KcpPacket>,
    ) -> (result: Result<(), Error>)
        ensures
            ({
                let step = fsm_step(*old(self), packet.spec_header().flag);
                &&& *final(self) == step.next
                &&& result == (if step.ok {
                    Ok::<(), Error>(())
                } else {
                    Err(Error::InvalidState)
                })
                &&& match step.reply {
                    Some(flag) => *final(out_packet) matches Some(p) && is_bare_packet(p, flag),
                    None => *final(out_packet) == *old(out_packet),
                }
            }),
    {
        if packet.has_rst() {
            *self = KcpConnectionFSM::Closed;
            return Ok(());
        }
        let (syn, ack) = (packet.has_syn(), packet.has_ack());
        let (fin, data) = (packet.has_fin(), packet.has_data());
        match *self {
            KcpConnectionFSM::Listen => {
                if syn && !ack {
                    *self = KcpConnectionFSM::SynReceived;
                    *out_packet = Some(syn_ack_packet());
                    return Ok(());
                }
            },
            KcpConnectionFSM::SynSent => {
                if syn && ack {
                    *self = KcpConnectionFSM::Established;
                    *out_packet = Some(ack_data_packet());
                    return Ok(());
                }
            },
            KcpConnectionFSM::SynReceived => {
                if syn && !ack {
                    *out_packet = Some(syn_ack_packet());
                    return Ok(());
                }
                if !syn && ack && data {
                    *self = KcpConnectionFSM::Established;
                    return Ok(());
                }
            },
            KcpConnectionFSM::Established => {
                if fin {
                    *self = KcpConnectionFSM::PeerClosed;
                    return Ok(());
                }
                if syn && ack {
                    *out_packet = Some(ack_data_packet());
                    return Ok(());
                }
                if !syn && (ack || data) {
                    return Ok(());
                }
            },
            KcpConnectionFSM::LocalClosed => {
                if fin {
                    *self = KcpConnectionFSM::Closed;
                    return Ok(());
                }
                if !syn && (ack || data) {
                    return Ok(());
                }
            },
            KcpConnectionFSM::PeerClosed => {
                if fin || (!syn && (ack || data)) {
                    return Ok(());
                }
            },
            KcpConnectionFSM::Closed => {},
        }
        *out_packet = Some(rst_packet());
        Err(Error::InvalidState)
    }
}

/// How far a connection has come in its life.
pub open spec fn progress(state: KcpConnectionFSM) -> int {
    match state {
        KcpConnectionFSM::Listen => 0,
        KcpConnectionFSM::SynSent => 1,
        KcpConnectionFSM::SynReceived => 1,
        KcpConnectionFSM::Established => 2,
        KcpConnectionFSM::LocalClosed => 3,
        KcpConnectionFSM::PeerClosed => 3,
        KcpConnectionFSM::Closed => 4,
    }
}

/// A connection only moves forward: every packet and every close either leaves its state
/// alone or takes it further. In particular nothing leads out of `Closed`.
pub proof fn connection_only_moves_forward(state: KcpConnectionFSM, flag: u8)
    ensures
        fsm_step(state, flag).next == state || progress(fsm_step(state, flag).next) > progress(
            state,
        ),
        fsm_close(state) matches Some(next) ==> progress(next) > progress(state),
        fsm_step(KcpConnectionFSM::Closed, flag).next == KcpConnectionFSM::Closed,
        fsm_close(KcpConnectionFSM::Closed) is None,
{
}

/// A packet that does not fit never changes the state.
pub proof fn rejected_packet_changes_nothing(state: KcpConnectionFSM, flag: u8)
    requires
        !fsm_step(state, flag).ok,
    ensures
        fsm_step(state, flag).next == state,
        fsm_step(state, flag).reply == Some(RST),
{
}

/// An RST ends the connection in every state and is never answered.
pub proof fn reset_closes_without_answer(state: KcpConnectionFSM, flag: u8)
    requires
        has_bit(flag, RST),
    ensures
        fsm_step(state, flag).next == KcpConnectionFSM::Closed,
        fsm_step(state, flag).reply is None,
{
}

/// SYN, SYN-ACK and ACK+data take both sides to `Established`.
pub proof fn handshake_establishes_both_sides()
    ensures
        ({
            let server = fsm_step(KcpConnectionFSM::Listen, SYN);
            let client = fsm_step(KcpConnectionFSM::SynSent, SYN_ACK);
            &&& server.next == KcpConnectionFSM::SynReceived
            &&& server.reply == Some(SYN_ACK)
            &&& client.next == KcpConnectionFSM::Established
            &&& client.reply == Some(ACK_DATA)
            &&& fsm_step(KcpConnectionFSM::SynReceived, ACK_DATA).next
                == KcpConnectionFSM::Established
        }),
{
    flag_reads();
}

/// A repeated SYN is answered by the SYN-ACK that the first one got, a repeated SYN-ACK by
/// the ACK+data that the first one got, and the state stays. So the loss of either answer
/// is repaired by sending the question again, as often as it takes.
pub proof fn handshake_packets_are_idempotent()
    ensures
        fsm_step(KcpConnectionFSM::SynReceived, SYN) == fsm_stay(
            KcpConnectionFSM::SynReceived,
            fsm_step(KcpConnectionFSM::Listen, SYN).reply,
        ),
        fsm_step(KcpConnectionFSM::Established, SYN_ACK) == fsm_stay(
            KcpConnectionFSM::Established,
            fsm_step(KcpConnectionFSM::SynSent, SYN_ACK).reply,
        ),
{
    flag_reads();
}

/// The two sides of a handshake that is not over: the states that a client and a server
/// can be in, whatever was lost on the way.
pub open spec fn handshaking(client: KcpConnectionFSM, server: KcpConnectionFSM) -> bool {
    ||| client == KcpConnectionFSM::SynSent && server == KcpConnectionFSM::Listen
    ||| client == KcpConnectionFSM::SynSent && server == KcpConnectionFSM::SynReceived
    ||| client == KcpConnectionFSM::Established && server == KcpConnectionFSM::SynReceived
}

/// Whether the client is the side that sends its packet again while a handshake is not over:
/// it sends the SYN again until it has an answer, and from then on the server sends the
/// SYN-ACK again.
pub open spec fn repeated_by_client(client: KcpConnectionFSM) -> bool {
    client == KcpConnectionFSM::SynSent
}

/// A handshake recovers from any loss: wherever it stands, it is completed once the packet
/// that is sent again and the answers to it arrive.
pub proof fn handshake_recovers_from_loss(client: KcpConnectionFSM, server: KcpConnectionFSM)
    requires
        handshaking(client, server),
    ensures
        repeated_by_client(client) ==> ({
            let at_server = fsm_step(server, SYN);
            let at_client = fsm_step(client, at_server.reply->Some_0);
            let done = fsm_step(at_server.next, at_client.reply->Some_0);
            &&& at_server.reply is Some
            &&& at_client.reply is Some
            &&& at_client.next == KcpConnectionFSM::Established
            &&& done.next == KcpConnectionFSM::Established
        }),
        !repeated_by_client(client) ==> ({
            let at_client = fsm_step(client, SYN_ACK);
            let done = fsm_step(server, at_client.reply->Some_0);
            &&& at_client.reply is Some
            &&& at_client.next == client
            &&& client == KcpConnectionFSM::Established
            &&& done.next == KcpConnectionFSM::Established
        }),
{
    flag_reads();
}

/// A handshake stays a handshake, or is over, whichever of its packets arrives: SYN and
/// SYN-ACK in any number, and ACK+data once the client has sent it.
pub proof fn handshake_survives_duplicates(client: KcpConnectionFSM, server: KcpConnectionFSM)
    requires
        handshaking(client, server) || (client == KcpConnectionFSM::Established && server
            == KcpConnectionFSM::Established),
    ensures
        ({
            let open = |c: KcpConnectionFSM, s: KcpConnectionFSM|
                handshaking(c, s) || (c == KcpConnectionFSM::Established && s
                    == KcpConnectionFSM::Established);
            &&& open(client, fsm_step(server, SYN).next)
            &&& server != KcpConnectionFSM::Listen ==> open(fsm_step(client, SYN_ACK).next, server)
            &&& client == KcpConnectionFSM::Established ==> open(
                client,
                fsm_step(server, ACK_DATA).next,
            )
        }),
{
    flag_reads();
}

/// Each side closes on its own: after one FIN the receiver of it can still send and the
/// sender of it can still receive; after the second FIN both are closed.
pub proof fn both_sides_close_independently()
    ensures
        ({
            let first = fsm_close(KcpConnectionFSM::Established);
            let peer = fsm_step(KcpConnectionFSM::Established, FIN);
            let second = fsm_close(peer.next);
            &&& first == Some(KcpConnectionFSM::LocalClosed)
            &&& peer.next == KcpConnectionFSM::PeerClosed
            &&& fsm_step(KcpConnectionFSM::LocalClosed, ACK_DATA) == fsm_stay(
                KcpConnectionFSM::LocalClosed,
                None,
            )
            &&& second == Some(KcpConnectionFSM::Closed)
            &&& fsm_step(KcpConnectionFSM::LocalClosed, FIN).next == KcpConnectionFSM::Closed
        }),
{
    flag_reads();
}

/// Traffic does not move an open connection: as long as a packet holds neither FIN nor RST, a
/// connection that is open in at least one direction stays as it is, and a packet of the
/// stream, one with data or an acknowledgement, fits and is not answered.
pub proof fn traffic_does_not_move_an_open_connection(state: KcpConnectionFSM, flag: u8)
    requires
        state == KcpConnectionFSM::Established || state == KcpConnectionFSM::LocalClosed || state
            == KcpConnectionFSM::PeerClosed,
        !has_bit(flag, RST),
        !has_bit(flag, FIN),
    ensures
        fsm_step(state, flag).next == state,
        !has_bit(flag, SYN) && (has_bit(flag, ACK) || has_bit(flag, DATA)) ==> {
            &&& fsm_step(state, flag).ok
            &&& fsm_step(state, flag).reply is None
        },
{
}

/// Once the peer has closed, only an RST or the close of this side leads further: whatever
/// else the peer sends leaves this side able to send.
pub proof fn half_close_lasts_until_this_side_closes(flag: u8)
    ensures
        fsm_step(KcpConnectionFSM::PeerClosed, flag).next == (if has_bit(flag, RST) {
            KcpConnectionFSM::Closed
        } else {
            KcpConnectionFSM::PeerClosed
        }),
        fsm_close(KcpConnectionFSM::PeerClosed) == Some(KcpConnectionFSM::Closed),
{
}

/// Which packets lead into a state or keep a connection there, and which do not.
pub proof fn states_are_entered_by_their_own_packets(state: KcpConnectionFSM, flag: u8)
    ensures
        ({
            let next = fsm_step(state, flag).next;
            let (syn, ack) = (has_bit(flag, SYN), has_bit(flag, ACK));
            let (fin, data) = (has_bit(flag, FIN), has_bit(flag, DATA));
            let rst = has_bit(flag, RST);
            &&& next == KcpConnectionFSM::Listen <==> !rst && state == KcpConnectionFSM::Listen
                && (!syn || ack)
            &&& next == KcpConnectionFSM::SynSent <==> !rst && state == KcpConnectionFSM::SynSent
                && (!syn || !ack)
            &&& next == KcpConnectionFSM::SynReceived <==> !rst && ((state
                == KcpConnectionFSM::Listen && syn && !ack) || (state
                == KcpConnectionFSM::SynReceived && (syn || !ack || !data)))
            &&& next == KcpConnectionFSM::Established <==> !rst && ((state
                == KcpConnectionFSM::SynSent && syn && ack) || (state
                == KcpConnectionFSM::SynReceived && !syn && ack && data) || (state
                == KcpConnectionFSM::Established && !fin))
            &&& next == KcpConnectionFSM::LocalClosed <==> !rst && state
                == KcpConnectionFSM::LocalClosed && !fin
            &&& next == KcpConnectionFSM::PeerClosed <==> !rst && ((state
                == KcpConnectionFSM::Established && fin) || state == KcpConnectionFSM::PeerClosed)
            &&& next == KcpConnectionFSM::Closed <==> rst || state == KcpConnectionFSM::Closed || (
            state == KcpConnectionFSM::LocalClosed && fin)
        }),
{
}

/// Which packets are answered, and how: by a SYN-ACK, by an ACK+data or by an RST, and the
/// last exactly where the packet does not fit.
pub proof fn packets_get_their_answers(state: KcpConnectionFSM, flag: u8)
    ensures
        ({
            let step = fsm_step(state, flag);
            let (syn, ack) = (has_bit(flag, SYN), has_bit(flag, ACK));
            let (fin, data) = (has_bit(flag, FIN), has_bit(flag, DATA));
            let rst = has_bit(flag, RST);
            &&& step.reply == Some(3u8) <==> !rst && syn && !ack && (state
                == KcpConnectionFSM::Listen || state == KcpConnectionFSM::SynReceived)
            &&& step.reply == Some(10u8) <==> !rst && syn && ack && (state
                == KcpConnectionFSM::SynSent || (state == KcpConnectionFSM::Established && !fin))
            &&& step.reply == Some(16u8) <==> !step.ok
            &&& step.reply matches Some(reply) ==> reply == 3 || reply == 10 || reply == 16
            &&& rst ==> step.ok
            &&& !rst && state == KcpConnectionFSM::Listen ==> step.ok == (syn && !ack)
            &&& !rst && state == KcpConnectionFSM::SynSent ==> step.ok == (syn && ack)
            &&& !rst && state == KcpConnectionFSM::SynReceived ==> step.ok == if syn {
                !ack
            } else {
                ack && data
            }
            &&& !rst && state == KcpConnectionFSM::Established ==> step.ok == (fin || ack || (data
                && !syn))
            &&& !rst && (state == KcpConnectionFSM::LocalClosed || state
                == KcpConnectionFSM::PeerClosed) ==> step.ok == (fin || (!syn && (ack || data)))
            &&& !rst && state == KcpConnectionFSM::Closed ==> !step.ok
        }),
{
}

/// This side can close exactly once, and only what is open: it stops sending, and the
/// connection is closed altogether where the peer has closed before.
pub proof fn only_open_sides_close(state: KcpConnectionFSM)
    ensures
        fsm_close(state) is Some <==> state == KcpConnectionFSM::Established || state
            == KcpConnectionFSM::PeerClosed,
        fsm_close(state) == Some(KcpConnectionFSM::Closed) <==> state
            == KcpConnectionFSM::PeerClosed,
        fsm_close(state) == Some(KcpConnectionFSM::LocalClosed) <==> state
            == KcpConnectionFSM::Established,
        fsm_close(state) matches Some(next) ==> fsm_close(next) is None,
{
}

/// The header of an answer has the flags and nothing else.
pub proof fn bare_header_is_bare(flag: u8)
    ensures
        bare_header(flag).flag == flag,
        bare_header(flag).conv == 0,
        bare_header(flag).src_session_id == 0,
        bare_header(flag).dst_session_id == 0,
        bare_header(flag).rsv == 0,
{
}

} // verus!
