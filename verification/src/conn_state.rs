//! What an endpoint keeps of each connection.
//!
//! Times are nanoseconds on a clock that never runs backwards.

use crate::buffer::{bytes_clone, bytes_contents, bytes_new};
use crate::conn_id::ConnId;
use crate::error::Error;
use crate::log_throttle::elapsed;
use crate::packet_def::{flag_reads, has_bit, KcpPacket, FIN, PING, RST};
use crate::printing::{formatter_text, is_printed, ShownField};
use crate::state::{
    bare_header, fsm_close, fsm_step, is_bare_packet, progress, FsmStep, KcpConnectionFSM,
    SYN_ACK,
};
use bytes::Bytes;
use vstd::prelude::*;

verus! {

/// Cap on timer-driven SYN-ACK retransmits per connection. It bounds the work that a
/// half-open entry costs and the answers that a spoofed SYN can buy: one at once and this
/// many by timer. The answers to repeated SYNs are not capped, for each of them is paid
/// for by a packet that the peer did send.
pub const MAX_SYN_ACK_RETRIES: u32 = 10;

/// Every open connection is pinged once in this many ticks.
pub const PING_SLOTS: u32 = 10;

/// A connection that was silent for longer than this, one minute, is given up.
pub const PONG_TIMEOUT: u64 = 60_000_000_000;

/// The mathematical content of a [`KcpConnectionState`].
#[verifier::ext_equal]
pub struct ConnState {
    pub fsm: KcpConnectionFSM,
    /// The bytes that came with the SYN.
    pub conn_data: Seq<u8>,
    /// When the last packet arrived.
    pub last_pong: u64,
    /// Timer-driven SYN-ACKs sent so far.
    pub syn_ack_retries: u32,
}

impl ConnState {
    /// A connection that was created at `now`.
    pub open spec fn fresh(fsm: KcpConnectionFSM, conn_data: Seq<u8>, now: u64) -> Self {
        ConnState { fsm, conn_data, last_pong: now, syn_ack_retries: 0 }
    }

    /// Whether the peer was silent for too long.
    pub open spec fn timed_out(self, now: u64) -> bool {
        elapsed(self.last_pong, now) > PONG_TIMEOUT
    }

    /// Whether the connection is still worth keeping.
    pub open spec fn live(self, now: u64) -> bool {
        self.fsm != KcpConnectionFSM::Closed && !self.timed_out(now)
    }

    /// The connection after the state machine took `step` on a packet at `now`.
    pub open spec fn after_step(self, step: FsmStep, now: u64) -> Self {
        ConnState { fsm: step.next, last_pong: now, ..self }
    }

    /// Whether the next tick sends a SYN-ACK again.
    pub open spec fn retries_syn_ack(self) -> bool {
        self.fsm == KcpConnectionFSM::SynReceived && self.syn_ack_retries < MAX_SYN_ACK_RETRIES
    }

    /// The flags of the packet that a tick sends on this connection, if it sends one.
    pub open spec fn tick_flag(self, conv: u32, slot: u32) -> Option<u8> {
        match self.fsm {
            KcpConnectionFSM::SynReceived => if self.retries_syn_ack() {
                Some(SYN_ACK)
            } else {
                None
            },
            KcpConnectionFSM::Established
            | KcpConnectionFSM::LocalClosed
            | KcpConnectionFSM::PeerClosed => if conv % PING_SLOTS == slot {
                Some(PING)
            } else {
                None
            },
            _ => None,
        }
    }

    /// The connection after a tick.
    pub open spec fn after_tick(self) -> Self {
        if self.retries_syn_ack() {
            ConnState { syn_ack_retries: (self.syn_ack_retries + 1) as u32, ..self }
        } else {
            self
        }
    }

    /// The connection after `n` ticks with nothing in between.
    pub open spec fn after_ticks(self, n: nat) -> Self
        decreases n,
    {
        if n == 0 {
            self
        } else {
            self.after_ticks((n - 1) as nat).after_tick()
        }
    }

    /// How many SYN-ACKs `n` ticks send.
    pub open spec fn syn_acks_sent(self, n: nat) -> nat
        decreases n,
    {
        if n == 0 {
            0
        } else {
            self.syn_acks_sent((n - 1) as nat) + (if self.after_ticks(
                (n - 1) as nat,
            ).retries_syn_ack() {
                1nat
            } else {
                0nat
            })
        }
    }
}

/// The flags of the answer that goes out after a step, if one does.
///
/// An answer goes out when the state changed, and when the packet fitted, as a repeated
/// SYN does. The RST of a packet that did not fit is held back while the state stays, so
/// that a stray or duplicated packet cannot tear down a healthy connection.
pub open spec fn forwarded(before: KcpConnectionFSM, step: FsmStep) -> Option<u8> {
    if step.next != before || step.ok {
        step.reply
    } else {
        None
    }
}

/// Decides whether the answer of a state machine goes out, whatever machine it was that
/// went from `before` to `after` with `result`.
pub fn forwarded_reply(
    before: KcpConnectionFSM,
    after: KcpConnectionFSM,
    result: Result<(), Error>,
    out_packet: Option<KcpPacket>,
) -> (reply: Option<KcpPacket>)
    ensures
        reply == (if before != after || result is Ok {
            out_packet
        } else {
            None
        }),
{
    if before != after {
        return out_packet;
    }
    match result {
        Ok(()) => out_packet,
        Err(_) => None,
    }
}

/// The state of one connection.
pub struct KcpConnectionState {
    fsm: KcpConnectionFSM,
    conn_data: Bytes,
    last_pong: u64,
    syn_ack_retries: u32,
}

impl View for KcpConnectionState {
    type V = ConnState;

    closed spec fn view(&self) -> ConnState {
        ConnState {
            fsm: self.fsm,
            conn_data: bytes_contents(self.conn_data),
            last_pong: self.last_pong,
            syn_ack_retries: self.syn_ack_retries,
        }
    }
}

/// A field that shows where a connection is in its life.
pub open spec fn shown_fsm(name: Seq<char>, fsm: KcpConnectionFSM) -> ShownField {
    let value: &dyn core::fmt::Debug = &fsm;
    ShownField { name, value }
}

impl core::fmt::Debug for KcpConnectionState {
    /// Shows where the connection is in its life.
    fn fmt(&self, f: &mut core::fmt::Formatter<'_>) -> (result: core::fmt::Result)
        ensures
            is_printed(
                formatter_text(*old(f)),
                "KcpConnectionState"@,
                Seq::empty().push(shown_fsm("fsm"@, self@.fsm)),
                result,
            ),
    {
        f.debug_struct("KcpConnectionState").field("fsm", &self.fsm).finish()
    }
}

impl Clone for KcpConnectionState {
    fn clone(&self) -> (copy: Self)
        ensures
            copy@ == self@,
    {
        KcpConnectionState {
            fsm: self.fsm,
            conn_data: bytes_clone(&self.conn_data),
            last_pong: self.last_pong,
            syn_ack_retries: self.syn_ack_retries,
        }
    }
}

/// What a packet did to a connection.
#[derive(Debug)]
pub struct PacketOutcome {
    /// The answer to send, not addressed yet.
    pub reply: Option<KcpPacket>,
    /// Whether the state changed.
    pub changed: bool,
}

impl KcpConnectionState {
    pub fn new(fsm: KcpConnectionFSM, now: u64) -> (state: Self)
        ensures
            state@ == ConnState::fresh(fsm, Seq::empty(), now),
    {
        KcpConnectionState { fsm, conn_data: bytes_new(), last_pong: now, syn_ack_retries: 0 }
    }

    /// Takes in a packet that arrived at `now`.
    pub fn handle_packet(&mut self, packet: &KcpPacket, now: u64) -> (outcome: PacketOutcome)
        ensures
            ({
                let before = old(self)@.fsm;
                let step = fsm_step(before, packet.spec_header().flag);
                &&& final(self)@ == old(self)@.after_step(step, now)
                &&& outcome.changed == (step.next != before)
                &&& match forwarded(before, step) {
                    Some(flag) => outcome.reply matches Some(p) && is_bare_packet(p, flag),
                    None => outcome.reply is None,
                }
            }),
    {
        self.notify_pong(now);
        let mut out_packet: Option<KcpPacket> = None;
        let before = self.fsm;
        let result = self.fsm.handle_packet(packet, &mut out_packet);
        let changed = before != self.fsm;
        PacketOutcome { reply: forwarded_reply(before, self.fsm, result, out_packet), changed }
    }

    pub fn fsm(&self) -> (fsm: KcpConnectionFSM)
        ensures
            fsm == self@.fsm,
    {
        self.fsm
    }

    pub fn is_established(&self) -> (yes: bool)
        ensures
            yes == (self@.fsm == KcpConnectionFSM::Established),
    {
        matches!(self.fsm, KcpConnectionFSM::Established)
    }

    pub fn is_peer_closed(&self) -> (yes: bool)
        ensures
            yes == (self@.fsm == KcpConnectionFSM::PeerClosed || self@.fsm
                == KcpConnectionFSM::Closed),
    {
        matches!(self.fsm, KcpConnectionFSM::PeerClosed | KcpConnectionFSM::Closed)
    }

    pub fn is_closed(&self) -> (yes: bool)
        ensures
            yes == (self@.fsm == KcpConnectionFSM::Closed),
    {
        matches!(self.fsm, KcpConnectionFSM::Closed)
    }

    pub fn set_data(&mut self, data: Bytes)
        ensures
            final(self)@ == (ConnState { conn_data: bytes_contents(data), ..old(self)@ }),
    {
        self.conn_data = data;
    }

    /// The bytes that came with the SYN.
    pub fn data(&self) -> (data: Bytes)
        ensures
            bytes_contents(data) == self@.conn_data,
    {
        bytes_clone(&self.conn_data)
    }

    pub fn last_pong(&self) -> (time: u64)
        ensures
            time == self@.last_pong,
    {
        self.last_pong
    }

    /// A packet arrived at `now`.
    pub fn notify_pong(&mut self, now: u64)
        ensures
            final(self)@ == (ConnState { last_pong: now, ..old(self)@ }),
    {
        self.last_pong = now;
    }

    pub fn is_pong_timeout(&self, now: u64) -> (yes: bool)
        ensures
            yes == self@.timed_out(now),
    {
        now.saturating_sub(self.last_pong) > PONG_TIMEOUT
    }

    /// Whether the connection is neither closed nor silent for too long.
    pub fn is_live(&self, now: u64) -> (yes: bool)
        ensures
            yes == self@.live(now),
    {
        !self.is_closed() && !self.is_pong_timeout(now)
    }

    /// Closes this side. The packet is the FIN to send, not addressed yet.
    pub fn close(&mut self) -> (result: Result<KcpPacket, Error>)
        ensures
            match fsm_close(old(self)@.fsm) {
                Some(next) => {
                    &&& final(self)@ == (ConnState { fsm: next, ..old(self)@ })
                    &&& result matches Ok(packet) && is_bare_packet(
                        packet,
                        FIN,
                    )
                },
                None => {
                    &&& final(self)@ == old(self)@
                    &&& result matches Err(error) && error == Error::InvalidState
                },
            },
    {
        let mut out_packet = KcpPacket::new(0);
        proof {
            flag_reads();
            assert(out_packet.spec_payload() =~= Seq::<u8>::empty());
        }
        match self.fsm.close(&mut out_packet) {
            Ok(()) => Ok(out_packet),
            Err(error) => Err(error),
        }
    }

    /// What a tick of the liveness timer sends on this connection: the SYN-ACK again while
    /// the handshake hangs and the budget lasts, or a ping when it is the turn of this
    /// connection. A connection whose SYN is on its way is left alone: a ping to a server
    /// that never saw the SYN would be answered by an RST.
    pub fn tick(&mut self, id: &ConnId, slot: u32) -> (packet: Option<KcpPacket>)
        ensures
            final(self)@ == old(self)@.after_tick(),
            match old(self)@.tick_flag(id.conv, slot) {
                Some(flag) => packet matches Some(p) && p.spec_header() == id.addressed(
                    bare_header(flag),
                ) && p.spec_payload() == Seq::<u8>::empty(),
                None => packet is None,
            },
    {
        proof {
            flag_reads();
        }
        match self.fsm {
            KcpConnectionFSM::SynReceived => {
                if self.syn_ack_retries < MAX_SYN_ACK_RETRIES {
                    self.syn_ack_retries = self.syn_ack_retries + 1;
                    let mut out_packet = KcpPacket::new(0);
                    out_packet.mut_header().set_syn(true);
                    out_packet.mut_header().set_ack(true);
                    id.fill_packet_header(&mut out_packet);
                    assert(out_packet.spec_payload() =~= Seq::<u8>::empty());
                    Some(out_packet)
                } else {
                    None
                }
            },
            KcpConnectionFSM::Established
            | KcpConnectionFSM::LocalClosed
            | KcpConnectionFSM::PeerClosed => {
                if id.conv % PING_SLOTS == slot {
                    let mut out_packet = KcpPacket::new(0);
                    out_packet.mut_header().set_ping(true);
                    id.fill_packet_header(&mut out_packet);
                    assert(out_packet.spec_payload() =~= Seq::<u8>::empty());
                    Some(out_packet)
                } else {
                    None
                }
            },
            _ => None,
        }
    }
}

/// The slot that follows `slot`.
pub fn next_slot(slot: u32) -> (next: u32)
    requires
        slot < PING_SLOTS,
    ensures
        next == (slot + 1) % PING_SLOTS as int,
        next < PING_SLOTS,
        next == slot_after(slot, 1),
{
    proof {
        reveal_with_fuel(slot_after, 2);
    }
    (slot + 1) % PING_SLOTS
}

/// The slot after `n` ticks from `slot`.
pub open spec fn slot_after(slot: u32, n: nat) -> u32
    decreases n,
{
    if n == 0 {
        slot
    } else {
        ((slot_after(slot, (n - 1) as nat) + 1) % PING_SLOTS as int) as u32
    }
}

/// Timer-driven SYN-ACKs are capped: however many ticks pass, a half-open connection sends
/// no more of them than its budget holds, and it does spend the budget.
pub proof fn syn_acks_are_capped(state: ConnState, n: nat)
    requires
        state.fsm == KcpConnectionFSM::SynReceived,
        state.syn_ack_retries <= MAX_SYN_ACK_RETRIES,
    ensures
        state.syn_acks_sent(n) == (if n <= MAX_SYN_ACK_RETRIES - state.syn_ack_retries {
            n as int
        } else {
            MAX_SYN_ACK_RETRIES - state.syn_ack_retries
        }),
        state.after_ticks(n) == (ConnState {
            syn_ack_retries: (state.syn_ack_retries + state.syn_acks_sent(n)) as u32,
            ..state
        }),
    decreases n,
{
    if n > 0 {
        syn_acks_are_capped(state, (n - 1) as nat);
    }
}

/// What can happen to a connection.
pub enum ConnEvent {
    /// A packet with these flags arrived at `now`.
    Packet { flag: u8, now: u64 },
    /// The liveness timer ticked.
    Tick,
    /// This side closed.
    Close,
}

impl ConnState {
    /// The connection after `event`.
    pub open spec fn after_event(self, event: ConnEvent) -> Self {
        match event {
            ConnEvent::Packet { flag, now } => self.after_step(fsm_step(self.fsm, flag), now),
            ConnEvent::Tick => self.after_tick(),
            ConnEvent::Close => match fsm_close(self.fsm) {
                Some(next) => ConnState { fsm: next, ..self },
                None => self,
            },
        }
    }

    /// The connection after all of `events`.
    pub open spec fn after_events(self, events: Seq<ConnEvent>) -> Self
        decreases events.len(),
    {
        if events.len() == 0 {
            self
        } else {
            self.after_events(events.drop_last()).after_event(events.last())
        }
    }

    /// How many SYN-ACKs the timer sends in the course of `events`.
    pub open spec fn timed_syn_acks(self, events: Seq<ConnEvent>) -> nat
        decreases events.len(),
    {
        if events.len() == 0 {
            0
        } else {
            self.timed_syn_acks(events.drop_last()) + (if events.last() is Tick
                && self.after_events(events.drop_last()).retries_syn_ack() {
                1nat
            } else {
                0nat
            })
        }
    }
}

/// Whatever happens to a connection, in whatever order, the timer never sends more SYN-ACKs
/// on it than the cap allows, and what it has sent is on record.
pub proof fn budget_is_never_exceeded(state: ConnState, events: Seq<ConnEvent>)
    requires
        state.syn_ack_retries <= MAX_SYN_ACK_RETRIES,
    ensures
        state.after_events(events).syn_ack_retries == state.syn_ack_retries
            + state.timed_syn_acks(events),
        state.after_events(events).syn_ack_retries <= MAX_SYN_ACK_RETRIES,
    decreases events.len(),
{
    if events.len() > 0 {
        budget_is_never_exceeded(state, events.drop_last());
    }
}

/// Whatever happens to a connection, it never goes back in its life, and it keeps the data
/// that it was opened with.
pub proof fn history_only_moves_forward(state: ConnState, events: Seq<ConnEvent>)
    ensures
        state.after_events(events).fsm == state.fsm || progress(state.after_events(events).fsm)
            > progress(state.fsm),
        state.after_events(events).conn_data == state.conn_data,
    decreases events.len(),
{
    if events.len() > 0 {
        history_only_moves_forward(state, events.drop_last());
    }
}

/// No packet gives budget back, so an attacker cannot buy more timed answers by sending
/// more SYNs, and the data of the connection stays what came with the first one.
pub proof fn packets_do_not_refill_the_budget(state: ConnState, flag: u8, now: u64)
    ensures
        state.after_step(fsm_step(state.fsm, flag), now).syn_ack_retries
            == state.syn_ack_retries,
        state.after_step(fsm_step(state.fsm, flag), now).conn_data == state.conn_data,
{
}

/// Only half-open connections are sent SYN-ACKs by timer and only open ones are pinged;
/// one whose own SYN is not answered yet, or that is closed, is sent nothing.
pub proof fn ticks_leave_other_states_alone(state: ConnState, conv: u32, slot: u32)
    ensures
        state.tick_flag(conv, slot) == Some(SYN_ACK) ==> state.fsm
            == KcpConnectionFSM::SynReceived,
        state.tick_flag(conv, slot) == Some(PING) ==> (state.fsm == KcpConnectionFSM::Established
            || state.fsm == KcpConnectionFSM::LocalClosed || state.fsm
            == KcpConnectionFSM::PeerClosed),
        state.fsm == KcpConnectionFSM::SynSent ==> state.tick_flag(conv, slot) is None,
        state.fsm == KcpConnectionFSM::Closed ==> state.tick_flag(conv, slot) is None,
        state.fsm == KcpConnectionFSM::Listen ==> state.tick_flag(conv, slot) is None,
{
}

proof fn slot_after_is_modular(slot: u32, n: nat)
    requires
        slot < PING_SLOTS,
    ensures
        slot_after(slot, n) == (slot + n) % PING_SLOTS as int,
    decreases n,
{
    if n > 0 {
        slot_after_is_modular(slot, (n - 1) as nat);
    }
}

/// In any [`PING_SLOTS`] ticks in a row, an open connection has its turn exactly once.
pub proof fn every_open_connection_is_pinged_once_a_round(state: ConnState, conv: u32, slot: u32)
    requires
        slot < PING_SLOTS,
        state.fsm == KcpConnectionFSM::Established || state.fsm == KcpConnectionFSM::LocalClosed
            || state.fsm == KcpConnectionFSM::PeerClosed,
    ensures
        exists|n: nat|
            n < PING_SLOTS && #[trigger] state.tick_flag(conv, slot_after(slot, n)) == Some(PING),
        forall|m: nat, n: nat|
            m < PING_SLOTS && n < PING_SLOTS && #[trigger] state.tick_flag(
                conv,
                slot_after(slot, m),
            ) is Some && #[trigger] state.tick_flag(conv, slot_after(slot, n)) is Some ==> m == n,
{
    let turn = (conv % PING_SLOTS) as int;
    let n = if turn >= slot {
        (turn - slot) as nat
    } else {
        (turn + PING_SLOTS - slot) as nat
    };
    slot_after_is_modular(slot, n);
    assert(state.tick_flag(conv, slot_after(slot, n)) == Some(PING));
    assert forall|m: nat, n: nat|
        m < PING_SLOTS && n < PING_SLOTS && #[trigger] state.tick_flag(
            conv,
            slot_after(slot, m),
        ) is Some && #[trigger] state.tick_flag(conv, slot_after(slot, n)) is Some implies m
        == n by {
        slot_after_is_modular(slot, m);
        slot_after_is_modular(slot, n);
    }
}

/// A stray packet does no harm: one that does not fit leaves the state as it is, and the
/// RST that the state machine has for it is not sent.
pub proof fn stray_packet_is_not_answered(state: KcpConnectionFSM, flag: u8)
    requires
        !fsm_step(state, flag).ok,
    ensures
        fsm_step(state, flag).next == state,
        fsm_step(state, flag).reply == Some(RST),
        forwarded(state, fsm_step(state, flag)) is None,
{
}

/// A connection that heard from its peer within the timeout is not given up, unless it is
/// closed.
pub proof fn traffic_keeps_a_connection(state: ConnState, flag: u8, arrived: u64, now: u64)
    requires
        arrived <= now,
        now - arrived <= PONG_TIMEOUT,
        fsm_step(state.fsm, flag).next != KcpConnectionFSM::Closed,
    ensures
        state.after_step(fsm_step(state.fsm, flag), arrived).live(now),
{
}

/// A connection is kept for exactly one minute after the last packet from its peer, and no
/// longer than until it is closed.
pub proof fn silence_is_borne_for_a_minute(state: ConnState, now: u64)
    ensures
        state.timed_out(now) <==> now > state.last_pong + 60_000_000_000,
        state.live(now) <==> state.fsm != KcpConnectionFSM::Closed && now <= state.last_pong
            + 60_000_000_000,
{
}

/// A connection starts with what it is made of: in the given state, with the given data, heard
/// of just now and with its budget unspent.
pub proof fn connections_start_fresh(fsm: KcpConnectionFSM, conn_data: Seq<u8>, now: u64)
    ensures
        ConnState::fresh(fsm, conn_data, now).fsm == fsm,
        ConnState::fresh(fsm, conn_data, now).conn_data == conn_data,
        ConnState::fresh(fsm, conn_data, now).last_pong == now,
        ConnState::fresh(fsm, conn_data, now).syn_ack_retries == 0,
{
}

/// Every packet counts as a sign of life, in every state, and moves the connection as the
/// state machine says.
pub proof fn packets_are_signs_of_life(state: ConnState, flag: u8, now: u64)
    ensures
        state.after_step(fsm_step(state.fsm, flag), now).last_pong == now,
        state.after_step(fsm_step(state.fsm, flag), now).fsm == fsm_step(state.fsm, flag).next,
{
}

/// The answer of the state machine goes out as it is, unless the packet did not fit and
/// changed nothing.
pub proof fn answers_go_out(before: KcpConnectionFSM, step: FsmStep)
    ensures
        step.ok ==> forwarded(before, step) == step.reply,
        step.next != before ==> forwarded(before, step) == step.reply,
        !step.ok && step.next == before ==> forwarded(before, step) is None,
{
}

/// What a tick sends: a SYN-ACK on every half-open connection that has sent fewer than ten by
/// timer, a ping on every open one whose number ends in the digit of the slot, and nothing
/// else.
pub proof fn ticks_serve_who_is_due(state: ConnState, conv: u32, slot: u32)
    ensures
        state.tick_flag(conv, slot) == Some(3u8) <==> state.fsm == KcpConnectionFSM::SynReceived
            && state.syn_ack_retries < 10,
        state.tick_flag(conv, slot) == Some(32u8) <==> conv % 10 == slot && (state.fsm
            == KcpConnectionFSM::Established || state.fsm == KcpConnectionFSM::LocalClosed
            || state.fsm == KcpConnectionFSM::PeerClosed),
        state.tick_flag(conv, slot) matches Some(flag) ==> flag == 3 || flag == 32,
{
}

/// A tick costs budget exactly where it sends a SYN-ACK, one each, and changes nothing else.
pub proof fn ticks_only_spend_budget(state: ConnState, conv: u32, slot: u32)
    ensures
        state.after_tick().fsm == state.fsm,
        state.after_tick().conn_data == state.conn_data,
        state.after_tick().last_pong == state.last_pong,
        state.after_tick().syn_ack_retries == state.syn_ack_retries + (if state.tick_flag(
            conv,
            slot,
        ) == Some(3u8) {
            1int
        } else {
            0int
        }),
{
}

/// Slots follow each other and start again after the tenth.
pub proof fn slots_go_round(slot: u32, n: nat)
    requires
        slot < 10,
    ensures
        slot_after(slot, n) == (slot + n) % 10,
        slot_after(slot, 10) == slot,
{
    slot_after_is_modular(slot, n);
    slot_after_is_modular(slot, 10);
}

/// Whether `event` is a tick, or a packet that ends nothing: one without FIN and RST.
pub open spec fn is_harmless(event: ConnEvent) -> bool {
    match event {
        ConnEvent::Tick => true,
        ConnEvent::Packet { flag, .. } => !has_bit(flag, FIN) && !has_bit(flag, RST),
        ConnEvent::Close => false,
    }
}

/// However much traffic there is, in whatever order, a connection that is open in at least one
/// direction stays just as open until one of the sides closes or resets it.
pub proof fn open_connections_stay_open(state: ConnState, events: Seq<ConnEvent>)
    requires
        state.fsm == KcpConnectionFSM::Established || state.fsm == KcpConnectionFSM::LocalClosed
            || state.fsm == KcpConnectionFSM::PeerClosed,
        forall|i: int| 0 <= i < events.len() ==> is_harmless(#[trigger] events[i]),
    ensures
        state.after_events(events).fsm == state.fsm,
    decreases events.len(),
{
    if events.len() > 0 {
        let earlier = events.drop_last();
        assert forall|i: int| 0 <= i < earlier.len() implies is_harmless(
            #[trigger] earlier[i],
        ) by {
            assert(earlier[i] == events[i]);
        }
        open_connections_stay_open(state, earlier);
        assert(is_harmless(events[events.len() - 1]));
    }
}

/// What each event does to a connection: a packet is handled and noted, a tick only spends
/// budget, and a close moves an open side only.
pub proof fn events_do_what_they_are(state: ConnState, event: ConnEvent)
    ensures
        event matches ConnEvent::Packet { flag, now } ==> {
            &&& state.after_event(event).last_pong == now
            &&& state.after_event(event).fsm == fsm_step(state.fsm, flag).next
        },
        event is Tick ==> state.after_event(event).fsm == state.fsm,
        event is Close ==> state.after_event(event).fsm == (match state.fsm {
            KcpConnectionFSM::Established => KcpConnectionFSM::LocalClosed,
            KcpConnectionFSM::PeerClosed => KcpConnectionFSM::Closed,
            fsm => fsm,
        }),
        !(event is Packet) ==> state.after_event(event).last_pong == state.last_pong,
        state.after_event(event).conn_data == state.conn_data,
{
}

} // verus!
