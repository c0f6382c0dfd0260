//! The bookkeeping of an endpoint: which connections there are, what becomes of them when
//! packets arrive, time passes or a side closes, and which packets are sent on the way.
//!
//! Nothing here does any input or output. The functions say what is to be done, and the
//! tasks that own the channels and the engines do it.

use crate::buffer::{bytes_as_slice, bytes_contents, bytes_from_vec};
use crate::conn_id::ConnId;
use crate::conn_state::{
    budget_is_never_exceeded, forwarded, ConnEvent, ConnState, KcpConnectionState,
    MAX_SYN_ACK_RETRIES,
};
use crate::error::Error;
use crate::log_throttle::elapsed;
use crate::packet_def::{
    flag_reads, has_bit, setting_a_flag_sets_only_that_flag, with_bit,
    KcpPacket, KcpPacketHeader, ACK, DATA, FIN, HEADER_LEN, PING, PONG, RST, SYN,
};
use crate::state::{bare_header, fsm_close, fsm_step, KcpConnectionFSM, ACK_DATA, SYN_ACK};
use crate::state_map::{
    state_entries, state_map_contains_key, state_map_get, state_map_insert, state_map_keys,
    state_map_new, state_map_remove, state_map_retain_live, state_map_shrink_to_fit,
};
use bytes::Bytes;
use dashmap::DashMap;
use vstd::prelude::*;

verus! {

/// The states of all connections of an endpoint, by address.
pub type States = Map<(u32, u32, u32), ConnState>;

/// The state under `key`, if there is one.
pub open spec fn lookup(states: States, key: (u32, u32, u32)) -> Option<ConnState> {
    if states.contains_key(key) {
        Some(states[key])
    } else {
        None
    }
}

/// `states` with `state` under `key`, or as they are where there is none.
pub open spec fn store(
    states: States,
    key: (u32, u32, u32),
    state: Option<ConnState>,
) -> States {
    match state {
        Some(state) => states.insert(key, state),
        None => states,
    }
}

/// A packet, by what it holds.
#[verifier::ext_equal]
pub struct PacketView {
    pub header: KcpPacketHeader,
    pub payload: Seq<u8>,
}

/// What `packet` holds.
pub open spec fn packet_view(packet: KcpPacket) -> PacketView {
    PacketView { header: packet.spec_header(), payload: packet.spec_payload() }
}

/// What `packet` holds, if there is one.
pub open spec fn reply_view(packet: Option<KcpPacket>) -> Option<PacketView> {
    match packet {
        Some(packet) => Some(packet_view(packet)),
        None => None,
    }
}

/// The packet with the address of `id`, the given flags and no payload.
pub open spec fn control_packet(id: ConnId, flag: u8) -> PacketView {
    PacketView { header: id.addressed(bare_header(flag)), payload: Seq::empty() }
}

/// What the arrival of a packet leads to.
pub struct InputEffect {
    /// The state of the connection afterwards.
    pub state: Option<ConnState>,
    /// The packet to send back.
    pub reply: Option<PacketView>,
    /// Whether the payload goes to the engine of the connection.
    pub deliver: bool,
    /// Whether whoever waits for the state to change is woken up.
    pub notify: bool,
    /// Whether the connection just became open.
    pub established: bool,
    /// Whether nothing more is to be received on the connection.
    pub close_recv: bool,
    /// Whether the engine of the connection is to be dropped.
    pub remove_conn: bool,
}

/// The answer to a packet, if it is a ping that was not answered yet: a pong while the
/// connection is known and not closed, else an RST. A connection that this side has closed
/// still gets its pong, for the peer may still be sending on it.
pub open spec fn ping_answer(state: Option<ConnState>, packet: PacketView) -> Option<PacketView> {
    if packet.header.has(PING) && !packet.header.has(PONG) {
        if state matches Some(s) && s.fsm != KcpConnectionFSM::Closed {
            Some(PacketView { header: packet.header.with(PONG, true), ..packet })
        } else {
            Some(
                PacketView { header: packet.header.with(PING, false).with(RST, true), ..packet },
            )
        }
    } else {
        None
    }
}

/// The state after any packet arrived at `now`.
pub open spec fn heard_from(state: Option<ConnState>, now: u64) -> Option<ConnState> {
    match state {
        Some(s) => Some(ConnState { last_pong: now, ..s }),
        None => None,
    }
}

/// The packet that answers with the given flags, addressed to the connection.
pub open spec fn addressed_reply(id: ConnId, flag: Option<u8>) -> Option<PacketView> {
    match flag {
        Some(flag) => Some(control_packet(id, flag)),
        None => None,
    }
}

/// What the arrival of `packet` at `now` leads to on a connection in `state`, or on one
/// that is not known.
pub open spec fn input_effect(
    state: Option<ConnState>,
    packet: PacketView,
    now: u64,
) -> InputEffect {
    let id = ConnId::of_header(packet.header);
    let deliver = packet.header.has(DATA) && packet.payload.len() > 0;
    if packet.header.has(PING) {
        // Pings and pongs show that the peer is there, and that is all.
        InputEffect {
            state: heard_from(state, now),
            reply: ping_answer(state, packet),
            deliver: false,
            notify: false,
            established: false,
            close_recv: false,
            remove_conn: false,
        }
    } else {
        match state {
            Some(s) => {
                let step = fsm_step(s.fsm, packet.header.flag);
                InputEffect {
                    state: Some(s.after_step(step, now)),
                    reply: addressed_reply(id, forwarded(s.fsm, step)),
                    deliver,
                    notify: step.next != s.fsm,
                    established: s.fsm != KcpConnectionFSM::Established && step.next
                        == KcpConnectionFSM::Established,
                    close_recv: step.next == KcpConnectionFSM::PeerClosed || step.next
                        == KcpConnectionFSM::Closed,
                    remove_conn: step.next == KcpConnectionFSM::Closed,
                }
            },
            None => {
                // The first packet of a connection. An RST is not for anybody here.
                let step = fsm_step(KcpConnectionFSM::Listen, packet.header.flag);
                let ignored = packet.header.has(RST);
                InputEffect {
                    state: if !ignored && step.ok {
                        Some(ConnState::fresh(step.next, packet.payload, now))
                    } else {
                        None
                    },
                    reply: if ignored {
                        None
                    } else {
                        addressed_reply(id, step.reply)
                    },
                    deliver,
                    notify: false,
                    established: false,
                    close_recv: false,
                    remove_conn: false,
                }
            },
        }
    }
}

/// The connections of `states` that are live at `now`.
pub open spec fn live_states(states: States, now: u64) -> States {
    Map::new(
        |key: (u32, u32, u32)| states.contains_key(key) && states[key].live(now),
        |key: (u32, u32, u32)| states[key],
    )
}

/// Whether there is a connection under `key` that is not closed and whose peer was silent
/// for too long.
pub open spec fn is_silent(states: States, key: (u32, u32, u32), now: u64) -> bool {
    &&& states.contains_key(key)
    &&& states[key].timed_out(now)
    &&& states[key].fsm != KcpConnectionFSM::Closed
}

/// Whether `id` is given up at `now` because its peer was silent for `since`.
pub open spec fn is_reaped(states: States, id: ConnId, since: u64, now: u64) -> bool {
    is_silent(states, id.spec_key(), now) && since == elapsed(
        states[id.spec_key()].last_pong,
        now,
    )
}

/// All connections after `packet` arrived at `now`.
pub open spec fn states_after_input(states: States, packet: PacketView, now: u64) -> States {
    let key = ConnId::of_header(packet.header).spec_key();
    store(states, key, input_effect(lookup(states, key), packet, now).state)
}

/// The data of a connection, if it is known.
pub open spec fn data_of(states: States, id: ConnId) -> Option<Seq<u8>> {
    match lookup(states, id.spec_key()) {
        Some(s) => Some(s.conn_data),
        None => None,
    }
}

/// The conversation number that is tried first once `id` was taken.
pub open spec fn next_start(id: ConnId) -> u32 {
    conv_after(id.conv, 1)
}

/// All connections after a tick.
pub open spec fn ticked_states(states: States) -> States {
    Map::new(
        |key: (u32, u32, u32)| states.contains_key(key),
        |key: (u32, u32, u32)| states[key].after_tick(),
    )
}

/// Whether `packets` are what a tick sends when it comes past the connections that have
/// something to send in the given order: one packet for each of them, and no other.
pub open spec fn ticks_sent(
    states: States,
    slot: u32,
    order: Seq<(u32, u32, u32)>,
    packets: Seq<KcpPacket>,
) -> bool {
    &&& order.no_duplicates()
    &&& forall|key: (u32, u32, u32)| #[trigger]
        order.contains(key) <==> states.contains_key(key) && states[key].tick_flag(
            key.0,
            slot,
        ) is Some
    &&& packets.len() == order.len()
    &&& forall|j: int|
        0 <= j < order.len() ==> packet_view(#[trigger] packets[j]) == control_packet(
            ConnId::spec_of_key(order[j]),
            states[order[j]].tick_flag(order[j].0, slot)->Some_0,
        )
}

/// The conversation number `n` after `conv`, wrapping around.
pub open spec fn conv_after(conv: u32, n: int) -> u32 {
    ((conv + n) % 0x1_0000_0000) as u32
}

/// Whether `id` is a connection between the two sessions that is not taken, and the first
/// such from `start` on, wrapping around.
pub open spec fn is_next_free(
    states: States,
    start: u32,
    src_session_id: u32,
    dst_session_id: u32,
    id: ConnId,
) -> bool {
    &&& id.src_session_id == src_session_id
    &&& id.dst_session_id == dst_session_id
    &&& !states.contains_key(id.spec_key())
    &&& forall|n: int|
        0 <= n < (id.conv - start) % 0x1_0000_0000 ==> states.contains_key(
            (#[trigger] conv_after(start, n), src_session_id, dst_session_id),
        )
}

/// Whether all conversation numbers between the two sessions are taken.
pub open spec fn no_conv_free(states: States, src_session_id: u32, dst_session_id: u32) -> bool {
    forall|conv: u32| #[trigger] states.contains_key((conv, src_session_id, dst_session_id))
}

/// The packet that starts to open `id`.
pub open spec fn syn_packet(id: ConnId, data: Seq<u8>) -> PacketView {
    PacketView { header: id.addressed(bare_header(SYN)), payload: data }
}

/// All connections after `id` was started to be opened with `data`.
pub open spec fn states_after_begin(states: States, id: ConnId, data: Seq<u8>, now: u64) -> States {
    states.insert(id.spec_key(), ConnState::fresh(KcpConnectionFSM::SynSent, data, now))
}

/// The packet that carries output of the engine of `id`.
pub open spec fn data_packet(id: ConnId, data: Seq<u8>) -> PacketView {
    PacketView { header: id.addressed(bare_header(ACK_DATA)), payload: data }
}

/// Whether the connection is known and open in both directions.
pub open spec fn is_open(states: States, id: ConnId) -> bool {
    lookup(states, id.spec_key()) matches Some(s) && s.fsm == KcpConnectionFSM::Established
}

/// How the wait for a handshake ends.
pub open spec fn connect_result(states: States, id: ConnId, notified: bool) -> Result<
    ConnId,
    Error,
> {
    if notified && is_open(states, id) {
        Ok(id)
    } else if notified {
        Err(Error::ConnectFailed)
    } else {
        Err(Error::ConnectTimeout)
    }
}

/// All connections after the wait for a handshake.
pub open spec fn states_after_connect(states: States, id: ConnId, notified: bool) -> States {
    if notified && is_open(states, id) {
        states
    } else {
        states.remove(id.spec_key())
    }
}

/// What is decided about a connection that was announced, or about there being no more.
pub open spec fn accept_action(states: States, announced: Option<ConnId>) -> AcceptAction {
    match announced {
        None => AcceptAction::Fail { error: Error::Shutdown },
        Some(id) => if is_open(states, id) {
            AcceptAction::Accept { id }
        } else {
            AcceptAction::Ignore
        },
    }
}

/// What closing this side of a connection leads to.
pub struct CloseEffect {
    /// All connections afterwards.
    pub states: States,
    /// The packet to send, if there is something to close.
    pub packet: Option<PacketView>,
    /// Whether the engine of the connection is to be dropped.
    pub remove_conn: bool,
}

/// What closing this side of `id` leads to, where it is known.
pub open spec fn close_effect(states: States, id: ConnId) -> Option<CloseEffect> {
    match lookup(states, id.spec_key()) {
        None => None,
        Some(s) => match fsm_close(s.fsm) {
            Some(next) => Some(
                CloseEffect {
                    states: states.insert(id.spec_key(), ConnState { fsm: next, ..s }),
                    packet: Some(control_packet(id, FIN)),
                    remove_conn: next == KcpConnectionFSM::Closed,
                },
            ),
            None => Some(
                CloseEffect {
                    states,
                    packet: None,
                    remove_conn: s.fsm == KcpConnectionFSM::Closed,
                },
            ),
        },
    }
}

/// What is to be done about a packet that arrived.
#[derive(Debug)]
pub struct InputOutcome {
    /// The packet to send back.
    pub reply: Option<KcpPacket>,
    /// Whether to hand the payload to the engine of the connection.
    pub deliver: bool,
    /// Whether to wake up whoever waits for the state to change.
    pub notify: bool,
    /// Whether to announce the connection as a new one.
    pub established: bool,
    /// Whether to stop receiving on the connection.
    pub close_recv: bool,
    /// Whether to drop the engine of the connection.
    pub remove_conn: bool,
}

impl InputOutcome {
    /// Whether this is what `effect` asks for.
    pub open spec fn is(self, effect: InputEffect) -> bool {
        &&& reply_view(self.reply) == effect.reply
        &&& self.deliver == effect.deliver
        &&& self.notify == effect.notify
        &&& self.established == effect.established
        &&& self.close_recv == effect.close_recv
        &&& self.remove_conn == effect.remove_conn
    }
}

/// Whether a connection turned up by the receiver of new connections can be taken.
#[derive(Clone, Copy, Debug, PartialEq, Eq, Structural)]
pub enum AcceptAction {
    /// Take it.
    Accept { id: ConnId },
    /// It is gone or closed already: wait for the next one.
    Ignore,
    /// There will be no more connections.
    Fail { error: Error },
}

/// What closing a connection leads to.
#[derive(Debug)]
pub struct CloseOutcome {
    /// The FIN to send, or why there is none.
    pub packet: Result<KcpPacket, Error>,
    /// Whether to drop the engine of the connection.
    pub remove_conn: bool,
}

/// `rand::random`: any number.
#[verifier::external_body]
fn random_conv() -> (conv: u32) {
    rand::random()
}

/// All connections of an endpoint.
#[derive(Debug)]
pub struct KcpEndpointData {
    cur_conv: u32,
    state_map: DashMap<(u32, u32, u32), KcpConnectionState>,
}

impl KcpEndpointData {
    /// The states of all connections.
    pub closed spec fn spec_states(&self) -> States {
        state_entries(self.state_map)
    }

    /// The conversation number that the next connection tries first.
    pub closed spec fn spec_cur_conv(&self) -> u32 {
        self.cur_conv
    }

    /// No connections; conversation numbers start anywhere.
    pub fn new() -> (data: Self)
        ensures
            data.spec_states() == States::empty(),
    {
        KcpEndpointData::starting_at(random_conv())
    }

    /// No connections; conversation numbers start at `conv`.
    pub fn starting_at(conv: u32) -> (data: Self)
        ensures
            data.spec_states() == States::empty(),
            data.spec_cur_conv() == conv,
    {
        let data = KcpEndpointData { cur_conv: conv, state_map: state_map_new() };
        assert(data.spec_states() =~= States::empty());
        data
    }

    /// Answers a ping and notes that the peer of the connection is there. Says whether the
    /// packet is a ping or a pong, which concerns nothing else.
    pub fn try_handle_pingpong(&mut self, packet: &KcpPacket, now: u64) -> (result: (
        bool,
        Option<KcpPacket>,
    ))
        ensures
            ({
                let key = ConnId::of_header(packet.spec_header()).spec_key();
                let before = lookup(old(self).spec_states(), key);
                &&& result.0 == packet.spec_header().has(PING)
                &&& reply_view(result.1) == ping_answer(before, packet_view(*packet))
                &&& final(self).spec_states() == store(
                    old(self).spec_states(),
                    key,
                    heard_from(before, now),
                )
                &&& final(self).spec_cur_conv() == old(self).spec_cur_conv()
            }),
    {
        let id = ConnId::from(packet);
        let found = state_map_get(&self.state_map, id.key());
        let header = packet.header();
        let mut answer: Option<KcpPacket> = None;
        if header.is_ping() && !header.is_pong() {
            let need_send_pong = match &found {
                Some(state) => !state.is_closed(),
                None => false,
            };
            let mut out_packet = packet.clone();
            if need_send_pong {
                out_packet.mut_header().set_pong(true);
            } else {
                out_packet.mut_header().set_ping(false);
                out_packet.mut_header().set_rst(true);
            }
            answer = Some(out_packet);
        }
        if let Some(state) = found {
            let mut state = state;
            state.notify_pong(now);
            state_map_insert(&mut self.state_map, id.key(), state);
        }
        (packet.header().is_ping(), answer)
    }

    /// Takes in a packet that arrived at `now`.
    pub fn handle_input(&mut self, packet: &KcpPacket, now: u64) -> (outcome: InputOutcome)
        ensures
            ({
                let key = ConnId::of_header(packet.spec_header()).spec_key();
                let before = lookup(old(self).spec_states(), key);
                let effect = input_effect(before, packet_view(*packet), now);
                &&& outcome.is(effect)
                &&& final(self).spec_states() == states_after_input(
                    old(self).spec_states(),
                    packet_view(*packet),
                    now,
                )
                &&& final(self).spec_states() == store(
                    old(self).spec_states(),
                    key,
                    effect.state,
                )
                &&& final(self).spec_cur_conv() == old(self).spec_cur_conv()
            }),
    {
        let ghost states = self.spec_states();
        let (consumed, answer) = self.try_handle_pingpong(packet, now);
        if consumed {
            return InputOutcome {
                reply: answer,
                deliver: false,
                notify: false,
                established: false,
                close_recv: false,
                remove_conn: false,
            };
        }
        let id = ConnId::from(packet);
        let deliver = packet.header().is_data() && packet.payload().len() > 0;
        match state_map_get(&self.state_map, id.key()) {
            Some(found) => {
                let mut state = found;
                let prev_established = state.is_established();
                let outcome = state.handle_packet(packet, now);
                let established = !prev_established && state.is_established();
                let close_recv = state.is_peer_closed();
                let remove_conn = state.is_closed();
                state_map_insert(&mut self.state_map, id.key(), state);
                assert(self.spec_states() =~= store(
                    states,
                    id.spec_key(),
                    input_effect(
                        lookup(states, id.spec_key()),
                        packet_view(*packet),
                        now,
                    ).state,
                ));
                InputOutcome {
                    reply: KcpEndpointData::address(&id, outcome.reply),
                    deliver,
                    notify: outcome.changed,
                    established,
                    close_recv,
                    remove_conn,
                }
            },
            None => {
                let mut out_packet: Option<KcpPacket> = None;
                if !packet.header().is_rst() {
                    let mut fsm = KcpConnectionFSM::listen();
                    let result = fsm.handle_packet(packet, &mut out_packet);
                    if result.is_ok() {
                        let mut state = KcpConnectionState::new(fsm, now);
                        state.set_data(
                            bytes_from_vec(vstd::slice::slice_to_vec(packet.payload())),
                        );
                        state_map_insert(&mut self.state_map, id.key(), state);
                    }
                }
                InputOutcome {
                    reply: KcpEndpointData::address(&id, out_packet),
                    deliver,
                    notify: false,
                    established: false,
                    close_recv: false,
                    remove_conn: false,
                }
            },
        }
    }

    /// Drops the connections that are closed or whose peer was silent for too long. Returns
    /// those that were dropped for silence alone, with how long it lasted.
    pub fn reap(&mut self, now: u64) -> (reaped: Vec<(ConnId, u64)>)
        ensures
            final(self).spec_states() == live_states(old(self).spec_states(), now),
            final(self).spec_cur_conv() == old(self).spec_cur_conv(),
            forall|i: int, j: int|
                0 <= i < j < reaped@.len() ==> (#[trigger] reaped@[i]).0 != (
                #[trigger] reaped@[j]).0,
            forall|id: ConnId, since: u64| #[trigger]
                reaped@.contains((id, since)) <==> is_silent(
                    old(self).spec_states(),
                    id.spec_key(),
                    now,
                ) && since == elapsed(old(self).spec_states()[id.spec_key()].last_pong, now),
            forall|id: ConnId, since: u64| #[trigger]
                reaped@.contains((id, since)) <==> is_reaped(
                    old(self).spec_states(),
                    id,
                    since,
                    now,
                ),
    {
        let ghost states = self.spec_states();
        let keys = state_map_keys(&self.state_map);
        let mut reaped: Vec<(ConnId, u64)> = Vec::new();
        let mut i: usize = 0;
        while i < keys.len()
            invariant
                i <= keys.len(),
                keys@.no_duplicates(),
                states == self.spec_states(),
                self.spec_cur_conv() == old(self).spec_cur_conv(),
                forall|key: (u32, u32, u32)|
                    keys@.contains(key) <==> #[trigger] states.contains_key(key),
                forall|a: int, b: int|
                    0 <= a < b < reaped@.len() ==> (#[trigger] reaped@[a]).0 != (
                    #[trigger] reaped@[b]).0,
                forall|a: int|
                    0 <= a < reaped@.len() ==> {
                        let (id, since) = #[trigger] reaped@[a];
                        &&& keys@.take(i as int).contains(id.spec_key())
                        &&& is_silent(states, id.spec_key(), now)
                        &&& since == elapsed(states[id.spec_key()].last_pong, now)
                    },
                forall|a: int|
                    0 <= a < i && is_silent(states, keys@[a], now) ==> #[trigger] reaped@.contains(
                        (
                            ConnId::spec_of_key(keys@[a]),
                            elapsed(states[keys@[a]].last_pong, now) as u64,
                        ),
                    ),
            decreases keys.len() - i,
        {
            let key = keys[i];
            let ghost before = reaped@;
            proof {
                assert(keys@.contains(keys@[i as int]));
                assert(states.contains_key(key));
                assert(keys@.take(i + 1) =~= keys@.take(i as int).push(key));
                assert(!keys@.take(i as int).contains(key));
                assert forall|k: (u32, u32, u32)| keys@.take(i as int).contains(k) implies
                    #[trigger] keys@.take(i + 1).contains(k) by {
                    let j = choose|j: int| 0 <= j < i && keys@.take(i as int)[j] == k;
                    assert(keys@.take(i + 1)[j] == k);
                }
                assert(keys@.take(i + 1)[i as int] == key);
            }
            if let Some(state) = state_map_get(&self.state_map, key) {
                if !state.is_live(now) && !state.is_closed() {
                    let item = (ConnId::of_key(key), now.saturating_sub(state.last_pong()));
                    reaped.push(item);
                    proof {
                        assert(reaped@[before.len() as int] == item);
                        assert forall|x: (ConnId, u64)| before.contains(x) implies
                            #[trigger] reaped@.contains(x) by {
                            let j = choose|j: int| 0 <= j < before.len() && before[j] == x;
                            assert(reaped@[j] == x);
                        }
                    }
                }
            }
            i = i + 1;
        }
        proof {
            assert(keys@.take(keys@.len() as int) =~= keys@);
            assert forall|id: ConnId, since: u64| #[trigger]
                reaped@.contains((id, since)) <==> is_silent(states, id.spec_key(), now) && since
                    == elapsed(states[id.spec_key()].last_pong, now) by {
                if is_silent(states, id.spec_key(), now) && since == elapsed(
                    states[id.spec_key()].last_pong,
                    now,
                ) {
                    assert(keys@.contains(id.spec_key()));
                    let a = choose|a: int| 0 <= a < keys@.len() && keys@[a] == id.spec_key();
                    assert(reaped@.contains(
                        (
                            ConnId::spec_of_key(keys@[a]),
                            elapsed(states[keys@[a]].last_pong, now) as u64,
                        ),
                    ));
                }
            }
        }
        state_map_retain_live(&mut self.state_map, now);
        state_map_shrink_to_fit(&mut self.state_map);
        assert(self.spec_states() =~= live_states(states, now));
        reaped
    }

    /// One tick of the liveness timer: the packets to send, in no particular order.
    pub fn liveness_tick(&mut self, slot: u32) -> (packets: Vec<KcpPacket>)
        ensures
            final(self).spec_states() == ticked_states(old(self).spec_states()),
            final(self).spec_cur_conv() == old(self).spec_cur_conv(),
            exists|order: Seq<(u32, u32, u32)>| #[trigger]
                ticks_sent(old(self).spec_states(), slot, order, packets@),
    {
        let ghost states = self.spec_states();
        let keys = state_map_keys(&self.state_map);
        let mut packets: Vec<KcpPacket> = Vec::new();
        let ghost mut order: Seq<(u32, u32, u32)> = Seq::empty();
        let mut i: usize = 0;
        while i < keys.len()
            invariant
                i <= keys.len(),
                keys@.no_duplicates(),
                self.spec_cur_conv() == old(self).spec_cur_conv(),
                forall|key: (u32, u32, u32)|
                    keys@.contains(key) <==> #[trigger] states.contains_key(key),
                forall|key: (u32, u32, u32)| #[trigger]
                    self.spec_states().contains_key(key) <==> states.contains_key(key),
                forall|a: int|
                    0 <= a < i ==> self.spec_states()[#[trigger] keys@[a]]
                        == states[keys@[a]].after_tick(),
                forall|a: int|
                    i <= a < keys.len() ==> self.spec_states()[#[trigger] keys@[a]]
                        == states[keys@[a]],
                order.no_duplicates(),
                order.len() == packets@.len(),
                forall|j: int|
                    0 <= j < order.len() ==> {
                        let key = #[trigger] order[j];
                        &&& states.contains_key(key)
                        &&& states[key].tick_flag(key.0, slot) matches Some(flag)
                            && packet_view(packets@[j]) == control_packet(
                            ConnId::spec_of_key(key),
                            flag,
                        )
                        &&& keys@.take(i as int).contains(key)
                    },
                forall|a: int|
                    0 <= a < i && states[keys@[a]].tick_flag(keys@[a].0, slot) is Some
                        ==> order.contains(#[trigger] keys@[a]),
            decreases keys.len() - i,
        {
            let key = keys[i];
            let ghost before = order;
            let ghost sent = packets@;
            let ghost mid = self.spec_states();
            proof {
                assert(keys@.contains(keys@[i as int]));
                assert(states.contains_key(key));
                assert(mid.contains_key(key));
                assert(!keys@.take(i as int).contains(key));
                assert forall|k: (u32, u32, u32)| keys@.take(i as int).contains(k) implies
                    #[trigger] keys@.take(i + 1).contains(k) by {
                    let j = choose|j: int| 0 <= j < i && keys@.take(i as int)[j] == k;
                    assert(keys@.take(i + 1)[j] == k);
                }
                assert(keys@.take(i + 1)[i as int] == key);
            }
            if let Some(found) = state_map_get(&self.state_map, key) {
                let mut state = found;
                let id = ConnId::of_key(key);
                let packet = state.tick(&id, slot);
                state_map_insert(&mut self.state_map, key, state);
                if let Some(packet) = packet {
                    packets.push(packet);
                    proof {
                        order = order.push(key);
                        assert(order[before.len() as int] == key);
                        assert forall|x: (u32, u32, u32)| before.contains(x) implies
                            #[trigger] order.contains(x) by {
                            let j = choose|j: int| 0 <= j < before.len() && before[j] == x;
                            assert(order[j] == x);
                        }
                        assert forall|j: int| 0 <= j < order.len() implies {
                            let key = #[trigger] order[j];
                            &&& states.contains_key(key)
                            &&& states[key].tick_flag(key.0, slot) matches Some(flag)
                                && packet_view(packets@[j]) == control_packet(
                                ConnId::spec_of_key(key),
                                flag,
                            )
                            &&& keys@.take(i + 1).contains(key)
                        } by {
                            if j < before.len() {
                                assert(order[j] == before[j]);
                                assert(packets@[j] == sent[j]);
                            }
                        }
                    }
                }
            }
            i = i + 1;
        }
        proof {
            assert(keys@.take(keys@.len() as int) =~= keys@);
            assert forall|key: (u32, u32, u32)| states.contains_key(key) implies #[trigger]
                self.spec_states()[key] == states[key].after_tick() by {
                assert(keys@.contains(key));
                let a = choose|a: int| 0 <= a < keys@.len() && keys@[a] == key;
                assert(keys@[a] == key);
            }
            assert(self.spec_states() =~= ticked_states(states));
            assert forall|key: (u32, u32, u32)|
                states.contains_key(key) && states[key].tick_flag(key.0, slot) is Some implies
                #[trigger] order.contains(key) by {
                assert(keys@.contains(key));
                let a = choose|a: int| 0 <= a < keys@.len() && keys@[a] == key;
                assert(order.contains(keys@[a]));
            }
            assert(ticks_sent(states, slot, order, packets@));
        }
        packets
    }

    /// The first conversation number from the current one on, wrapping around, that is free
    /// between the two sessions. There is none where all of them are taken.
    fn next_conn_id(&mut self, src_session_id: u32, dst_session_id: u32) -> (id: Option<ConnId>)
        ensures
            final(self).spec_states() == old(self).spec_states(),
            match id {
                Some(id) => is_next_free(
                    old(self).spec_states(),
                    old(self).spec_cur_conv(),
                    src_session_id,
                    dst_session_id,
                    id,
                ) && final(self).spec_cur_conv() == conv_after(id.conv, 1),
                None => no_conv_free(
                    old(self).spec_states(),
                    src_session_id,
                    dst_session_id,
                ) && final(self).spec_cur_conv() == old(self).spec_cur_conv(),
            },
    {
        let ghost states = self.spec_states();
        let ghost start = self.spec_cur_conv();
        let mut tried: u64 = 0;
        while tried < 0x1_0000_0000
            invariant
                tried <= 0x1_0000_0000,
                self.spec_states() == states,
                self.spec_cur_conv() == conv_after(start, tried as int),
                forall|n: int|
                    0 <= n < tried ==> states.contains_key(
                        (#[trigger] conv_after(start, n), src_session_id, dst_session_id),
                    ),
                states == old(self).spec_states(),
                start == old(self).spec_cur_conv(),
            decreases 0x1_0000_0000 - tried,
        {
            let id = ConnId { conv: self.cur_conv, src_session_id, dst_session_id };
            self.cur_conv = self.cur_conv.wrapping_add(1);
            if !state_map_contains_key(&self.state_map, id.key()) {
                assert(is_next_free(states, start, src_session_id, dst_session_id, id)) by {
                    assert(id.conv == conv_after(start, tried as int));
                }
                return Some(id);
            }
            tried = tried + 1;
        }
        assert forall|conv: u32| #[trigger]
            states.contains_key((conv, src_session_id, dst_session_id)) by {
            let n = (conv - start) % 0x1_0000_0000;
            assert(conv_after(start, n) == conv);
        }
        None
    }

    /// Starts to open a connection at `now`: files it and returns its address and the SYN
    /// to send, which carries `conn_data`.
    pub fn begin_connect(
        &mut self,
        src_session_id: u32,
        dst_session_id: u32,
        conn_data: Bytes,
        now: u64,
    ) -> (result: Result<(ConnId, KcpPacket), Error>)
        requires
            HEADER_LEN + bytes_contents(conn_data).len() <= isize::MAX,
        ensures
            match result {
                Ok((id, packet)) => {
                    &&& is_next_free(
                        old(self).spec_states(),
                        old(self).spec_cur_conv(),
                        src_session_id,
                        dst_session_id,
                        id,
                    )
                    &&& final(self).spec_cur_conv() == conv_after(id.conv, 1)
                    &&& final(self).spec_states() == old(self).spec_states().insert(
                        id.spec_key(),
                        ConnState::fresh(
                            KcpConnectionFSM::SynSent,
                            bytes_contents(conn_data),
                            now,
                        ),
                    )
                    &&& packet_view(packet) == (PacketView {
                        header: id.addressed(bare_header(SYN)),
                        payload: bytes_contents(conn_data),
                    })
                    &&& final(self).spec_cur_conv() == next_start(id)
                    &&& packet_view(packet) == syn_packet(id, bytes_contents(conn_data))
                    &&& final(self).spec_states() == states_after_begin(
                        old(self).spec_states(),
                        id,
                        bytes_contents(conn_data),
                        now,
                    )
                },
                Err(error) => {
                    &&& error == Error::NoFreeConv
                    &&& no_conv_free(old(self).spec_states(), src_session_id, dst_session_id)
                    &&& final(self).spec_states() == old(self).spec_states()
                    &&& final(self).spec_cur_conv() == old(self).spec_cur_conv()
                },
            },
    {
        let mut out_packet = KcpPacket::new_with_payload(bytes_as_slice(&conn_data));
        match self.next_conn_id(src_session_id, dst_session_id) {
            Some(id) => {
                let fsm = KcpConnectionFSM::connect(&mut out_packet);
                let mut state = KcpConnectionState::new(fsm, now);
                state.set_data(conn_data);
                state_map_insert(&mut self.state_map, id.key(), state);
                id.fill_packet_header(&mut out_packet);
                proof {
                    flag_reads();
                }
                Ok((id, out_packet))
            },
            None => Err(Error::NoFreeConv),
        }
    }

    /// Ends the wait for a handshake. `notified` says whether the state of the connection
    /// changed before the deadline. Unless the connection is open it is forgotten.
    pub fn finish_connect(&mut self, id: ConnId, notified: bool) -> (result: Result<
        ConnId,
        Error,
    >)
        ensures
            final(self).spec_cur_conv() == old(self).spec_cur_conv(),
            ({
                let states = old(self).spec_states();
                let open = lookup(states, id.spec_key()) matches Some(s) && s.fsm
                    == KcpConnectionFSM::Established;
                if notified && open {
                    &&& result == Ok::<ConnId, Error>(id)
                    &&& final(self).spec_states() == states
                } else {
                    &&& result == Err::<ConnId, Error>(
                        if notified {
                            Error::ConnectFailed
                        } else {
                            Error::ConnectTimeout
                        },
                    )
                    &&& final(self).spec_states() == states.remove(id.spec_key())
                }
            }),
            result == connect_result(old(self).spec_states(), id, notified),
            final(self).spec_states() == states_after_connect(
                old(self).spec_states(),
                id,
                notified,
            ),
    {
        if !notified {
            state_map_remove(&mut self.state_map, id.key());
            return Err(Error::ConnectTimeout);
        }
        if let Some(state) = state_map_get(&self.state_map, id.key()) {
            if state.is_established() {
                return Ok(id);
            }
            state_map_remove(&mut self.state_map, id.key());
        } else {
            assert(self.spec_states() =~= self.spec_states().remove(id.spec_key()));
        }
        Err(Error::ConnectFailed)
    }

    /// Decides about a connection that was announced as a new one, or about there being no
    /// more of them.
    pub fn accept(&self, announced: Option<ConnId>) -> (action: AcceptAction)
        ensures
            action == (match announced {
                None => AcceptAction::Fail { error: Error::Shutdown },
                Some(id) => if lookup(self.spec_states(), id.spec_key()) matches Some(s) && s.fsm
                    == KcpConnectionFSM::Established {
                    AcceptAction::Accept { id }
                } else {
                    AcceptAction::Ignore
                },
            }),
            action == accept_action(self.spec_states(), announced),
    {
        match announced {
            None => AcceptAction::Fail { error: Error::Shutdown },
            Some(id) => {
                match state_map_get(&self.state_map, id.key()) {
                    Some(state) => {
                        if state.is_established() {
                            AcceptAction::Accept { id }
                        } else {
                            AcceptAction::Ignore
                        }
                    },
                    None => AcceptAction::Ignore,
                }
            },
        }
    }

    /// Closes this side of a connection. There is no outcome where it is not known.
    pub fn close_conn(&mut self, id: ConnId) -> (outcome: Option<CloseOutcome>)
        ensures
            final(self).spec_cur_conv() == old(self).spec_cur_conv(),
            match lookup(old(self).spec_states(), id.spec_key()) {
                None => {
                    &&& outcome is None
                    &&& final(self).spec_states() == old(self).spec_states()
                },
                Some(s) => outcome matches Some(out) && match fsm_close(s.fsm) {
                    Some(next) => {
                        &&& final(self).spec_states() == old(self).spec_states().insert(
                            id.spec_key(),
                            ConnState { fsm: next, ..s },
                        )
                        &&& out.packet matches Ok(p) && packet_view(p) == control_packet(id, FIN)
                        &&& out.remove_conn == (next == KcpConnectionFSM::Closed)
                    },
                    None => {
                        &&& final(self).spec_states() == old(self).spec_states()
                        &&& out.packet matches Err(error) && error == Error::InvalidState
                        &&& out.remove_conn == (s.fsm == KcpConnectionFSM::Closed)
                    },
                },
            },
            match close_effect(old(self).spec_states(), id) {
                None => outcome is None && final(self).spec_states() == old(self).spec_states(),
                Some(effect) => outcome matches Some(out) && {
                    &&& final(self).spec_states() == effect.states
                    &&& out.remove_conn == effect.remove_conn
                    &&& match effect.packet {
                        Some(packet) => out.packet matches Ok(p) && packet_view(p) == packet,
                        None => out.packet is Err,
                    }
                },
            },
    {
        let ghost states = self.spec_states();
        let found = state_map_get(&self.state_map, id.key())?;
        let mut state = found;
        let packet = match state.close() {
            Ok(packet) => {
                let mut packet = packet;
                id.fill_packet_header(&mut packet);
                Ok(packet)
            },
            Err(error) => Err(error),
        };
        let remove_conn = state.is_closed();
        state_map_insert(&mut self.state_map, id.key(), state);
        assert(fsm_close(found@.fsm) is None ==> self.spec_states() =~= states);
        Some(CloseOutcome { packet, remove_conn })
    }

    /// The bytes that came with the SYN of a connection.
    pub fn conn_data(&self, id: &ConnId) -> (data: Option<Bytes>)
        ensures
            match lookup(self.spec_states(), id.spec_key()) {
                Some(s) => data matches Some(bytes) && bytes_contents(bytes) == s.conn_data,
                None => data is None,
            },
            match data_of(self.spec_states(), *id) {
                Some(expected) => data matches Some(bytes) && bytes_contents(bytes) == expected,
                None => data is None,
            },
    {
        match state_map_get(&self.state_map, id.key()) {
            Some(state) => Some(state.data()),
            None => None,
        }
    }

    /// Whether the connection is known.
    pub fn contains(&self, id: &ConnId) -> (found: bool)
        ensures
            found == self.spec_states().contains_key(id.spec_key()),
    {
        state_map_contains_key(&self.state_map, id.key())
    }

    fn address(id: &ConnId, packet: Option<KcpPacket>) -> (addressed: Option<KcpPacket>)
        ensures
            match packet {
                Some(p) => addressed matches Some(q) && q.spec_header() == id.addressed(
                    p.spec_header(),
                ) && q.spec_payload() == p.spec_payload(),
                None => addressed is None,
            },
    {
        match packet {
            Some(packet) => {
                let mut packet = packet;
                id.fill_packet_header(&mut packet);
                Some(packet)
            },
            None => None,
        }
    }
}

/// A packet concerns the connection that it is addressed to and no other.
pub proof fn other_connections_are_untouched(
    states: States,
    key: (u32, u32, u32),
    other: (u32, u32, u32),
    packet: PacketView,
    now: u64,
)
    requires
        other != key,
    ensures
        lookup(
            store(states, key, input_effect(lookup(states, key), packet, now).state),
            other,
        ) == lookup(states, other),
{
}

/// A packet never makes the endpoint forget a connection, and only the SYN of a peer makes
/// it remember a new one, with the payload of that SYN and its full budget.
pub proof fn only_a_syn_opens_a_connection(
    state: Option<ConnState>,
    packet: PacketView,
    now: u64,
)
    ensures
        state is Some ==> input_effect(state, packet, now).state is Some,
        state is None && input_effect(state, packet, now).state is Some ==> {
            &&& packet.header.has(SYN)
            &&& !packet.header.has(PING)
            &&& !packet.header.has(RST)
            &&& input_effect(state, packet, now).state == Some(
                ConnState::fresh(KcpConnectionFSM::SynReceived, packet.payload, now),
            )
            &&& input_effect(state, packet, now).reply == Some(
                control_packet(ConnId::of_header(packet.header), SYN_ACK),
            )
        },
{
}

/// What is to be done about a packet fits together: a connection whose engine is dropped
/// stops receiving, a connection that just opened or closed wakes up whoever waits for it,
/// and a connection that just opened is not closed at the same time.
pub proof fn effects_fit_together(state: Option<ConnState>, packet: PacketView, now: u64)
    ensures
        ({
            let effect = input_effect(state, packet, now);
            &&& effect.remove_conn ==> effect.close_recv
            &&& effect.established ==> effect.notify && !effect.close_recv
            &&& effect.close_recv ==> state is Some
            &&& effect.remove_conn ==> (effect.state matches Some(s) && s.fsm
                == KcpConnectionFSM::Closed)
        }),
{
}

/// A ping on a connection that is known and not closed is answered by a pong that differs
/// from it in nothing else, and a ping on any other by an RST, which makes the peer close.
/// Either answer reaches the connection that the ping came from.
pub proof fn pings_are_answered(
    state: Option<ConnState>,
    packet: PacketView,
    peer: ConnState,
    now: u64,
)
    requires
        packet.header.has(PING),
        !packet.header.has(PONG),
    ensures
        ({
            let answer = input_effect(state, packet, now).reply;
            &&& answer is Some
            &&& answer->Some_0.payload == packet.payload
            &&& ConnId::of_header(answer->Some_0.header) == ConnId::of_header(packet.header)
            &&& (state matches Some(s) && s.fsm != KcpConnectionFSM::Closed) ==> {
                &&& answer->Some_0.header.has(PING)
                &&& answer->Some_0.header.has(PONG)
            }
            &&& !(state matches Some(s) && s.fsm != KcpConnectionFSM::Closed) ==> {
                &&& answer->Some_0.header.has(RST)
                &&& input_effect(Some(peer), answer->Some_0, now).state matches Some(s) && s.fsm
                    == KcpConnectionFSM::Closed
            }
        }),
{
    ping_answer_flags(packet.header.flag);
}

/// The flags of the two answers to a ping.
proof fn ping_answer_flags(flag: u8)
    requires
        has_bit(flag, PING),
    ensures
        has_bit(with_bit(flag, PONG, true), PING),
        has_bit(with_bit(flag, PONG, true), PONG),
        !has_bit(with_bit(with_bit(flag, PING, false), RST, true), PING),
        has_bit(with_bit(with_bit(flag, PING, false), RST, true), RST),
{
    assert(64u8 & 32 == 0 && 16u8 & 32 == 0 && 32u8 & 0 == 0) by (bit_vector);
    setting_a_flag_sets_only_that_flag(flag, PONG, PING, true);
    setting_a_flag_sets_only_that_flag(flag, PING, 0, false);
    setting_a_flag_sets_only_that_flag(with_bit(flag, PING, false), RST, PING, true);
}

/// What two endpoints answer each other comes to an end: whatever packet one of them gets,
/// and whatever state each of them is in whenever it gets an answer, there are at most three
/// answers, each to the one before it.
pub proof fn exchanges_end(
    packet: PacketView,
    first: Option<ConnState>,
    second: Option<ConnState>,
    third: Option<ConnState>,
    fourth: Option<ConnState>,
    now: u64,
)
    ensures
        input_effect(first, packet, now).reply matches Some(a) ==> (input_effect(
            second,
            a,
            now,
        ).reply matches Some(b) ==> (input_effect(third, b, now).reply matches Some(c)
            ==> input_effect(fourth, c, now).reply is None)),
{
    flag_reads();
    if packet.header.has(PING) {
        ping_answer_flags(packet.header.flag);
    }
}

/// A handshake over the wire: the SYN of one endpoint, taken in by another that does not
/// know the connection, and the two answers open the connection on both sides. Both sides
/// hold the data that the SYN carried, both agree on the address, and the server announces
/// the connection exactly when it opens.
pub proof fn handshake_opens_both_ends(id: ConnId, data: Seq<u8>, now: u64)
    ensures
        ({
            let client = ConnState::fresh(KcpConnectionFSM::SynSent, data, now);
            let syn = PacketView { header: id.addressed(bare_header(SYN)), payload: data };
            let at_server = input_effect(None, syn, now);
            let at_client = input_effect(Some(client), at_server.reply->Some_0, now);
            let done = input_effect(at_server.state, at_client.reply->Some_0, now);
            &&& ConnId::of_header(syn.header) == id
            &&& at_server.reply == Some(control_packet(id, SYN_ACK))
            &&& !at_server.established
            &&& at_client.reply == Some(control_packet(id, ACK_DATA))
            &&& at_client.notify
            &&& at_client.state == Some(
                ConnState::fresh(KcpConnectionFSM::Established, data, now),
            )
            &&& done.reply is None
            &&& done.established
            &&& done.state == Some(ConnState::fresh(KcpConnectionFSM::Established, data, now))
        }),
{
    flag_reads();
}

/// The loss of the SYN-ACK is repaired from the client's side: its SYN, sent again, gets the
/// same answer from a server that waits for the ACK+data already, changes nothing there but
/// the time of the last packet, and the answer opens the client's side.
pub proof fn lost_syn_ack_is_repaired(
    id: ConnId,
    client: ConnState,
    server: ConnState,
    data: Seq<u8>,
    now: u64,
)
    requires
        client.fsm == KcpConnectionFSM::SynSent,
        server.fsm == KcpConnectionFSM::SynReceived,
    ensures
        ({
            let syn = PacketView { header: id.addressed(bare_header(SYN)), payload: data };
            let at_server = input_effect(Some(server), syn, now);
            let at_client = input_effect(Some(client), at_server.reply->Some_0, now);
            &&& at_server.reply == Some(control_packet(id, SYN_ACK))
            &&& at_server.state == Some(ConnState { last_pong: now, ..server })
            &&& !at_server.notify
            &&& !at_server.established
            &&& at_client.reply == Some(control_packet(id, ACK_DATA))
            &&& at_client.notify
            &&& at_client.state matches Some(s) && s.fsm == KcpConnectionFSM::Established
        }),
{
    flag_reads();
}

/// The loss of the ACK+data is repaired from the server's side: its timer sends the SYN-ACK
/// again, the client, which is open already, answers with the ACK+data again, and that opens
/// the server's side.
pub proof fn lost_ack_is_repaired(
    id: ConnId,
    client: ConnState,
    server: ConnState,
    slot: u32,
    now: u64,
)
    requires
        client.fsm == KcpConnectionFSM::Established,
        server.fsm == KcpConnectionFSM::SynReceived,
        server.syn_ack_retries < MAX_SYN_ACK_RETRIES,
    ensures
        ({
            let syn_ack = control_packet(id, server.tick_flag(id.conv, slot)->Some_0);
            let at_client = input_effect(Some(client), syn_ack, now);
            let done = input_effect(
                Some(server.after_tick()),
                at_client.reply->Some_0,
                now,
            );
            &&& server.tick_flag(id.conv, slot) == Some(SYN_ACK)
            &&& at_client.reply == Some(control_packet(id, ACK_DATA))
            &&& !at_client.notify
            &&& done.established
            &&& done.state matches Some(s) && s.fsm == KcpConnectionFSM::Established
        }),
{
    flag_reads();
}

/// A SYN that nobody stands behind buys one answer at once and, whatever else happens, no
/// more timed ones than the cap allows.
pub proof fn spoofed_syn_buys_little(packet: PacketView, now: u64, events: Seq<ConnEvent>)
    requires
        input_effect(None, packet, now).state is Some,
    ensures
        input_effect(None, packet, now).reply is Some,
        input_effect(None, packet, now).state->Some_0.timed_syn_acks(events)
            <= MAX_SYN_ACK_RETRIES,
{
    budget_is_never_exceeded(input_effect(None, packet, now).state->Some_0, events);
}

/// A connection closes in two steps. The FIN of one side stops the other from receiving but
/// leaves it open for sending, and what it sends still gets through; the FIN of that side
/// then closes both ends and drops both engines.
pub proof fn connection_closes_in_two_steps(
    id: ConnId,
    a: ConnState,
    b: ConnState,
    data: Seq<u8>,
    now: u64,
)
    requires
        a.fsm == KcpConnectionFSM::Established,
        b.fsm == KcpConnectionFSM::Established,
        data.len() > 0,
    ensures
        ({
            let a_closed = ConnState { fsm: fsm_close(a.fsm)->Some_0, ..a };
            let at_b = input_effect(Some(b), control_packet(id, FIN), now);
            let late = PacketView { header: id.addressed(bare_header(ACK_DATA)), payload: data };
            let at_a = input_effect(Some(a_closed), late, now);
            let b_close = fsm_close(at_b.state->Some_0.fsm);
            let end_a = input_effect(at_a.state, control_packet(id, FIN), now);
            &&& fsm_close(a.fsm) == Some(KcpConnectionFSM::LocalClosed)
            &&& at_b.close_recv
            &&& !at_b.remove_conn
            &&& at_b.reply is None
            &&& at_a.deliver
            &&& !at_a.close_recv
            &&& b_close == Some(KcpConnectionFSM::Closed)
            &&& end_a.close_recv
            &&& end_a.remove_conn
            &&& end_a.reply is None
        }),
{
    flag_reads();
}

/// After reaping there is nothing left to reap, and every connection that is left is as it
/// was.
pub proof fn reaping_is_thorough(states: States, now: u64)
    ensures
        forall|key: (u32, u32, u32)| #[trigger]
            live_states(states, now).contains_key(key) ==> {
                &&& live_states(states, now)[key].live(now)
                &&& live_states(states, now)[key] == states[key]
            },
        forall|key: (u32, u32, u32)| !#[trigger] is_silent(live_states(states, now), key, now),
        live_states(live_states(states, now), now) == live_states(states, now),
{
    assert(live_states(live_states(states, now), now) =~= live_states(states, now));
}

/// A tick sends no packet twice, and each of its packets belongs to a different connection.
pub proof fn tick_packets_are_distinct(
    states: States,
    slot: u32,
    order: Seq<(u32, u32, u32)>,
    packets: Seq<KcpPacket>,
)
    requires
        ticks_sent(states, slot, order, packets),
    ensures
        forall|i: int, j: int|
            0 <= i < j < packets.len() ==> ConnId::of_header(
                (#[trigger] packets[i]).spec_header(),
            ) != ConnId::of_header((#[trigger] packets[j]).spec_header()),
{
    assert forall|i: int, j: int| 0 <= i < j < packets.len() implies ConnId::of_header(
        (#[trigger] packets[i]).spec_header(),
    ) != ConnId::of_header((#[trigger] packets[j]).spec_header()) by {
        assert(ConnId::of_header(packet_view(packets[i]).header) == ConnId::spec_of_key(order[i]));
        assert(ConnId::of_header(packet_view(packets[j]).header) == ConnId::spec_of_key(order[j]));
        assert(order[i] != order[j]);
    }
}

/// Whatever state a connection is in, open or half closed or unknown, the payload of every
/// data packet goes to its engine, and nothing else does: no ping, no packet without the DATA
/// flag and none without payload.
pub proof fn data_reaches_the_engine(state: Option<ConnState>, packet: PacketView, now: u64)
    ensures
        input_effect(state, packet, now).deliver <==> packet.header.has(DATA)
            && !packet.header.has(PING) && packet.payload.len() > 0,
{
}

/// Every packet for a known connection counts as a sign of life, pings and pongs among them and
/// in every state: the connection is noted as heard of just now, and unless it is closed it is
/// kept for a minute from then.
pub proof fn every_packet_is_a_sign_of_life(
    s: ConnState,
    packet: PacketView,
    now: u64,
    later: u64,
)
    requires
        now <= later <= now + 60_000_000_000,
    ensures
        input_effect(Some(s), packet, now).state matches Some(after) && after.last_pong == now && (
        after.fsm != KcpConnectionFSM::Closed ==> after.live(later)),
{
}

/// What a packet changes of a known connection: the time of the last packet, and where it is in
/// its life as the state machine says, unless the packet is a ping or a pong. Its data and its
/// budget stay.
pub proof fn packets_move_only_the_state(s: ConnState, packet: PacketView, now: u64)
    ensures
        input_effect(Some(s), packet, now).state matches Some(after) && after.conn_data
            == s.conn_data && after.syn_ack_retries == s.syn_ack_retries && after.fsm == (
        if packet.header.has(PING) {
            s.fsm
        } else {
            fsm_step(s.fsm, packet.header.flag).next
        }),
{
}

/// Pings and pongs move nothing: nobody is woken up, announced, stopped or dropped for one, and
/// an unknown connection stays unknown. A pong is not answered.
pub proof fn pings_only_show_life(state: Option<ConnState>, packet: PacketView, now: u64)
    requires
        packet.header.has(PING),
    ensures
        ({
            let effect = input_effect(state, packet, now);
            &&& !effect.deliver && !effect.notify && !effect.established
            &&& !effect.close_recv && !effect.remove_conn
            &&& state is None ==> effect.state is None
            &&& state matches Some(s) ==> (effect.state matches Some(after) && after.fsm == s.fsm)
            &&& packet.header.has(PONG) <==> effect.reply is None
        }),
{
}

/// What follows from where a packet took a known connection: whoever waits is woken up exactly
/// if it moved, the connection is announced exactly if it became open, receiving stops exactly
/// if the peer has closed or all is closed, and the engine goes exactly if all is closed.
pub proof fn effects_follow_the_state(s: ConnState, packet: PacketView, now: u64)
    requires
        !packet.header.has(PING),
    ensures
        ({
            let effect = input_effect(Some(s), packet, now);
            let after = effect.state->Some_0.fsm;
            &&& effect.state is Some
            &&& effect.notify <==> after != s.fsm
            &&& effect.established <==> after == KcpConnectionFSM::Established && s.fsm
                != KcpConnectionFSM::Established
            &&& effect.close_recv <==> after == KcpConnectionFSM::PeerClosed || after
                == KcpConnectionFSM::Closed
            &&& effect.remove_conn <==> after == KcpConnectionFSM::Closed
        }),
{
}

/// Answers come back to the connection that the packet was for, and except for those to pings
/// they carry nothing but flags.
pub proof fn answers_go_back(state: Option<ConnState>, packet: PacketView, now: u64)
    ensures
        input_effect(state, packet, now).reply matches Some(reply) ==> {
            &&& ConnId::of_header(reply.header) == ConnId::of_header(packet.header)
            &&& !packet.header.has(PING) ==> reply.payload.len() == 0 && reply.header.rsv == 0
            &&& packet.header.has(PING) ==> reply.payload == packet.payload && reply.header.rsv
                == packet.header.rsv
        },
{
}

/// How a known connection answers what is no ping: as its state machine does, but a packet that
/// does not fit is not answered.
pub proof fn known_connections_answer(s: ConnState, packet: PacketView, now: u64)
    requires
        !packet.header.has(PING),
    ensures
        ({
            let step = fsm_step(s.fsm, packet.header.flag);
            let reply = input_effect(Some(s), packet, now).reply;
            &&& !step.ok ==> reply is None
            &&& step.ok ==> (reply is Some <==> step.reply is Some)
            &&& reply matches Some(reply) ==> reply.header.flag == step.reply->Some_0
        }),
{
}

/// How an endpoint answers what belongs to no connection that it knows: a SYN opens one, with
/// its payload as the data of the connection, and is answered by a SYN-ACK; an RST is ignored;
/// anything else is answered by an RST. Nobody is woken up, announced, stopped or dropped.
pub proof fn strangers_are_answered(packet: PacketView, now: u64)
    requires
        !packet.header.has(PING),
    ensures
        ({
            let effect = input_effect(None, packet, now);
            let opens = packet.header.has(SYN) && !packet.header.has(ACK) && !packet.header.has(
                RST,
            );
            &&& effect.state is Some <==> opens
            &&& effect.state matches Some(s) ==> s.fsm == KcpConnectionFSM::SynReceived
                && s.conn_data == packet.payload && s.last_pong == now && s.syn_ack_retries == 0
            &&& effect.reply is None <==> packet.header.has(RST)
            &&& effect.reply matches Some(reply) ==> reply.header.flag == (if opens {
                3u8
            } else {
                16u8
            })
            &&& !effect.notify && !effect.established && !effect.close_recv && !effect.remove_conn
        }),
{
}

/// The two answers to a ping differ from it in the flags alone: a pong has the PONG flag on top,
/// and the RST has the RST flag in place of the PING flag. All other flags come back as they
/// were.
pub proof fn answers_to_pings_keep_the_other_flags(
    state: Option<ConnState>,
    packet: PacketView,
    now: u64,
    other: u8,
)
    requires
        packet.header.has(PING),
        !packet.header.has(PONG),
        other & PING == 0,
        other & PONG == 0,
        other & RST == 0,
    ensures
        ({
            let reply = input_effect(state, packet, now).reply->Some_0;
            let alive = state matches Some(s) && s.fsm != KcpConnectionFSM::Closed;
            &&& reply.header.has(other) == packet.header.has(other)
            &&& reply.header.has(PONG) == alive
            &&& reply.header.has(PING) == alive
            &&& reply.header.has(RST) == (!alive || packet.header.has(RST))
        }),
{
    let flag = packet.header.flag;
    assert(64u8 & 32 == 0 && 64u8 & 16 == 0 && 32u8 & 64 == 0 && 32u8 & 16 == 0 && 16u8 & 32 == 0
        && 16u8 & 64 == 0) by (bit_vector);
    assert(other & 32 == 0 ==> 32 & other == 0) by (bit_vector);
    assert(other & 64 == 0 ==> 64 & other == 0) by (bit_vector);
    assert(other & 16 == 0 ==> 16 & other == 0) by (bit_vector);
    setting_a_flag_sets_only_that_flag(flag, PONG, other, true);
    setting_a_flag_sets_only_that_flag(flag, PONG, PING, true);
    setting_a_flag_sets_only_that_flag(flag, PONG, RST, true);
    setting_a_flag_sets_only_that_flag(flag, PING, other, false);
    setting_a_flag_sets_only_that_flag(flag, PING, PONG, false);
    let cleared = with_bit(flag, PING, false);
    setting_a_flag_sets_only_that_flag(cleared, RST, other, true);
    setting_a_flag_sets_only_that_flag(cleared, RST, PONG, true);
    setting_a_flag_sets_only_that_flag(cleared, RST, PING, true);
    setting_a_flag_sets_only_that_flag(flag, PING, RST, false);
}

/// A control packet has the address of its connection, the flags, and nothing else.
pub proof fn control_packets_are_bare(id: ConnId, flag: u8)
    ensures
        control_packet(id, flag).header.conv == id.conv,
        control_packet(id, flag).header.src_session_id == id.src_session_id,
        control_packet(id, flag).header.dst_session_id == id.dst_session_id,
        control_packet(id, flag).header.flag == flag,
        control_packet(id, flag).header.rsv == 0,
        control_packet(id, flag).payload.len() == 0,
{
}

/// What is told of a packet is what it holds, and what is told of an outcome is what it asks
/// for.
pub proof fn packets_are_told_as_they_are(
    packet: KcpPacket,
    outcome: InputOutcome,
    effect: InputEffect,
)
    requires
        outcome.is(effect),
    ensures
        packet_view(packet).header == packet.spec_header(),
        packet_view(packet).payload == packet.spec_payload(),
        outcome.reply is Some <==> effect.reply is Some,
        outcome.reply matches Some(reply) ==> reply.spec_header() == effect.reply->Some_0.header
            && reply.spec_payload() == effect.reply->Some_0.payload,
        outcome.deliver == effect.deliver,
        outcome.notify == effect.notify,
        outcome.established == effect.established,
        outcome.close_recv == effect.close_recv,
        outcome.remove_conn == effect.remove_conn,
{
}

/// What is filed is found again, and only there.
pub proof fn what_is_filed_is_found(
    states: States,
    key: (u32, u32, u32),
    state: ConnState,
    other: (u32, u32, u32),
)
    ensures
        lookup(store(states, key, Some(state)), key) == Some(state),
        store(states, key, None) == states,
        lookup(states, key) is Some <==> states.contains_key(key),
        lookup(states, key) matches Some(s) ==> s == states[key],
        other != key ==> lookup(store(states, key, Some(state)), other) == lookup(states, other),
{
}

/// Exactly those connections survive the clean-up that are not closed and whose peer was heard
/// of within the last minute, and they survive as they are. Those that go for silence alone are
/// the ones that are not closed and were not heard of for longer.
pub proof fn cleanup_keeps_the_living(states: States, key: (u32, u32, u32), now: u64)
    ensures
        live_states(states, now).contains_key(key) <==> states.contains_key(key)
            && states[key].fsm != KcpConnectionFSM::Closed && now <= states[key].last_pong
            + 60_000_000_000,
        live_states(states, now).contains_key(key) ==> live_states(states, now)[key]
            == states[key],
        is_silent(states, key, now) <==> states.contains_key(key) && states[key].fsm
            != KcpConnectionFSM::Closed && now > states[key].last_pong + 60_000_000_000,
{
}

/// A tick forgets nobody and opens nothing: every connection is still there, as it is after a
/// tick of its own.
pub proof fn ticks_keep_all_connections(states: States, key: (u32, u32, u32))
    ensures
        ticked_states(states).contains_key(key) <==> states.contains_key(key),
        states.contains_key(key) ==> {
            &&& ticked_states(states)[key].fsm == states[key].fsm
            &&& ticked_states(states)[key].conn_data == states[key].conn_data
            &&& ticked_states(states)[key].last_pong == states[key].last_pong
            &&& ticked_states(states)[key].syn_ack_retries == states[key].syn_ack_retries + (
            if states[key].fsm == KcpConnectionFSM::SynReceived && states[key].syn_ack_retries < 10 {
                1int
            } else {
                0int
            })
        },
{
}

/// Every connection that is due gets its packet in a tick, addressed to it, and every packet of
/// a tick belongs to a connection that is due.
pub proof fn ticks_serve_all_and_only_who_is_due(
    states: States,
    slot: u32,
    order: Seq<(u32, u32, u32)>,
    packets: Seq<KcpPacket>,
    key: (u32, u32, u32),
)
    requires
        ticks_sent(states, slot, order, packets),
        states.contains_key(key),
    ensures
        states[key].tick_flag(key.0, slot) matches Some(flag) ==> exists|j: int|
            0 <= j < packets.len() && #[trigger] packet_view(packets[j]) == control_packet(
                ConnId::spec_of_key(key),
                flag,
            ),
        forall|j: int|
            0 <= j < packets.len() && ConnId::of_header(
                (#[trigger] packets[j]).spec_header(),
            ).spec_key() == key ==> states[key].tick_flag(key.0, slot) == Some(
                packets[j].spec_header().flag,
            ),
        forall|j: int|
            0 <= j < packets.len() ==> states.contains_key(
                ConnId::of_header((#[trigger] packets[j]).spec_header()).spec_key(),
            ) && packets[j].spec_payload().len() == 0,
{
    if states[key].tick_flag(key.0, slot) is Some {
        assert(order.contains(key));
        let j = choose|j: int| 0 <= j < order.len() && order[j] == key;
        assert(packet_view(packets[j]) == control_packet(
            ConnId::spec_of_key(key),
            states[key].tick_flag(key.0, slot)->Some_0,
        ));
    }
    assert forall|j: int| 0 <= j < packets.len() implies states.contains_key(
        ConnId::of_header((#[trigger] packets[j]).spec_header()).spec_key(),
    ) && packets[j].spec_payload().len() == 0 && states[order[j]].tick_flag(order[j].0, slot)
        == Some(packets[j].spec_header().flag) && ConnId::of_header(
        packets[j].spec_header(),
    ).spec_key() == order[j] by {
        assert(packet_view(packets[j]) == control_packet(
            ConnId::spec_of_key(order[j]),
            states[order[j]].tick_flag(order[j].0, slot)->Some_0,
        ));
        assert(order.contains(order[j]));
    }
}

/// Conversation numbers follow each other and start again at zero after the last.
pub proof fn conversation_numbers_go_round(conv: u32, n: int)
    requires
        0 <= n,
    ensures
        conv_after(conv, 0) == conv,
        conv_after(conv, 1) == (if conv == u32::MAX {
            0int
        } else {
            conv + 1
        }),
        conv_after(conv, n + 1) == conv_after(conv_after(conv, n), 1),
{
}

/// There is only one next free number. It is taken by nobody, it belongs to the two sessions,
/// and it is the very first one where that is free.
pub proof fn next_free_number_is_unique(
    states: States,
    start: u32,
    src_session_id: u32,
    dst_session_id: u32,
    a: ConnId,
    b: ConnId,
)
    requires
        is_next_free(states, start, src_session_id, dst_session_id, a),
        is_next_free(states, start, src_session_id, dst_session_id, b),
    ensures
        a == b,
        !states.contains_key((a.conv, src_session_id, dst_session_id)),
        a.src_session_id == src_session_id,
        a.dst_session_id == dst_session_id,
        !states.contains_key((start, src_session_id, dst_session_id)) ==> a.conv == start,
        !no_conv_free(states, src_session_id, dst_session_id),
{
    let (i, j) = ((a.conv - start) % 0x1_0000_0000, (b.conv - start) % 0x1_0000_0000);
    assert(conv_after(start, i) == a.conv);
    assert(conv_after(start, j) == b.conv);
    assert(conv_after(start, 0) == start);
    assert(!states.contains_key((a.conv, src_session_id, dst_session_id)));
}

/// Numbers have run out only if there is none that is not taken.
pub proof fn numbers_run_out_when_all_are_taken(
    states: States,
    src_session_id: u32,
    dst_session_id: u32,
    conv: u32,
)
    requires
        !states.contains_key((conv, src_session_id, dst_session_id)),
    ensures
        !no_conv_free(states, src_session_id, dst_session_id),
{
}

/// An attempt succeeds exactly if the connection moved in time and is open now, and then it
/// keeps the connection; else the connection is forgotten, and the error says whether it was
/// for want of time. No other connection is touched.
pub proof fn attempts_succeed_where_the_handshake_did(
    states: States,
    id: ConnId,
    notified: bool,
    other: ConnId,
)
    ensures
        ({
            let open = states.contains_key(id.spec_key()) && states[id.spec_key()].fsm
                == KcpConnectionFSM::Established;
            let after = states_after_connect(states, id, notified);
            &&& connect_result(states, id, notified) is Ok <==> notified && open
            &&& connect_result(states, id, notified) matches Ok(found) ==> found == id && after
                == states
            &&& connect_result(states, id, notified) matches Err(error) ==> {
                &&& !after.contains_key(id.spec_key())
                &&& notified ==> error == Error::ConnectFailed
                &&& !notified ==> error == Error::ConnectTimeout
            }
            &&& other != id ==> lookup(after, other.spec_key()) == lookup(states, other.spec_key())
        }),
{
}

/// A connection is accepted exactly if it is the one announced and is open, and the wait for
/// connections fails exactly if there will be no more of them.
pub proof fn open_connections_are_accepted(states: States, announced: Option<ConnId>, id: ConnId)
    ensures
        accept_action(states, announced) == (AcceptAction::Accept { id }) <==> announced == Some(id)
            && states.contains_key(id.spec_key()) && states[id.spec_key()].fsm
            == KcpConnectionFSM::Established,
        accept_action(states, announced) is Fail <==> announced is None,
        accept_action(states, announced) matches AcceptAction::Fail { error } ==> error
            == Error::Shutdown,
{
}

/// Closing a side sends a FIN to its connection exactly if that side was open, stops it from
/// sending, drops the engine exactly if the other side was closed as well, and touches nothing
/// else of this connection nor any other.
pub proof fn closing_sends_a_fin(states: States, id: ConnId, other: ConnId)
    ensures
        close_effect(states, id) is Some <==> states.contains_key(id.spec_key()),
        close_effect(states, id) matches Some(effect) ==> {
            let before = states[id.spec_key()];
            let after = effect.states[id.spec_key()];
            &&& effect.states.contains_key(id.spec_key())
            &&& effect.packet is Some <==> before.fsm == KcpConnectionFSM::Established
                || before.fsm == KcpConnectionFSM::PeerClosed
            &&& effect.packet matches Some(packet) ==> packet.header.flag == 4 && ConnId::of_header(
                packet.header,
            ) == id && packet.payload.len() == 0
            &&& after.fsm == (match before.fsm {
                KcpConnectionFSM::Established => KcpConnectionFSM::LocalClosed,
                KcpConnectionFSM::PeerClosed => KcpConnectionFSM::Closed,
                fsm => fsm,
            })
            &&& after.conn_data == before.conn_data
            &&& after.last_pong == before.last_pong
            &&& after.syn_ack_retries == before.syn_ack_retries
            &&& effect.remove_conn <==> after.fsm == KcpConnectionFSM::Closed
            &&& other != id ==> lookup(effect.states, other.spec_key()) == lookup(
                states,
                other.spec_key(),
            )
        },
{
}

/// A connection that is being opened is filed with its data and waits for the SYN-ACK; its SYN
/// carries its address and that data, and opens it on a server that does not know it yet, with
/// the same data. No other connection is touched.
pub proof fn opening_files_and_announces(
    states: States,
    id: ConnId,
    data: Seq<u8>,
    now: u64,
    other: ConnId,
)
    ensures
        ({
            let after = states_after_begin(states, id, data, now);
            let syn = syn_packet(id, data);
            let at_server = input_effect(None, syn, now).state;
            &&& after.contains_key(id.spec_key())
            &&& after[id.spec_key()].fsm == KcpConnectionFSM::SynSent
            &&& after[id.spec_key()].conn_data == data
            &&& after[id.spec_key()].last_pong == now
            &&& after[id.spec_key()].syn_ack_retries == 0
            &&& other != id ==> lookup(after, other.spec_key()) == lookup(states, other.spec_key())
            &&& syn.header.flag == 1
            &&& syn.header.rsv == 0
            &&& ConnId::of_header(syn.header) == id
            &&& syn.payload == data
            &&& at_server matches Some(s) && s.conn_data == data
        }),
{
    flag_reads();
}

/// What the engine of one side puts out reaches the engine of the other side unchanged, in
/// every state that the other side may be in, and tears nothing down where the connection is
/// open in some direction.
pub proof fn engines_reach_each_other(
    id: ConnId,
    data: Seq<u8>,
    state: Option<ConnState>,
    now: u64,
)
    requires
        data.len() > 0,
    ensures
        ({
            let packet = data_packet(id, data);
            let effect = input_effect(state, packet, now);
            &&& ConnId::of_header(packet.header) == id
            &&& packet.header.flag == 10
            &&& packet.header.rsv == 0
            &&& packet.payload == data
            &&& effect.deliver
            &&& (state matches Some(s) && (s.fsm == KcpConnectionFSM::Established || s.fsm
                == KcpConnectionFSM::LocalClosed || s.fsm == KcpConnectionFSM::PeerClosed)) ==> {
                &&& effect.state->Some_0.fsm == state->Some_0.fsm
                &&& effect.reply is None
                &&& !effect.remove_conn
            }
        }),
{
    flag_reads();
}

/// A packet has its effect on the connection that it is addressed to, as the state of that
/// connection was, and on no other.
pub proof fn packets_have_their_effect_where_they_belong(
    states: States,
    packet: PacketView,
    now: u64,
    other: ConnId,
)
    ensures
        ({
            let id = ConnId::of_header(packet.header);
            let after = states_after_input(states, packet, now);
            let effect = input_effect(lookup(states, id.spec_key()), packet, now);
            &&& effect.state is Some ==> lookup(after, id.spec_key()) == effect.state
            &&& effect.state is None ==> after == states
            &&& other != id ==> lookup(after, other.spec_key()) == lookup(states, other.spec_key())
        }),
{
}

/// Who is given up for silence, and how long that is said to have lasted: those that are not
/// closed and were not heard of for more than a minute, and the time since then.
pub proof fn silence_is_reported_in_full(states: States, id: ConnId, since: u64, now: u64)
    ensures
        is_reaped(states, id, since, now) <==> states.contains_key(id.spec_key())
            && states[id.spec_key()].fsm != KcpConnectionFSM::Closed && since > 60_000_000_000
            && now == states[id.spec_key()].last_pong + since,
{
}

/// The data of a connection is what it was filed with, for whoever knows the connection.
pub proof fn data_is_what_was_filed(states: States, id: ConnId, data: Seq<u8>, now: u64)
    ensures
        data_of(states, id) is Some <==> states.contains_key(id.spec_key()),
        data_of(states, id) matches Some(found) ==> found == states[id.spec_key()].conn_data,
        data_of(states_after_begin(states, id, data, now), id) == Some(data),
        data_of(states, id) is None ==> data_of(
            states_after_input(states, syn_packet(id, data), now),
            id,
        ) == Some(data),
{
    flag_reads();
}

/// After a number was taken, the one behind it is tried first, and zero after the last.
pub proof fn numbers_are_taken_in_turn(id: ConnId)
    ensures
        next_start(id) == (if id.conv == u32::MAX {
            0int
        } else {
            id.conv + 1
        }),
{
}

/// Where no number is free, every number between the two sessions is taken.
pub proof fn no_number_is_passed_over(
    states: States,
    src_session_id: u32,
    dst_session_id: u32,
    conv: u32,
)
    requires
        no_conv_free(states, src_session_id, dst_session_id),
    ensures
        states.contains_key((conv, src_session_id, dst_session_id)),
{
}

} // verus!
