//! The decisions of the tasks that serve one connection: one drives the engine, one feeds
//! it with what is to be sent and one empties it of what was received.

use crate::conn_id::ConnId;
use crate::endpoint::{data_packet, packet_view, PacketView};
use crate::error::Error;
use crate::ffi_safe::{greatest, least};
use crate::packet_def::{flag_reads, KcpPacket, HEADER_LEN};
use crate::state::{bare_header, ACK_DATA};
use vstd::prelude::*;

verus! {

/// The packet that carries output of the engine of `id`.
pub fn output_packet(id: &ConnId, data: &[u8]) -> (packet: KcpPacket)
    requires
        HEADER_LEN + data@.len() <= isize::MAX,
    ensures
        packet_view(packet) == (PacketView {
            header: id.addressed(bare_header(ACK_DATA)),
            payload: data@,
        }),
        packet_view(packet) == data_packet(*id, data@),
{
    let mut packet = KcpPacket::new_with_payload(data);
    id.fill_packet_header(&mut packet);
    packet.mut_header().set_data(true).set_ack(true);
    proof {
        flag_reads();
    }
    packet
}

/// What the tasks of a connection tell each other.
#[derive(Clone, Copy, Debug, PartialEq, Eq, Structural)]
pub struct ConnectionFlags {
    /// Input was handed to the engine since it was last updated.
    pub has_new_input: bool,
    /// The send task waits for the engine to make room.
    pub waiting_new_send_window: bool,
    /// Nothing more is to be received.
    pub recv_closed: bool,
}

impl ConnectionFlags {
    /// Nothing has happened yet.
    pub open spec fn quiet() -> Self {
        ConnectionFlags {
            has_new_input: false,
            waiting_new_send_window: false,
            recv_closed: false,
        }
    }

    /// Whether the next update of the engine wakes up the receive task.
    pub open spec fn wakes_recv(self) -> bool {
        self.has_new_input || self.recv_closed
    }

    /// Whether the next update of the engine wakes up the send task.
    pub open spec fn wakes_send(self) -> bool {
        self.waiting_new_send_window
    }

    /// The flags after an update of the engine.
    pub open spec fn updated(self) -> Self {
        ConnectionFlags { has_new_input: false, waiting_new_send_window: false, ..self }
    }

    /// The flags after the engine got input, and took it or not.
    pub open spec fn after_new_input(self, taken: bool) -> Self {
        ConnectionFlags { has_new_input: self.has_new_input || taken, ..self }
    }

    /// The flags after receiving was closed.
    pub open spec fn after_close(self) -> Self {
        ConnectionFlags { recv_closed: true, ..self }
    }

    /// The flags after the send task started to wait.
    pub open spec fn after_wait(self) -> Self {
        ConnectionFlags { waiting_new_send_window: true, ..self }
    }

    pub fn new() -> (flags: Self)
        ensures
            flags == ConnectionFlags::quiet(),
            flags == (ConnectionFlags {
                has_new_input: false,
                waiting_new_send_window: false,
                recv_closed: false,
            }),
    {
        ConnectionFlags {
            has_new_input: false,
            waiting_new_send_window: false,
            recv_closed: false,
        }
    }

    /// The engine was updated. Says whether to wake up the receive task, and whether to
    /// wake up the send task.
    pub fn after_update(&mut self) -> (wake: (bool, bool))
        ensures
            wake.0 == old(self).wakes_recv(),
            wake.1 == old(self).wakes_send(),
            *final(self) == old(self).updated(),
            wake.0 == (old(self).has_new_input || old(self).recv_closed),
            wake.1 == old(self).waiting_new_send_window,
            *final(self) == (ConnectionFlags {
                has_new_input: false,
                waiting_new_send_window: false,
                recv_closed: old(self).recv_closed,
            }),
    {
        let wake = (self.has_new_input || self.recv_closed, self.waiting_new_send_window);
        self.has_new_input = false;
        self.waiting_new_send_window = false;
        wake
    }

    /// Input was handed to the engine with this result. Where that went well the engine is
    /// to be updated.
    pub fn after_input(&mut self, result: Result<(), Error>)
        ensures
            *final(self) == old(self).after_new_input(result is Ok),
            *final(self) == (ConnectionFlags {
                has_new_input: old(self).has_new_input || result is Ok,
                ..*old(self)
            }),
    {
        if result.is_ok() {
            self.has_new_input = true;
        }
    }

    /// Stops receiving.
    pub fn close_recv(&mut self)
        ensures
            *final(self) == old(self).after_close(),
            *final(self) == (ConnectionFlags { recv_closed: true, ..*old(self) }),
    {
        self.recv_closed = true;
    }

    /// The send task starts to wait for room.
    pub fn wait_for_window(&mut self)
        ensures
            *final(self) == old(self).after_wait(),
            *final(self) == (ConnectionFlags { waiting_new_send_window: true, ..*old(self) }),
    {
        self.waiting_new_send_window = true;
    }
}

/// What is done next about a message.
#[derive(Clone, Copy, Debug, PartialEq, Eq, Structural)]
pub enum SendAction {
    /// Wait until the engine has made room.
    WaitWindow,
    /// Hand the bytes from `start` up to `end` to the engine.
    Send { start: usize, end: usize },
    /// The message is done with.
    Done,
}

/// Whether the engine, with `waitsnd` segments waiting, takes more: it does while no more
/// than two windows wait.
pub open spec fn has_room(waitsnd: i32, sndwnd: i32) -> bool {
    waitsnd <= 2 * sndwnd
}

/// One message on its way into the engine, in chunks of `max_chunk` bytes.
#[derive(Clone, Copy, Debug)]
pub struct MessageSend {
    len: usize,
    max_chunk: usize,
    pos: usize,
}

impl MessageSend {
    pub closed spec fn spec_len(&self) -> nat {
        self.len as nat
    }

    pub closed spec fn spec_max_chunk(&self) -> nat {
        self.max_chunk as nat
    }

    /// How many bytes are done with.
    pub closed spec fn spec_pos(&self) -> nat {
        self.pos as nat
    }

    #[verifier::type_invariant]
    closed spec fn within_message(self) -> bool {
        self.pos <= self.len && self.max_chunk > 0
    }

    /// Starts on a message of `len` bytes.
    pub fn new(len: usize, max_chunk: usize) -> (message: Self)
        requires
            max_chunk > 0,
        ensures
            message.spec_len() == len,
            message.spec_max_chunk() == max_chunk,
            message.spec_pos() == 0,
    {
        MessageSend { len, max_chunk, pos: 0 }
    }

    fn chunk_end(&self) -> (end: usize)
        requires
            self.spec_pos() <= self.spec_len(),
        ensures
            end == chunk_end(self.spec_len(), self.spec_max_chunk(), self.spec_pos()),
    {
        if self.len - self.pos <= self.max_chunk {
            self.len
        } else {
            self.pos + self.max_chunk
        }
    }

    /// Decides what to do when the engine has `waitsnd` segments waiting and a window of
    /// `sndwnd`.
    pub fn next(&self, waitsnd: i32, sndwnd: i32) -> (action: SendAction)
        requires
            i32::MIN <= 2 * sndwnd <= i32::MAX,
        ensures
            self.spec_pos() <= self.spec_len() <= usize::MAX,
            self.spec_max_chunk() > 0,
            action == (if self.spec_pos() == self.spec_len() {
                SendAction::Done
            } else if has_room(waitsnd, sndwnd) {
                SendAction::Send {
                    start: self.spec_pos() as usize,
                    end: chunk_end(
                        self.spec_len(),
                        self.spec_max_chunk(),
                        self.spec_pos(),
                    ) as usize,
                }
            } else {
                SendAction::WaitWindow
            }),
    {
        proof {
            use_type_invariant(self);
        }
        if self.pos == self.len {
            SendAction::Done
        } else if waitsnd > 2 * sndwnd {
            SendAction::WaitWindow
        } else {
            SendAction::Send { start: self.pos, end: self.chunk_end() }
        }
    }

    /// The chunk was handed to the engine with this result. Where that failed the rest of
    /// the message is given up.
    pub fn sent(&mut self, result: Result<usize, Error>)
        ensures
            final(self).spec_len() == old(self).spec_len(),
            final(self).spec_max_chunk() == old(self).spec_max_chunk(),
            final(self).spec_pos() <= final(self).spec_len() <= usize::MAX,
            final(self).spec_max_chunk() > 0,
            final(self).spec_pos() == (if result is Ok {
                chunk_end(
                    old(self).spec_len(),
                    old(self).spec_max_chunk(),
                    old(self).spec_pos(),
                )
            } else {
                old(self).spec_len() as int
            }),
    {
        proof {
            use_type_invariant(&*self);
        }
        self.pos = if result.is_ok() {
            self.chunk_end()
        } else {
            self.len
        };
    }
}

/// The mathematical content of a [`MessageSend`].
pub struct MessageState {
    pub len: nat,
    pub max_chunk: nat,
    /// How many bytes are done with.
    pub pos: nat,
}

impl View for MessageSend {
    type V = MessageState;

    open spec fn view(&self) -> MessageState {
        MessageState {
            len: self.spec_len(),
            max_chunk: self.spec_max_chunk(),
            pos: self.spec_pos(),
        }
    }
}

/// What happened to the send task since its last action.
#[derive(Clone, Copy, Debug, PartialEq, Eq)]
pub enum SendEvent {
    /// Nothing yet.
    Started,
    /// A message of `len` bytes came out of the channel.
    Received { len: usize, max_chunk: usize },
    /// The channel is empty and all its senders are gone.
    Ended,
    /// The engine has `waitsnd` segments waiting and a window of `sndwnd`.
    Room { waitsnd: i32, sndwnd: i32 },
    /// The engine has `waitsnd` segments waiting.
    Waiting { waitsnd: i32 },
    /// The engine was updated since the wait for it began.
    Woken,
    /// The chunk was handed to the engine with this result.
    Sent { result: Result<usize, Error> },
}

/// What the send task does next.
#[derive(Clone, Copy, Debug, PartialEq, Eq, Structural)]
pub enum SendTaskAction {
    /// Wait for the channel to have a message or to end.
    Receive,
    /// Ask the engine what waits in it and for its window.
    AskRoom,
    /// Ask the engine what waits in it.
    AskWaiting,
    /// Wait until the engine has made room.
    WaitWindow,
    /// Hand the bytes of the message from `start` up to `end` to the engine.
    Send { start: usize, end: usize },
    /// Announce that the send side is closed.
    AnnounceClose,
    /// There is nothing left to do.
    Stop,
}

/// The mathematical content of a [`SendTask`].
pub struct SendState {
    /// The message that is on its way into the engine.
    pub message: Option<MessageState>,
    /// Whether the channel has ended.
    pub ended: bool,
    /// Whether the close was announced.
    pub announced: bool,
}

impl SendState {
    /// Nothing was received yet.
    pub open spec fn fresh() -> Self {
        SendState { message: None, ended: false, announced: false }
    }

    /// Whether a message that is on its way is not done with.
    pub open spec fn well_formed(self) -> bool {
        self.message matches Some(m) ==> m.pos < m.len <= usize::MAX && m.max_chunk > 0
    }

    /// The state after `event`. An event that nobody asked for changes nothing.
    pub open spec fn after(self, event: SendEvent) -> Self {
        match (self.message, event) {
            (None, SendEvent::Received { len, max_chunk }) if !self.ended && len > 0 => SendState {
                message: Some(
                    MessageState { len: len as nat, max_chunk: max_chunk as nat, pos: 0 },
                ),
                ..self
            },
            (None, SendEvent::Ended) => SendState { ended: true, ..self },
            (None, SendEvent::Waiting { waitsnd }) if self.ended && waitsnd <= 0 => SendState {
                announced: true,
                ..self
            },
            (Some(m), SendEvent::Sent { result }) => {
                let pos = if result is Ok {
                    chunk_end(m.len, m.max_chunk, m.pos) as nat
                } else {
                    m.len
                };
                SendState {
                    message: if pos < m.len {
                        Some(MessageState { pos, ..m })
                    } else {
                        None
                    },
                    ..self
                }
            },
            _ => self,
        }
    }

    /// What to do after `event`.
    pub open spec fn action(self, event: SendEvent) -> SendTaskAction {
        let next = self.after(event);
        if self.announced {
            SendTaskAction::Stop
        } else if next.announced {
            SendTaskAction::AnnounceClose
        } else {
            match (next.message, event) {
                (Some(m), SendEvent::Room { waitsnd, sndwnd }) => if has_room(waitsnd, sndwnd) {
                    SendTaskAction::Send {
                        start: m.pos as usize,
                        end: chunk_end(m.len, m.max_chunk, m.pos) as usize,
                    }
                } else {
                    SendTaskAction::WaitWindow
                },
                (Some(_), _) => SendTaskAction::AskRoom,
                (None, _) if !next.ended => SendTaskAction::Receive,
                (None, SendEvent::Waiting { .. }) => SendTaskAction::WaitWindow,
                (None, _) => SendTaskAction::AskWaiting,
            }
        }
    }

    /// The state after all of `events`.
    pub open spec fn after_all(self, events: Seq<SendEvent>) -> Self
        decreases events.len(),
    {
        if events.len() == 0 {
            self
        } else {
            self.after_all(events.drop_last()).after(events.last())
        }
    }

    /// How many bytes of the message are not done with.
    pub open spec fn left(self) -> int {
        match self.message {
            Some(m) => m.len - m.pos,
            None => 0,
        }
    }

    /// How many bytes `event` brings in.
    pub open spec fn taken_by(self, event: SendEvent) -> int {
        match event {
            SendEvent::Received { len, .. } if self.message is None && !self.ended => len as int,
            _ => 0,
        }
    }

    /// How many bytes the engine has taken, as `event` says.
    pub open spec fn handed_by(self, event: SendEvent) -> int {
        match (self.message, event) {
            (Some(m), SendEvent::Sent { result: Ok(_) }) => chunk_end(m.len, m.max_chunk, m.pos)
                - m.pos,
            _ => 0,
        }
    }

    /// How many bytes are given up because the engine refused a chunk, as `event` says.
    pub open spec fn given_up_by(self, event: SendEvent) -> int {
        match (self.message, event) {
            (Some(m), SendEvent::Sent { result: Err(_) }) => m.len - m.pos,
            _ => 0,
        }
    }

    /// How many bytes all of `events` bring in.
    pub open spec fn taken(self, events: Seq<SendEvent>) -> int
        decreases events.len(),
    {
        if events.len() == 0 {
            0
        } else {
            self.taken(events.drop_last()) + self.after_all(events.drop_last()).taken_by(
                events.last(),
            )
        }
    }

    /// How many bytes the engine takes in the course of `events`.
    pub open spec fn handed(self, events: Seq<SendEvent>) -> int
        decreases events.len(),
    {
        if events.len() == 0 {
            0
        } else {
            self.handed(events.drop_last()) + self.after_all(events.drop_last()).handed_by(
                events.last(),
            )
        }
    }

    /// How many bytes are given up in the course of `events`.
    pub open spec fn given_up(self, events: Seq<SendEvent>) -> int
        decreases events.len(),
    {
        if events.len() == 0 {
            0
        } else {
            self.given_up(events.drop_last()) + self.after_all(events.drop_last()).given_up_by(
                events.last(),
            )
        }
    }
}

/// Whether a message that came out of the channel can be cut into chunks at all.
pub open spec fn sensible(event: SendEvent) -> bool {
    event matches SendEvent::Received { max_chunk, .. } ==> max_chunk > 0
}

/// The send side of a connection: takes message after message out of the channel and hands it
/// to the engine chunk by chunk, and once the channel has ended waits for the peer to take
/// what is left in the engine and announces the close.
#[derive(Debug)]
pub struct SendTask {
    message: Option<MessageSend>,
    ended: bool,
    announced: bool,
}

impl View for SendTask {
    type V = SendState;

    closed spec fn view(&self) -> SendState {
        SendState {
            message: match self.message {
                Some(message) => Some(message@),
                None => None,
            },
            ended: self.ended,
            announced: self.announced,
        }
    }
}

impl SendTask {
    #[verifier::type_invariant]
    closed spec fn message_not_done(self) -> bool {
        self@.well_formed()
    }

    pub fn new() -> (task: Self)
        ensures
            task@ == SendState::fresh(),
    {
        SendTask { message: None, ended: false, announced: false }
    }

    /// Decides what to do after `event`.
    pub fn step(&mut self, event: SendEvent) -> (action: SendTaskAction)
        requires
            sensible(event),
            event matches SendEvent::Room { sndwnd, .. } ==> i32::MIN <= 2 * sndwnd <= i32::MAX,
        ensures
            final(self)@ == old(self)@.after(event),
            final(self)@.well_formed(),
            action == old(self)@.action(event),
    {
        proof {
            use_type_invariant(&*self);
        }
        let was_announced = self.announced;
        match (self.message, event) {
            (None, SendEvent::Received { len, max_chunk }) => {
                if !self.ended && len > 0 {
                    self.message = Some(MessageSend::new(len, max_chunk));
                }
            },
            (None, SendEvent::Ended) => {
                self.ended = true;
            },
            (None, SendEvent::Waiting { waitsnd }) => {
                if self.ended && is_drained(waitsnd) {
                    self.announced = true;
                }
            },
            (Some(message), SendEvent::Sent { result }) => {
                let mut message = message;
                message.sent(result);
                self.message = if message.pos < message.len {
                    Some(message)
                } else {
                    None
                };
            },
            _ => {},
        }
        if was_announced {
            return SendTaskAction::Stop;
        }
        if self.announced {
            return SendTaskAction::AnnounceClose;
        }
        match (self.message, event) {
            (Some(message), SendEvent::Room { waitsnd, sndwnd }) => {
                match message.next(waitsnd, sndwnd) {
                    SendAction::Send { start, end } => SendTaskAction::Send { start, end },
                    _ => SendTaskAction::WaitWindow,
                }
            },
            (Some(_), _) => SendTaskAction::AskRoom,
            (None, SendEvent::Waiting { .. }) => {
                if self.ended {
                    SendTaskAction::WaitWindow
                } else {
                    SendTaskAction::Receive
                }
            },
            (None, _) => {
                if self.ended {
                    SendTaskAction::AskWaiting
                } else {
                    SendTaskAction::Receive
                }
            },
        }
    }
}

/// A chunk goes to the engine only at a moment when no more than two windows wait in it. It is
/// the next one of the message, and neither empty nor longer than allowed.
pub proof fn chunks_go_out_in_turn(state: SendState, event: SendEvent)
    requires
        state.well_formed(),
        sensible(event),
    ensures
        state.action(event) matches SendTaskAction::Send { start, end } ==> {
            &&& event matches SendEvent::Room { waitsnd, sndwnd } && has_room(waitsnd, sndwnd)
                && waitsnd <= 2 * sndwnd
            &&& state.message matches Some(m) && start == m.pos && end == chunk_end(
                m.len,
                m.max_chunk,
                m.pos,
            ) && 0 < end - start <= m.max_chunk && end <= m.len
        },
{
}

/// The close is announced only once the channel has ended, the last message is done with and
/// nothing waits in the engine, and no more than once.
pub proof fn close_comes_last(state: SendState, event: SendEvent)
    ensures
        state.action(event) == SendTaskAction::AnnounceClose ==> {
            &&& state.ended
            &&& state.message is None
            &&& event matches SendEvent::Waiting { waitsnd } && waitsnd <= 0
            &&& !state.announced
            &&& state.after(event).announced
        },
        state.announced ==> state.after(event).announced && state.action(event)
            == SendTaskAction::Stop,
{
}

/// Once the channel has ended it stays so, and nothing more is taken out of it. Until then
/// every message that is asked for is taken.
pub proof fn messages_are_taken_until_the_end(state: SendState, event: SendEvent)
    ensures
        state.ended ==> state.after(event).ended && state.taken_by(event) == 0,
        state.action(event) == SendTaskAction::Receive ==> state.after(event).message is None
            && !state.after(event).ended,
{
}

/// No byte is lost on the way: whatever happens, what was taken out of the channel was handed
/// to the engine, was given up because the engine refused it, or is left.
pub proof fn every_byte_is_accounted_for(events: Seq<SendEvent>)
    requires
        forall|i: int| 0 <= i < events.len() ==> sensible(#[trigger] events[i]),
    ensures
        SendState::fresh().after_all(events).well_formed(),
        SendState::fresh().taken(events) == SendState::fresh().handed(events)
            + SendState::fresh().given_up(events) + SendState::fresh().after_all(events).left(),
    decreases events.len(),
{
    if events.len() > 0 {
        assert forall|i: int| 0 <= i < events.drop_last().len() implies sensible(
            #[trigger] events.drop_last()[i],
        ) by {
            assert(events.drop_last()[i] == events[i]);
        }
        every_byte_is_accounted_for(events.drop_last());
        assert(sensible(events[events.len() - 1]));
    }
}

/// Whether the engine took every chunk that it was handed in the course of `events`.
pub open spec fn none_refused(events: Seq<SendEvent>) -> bool {
    forall|i: int|
        0 <= i < events.len() ==> (#[trigger] events[i] matches SendEvent::Sent { result }
            ==> result is Ok)
}

/// Nothing is given up unless the engine refuses a chunk.
proof fn nothing_is_given_up_unrefused(events: Seq<SendEvent>)
    requires
        none_refused(events),
    ensures
        SendState::fresh().given_up(events) == 0,
    decreases events.len(),
{
    if events.len() > 0 {
        assert forall|i: int| 0 <= i < events.drop_last().len() implies (
        #[trigger] events.drop_last()[i] matches SendEvent::Sent { result } ==> result is Ok) by {
            assert(events.drop_last()[i] == events[i]);
        }
        nothing_is_given_up_unrefused(events.drop_last());
        assert(events[events.len() - 1] == events.last());
    }
}

/// The channel counts as ended only after it was reported so.
proof fn end_was_reported(events: Seq<SendEvent>)
    ensures
        SendState::fresh().after_all(events).ended ==> events.contains(SendEvent::Ended),
    decreases events.len(),
{
    if events.len() > 0 {
        end_was_reported(events.drop_last());
        if events.drop_last().contains(SendEvent::Ended) {
            let i = choose|i: int|
                0 <= i < events.drop_last().len() && events.drop_last()[i] == SendEvent::Ended;
            assert(events[i] == SendEvent::Ended);
        }
        assert(events[events.len() - 1] == events.last());
    }
}

/// The order in which a send side closes, whatever happened to it: when the close is
/// announced, all senders are gone, every byte that was taken out of the channel was handed to
/// the engine unless the engine refused it, and the peer has taken all that was handed over.
pub proof fn close_is_announced_after_everything(events: Seq<SendEvent>, last: SendEvent)
    requires
        forall|i: int| 0 <= i < events.len() ==> sensible(#[trigger] events[i]),
        SendState::fresh().after_all(events).action(last) == SendTaskAction::AnnounceClose,
    ensures
        events.contains(SendEvent::Ended),
        SendState::fresh().taken(events) == SendState::fresh().handed(events)
            + SendState::fresh().given_up(events),
        none_refused(events) ==> SendState::fresh().taken(events) == SendState::fresh().handed(
            events,
        ),
        last matches SendEvent::Waiting { waitsnd } && waitsnd <= 0,
{
    every_byte_is_accounted_for(events);
    end_was_reported(events);
    if none_refused(events) {
        nothing_is_given_up_unrefused(events);
    }
    close_comes_last(SendState::fresh().after_all(events), last);
}

/// The bytes of the message that was last taken, in the course of `events`. Where `events[i]`
/// brings a message, `contents[i]` holds its bytes.
pub open spec fn message_bytes(events: Seq<SendEvent>, contents: Seq<Seq<u8>>) -> Seq<u8>
    decreases events.len(),
{
    if events.len() == 0 {
        Seq::empty()
    } else if SendState::fresh().after_all(events.drop_last()).taken_by(events.last()) > 0 {
        contents.last()
    } else {
        message_bytes(events.drop_last(), contents.drop_last())
    }
}

/// All messages that are taken in the course of `events`, after each other.
pub open spec fn taken_bytes(events: Seq<SendEvent>, contents: Seq<Seq<u8>>) -> Seq<u8>
    decreases events.len(),
{
    if events.len() == 0 {
        Seq::empty()
    } else {
        let before = taken_bytes(events.drop_last(), contents.drop_last());
        if SendState::fresh().after_all(events.drop_last()).taken_by(events.last()) > 0 {
            before + contents.last()
        } else {
            before
        }
    }
}

/// All ranges of messages that the engine takes in the course of `events`, after each other.
pub open spec fn handed_bytes(events: Seq<SendEvent>, contents: Seq<Seq<u8>>) -> Seq<u8>
    decreases events.len(),
{
    if events.len() == 0 {
        Seq::empty()
    } else {
        let before = handed_bytes(events.drop_last(), contents.drop_last());
        match (SendState::fresh().after_all(events.drop_last()).message, events.last()) {
            (Some(m), SendEvent::Sent { result: Ok(_) }) => before + message_bytes(
                events.drop_last(),
                contents.drop_last(),
            ).subrange(m.pos as int, chunk_end(m.len, m.max_chunk, m.pos)),
            _ => before,
        }
    }
}

/// What is left of the message that is on its way after `events`.
pub open spec fn left_bytes(events: Seq<SendEvent>, contents: Seq<Seq<u8>>) -> Seq<u8> {
    match SendState::fresh().after_all(events).message {
        Some(m) => message_bytes(events, contents).skip(m.pos as int),
        None => Seq::empty(),
    }
}

/// Whether `contents` has the bytes of every message that `events` bring.
pub open spec fn has_contents(events: Seq<SendEvent>, contents: Seq<Seq<u8>>) -> bool {
    &&& contents.len() == events.len()
    &&& forall|i: int|
        0 <= i < events.len() ==> (#[trigger] events[i] matches SendEvent::Received { len, .. }
            ==> contents[i].len() == len)
}

/// The engine is handed the messages themselves, in order: as long as it refuses nothing,
/// what it was handed and what is left of the message on its way, after each other, are the
/// messages that were taken, after each other.
pub proof fn messages_are_handed_over_in_order(events: Seq<SendEvent>, contents: Seq<Seq<u8>>)
    requires
        forall|i: int| 0 <= i < events.len() ==> sensible(#[trigger] events[i]),
        has_contents(events, contents),
        none_refused(events),
    ensures
        taken_bytes(events, contents) == handed_bytes(events, contents) + left_bytes(
            events,
            contents,
        ),
        SendState::fresh().after_all(events).message matches Some(m) ==> message_bytes(
            events,
            contents,
        ).len() == m.len,
    decreases events.len(),
{
    if events.len() == 0 {
        assert(taken_bytes(events, contents) =~= handed_bytes(events, contents) + left_bytes(
            events,
            contents,
        ));
    } else {
        let (earlier, told) = (events.drop_last(), contents.drop_last());
        assert forall|i: int| 0 <= i < earlier.len() implies sensible(#[trigger] earlier[i]) by {
            assert(earlier[i] == events[i]);
        }
        assert(has_contents(earlier, told)) by {
            assert forall|i: int| 0 <= i < earlier.len() implies (
            #[trigger] earlier[i] matches SendEvent::Received { len, .. } ==> told[i].len()
                == len) by {
                assert(earlier[i] == events[i]);
            }
        }
        assert(none_refused(earlier)) by {
            assert forall|i: int| 0 <= i < earlier.len() implies (
            #[trigger] earlier[i] matches SendEvent::Sent { result } ==> result is Ok) by {
                assert(earlier[i] == events[i]);
            }
        }
        messages_are_handed_over_in_order(earlier, told);
        every_byte_is_accounted_for(earlier);
        let last = events[events.len() - 1];
        assert(sensible(last));
        let state = SendState::fresh().after_all(earlier);
        if let Some(m) = state.message {
            let bytes = message_bytes(earlier, told);
            let end = chunk_end(m.len, m.max_chunk, m.pos);
            assert(bytes.subrange(m.pos as int, end) + bytes.skip(end) =~= bytes.skip(
                m.pos as int,
            ));
            assert(bytes.skip(m.len as int) =~= Seq::<u8>::empty());
        }
        assert(contents.last() == contents[events.len() - 1]);
        assert(contents.last().skip(0) =~= contents.last());
        assert(taken_bytes(events, contents) =~= handed_bytes(events, contents) + left_bytes(
            events,
            contents,
        ));
    }
}

/// When the close of a send side is announced and the engine has refused nothing, the engine
/// was handed exactly the messages that were taken, in order.
pub proof fn close_follows_all_messages(
    events: Seq<SendEvent>,
    contents: Seq<Seq<u8>>,
    last: SendEvent,
)
    requires
        forall|i: int| 0 <= i < events.len() ==> sensible(#[trigger] events[i]),
        has_contents(events, contents),
        none_refused(events),
        SendState::fresh().after_all(events).action(last) == SendTaskAction::AnnounceClose,
    ensures
        handed_bytes(events, contents) == taken_bytes(events, contents),
{
    messages_are_handed_over_in_order(events, contents);
    close_comes_last(SendState::fresh().after_all(events), last);
    assert(handed_bytes(events, contents) + Seq::<u8>::empty() =~= handed_bytes(events, contents));
}

/// Where the chunk that starts at `pos` ends.
pub open spec fn chunk_end(len: nat, max_chunk: nat, pos: nat) -> int {
    least((pos + max_chunk) as int, len as int)
}

/// The chunks that `data` is cut into from `pos` on.
pub open spec fn chunks_from(data: Seq<u8>, max_chunk: nat, pos: nat) -> Seq<Seq<u8>>
    decreases data.len() - pos,
{
    if pos >= data.len() || max_chunk == 0 {
        Seq::empty()
    } else {
        let end = chunk_end(data.len(), max_chunk, pos);
        seq![data.subrange(pos as int, end)] + chunks_from(data, max_chunk, end as nat)
    }
}

/// All chunks after each other.
pub open spec fn joined(chunks: Seq<Seq<u8>>) -> Seq<u8>
    decreases chunks.len(),
{
    if chunks.len() == 0 {
        Seq::empty()
    } else {
        chunks[0] + joined(chunks.skip(1))
    }
}

/// Cutting a message into chunks loses nothing and changes nothing: the chunks after each
/// other are the message, and none of them is empty or longer than allowed.
pub proof fn chunks_make_up_the_message(data: Seq<u8>, max_chunk: nat, pos: nat)
    requires
        max_chunk > 0,
        pos <= data.len(),
    ensures
        joined(chunks_from(data, max_chunk, pos)) == data.skip(pos as int),
        forall|i: int|
            0 <= i < chunks_from(data, max_chunk, pos).len() ==> 0 < (#[trigger] chunks_from(
                data,
                max_chunk,
                pos,
            )[i]).len() <= max_chunk,
    decreases data.len() - pos,
{
    let chunks = chunks_from(data, max_chunk, pos);
    if pos < data.len() {
        let end = chunk_end(data.len(), max_chunk, pos);
        let rest = chunks_from(data, max_chunk, end as nat);
        chunks_make_up_the_message(data, max_chunk, end as nat);
        assert(chunks.skip(1) =~= rest);
        assert(chunks[0] == data.subrange(pos as int, end));
        assert(data.subrange(pos as int, end) + data.skip(end) =~= data.skip(pos as int));
        assert forall|i: int| 0 <= i < chunks.len() implies 0 < (#[trigger] chunks[i]).len()
            <= max_chunk by {
            if i > 0 {
                assert(chunks[i] == rest[i - 1]);
            }
        }
    } else {
        assert(data.skip(pos as int) =~= Seq::<u8>::empty());
    }
}

/// An idle engine takes more whatever its window is, as long as that is not negative: flow
/// control never stalls a connection on which nothing waits.
pub proof fn idle_engine_has_room(sndwnd: i32)
    requires
        sndwnd >= 0,
    ensures
        has_room(0, sndwnd),
{
}

/// Whether all that was sent has been taken by the peer, so that the connection can be
/// closed.
pub fn is_drained(waitsnd: i32) -> (drained: bool)
    ensures
        drained == (waitsnd <= 0),
{
    waitsnd <= 0
}

/// The least room that the receive task asks for when it has too little.
pub const RECV_RESERVE: usize = 4096;

/// What is done about what the engine has.
#[derive(Clone, Copy, Debug, PartialEq, Eq, Structural)]
pub enum RecvAction {
    /// Wait until the engine has something.
    Wait,
    /// Take what the engine has, after making room for `reserve` more bytes. Nothing more
    /// is needed where that is zero.
    Read { reserve: usize },
}

/// Decides what to do when the next message in the engine has `peeksize` bytes, where a
/// negative size stands for no message, and the buffer has room for `capacity` bytes.
pub fn recv_action(peeksize: i32, capacity: usize) -> (action: RecvAction)
    ensures
        action == (if peeksize < 0 {
            RecvAction::Wait
        } else {
            RecvAction::Read { reserve: recv_reserve(peeksize, capacity) }
        }),
{
    if peeksize < 0 {
        return RecvAction::Wait;
    }
    let size = peeksize as usize;
    let needed = if size >= 1 {
        size
    } else {
        1
    };
    if capacity < needed {
        let reserve = if size >= RECV_RESERVE {
            size
        } else {
            RECV_RESERVE
        };
        RecvAction::Read { reserve }
    } else {
        RecvAction::Read { reserve: 0 }
    }
}

/// Whether a message of `len` bytes that came out of the engine is passed on. One without
/// bytes, which only forged input leads to, is dropped: passing it on would look like the
/// end of the stream, and leaving it in the engine would block what follows.
pub fn is_passed_on(len: usize) -> (yes: bool)
    ensures
        yes == (len > 0),
{
    len > 0
}

/// What happened to the receive task since its last action.
#[derive(Clone, Copy, Debug, PartialEq, Eq)]
pub enum RecvEvent {
    /// Nothing yet.
    Started,
    /// Receiving is closed, or is not.
    Checked { closed: bool },
    /// The next message in the engine has `peeksize` bytes, where a negative size stands for
    /// no message, and the buffer has room for `capacity` bytes.
    Peeked { peeksize: i32, capacity: usize },
    /// The engine was updated, or receiving was closed, since the wait for it began.
    Woken,
    /// The message was read into the buffer with this result, its length.
    Read { result: Result<usize, Error> },
    /// The message was passed on, and the reader has taken it or is gone.
    PassedOn { taken: bool },
}

/// What the receive task does next.
#[derive(Clone, Copy, Debug, PartialEq, Eq, Structural)]
pub enum RecvTaskAction {
    /// See whether receiving is closed.
    CheckClosed,
    /// See what the engine has.
    Peek,
    /// Wait until the engine has something.
    Wait,
    /// Make room for `reserve` more bytes, where that is not zero, and read the message.
    Read { reserve: usize },
    /// Pass the message on to the reader.
    PassOn,
    /// There is nothing left to do.
    Stop,
}

/// Where the receive task is in its round.
#[derive(Clone, Copy, Debug, PartialEq, Eq, Structural)]
pub enum RecvPhase {
    /// About to learn whether receiving is closed.
    Checking,
    /// About to learn what the engine has.
    Looking,
    /// Waiting for the engine.
    Waiting,
    /// Reading a message.
    Reading,
    /// Passing a message on.
    Passing,
    /// Done.
    Stopped,
}

/// How many bytes to make room for before a message of `peeksize` bytes is read.
pub open spec fn recv_reserve(peeksize: i32, capacity: usize) -> usize {
    if capacity < greatest(peeksize as int, 1) {
        greatest(peeksize as int, RECV_RESERVE as int) as usize
    } else {
        0
    }
}

impl RecvPhase {
    /// The phase after `event`. An event that nobody asked for starts the round anew.
    pub open spec fn after(self, event: RecvEvent) -> Self {
        match (self, event) {
            (RecvPhase::Stopped, _) => RecvPhase::Stopped,
            (RecvPhase::Checking, RecvEvent::Checked { closed }) => if closed {
                RecvPhase::Stopped
            } else {
                RecvPhase::Looking
            },
            (RecvPhase::Looking, RecvEvent::Peeked { peeksize, .. }) => if peeksize < 0 {
                RecvPhase::Waiting
            } else {
                RecvPhase::Reading
            },
            (RecvPhase::Reading, RecvEvent::Read { result: Ok(len) }) if len > 0 =>
                RecvPhase::Passing,
            (RecvPhase::Passing, RecvEvent::PassedOn { taken: false }) => RecvPhase::Stopped,
            _ => RecvPhase::Checking,
        }
    }

    /// What to do after `event`.
    pub open spec fn action(self, event: RecvEvent) -> RecvTaskAction {
        match (self.after(event), event) {
            (RecvPhase::Checking, _) => RecvTaskAction::CheckClosed,
            (RecvPhase::Looking, _) => RecvTaskAction::Peek,
            (RecvPhase::Waiting, _) => RecvTaskAction::Wait,
            (RecvPhase::Reading, RecvEvent::Peeked { peeksize, capacity }) =>
                RecvTaskAction::Read { reserve: recv_reserve(peeksize, capacity) },
            (RecvPhase::Passing, _) => RecvTaskAction::PassOn,
            _ => RecvTaskAction::Stop,
        }
    }

    /// The phase after all of `events`.
    pub open spec fn after_all(self, events: Seq<RecvEvent>) -> Self
        decreases events.len(),
    {
        if events.len() == 0 {
            self
        } else {
            self.after_all(events.drop_last()).after(events.last())
        }
    }
}

/// The receive side of a connection: takes message after message out of the engine and passes
/// it on, until receiving is closed or the reader is gone.
#[derive(Debug)]
pub struct RecvTask {
    phase: RecvPhase,
}

impl View for RecvTask {
    type V = RecvPhase;

    closed spec fn view(&self) -> RecvPhase {
        self.phase
    }
}

impl RecvTask {
    pub fn new() -> (task: Self)
        ensures
            task@ == RecvPhase::Checking,
    {
        RecvTask { phase: RecvPhase::Checking }
    }

    /// Decides what to do after `event`.
    pub fn step(&mut self, event: RecvEvent) -> (action: RecvTaskAction)
        ensures
            final(self)@ == old(self)@.after(event),
            action == old(self)@.action(event),
    {
        let (phase, action) = match (self.phase, event) {
            (RecvPhase::Stopped, _) => (RecvPhase::Stopped, RecvTaskAction::Stop),
            (RecvPhase::Checking, RecvEvent::Checked { closed }) => {
                if closed {
                    (RecvPhase::Stopped, RecvTaskAction::Stop)
                } else {
                    (RecvPhase::Looking, RecvTaskAction::Peek)
                }
            },
            (RecvPhase::Looking, RecvEvent::Peeked { peeksize, capacity }) => {
                match recv_action(peeksize, capacity) {
                    RecvAction::Wait => (RecvPhase::Waiting, RecvTaskAction::Wait),
                    RecvAction::Read { reserve } => (
                        RecvPhase::Reading,
                        RecvTaskAction::Read { reserve },
                    ),
                }
            },
            (RecvPhase::Reading, RecvEvent::Read { result: Ok(len) }) => {
                if is_passed_on(len) {
                    (RecvPhase::Passing, RecvTaskAction::PassOn)
                } else {
                    (RecvPhase::Checking, RecvTaskAction::CheckClosed)
                }
            },
            (RecvPhase::Passing, RecvEvent::PassedOn { taken }) => {
                if taken {
                    (RecvPhase::Checking, RecvTaskAction::CheckClosed)
                } else {
                    (RecvPhase::Stopped, RecvTaskAction::Stop)
                }
            },
            _ => (RecvPhase::Checking, RecvTaskAction::CheckClosed),
        };
        self.phase = phase;
        action
    }
}

/// Nothing is passed on once receiving was seen to be closed, or once the reader was gone:
/// whatever happens afterwards, the task stays stopped.
pub proof fn nothing_is_passed_on_after_the_end(
    phase: RecvPhase,
    end: RecvEvent,
    events: Seq<RecvEvent>,
    last: RecvEvent,
)
    requires
        phase == RecvPhase::Stopped || (phase == RecvPhase::Checking && end == (
        RecvEvent::Checked { closed: true })) || (phase == RecvPhase::Passing && end == (
        RecvEvent::PassedOn { taken: false })),
    ensures
        phase.action(end) == RecvTaskAction::Stop,
        phase.after(end).after_all(events) == RecvPhase::Stopped,
        phase.after(end).after_all(events).action(last) == RecvTaskAction::Stop,
    decreases events.len(),
{
    if events.len() > 0 {
        nothing_is_passed_on_after_the_end(phase, end, events.drop_last(), last);
    }
}

/// A message is passed on only in a round that began by seeing that receiving is not closed:
/// that, a look at the engine that found a message, and the reading of it, which gave at least
/// one byte, are the last things that happened.
pub proof fn only_open_receivers_pass_on(events: Seq<RecvEvent>, last: RecvEvent)
    requires
        RecvPhase::Checking.after_all(events).action(last) == RecvTaskAction::PassOn,
    ensures
        events.len() >= 2,
        events[events.len() - 2] == (RecvEvent::Checked { closed: false }),
        events[events.len() - 1] matches RecvEvent::Peeked { peeksize, .. } && peeksize >= 0,
        last matches RecvEvent::Read { result: Ok(len) } && len > 0,
{
    reveal_with_fuel(RecvPhase::after_all, 3);
    assert(RecvPhase::Checking.after_all(events) == RecvPhase::Reading);
    assert(events.len() > 0);
    let earlier = events.drop_last();
    assert(RecvPhase::Checking.after_all(earlier) == RecvPhase::Looking);
    assert(earlier.len() > 0);
    assert(earlier.last() == events[events.len() - 2]);
}

/// A message without bytes, and one that could not be read, are followed by another look at
/// the engine, unless receiving was closed meanwhile: they neither block what follows nor end
/// the stream. So is a wait, and so is a message that the reader took.
pub proof fn receiving_goes_on(phase: RecvPhase, event: RecvEvent)
    requires
        (phase == RecvPhase::Reading && (event == (RecvEvent::Read { result: Ok(0) }) || (
        event matches RecvEvent::Read { result } && result is Err))) || (phase
            == RecvPhase::Waiting && event == RecvEvent::Woken) || (phase == RecvPhase::Passing
            && event == (RecvEvent::PassedOn { taken: true })),
    ensures
        phase.action(event) == RecvTaskAction::CheckClosed,
        phase.after(event).action(RecvEvent::Checked { closed: false }) == RecvTaskAction::Peek,
        phase.after(event).action(RecvEvent::Checked { closed: true }) == RecvTaskAction::Stop,
{
}

/// Every message that was read is passed on, unless it has no bytes.
pub proof fn what_is_read_is_passed_on(phase: RecvPhase, len: usize)
    requires
        phase == RecvPhase::Reading,
        len > 0,
    ensures
        phase.action(RecvEvent::Read { result: Ok(len) }) == RecvTaskAction::PassOn,
{
}

/// No wake-up is lost and none comes for nothing: input that the engine took wakes up the
/// receive task, a wait for room wakes up the send task, and each does so once; closed
/// receiving wakes up the receive task at every update. Input that the engine refused, and
/// events that concern the other task, change nothing about it.
pub proof fn wake_ups_are_not_lost(flags: ConnectionFlags, taken: bool)
    ensures
        !ConnectionFlags::quiet().wakes_recv() && !ConnectionFlags::quiet().wakes_send(),
        flags.after_new_input(true).wakes_recv(),
        flags.after_new_input(false) == flags,
        flags.after_new_input(taken).wakes_send() == flags.wakes_send(),
        flags.after_new_input(taken).recv_closed == flags.recv_closed,
        flags.after_wait().wakes_send(),
        flags.after_wait().wakes_recv() == flags.wakes_recv(),
        flags.after_wait().recv_closed == flags.recv_closed,
        flags.after_close().recv_closed,
        flags.after_close().wakes_recv() && flags.after_close().updated().wakes_recv(),
        flags.after_close().wakes_send() == flags.wakes_send(),
        !flags.updated().wakes_send(),
        flags.updated().wakes_recv() <==> flags.recv_closed,
        flags.updated().recv_closed == flags.recv_closed,
        flags.after_new_input(taken).updated() == flags.updated(),
        flags.after_wait().updated() == flags.updated(),
{
}

/// Before a message is read there is room for it, and for one byte at least: either the buffer
/// has it or room is made for it. Room is made only where it is missing, and then for as much as
/// the message needs, but for 4096 bytes at least.
pub proof fn there_is_room_to_read(peeksize: i32, capacity: usize)
    requires
        peeksize >= 0,
    ensures
        ({
            let reserve = recv_reserve(peeksize, capacity);
            &&& capacity >= peeksize || reserve >= peeksize
            &&& capacity >= 1 || reserve >= 1
            &&& reserve > 0 <==> capacity < peeksize || capacity == 0
            &&& reserve > 0 ==> reserve >= 4096 && (reserve == 4096 || reserve == peeksize)
            &&& RecvPhase::Looking.action(RecvEvent::Peeked { peeksize, capacity }) == (
            RecvTaskAction::Read { reserve })
        }),
{
}

/// What a look at the engine leads to: a message is read, and without one the task waits. What
/// the check whether receiving is closed leads to: a look, or the end.
pub proof fn looks_lead_to_reads(event: RecvEvent)
    ensures
        event matches RecvEvent::Peeked { peeksize, .. } ==> {
            &&& RecvPhase::Looking.action(event) is Wait <==> peeksize < 0
            &&& RecvPhase::Looking.action(event) is Read <==> peeksize >= 0
            &&& RecvPhase::Looking.after(event) == (if peeksize < 0 {
                RecvPhase::Waiting
            } else {
                RecvPhase::Reading
            })
        },
        event matches RecvEvent::Checked { closed } ==> {
            &&& RecvPhase::Checking.action(event) == (if closed {
                RecvTaskAction::Stop
            } else {
                RecvTaskAction::Peek
            })
            &&& RecvPhase::Checking.after(event) == (if closed {
                RecvPhase::Stopped
            } else {
                RecvPhase::Looking
            })
        },
        event matches RecvEvent::Read { result: Ok(len) } ==> RecvPhase::Reading.after(event) == (
        if len > 0 {
            RecvPhase::Passing
        } else {
            RecvPhase::Checking
        }),
        event matches RecvEvent::PassedOn { taken } ==> RecvPhase::Passing.action(event) == (
        if taken {
            RecvTaskAction::CheckClosed
        } else {
            RecvTaskAction::Stop
        }),
{
}

/// The receive task stops only where receiving was seen to be closed or the reader is gone.
pub proof fn receiving_stops_only_at_the_end(phase: RecvPhase, event: RecvEvent)
    requires
        phase != RecvPhase::Stopped,
    ensures
        phase.action(event) == RecvTaskAction::Stop <==> (phase == RecvPhase::Checking && event == (
        RecvEvent::Checked { closed: true })) || (phase == RecvPhase::Passing && event == (
        RecvEvent::PassedOn { taken: false })),
        phase.after(event) == RecvPhase::Stopped <==> phase.action(event) == RecvTaskAction::Stop,
{
}

/// Chunks are as long as allowed, up to the last one, which has what is left.
pub proof fn chunks_are_full(len: nat, max_chunk: nat, pos: nat)
    requires
        max_chunk > 0,
        pos < len,
    ensures
        pos < chunk_end(len, max_chunk, pos) <= len,
        chunk_end(len, max_chunk, pos) - pos <= max_chunk,
        chunk_end(len, max_chunk, pos) == len || chunk_end(len, max_chunk, pos) - pos == max_chunk,
{
}

/// The engine takes more exactly while no more than two windows wait in it.
pub proof fn two_windows_may_wait(waitsnd: i32, sndwnd: i32)
    ensures
        has_room(waitsnd, sndwnd) <==> waitsnd - sndwnd <= sndwnd,
{
}

/// While a message is on its way the send task works on it: it asks the engine for room, hands
/// it the next chunk as soon as there is some, and waits where there is none.
pub proof fn messages_are_worked_on(state: SendState, event: SendEvent)
    requires
        state.well_formed(),
        !state.announced,
        state.message is Some,
        !(event is Sent),
    ensures
        state.after(event) == state,
        match event {
            SendEvent::Room { waitsnd, sndwnd } => if waitsnd <= 2 * sndwnd {
                state.action(event) is Send
            } else {
                state.action(event) == SendTaskAction::WaitWindow
            },
            _ => state.action(event) == SendTaskAction::AskRoom,
        },
{
}

/// A message that comes in is started from its first byte, with all its bytes to go. A chunk
/// that the engine took is done with, and a message that has no bytes left, or of which the
/// engine refused a chunk, is over; the next one is asked for unless the channel has ended.
pub proof fn messages_begin_and_end(state: SendState, event: SendEvent)
    requires
        state.well_formed(),
        !state.announced,
        sensible(event),
    ensures
        event matches SendEvent::Received { len, max_chunk } ==> (state.message is None
            && !state.ended && len > 0 ==> {
            &&& state.after(event).message matches Some(m) && m.len == len && m.max_chunk
                == max_chunk && m.pos == 0
            &&& state.action(event) == SendTaskAction::AskRoom
        }),
        event matches SendEvent::Received { len, .. } ==> (state.message is None && !state.ended
            && len == 0 ==> state.action(event) == SendTaskAction::Receive),
        event matches SendEvent::Sent { result } ==> (state.message matches Some(m) ==> {
            let done = if m.len - m.pos <= m.max_chunk {
                m.len
            } else {
                m.pos + m.max_chunk
            };
            &&& result is Err || done == m.len ==> state.after(event).message is None
            &&& result is Ok && done < m.len ==> (state.after(event).message matches Some(rest)
                && rest.pos == done && rest.len == m.len && rest.max_chunk == m.max_chunk)
            &&& state.after(event).message is None && !state.ended ==> state.action(event)
                == SendTaskAction::Receive
            &&& state.after(event).message is Some ==> state.action(event)
                == SendTaskAction::AskRoom
        }),
{
}

/// Once the channel has ended and no message is on its way, the close is announced as soon as
/// nothing waits in the engine; until then the task waits and asks again.
pub proof fn close_is_owed_when_all_is_delivered(state: SendState, event: SendEvent)
    requires
        !state.announced,
        state.message is None,
    ensures
        event == SendEvent::Ended ==> state.after(event).ended && state.action(event)
            == SendTaskAction::AskWaiting,
        state.ended ==> match event {
            SendEvent::Waiting { waitsnd } => {
                &&& waitsnd <= 0 ==> state.action(event) == SendTaskAction::AnnounceClose
                &&& waitsnd > 0 ==> state.action(event) == SendTaskAction::WaitWindow
                    && state.after(event) == state
            },
            _ => state.action(event) == SendTaskAction::AskWaiting && state.after(event) == state,
        },
        !state.ended && !(event is Received) && event != SendEvent::Ended ==> state.action(event)
            == SendTaskAction::Receive && state.after(event) == state,
{
}

/// What the engine takes and what is given up of a message, in numbers: a chunk, or all that is
/// left. What comes in counts in full, but only where it was asked for.
pub proof fn bytes_are_counted_as_they_go(state: SendState, event: SendEvent)
    requires
        state.well_formed(),
        sensible(event),
    ensures
        state.after(event).left() == state.left() + state.taken_by(event) - state.handed_by(event)
            - state.given_up_by(event),
        state.left() >= 0 && state.taken_by(event) >= 0 && state.given_up_by(event) >= 0,
        state.handed_by(event) > 0 <==> state.message is Some && (event matches SendEvent::Sent {
            result,
        } && result is Ok),
        state.given_up_by(event) > 0 <==> state.message is Some && (event matches SendEvent::Sent {
            result,
        } && result is Err),
        event matches SendEvent::Received { len, .. } ==> state.taken_by(event) == (
        if state.message is None && !state.ended {
            len as int
        } else {
            0
        }),
{
}

/// Both tasks start by asking for what they live on.
pub proof fn tasks_start_by_asking()
    ensures
        SendState::fresh().message is None,
        !SendState::fresh().ended,
        !SendState::fresh().announced,
        SendState::fresh().action(SendEvent::Started) == SendTaskAction::Receive,
        RecvPhase::Checking.action(RecvEvent::Started) == RecvTaskAction::CheckClosed,
{
}

} // verus!
