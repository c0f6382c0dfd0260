//! The wait for a handshake: the SYN is sent again and again, at growing intervals, until
//! the state of the connection changes or the deadline is there.
//!
//! The SYN is a single datagram and is easily lost, as is the answer to it. Without sending
//! it again that one loss would sink the connection; the peer does not mind getting it
//! twice. There may be no room for it for a while: that wait ends at the deadline too, so
//! that a full channel neither stretches the attempt nor lets a SYN out after it.
//!
//! Times are nanoseconds on a clock that never runs backwards.

use crate::ffi_safe::least;
use vstd::prelude::*;

verus! {

/// The wait after the first SYN: a quarter of a second.
pub const FIRST_INTERVAL: u64 = 250_000_000;

/// The longest wait after a SYN: one second.
pub const MAX_INTERVAL: u64 = 1_000_000_000;

/// What happened since the last action.
#[derive(Clone, Copy, Debug, PartialEq, Eq, Structural)]
pub enum ConnectEvent {
    /// Nothing yet.
    Started,
    /// There is room for a SYN, which is kept for it.
    RoomFound,
    /// There was no room for a SYN in time.
    RoomElapsed,
    /// The SYN was put where there was room.
    SynSent,
    /// The wait ended because the state of the connection changed.
    Notified,
    /// The wait ended because its time was over.
    WaitElapsed,
}

/// What to do next.
#[derive(Clone, Copy, Debug, PartialEq, Eq, Structural)]
pub enum ConnectAction {
    /// Wait for room for a SYN, but no longer than this.
    AwaitRoom { nanos: u64 },
    /// Put the SYN where there is room, which takes no time.
    SendSyn,
    /// Wait for the state of the connection to change, but no longer than this.
    Wait { nanos: u64 },
    /// Stop. `notified` says whether the state of the connection changed.
    Finish { notified: bool },
}

/// The wait that follows one of `interval`: half as long again, up to [`MAX_INTERVAL`].
pub open spec fn next_interval(interval: u64) -> u64 {
    least(interval as int * 3 / 2, MAX_INTERVAL as int) as u64
}

/// The wait after SYN number `n`, counted from zero.
pub open spec fn nth_interval(n: nat) -> u64
    decreases n,
{
    if n == 0 {
        FIRST_INTERVAL
    } else {
        next_interval(nth_interval((n - 1) as nat))
    }
}

/// One attempt to open a connection.
#[derive(Debug)]
pub struct ConnectAttempt {
    deadline: u64,
    interval: u64,
}

impl ConnectAttempt {
    /// When the attempt is over.
    pub closed spec fn spec_deadline(&self) -> u64 {
        self.deadline
    }

    /// The wait after the next SYN, unless the deadline is nearer.
    pub closed spec fn spec_interval(&self) -> u64 {
        self.interval
    }

    #[verifier::type_invariant]
    closed spec fn interval_in_range(self) -> bool {
        FIRST_INTERVAL <= self.interval <= MAX_INTERVAL
    }

    /// Starts an attempt at `now` that lasts for `timeout`.
    pub fn new(now: u64, timeout: u64) -> (attempt: Self)
        requires
            now + timeout <= u64::MAX,
        ensures
            attempt.spec_deadline() == now + timeout,
            attempt.spec_deadline() == deadline_of(now, timeout),
            attempt.spec_interval() == FIRST_INTERVAL,
    {
        ConnectAttempt { deadline: now + timeout, interval: FIRST_INTERVAL }
    }

    /// The time that is left of the attempt at `now`.
    pub fn time_left(&self, now: u64) -> (left: u64)
        ensures
            left == spec_time_left(self.spec_deadline(), now),
    {
        if now < self.deadline {
            self.deadline - now
        } else {
            0
        }
    }

    /// Decides what to do at `now`, after `event`.
    pub fn step(&mut self, event: ConnectEvent, now: u64) -> (action: ConnectAction)
        ensures
            final(self).spec_deadline() == old(self).spec_deadline(),
            FIRST_INTERVAL <= final(self).spec_interval() <= MAX_INTERVAL,
            final(self).spec_interval() == (if event == ConnectEvent::WaitElapsed {
                next_interval(old(self).spec_interval())
            } else {
                old(self).spec_interval()
            }),
            final(self).spec_interval() == interval_after(event, old(self).spec_interval()),
            action == connect_action(
                event,
                old(self).spec_interval(),
                old(self).spec_deadline(),
                now,
            ),
    {
        proof {
            use_type_invariant(&*self);
        }
        if matches!(event, ConnectEvent::Notified) {
            return ConnectAction::Finish { notified: true };
        }
        let interval = self.interval;
        if matches!(event, ConnectEvent::WaitElapsed) {
            let longer = interval * 3 / 2;
            self.interval = if longer <= MAX_INTERVAL {
                longer
            } else {
                MAX_INTERVAL
            };
        }
        let left = self.time_left(now);
        if left == 0 {
            return ConnectAction::Finish { notified: false };
        }
        match event {
            ConnectEvent::RoomFound => ConnectAction::SendSyn,
            ConnectEvent::SynSent => {
                let nanos = if interval <= left {
                    interval
                } else {
                    left
                };
                ConnectAction::Wait { nanos }
            },
            _ => ConnectAction::AwaitRoom { nanos: left },
        }
    }
}

/// When an attempt that starts at `now` and lasts for `timeout` is over.
pub open spec fn deadline_of(now: u64, timeout: u64) -> int {
    now + timeout
}

/// The time from `now` to the deadline, or zero once that is there.
pub open spec fn spec_time_left(deadline: u64, now: u64) -> u64 {
    if now < deadline {
        (deadline - now) as u64
    } else {
        0
    }
}

/// The wait after the next SYN, once `event` has happened.
pub open spec fn interval_after(event: ConnectEvent, interval: u64) -> u64 {
    if event == ConnectEvent::WaitElapsed {
        next_interval(interval)
    } else {
        interval
    }
}

/// What to do at `now`, after `event`, when the wait after a SYN is `interval`.
pub open spec fn connect_action(
    event: ConnectEvent,
    interval: u64,
    deadline: u64,
    now: u64,
) -> ConnectAction {
    let left = spec_time_left(deadline, now);
    match event {
        ConnectEvent::Notified => ConnectAction::Finish { notified: true },
        _ if left == 0 => ConnectAction::Finish { notified: false },
        ConnectEvent::RoomFound => ConnectAction::SendSyn,
        ConnectEvent::SynSent => ConnectAction::Wait {
            nanos: least(interval as int, left as int) as u64,
        },
        _ => ConnectAction::AwaitRoom { nanos: left },
    }
}

/// No SYN is put in its place at the deadline or after it, whenever the room for it was
/// found, and no wait lasts beyond the deadline, neither that for room nor that for an answer.
pub proof fn deadline_is_kept(event: ConnectEvent, interval: u64, deadline: u64, now: u64)
    ensures
        connect_action(event, interval, deadline, now) == ConnectAction::SendSyn ==> now
            < deadline,
        connect_action(event, interval, deadline, now) matches ConnectAction::AwaitRoom { nanos }
            ==> now + nanos == deadline,
        connect_action(event, interval, deadline, now) matches ConnectAction::Wait { nanos }
            ==> now + nanos <= deadline && nanos <= interval,
{
}

/// A SYN is only put where room was found for it: every SYN comes after a wait for room, and
/// a wait for room that was in vain ends the attempt at the deadline, without a SYN.
pub proof fn full_channel_ends_the_attempt(
    event: ConnectEvent,
    interval: u64,
    deadline: u64,
    now: u64,
)
    ensures
        connect_action(event, interval, deadline, now) == ConnectAction::SendSyn ==> event
            == ConnectEvent::RoomFound,
        now >= deadline ==> connect_action(ConnectEvent::RoomElapsed, interval, deadline, now) == (
        ConnectAction::Finish { notified: false }),
        now >= deadline ==> connect_action(ConnectEvent::RoomFound, interval, deadline, now) == (
        ConnectAction::Finish { notified: false }),
{
}

/// An attempt that is not notified before the deadline reports that, and one that is
/// notified reports it whenever it is.
pub proof fn attempt_ends_as_it_went(event: ConnectEvent, interval: u64, deadline: u64, now: u64)
    requires
        now >= deadline || event == ConnectEvent::Notified,
    ensures
        connect_action(event, interval, deadline, now) == (ConnectAction::Finish {
            notified: event == ConnectEvent::Notified,
        }),
{
}

/// The waits start at a quarter of a second and grow to one second, which they reach after
/// the fourth SYN and keep.
pub proof fn intervals_grow_to_one_second(n: nat)
    ensures
        nth_interval(0) == 250_000_000,
        nth_interval(1) == 375_000_000,
        nth_interval(2) == 562_500_000,
        nth_interval(3) == 843_750_000,
        n >= 4 ==> nth_interval(n) == 1_000_000_000,
        FIRST_INTERVAL <= nth_interval(n) <= nth_interval(n + 1) <= MAX_INTERVAL,
    decreases n,
{
    reveal_with_fuel(nth_interval, 6);
    if n > 0 {
        intervals_grow_to_one_second((n - 1) as nat);
    }
}

/// Each wait is half as long again as the one before it, rounded down, but never longer than
/// one second.
pub proof fn waits_grow_by_half(interval: u64)
    requires
        interval <= 1_000_000_000,
    ensures
        next_interval(interval) <= 1_000_000_000,
        3 * interval >= 2_000_000_000 ==> next_interval(interval) == 1_000_000_000,
        3 * interval < 2_000_000_000 ==> 2 * next_interval(interval) <= 3 * interval < 2
            * next_interval(interval) + 2,
        interval > 1 ==> next_interval(interval) >= interval,
{
}

/// Only a wait that ended in vain makes the next one longer.
pub proof fn only_vain_waits_grow(event: ConnectEvent, interval: u64)
    ensures
        event == ConnectEvent::WaitElapsed ==> interval_after(event, interval) == next_interval(
            interval,
        ),
        event != ConnectEvent::WaitElapsed ==> interval_after(event, interval) == interval,
{
}

/// The time left is what is missing to the deadline, and none once that is there.
pub proof fn time_left_reaches_the_deadline(deadline: u64, now: u64)
    ensures
        now < deadline ==> now + spec_time_left(deadline, now) == deadline,
        spec_time_left(deadline, now) == 0 <==> now >= deadline,
{
}

/// Until the deadline the attempt goes on: room is looked for at the start, after a wait in
/// vain and where there was none, up to the deadline; a SYN is sent where there is room; and an
/// answer to it is waited for as long as the interval says, or up to the deadline.
pub proof fn attempt_goes_on_until_the_deadline(
    event: ConnectEvent,
    interval: u64,
    deadline: u64,
    now: u64,
)
    requires
        now < deadline,
    ensures
        ({
            let action = connect_action(event, interval, deadline, now);
            &&& action == ConnectAction::SendSyn <==> event == ConnectEvent::RoomFound
            &&& action is Wait <==> event == ConnectEvent::SynSent
            &&& action is AwaitRoom <==> event == ConnectEvent::Started || event
                == ConnectEvent::WaitElapsed || event == ConnectEvent::RoomElapsed
            &&& action is Finish <==> event == ConnectEvent::Notified
            &&& action matches ConnectAction::Wait { nanos } ==> (nanos == interval || now + nanos
                == deadline) && nanos <= interval && now + nanos <= deadline
            &&& action matches ConnectAction::AwaitRoom { nanos } ==> now + nanos == deadline
        }),
{
}

/// At its start an attempt has all of its time left.
pub proof fn attempts_last_for_their_timeout(now: u64, timeout: u64)
    requires
        now + timeout <= u64::MAX,
    ensures
        deadline_of(now, timeout) - now == timeout,
        spec_time_left(deadline_of(now, timeout) as u64, now) == timeout,
{
}

} // verus!
