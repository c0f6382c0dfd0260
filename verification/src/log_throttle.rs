//! Rate-bounding for log sites that a peer or the network can drive.
//!
//! A site whose call rate is not bounded by this code lets a remote peer decide how much
//! is written to disk. Such a site asks a [`LogThrottle`] before it writes.
//!
//! Times are nanoseconds on a clock that never runs backwards.

use vstd::prelude::*;

verus! {

/// Five seconds.
pub const LOG_THROTTLE_INTERVAL: u64 = 5_000_000_000;

/// Collapses a log site into at most one line per interval, carrying the count of
/// everything suppressed since the last line.
#[derive(Clone, Copy, Debug, PartialEq, Eq, Structural)]
pub struct LogThrottle {
    /// Least time between two lines.
    pub interval: u64,
    /// Occurrences since the last line.
    pub pending: u64,
    /// When the last line was written.
    pub last: Option<u64>,
}

/// Time from `since` to `now`, or zero where `now` is earlier.
pub open spec fn elapsed(since: u64, now: u64) -> int {
    if now >= since {
        now - since
    } else {
        0
    }
}

impl LogThrottle {
    /// A throttle that has seen nothing yet.
    pub open spec fn unused(interval: u64) -> Self {
        LogThrottle { interval, pending: 0, last: None }
    }

    /// Whether an occurrence at `now` is reported.
    pub open spec fn reports_at(self, now: u64) -> bool {
        match self.last {
            None => true,
            Some(last) => elapsed(last, now) >= self.interval,
        }
    }

    /// What is reported of an occurrence at `now`: how many occurrences the line covers.
    pub open spec fn report(self, now: u64) -> Option<u64> {
        if self.reports_at(now) {
            Some((self.pending + 1) as u64)
        } else {
            None
        }
    }

    /// The throttle after an occurrence at `now`.
    pub open spec fn after(self, now: u64) -> Self {
        if self.reports_at(now) {
            LogThrottle { pending: 0, last: Some(now), ..self }
        } else {
            LogThrottle { pending: (self.pending + 1) as u64, ..self }
        }
    }

    pub fn new(interval: u64) -> (throttle: Self)
        ensures
            throttle == (LogThrottle { interval, pending: 0, last: None }),
            throttle == LogThrottle::unused(interval),
    {
        LogThrottle { interval, pending: 0, last: None }
    }

    /// Records one occurrence; `Some(n)` means to report now, covering `n` occurrences.
    pub fn due(&mut self, now: u64) -> (report: Option<u64>)
        requires
            old(self).pending < u64::MAX,
        ensures
            report == old(self).report(now),
            *final(self) == old(self).after(now),
    {
        let count = self.pending + 1;
        let due = match self.last {
            None => true,
            Some(last) => now.saturating_sub(last) >= self.interval,
        };
        if !due {
            self.pending = count;
            return None;
        }
        self.last = Some(now);
        self.pending = 0;
        Some(count)
    }

    /// The throttle after occurrences at all of `times`.
    pub open spec fn after_all(self, times: Seq<u64>) -> Self
        decreases times.len(),
    {
        if times.len() == 0 {
            self
        } else {
            self.after_all(times.drop_last()).after(times.last())
        }
    }

    /// The sum of all counts reported for occurrences at `times`.
    pub open spec fn reported(self, times: Seq<u64>) -> int
        decreases times.len(),
    {
        if times.len() == 0 {
            0
        } else {
            self.reported(times.drop_last()) + (match self.after_all(times.drop_last()).report(
                times.last(),
            ) {
                Some(n) => n as int,
                None => 0,
            })
        }
    }
}

/// A one-off event is never swallowed: the first occurrence at a site is reported.
pub proof fn first_occurrence_reports(interval: u64, now: u64)
    ensures
        (LogThrottle { interval, pending: 0, last: None }).report(now) == Some(1u64),
{
}

/// Two lines are at least an interval apart: once a line was written at `last`, an
/// occurrence is reported only when the interval is over, and what comes before then is
/// counted.
pub proof fn lines_are_an_interval_apart(throttle: LogThrottle, last: u64, now: u64)
    requires
        throttle.last == Some(last),
        throttle.pending < u64::MAX,
    ensures
        throttle.report(now) is Some <==> elapsed(last, now) >= throttle.interval,
        throttle.report(now) is None ==> throttle.after(now).last == Some(last),
        throttle.report(now) is Some ==> throttle.after(now).last == Some(now),
{
}

/// No occurrence is lost or counted twice: what was reported and what is pending add up
/// to the number of occurrences.
pub proof fn every_occurrence_is_counted_once(interval: u64, times: Seq<u64>)
    requires
        times.len() <= u64::MAX,
    ensures
        ({
            let fresh = LogThrottle { interval, pending: 0, last: None };
            fresh.reported(times) + fresh.after_all(times).pending == times.len()
        }),
    decreases times.len(),
{
    let fresh = LogThrottle { interval, pending: 0, last: None };
    if times.len() > 0 {
        every_occurrence_is_counted_once(interval, times.drop_last());
        reported_is_not_negative(fresh, times.drop_last());
    }
}

proof fn reported_is_not_negative(throttle: LogThrottle, times: Seq<u64>)
    ensures
        throttle.reported(times) >= 0,
    decreases times.len(),
{
    if times.len() > 0 {
        reported_is_not_negative(throttle, times.drop_last());
    }
}

/// The time between two moments is their difference, and none where the clock says that the
/// later one came first.
pub proof fn elapsed_is_the_difference(since: u64, now: u64)
    ensures
        now >= since ==> since + elapsed(since, now) == now,
        now < since ==> elapsed(since, now) == 0,
{
}

/// An occurrence either is reported, with all that were held back before it and itself, or is
/// held back and counted; the interval stays.
pub proof fn occurrences_are_reported_or_held_back(throttle: LogThrottle, now: u64)
    requires
        throttle.pending < u64::MAX,
    ensures
        throttle.after(now).interval == throttle.interval,
        match throttle.report(now) {
            Some(n) => {
                &&& n == throttle.pending + 1
                &&& throttle.after(now).pending == 0
                &&& throttle.after(now).last == Some(now)
            },
            None => {
                &&& throttle.after(now).pending == throttle.pending + 1
                &&& throttle.after(now).last == throttle.last
                &&& throttle.last is Some
            },
        },
{
}

/// A line is owed as soon as the interval since the last one is over.
pub proof fn lines_come_when_they_are_due(throttle: LogThrottle, now: u64)
    ensures
        throttle.report(now) is Some <==> throttle.last is None || (now >= throttle.last->Some_0
            && now - throttle.last->Some_0 >= throttle.interval) || throttle.interval == 0,
{
}

/// A throttle starts with nothing held back, reports the first occurrence whenever it comes,
/// and holds back what comes before the interval after it is over.
pub proof fn throttles_start_unused(interval: u64, first: u64, next: u64)
    ensures
        LogThrottle::unused(interval).interval == interval,
        LogThrottle::unused(interval).report(first) == Some(1u64),
        first <= next && next - first < interval ==> LogThrottle::unused(interval).after(
            first,
        ).report(next) is None,
        first <= next && next - first >= interval ==> LogThrottle::unused(interval).after(
            first,
        ).report(next) == Some(1u64),
{
}

} // verus!
