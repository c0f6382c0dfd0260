//! Configuration of a KCP engine and what is computed from the numbers it reports.

use crate::error::{call_result, check_call, Error, KcpCall};
use vstd::prelude::*;

verus! {

pub const MTU_SIZE: i32 = 1200;

/// What the engine takes for "keep the default".
pub const KEEP_DEFAULT: i32 = -1;

/// The engine sends at most this many segments, less one, for one message.
pub const IKCP_WND_RCV: u32 = 128;

/// Messages are never cut into chunks smaller than this.
pub const MIN_CHUNK_SIZE: usize = 1024;

#[derive(Clone, Copy, Debug, PartialEq, Eq, Structural)]
pub struct KcpConfig {
    pub conv: u32,
    pub mtu: Option<i32>,
    pub sndwnd: Option<i32>,
    pub rcvwnd: Option<i32>,
    pub nodelay: Option<i32>,
    pub interval: Option<i32>,
    pub resend: Option<i32>,
    pub nc: Option<i32>,
}

impl KcpConfig {
    /// The configuration that leaves everything to the defaults.
    pub open spec fn plain(conv: u32) -> Self {
        KcpConfig {
            conv,
            mtu: None,
            sndwnd: None,
            rcvwnd: None,
            nodelay: None,
            interval: None,
            resend: None,
            nc: None,
        }
    }

    /// The configuration that is tuned for low latency.
    pub open spec fn turbo(conv: u32) -> Self {
        KcpConfig {
            conv,
            mtu: Some(MTU_SIZE),
            sndwnd: Some(1024i32),
            rcvwnd: Some(1024i32),
            nodelay: Some(1i32),
            interval: Some(10i32),
            resend: Some(2i32),
            nc: Some(1i32),
        }
    }

    /// Leaves everything to the defaults.
    pub fn new(conv: u32) -> (config: Self)
        ensures
            config == (KcpConfig {
                conv,
                mtu: None,
                sndwnd: None,
                rcvwnd: None,
                nodelay: None,
                interval: None,
                resend: None,
                nc: None,
            }),
            config == KcpConfig::plain(conv),
    {
        Self {
            conv,
            mtu: None,
            sndwnd: None,
            rcvwnd: None,
            nodelay: None,
            interval: None,
            resend: None,
            nc: None,
        }
    }

    /// Tuned for low latency: wide windows, a short interval, no congestion control.
    pub fn new_turbo(conv: u32) -> (config: Self)
        ensures
            config == (KcpConfig {
                conv,
                mtu: Some(1200i32),
                sndwnd: Some(1024i32),
                rcvwnd: Some(1024i32),
                nodelay: Some(1i32),
                interval: Some(10i32),
                resend: Some(2i32),
                nc: Some(1i32),
            }),
            config == KcpConfig::turbo(conv),
    {
        Self {
            conv,
            mtu: Some(MTU_SIZE),
            sndwnd: Some(1024),
            rcvwnd: Some(1024),
            nodelay: Some(1),
            interval: Some(10),
            resend: Some(2),
            nc: Some(1),
        }
    }
}

/// One step in setting up an engine.
#[derive(Clone, Copy, Debug, PartialEq, Eq, Structural)]
pub enum SetupAction {
    /// Create the control block. The code is negative if there is none.
    Create { conv: u32 },
    /// Treat the conversation as a byte stream.
    SetStream,
    /// Install the output callback.
    SetOutput,
    SetMtu { mtu: i32 },
    SetWndSize { sndwnd: i32, rcvwnd: i32 },
    SetNoDelay { nodelay: i32, interval: i32, resend: i32, nc: i32 },
    /// Overwrite the interval, past the bounds that `SetNoDelay` puts on it.
    SetInterval { millis: u32 },
    /// The engine is ready.
    Done,
}

/// All steps that set up an engine for `config`, in order. An option that is not set is
/// handed over as [`KEEP_DEFAULT`]; only the MTU has a default of this library.
pub open spec fn setup_plan(config: KcpConfig) -> Seq<SetupAction> {
    let common = seq![
        SetupAction::Create { conv: config.conv },
        SetupAction::SetStream,
        SetupAction::SetOutput,
        SetupAction::SetMtu { mtu: config.mtu.unwrap_or(MTU_SIZE) },
        SetupAction::SetWndSize {
            sndwnd: config.sndwnd.unwrap_or(KEEP_DEFAULT),
            rcvwnd: config.rcvwnd.unwrap_or(KEEP_DEFAULT),
        },
        SetupAction::SetNoDelay {
            nodelay: config.nodelay.unwrap_or(KEEP_DEFAULT),
            interval: config.interval.unwrap_or(KEEP_DEFAULT),
            resend: config.resend.unwrap_or(KEEP_DEFAULT),
            nc: config.nc.unwrap_or(KEEP_DEFAULT),
        },
    ];
    match config.interval {
        Some(interval) if interval > 0 => common.push(
            SetupAction::SetInterval { millis: interval as u32 },
        ),
        _ => common,
    }
}

/// What a step that returned `ret` means: the step's error, or that it went well. Steps
/// that return nothing cannot fail.
pub open spec fn setup_result(action: SetupAction, ret: i32) -> Result<(), Error> {
    match action {
        SetupAction::Create { .. } if ret < 0 => Err(Error::CreateConnectionFailed),
        SetupAction::SetMtu { .. } if ret < 0 => Err(
            Error::CallFailed { call: KcpCall::SetMtu, ret },
        ),
        SetupAction::SetWndSize { .. } if ret < 0 => Err(
            Error::CallFailed { call: KcpCall::WndSize, ret },
        ),
        SetupAction::SetNoDelay { .. } if ret < 0 => Err(
            Error::CallFailed { call: KcpCall::NoDelay, ret },
        ),
        _ => Ok(()),
    }
}

/// What the step after `done` others means when it returned `ret`.
pub open spec fn plan_result(config: KcpConfig, done: nat, ret: i32) -> Result<(), Error> {
    if done < setup_plan(config).len() {
        setup_result(setup_plan(config)[done as int], ret)
    } else {
        Ok(())
    }
}

/// How many steps have gone well once the one after `done` others returned `ret`.
pub open spec fn plan_done(config: KcpConfig, done: nat, ret: i32) -> nat {
    if done < setup_plan(config).len() && plan_result(config, done, ret) is Ok {
        done + 1
    } else {
        done
    }
}

/// How many steps have gone well when they returned `rets`, one after the other.
pub open spec fn plan_run(config: KcpConfig, rets: Seq<i32>) -> nat
    decreases rets.len(),
{
    if rets.len() == 0 {
        0
    } else {
        plan_done(config, plan_run(config, rets.drop_last()), rets.last())
    }
}

/// Walks through the steps that set up an engine.
#[derive(Debug)]
pub struct KcpSetup {
    config: KcpConfig,
    done: usize,
}

impl KcpSetup {
    pub closed spec fn spec_config(&self) -> KcpConfig {
        self.config
    }

    /// How many steps have gone well.
    pub closed spec fn spec_done(&self) -> nat {
        self.done as nat
    }

    #[verifier::type_invariant]
    closed spec fn within_plan(self) -> bool {
        self.done <= setup_plan(self.config).len()
    }

    pub fn new(config: KcpConfig) -> (setup: Self)
        ensures
            setup.spec_config() == config,
            setup.spec_done() == 0,
    {
        KcpSetup { config, done: 0 }
    }

    /// The step to take now.
    pub fn action(&self) -> (action: SetupAction)
        ensures
            self.spec_done() <= setup_plan(self.spec_config()).len(),
            action == (if self.spec_done() < setup_plan(self.spec_config()).len() {
                setup_plan(self.spec_config())[self.spec_done() as int]
            } else {
                SetupAction::Done
            }),
    {
        proof {
            use_type_invariant(self);
        }
        let config = &self.config;
        if self.done == 0 {
            SetupAction::Create { conv: config.conv }
        } else if self.done == 1 {
            SetupAction::SetStream
        } else if self.done == 2 {
            SetupAction::SetOutput
        } else if self.done == 3 {
            SetupAction::SetMtu { mtu: config.mtu.unwrap_or(MTU_SIZE) }
        } else if self.done == 4 {
            SetupAction::SetWndSize {
                sndwnd: config.sndwnd.unwrap_or(KEEP_DEFAULT),
                rcvwnd: config.rcvwnd.unwrap_or(KEEP_DEFAULT),
            }
        } else if self.done == 5 {
            SetupAction::SetNoDelay {
                nodelay: config.nodelay.unwrap_or(KEEP_DEFAULT),
                interval: config.interval.unwrap_or(KEEP_DEFAULT),
                resend: config.resend.unwrap_or(KEEP_DEFAULT),
                nc: config.nc.unwrap_or(KEEP_DEFAULT),
            }
        } else if self.done == 6 {
            match config.interval {
                Some(interval) if interval > 0 => SetupAction::SetInterval {
                    millis: interval as u32,
                },
                _ => SetupAction::Done,
            }
        } else {
            SetupAction::Done
        }
    }

    /// Takes note of what the step returned. A failed step stays the step to take.
    pub fn advance(&mut self, ret: i32) -> (result: Result<(), Error>)
        ensures
            final(self).spec_config() == old(self).spec_config(),
            ({
                let plan = setup_plan(old(self).spec_config());
                let done = old(self).spec_done();
                if done < plan.len() {
                    &&& result == setup_result(plan[done as int], ret)
                    &&& final(self).spec_done() == (if result is Ok {
                        done + 1
                    } else {
                        done
                    })
                } else {
                    &&& result == Ok::<(), Error>(())
                    &&& final(self).spec_done() == done
                }
            }),
            result == plan_result(old(self).spec_config(), old(self).spec_done(), ret),
            final(self).spec_done() == plan_done(
                old(self).spec_config(),
                old(self).spec_done(),
                ret,
            ),
    {
        let action = self.action();
        let failure = match action {
            SetupAction::Create { .. } => if ret < 0 {
                Some(Error::CreateConnectionFailed)
            } else {
                None
            },
            SetupAction::SetMtu { .. } => check_call(KcpCall::SetMtu, ret).err(),
            SetupAction::SetWndSize { .. } => check_call(KcpCall::WndSize, ret).err(),
            SetupAction::SetNoDelay { .. } => check_call(KcpCall::NoDelay, ret).err(),
            _ => None,
        };
        match failure {
            Some(error) => Err(error),
            None => {
                match action {
                    SetupAction::Done => {},
                    _ => {
                        self.done = self.done + 1;
                    },
                }
                Ok(())
            },
        }
    }
}

/// The smaller of two numbers.
pub open spec fn least(a: int, b: int) -> int {
    if a <= b {
        a
    } else {
        b
    }
}

/// The larger of two numbers.
pub open spec fn greatest(a: int, b: int) -> int {
    if a >= b {
        a
    } else {
        b
    }
}

/// The most segments that one message may be cut into.
pub open spec fn max_segments(sndwnd: u32, rcvwnd: u32) -> int {
    least(IKCP_WND_RCV - 1, least(sndwnd as int, rcvwnd as int))
}

/// The most bytes that one chunk may have.
pub open spec fn chunk_limit(mss: u32, sndwnd: u32, rcvwnd: u32) -> int {
    greatest(max_segments(sndwnd, rcvwnd) * mss, MIN_CHUNK_SIZE as int)
}

/// The most bytes to hand to the engine at once, from the segment size and the windows
/// that it reports: as many as fit the segments of one message, but not less than
/// [`MIN_CHUNK_SIZE`].
pub fn max_chunk_size(mss: u32, sndwnd: u32, rcvwnd: u32) -> (size: usize)
    requires
        max_segments(sndwnd, rcvwnd) * mss <= usize::MAX,
    ensures
        size == greatest(max_segments(sndwnd, rcvwnd) * mss, MIN_CHUNK_SIZE as int),
        size == chunk_limit(mss, sndwnd, rcvwnd),
{
    let window = if sndwnd <= rcvwnd {
        sndwnd
    } else {
        rcvwnd
    };
    let max_count = if IKCP_WND_RCV - 1 <= window {
        IKCP_WND_RCV - 1
    } else {
        window
    };
    assert(max_count as int == max_segments(sndwnd, rcvwnd));
    let truncate_size = (max_count as usize) * (mss as usize);
    if truncate_size >= MIN_CHUNK_SIZE {
        truncate_size
    } else {
        MIN_CHUNK_SIZE
    }
}

/// 2 to the power of 32, where the clock of the engine wraps around.
pub open spec fn clock_period() -> int {
    0x1_0000_0000
}

/// What the clock of the engine shows after so many milliseconds.
pub open spec fn engine_time(elapsed_ms: int) -> int {
    elapsed_ms % clock_period()
}

/// How many milliseconds pass on the clock of the engine from `current` to `next`.
pub open spec fn update_delay(next: u32, current: u32) -> int {
    (next - current) % clock_period()
}

/// The time of the engine's clock, which counts milliseconds and wraps around.
pub fn clock_ms(elapsed_ms: u128) -> (now: u32)
    ensures
        now == elapsed_ms as int % clock_period(),
        now == engine_time(elapsed_ms as int),
{
    let now = (elapsed_ms % 0x1_0000_0000) as u32;
    now
}

/// How many milliseconds lie between `current` and the `next` update, on a clock that may
/// have wrapped around in between.
pub fn next_update_delay_ms(next: u32, current: u32) -> (delay: u32)
    ensures
        delay == (next - current) % clock_period(),
        delay == update_delay(next, current),
{
    next.wrapping_sub(current)
}

/// The delay is the one that the engine asked for, also where the clock wraps around
/// before it is over.
pub proof fn delay_is_what_was_asked_for(current: u32, delay: u32)
    ensures
        ((current + delay) % clock_period() - current) % clock_period() == delay,
{
}

/// A window that the engine reports, as a signed number.
pub open spec fn signed_window(snd_wnd: u32) -> int {
    if snd_wnd <= i32::MAX {
        snd_wnd as int
    } else {
        snd_wnd - 0x1_0000_0000
    }
}

/// The send window that the engine reports, as a signed number.
pub fn sendwnd(snd_wnd: u32) -> (window: i32)
    ensures
        snd_wnd <= i32::MAX ==> window == snd_wnd,
        snd_wnd > i32::MAX ==> window == snd_wnd - 0x1_0000_0000,
        window == signed_window(snd_wnd),
{
    let window = snd_wnd as i32;
    assert(window == if snd_wnd <= 0x7fff_ffff {
        snd_wnd as int
    } else {
        snd_wnd - 0x1_0000_0000
    }) by (bit_vector)
        requires
            window == snd_wnd as i32,
    ;
    window
}

/// The outcome of a call that returns a number of bytes.
pub open spec fn length_result(call: KcpCall, ret: i32) -> Result<usize, Error> {
    match call_result(call, ret) {
        Ok(len) => Ok(len as usize),
        Err(error) => Err(error),
    }
}

/// The number of bytes that the engine took in one `send`.
pub fn sent_len(ret: i32) -> (result: Result<usize, Error>)
    ensures
        result == (if ret < 0 {
            Err::<usize, Error>(Error::CallFailed { call: KcpCall::Send, ret })
        } else {
            Ok(ret as usize)
        }),
        result == length_result(KcpCall::Send, ret),
{
    match check_call(KcpCall::Send, ret) {
        Ok(len) => Ok(len as usize),
        Err(error) => Err(error),
    }
}

/// The number of bytes that the engine wrote in one `recv`.
pub fn received_len(ret: i32) -> (result: Result<usize, Error>)
    ensures
        result == (if ret < 0 {
            Err::<usize, Error>(Error::CallFailed { call: KcpCall::Recv, ret })
        } else {
            Ok(ret as usize)
        }),
        result == length_result(KcpCall::Recv, ret),
{
    match check_call(KcpCall::Recv, ret) {
        Ok(len) => Ok(len as usize),
        Err(error) => Err(error),
    }
}

/// Chunks are never empty, so cutting a message into chunks makes progress, and a chunk fits
/// the segments that the engine allows for one message unless these are too small for the
/// least chunk.
pub proof fn chunk_size_bounds(mss: u32, sndwnd: u32, rcvwnd: u32)
    ensures
        greatest(max_segments(sndwnd, rcvwnd) * mss, MIN_CHUNK_SIZE as int) >= MIN_CHUNK_SIZE > 0,
        max_segments(sndwnd, rcvwnd) < IKCP_WND_RCV,
        max_segments(sndwnd, rcvwnd) * mss >= MIN_CHUNK_SIZE ==> greatest(
            max_segments(sndwnd, rcvwnd) * mss,
            MIN_CHUNK_SIZE as int,
        ) == max_segments(sndwnd, rcvwnd) * mss,
{
}

/// An option as it is handed to the engine: its value, or -1 where it is not set.
pub open spec fn handed_over(option: Option<i32>) -> int {
    match option {
        Some(value) => value as int,
        None => -1,
    }
}

/// Every option of a configuration reaches the engine as it is, and only what is not set is
/// left to a default: 1200 for the MTU, and the engine's own for the others.
pub proof fn options_reach_the_engine(config: KcpConfig)
    ensures
        ({
            let plan = setup_plan(config);
            &&& plan[0] == (SetupAction::Create { conv: config.conv })
            &&& plan[3] matches SetupAction::SetMtu { mtu } && mtu == (match config.mtu {
                Some(mtu) => mtu,
                None => 1200,
            })
            &&& plan[4] matches SetupAction::SetWndSize { sndwnd, rcvwnd } && sndwnd == handed_over(
                config.sndwnd,
            ) && rcvwnd == handed_over(config.rcvwnd)
            &&& plan[5] matches SetupAction::SetNoDelay { nodelay, interval, resend, nc }
                && nodelay == handed_over(config.nodelay) && interval == handed_over(
                config.interval,
            ) && resend == handed_over(config.resend) && nc == handed_over(config.nc)
        }),
{
}

/// The steps and their order: the engine is created, made a byte stream, given its output, and
/// then configured. The interval is set once more, past the engine's bounds, exactly where one
/// is configured that is positive.
pub proof fn setup_goes_in_order(config: KcpConfig)
    ensures
        ({
            let plan = setup_plan(config);
            let positive = config.interval matches Some(interval) && interval > 0;
            &&& plan.len() == (if positive {
                7int
            } else {
                6int
            })
            &&& plan[0] is Create
            &&& plan[1] == SetupAction::SetStream
            &&& plan[2] == SetupAction::SetOutput
            &&& plan[3] is SetMtu
            &&& plan[4] is SetWndSize
            &&& plan[5] is SetNoDelay
            &&& positive ==> (plan[6] matches SetupAction::SetInterval { millis } && millis
                == config.interval->Some_0)
            &&& forall|i: int| 0 <= i < plan.len() ==> #[trigger] plan[i] != SetupAction::Done
        }),
{
}

/// Configurations that differ in an option that both of them set are set up differently.
pub proof fn different_options_give_different_setups(a: KcpConfig, b: KcpConfig)
    requires
        setup_plan(a) == setup_plan(b),
    ensures
        a.conv == b.conv,
        a.mtu is Some && b.mtu is Some ==> a.mtu == b.mtu,
        a.sndwnd is Some && b.sndwnd is Some ==> a.sndwnd == b.sndwnd,
        a.rcvwnd is Some && b.rcvwnd is Some ==> a.rcvwnd == b.rcvwnd,
        a.nodelay is Some && b.nodelay is Some ==> a.nodelay == b.nodelay,
        a.interval is Some && b.interval is Some ==> a.interval == b.interval,
        a.resend is Some && b.resend is Some ==> a.resend == b.resend,
        a.nc is Some && b.nc is Some ==> a.nc == b.nc,
{
    options_reach_the_engine(a);
    options_reach_the_engine(b);
}

/// A step fails exactly if it is one that can and returned a negative code, and the error says
/// which step it was and what it returned.
pub proof fn setup_fails_where_the_engine_does(action: SetupAction, ret: i32)
    ensures
        setup_result(action, ret) is Err <==> ret < 0 && (action is Create || action is SetMtu
            || action is SetWndSize || action is SetNoDelay),
        setup_result(action, ret) matches Err(error) ==> {
            &&& action is Create ==> error == Error::CreateConnectionFailed
            &&& action is SetMtu ==> error == (Error::CallFailed { call: KcpCall::SetMtu, ret })
            &&& action is SetWndSize ==> error == (Error::CallFailed {
                call: KcpCall::WndSize,
                ret,
            })
            &&& action is SetNoDelay ==> error == (Error::CallFailed {
                call: KcpCall::NoDelay,
                ret,
            })
        },
{
}

/// The smaller and the larger of two numbers are these numbers, the right way round.
pub proof fn least_and_greatest_are_in_order(a: int, b: int)
    ensures
        least(a, b) <= a && least(a, b) <= b,
        greatest(a, b) >= a && greatest(a, b) >= b,
        least(a, b) == a || least(a, b) == b,
        least(a, b) + greatest(a, b) == a + b,
{
}

/// A message may be cut into as many segments as both windows take, but into 127 at most.
pub proof fn segments_fit_the_windows(sndwnd: u32, rcvwnd: u32)
    ensures
        ({
            let count = max_segments(sndwnd, rcvwnd);
            &&& 0 <= count <= 127
            &&& count <= sndwnd
            &&& count <= rcvwnd
            &&& count == 127 || count == sndwnd || count == rcvwnd
        }),
{
}

/// The clock of the engine has 32 bits.
pub proof fn clock_wraps_at_32_bits(elapsed_ms: u32)
    ensures
        clock_period() == u32::MAX + 1,
        elapsed_ms as int % clock_period() == elapsed_ms,
{
}

/// A chunk may always have 1024 bytes, and beyond that as many as the segments of one message
/// hold, and no more.
pub proof fn chunks_fill_the_segments(mss: u32, sndwnd: u32, rcvwnd: u32)
    ensures
        ({
            let segments = max_segments(sndwnd, rcvwnd) * mss;
            let limit = chunk_limit(mss, sndwnd, rcvwnd);
            &&& limit >= 1024
            &&& limit >= segments
            &&& limit > 1024 ==> limit == segments
        }),
{
}

/// The clock of the engine goes by milliseconds and starts again when its bits are used up.
pub proof fn engine_clock_goes_round(elapsed_ms: int)
    requires
        0 <= elapsed_ms,
    ensures
        0 <= engine_time(elapsed_ms) <= u32::MAX,
        engine_time(0) == 0,
        engine_time(elapsed_ms + 1) == (if engine_time(elapsed_ms) == u32::MAX {
            0
        } else {
            engine_time(elapsed_ms) + 1
        }),
{
}

/// Where the engine asks for an update in `delay` milliseconds, that is the delay, wherever its
/// clock stands and whether or not it wraps around before then.
pub proof fn updates_come_when_asked_for(elapsed_ms: int, delay: u32)
    requires
        0 <= elapsed_ms,
    ensures
        update_delay(
            engine_time(elapsed_ms + delay) as u32,
            engine_time(elapsed_ms) as u32,
        ) == delay,
{
}

/// The window keeps its value where a signed number can hold it, and its bits elsewhere.
pub proof fn windows_keep_their_bits(snd_wnd: u32)
    ensures
        i32::MIN <= signed_window(snd_wnd) <= i32::MAX,
        signed_window(snd_wnd) >= 0 ==> signed_window(snd_wnd) == snd_wnd,
        (signed_window(snd_wnd) - snd_wnd) % 0x1_0000_0000 == 0,
{
}

/// A call that returns a number of bytes fails exactly if the number is negative, with an error
/// that holds the call and the number, and else gives the number.
pub proof fn lengths_are_what_the_engine_says(call: KcpCall, ret: i32)
    ensures
        length_result(call, ret) is Ok <==> ret >= 0,
        length_result(call, ret) matches Ok(len) ==> len == ret,
        length_result(call, ret) matches Err(error) ==> error == (Error::CallFailed { call, ret }),
{
}

/// A plain configuration sets nothing but the conversation, and a tuned one sets the same
/// options for every conversation.
pub proof fn configurations_are_as_named(conv: u32, other: u32)
    ensures
        KcpConfig::plain(conv).conv == conv,
        KcpConfig::plain(conv).mtu is None,
        KcpConfig::plain(conv).sndwnd is None,
        KcpConfig::plain(conv).rcvwnd is None,
        KcpConfig::plain(conv).nodelay is None,
        KcpConfig::plain(conv).interval is None,
        KcpConfig::plain(conv).resend is None,
        KcpConfig::plain(conv).nc is None,
        KcpConfig::turbo(conv).conv == conv,
        KcpConfig::turbo(conv) == (KcpConfig { conv, ..KcpConfig::turbo(other) }),
        KcpConfig::turbo(conv).mtu == Some(1200i32),
        KcpConfig::turbo(conv).sndwnd == KcpConfig::turbo(conv).rcvwnd,
        KcpConfig::turbo(conv).sndwnd == Some(1024i32),
        KcpConfig::turbo(conv).nodelay == Some(1i32),
        KcpConfig::turbo(conv).interval == Some(10i32),
        KcpConfig::turbo(conv).resend == Some(2i32),
        KcpConfig::turbo(conv).nc == Some(1i32),
{
}

/// As long as no step fails, a setup takes one step after the other, up to the last, and then
/// stays.
pub proof fn setups_run_to_the_end(config: KcpConfig, rets: Seq<i32>)
    requires
        forall|i: int| 0 <= i < rets.len() ==> #[trigger] rets[i] >= 0,
    ensures
        plan_run(config, rets) == least(rets.len() as int, setup_plan(config).len() as int),
    decreases rets.len(),
{
    if rets.len() > 0 {
        let earlier = rets.drop_last();
        assert forall|i: int| 0 <= i < earlier.len() implies #[trigger] earlier[i] >= 0 by {
            assert(earlier[i] == rets[i]);
        }
        setups_run_to_the_end(config, earlier);
        assert(rets[rets.len() - 1] >= 0);
    }
}

/// A step that fails is reported and not passed over.
pub proof fn failed_steps_are_not_passed_over(config: KcpConfig, done: nat, ret: i32)
    requires
        done < setup_plan(config).len(),
    ensures
        plan_result(config, done, ret) == setup_result(setup_plan(config)[done as int], ret),
        plan_result(config, done, ret) is Err ==> plan_done(config, done, ret) == done,
        plan_result(config, done, ret) is Ok ==> plan_done(config, done, ret) == done + 1,
        ret >= 0 ==> plan_result(config, done, ret) is Ok,
{
}

} // verus!
