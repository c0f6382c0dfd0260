//! The errors of the library.

use vstd::prelude::*;

verus! {

/// The calls into the KCP engine that can report a failure.
#[derive(Clone, Copy, Debug, PartialEq, Eq, Structural)]
pub enum KcpCall {
    SetMtu,
    WndSize,
    NoDelay,
    SetCongestionControl,
    ResetCongestionControl,
    Input,
    Send,
    Recv,
}

#[derive(Clone, Copy, Debug, PartialEq, Eq, Structural)]
pub enum Error {
    /// The KCP engine could not create a control block.
    CreateConnectionFailed,
    /// A call into the KCP engine returned the negative code `ret`.
    CallFailed { call: KcpCall, ret: i32 },
    /// The handshake did not advance before the deadline.
    ConnectTimeout,
    /// The handshake advanced, but not to an open connection.
    ConnectFailed,
    /// Every conversation number between the two sessions is taken.
    NoFreeConv,
    /// The endpoint is gone.
    Shutdown,
    /// The packet or the call does not fit the state of the connection.
    InvalidState,
    /// The KCP engine has output, but nobody to hand it to.
    NoOutputCallback,
}

/// The outcome of a call that returned `ret`: negative codes are failures.
pub open spec fn call_result(call: KcpCall, ret: i32) -> Result<i32, Error> {
    if ret < 0 {
        Err(Error::CallFailed { call, ret })
    } else {
        Ok(ret)
    }
}

/// Turns the return code of a call into a result.
pub fn check_call(call: KcpCall, ret: i32) -> (result: Result<i32, Error>)
    ensures
        result == call_result(call, ret),
{
    if ret < 0 {
        Err(Error::CallFailed { call, ret })
    } else {
        Ok(ret)
    }
}

/// A call failed exactly if its code is negative. The code, and which call it was, are told
/// apart from all others; a code that is no failure is handed on.
pub proof fn negative_codes_are_failures(call: KcpCall, ret: i32)
    ensures
        call_result(call, ret) is Err <==> ret < 0,
        call_result(call, ret) matches Err(error) ==> error == (Error::CallFailed { call, ret }),
        call_result(call, ret) matches Ok(value) ==> value == ret,
{
}

} // verus!
