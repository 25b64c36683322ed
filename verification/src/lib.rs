//! Rate-limited relay between a real console and a pseudo-terminal.
//!
//! The library holds the decision logic of the tool: the delay arithmetic and
//! the interruption-safe sleep loop, the terminal raw-mode lifecycle, the
//! readiness bookkeeping over the two endpoints, the byte-forwarding relay
//! with its escape-coalescing and fairness rules, and the translation of a
//! child's wait status into an exit code. The surrounding binary performs the
//! actual system calls and feeds their outcomes to these functions.

use vstd::prelude::*;

pub mod delay;
pub mod readable;
pub mod relay;
pub mod status;
pub mod term;

verus! {

/// Error carrying the context message of a failed OS call.
#[derive(Clone, Copy, Debug)]
pub struct SysCallError {
    pub msg: &'static str,
}

/// Classifies the integer result of an OS call: `-1` means failure, anything
/// else is handed back unchanged.
pub fn checkerr(result: i32, msg: &'static str) -> (r: Result<i32, SysCallError>)
    ensures
        r is Err <==> result == -1,
        r matches Ok(v) ==> v == result,
        r matches Err(e) ==> e.msg == msg,
{
    if result == -1 {
        Err(SysCallError { msg })
    } else {
        Ok(result)
    }
}

} // verus!
