use crate::capture::{capped, OutputCapture};
use vstd::prelude::*;
use vstd::string::StringExecFns;

verus! {

/// The signed return code of a finished process: the exit code when there is
/// one, otherwise the negated terminating signal, otherwise 1.
pub open spec fn spec_ret_code(code: Option<i32>, signal: Option<i32>) -> int {
    match code {
        Some(c) => c as int,
        None => match signal {
            Some(s) => -(s as int),
            None => 1,
        },
    }
}

/// Normalizes an operating-system exit status, given as its exit code and
/// its terminating signal, into one signed integer.
pub fn ret_code_from_exit_status(code: Option<i32>, signal: Option<i32>) -> (r: i32)
    requires
        code.is_none() && signal.is_some() ==> signal.unwrap() != i32::MIN,
    ensures
        r as int == spec_ret_code(code, signal),
{
    match code {
        Some(c) => c,
        None => match signal {
            Some(s) => -s,
            None => 1,
        },
    }
}

/// The return code of a command run inside a container: the reported exit
/// code when it fits in an `i32`; otherwise the status is unknown, which
/// normalizes to 1.
pub open spec fn spec_exec_ret_code(exit_code: Option<i64>) -> int {
    match exit_code {
        Some(x) => if i32::MIN <= x <= i32::MAX {
            x as int
        } else {
            1
        },
        None => 1,
    }
}

/// The return code of a command run inside a container: the reported exit
/// code when it fits in an `i32`, and 1 (an unknown status) when the daemon
/// reported none or one out of range.
pub fn exec_ret_code(exit_code: Option<i64>) -> (r: i32)
    ensures
        r as int == spec_exec_ret_code(exit_code),
{
    match exit_code {
        Some(x) => {
            if i32::MIN as i64 <= x && x <= i32::MAX as i64 {
                x as i32
            } else {
                1
            }
        },
        None => 1,
    }
}

/// What the lossy UTF-8 decoding of a byte string yields.
pub uninterp spec fn lossy_utf8(b: Seq<u8>) -> Seq<char>;

/// Relies on `String::from_utf8_lossy`: decodes bytes as UTF-8, replacing
/// invalid sequences; the result depends on the bytes alone, and no bytes
/// decode to the empty string.
#[verifier::external_body]
fn utf8_lossy(b: &[u8]) -> (r: String)
    ensures
        r@ == lossy_utf8(b@),
        b@.len() == 0 ==> r@.len() == 0,
{
    String::from_utf8_lossy(b).into_owned()
}

/// The outcome of one command.
pub struct ProcessInfo {
    pub command: String,
    pub stdout: String,
    pub stderr: String,
    pub ret_code: i32,
    pub is_user_command: bool,
}

/// The outcome of a command run in a container, from what was captured of its
/// output and the exit code the daemon reported.
pub fn process_info(command: &str, capture: &OutputCapture, exit_code: Option<i64>) -> (r:
    ProcessInfo)
    requires
        capture.wf(),
    ensures
        r.command@ == command@,
        r.stdout@ == lossy_utf8(capped(capture.stdout_seen())),
        r.stderr@ == lossy_utf8(capped(capture.stderr_seen())),
        r.ret_code as int == spec_exec_ret_code(exit_code),
        !r.is_user_command,
{
    ProcessInfo {
        command: String::from_str(command),
        stdout: utf8_lossy(capture.stdout_bytes().as_slice()),
        stderr: utf8_lossy(capture.stderr_bytes().as_slice()),
        ret_code: exec_ret_code(exit_code),
        is_user_command: false,
    }
}

} // verus!
