use vstd::prelude::*;

verus! {

/// A failed platform call, with the code it reported.
#[derive(Clone, Copy, Debug, PartialEq, Eq, Structural)]
pub struct OsError {
    pub code: i32,
}

/// The named pipe does not exist.
pub const ERROR_FILE_NOT_FOUND: u32 = 2;

/// The wait for a pipe instance timed out.
pub const ERROR_SEM_TIMEOUT: u32 = 121;

/// Every instance of the named pipe is busy.
pub const ERROR_PIPE_BUSY: u32 = 231;

/// A client connected before the server started waiting for one.
pub const ERROR_PIPE_CONNECTED: u32 = 535;

/// The overlapped operation is in progress.
pub const ERROR_IO_PENDING: u32 = 997;

/// How the call that issues an overlapped operation returned.
#[derive(Clone, Copy, Debug, PartialEq, Eq, Structural)]
pub enum Issue {
    /// The operation completed within the call.
    Completed,
    /// The operation is outstanding; its event is signaled on completion.
    Pending,
    /// The call failed.
    Failed(OsError),
}

/// Decides how an issuing call returned: completed within the call, still
/// pending (its error says the operation is in progress), or failed.
/// `last_error` is the thread's last-error code after a failed call.
pub fn issue_of(call: Result<(), OsError>, last_error: u32) -> (r: Issue)
    ensures
        match call {
            Ok(()) => r == Issue::Completed,
            Err(e) => if last_error == ERROR_IO_PENDING {
                r == Issue::Pending
            } else {
                r == Issue::Failed(e)
            },
        },
{
    match call {
        Ok(()) => Issue::Completed,
        Err(e) => {
            if last_error == ERROR_IO_PENDING {
                Issue::Pending
            } else {
                Issue::Failed(e)
            }
        },
    }
}

/// The code a wait returns when its time ran out.
pub const WAIT_TIMEOUT: u32 = 258;

/// The code a wait returns when it failed.
pub const WAIT_FAILED: u32 = 0xFFFF_FFFF;

/// What a wait over `count` events returned.
#[derive(Clone, Copy, Debug, PartialEq, Eq, Structural)]
pub enum WaitCode {
    /// The event at this index of the wait set is signaled.
    Signaled(usize),
    /// No event was signaled in time.
    TimedOut,
    /// The wait failed; the thread's last error says why.
    Failed,
    /// A code no wait over plain events returns.
    Unexpected(u32),
}

/// Reads the code a wait over `count` events returned: codes below
/// `count` name the signaled event's index.
pub fn wait_code(code: u32, count: usize) -> (r: WaitCode)
    ensures
        (code as int) < count ==> r == WaitCode::Signaled(code as usize),
        (code as int) >= count && code == WAIT_TIMEOUT ==> r == WaitCode::TimedOut,
        (code as int) >= count && code == WAIT_FAILED ==> r == WaitCode::Failed,
        (code as int) >= count && code != WAIT_TIMEOUT && code != WAIT_FAILED ==> r
            == WaitCode::Unexpected(code),
{
    if (code as usize) < count {
        WaitCode::Signaled(code as usize)
    } else if code == WAIT_TIMEOUT {
        WaitCode::TimedOut
    } else if code == WAIT_FAILED {
        WaitCode::Failed
    } else {
        WaitCode::Unexpected(code)
    }
}

} // verus!
