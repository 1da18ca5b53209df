use vstd::prelude::*;

use crate::os::{OsError, ERROR_FILE_NOT_FOUND, ERROR_PIPE_BUSY, ERROR_SEM_TIMEOUT};

verus! {

/// An opened client end of a named pipe, held as its raw handle value.
pub struct Client(usize);

impl Client {
    pub closed spec fn handle_spec(&self) -> usize {
        self.0
    }

    pub fn new(handle: usize) -> (r: Self)
        ensures
            r.handle_spec() == handle,
    {
        Client(handle)
    }

    pub fn handle(&self) -> (r: usize)
        ensures
            r == self.handle_spec(),
    {
        self.0
    }
}

/// Whether a named pipe can be connected to now.
#[derive(Clone, Copy, Debug, Hash, PartialEq, Eq, Structural)]
pub enum NamedPipeCheck {
    Available,
    /// No pipe of that name exists.
    Unavailable,
    /// The pipe exists, but every instance is busy.
    Busy,
}

/// Decides what a zero-timeout wait for the pipe means. `last_error` is
/// the thread's last-error code after a failed call.
pub fn check_result(call: Result<(), OsError>, last_error: u32) -> (r: Result<NamedPipeCheck, OsError>)
    ensures
        match call {
            Ok(()) => r == Ok::<NamedPipeCheck, OsError>(NamedPipeCheck::Available),
            Err(e) => if last_error == ERROR_FILE_NOT_FOUND {
                r == Ok::<NamedPipeCheck, OsError>(NamedPipeCheck::Unavailable)
            } else if last_error == ERROR_PIPE_BUSY {
                r == Ok::<NamedPipeCheck, OsError>(NamedPipeCheck::Busy)
            } else {
                r == Err::<NamedPipeCheck, OsError>(e)
            },
        },
{
    match call {
        Ok(()) => Ok(NamedPipeCheck::Available),
        Err(e) => {
            if last_error == ERROR_FILE_NOT_FOUND {
                Ok(NamedPipeCheck::Unavailable)
            } else if last_error == ERROR_PIPE_BUSY {
                Ok(NamedPipeCheck::Busy)
            } else {
                Err(e)
            }
        },
    }
}

/// Decides what a bounded wait for the pipe means: `Ok(true)` when an
/// instance is free and the pipe is to be opened, `Ok(false)` when the time
/// ran out (no connection, which is no error), and the call's error
/// otherwise.
pub fn wait_result(call: Result<(), OsError>, last_error: u32) -> (r: Result<bool, OsError>)
    ensures
        match call {
            Ok(()) => r == Ok::<bool, OsError>(true),
            Err(e) => if last_error == ERROR_SEM_TIMEOUT {
                r == Ok::<bool, OsError>(false)
            } else {
                r == Err::<bool, OsError>(e)
            },
        },
{
    match call {
        Ok(()) => Ok(true),
        Err(e) => {
            if last_error == ERROR_SEM_TIMEOUT {
                Ok(false)
            } else {
                Err(e)
            }
        },
    }
}

/// A timeout in milliseconds as the wait call takes it: saturated at
/// `u32::MAX`, which waits forever.
pub fn timeout_millis(millis: u128) -> (r: u32)
    ensures
        r == if millis < u32::MAX as u128 { millis as u32 } else { u32::MAX },
{
    if millis < u32::MAX as u128 {
        millis as u32
    } else {
        u32::MAX
    }
}

} // verus!
