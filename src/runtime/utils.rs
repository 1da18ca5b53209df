use vstd::prelude::*;

use crate::os::OsError;
use crate::runtime::WaitResult;

verus! {

/// The two reference driver loops.
#[derive(Clone, Copy, Debug, PartialEq, Eq, Structural)]
pub enum DriverPolicy {
    /// Writes only when the data-ready event fires.
    Basic,
    /// After a write completes, writes again at once from what is left, and
    /// clears the data-ready event when nothing is.
    LatencyReduced,
}

/// One thing a driver does after a wait, in the order given; the caller
/// performs it and stops at the first failure.
#[derive(Clone, Copy, Debug, PartialEq, Eq, Structural)]
pub enum DriverAction {
    /// End the connection with this error.
    Fail(OsError),
    /// End the connection normally.
    Stop,
    /// Forward this many received bytes to the inbound channel (`send`).
    Forward(usize),
    /// Issue the next read.
    IssueRead,
    /// Remove this many sent bytes from the outbound channel (`consume`).
    Consume(usize),
    /// Fill the write buffer and issue a write; when nothing is issued,
    /// clear the data-ready event.
    WriteOrClearData,
    /// Fill the write buffer and issue a write, if there is anything to send.
    Write,
}

/// What a completed read leads to.
pub open spec fn read_actions(read: Option<Result<usize, OsError>>) -> Seq<DriverAction> {
    match read {
        None => Seq::empty(),
        Some(Err(e)) => seq![DriverAction::Fail(e)],
        Some(Ok(n)) => seq![DriverAction::Forward(n), DriverAction::IssueRead],
    }
}

/// What a completed write leads to.
pub open spec fn write_actions(policy: DriverPolicy, write: Option<Result<usize, OsError>>) -> Seq<
    DriverAction,
> {
    match write {
        None => Seq::empty(),
        Some(Err(e)) => seq![DriverAction::Fail(e)],
        Some(Ok(n)) => match policy {
            DriverPolicy::Basic => seq![DriverAction::Consume(n)],
            DriverPolicy::LatencyReduced => seq![DriverAction::Consume(n), DriverAction::WriteOrClearData],
        },
    }
}

/// The actions of a reference driver after one wait: a wait error ends the
/// connection, then an interrupt does; otherwise the read completion is
/// handled, then the write completion, then the data-ready signal.
pub open spec fn step_actions(policy: DriverPolicy, result: WaitResult, error: Option<OsError>) -> Seq<
    DriverAction,
> {
    match error {
        Some(e) => seq![DriverAction::Fail(e)],
        None => if result.interrupt {
            seq![DriverAction::Stop]
        } else {
            read_actions(result.read) + write_actions(policy, result.write) + if result.data {
                seq![DriverAction::Write]
            } else {
                Seq::empty()
            }
        },
    }
}

/// Decides what a reference driver does after one wait.
pub fn reference_step(policy: DriverPolicy, result: &WaitResult, error: Option<OsError>) -> (r: Vec<
    DriverAction,
>)
    ensures
        r@ == step_actions(policy, *result, error),
{
    let mut r: Vec<DriverAction> = Vec::new();
    match error {
        Some(e) => {
            r.push(DriverAction::Fail(e));
            return r;
        },
        None => {},
    }
    if result.interrupt {
        r.push(DriverAction::Stop);
        return r;
    }
    match result.read {
        None => {},
        Some(Err(e)) => r.push(DriverAction::Fail(e)),
        Some(Ok(n)) => {
            r.push(DriverAction::Forward(n));
            r.push(DriverAction::IssueRead);
        },
    }
    assert(r@ =~= read_actions(result.read));
    let ghost after_read = r@;
    match result.write {
        None => {},
        Some(Err(e)) => r.push(DriverAction::Fail(e)),
        Some(Ok(n)) => {
            r.push(DriverAction::Consume(n));
            match policy {
                DriverPolicy::Basic => {},
                DriverPolicy::LatencyReduced => r.push(DriverAction::WriteOrClearData),
            }
        },
    }
    assert(r@ =~= after_read + write_actions(policy, result.write));
    let ghost after_write = r@;
    if result.data {
        r.push(DriverAction::Write);
    }
    assert(r@ =~= after_write + if result.data {
        seq![DriverAction::Write]
    } else {
        Seq::empty()
    });
    r
}

} // verus!
