use crate::error::DroneforceError;
use crate::state::identity::Identity;
use crate::state::task::{TaskAccount, TaskRecord, TaskStatus};
use vstd::prelude::*;

verus! {

/// What Accept works on: the task's record and the signer, who becomes the
/// operator.
#[derive(Clone, Debug, PartialEq, Eq)]
pub struct AcceptTask {
    pub task: TaskAccount,
    pub operator: Identity,
}

/// Tells that a task was accepted.
#[derive(Clone, Debug, PartialEq, Eq)]
pub struct TaskAcceptedEvent {
    pub operator: Identity,
    pub timestamp: i64,
}

/// The guard of Accept: only a task that nobody has accepted yet is open.
/// Who signs is not looked at.
pub open spec fn accept_guard(rec: TaskRecord) -> Result<(), DroneforceError> {
    if rec.status == TaskStatus::Created {
        Ok(())
    } else {
        Err(DroneforceError::InvalidTaskStatus)
    }
}

/// What Accept by `signer` at `now` makes of a record, or why it is
/// rejected.
pub open spec fn accept_outcome(rec: TaskRecord, signer: Seq<u8>, now: int) -> Result<
    TaskRecord,
    DroneforceError,
> {
    match accept_guard(rec) {
        Ok(_) => Ok(rec.accepted(signer, now)),
        Err(e) => Err(e),
    }
}

impl AcceptTask {
    /// Applies the guard of Accept to the record.
    pub fn check(&self) -> (r: Result<(), DroneforceError>)
        ensures
            r == accept_guard(self.task@),
    {
        match self.task.status {
            TaskStatus::Created => Ok(()),
            _ => Err(DroneforceError::InvalidTaskStatus),
        }
    }
}

/// Accept: the signer claims an open task. On success the record has the
/// signer as operator, status `Accepted` and the time `now`; a rejected
/// call leaves everything as it was.
pub fn handler(ctx: &mut AcceptTask, now: i64) -> (r: Result<TaskAcceptedEvent, DroneforceError>)
    ensures
        final(ctx).operator == old(ctx).operator,
        r is Ok ==> accept_outcome(old(ctx).task@, old(ctx).operator@, now as int) == Ok::<
            TaskRecord,
            DroneforceError,
        >(final(ctx).task@),
        r is Ok ==> r->Ok_0.operator == old(ctx).operator && r->Ok_0.timestamp == now,
        r is Err ==> accept_outcome(old(ctx).task@, old(ctx).operator@, now as int) == Err::<
            TaskRecord,
            DroneforceError,
        >(r->Err_0),
        r is Err ==> *final(ctx) == *old(ctx),
        old(ctx).task.wf() ==> final(ctx).task.wf(),
{
    match ctx.check() {
        Ok(_) => {},
        Err(e) => {
            return Err(e);
        },
    }
    ctx.task.operator = ctx.operator;
    ctx.task.status = TaskStatus::Accepted;
    ctx.task.timestamp = now;
    Ok(TaskAcceptedEvent { operator: ctx.operator, timestamp: now })
}

} // verus!
