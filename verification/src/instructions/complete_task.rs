use crate::error::DroneforceError;
use crate::helpers::{completion_data_check, validate_completion_data};
use crate::state::identity::Identity;
use crate::state::task::{TaskAccount, TaskRecord, TaskStatus};
use vstd::prelude::*;

verus! {

/// What Complete works on: the task's record and the signer, who has to be
/// its operator.
#[derive(Clone, Debug, PartialEq, Eq)]
pub struct CompleteTask {
    pub task: TaskAccount,
    pub operator: Identity,
}

/// Tells that a task was completed.
#[derive(Clone, Debug, PartialEq, Eq)]
pub struct TaskCompletedEvent {
    pub operator: Identity,
    pub arweave_tx_id: String,
    pub timestamp: i64,
}

/// The guard of Complete: the task has been accepted, and the signer is
/// the one who accepted it. The status is looked at first.
pub open spec fn complete_guard(rec: TaskRecord, signer: Seq<u8>) -> Result<(), DroneforceError> {
    if rec.status != TaskStatus::Accepted {
        Err(DroneforceError::InvalidTaskStatus)
    } else if rec.operator != signer {
        Err(DroneforceError::UnauthorizedOperator)
    } else {
        Ok(())
    }
}

/// What Complete by `signer` at `now` makes of a record, or why it is
/// rejected: the guard comes before the check of the log reference.
pub open spec fn complete_outcome(
    rec: TaskRecord,
    signer: Seq<u8>,
    arweave_tx_id: Seq<char>,
    log_hash: Seq<u8>,
    signature: Seq<u8>,
    now: int,
) -> Result<TaskRecord, DroneforceError> {
    match complete_guard(rec, signer) {
        Err(e) => Err(e),
        Ok(_) => match completion_data_check(arweave_tx_id) {
            Err(e) => Err(e),
            Ok(_) => Ok(rec.completed(arweave_tx_id, log_hash, signature, now)),
        },
    }
}

impl CompleteTask {
    /// Applies the guard of Complete to the record and the signer.
    pub fn check(&self) -> (r: Result<(), DroneforceError>)
        ensures
            r == complete_guard(self.task@, self.operator@),
    {
        match self.task.status {
            TaskStatus::Accepted => {},
            _ => {
                return Err(DroneforceError::InvalidTaskStatus);
            },
        }
        if !self.task.operator.same_as(&self.operator) {
            return Err(DroneforceError::UnauthorizedOperator);
        }
        Ok(())
    }
}

/// Complete: the operator reports the execution. On success the record
/// holds the log's reference, hash and signature, status `Completed` and
/// the time `now`; a rejected call leaves everything as it was.
pub fn handler(
    ctx: &mut CompleteTask,
    arweave_tx_id: String,
    log_hash: [u8; 32],
    signature: [u8; 64],
    now: i64,
) -> (r: Result<TaskCompletedEvent, DroneforceError>)
    ensures
        final(ctx).operator == old(ctx).operator,
        r is Ok ==> complete_outcome(
            old(ctx).task@,
            old(ctx).operator@,
            arweave_tx_id@,
            log_hash@,
            signature@,
            now as int,
        ) == Ok::<TaskRecord, DroneforceError>(final(ctx).task@),
        r is Ok ==> r->Ok_0.operator == old(ctx).operator && r->Ok_0.arweave_tx_id@
            == arweave_tx_id@ && r->Ok_0.timestamp == now,
        r is Err ==> complete_outcome(
            old(ctx).task@,
            old(ctx).operator@,
            arweave_tx_id@,
            log_hash@,
            signature@,
            now as int,
        ) == Err::<TaskRecord, DroneforceError>(r->Err_0),
        r is Err ==> *final(ctx) == *old(ctx),
        old(ctx).task.wf() ==> final(ctx).task.wf(),
{
    match ctx.check() {
        Ok(_) => {},
        Err(e) => {
            return Err(e);
        },
    }
    match validate_completion_data(arweave_tx_id.as_str()) {
        Ok(_) => {},
        Err(e) => {
            return Err(e);
        },
    }
    let reference = arweave_tx_id.clone();
    ctx.task.arweave_tx_id = arweave_tx_id;
    ctx.task.log_hash = log_hash;
    ctx.task.signature = signature;
    ctx.task.status = TaskStatus::Completed;
    ctx.task.timestamp = now;
    Ok(TaskCompletedEvent { operator: ctx.operator, arweave_tx_id: reference, timestamp: now })
}

} // verus!
