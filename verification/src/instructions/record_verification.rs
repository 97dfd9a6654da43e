use crate::error::DroneforceError;
use crate::state::identity::Identity;
use crate::state::task::{TaskAccount, TaskRecord};
use vstd::prelude::*;

verus! {

/// What RecordVerification works on: the task's record and the signer, who
/// has to be its validator.
#[derive(Clone, Debug, PartialEq, Eq)]
pub struct RecordVerification {
    pub task: TaskAccount,
    pub validator: Identity,
}

/// Tells that a verification outcome was recorded.
#[derive(Clone, Debug, PartialEq, Eq)]
pub struct TaskVerifiedEvent {
    pub task_id: String,
    pub validator: Identity,
    pub verification_result: bool,
    pub timestamp: i64,
}

/// The guard of RecordVerification: the signer is the task's validator,
/// and no positive outcome stands on the record. The signer is looked at
/// first; the task's status is not looked at.
pub open spec fn verification_guard(rec: TaskRecord, signer: Seq<u8>) -> Result<
    (),
    DroneforceError,
> {
    if signer != rec.validator {
        Err(DroneforceError::UnauthorizedValidator)
    } else if rec.verification_result {
        Err(DroneforceError::AlreadyVerified)
    } else {
        Ok(())
    }
}

/// What RecordVerification by `signer` at `now` makes of a record, or why
/// it is rejected.
pub open spec fn verification_outcome(
    rec: TaskRecord,
    signer: Seq<u8>,
    result: bool,
    report_hash: Seq<u8>,
    now: int,
) -> Result<TaskRecord, DroneforceError> {
    match verification_guard(rec, signer) {
        Err(e) => Err(e),
        Ok(_) => Ok(rec.verified(result, report_hash, now)),
    }
}

impl RecordVerification {
    /// Applies the guard of RecordVerification to the record and the
    /// signer.
    pub fn check(&self) -> (r: Result<(), DroneforceError>)
        ensures
            r == verification_guard(self.task@, self.validator@),
    {
        if !self.validator.same_as(&self.task.validator_pubkey) {
            return Err(DroneforceError::UnauthorizedValidator);
        }
        if self.task.verification_result {
            return Err(DroneforceError::AlreadyVerified);
        }
        Ok(())
    }
}

/// RecordVerification: the validator writes the outcome of the
/// verification. On success the record holds the outcome, the report's
/// hash and the time `now`; a rejected call leaves everything as it was.
pub fn handler(
    ctx: &mut RecordVerification,
    task_id: String,
    verification_result: bool,
    verification_report_hash: [u8; 32],
    now: i64,
) -> (r: Result<TaskVerifiedEvent, DroneforceError>)
    ensures
        final(ctx).validator == old(ctx).validator,
        r is Ok ==> verification_outcome(
            old(ctx).task@,
            old(ctx).validator@,
            verification_result,
            verification_report_hash@,
            now as int,
        ) == Ok::<TaskRecord, DroneforceError>(final(ctx).task@),
        r is Ok ==> r->Ok_0.task_id == task_id && r->Ok_0.validator == old(ctx).validator
            && r->Ok_0.verification_result == verification_result && r->Ok_0.timestamp == now,
        r is Err ==> verification_outcome(
            old(ctx).task@,
            old(ctx).validator@,
            verification_result,
            verification_report_hash@,
            now as int,
        ) == Err::<TaskRecord, DroneforceError>(r->Err_0),
        r is Err ==> *final(ctx) == *old(ctx),
        old(ctx).task.wf() ==> final(ctx).task.wf(),
{
    match ctx.check() {
        Ok(_) => {},
        Err(e) => {
            return Err(e);
        },
    }
    ctx.task.verification_result = verification_result;
    ctx.task.verification_report_hash = verification_report_hash;
    ctx.task.timestamp = now;
    Ok(
        TaskVerifiedEvent {
            task_id,
            validator: ctx.validator,
            verification_result,
            timestamp: now,
        },
    )
}

} // verus!
