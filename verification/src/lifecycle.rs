use crate::error::DroneforceError;
use crate::instructions::accept_task::accept_outcome;
use crate::instructions::complete_task::complete_outcome;
use crate::instructions::create_task::create_outcome;
use crate::instructions::record_verification::verification_outcome;
use crate::state::identity::Identity;
use crate::state::task::{byte_len, TaskRecord, TaskStatus};
use vstd::prelude::*;

verus! {

/// One operation on an existing record, with its signer and the time of
/// the call.
pub enum Operation {
    Accept { signer: Seq<u8>, now: int },
    Complete {
        signer: Seq<u8>,
        arweave_tx_id: Seq<char>,
        log_hash: Seq<u8>,
        signature: Seq<u8>,
        now: int,
    },
    RecordVerification { signer: Seq<u8>, result: bool, report_hash: Seq<u8>, now: int },
}

/// What an operation makes of a record, or why it is rejected.
pub open spec fn outcome(rec: TaskRecord, op: Operation) -> Result<TaskRecord, DroneforceError> {
    match op {
        Operation::Accept { signer, now } => accept_outcome(rec, signer, now),
        Operation::Complete { signer, arweave_tx_id, log_hash, signature, now } => complete_outcome(
            rec,
            signer,
            arweave_tx_id,
            log_hash,
            signature,
            now,
        ),
        Operation::RecordVerification { signer, result, report_hash, now } => verification_outcome(
            rec,
            signer,
            result,
            report_hash,
            now,
        ),
    }
}

/// The record after an operation: a rejected one leaves it as it was.
pub open spec fn apply(rec: TaskRecord, op: Operation) -> TaskRecord {
    match outcome(rec, op) {
        Ok(next) => next,
        Err(_) => rec,
    }
}

/// The record after a history of operations, the first one first.
pub open spec fn run(rec: TaskRecord, ops: Seq<Operation>) -> TaskRecord
    decreases ops.len(),
{
    if ops.len() == 0 {
        rec
    } else {
        apply(run(rec, ops.drop_last()), ops.last())
    }
}

/// What no operation on an existing record changes: who created the task,
/// who validates it, and how it was described.
pub open spec fn same_task(a: TaskRecord, b: TaskRecord) -> bool {
    &&& a.creator == b.creator
    &&& a.validator == b.validator
    &&& a.latitude == b.latitude
    &&& a.longitude == b.longitude
    &&& a.area_size == b.area_size
    &&& a.task_type == b.task_type
    &&& a.altitude == b.altitude
    &&& a.geofencing_enabled == b.geofencing_enabled
    &&& a.description == b.description
    &&& a.bump == b.bump
}

/// Create succeeds exactly where the description fits and the location is
/// on the globe. The new record is in status `Created`, has no operator
/// and no verification, and meets the record's invariant.
pub proof fn lemma_create_establishes_invariant(
    creator: Seq<u8>,
    validator: Seq<u8>,
    bump: nat,
    latitude: int,
    longitude: int,
    area_size: nat,
    task_type: nat,
    altitude: nat,
    geofencing_enabled: bool,
    description: Seq<char>,
    now: int,
)
    ensures
        ({
            let made = create_outcome(
                creator,
                validator,
                bump,
                latitude,
                longitude,
                area_size,
                task_type,
                altitude,
                geofencing_enabled,
                description,
                now,
            );
            &&& made is Ok <==> byte_len(description) <= 256 && -900_000_000 <= latitude
                <= 900_000_000 && -1_800_000_000 <= longitude <= 1_800_000_000
            &&& made is Ok ==> made->Ok_0.wf() && made->Ok_0.status == TaskStatus::Created
                && made->Ok_0.operator == Identity::unassigned_view()
                && !made->Ok_0.verification_result && made->Ok_0.creator == creator
                && made->Ok_0.validator == validator
        }),
{
}

/// Accept succeeds on a task in status `Created`, whoever signs, and moves
/// it to `Accepted`; on any other task it fails with `InvalidTaskStatus`.
pub proof fn lemma_accept_only_from_created(rec: TaskRecord, signer: Seq<u8>, now: int)
    ensures
        rec.status == TaskStatus::Created ==> accept_outcome(rec, signer, now) is Ok
            && accept_outcome(rec, signer, now)->Ok_0.status == TaskStatus::Accepted
            && accept_outcome(rec, signer, now)->Ok_0.operator == signer,
        rec.status != TaskStatus::Created ==> accept_outcome(rec, signer, now) == Err::<
            TaskRecord,
            DroneforceError,
        >(DroneforceError::InvalidTaskStatus),
{
}

/// Complete on a task that is not in status `Accepted` fails with
/// `InvalidTaskStatus`, whoever signs and whatever is reported; where it
/// succeeds, the task was `Accepted` and is `Completed` afterwards.
pub proof fn lemma_complete_only_from_accepted(
    rec: TaskRecord,
    signer: Seq<u8>,
    arweave_tx_id: Seq<char>,
    log_hash: Seq<u8>,
    signature: Seq<u8>,
    now: int,
)
    ensures
        rec.status != TaskStatus::Accepted ==> complete_outcome(
            rec,
            signer,
            arweave_tx_id,
            log_hash,
            signature,
            now,
        ) == Err::<TaskRecord, DroneforceError>(DroneforceError::InvalidTaskStatus),
        complete_outcome(rec, signer, arweave_tx_id, log_hash, signature, now) is Ok ==> rec.status
            == TaskStatus::Accepted && complete_outcome(
            rec,
            signer,
            arweave_tx_id,
            log_hash,
            signature,
            now,
        )->Ok_0.status == TaskStatus::Completed,
{
}

/// Complete on an accepted task by anyone but its operator fails with
/// `UnauthorizedOperator`.
pub proof fn lemma_complete_by_stranger_unauthorized(
    rec: TaskRecord,
    signer: Seq<u8>,
    arweave_tx_id: Seq<char>,
    log_hash: Seq<u8>,
    signature: Seq<u8>,
    now: int,
)
    requires
        rec.status == TaskStatus::Accepted,
        signer != rec.operator,
    ensures
        complete_outcome(rec, signer, arweave_tx_id, log_hash, signature, now) == Err::<
            TaskRecord,
            DroneforceError,
        >(DroneforceError::UnauthorizedOperator),
{
}

/// Complete by anyone but the recorded operator fails in every status and
/// leaves the record as it was.
pub proof fn lemma_complete_by_stranger_fails(
    rec: TaskRecord,
    signer: Seq<u8>,
    arweave_tx_id: Seq<char>,
    log_hash: Seq<u8>,
    signature: Seq<u8>,
    now: int,
)
    requires
        signer != rec.operator,
    ensures
        complete_outcome(rec, signer, arweave_tx_id, log_hash, signature, now) is Err,
        apply(rec, Operation::Complete { signer, arweave_tx_id, log_hash, signature, now }) == rec,
{
}

/// Once the validator has recorded a positive outcome, a further call by
/// the validator fails with `AlreadyVerified`, whatever it brings, and the
/// outcome and the report's hash stand as first recorded.
pub proof fn lemma_positive_verification_written_once(
    rec: TaskRecord,
    signer: Seq<u8>,
    report_hash: Seq<u8>,
    now: int,
    later_result: bool,
    later_report_hash: Seq<u8>,
    later: int,
)
    requires
        verification_outcome(rec, signer, true, report_hash, now) is Ok,
    ensures
        ({
            let first = verification_outcome(rec, signer, true, report_hash, now)->Ok_0;
            let again = Operation::RecordVerification {
                signer,
                result: later_result,
                report_hash: later_report_hash,
                now: later,
            };
            &&& first.verification_result
            &&& first.verification_report_hash == report_hash
            &&& verification_outcome(first, signer, later_result, later_report_hash, later) == Err::<
                TaskRecord,
                DroneforceError,
            >(DroneforceError::AlreadyVerified)
            &&& apply(first, again) == first
        }),
{
}

/// An operation leaves the status where it is or moves it one step on,
/// never back and never past a status; it keeps the task's description
/// and parties, the operator of a task that has one, a positive
/// verification, and the record's invariant.
pub proof fn lemma_step_in_order(rec: TaskRecord, op: Operation)
    ensures
        apply(rec, op).status.rank() == rec.status.rank() || apply(rec, op).status.rank()
            == rec.status.rank() + 1,
        same_task(rec, apply(rec, op)),
        rec.status != TaskStatus::Created ==> apply(rec, op).operator == rec.operator,
        rec.verification_result ==> apply(rec, op).verification_result && apply(
            rec,
            op,
        ).verification_report_hash == rec.verification_report_hash,
        rec.wf() ==> apply(rec, op).wf(),
{
}

/// In a history of operations each one works on the record that the ones
/// before it left, and moves the status by one step at most.
pub proof fn lemma_history_step(rec: TaskRecord, ops: Seq<Operation>, i: int)
    requires
        0 <= i < ops.len(),
    ensures
        run(rec, ops.take(i + 1)) == apply(run(rec, ops.take(i)), ops[i]),
        run(rec, ops.take(i + 1)).status.rank() == run(rec, ops.take(i)).status.rank() || run(
            rec,
            ops.take(i + 1),
        ).status.rank() == run(rec, ops.take(i)).status.rank() + 1,
{
    assert(ops.take(i + 1).drop_last() =~= ops.take(i));
    assert(ops.take(i + 1).last() == ops[i]);
    lemma_step_in_order(run(rec, ops.take(i)), ops[i]);
}

/// Over any history of operations the status never moves back, and what a
/// single operation keeps is kept throughout: the task's description and
/// parties, the operator of a task that has one, a positive verification,
/// and the record's invariant.
pub proof fn lemma_history_in_order(rec: TaskRecord, ops: Seq<Operation>)
    ensures
        run(rec, ops).status.rank() >= rec.status.rank(),
        same_task(rec, run(rec, ops)),
        rec.status != TaskStatus::Created ==> run(rec, ops).operator == rec.operator,
        rec.verification_result ==> run(rec, ops).verification_result && run(
            rec,
            ops,
        ).verification_report_hash == rec.verification_report_hash,
        rec.wf() ==> run(rec, ops).wf(),
    decreases ops.len(),
{
    if ops.len() > 0 {
        let front = ops.drop_last();
        lemma_history_in_order(rec, front);
        lemma_step_in_order(run(rec, front), ops.last());
    }
}

} // verus!
