//! Lifecycle of a drone task recorded on a shared ledger: the record, the
//! guards of each operation, and the transitions between task states.
//!
//! The entry points below are the program's four operations. Each takes the
//! accounts that the ledger has loaded for the call, the operation's
//! arguments and the ledger's time, and returns the event to publish.

use crate::error::DroneforceError;
use crate::instructions::accept_task::{accept_outcome, AcceptTask, TaskAcceptedEvent};
use crate::instructions::complete_task::{complete_outcome, CompleteTask, TaskCompletedEvent};
use crate::instructions::create_task::{create_outcome, CreateTask, TaskCreatedEvent};
use crate::instructions::record_verification::{
    verification_outcome, RecordVerification, TaskVerifiedEvent,
};
use crate::state::identity::Identity;
use crate::state::task::TaskRecord;
use vstd::prelude::*;

pub mod error;
pub mod helpers;
pub mod instructions;
pub mod lifecycle;
pub mod state;

verus! {

/// Create: publishes a task at a location given in fixed point. Succeeds
/// exactly where the description fits and the location is on the globe;
/// the record then holds the new task, and else is left as it was.
pub fn create_task(
    ctx: &mut CreateTask,
    task_id: String,
    location_lat: i64,
    location_lng: i64,
    area_size: u32,
    task_type: u8,
    altitude: u16,
    geofencing_enabled: bool,
    description: String,
    validator_pubkey: Identity,
    now: i64,
) -> (r: Result<TaskCreatedEvent, DroneforceError>)
    ensures
        final(ctx).creator == old(ctx).creator,
        final(ctx).bump == old(ctx).bump,
        r is Ok ==> create_outcome(
            old(ctx).creator@,
            validator_pubkey@,
            old(ctx).bump as nat,
            location_lat as int,
            location_lng as int,
            area_size as nat,
            task_type as nat,
            altitude as nat,
            geofencing_enabled,
            description@,
            now as int,
        ) == Ok::<TaskRecord, DroneforceError>(final(ctx).task@),
        r is Ok ==> r->Ok_0.task_id == task_id && r->Ok_0.creator == old(ctx).creator
            && r->Ok_0.timestamp == now,
        r is Ok ==> final(ctx).task.wf(),
        r is Err ==> create_outcome(
            old(ctx).creator@,
            validator_pubkey@,
            old(ctx).bump as nat,
            location_lat as int,
            location_lng as int,
            area_size as nat,
            task_type as nat,
            altitude as nat,
            geofencing_enabled,
            description@,
            now as int,
        ) == Err::<TaskRecord, DroneforceError>(r->Err_0),
        r is Err ==> *final(ctx) == *old(ctx),
{
    crate::instructions::create_task::handler(
        ctx,
        task_id,
        location_lat,
        location_lng,
        area_size,
        task_type,
        altitude,
        geofencing_enabled,
        description,
        validator_pubkey,
        now,
    )
}

/// Accept: the signer claims an open task and becomes its operator.
/// Succeeds exactly on a task in status `Created`.
pub fn accept_task(ctx: &mut AcceptTask, now: i64) -> (r: Result<
    TaskAcceptedEvent,
    DroneforceError,
>)
    ensures
        final(ctx).operator == old(ctx).operator,
        r is Ok ==> accept_outcome(old(ctx).task@, old(ctx).operator@, now as int) == Ok::<
            TaskRecord,
            DroneforceError,
        >(final(ctx).task@),
        r is Ok ==> r->Ok_0.operator == old(ctx).operator && r->Ok_0.timestamp == now,
        r is Err ==> accept_outcome(old(ctx).task@, old(ctx).operator@, now as int) == Err::<
            TaskRecord,
            DroneforceError,
        >(r->Err_0),
        r is Err ==> *final(ctx) == *old(ctx),
        old(ctx).task.wf() ==> final(ctx).task.wf(),
{
    crate::instructions::accept_task::handler(ctx, now)
}

/// Complete: the operator reports the execution of an accepted task.
/// Succeeds exactly where the task is `Accepted`, the signer is its
/// operator and the log's reference fits.
pub fn complete_task(
    ctx: &mut CompleteTask,
    arweave_tx_id: String,
    log_hash: [u8; 32],
    signature: [u8; 64],
    now: i64,
) -> (r: Result<TaskCompletedEvent, DroneforceError>)
    ensures
        final(ctx).operator == old(ctx).operator,
        r is Ok ==> complete_outcome(
            old(ctx).task@,
            old(ctx).operator@,
            arweave_tx_id@,
            log_hash@,
            signature@,
            now as int,
        ) == Ok::<TaskRecord, DroneforceError>(final(ctx).task@),
        r is Ok ==> r->Ok_0.operator == old(ctx).operator && r->Ok_0.arweave_tx_id@
            == arweave_tx_id@ && r->Ok_0.timestamp == now,
        r is Err ==> complete_outcome(
            old(ctx).task@,
            old(ctx).operator@,
            arweave_tx_id@,
            log_hash@,
            signature@,
            now as int,
        ) == Err::<TaskRecord, DroneforceError>(r->Err_0),
        r is Err ==> *final(ctx) == *old(ctx),
        old(ctx).task.wf() ==> final(ctx).task.wf(),
{
    crate::instructions::complete_task::handler(ctx, arweave_tx_id, log_hash, signature, now)
}

/// RecordVerification: the validator writes the outcome of the
/// verification. Succeeds exactly where the signer is the task's validator
/// and no positive outcome stands on the record, in any status.
pub fn record_verification(
    ctx: &mut RecordVerification,
    task_id: String,
    verification_result: bool,
    verification_report_hash: [u8; 32],
    now: i64,
) -> (r: Result<TaskVerifiedEvent, DroneforceError>)
    ensures
        final(ctx).validator == old(ctx).validator,
        r is Ok ==> verification_outcome(
            old(ctx).task@,
            old(ctx).validator@,
            verification_result,
            verification_report_hash@,
            now as int,
        ) == Ok::<TaskRecord, DroneforceError>(final(ctx).task@),
        r is Ok ==> r->Ok_0.task_id == task_id && r->Ok_0.validator == old(ctx).validator
            && r->Ok_0.verification_result == verification_result && r->Ok_0.timestamp == now,
        r is Err ==> verification_outcome(
            old(ctx).task@,
            old(ctx).validator@,
            verification_result,
            verification_report_hash@,
            now as int,
        ) == Err::<TaskRecord, DroneforceError>(r->Err_0),
        r is Err ==> *final(ctx) == *old(ctx),
        old(ctx).task.wf() ==> final(ctx).task.wf(),
{
    crate::instructions::record_verification::handler(
        ctx,
        task_id,
        verification_result,
        verification_report_hash,
        now,
    )
}

} // verus!
