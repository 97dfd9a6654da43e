use crate::error::DroneforceError;
use crate::helpers::{initialize_task_account, task_input_check, validate_task_input};
use crate::state::identity::{zero_bytes, Identity};
use crate::state::task::{TaskAccount, TaskRecord};
use vstd::prelude::*;

verus! {

/// What Create works on: the record that storage has set aside for the
/// task, the signer, who becomes its creator, and the bump of the record's
/// address.
#[derive(Clone, Debug, PartialEq, Eq)]
pub struct CreateTask {
    pub task: TaskAccount,
    pub creator: Identity,
    pub bump: u8,
}

/// Tells that a task was created.
#[derive(Clone, Debug, PartialEq, Eq)]
pub struct TaskCreatedEvent {
    pub task_id: String,
    pub creator: Identity,
    pub timestamp: i64,
}

/// What Create by `creator` at `now` writes, or why it is rejected.
pub open spec fn create_outcome(
    creator: Seq<u8>,
    validator: Seq<u8>,
    bump: nat,
    latitude: int,
    longitude: int,
    area_size: nat,
    task_type: nat,
    altitude: nat,
    geofencing_enabled: bool,
    description: Seq<char>,
    now: int,
) -> Result<TaskRecord, DroneforceError> {
    match task_input_check(description, latitude, longitude) {
        Err(e) => Err(e),
        Ok(_) => Ok(
            TaskRecord::created(
                creator,
                validator,
                bump,
                latitude,
                longitude,
                area_size,
                task_type,
                altitude,
                geofencing_enabled,
                description,
                now,
            ),
        ),
    }
}

/// Create: the signer publishes a task at a location given in fixed point.
/// On success the record holds the task as described, status `Created`, no
/// operator, no verification and the time `now`, and meets the record's
/// invariant; a rejected call leaves everything as it was.
pub fn handler(
    ctx: &mut CreateTask,
    task_id: String,
    location_lat: i64,
    location_lng: i64,
    area_size: u32,
    task_type: u8,
    altitude: u16,
    geofencing_enabled: bool,
    description: String,
    validator_pubkey: Identity,
    now: i64,
) -> (r: Result<TaskCreatedEvent, DroneforceError>)
    ensures
        final(ctx).creator == old(ctx).creator,
        final(ctx).bump == old(ctx).bump,
        r is Ok ==> create_outcome(
            old(ctx).creator@,
            validator_pubkey@,
            old(ctx).bump as nat,
            location_lat as int,
            location_lng as int,
            area_size as nat,
            task_type as nat,
            altitude as nat,
            geofencing_enabled,
            description@,
            now as int,
        ) == Ok::<TaskRecord, DroneforceError>(final(ctx).task@),
        r is Ok ==> r->Ok_0.task_id == task_id && r->Ok_0.creator == old(ctx).creator
            && r->Ok_0.timestamp == now,
        r is Ok ==> final(ctx).task.wf(),
        r is Err ==> create_outcome(
            old(ctx).creator@,
            validator_pubkey@,
            old(ctx).bump as nat,
            location_lat as int,
            location_lng as int,
            area_size as nat,
            task_type as nat,
            altitude as nat,
            geofencing_enabled,
            description@,
            now as int,
        ) == Err::<TaskRecord, DroneforceError>(r->Err_0),
        r is Err ==> *final(ctx) == *old(ctx),
{
    match validate_task_input(description.as_str(), location_lat, location_lng) {
        Ok(_) => {},
        Err(e) => {
            return Err(e);
        },
    }
    ctx.task.location_lat = location_lat;
    ctx.task.location_lng = location_lng;
    ctx.task.area_size = area_size;
    ctx.task.task_type = task_type;
    ctx.task.altitude = altitude;
    ctx.task.geofencing_enabled = geofencing_enabled;
    ctx.task.description = description;
    ctx.task.bump = ctx.bump;
    ctx.task.validator_pubkey = validator_pubkey;
    ctx.task.verification_result = false;
    ctx.task.verification_report_hash = [0u8; 32];
    assert(ctx.task.verification_report_hash@ =~= zero_bytes(32));
    initialize_task_account(&mut ctx.task, ctx.creator, now);
    Ok(TaskCreatedEvent { task_id, creator: ctx.creator, timestamp: now })
}

} // verus!
