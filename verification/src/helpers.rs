use crate::error::DroneforceError;
use crate::state::identity::{zero_bytes, Identity};
use crate::state::task::{
    byte_len, TaskAccount, TaskStatus, MAX_ARWEAVE_TX_ID_LEN, MAX_DESCRIPTION_LEN, MAX_LATITUDE,
    MAX_LONGITUDE,
};
use vstd::prelude::*;

verus! {

/// What the check of a fixed-point location says: the latitude is looked at
/// first, both bounds of each range are allowed.
pub open spec fn coordinates_check(lat: int, lng: int) -> Result<(), DroneforceError> {
    if !(-900_000_000 <= lat <= 900_000_000) {
        Err(DroneforceError::InvalidLatitude)
    } else if !(-1_800_000_000 <= lng <= 1_800_000_000) {
        Err(DroneforceError::InvalidLongitude)
    } else {
        Ok(())
    }
}

/// What the check of a new task's input says: the description's length is
/// looked at before the location.
pub open spec fn task_input_check(description: Seq<char>, lat: int, lng: int) -> Result<
    (),
    DroneforceError,
> {
    if byte_len(description) > 256 {
        Err(DroneforceError::DescriptionTooLong)
    } else {
        coordinates_check(lat, lng)
    }
}

/// What the check of a completion's input says.
pub open spec fn completion_data_check(arweave_tx_id: Seq<char>) -> Result<(), DroneforceError> {
    if byte_len(arweave_tx_id) > 64 {
        Err(DroneforceError::ArweaveTxIdTooLong)
    } else {
        Ok(())
    }
}

/// Bytes that a text takes when stored.
pub fn stored_len(text: &str) -> (n: usize)
    ensures
        n == byte_len(text@),
{
    text.as_bytes().len()
}

/// Checks that a fixed-point location lies within ±90° of latitude and
/// ±180° of longitude.
pub fn validate_coordinates(lat: i64, lng: i64) -> (r: Result<(), DroneforceError>)
    ensures
        r == coordinates_check(lat as int, lng as int),
{
    if lat < -MAX_LATITUDE || lat > MAX_LATITUDE {
        return Err(DroneforceError::InvalidLatitude);
    }
    if lng < -MAX_LONGITUDE || lng > MAX_LONGITUDE {
        return Err(DroneforceError::InvalidLongitude);
    }
    Ok(())
}

/// Checks what a new task is described by: the description's length in
/// bytes, then the location.
pub fn validate_task_input(description: &str, lat: i64, lng: i64) -> (r: Result<
    (),
    DroneforceError,
>)
    ensures
        r == task_input_check(description@, lat as int, lng as int),
{
    if stored_len(description) > MAX_DESCRIPTION_LEN {
        return Err(DroneforceError::DescriptionTooLong);
    }
    validate_coordinates(lat, lng)
}

/// Puts the lifecycle fields of a record into their state at creation:
/// status `Created`, no operator, no trace of an execution.
pub fn initialize_task_account(task: &mut TaskAccount, creator: Identity, timestamp: i64)
    ensures
        final(task)@ == old(task)@.initialized(creator@, timestamp as int),
{
    task.status = TaskStatus::Created;
    task.operator = Identity::unassigned();
    task.arweave_tx_id = String::new();
    task.log_hash = [0u8; 32];
    task.signature = [0u8; 64];
    task.timestamp = timestamp;
    task.creator = creator;
    assert(task.log_hash@ =~= zero_bytes(32));
    assert(task.signature@ =~= zero_bytes(64));
}

/// Checks the length in bytes of the reference to the execution log.
pub fn validate_completion_data(arweave_tx_id: &str) -> (r: Result<(), DroneforceError>)
    ensures
        r == completion_data_check(arweave_tx_id@),
{
    if stored_len(arweave_tx_id) > MAX_ARWEAVE_TX_ID_LEN {
        return Err(DroneforceError::ArweaveTxIdTooLong);
    }
    Ok(())
}

} // verus!
