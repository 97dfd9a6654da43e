use droneforce_contract::error::DroneforceError;
use droneforce_contract::helpers::{
    initialize_task_account, stored_len, validate_completion_data, validate_coordinates,
    validate_task_input,
};
use droneforce_contract::state::identity::Identity;
use droneforce_contract::state::task::{
    TaskAccount, TaskStatus, COORDINATE_SCALE, MAX_ARWEAVE_TX_ID_LEN, MAX_DESCRIPTION_LEN,
    MAX_LATITUDE, MAX_LONGITUDE,
};
use std::str::FromStr;

#[test]
fn latitude_bounds_are_inclusive() {
    assert_eq!(validate_coordinates(900_000_000, 0), Ok(()));
    assert_eq!(validate_coordinates(-900_000_000, 0), Ok(()));
    assert_eq!(validate_coordinates(900_000_001, 0), Err(DroneforceError::InvalidLatitude));
    assert_eq!(validate_coordinates(-900_000_001, 0), Err(DroneforceError::InvalidLatitude));
    assert_eq!(validate_coordinates(i64::MIN, 0), Err(DroneforceError::InvalidLatitude));
    assert_eq!(validate_coordinates(i64::MAX, 0), Err(DroneforceError::InvalidLatitude));
}

#[test]
fn longitude_bounds_are_inclusive() {
    assert_eq!(validate_coordinates(0, 1_800_000_000), Ok(()));
    assert_eq!(validate_coordinates(0, -1_800_000_000), Ok(()));
    assert_eq!(validate_coordinates(0, 1_800_000_001), Err(DroneforceError::InvalidLongitude));
    assert_eq!(validate_coordinates(0, -1_800_000_001), Err(DroneforceError::InvalidLongitude));
    assert_eq!(validate_coordinates(0, i64::MIN), Err(DroneforceError::InvalidLongitude));
    assert_eq!(validate_coordinates(0, i64::MAX), Err(DroneforceError::InvalidLongitude));
}

#[test]
fn latitude_is_looked_at_before_longitude() {
    assert_eq!(
        validate_coordinates(900_000_001, 1_800_000_001),
        Err(DroneforceError::InvalidLatitude)
    );
}

#[test]
fn task_input_bounds() {
    assert_eq!(validate_task_input(&"x".repeat(256), 900_000_000, 1_800_000_000), Ok(()));
    assert_eq!(
        validate_task_input(&"x".repeat(257), 0, 0),
        Err(DroneforceError::DescriptionTooLong)
    );
    assert_eq!(validate_task_input("", 900_000_001, 0), Err(DroneforceError::InvalidLatitude));
    assert_eq!(validate_task_input("", 0, 1_800_000_001), Err(DroneforceError::InvalidLongitude));
    assert_eq!(
        validate_task_input(&"x".repeat(257), 900_000_001, 1_800_000_001),
        Err(DroneforceError::DescriptionTooLong)
    );
}

#[test]
fn lengths_are_counted_in_bytes() {
    assert_eq!(stored_len(""), 0);
    assert_eq!(stored_len("abc"), 3);
    assert_eq!(stored_len("é"), 2);
    assert_eq!(stored_len("€"), 3);
    assert_eq!(stored_len("🚁"), 4);
    assert_eq!(validate_task_input(&"é".repeat(128), 0, 0), Ok(()));
    assert_eq!(
        validate_task_input(&"é".repeat(129), 0, 0),
        Err(DroneforceError::DescriptionTooLong)
    );
    assert_eq!(validate_completion_data(&"🚁".repeat(16)), Ok(()));
    assert_eq!(
        validate_completion_data(&"🚁".repeat(17)),
        Err(DroneforceError::ArweaveTxIdTooLong)
    );
}

#[test]
fn completion_data_bounds() {
    assert_eq!(validate_completion_data(""), Ok(()));
    assert_eq!(validate_completion_data(&"t".repeat(64)), Ok(()));
    assert_eq!(
        validate_completion_data(&"t".repeat(65)),
        Err(DroneforceError::ArweaveTxIdTooLong)
    );
}

#[test]
fn limits_have_their_values() {
    assert_eq!(MAX_DESCRIPTION_LEN, 256);
    assert_eq!(MAX_ARWEAVE_TX_ID_LEN, 64);
    assert_eq!(MAX_LATITUDE, 90 * COORDINATE_SCALE);
    assert_eq!(MAX_LONGITUDE, 180 * COORDINATE_SCALE);
    assert_eq!(COORDINATE_SCALE, 10_000_000);
}

#[test]
fn initialize_resets_the_lifecycle_fields_only() {
    let mut task = TaskAccount::blank();
    task.status = TaskStatus::Completed;
    task.operator = Identity::new([3u8; 32]);
    task.arweave_tx_id = String::from("old");
    task.log_hash = [1u8; 32];
    task.signature = [2u8; 64];
    task.location_lat = 12;
    task.description = String::from("kept");
    task.verification_result = true;
    task.verification_report_hash = [4u8; 32];
    task.validator_pubkey = Identity::new([5u8; 32]);
    initialize_task_account(&mut task, Identity::new([9u8; 32]), 1234);
    assert_eq!(task.status, TaskStatus::Created);
    assert_eq!(task.operator.bytes, [0u8; 32]);
    assert_eq!(task.arweave_tx_id, "");
    assert_eq!(task.log_hash, [0u8; 32]);
    assert_eq!(task.signature, [0u8; 64]);
    assert_eq!(task.timestamp, 1234);
    assert_eq!(task.creator.bytes, [9u8; 32]);
    assert_eq!(task.location_lat, 12);
    assert_eq!(task.description, "kept");
    assert!(task.verification_result);
    assert_eq!(task.verification_report_hash, [4u8; 32]);
    assert_eq!(task.validator_pubkey.bytes, [5u8; 32]);
}

#[test]
fn unassigned_is_the_system_program() {
    let unassigned = Identity::unassigned();
    assert_eq!(unassigned.bytes, [0u8; 32]);
    assert_eq!(unassigned.bytes, anchor_lang::system_program::ID.to_bytes());
    let parsed =
        anchor_lang::prelude::Pubkey::from_str("11111111111111111111111111111111").unwrap();
    assert_eq!(unassigned.bytes, parsed.to_bytes());
}

#[test]
fn base58_addresses_are_decoded() {
    let mut expected = [0u8; 32];
    expected[31] = 1;
    assert_eq!(
        Identity::from_base58("11111111111111111111111111111112"),
        Some(Identity::new(expected))
    );
    assert_eq!(
        Identity::from_base58("11111111111111111111111111111111"),
        Some(Identity::unassigned())
    );
    let text = "DJbDiPY8wJQRjCor1rywA4ZuwUSrybAcYzAgc9F6njox";
    let id = Identity::from_base58(text).unwrap();
    assert_eq!(anchor_lang::prelude::Pubkey::new_from_array(id.bytes).to_string(), text);
    assert_ne!(id, Identity::unassigned());
}

#[test]
fn what_is_no_address_is_rejected() {
    assert_eq!(Identity::from_base58(""), None);
    assert_eq!(Identity::from_base58("0OIl"), None);
    assert_eq!(Identity::from_base58("1111"), None);
    assert_eq!(Identity::from_base58(&"1".repeat(33)), None);
    assert_eq!(Identity::from_base58(&"z".repeat(80)), None);
}

#[test]
fn identities_compare_byte_for_byte() {
    let a = Identity::new([1u8; 32]);
    let mut bytes = [1u8; 32];
    assert!(a.same_as(&Identity::new(bytes)));
    assert!(a == Identity::new(bytes));
    bytes[31] = 2;
    assert!(!a.same_as(&Identity::new(bytes)));
    assert!(a != Identity::new(bytes));
    bytes[31] = 1;
    bytes[0] = 0;
    assert!(!a.same_as(&Identity::new(bytes)));
}
