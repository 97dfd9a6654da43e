use droneforce_contract::state::identity::IDENTITY_BYTES;
use droneforce_contract::state::task::{TaskAccount, TaskStatus, DISCRIMINATOR_LEN, TASK_SEED};
use droneforce_contract::state::task_types;

#[test]
fn space_is_the_sum_of_the_layout() {
    assert_eq!(TaskAccount::space(), 595);
    let fixed = DISCRIMINATOR_LEN + 3 * IDENTITY_BYTES + 1 + 32 + 64 + 8 + 8 + 8 + 4 + 1 + 2 + 1 + 1 + 1 + 32;
    assert_eq!(TaskAccount::space(), fixed + (4 + 64) + (4 + 256));
}

#[test]
fn status_tags_run_in_order() {
    assert_eq!(TaskStatus::Created.to_u8(), 0);
    assert_eq!(TaskStatus::Accepted.to_u8(), 1);
    assert_eq!(TaskStatus::Completed.to_u8(), 2);
    assert_eq!(TaskStatus::from_u8(0), Some(TaskStatus::Created));
    assert_eq!(TaskStatus::from_u8(1), Some(TaskStatus::Accepted));
    assert_eq!(TaskStatus::from_u8(2), Some(TaskStatus::Completed));
}

#[test]
fn unknown_status_tags_are_rejected() {
    assert_eq!(TaskStatus::from_u8(3), None);
    assert_eq!(TaskStatus::from_u8(255), None);
}

#[test]
fn blank_record_is_all_zero() {
    let task = TaskAccount::blank();
    assert_eq!(task.creator.bytes, [0u8; 32]);
    assert_eq!(task.operator.bytes, [0u8; 32]);
    assert_eq!(task.validator_pubkey.bytes, [0u8; 32]);
    assert_eq!(task.status, TaskStatus::Created);
    assert_eq!(task.arweave_tx_id, "");
    assert_eq!(task.description, "");
    assert_eq!(task.log_hash, [0u8; 32]);
    assert_eq!(task.signature, [0u8; 64]);
    assert_eq!(task.verification_report_hash, [0u8; 32]);
    assert_eq!(task.timestamp, 0);
    assert_eq!(task.location_lat, 0);
    assert_eq!(task.location_lng, 0);
    assert_eq!(task.area_size, 0);
    assert_eq!(task.task_type, 0);
    assert_eq!(task.altitude, 0);
    assert_eq!(task.bump, 0);
    assert!(!task.geofencing_enabled);
    assert!(!task.verification_result);
}

#[test]
fn task_types_have_their_tags() {
    assert_eq!(task_types::SURVEILLANCE, 0);
    assert_eq!(task_types::DELIVERY, 1);
    assert_eq!(task_types::INSPECTION, 2);
    assert_eq!(task_types::MAPPING, 3);
    assert_eq!(task_types::PHOTOGRAPHY, 4);
}

#[test]
fn address_seed_is_the_word_task() {
    assert_eq!(TASK_SEED.as_bytes(), b"task");
}
