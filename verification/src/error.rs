use vstd::prelude::*;

verus! {

/// Why an operation on a task record was rejected.
#[derive(Clone, Copy, Debug, PartialEq, Eq, Structural)]
pub enum DroneforceError {
    /// The description is longer than the record can hold.
    DescriptionTooLong,
    /// The reference to the execution log is longer than the record can hold.
    ArweaveTxIdTooLong,
    /// The task is not in the status that the operation starts from.
    InvalidTaskStatus,
    /// The signer is not the operator recorded on the task.
    UnauthorizedOperator,
    /// The latitude lies outside of -90 to +90 degrees.
    InvalidLatitude,
    /// The longitude lies outside of -180 to +180 degrees.
    InvalidLongitude,
    /// The signer is not the validator recorded on the task.
    UnauthorizedValidator,
    /// A positive verification has already been recorded.
    AlreadyVerified,
}

} // verus!
