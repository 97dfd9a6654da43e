//! What is stored on the ledger: identities and the task record.

pub mod identity;
pub mod task;
pub mod task_types;
