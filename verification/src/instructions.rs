//! The four operations on a task record, each with its guard.

pub mod accept_task;
pub mod complete_task;
pub mod create_task;
pub mod record_verification;

pub use accept_task::{AcceptTask, TaskAcceptedEvent};
pub use complete_task::{CompleteTask, TaskCompletedEvent};
pub use create_task::{CreateTask, TaskCreatedEvent};
pub use record_verification::{RecordVerification, TaskVerifiedEvent};
