pub mod error;
pub mod task;
