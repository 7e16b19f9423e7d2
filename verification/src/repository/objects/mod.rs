pub mod task_dbo;
pub mod user;
