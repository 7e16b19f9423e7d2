pub mod project;
pub mod task;
pub mod user;
