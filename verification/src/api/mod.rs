pub mod auth;
pub mod errors;
pub mod health;
pub mod projects;
