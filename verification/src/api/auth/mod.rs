pub mod login;
pub mod user;
