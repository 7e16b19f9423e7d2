//! Core logic of a small task-tracking web service: the data model, the SQL
//! text that the repositories send, the in-memory task store, the error
//! replies of the HTTP layer and the decision steps of authentication.

pub mod text;
pub mod models;
pub mod repository;
pub mod api;
pub mod services;
pub mod auth;
pub mod messaging;
