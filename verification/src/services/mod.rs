pub mod auth_service;
