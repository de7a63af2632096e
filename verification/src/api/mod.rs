pub mod auth;
pub mod errors;
pub mod tasks;
