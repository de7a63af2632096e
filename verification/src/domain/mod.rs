pub mod api_key;
pub mod credentials;
pub mod task;
