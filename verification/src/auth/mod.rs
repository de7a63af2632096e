pub mod csrf;
pub mod guard;
pub mod password;
