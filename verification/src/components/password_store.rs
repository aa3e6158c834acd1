//! The entries of the secret store.
pub mod password_info;

pub use password_info::PasswordInfo;
