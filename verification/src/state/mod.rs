//! The three record types and the platform limits.

pub mod access_permission;
pub mod constants;
pub mod file_record;
pub mod user_account;
