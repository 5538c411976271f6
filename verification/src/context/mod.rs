//! The operations of the registry. Each takes the records it works on and the
//! identity that asks, checks everything before it changes anything, and
//! reports one event on success.

pub mod delete_file;
pub mod grant_access;
pub mod initialize_user;
pub mod invariants;
pub mod record_file_access;
pub mod revoke_access;
pub mod update_file_publicity;
pub mod upload_file;
pub mod verify_file;
