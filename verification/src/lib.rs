//! A file-provenance registry with delegated access control.
//!
//! Users register file fingerprints under a per-account quota, and may grant
//! other identities time- and count-bounded rights on a registered file.
//! Three kinds of record carry the state: `UserAccount`, `FileRecord` and
//! `AccessPermission`. The operations in `context` are the only way the
//! records change; each one checks the caller, the records and the quota
//! before it changes anything.

pub mod clock;
pub mod context;
pub mod errors;
pub mod events;
pub mod generate_verification_id;
pub mod pubkey;
pub mod state;

pub use context::delete_file::{delete_file, delete_file_at, DeleteFile};
pub use context::grant_access::{grant_access, grant_access_at, GrantAccess};
pub use context::initialize_user::{initialize_user, initialize_user_at, InitializeUser};
pub use context::record_file_access::{
    record_file_access, record_file_access_at, RecordFileAccess,
};
pub use context::revoke_access::{revoke_access, revoke_access_at, RevokeAccess};
pub use context::update_file_publicity::{
    update_file_publicity, update_file_publicity_at, UpdateFilePublicity,
};
pub use context::upload_file::{upload_file, upload_file_at, UploadFile};
pub use context::verify_file::{verify_file, verify_file_at, VerifyFile};
pub use errors::DenftError;
pub use events::{
    AccessGranted, AccessRevoked, FileAccessed, FileDeleted, FilePublicityUpdated, FileUploaded,
    FileVerified, UserInitialized,
};
pub use generate_verification_id::generate_verification_id;
pub use pubkey::Pubkey;
pub use state::access_permission::{
    AccessPermission, AccessType, PERMISSION_DOWNLOAD, PERMISSION_READ, PERMISSION_SHARE,
};
pub use state::constants::{
    MAX_CONTENT_TYPE_LENGTH, MAX_DESCRIPTION_LENGTH, MAX_FILES_PER_USER, MAX_FILE_SIZE,
    MAX_IPFS_HASH_LENGTH, MAX_SHARED_USERS_PER_FILE, MAX_STORAGE_PER_USER,
};
pub use state::file_record::FileRecord;
pub use state::user_account::UserAccount;
