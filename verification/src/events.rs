//! What each operation reports on success, for indexers and monitors.

use vstd::prelude::*;
use crate::pubkey::Pubkey;
use crate::state::access_permission::AccessType;

verus! {

/// A quota account was created.
#[derive(Clone, Copy, Debug, PartialEq, Eq)]
pub struct UserInitialized {
    pub user: Pubkey,
    pub timestamp: i64,
}

/// A file was registered.
#[derive(Clone, Debug, PartialEq, Eq)]
pub struct FileUploaded {
    pub file_id: Pubkey,
    pub owner: Pubkey,
    pub file_hash: [u8; 32],
    pub ipfs_hash: String,
    pub file_size: u64,
    pub timestamp: i64,
    pub verification_id: u64,
}

/// Rights on a file were granted.
#[derive(Clone, Copy, Debug, PartialEq, Eq)]
pub struct AccessGranted {
    pub file_id: Pubkey,
    pub owner: Pubkey,
    pub accessor: Pubkey,
    pub permissions: u8,
    pub granted_at: i64,
    pub expires_at: Option<i64>,
}

/// A grant was revoked.
#[derive(Clone, Copy, Debug, PartialEq, Eq)]
pub struct AccessRevoked {
    pub file_id: Pubkey,
    pub owner: Pubkey,
    pub accessor: Pubkey,
    pub revoked_at: i64,
}

/// A presented hash was confirmed against a file's record. The id and the
/// registration time show that the record stands as it was registered.
#[derive(Clone, Copy, Debug, PartialEq, Eq)]
pub struct FileVerified {
    pub file_id: Pubkey,
    pub verifier: Pubkey,
    pub file_hash: [u8; 32],
    pub verified_at: i64,
    pub original_timestamp: i64,
    pub verification_id: u64,
}

/// A file was accessed under a grant.
#[derive(Clone, Copy, Debug, PartialEq, Eq)]
pub struct FileAccessed {
    pub file_id: Pubkey,
    pub accessor: Pubkey,
    pub access_type: AccessType,
    pub timestamp: i64,
}

/// A file was deleted.
#[derive(Clone, Copy, Debug, PartialEq, Eq)]
pub struct FileDeleted {
    pub file_id: Pubkey,
    pub owner: Pubkey,
    pub deleted_at: i64,
}

/// A file's public-verification flag was set.
#[derive(Clone, Copy, Debug, PartialEq, Eq)]
pub struct FilePublicityUpdated {
    pub file_id: Pubkey,
    pub owner: Pubkey,
    pub is_public: bool,
    pub updated_at: i64,
}

} // verus!
