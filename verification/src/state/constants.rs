//! Platform limits.

use vstd::prelude::*;

verus! {

/// How many files one account may hold.
pub const MAX_FILES_PER_USER: u32 = 100;

/// How many bytes one account may hold: 1 GiB.
pub const MAX_STORAGE_PER_USER: u64 = 1024 * 1024 * 1024;

/// How many identities one file may be shared with.
pub const MAX_SHARED_USERS_PER_FILE: u8 = 10;

/// The largest file that can be registered: 10 MiB.
pub const MAX_FILE_SIZE: u64 = 10 * 1024 * 1024;

/// Capacity in bytes reserved for a file's description.
pub const MAX_DESCRIPTION_LENGTH: usize = 500;

/// Capacity in bytes reserved for a file's content pointer.
pub const MAX_IPFS_HASH_LENGTH: usize = 100;

/// Capacity in bytes reserved for a file's content type.
pub const MAX_CONTENT_TYPE_LENGTH: usize = 100;

} // verus!
