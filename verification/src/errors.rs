//! The failures an operation of the registry can report.

use vstd::prelude::*;

verus! {

/// Why an operation was rejected. A rejected operation leaves every record
/// it was given unchanged.
#[derive(Clone, Copy, Debug, PartialEq, Eq, Structural)]
pub enum DenftError {
    /// The file size is zero or above the per-file maximum.
    InvalidFileSize,
    /// The content pointer is longer than its reserved capacity.
    IpfsHashTooLong,
    /// The content type is longer than its reserved capacity.
    ContentTypeTooLong,
    /// The description is longer than its reserved capacity.
    DescriptionTooLong,
    /// The account has no headroom left for the file, in its file count or
    /// in its storage.
    FileLimitExceeded,
    /// The account's storage ceiling would be exceeded. No operation reports
    /// it: a registration without headroom is a `FileLimitExceeded`.
    StorageLimitExceeded,
    /// The permission mask is empty or has bits outside the three flags.
    InvalidPermissions,
    /// The expiration time is not in the future.
    InvalidExpirationTime,
    /// The grant was revoked before.
    AccessAlreadyRevoked,
    /// The presented hash is not the recorded one.
    FileHashMismatch,
    /// The file has been deleted.
    FileNotActive,
    /// The grant has been revoked.
    AccessRevoked,
    /// The grant has expired.
    AccessExpired,
    /// The grant's download allowance is used up.
    DownloadLimitExceeded,
    /// The file was deleted before.
    FileAlreadyDeleted,
    /// The caller is not the identity the record names.
    Unauthorized,
    /// The user account is deactivated.
    UserAccountInactive,
    /// The grant does not belong to the file it was presented with.
    InvalidAccessPermission,
    /// A record already stands at the address the new record would take.
    AlreadyExists,
    /// The cluster clock could not be read.
    ClockUnavailable,
}

/// `result` is the rejection `e`.
pub open spec fn rejected_with<T>(result: Result<T, DenftError>, e: DenftError) -> bool {
    result == Err::<T, DenftError>(e)
}

} // verus!
