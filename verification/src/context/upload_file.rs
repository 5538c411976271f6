//! Registering a file.

use vstd::prelude::*;
use crate::clock::unix_timestamp;
use crate::errors::rejected_with;
use crate::errors::DenftError;
use crate::events::FileUploaded;
use crate::generate_verification_id::generate_verification_id;
use crate::generate_verification_id::spec_verification_id;
use crate::pubkey::Pubkey;
use crate::state::constants::MAX_CONTENT_TYPE_LENGTH;
use crate::state::constants::MAX_DESCRIPTION_LENGTH;
use crate::state::constants::MAX_FILE_SIZE;
use crate::state::constants::MAX_IPFS_HASH_LENGTH;
use crate::state::file_record::byte_len;
use crate::state::file_record::spec_byte_len;
use crate::state::file_record::FileRecord;
use crate::state::user_account::UserAccount;

verus! {

/// What registering a file works on.
#[derive(Clone, Debug, PartialEq, Eq)]
pub struct UploadFile {
    /// The quota account that pays for the file.
    pub user_account: UserAccount,
    /// The address that the owner and the content hash give the file's record.
    pub file_id: Pubkey,
    /// What stands at that address: `None` while the owner has not registered
    /// this content.
    pub file_record: Option<FileRecord>,
    /// The identity that asks, and that will own the file.
    pub authority: Pubkey,
}

/// Why a registration is rejected, if it is. The arguments are judged first,
/// then the caller, then the records, then the quota. The three bounded
/// texts are measured in bytes; the metadata has no bound here.
pub open spec fn upload_file_error(
    ctx: UploadFile,
    ipfs_hash: Seq<char>,
    file_size: u64,
    content_type: Seq<char>,
    description: Seq<char>,
) -> Option<DenftError> {
    if file_size == 0 || file_size > MAX_FILE_SIZE {
        Some(DenftError::InvalidFileSize)
    } else if spec_byte_len(ipfs_hash) > MAX_IPFS_HASH_LENGTH {
        Some(DenftError::IpfsHashTooLong)
    } else if spec_byte_len(content_type) > MAX_CONTENT_TYPE_LENGTH {
        Some(DenftError::ContentTypeTooLong)
    } else if spec_byte_len(description) > MAX_DESCRIPTION_LENGTH {
        Some(DenftError::DescriptionTooLong)
    } else if ctx.user_account.owner != ctx.authority {
        Some(DenftError::Unauthorized)
    } else if !ctx.user_account.is_active {
        Some(DenftError::UserAccountInactive)
    } else if ctx.file_record is Some {
        Some(DenftError::AlreadyExists)
    } else if !ctx.user_account.spec_can_add_file(file_size) {
        Some(DenftError::FileLimitExceeded)
    } else {
        None
    }
}

/// The record of a file as `owner` registers it at time `now`: active, never
/// accessed, not public, with the id that the hash and the time give.
pub open spec fn new_file_record(
    owner: Pubkey,
    file_hash: [u8; 32],
    ipfs_hash: String,
    encrypted_metadata: String,
    file_size: u64,
    content_type: String,
    description: String,
    now: i64,
) -> FileRecord {
    FileRecord {
        owner,
        file_hash,
        ipfs_hash,
        encrypted_metadata,
        file_size,
        content_type,
        description,
        timestamp: now,
        is_public_verification: false,
        access_count: 0,
        download_count: 0,
        is_active: true,
        deleted_at: None,
        verification_id: spec_verification_id(file_hash@, now),
    }
}

/// The records after the operation at time `now`, and what it returns.
pub open spec fn upload_file_outcome(
    ctx: UploadFile,
    file_hash: [u8; 32],
    ipfs_hash: String,
    encrypted_metadata: String,
    file_size: u64,
    content_type: String,
    description: String,
    now: i64,
) -> (UploadFile, Result<FileUploaded, DenftError>) {
    match upload_file_error(ctx, ipfs_hash@, file_size, content_type@, description@) {
        Some(e) => (ctx, Err(e)),
        None => {
            let record = new_file_record(
                ctx.authority,
                file_hash,
                ipfs_hash,
                encrypted_metadata,
                file_size,
                content_type,
                description,
                now,
            );
            (
                UploadFile {
                    user_account: ctx.user_account.with_file_added(file_size),
                    file_record: Some(record),
                    ..ctx
                },
                Ok(
                    FileUploaded {
                        file_id: ctx.file_id,
                        owner: ctx.authority,
                        file_hash,
                        ipfs_hash,
                        file_size,
                        timestamp: now,
                        verification_id: record.verification_id,
                    },
                ),
            )
        },
    }
}

impl UploadFile {
    /// Decides, without changing anything, whether a registration is
    /// rejected, and why.
    pub fn check(
        &self,
        ipfs_hash: &String,
        file_size: u64,
        content_type: &String,
        description: &String,
    ) -> (rejection: Option<DenftError>)
        ensures
            rejection == upload_file_error(
                *self,
                ipfs_hash@,
                file_size,
                content_type@,
                description@,
            ),
    {
        if file_size == 0 || file_size > MAX_FILE_SIZE {
            Some(DenftError::InvalidFileSize)
        } else if byte_len(ipfs_hash) > MAX_IPFS_HASH_LENGTH {
            Some(DenftError::IpfsHashTooLong)
        } else if byte_len(content_type) > MAX_CONTENT_TYPE_LENGTH {
            Some(DenftError::ContentTypeTooLong)
        } else if byte_len(description) > MAX_DESCRIPTION_LENGTH {
            Some(DenftError::DescriptionTooLong)
        } else if self.user_account.owner != self.authority {
            Some(DenftError::Unauthorized)
        } else if !self.user_account.is_active {
            Some(DenftError::UserAccountInactive)
        } else if self.file_record.is_some() {
            Some(DenftError::AlreadyExists)
        } else if !self.user_account.can_add_file(file_size) {
            Some(DenftError::FileLimitExceeded)
        } else {
            None
        }
    }
}

/// Registers a file for `ctx.authority` at time `now`: creates its record and
/// takes its size off the account's headroom. A file of size zero or above
/// the per-file maximum is always rejected as `InvalidFileSize`. A rejected
/// registration changes nothing.
pub fn upload_file_at(
    ctx: &mut UploadFile,
    file_hash: [u8; 32],
    ipfs_hash: String,
    encrypted_metadata: String,
    file_size: u64,
    content_type: String,
    description: String,
    now: i64,
) -> (result: Result<FileUploaded, DenftError>)
    ensures
        (*final(ctx), result) == upload_file_outcome(
            *old(ctx),
            file_hash,
            ipfs_hash,
            encrypted_metadata,
            file_size,
            content_type,
            description,
            now,
        ),
        file_size == 0 || file_size > MAX_FILE_SIZE ==> rejected_with(
            result,
            DenftError::InvalidFileSize,
        ),
        result is Err ==> *final(ctx) == *old(ctx),
        old(ctx).user_account.within_limits() ==> final(ctx).user_account.within_limits(),
        result is Ok ==> (final(ctx).file_record matches Some(record) && record.wf()),
{
    if let Some(e) = ctx.check(&ipfs_hash, file_size, &content_type, &description) {
        return Err(e);
    }
    let verification_id = generate_verification_id(&file_hash, &now);
    let event = FileUploaded {
        file_id: ctx.file_id,
        owner: ctx.authority,
        file_hash,
        ipfs_hash: ipfs_hash.clone(),
        file_size,
        timestamp: now,
        verification_id,
    };
    ctx.file_record = Some(
        FileRecord {
            owner: ctx.authority,
            file_hash,
            ipfs_hash,
            encrypted_metadata,
            file_size,
            content_type,
            description,
            timestamp: now,
            is_public_verification: false,
            access_count: 0,
            download_count: 0,
            is_active: true,
            deleted_at: None,
            verification_id,
        },
    );
    ctx.user_account.add_file(file_size);
    Ok(event)
}

/// Registers a file for `ctx.authority` at the cluster's current time. A
/// rejection does not depend on the clock; otherwise the clock is read, and
/// either it fails and nothing changes, or the outcome is that of
/// `upload_file_at` at the time read.
pub fn upload_file(
    ctx: &mut UploadFile,
    file_hash: [u8; 32],
    ipfs_hash: String,
    encrypted_metadata: String,
    file_size: u64,
    content_type: String,
    description: String,
) -> (result: Result<FileUploaded, DenftError>)
    ensures
        upload_file_error(
            *old(ctx),
            ipfs_hash@,
            file_size,
            content_type@,
            description@,
        ) matches Some(e) ==> rejected_with(result, e),
        file_size == 0 || file_size > MAX_FILE_SIZE ==> rejected_with(
            result,
            DenftError::InvalidFileSize,
        ),
        ({
            ||| rejected_with(result, DenftError::ClockUnavailable) && *final(ctx) == *old(ctx)
            ||| exists|now: i64|
                (*final(ctx), result) == #[trigger] upload_file_outcome(
                    *old(ctx),
                    file_hash,
                    ipfs_hash,
                    encrypted_metadata,
                    file_size,
                    content_type,
                    description,
                    now,
                )
        }),
        result is Err ==> *final(ctx) == *old(ctx),
{
    if let Some(e) = ctx.check(&ipfs_hash, file_size, &content_type, &description) {
        let rejected: Result<FileUploaded, DenftError> = Err(e);
        assert((*ctx, rejected) == upload_file_outcome(
            *old(ctx),
            file_hash,
            ipfs_hash,
            encrypted_metadata,
            file_size,
            content_type,
            description,
            0,
        ));
        return rejected;
    }
    match unix_timestamp() {
        Ok(now) => upload_file_at(
            ctx,
            file_hash,
            ipfs_hash,
            encrypted_metadata,
            file_size,
            content_type,
            description,
            now,
        ),
        Err(e) => Err(e),
    }
}

} // verus!
