//! What holds of the records across the operations.

use vstd::prelude::*;
use crate::context::delete_file::delete_file_outcome;
use crate::context::delete_file::DeleteFile;
use crate::context::grant_access::grant_access_outcome;
use crate::context::grant_access::GrantAccess;
use crate::context::record_file_access::record_file_access_fits;
use crate::context::record_file_access::record_file_access_outcome;
use crate::context::record_file_access::RecordFileAccess;
use crate::context::revoke_access::revoke_access_outcome;
use crate::context::revoke_access::RevokeAccess;
use crate::context::update_file_publicity::update_file_publicity_outcome;
use crate::context::update_file_publicity::UpdateFilePublicity;
use crate::context::upload_file::upload_file_outcome;
use crate::context::upload_file::UploadFile;
use crate::context::verify_file::verify_file_fits;
use crate::context::verify_file::verify_file_outcome;
use crate::context::verify_file::VerifyFile;
use crate::pubkey::Pubkey;
use crate::state::access_permission::AccessType;
use crate::state::file_record::FileRecord;

verus! {

/// The two counters, the status and the deletion time of `after` are those of
/// `before`.
pub open spec fn same_standing(before: FileRecord, after: FileRecord) -> bool {
    &&& after.access_count == before.access_count
    &&& after.download_count == before.download_count
    &&& after.is_active == before.is_active
    &&& after.deleted_at == before.deleted_at
}

/// Neither counter of `after` is below that of `before`.
pub open spec fn counters_not_below(before: FileRecord, after: FileRecord) -> bool {
    &&& after.access_count >= before.access_count
    &&& after.download_count >= before.download_count
}

/// A successful registration yields a well-formed record owned by the caller
/// and keeps the account within its ceilings; a rejected one leaves the
/// account's counters as they were.
pub proof fn lemma_upload_file_keeps_quota(
    ctx: UploadFile,
    file_hash: [u8; 32],
    ipfs_hash: String,
    encrypted_metadata: String,
    file_size: u64,
    content_type: String,
    description: String,
    now: i64,
)
    requires
        ctx.user_account.within_limits(),
    ensures
        ({
            let (after, result) = upload_file_outcome(
                ctx,
                file_hash,
                ipfs_hash,
                encrypted_metadata,
                file_size,
                content_type,
                description,
                now,
            );
            &&& after.user_account.within_limits()
            &&& result is Err ==> after == ctx
            &&& result is Ok ==> {
                &&& after.user_account.file_count == ctx.user_account.file_count + 1
                &&& after.user_account.storage_used == ctx.user_account.storage_used + file_size
                &&& after.file_record matches Some(record)
                &&& record.wf()
                &&& record.owner == ctx.authority
            }
        }),
{
}

/// Once a file is deleted it stays deleted, its counters never move again,
/// and nothing new is granted or consumed against it: verifying, recording
/// an access, deleting and granting are all rejected, registering the same
/// content again does not replace the record, and setting the publicity flag
/// touches that flag alone.
pub proof fn lemma_deleted_file_is_frozen(
    file_record: FileRecord,
    verify: VerifyFile,
    access: RecordFileAccess,
    delete: DeleteFile,
    grant: GrantAccess,
    publicity: UpdateFilePublicity,
    upload: UploadFile,
    ipfs_hash: String,
    encrypted_metadata: String,
    file_size: u64,
    content_type: String,
    description: String,
    file_hash: [u8; 32],
    access_type: AccessType,
    accessor: Pubkey,
    permissions: u8,
    expires_at: Option<i64>,
    max_downloads: Option<u32>,
    is_public: bool,
    now: i64,
)
    requires
        !file_record.is_active,
        verify.file_record == file_record,
        access.file_record == file_record,
        delete.file_record == file_record,
        grant.file_record == file_record,
        publicity.file_record == file_record,
        upload.file_record == Some(file_record),
    ensures
        upload_file_outcome(
            upload,
            file_hash,
            ipfs_hash,
            encrypted_metadata,
            file_size,
            content_type,
            description,
            now,
        ).1 is Err,
        upload_file_outcome(
            upload,
            file_hash,
            ipfs_hash,
            encrypted_metadata,
            file_size,
            content_type,
            description,
            now,
        ).0 == upload,
        verify_file_outcome(verify, file_hash, now).1 is Err,
        verify_file_outcome(verify, file_hash, now).0 == verify,
        record_file_access_outcome(access, access_type, now).1 is Err,
        record_file_access_outcome(access, access_type, now).0 == access,
        delete_file_outcome(delete, now).1 is Err,
        delete_file_outcome(delete, now).0 == delete,
        grant_access_outcome(grant, accessor, permissions, expires_at, max_downloads, now).1 is Err,
        grant_access_outcome(grant, accessor, permissions, expires_at, max_downloads, now).0
            == grant,
        same_standing(
            file_record,
            update_file_publicity_outcome(publicity, is_public, now).0.file_record,
        ),
{
}

/// The counters of a file only grow: no operation on a file's record lowers
/// its access count or its download count, and none but deletion changes its
/// status.
pub proof fn lemma_file_counters_only_grow(
    verify: VerifyFile,
    access: RecordFileAccess,
    delete: DeleteFile,
    publicity: UpdateFilePublicity,
    file_hash: [u8; 32],
    access_type: AccessType,
    is_public: bool,
    now: i64,
)
    requires
        verify_file_fits(verify, file_hash@),
        record_file_access_fits(access, access_type, now),
    ensures
        counters_not_below(
            verify.file_record,
            verify_file_outcome(verify, file_hash, now).0.file_record,
        ),
        counters_not_below(
            access.file_record,
            record_file_access_outcome(access, access_type, now).0.file_record,
        ),
        same_standing(
            publicity.file_record,
            update_file_publicity_outcome(publicity, is_public, now).0.file_record,
        ),
        counters_not_below(delete.file_record, delete_file_outcome(delete, now).0.file_record),
        verify_file_outcome(verify, file_hash, now).0.file_record.is_active
            == verify.file_record.is_active,
        record_file_access_outcome(access, access_type, now).0.file_record.is_active
            == access.file_record.is_active,
{
}

/// A well-formed grant stays well-formed: the downloads made never exceed a
/// bound that is set, and a grant that is inactive keeps its revocation time
/// through every operation on it.
pub proof fn lemma_grant_stays_well_formed(
    access: RecordFileAccess,
    revoke: RevokeAccess,
    access_type: AccessType,
    now: i64,
)
    requires
        access.access_permission.wf(),
        revoke.access_permission.wf(),
        record_file_access_fits(access, access_type, now),
    ensures
        record_file_access_outcome(access, access_type, now).0.access_permission.wf(),
        revoke_access_outcome(revoke, now).0.access_permission.wf(),
        !access.access_permission.is_active
            ==> record_file_access_outcome(access, access_type, now).0.access_permission
            == access.access_permission,
        !revoke.access_permission.is_active
            ==> revoke_access_outcome(revoke, now).0.access_permission
            == revoke.access_permission,
{
}

/// Deleting gives the account back what the file took and keeps it within
/// its ceilings, even where the file is larger than what the account has
/// recorded: the counters stop at zero.
pub proof fn lemma_delete_file_releases_quota(ctx: DeleteFile, now: i64)
    requires
        ctx.user_account.within_limits(),
        delete_file_outcome(ctx, now).1 is Ok,
    ensures
        ({
            let after = delete_file_outcome(ctx, now).0.user_account;
            &&& after.within_limits()
            &&& after == ctx.user_account.with_file_removed(ctx.file_record.file_size)
            &&& after.file_count <= ctx.user_account.file_count
            &&& after.storage_used <= ctx.user_account.storage_used
            &&& ctx.user_account.storage_used <= ctx.file_record.file_size
                ==> after.storage_used == 0
        }),
{
}

} // verus!
