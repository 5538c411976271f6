//! Recording an access to a file under a grant.

use vstd::prelude::*;
use crate::clock::unix_timestamp;
use crate::errors::rejected_with;
use crate::errors::DenftError;
use crate::events::FileAccessed;
use crate::pubkey::Pubkey;
use crate::state::access_permission::AccessPermission;
use crate::state::access_permission::AccessType;
use crate::state::access_permission::PERMISSION_DOWNLOAD;
use crate::state::file_record::FileRecord;

verus! {

/// What recording an access works on.
#[derive(Clone, Debug, PartialEq, Eq)]
pub struct RecordFileAccess {
    /// The address of the file's record.
    pub file_id: Pubkey,
    /// The file.
    pub file_record: FileRecord,
    /// The grant under which the file is accessed.
    pub access_permission: AccessPermission,
    /// The identity that asks.
    pub authority: Pubkey,
}

/// Why an access is refused whatever the time and its kind, if it is: the
/// caller is not the grant's accessor, the grant is for another file, the
/// file is deleted, or the grant is revoked.
pub open spec fn record_file_access_denied(ctx: RecordFileAccess) -> Option<DenftError> {
    if ctx.access_permission.accessor != ctx.authority {
        Some(DenftError::Unauthorized)
    } else if ctx.access_permission.file_record != ctx.file_id {
        Some(DenftError::InvalidAccessPermission)
    } else if !ctx.file_record.is_active {
        Some(DenftError::FileNotActive)
    } else if !ctx.access_permission.is_active {
        Some(DenftError::AccessRevoked)
    } else {
        None
    }
}

/// Why an access of kind `access_type` is rejected at time `now`, if it is.
/// Every kind of access needs a grant that is valid at `now`; a download
/// needs the download right and an allowance that is not used up as well.
pub open spec fn record_file_access_error(
    ctx: RecordFileAccess,
    access_type: AccessType,
    now: i64,
) -> Option<DenftError> {
    if record_file_access_denied(ctx) is Some {
        record_file_access_denied(ctx)
    } else if !ctx.access_permission.spec_is_valid(now) {
        Some(DenftError::AccessExpired)
    } else if access_type != AccessType::Download {
        None
    } else if !ctx.access_permission.spec_has_permission(PERMISSION_DOWNLOAD) {
        Some(DenftError::Unauthorized)
    } else if ctx.access_permission.limit_reached() {
        Some(DenftError::DownloadLimitExceeded)
    } else {
        None
    }
}

/// The counters can take the access: if it is not rejected at `now`, each
/// counter it moves is below the largest value it can hold.
pub open spec fn record_file_access_fits(
    ctx: RecordFileAccess,
    access_type: AccessType,
    now: i64,
) -> bool {
    record_file_access_error(ctx, access_type, now) is None ==> {
        &&& ctx.file_record.access_count < u64::MAX
        &&& access_type == AccessType::Download ==> {
            &&& ctx.file_record.download_count < u64::MAX
            &&& ctx.access_permission.used_downloads < u32::MAX
        }
    }
}

/// The records after an access of kind `access_type` that is not rejected:
/// the access is counted, and a download is counted on the grant and on the
/// file as well.
pub open spec fn with_access_recorded(
    ctx: RecordFileAccess,
    access_type: AccessType,
) -> RecordFileAccess {
    if access_type == AccessType::Download {
        RecordFileAccess {
            file_record: ctx.file_record.with_download().with_access(),
            access_permission: ctx.access_permission.with_download_used(),
            ..ctx
        }
    } else {
        RecordFileAccess { file_record: ctx.file_record.with_access(), ..ctx }
    }
}

/// The records after the operation at time `now`, and what it returns.
pub open spec fn record_file_access_outcome(
    ctx: RecordFileAccess,
    access_type: AccessType,
    now: i64,
) -> (RecordFileAccess, Result<FileAccessed, DenftError>) {
    match record_file_access_error(ctx, access_type, now) {
        Some(e) => (ctx, Err(e)),
        None => (
            with_access_recorded(ctx, access_type),
            Ok(
                FileAccessed {
                    file_id: ctx.file_id,
                    accessor: ctx.authority,
                    access_type,
                    timestamp: now,
                },
            ),
        ),
    }
}

impl RecordFileAccess {
    /// Decides, without changing anything, whether an access is refused
    /// whatever the time and its kind, and why.
    pub fn check_standing(&self) -> (rejection: Option<DenftError>)
        ensures
            rejection == record_file_access_denied(*self),
    {
        if self.access_permission.accessor != self.authority {
            Some(DenftError::Unauthorized)
        } else if self.access_permission.file_record != self.file_id {
            Some(DenftError::InvalidAccessPermission)
        } else if !self.file_record.is_accessible() {
            Some(DenftError::FileNotActive)
        } else if !self.access_permission.is_active {
            Some(DenftError::AccessRevoked)
        } else {
            None
        }
    }

    /// Decides, without changing anything, whether an access of kind
    /// `access_type` is rejected at time `now`, and why.
    pub fn check(&self, access_type: AccessType, now: i64) -> (rejection: Option<DenftError>)
        ensures
            rejection == record_file_access_error(*self, access_type, now),
    {
        if let Some(e) = self.check_standing() {
            return Some(e);
        }
        if !self.access_permission.is_valid(now) {
            return Some(DenftError::AccessExpired);
        }
        match access_type {
            AccessType::Download => {
                if !self.access_permission.has_permission(PERMISSION_DOWNLOAD) {
                    Some(DenftError::Unauthorized)
                } else if !self.access_permission.can_download() {
                    Some(DenftError::DownloadLimitExceeded)
                } else {
                    None
                }
            },
            _ => None,
        }
    }
}

/// Records at time `now` that `ctx.authority` accessed the file under the
/// grant. A download takes one off the grant's allowance and is counted on
/// the file in the same step: both happen or neither does. A rejected access
/// changes nothing.
pub fn record_file_access_at(ctx: &mut RecordFileAccess, access_type: AccessType, now: i64) -> (result:
    Result<FileAccessed, DenftError>)
    requires
        record_file_access_fits(*old(ctx), access_type, now),
    ensures
        (*final(ctx), result) == record_file_access_outcome(*old(ctx), access_type, now),
        result is Err ==> *final(ctx) == *old(ctx),
        !old(ctx).file_record.is_active ==> result is Err,
        !old(ctx).access_permission.spec_is_valid(now) ==> result is Err,
        old(ctx).access_permission.wf() ==> final(ctx).access_permission.wf(),
        old(ctx).file_record.wf() ==> final(ctx).file_record.wf(),
{
    if let Some(e) = ctx.check(access_type, now) {
        return Err(e);
    }
    match access_type {
        AccessType::Download => {
            let consumed = ctx.access_permission.consume_download();
            assert(consumed is Ok);
            ctx.file_record.increment_download();
        },
        _ => {},
    }
    ctx.file_record.increment_access();
    Ok(FileAccessed { file_id: ctx.file_id, accessor: ctx.authority, access_type, timestamp: now })
}

/// Records an access at the cluster's current time. An access that is
/// refused whatever the time is rejected without the clock; otherwise the
/// clock is read, and either it fails and nothing changes, or the outcome is
/// that of `record_file_access_at` at the time read.
pub fn record_file_access(ctx: &mut RecordFileAccess, access_type: AccessType) -> (result: Result<
    FileAccessed,
    DenftError,
>)
    requires
        forall|now: i64| #[trigger] record_file_access_fits(*old(ctx), access_type, now),
    ensures
        record_file_access_denied(*old(ctx)) matches Some(e) ==> rejected_with(result, e),
        ({
            ||| rejected_with(result, DenftError::ClockUnavailable) && *final(ctx) == *old(ctx)
            ||| exists|now: i64|
                (*final(ctx), result) == #[trigger] record_file_access_outcome(
                    *old(ctx),
                    access_type,
                    now,
                )
        }),
        result is Err ==> *final(ctx) == *old(ctx),
{
    if let Some(e) = ctx.check_standing() {
        let rejected: Result<FileAccessed, DenftError> = Err(e);
        assert((*ctx, rejected) == record_file_access_outcome(*old(ctx), access_type, 0));
        return rejected;
    }
    match unix_timestamp() {
        Ok(now) => {
            assert(record_file_access_fits(*old(ctx), access_type, now));
            record_file_access_at(ctx, access_type, now)
        },
        Err(e) => Err(e),
    }
}

/// A download under a grant with a bound: while fewer downloads were made
/// than the bound allows, the next one succeeds and is counted exactly once
/// on the grant and on the file; once the bound is reached, the next one is
/// rejected and the counters stay where they are.
pub proof fn lemma_download_allowance(ctx: RecordFileAccess, max: u64, now: i64)
    requires
        record_file_access_denied(ctx) is None,
        ctx.access_permission.spec_is_valid(now),
        ctx.access_permission.spec_has_permission(PERMISSION_DOWNLOAD),
        ctx.access_permission.max_downloads == Some(max),
        ctx.access_permission.used_downloads < u32::MAX,
    ensures
        ({
            let used = ctx.access_permission.used_downloads;
            let after = record_file_access_outcome(ctx, AccessType::Download, now);
            &&& used < max ==> {
                &&& after.1 is Ok
                &&& after.0.access_permission.used_downloads == used + 1
                &&& after.0.access_permission.used_downloads <= max
                &&& after.0.file_record == ctx.file_record.with_download().with_access()
            }
            &&& used >= max ==> {
                &&& rejected_with(after.1, DenftError::DownloadLimitExceeded)
                &&& after.0 == ctx
            }
        }),
{
}

/// Nothing is counted against a deleted file, and nothing under a grant that
/// is revoked or expired: such an access is rejected, whatever its kind, and
/// the file's counters and the grant stay as they are.
pub proof fn lemma_no_access_without_standing(
    ctx: RecordFileAccess,
    access_type: AccessType,
    now: i64,
)
    requires
        !ctx.file_record.is_active || !ctx.access_permission.spec_is_valid(now),
    ensures
        record_file_access_outcome(ctx, access_type, now).1 is Err,
        record_file_access_outcome(ctx, access_type, now).0 == ctx,
{
}

/// Reading and sharing take nothing off a grant's download allowance.
pub proof fn lemma_only_downloads_use_the_allowance(
    ctx: RecordFileAccess,
    access_type: AccessType,
    now: i64,
)
    requires
        access_type != AccessType::Download,
    ensures
        record_file_access_outcome(ctx, access_type, now).0.access_permission
            == ctx.access_permission,
        record_file_access_outcome(ctx, access_type, now).0.file_record.download_count
            == ctx.file_record.download_count,
{
}

} // verus!
