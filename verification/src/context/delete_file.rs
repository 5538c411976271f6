//! Deleting a file.

use vstd::prelude::*;
use crate::clock::unix_timestamp;
use crate::errors::rejected_with;
use crate::errors::DenftError;
use crate::events::FileDeleted;
use crate::pubkey::Pubkey;
use crate::state::file_record::FileRecord;
use crate::state::user_account::UserAccount;

verus! {

/// What deleting works on.
#[derive(Clone, Debug, PartialEq, Eq)]
pub struct DeleteFile {
    /// The quota account that paid for the file.
    pub user_account: UserAccount,
    /// The address of the file's record.
    pub file_id: Pubkey,
    /// The file.
    pub file_record: FileRecord,
    /// The identity that asks.
    pub authority: Pubkey,
}

/// Why deleting is rejected, if it is. Only the owner deletes, against the
/// owner's own account, and a file is deleted once.
pub open spec fn delete_file_error(ctx: DeleteFile) -> Option<DenftError> {
    if ctx.user_account.owner != ctx.authority {
        Some(DenftError::Unauthorized)
    } else if ctx.file_record.owner != ctx.authority {
        Some(DenftError::Unauthorized)
    } else if !ctx.file_record.is_active {
        Some(DenftError::FileAlreadyDeleted)
    } else {
        None
    }
}

/// The records after the operation at time `now`, and what it returns.
pub open spec fn delete_file_outcome(ctx: DeleteFile, now: i64) -> (
    DeleteFile,
    Result<FileDeleted, DenftError>,
) {
    match delete_file_error(ctx) {
        Some(e) => (ctx, Err(e)),
        None => (
            DeleteFile {
                user_account: ctx.user_account.with_file_removed(ctx.file_record.file_size),
                file_record: ctx.file_record.deleted(now),
                ..ctx
            },
            Ok(FileDeleted { file_id: ctx.file_id, owner: ctx.authority, deleted_at: now }),
        ),
    }
}

impl DeleteFile {
    /// Decides, without changing anything, whether deleting is rejected, and
    /// why.
    pub fn check(&self) -> (rejection: Option<DenftError>)
        ensures
            rejection == delete_file_error(*self),
    {
        if self.user_account.owner != self.authority {
            Some(DenftError::Unauthorized)
        } else if self.file_record.owner != self.authority {
            Some(DenftError::Unauthorized)
        } else if !self.file_record.is_accessible() {
            Some(DenftError::FileAlreadyDeleted)
        } else {
            None
        }
    }
}

/// Deletes the file at time `now`: the record becomes inactive for good, and
/// its size and count are given back to the account, which never goes below
/// zero. A rejected deletion changes nothing.
pub fn delete_file_at(ctx: &mut DeleteFile, now: i64) -> (result: Result<FileDeleted, DenftError>)
    ensures
        (*final(ctx), result) == delete_file_outcome(*old(ctx), now),
        result is Err ==> *final(ctx) == *old(ctx),
        result is Ok ==> !final(ctx).file_record.is_active,
        !old(ctx).file_record.is_active ==> result is Err,
        old(ctx).user_account.within_limits() ==> final(ctx).user_account.within_limits(),
        old(ctx).file_record.wf() ==> final(ctx).file_record.wf(),
{
    if let Some(e) = ctx.check() {
        return Err(e);
    }
    let file_size = ctx.file_record.file_size;
    ctx.user_account.remove_file(file_size);
    ctx.file_record.mark_deleted(now);
    Ok(FileDeleted { file_id: ctx.file_id, owner: ctx.authority, deleted_at: now })
}

/// Deletes the file at the cluster's current time. A rejection does not
/// depend on the clock; otherwise the clock is read, and either it fails and
/// nothing changes, or the outcome is that of `delete_file_at` at the time
/// read.
pub fn delete_file(ctx: &mut DeleteFile) -> (result: Result<FileDeleted, DenftError>)
    ensures
        delete_file_error(*old(ctx)) matches Some(e) ==> rejected_with(result, e),
        ({
            ||| rejected_with(result, DenftError::ClockUnavailable) && *final(ctx) == *old(ctx)
            ||| exists|now: i64|
                (*final(ctx), result) == #[trigger] delete_file_outcome(*old(ctx), now)
        }),
        result is Err ==> *final(ctx) == *old(ctx),
{
    if let Some(e) = ctx.check() {
        let rejected: Result<FileDeleted, DenftError> = Err(e);
        assert((*ctx, rejected) == delete_file_outcome(*old(ctx), 0));
        return rejected;
    }
    match unix_timestamp() {
        Ok(now) => delete_file_at(ctx, now),
        Err(e) => Err(e),
    }
}

/// Deleting is not idempotent: where a first deletion succeeds, the file is
/// inactive after it with the time stamped, and a second deletion of the same
/// record is rejected as already deleted and changes nothing.
pub proof fn lemma_delete_file_once(ctx: DeleteFile, now: i64, later: i64)
    requires
        delete_file_outcome(ctx, now).1 is Ok,
    ensures
        ({
            let deleted = delete_file_outcome(ctx, now).0;
            &&& !deleted.file_record.is_active
            &&& deleted.file_record.deleted_at == Some(now)
            &&& delete_file_outcome(deleted, later).0 == deleted
            &&& rejected_with(
                delete_file_outcome(deleted, later).1,
                DenftError::FileAlreadyDeleted,
            )
        }),
{
}

} // verus!
