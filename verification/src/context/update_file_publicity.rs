//! Opening a file to public verification, or closing it.

use vstd::prelude::*;
use crate::clock::unix_timestamp;
use crate::errors::rejected_with;
use crate::errors::DenftError;
use crate::events::FilePublicityUpdated;
use crate::pubkey::Pubkey;
use crate::state::file_record::FileRecord;

verus! {

/// What setting the flag works on.
#[derive(Clone, Debug, PartialEq, Eq)]
pub struct UpdateFilePublicity {
    /// The address of the file's record.
    pub file_id: Pubkey,
    /// The file.
    pub file_record: FileRecord,
    /// The identity that asks.
    pub authority: Pubkey,
}

/// Why setting the flag is rejected, if it is: only the owner may set it.
pub open spec fn update_file_publicity_error(ctx: UpdateFilePublicity) -> Option<DenftError> {
    if ctx.file_record.owner != ctx.authority {
        Some(DenftError::Unauthorized)
    } else {
        None
    }
}

/// The records after the operation at time `now`, and what it returns.
pub open spec fn update_file_publicity_outcome(
    ctx: UpdateFilePublicity,
    is_public: bool,
    now: i64,
) -> (UpdateFilePublicity, Result<FilePublicityUpdated, DenftError>) {
    match update_file_publicity_error(ctx) {
        Some(e) => (ctx, Err(e)),
        None => (
            UpdateFilePublicity {
                file_record: FileRecord { is_public_verification: is_public, ..ctx.file_record },
                ..ctx
            },
            Ok(
                FilePublicityUpdated {
                    file_id: ctx.file_id,
                    owner: ctx.authority,
                    is_public,
                    updated_at: now,
                },
            ),
        ),
    }
}

impl UpdateFilePublicity {
    /// Decides, without changing anything, whether setting the flag is
    /// rejected, and why.
    pub fn check(&self) -> (rejection: Option<DenftError>)
        ensures
            rejection == update_file_publicity_error(*self),
    {
        if self.file_record.owner != self.authority {
            Some(DenftError::Unauthorized)
        } else {
            None
        }
    }
}

/// Sets the file's public-verification flag to `is_public` at time `now`.
/// Nothing else in the record moves. A rejected call changes nothing.
pub fn update_file_publicity_at(ctx: &mut UpdateFilePublicity, is_public: bool, now: i64) -> (result:
    Result<FilePublicityUpdated, DenftError>)
    ensures
        (*final(ctx), result) == update_file_publicity_outcome(*old(ctx), is_public, now),
        result is Err ==> *final(ctx) == *old(ctx),
        result is Ok ==> final(ctx).file_record.is_public_verification == is_public,
        old(ctx).file_record.wf() ==> final(ctx).file_record.wf(),
{
    if let Some(e) = ctx.check() {
        return Err(e);
    }
    ctx.file_record.is_public_verification = is_public;
    Ok(
        FilePublicityUpdated {
            file_id: ctx.file_id,
            owner: ctx.authority,
            is_public,
            updated_at: now,
        },
    )
}

/// Sets the file's public-verification flag at the cluster's current time. A
/// rejection does not depend on the clock; otherwise the clock is read, and
/// either it fails and nothing changes, or the outcome is that of
/// `update_file_publicity_at` at the time read.
pub fn update_file_publicity(ctx: &mut UpdateFilePublicity, is_public: bool) -> (result: Result<
    FilePublicityUpdated,
    DenftError,
>)
    ensures
        update_file_publicity_error(*old(ctx)) matches Some(e) ==> rejected_with(result, e),
        ({
            ||| rejected_with(result, DenftError::ClockUnavailable) && *final(ctx) == *old(ctx)
            ||| exists|now: i64|
                (*final(ctx), result) == #[trigger] update_file_publicity_outcome(
                    *old(ctx),
                    is_public,
                    now,
                )
        }),
        result is Err ==> *final(ctx) == *old(ctx),
{
    if let Some(e) = ctx.check() {
        let rejected: Result<FilePublicityUpdated, DenftError> = Err(e);
        assert((*ctx, rejected) == update_file_publicity_outcome(*old(ctx), is_public, 0));
        return rejected;
    }
    match unix_timestamp() {
        Ok(now) => update_file_publicity_at(ctx, is_public, now),
        Err(e) => Err(e),
    }
}

} // verus!
