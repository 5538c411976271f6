//! Revoking a grant.

use vstd::prelude::*;
use crate::clock::unix_timestamp;
use crate::errors::rejected_with;
use crate::errors::DenftError;
use crate::events::AccessRevoked;
use crate::pubkey::Pubkey;
use crate::state::access_permission::AccessPermission;
use crate::state::file_record::FileRecord;

verus! {

/// What revoking works on.
#[derive(Clone, Debug, PartialEq, Eq)]
pub struct RevokeAccess {
    /// The address of the file's record.
    pub file_id: Pubkey,
    /// The file.
    pub file_record: FileRecord,
    /// The grant to end.
    pub access_permission: AccessPermission,
    /// The identity that asks.
    pub authority: Pubkey,
}

/// Why revoking is rejected, if it is. Only the file's owner may revoke,
/// whoever made the grant, and a grant is revoked once.
pub open spec fn revoke_access_error(ctx: RevokeAccess) -> Option<DenftError> {
    if ctx.file_record.owner != ctx.authority {
        Some(DenftError::Unauthorized)
    } else if ctx.access_permission.file_record != ctx.file_id {
        Some(DenftError::InvalidAccessPermission)
    } else if !ctx.access_permission.is_active {
        Some(DenftError::AccessAlreadyRevoked)
    } else {
        None
    }
}

/// The records after the operation at time `now`, and what it returns.
pub open spec fn revoke_access_outcome(ctx: RevokeAccess, now: i64) -> (
    RevokeAccess,
    Result<AccessRevoked, DenftError>,
) {
    match revoke_access_error(ctx) {
        Some(e) => (ctx, Err(e)),
        None => (
            RevokeAccess { access_permission: ctx.access_permission.revoked(now), ..ctx },
            Ok(
                AccessRevoked {
                    file_id: ctx.access_permission.file_record,
                    owner: ctx.authority,
                    accessor: ctx.access_permission.accessor,
                    revoked_at: now,
                },
            ),
        ),
    }
}

impl RevokeAccess {
    /// Decides, without changing anything, whether revoking is rejected, and
    /// why.
    pub fn check(&self) -> (rejection: Option<DenftError>)
        ensures
            rejection == revoke_access_error(*self),
    {
        if self.file_record.owner != self.authority {
            Some(DenftError::Unauthorized)
        } else if self.access_permission.file_record != self.file_id {
            Some(DenftError::InvalidAccessPermission)
        } else if !self.access_permission.is_active {
            Some(DenftError::AccessAlreadyRevoked)
        } else {
            None
        }
    }
}

/// Ends the grant at time `now`. A rejected revocation changes nothing.
pub fn revoke_access_at(ctx: &mut RevokeAccess, now: i64) -> (result: Result<
    AccessRevoked,
    DenftError,
>)
    ensures
        (*final(ctx), result) == revoke_access_outcome(*old(ctx), now),
        result is Err ==> *final(ctx) == *old(ctx),
        result is Ok ==> !final(ctx).access_permission.is_active,
        old(ctx).access_permission.wf() ==> final(ctx).access_permission.wf(),
{
    if let Some(e) = ctx.check() {
        return Err(e);
    }
    ctx.access_permission.revoke(now);
    Ok(
        AccessRevoked {
            file_id: ctx.access_permission.file_record,
            owner: ctx.authority,
            accessor: ctx.access_permission.accessor,
            revoked_at: now,
        },
    )
}

/// Ends the grant at the cluster's current time. A rejection does not depend
/// on the clock; otherwise the clock is read, and either it fails and nothing
/// changes, or the outcome is that of `revoke_access_at` at the time read.
pub fn revoke_access(ctx: &mut RevokeAccess) -> (result: Result<AccessRevoked, DenftError>)
    ensures
        revoke_access_error(*old(ctx)) matches Some(e) ==> rejected_with(result, e),
        ({
            ||| rejected_with(result, DenftError::ClockUnavailable) && *final(ctx) == *old(ctx)
            ||| exists|now: i64|
                (*final(ctx), result) == #[trigger] revoke_access_outcome(*old(ctx), now)
        }),
        result is Err ==> *final(ctx) == *old(ctx),
{
    if let Some(e) = ctx.check() {
        let rejected: Result<AccessRevoked, DenftError> = Err(e);
        assert((*ctx, rejected) == revoke_access_outcome(*old(ctx), 0));
        return rejected;
    }
    match unix_timestamp() {
        Ok(now) => revoke_access_at(ctx, now),
        Err(e) => Err(e),
    }
}

/// A grant is revoked exactly once: after a revocation the grant is inactive
/// and invalid at every time, a second revocation is rejected, and the time
/// of the first stays as it was stamped.
pub proof fn lemma_revoke_once(ctx: RevokeAccess, now: i64, later: i64, at: i64)
    requires
        revoke_access_error(ctx) is None,
    ensures
        ({
            let revoked = revoke_access_outcome(ctx, now).0;
            &&& !revoked.access_permission.is_active
            &&& revoked.access_permission.revoked_at == Some(now)
            &&& !revoked.access_permission.spec_is_valid(at)
            &&& revoke_access_outcome(revoked, later).0 == revoked
            &&& rejected_with(
                revoke_access_outcome(revoked, later).1,
                DenftError::AccessAlreadyRevoked,
            )
        }),
{
}

} // verus!
