//! Granting rights on a file.

use vstd::prelude::*;
use crate::clock::unix_timestamp;
use crate::errors::rejected_with;
use crate::errors::DenftError;
use crate::events::AccessGranted;
use crate::pubkey::Pubkey;
use crate::state::access_permission::AccessPermission;
use crate::state::file_record::FileRecord;

verus! {

/// What granting works on.
#[derive(Clone, Debug, PartialEq, Eq)]
pub struct GrantAccess {
    /// The address of the file's record.
    pub file_id: Pubkey,
    /// The file.
    pub file_record: FileRecord,
    /// What stands at the address that the file and the accessor give their
    /// grant: `None` while no grant was made for the pair.
    pub access_permission: Option<AccessPermission>,
    /// The identity that asks.
    pub authority: Pubkey,
}

/// A download bound as the grant stores it.
pub open spec fn stored_bound(max_downloads: Option<u32>) -> Option<u64> {
    match max_downloads {
        Some(max) => Some(max as u64),
        None => None,
    }
}

/// An expiration time is set and is not after `now`.
pub open spec fn not_in_future(expires_at: Option<i64>, now: i64) -> bool {
    expires_at matches Some(expiry) && expiry <= now
}

/// Why granting is rejected at time `now`, if it is. The arguments are
/// judged first, then the caller, then the records. There is one grant for a
/// file and an accessor: a second one is rejected, it does not replace the
/// first.
pub open spec fn grant_access_error(
    ctx: GrantAccess,
    permissions: u8,
    expires_at: Option<i64>,
    now: i64,
) -> Option<DenftError> {
    if !AccessPermission::spec_is_valid_permission(permissions) {
        Some(DenftError::InvalidPermissions)
    } else if not_in_future(expires_at, now) {
        Some(DenftError::InvalidExpirationTime)
    } else if ctx.file_record.owner != ctx.authority {
        Some(DenftError::Unauthorized)
    } else if !ctx.file_record.is_active {
        Some(DenftError::FileNotActive)
    } else if ctx.access_permission is Some {
        Some(DenftError::AlreadyExists)
    } else {
        None
    }
}

/// The grant as it is made at time `now`: active, with no download used.
pub open spec fn new_access_permission(
    ctx: GrantAccess,
    accessor: Pubkey,
    permissions: u8,
    expires_at: Option<i64>,
    max_downloads: Option<u32>,
    now: i64,
) -> AccessPermission {
    AccessPermission {
        file_record: ctx.file_id,
        accessor,
        permissions,
        granted_at: now,
        expires_at,
        max_downloads: stored_bound(max_downloads),
        used_downloads: 0,
        granted_by: ctx.authority,
        is_active: true,
        revoked_at: None,
    }
}

/// The records after the operation at time `now`, and what it returns.
pub open spec fn grant_access_outcome(
    ctx: GrantAccess,
    accessor: Pubkey,
    permissions: u8,
    expires_at: Option<i64>,
    max_downloads: Option<u32>,
    now: i64,
) -> (GrantAccess, Result<AccessGranted, DenftError>) {
    match grant_access_error(ctx, permissions, expires_at, now) {
        Some(e) => (ctx, Err(e)),
        None => {
            let grant = new_access_permission(
                ctx,
                accessor,
                permissions,
                expires_at,
                max_downloads,
                now,
            );
            (
                GrantAccess { access_permission: Some(grant), ..ctx },
                Ok(
                    AccessGranted {
                        file_id: ctx.file_id,
                        owner: ctx.authority,
                        accessor,
                        permissions,
                        granted_at: now,
                        expires_at,
                    },
                ),
            )
        },
    }
}

impl GrantAccess {
    /// Decides, without changing anything, whether granting is rejected at
    /// time `now`, and why.
    pub fn check(&self, permissions: u8, expires_at: Option<i64>, now: i64) -> (rejection: Option<
        DenftError,
    >)
        ensures
            rejection == grant_access_error(*self, permissions, expires_at, now),
    {
        if !AccessPermission::is_valid_permission(permissions) {
            return Some(DenftError::InvalidPermissions);
        }
        if let Some(expiry) = expires_at {
            if expiry <= now {
                return Some(DenftError::InvalidExpirationTime);
            }
        }
        if self.file_record.owner != self.authority {
            Some(DenftError::Unauthorized)
        } else if !self.file_record.is_accessible() {
            Some(DenftError::FileNotActive)
        } else if self.access_permission.is_some() {
            Some(DenftError::AlreadyExists)
        } else {
            None
        }
    }
}

/// Grants `accessor` the rights in `permissions` on the file at time `now`,
/// until `expires_at` and for `max_downloads` downloads where these are set.
/// An empty mask, or one with bits outside the three flags, is always
/// rejected as `InvalidPermissions`. A rejected grant changes nothing.
pub fn grant_access_at(
    ctx: &mut GrantAccess,
    accessor: Pubkey,
    permissions: u8,
    expires_at: Option<i64>,
    max_downloads: Option<u32>,
    now: i64,
) -> (result: Result<AccessGranted, DenftError>)
    ensures
        (*final(ctx), result) == grant_access_outcome(
            *old(ctx),
            accessor,
            permissions,
            expires_at,
            max_downloads,
            now,
        ),
        permissions == 0 || permissions > 7 ==> rejected_with(
            result,
            DenftError::InvalidPermissions,
        ),
        result is Err ==> *final(ctx) == *old(ctx),
        result is Ok ==> (final(ctx).access_permission matches Some(grant) && grant.wf()
            && grant.spec_is_valid(now)),
{
    if let Some(e) = ctx.check(permissions, expires_at, now) {
        return Err(e);
    }
    let stored: Option<u64> = match max_downloads {
        Some(max) => Some(max as u64),
        None => None,
    };
    ctx.access_permission = Some(
        AccessPermission {
            file_record: ctx.file_id,
            accessor,
            permissions,
            granted_at: now,
            expires_at,
            max_downloads: stored,
            used_downloads: 0,
            granted_by: ctx.authority,
            is_active: true,
            revoked_at: None,
        },
    );
    Ok(
        AccessGranted {
            file_id: ctx.file_id,
            owner: ctx.authority,
            accessor,
            permissions,
            granted_at: now,
            expires_at,
        },
    )
}

/// Grants rights on the file at the cluster's current time. An invalid mask
/// is rejected whatever the clock says; otherwise the clock is read, and
/// either it fails and nothing changes, or the outcome is that of
/// `grant_access_at` at the time read.
pub fn grant_access(
    ctx: &mut GrantAccess,
    accessor: Pubkey,
    permissions: u8,
    expires_at: Option<i64>,
    max_downloads: Option<u32>,
) -> (result: Result<AccessGranted, DenftError>)
    ensures
        !AccessPermission::spec_is_valid_permission(permissions) ==> rejected_with(
            result,
            DenftError::InvalidPermissions,
        ),
        ({
            ||| rejected_with(result, DenftError::ClockUnavailable) && *final(ctx) == *old(ctx)
            ||| exists|now: i64|
                (*final(ctx), result) == #[trigger] grant_access_outcome(
                    *old(ctx),
                    accessor,
                    permissions,
                    expires_at,
                    max_downloads,
                    now,
                )
        }),
        result is Err ==> *final(ctx) == *old(ctx),
{
    if !AccessPermission::is_valid_permission(permissions) {
        let rejected: Result<AccessGranted, DenftError> = Err(DenftError::InvalidPermissions);
        assert((*ctx, rejected) == grant_access_outcome(
            *old(ctx),
            accessor,
            permissions,
            expires_at,
            max_downloads,
            0,
        ));
        return rejected;
    }
    match unix_timestamp() {
        Ok(now) => grant_access_at(ctx, accessor, permissions, expires_at, max_downloads, now),
        Err(e) => Err(e),
    }
}

/// A grant made with an expiration time is valid from the moment it is made
/// up to and including that time, and invalid after it, though it stays
/// active: nothing but a revocation deactivates it.
pub proof fn lemma_grant_expires(
    ctx: GrantAccess,
    accessor: Pubkey,
    permissions: u8,
    expiry: i64,
    max_downloads: Option<u32>,
    now: i64,
    later: i64,
)
    requires
        grant_access_error(ctx, permissions, Some(expiry), now) is None,
    ensures
        now < expiry,
        ({
            let grant = new_access_permission(
                ctx,
                accessor,
                permissions,
                Some(expiry),
                max_downloads,
                now,
            );
            let granted = grant_access_outcome(
                ctx,
                accessor,
                permissions,
                Some(expiry),
                max_downloads,
                now,
            );
            &&& granted.1 is Ok
            &&& granted.0.access_permission == Some(grant)
            &&& grant.is_active
            &&& grant.spec_is_valid(now)
            &&& grant.spec_is_valid(later) <==> later <= expiry
        }),
{
}

/// An expiration time that is not in the future is rejected, whoever asks,
/// once the mask is valid.
pub proof fn lemma_grant_needs_future_expiry(
    ctx: GrantAccess,
    accessor: Pubkey,
    permissions: u8,
    expiry: i64,
    max_downloads: Option<u32>,
    now: i64,
)
    requires
        AccessPermission::spec_is_valid_permission(permissions),
        expiry <= now,
    ensures
        grant_access_outcome(ctx, accessor, permissions, Some(expiry), max_downloads, now).0
            == ctx,
        rejected_with(
            grant_access_outcome(ctx, accessor, permissions, Some(expiry), max_downloads, now).1,
            DenftError::InvalidExpirationTime,
        ),
{
}

/// Once a grant was made for a file and an accessor, a second one is
/// rejected and the first stands as it was.
pub proof fn lemma_grant_only_once(
    ctx: GrantAccess,
    accessor: Pubkey,
    permissions: u8,
    expires_at: Option<i64>,
    max_downloads: Option<u32>,
    now: i64,
    again_permissions: u8,
    again_expires_at: Option<i64>,
    again_max_downloads: Option<u32>,
    later: i64,
)
    requires
        grant_access_error(ctx, permissions, expires_at, now) is None,
        grant_access_error(ctx, again_permissions, again_expires_at, later) is None,
    ensures
        ({
            let granted = grant_access_outcome(
                ctx,
                accessor,
                permissions,
                expires_at,
                max_downloads,
                now,
            ).0;
            let again = grant_access_outcome(
                granted,
                accessor,
                again_permissions,
                again_expires_at,
                again_max_downloads,
                later,
            );
            &&& again.0 == granted
            &&& rejected_with(again.1, DenftError::AlreadyExists)
        }),
{
}

} // verus!
