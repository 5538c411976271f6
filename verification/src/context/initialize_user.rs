//! Creating a quota account.

use vstd::prelude::*;
use crate::clock::unix_timestamp;
use crate::errors::rejected_with;
use crate::errors::DenftError;
use crate::events::UserInitialized;
use crate::pubkey::Pubkey;
use crate::state::constants::MAX_FILES_PER_USER;
use crate::state::constants::MAX_STORAGE_PER_USER;
use crate::state::user_account::UserAccount;

verus! {

/// What creating an account works on.
#[derive(Clone, Copy, Debug, PartialEq, Eq)]
pub struct InitializeUser {
    /// The identity that asks, and that the account will belong to.
    pub authority: Pubkey,
    /// What stands at the address of that identity's account: `None` while no
    /// account was created there.
    pub user_account: Option<UserAccount>,
}

/// The account of `owner` as it is created at time `now`: empty, active,
/// with the platform's ceilings.
pub open spec fn new_user_account(owner: Pubkey, now: i64) -> UserAccount {
    UserAccount {
        owner,
        file_count: 0,
        storage_used: 0,
        storage_limit: MAX_STORAGE_PER_USER,
        file_limit: MAX_FILES_PER_USER,
        created_at: now,
        is_active: true,
    }
}

/// Why creating the account is rejected, if it is: an identity has one
/// account, created once.
pub open spec fn initialize_user_error(ctx: InitializeUser) -> Option<DenftError> {
    if ctx.user_account is Some {
        Some(DenftError::AlreadyExists)
    } else {
        None
    }
}

/// The records after the operation at time `now`, and what it returns.
pub open spec fn initialize_user_outcome(ctx: InitializeUser, now: i64) -> (
    InitializeUser,
    Result<UserInitialized, DenftError>,
) {
    match initialize_user_error(ctx) {
        Some(e) => (ctx, Err(e)),
        None => (
            InitializeUser { user_account: Some(new_user_account(ctx.authority, now)), ..ctx },
            Ok(UserInitialized { user: ctx.authority, timestamp: now }),
        ),
    }
}

impl InitializeUser {
    /// Decides, without changing anything, whether creating the account is
    /// rejected, and why.
    pub fn check(&self) -> (rejection: Option<DenftError>)
        ensures
            rejection == initialize_user_error(*self),
    {
        if self.user_account.is_some() {
            Some(DenftError::AlreadyExists)
        } else {
            None
        }
    }
}

/// Creates the account of `ctx.authority` at time `now`. A rejected creation
/// changes nothing.
pub fn initialize_user_at(ctx: &mut InitializeUser, now: i64) -> (result: Result<
    UserInitialized,
    DenftError,
>)
    ensures
        (*final(ctx), result) == initialize_user_outcome(*old(ctx), now),
        result is Err ==> *final(ctx) == *old(ctx),
        result is Ok ==> (final(ctx).user_account matches Some(account)
            && account.within_limits()),
{
    if let Some(e) = ctx.check() {
        return Err(e);
    }
    ctx.user_account = Some(
        UserAccount {
            owner: ctx.authority,
            file_count: 0,
            storage_used: 0,
            storage_limit: MAX_STORAGE_PER_USER,
            file_limit: MAX_FILES_PER_USER,
            created_at: now,
            is_active: true,
        },
    );
    Ok(UserInitialized { user: ctx.authority, timestamp: now })
}

/// Creates the account of `ctx.authority` at the cluster's current time. A
/// rejection does not depend on the clock; otherwise the clock is read, and
/// either it fails and nothing changes, or the outcome is that of
/// `initialize_user_at` at the time read.
pub fn initialize_user(ctx: &mut InitializeUser) -> (result: Result<UserInitialized, DenftError>)
    ensures
        initialize_user_error(*old(ctx)) matches Some(e) ==> rejected_with(result, e),
        ({
            ||| rejected_with(result, DenftError::ClockUnavailable) && *final(ctx) == *old(ctx)
            ||| exists|now: i64|
                (*final(ctx), result) == #[trigger] initialize_user_outcome(*old(ctx), now)
        }),
        result is Err ==> *final(ctx) == *old(ctx),
{
    if let Some(e) = ctx.check() {
        let rejected: Result<UserInitialized, DenftError> = Err(e);
        assert((*ctx, rejected) == initialize_user_outcome(*old(ctx), 0));
        return rejected;
    }
    match unix_timestamp() {
        Ok(now) => initialize_user_at(ctx, now),
        Err(e) => Err(e),
    }
}

/// An account is created once: the created account is within its ceilings,
/// and a second creation for the same identity is rejected and changes
/// nothing.
pub proof fn lemma_initialize_user_once(ctx: InitializeUser, first: i64, second: i64)
    requires
        initialize_user_error(ctx) is None,
    ensures
        ({
            let created = initialize_user_outcome(ctx, first).0;
            &&& created.user_account == Some(new_user_account(ctx.authority, first))
            &&& new_user_account(ctx.authority, first).within_limits()
            &&& initialize_user_outcome(created, second).0 == created
            &&& rejected_with(
                initialize_user_outcome(created, second).1,
                DenftError::AlreadyExists,
            )
        }),
{
}

} // verus!
