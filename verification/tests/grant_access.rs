use denft::grant_access_at;
use denft::AccessGranted;
use denft::AccessPermission;
use denft::DenftError;
use denft::FileRecord;
use denft::GrantAccess;
use denft::Pubkey;

const ALICE: Pubkey = Pubkey([1; 32]);
const BOB: Pubkey = Pubkey([2; 32]);
const FILE_ID: Pubkey = Pubkey([5; 32]);

fn grant_ctx() -> GrantAccess {
    GrantAccess {
        file_id: FILE_ID,
        file_record: FileRecord {
            owner: ALICE,
            file_hash: [9; 32],
            ipfs_hash: String::from("Qm"),
            encrypted_metadata: String::from("m"),
            file_size: 10,
            content_type: String::from("c"),
            description: String::from("d"),
            timestamp: 5,
            is_public_verification: false,
            access_count: 0,
            download_count: 0,
            is_active: true,
            deleted_at: None,
            verification_id: 77,
        },
        access_permission: None,
        authority: ALICE,
    }
}

#[test]
fn grant_access_creates_an_active_grant() {
    let mut ctx = grant_ctx();
    let event = grant_access_at(&mut ctx, BOB, 3, Some(2000), Some(5), 1000);
    assert_eq!(
        event,
        Ok(AccessGranted {
            file_id: FILE_ID,
            owner: ALICE,
            accessor: BOB,
            permissions: 3,
            granted_at: 1000,
            expires_at: Some(2000),
        })
    );
    let mut expected = grant_ctx();
    expected.access_permission = Some(AccessPermission {
        file_record: FILE_ID,
        accessor: BOB,
        permissions: 3,
        granted_at: 1000,
        expires_at: Some(2000),
        max_downloads: Some(5),
        used_downloads: 0,
        granted_by: ALICE,
        is_active: true,
        revoked_at: None,
    });
    assert_eq!(ctx, expected);
}

#[test]
fn grant_access_without_bounds_stores_none() {
    let mut ctx = grant_ctx();
    assert!(grant_access_at(&mut ctx, BOB, 1, None, None, 1000).is_ok());
    let grant = ctx.access_permission.unwrap();
    assert_eq!(grant.expires_at, None);
    assert_eq!(grant.max_downloads, None);
}

#[test]
fn grant_access_keeps_the_largest_download_bound() {
    let mut ctx = grant_ctx();
    assert!(grant_access_at(&mut ctx, BOB, 2, None, Some(u32::MAX), 1000).is_ok());
    assert_eq!(ctx.access_permission.unwrap().max_downloads, Some(4_294_967_295));
}

#[test]
fn grant_access_with_permissions_zero_or_eight_fails() {
    let mut ctx = grant_ctx();
    assert_eq!(
        grant_access_at(&mut ctx, BOB, 0, None, None, 1000),
        Err(DenftError::InvalidPermissions)
    );
    assert_eq!(
        grant_access_at(&mut ctx, BOB, 8, None, None, 1000),
        Err(DenftError::InvalidPermissions)
    );
    assert_eq!(
        grant_access_at(&mut ctx, BOB, 255, None, None, 1000),
        Err(DenftError::InvalidPermissions)
    );
    assert_eq!(ctx, grant_ctx());
}

#[test]
fn grant_access_with_all_three_flags_succeeds() {
    let mut ctx = grant_ctx();
    assert!(grant_access_at(&mut ctx, BOB, 7, None, None, 1000).is_ok());
    let grant = ctx.access_permission.unwrap();
    assert_eq!(grant.permissions, 7);
    assert!(grant.has_permission(1));
    assert!(grant.has_permission(2));
    assert!(grant.has_permission(4));
}

#[test]
fn grant_access_with_invalid_mask_fails_so_for_any_caller_and_file() {
    let mut ctx = grant_ctx();
    ctx.authority = BOB;
    ctx.file_record.mark_deleted(1);
    let before = ctx.clone();
    assert_eq!(
        grant_access_at(&mut ctx, BOB, 0, Some(1), None, 1000),
        Err(DenftError::InvalidPermissions)
    );
    assert_eq!(ctx, before);
}

#[test]
fn grant_access_expiring_in_the_past_or_now_fails() {
    let mut ctx = grant_ctx();
    assert_eq!(
        grant_access_at(&mut ctx, BOB, 1, Some(999), None, 1000),
        Err(DenftError::InvalidExpirationTime)
    );
    assert_eq!(
        grant_access_at(&mut ctx, BOB, 1, Some(1000), None, 1000),
        Err(DenftError::InvalidExpirationTime)
    );
    assert_eq!(
        grant_access_at(&mut ctx, BOB, 1, Some(i64::MIN), None, 1000),
        Err(DenftError::InvalidExpirationTime)
    );
    assert_eq!(ctx, grant_ctx());
}

#[test]
fn grant_access_expiring_one_second_ahead_succeeds_then_expires() {
    let mut ctx = grant_ctx();
    assert!(grant_access_at(&mut ctx, BOB, 1, Some(1001), None, 1000).is_ok());
    let grant = ctx.access_permission.unwrap();
    assert!(grant.is_valid(1000));
    assert!(grant.is_valid(1001));
    assert!(!grant.is_valid(1002));
    assert!(grant.is_active);
    assert_eq!(grant.revoked_at, None);
}

#[test]
fn grant_access_by_another_identity_is_unauthorized() {
    let mut ctx = grant_ctx();
    ctx.authority = BOB;
    let before = ctx.clone();
    assert_eq!(
        grant_access_at(&mut ctx, BOB, 1, None, None, 1000),
        Err(DenftError::Unauthorized)
    );
    assert_eq!(ctx, before);
}

#[test]
fn grant_access_on_a_deleted_file_fails() {
    let mut ctx = grant_ctx();
    ctx.file_record.mark_deleted(500);
    let before = ctx.clone();
    assert_eq!(
        grant_access_at(&mut ctx, BOB, 1, None, None, 1000),
        Err(DenftError::FileNotActive)
    );
    assert_eq!(ctx, before);
}

#[test]
fn grant_access_twice_fails_and_keeps_the_first_grant() {
    let mut ctx = grant_ctx();
    assert!(grant_access_at(&mut ctx, BOB, 1, None, Some(3), 1000).is_ok());
    let before = ctx.clone();
    assert_eq!(
        grant_access_at(&mut ctx, BOB, 7, Some(5000), None, 1100),
        Err(DenftError::AlreadyExists)
    );
    assert_eq!(ctx, before);
}

#[test]
fn grant_access_over_a_revoked_grant_fails_too() {
    let mut ctx = grant_ctx();
    assert!(grant_access_at(&mut ctx, BOB, 1, None, None, 1000).is_ok());
    let mut grant = ctx.access_permission.unwrap();
    grant.revoke(1050);
    ctx.access_permission = Some(grant);
    let before = ctx.clone();
    assert_eq!(
        grant_access_at(&mut ctx, BOB, 1, None, None, 1100),
        Err(DenftError::AlreadyExists)
    );
    assert_eq!(ctx, before);
}
