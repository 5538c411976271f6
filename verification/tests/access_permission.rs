use denft::AccessPermission;
use denft::AccessType;
use denft::DenftError;
use denft::Pubkey;
use denft::{PERMISSION_DOWNLOAD, PERMISSION_READ, PERMISSION_SHARE};

fn grant(permissions: u8, max_downloads: Option<u64>, used_downloads: u32) -> AccessPermission {
    AccessPermission {
        file_record: Pubkey([3; 32]),
        accessor: Pubkey([2; 32]),
        permissions,
        granted_at: 100,
        expires_at: None,
        max_downloads,
        used_downloads,
        granted_by: Pubkey([1; 32]),
        is_active: true,
        revoked_at: None,
    }
}

#[test]
fn from_flag_knows_the_three_flags_only() {
    assert_eq!(AccessType::from_flag(1), Some(AccessType::Read));
    assert_eq!(AccessType::from_flag(2), Some(AccessType::Download));
    assert_eq!(AccessType::from_flag(4), Some(AccessType::Share));
    assert_eq!(AccessType::from_flag(0), None);
    assert_eq!(AccessType::from_flag(3), None);
    assert_eq!(AccessType::from_flag(7), None);
    assert_eq!(AccessType::from_flag(8), None);
    assert_eq!(AccessType::from_flag(255), None);
}

#[test]
fn permission_flags_have_their_values() {
    assert_eq!(PERMISSION_READ, 1);
    assert_eq!(PERMISSION_DOWNLOAD, 2);
    assert_eq!(PERMISSION_SHARE, 4);
}

#[test]
fn is_valid_permission_accepts_one_to_seven() {
    assert!(!AccessPermission::is_valid_permission(0));
    for p in 1u8..=7 {
        assert!(AccessPermission::is_valid_permission(p));
    }
    assert!(!AccessPermission::is_valid_permission(8));
    assert!(!AccessPermission::is_valid_permission(255));
}

#[test]
fn has_permission_tests_the_bits() {
    let g = grant(5, None, 0);
    assert!(g.has_permission(PERMISSION_READ));
    assert!(!g.has_permission(PERMISSION_DOWNLOAD));
    assert!(g.has_permission(PERMISSION_SHARE));
    assert!(g.has_permission(3));
    assert!(!g.has_permission(0));
    let all = grant(7, None, 0);
    assert!(all.has_permission(PERMISSION_READ));
    assert!(all.has_permission(PERMISSION_DOWNLOAD));
    assert!(all.has_permission(PERMISSION_SHARE));
}

#[test]
fn is_valid_judges_expiry_at_the_time_asked() {
    let mut g = grant(1, None, 0);
    assert!(g.is_valid(i64::MAX));
    g.expires_at = Some(200);
    assert!(g.is_valid(199));
    assert!(g.is_valid(200));
    assert!(!g.is_valid(201));
    assert!(g.is_active);
    g.expires_at = Some(0);
    assert!(g.is_valid(0));
    assert!(g.is_valid(-1));
    assert!(!g.is_valid(1));
}

#[test]
fn is_valid_is_false_once_revoked() {
    let mut g = grant(1, None, 0);
    g.expires_at = Some(200);
    g.revoke(150);
    assert!(!g.is_valid(100));
    assert!(!g.is_valid(150));
    assert_eq!(g.revoked_at, Some(150));
    assert!(!g.is_active);
}

#[test]
fn can_download_needs_the_right_and_an_open_allowance() {
    assert!(grant(2, None, 0).can_download());
    assert!(grant(2, None, u32::MAX).can_download());
    assert!(grant(2, Some(2), 1).can_download());
    assert!(!grant(2, Some(2), 2).can_download());
    assert!(!grant(2, Some(0), 0).can_download());
    assert!(!grant(5, None, 0).can_download());
    assert!(!grant(5, Some(2), 0).can_download());
}

#[test]
fn consume_download_counts_up_to_the_bound() {
    let mut g = grant(2, Some(2), 0);
    assert_eq!(g.consume_download(), Ok(()));
    assert_eq!(g.used_downloads, 1);
    assert_eq!(g.consume_download(), Ok(()));
    assert_eq!(g.used_downloads, 2);
    assert_eq!(g.consume_download(), Err(DenftError::DownloadLimitExceeded));
    assert_eq!(g.used_downloads, 2);
    assert_eq!(g, grant(2, Some(2), 2));
}

#[test]
fn consume_download_without_bound_always_counts() {
    let mut g = grant(2, None, 41);
    assert_eq!(g.consume_download(), Ok(()));
    assert_eq!(g, grant(2, None, 42));
}

#[test]
fn consume_download_does_not_ask_for_the_download_right() {
    let mut g = grant(1, Some(1), 0);
    assert_eq!(g.consume_download(), Ok(()));
    assert_eq!(g.used_downloads, 1);
}

#[test]
fn access_permission_serialized_size() {
    assert_eq!(AccessPermission::LEN, 161);
}
