use denft::AccessPermission;
use denft::AccessType;
use denft::DeleteFile;
use denft::DenftError;
use denft::FileRecord;
use denft::GrantAccess;
use denft::InitializeUser;
use denft::Pubkey;
use denft::RecordFileAccess;
use denft::RevokeAccess;
use denft::UpdateFilePublicity;
use denft::UploadFile;
use denft::UserAccount;
use denft::VerifyFile;

const ALICE: Pubkey = Pubkey([1; 32]);
const BOB: Pubkey = Pubkey([2; 32]);
const FILE_ID: Pubkey = Pubkey([5; 32]);

fn checked_account() -> UserAccount {
    UserAccount {
        owner: ALICE,
        file_count: 0,
        storage_used: 0,
        storage_limit: 100,
        file_limit: 1,
        created_at: 1,
        is_active: true,
    }
}

fn checked_file() -> FileRecord {
    FileRecord {
        owner: ALICE,
        file_hash: [9; 32],
        ipfs_hash: String::from("Qm"),
        encrypted_metadata: String::from("m"),
        file_size: 10,
        content_type: String::from("c"),
        description: String::from("d"),
        timestamp: 5,
        is_public_verification: false,
        access_count: 0,
        download_count: 0,
        is_active: true,
        deleted_at: None,
        verification_id: 77,
    }
}

fn checked_grant() -> AccessPermission {
    AccessPermission {
        file_record: FILE_ID,
        accessor: BOB,
        permissions: 1,
        granted_at: 1000,
        expires_at: Some(2000),
        max_downloads: Some(1),
        used_downloads: 1,
        granted_by: ALICE,
        is_active: true,
        revoked_at: None,
    }
}

#[test]
fn check_of_initialize_user_and_upload_file() {
    let init = InitializeUser { authority: ALICE, user_account: None };
    assert_eq!(init.check(), None);
    let init = InitializeUser { authority: ALICE, user_account: Some(checked_account()) };
    assert_eq!(init.check(), Some(DenftError::AlreadyExists));

    let upload = UploadFile {
        user_account: checked_account(),
        file_id: FILE_ID,
        file_record: None,
        authority: ALICE,
    };
    let text = String::from("t");
    assert_eq!(upload.check(&text, 100, &text, &text), None);
    assert_eq!(upload.check(&text, 101, &text, &text), Some(DenftError::FileLimitExceeded));
    assert_eq!(upload.check(&text, 0, &text, &text), Some(DenftError::InvalidFileSize));
    assert_eq!(
        upload.check(&"x".repeat(101), 1, &text, &text),
        Some(DenftError::IpfsHashTooLong)
    );
}

#[test]
fn check_of_grant_access_and_revoke_access() {
    let grant = GrantAccess {
        file_id: FILE_ID,
        file_record: checked_file(),
        access_permission: None,
        authority: ALICE,
    };
    assert_eq!(grant.check(7, Some(11), 10), None);
    assert_eq!(grant.check(7, None, 10), None);
    assert_eq!(grant.check(7, Some(10), 10), Some(DenftError::InvalidExpirationTime));
    assert_eq!(grant.check(0, Some(10), 10), Some(DenftError::InvalidPermissions));

    let mut revoke = RevokeAccess {
        file_id: FILE_ID,
        file_record: checked_file(),
        access_permission: checked_grant(),
        authority: ALICE,
    };
    assert_eq!(revoke.check(), None);
    revoke.access_permission.revoke(3);
    assert_eq!(revoke.check(), Some(DenftError::AccessAlreadyRevoked));
    revoke.authority = BOB;
    assert_eq!(revoke.check(), Some(DenftError::Unauthorized));
}

#[test]
fn check_of_record_file_access() {
    let mut access = RecordFileAccess {
        file_id: FILE_ID,
        file_record: checked_file(),
        access_permission: checked_grant(),
        authority: BOB,
    };
    assert_eq!(access.check_standing(), None);
    assert_eq!(access.check(AccessType::Read, 2000), None);
    assert_eq!(access.check(AccessType::Share, 2000), None);
    assert_eq!(access.check(AccessType::Read, 2001), Some(DenftError::AccessExpired));
    assert_eq!(access.check(AccessType::Download, 2000), Some(DenftError::Unauthorized));
    access.access_permission.permissions = 3;
    assert_eq!(access.check(AccessType::Download, 2000), Some(DenftError::DownloadLimitExceeded));
    access.access_permission.max_downloads = Some(2);
    assert_eq!(access.check(AccessType::Download, 2000), None);
    access.file_record.mark_deleted(1500);
    assert_eq!(access.check_standing(), Some(DenftError::FileNotActive));
    assert_eq!(access.check(AccessType::Download, 2000), Some(DenftError::FileNotActive));
}

#[test]
fn check_of_verify_file_update_file_publicity_and_delete_file() {
    let verify = VerifyFile { file_id: FILE_ID, file_record: checked_file(), authority: BOB };
    assert_eq!(verify.check(&[9; 32]), None);
    assert_eq!(verify.check(&[0; 32]), Some(DenftError::FileHashMismatch));

    let publicity =
        UpdateFilePublicity { file_id: FILE_ID, file_record: checked_file(), authority: ALICE };
    assert_eq!(publicity.check(), None);
    let publicity =
        UpdateFilePublicity { file_id: FILE_ID, file_record: checked_file(), authority: BOB };
    assert_eq!(publicity.check(), Some(DenftError::Unauthorized));

    let mut delete = DeleteFile {
        user_account: checked_account(),
        file_id: FILE_ID,
        file_record: checked_file(),
        authority: ALICE,
    };
    assert_eq!(delete.check(), None);
    delete.file_record.mark_deleted(3);
    assert_eq!(delete.check(), Some(DenftError::FileAlreadyDeleted));
}
