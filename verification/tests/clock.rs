use anchor_lang::solana_program::program_error::ProgramError;
use denft::clock::timestamp_from;
use denft::clock::unix_timestamp;
use denft::delete_file;
use denft::grant_access;
use denft::initialize_user;
use denft::record_file_access;
use denft::revoke_access;
use denft::update_file_publicity;
use denft::upload_file;
use denft::verify_file;
use denft::AccessPermission;
use denft::AccessType;
use denft::DeleteFile;
use denft::DenftError;
use denft::FileRecord;
use denft::GrantAccess;
use denft::InitializeUser;
use denft::Pubkey;
use denft::RecordFileAccess;
use denft::RevokeAccess;
use denft::UpdateFilePublicity;
use denft::UploadFile;
use denft::UserAccount;
use denft::VerifyFile;

const ALICE: Pubkey = Pubkey([1; 32]);
const BOB: Pubkey = Pubkey([2; 32]);
const FILE_ID: Pubkey = Pubkey([5; 32]);

fn clock_account() -> UserAccount {
    UserAccount {
        owner: ALICE,
        file_count: 1,
        storage_used: 10,
        storage_limit: 1_073_741_824,
        file_limit: 100,
        created_at: 1,
        is_active: true,
    }
}

fn clock_file() -> FileRecord {
    FileRecord {
        owner: ALICE,
        file_hash: [9; 32],
        ipfs_hash: String::from("Qm"),
        encrypted_metadata: String::from("m"),
        file_size: 10,
        content_type: String::from("c"),
        description: String::from("d"),
        timestamp: 5,
        is_public_verification: false,
        access_count: 0,
        download_count: 0,
        is_active: true,
        deleted_at: None,
        verification_id: 77,
    }
}

fn clock_grant() -> AccessPermission {
    AccessPermission {
        file_record: FILE_ID,
        accessor: BOB,
        permissions: 7,
        granted_at: 1000,
        expires_at: None,
        max_downloads: None,
        used_downloads: 0,
        granted_by: ALICE,
        is_active: true,
        revoked_at: None,
    }
}

// Outside a running program the runtime provides no clock.

#[test]
fn unix_timestamp_fails_only_with_clock_unavailable() {
    match unix_timestamp() {
        Ok(_) => {}
        Err(e) => assert_eq!(e, DenftError::ClockUnavailable),
    }
}

#[test]
fn operations_reject_without_asking_the_clock() {
    let mut upload = UploadFile {
        user_account: clock_account(),
        file_id: FILE_ID,
        file_record: None,
        authority: ALICE,
    };
    let before = upload.clone();
    let result = upload_file(
        &mut upload,
        [9; 32],
        String::from("Qm"),
        String::from("m"),
        0,
        String::from("c"),
        String::from("d"),
    );
    assert_eq!(result, Err(DenftError::InvalidFileSize));
    assert_eq!(upload, before);

    let mut init = InitializeUser { authority: ALICE, user_account: Some(clock_account()) };
    assert_eq!(initialize_user(&mut init), Err(DenftError::AlreadyExists));

    let mut grant = GrantAccess {
        file_id: FILE_ID,
        file_record: clock_file(),
        access_permission: None,
        authority: ALICE,
    };
    assert_eq!(grant_access(&mut grant, BOB, 8, None, None), Err(DenftError::InvalidPermissions));
    assert_eq!(grant.access_permission, None);

    let mut revoke = RevokeAccess {
        file_id: FILE_ID,
        file_record: clock_file(),
        access_permission: clock_grant(),
        authority: BOB,
    };
    assert_eq!(revoke_access(&mut revoke), Err(DenftError::Unauthorized));
    assert!(revoke.access_permission.is_active);

    let mut access = RecordFileAccess {
        file_id: FILE_ID,
        file_record: clock_file(),
        access_permission: clock_grant(),
        authority: ALICE,
    };
    assert_eq!(record_file_access(&mut access, AccessType::Read), Err(DenftError::Unauthorized));
    assert_eq!(access.file_record.access_count, 0);

    let mut publicity =
        UpdateFilePublicity { file_id: FILE_ID, file_record: clock_file(), authority: BOB };
    assert_eq!(update_file_publicity(&mut publicity, true), Err(DenftError::Unauthorized));
    assert!(!publicity.file_record.is_public_verification);

    let mut verify = VerifyFile { file_id: FILE_ID, file_record: clock_file(), authority: BOB };
    assert_eq!(verify_file(&mut verify, [8; 32]), Err(DenftError::FileHashMismatch));
    assert_eq!(verify.file_record.access_count, 0);

    let mut delete = DeleteFile {
        user_account: clock_account(),
        file_id: FILE_ID,
        file_record: clock_file(),
        authority: BOB,
    };
    assert_eq!(delete_file(&mut delete), Err(DenftError::Unauthorized));
    assert!(delete.file_record.is_active);
}

#[test]
fn operations_change_nothing_when_the_clock_fails() {
    let clock_works = unix_timestamp().is_ok();

    let mut upload = UploadFile {
        user_account: clock_account(),
        file_id: FILE_ID,
        file_record: None,
        authority: ALICE,
    };
    let before = upload.clone();
    let result = upload_file(
        &mut upload,
        [9; 32],
        String::from("Qm"),
        String::from("m"),
        10,
        String::from("c"),
        String::from("d"),
    );
    if clock_works {
        assert!(result.is_ok());
        assert_eq!(upload.user_account.file_count, 2);
    } else {
        assert_eq!(result, Err(DenftError::ClockUnavailable));
        assert_eq!(upload, before);
    }

    let mut delete = DeleteFile {
        user_account: clock_account(),
        file_id: FILE_ID,
        file_record: clock_file(),
        authority: ALICE,
    };
    let before = delete.clone();
    let result = delete_file(&mut delete);
    if clock_works {
        assert!(result.is_ok());
        assert!(!delete.file_record.is_active);
    } else {
        assert_eq!(result, Err(DenftError::ClockUnavailable));
        assert_eq!(delete, before);
    }

    let mut access = RecordFileAccess {
        file_id: FILE_ID,
        file_record: clock_file(),
        access_permission: clock_grant(),
        authority: BOB,
    };
    let before = access.clone();
    let result = record_file_access(&mut access, AccessType::Download);
    if clock_works {
        assert!(result.is_ok());
        assert_eq!(access.access_permission.used_downloads, 1);
    } else {
        assert_eq!(result, Err(DenftError::ClockUnavailable));
        assert_eq!(access, before);
    }
}

#[test]
fn timestamp_from_keeps_the_time_and_maps_every_failure() {
    assert_eq!(timestamp_from(Ok(1_700_000_000)), Ok(1_700_000_000));
    assert_eq!(timestamp_from(Ok(0)), Ok(0));
    assert_eq!(timestamp_from(Ok(-5)), Ok(-5));
    assert_eq!(timestamp_from(Ok(i64::MAX)), Ok(i64::MAX));
    assert_eq!(
        timestamp_from(Err(ProgramError::UnsupportedSysvar)),
        Err(DenftError::ClockUnavailable)
    );
    assert_eq!(
        timestamp_from(Err(ProgramError::InvalidArgument)),
        Err(DenftError::ClockUnavailable)
    );
    assert_eq!(timestamp_from(Err(ProgramError::Custom(7))), Err(DenftError::ClockUnavailable));
}
