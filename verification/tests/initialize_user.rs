use denft::initialize_user_at;
use denft::DenftError;
use denft::InitializeUser;
use denft::Pubkey;
use denft::UserAccount;
use denft::UserInitialized;

#[test]
fn initialize_user_creates_an_empty_active_account() {
    let alice = Pubkey([1; 32]);
    let mut ctx = InitializeUser { authority: alice, user_account: None };
    let event = initialize_user_at(&mut ctx, 1_700_000_000);
    assert_eq!(event, Ok(UserInitialized { user: alice, timestamp: 1_700_000_000 }));
    assert_eq!(
        ctx.user_account,
        Some(UserAccount {
            owner: alice,
            file_count: 0,
            storage_used: 0,
            storage_limit: 1_073_741_824,
            file_limit: 100,
            created_at: 1_700_000_000,
            is_active: true,
        })
    );
    assert_eq!(ctx.authority, alice);
}

#[test]
fn initialize_user_twice_fails_and_keeps_the_account() {
    let alice = Pubkey([1; 32]);
    let mut ctx = InitializeUser { authority: alice, user_account: None };
    assert!(initialize_user_at(&mut ctx, 10).is_ok());
    let mut account = ctx.user_account.unwrap();
    account.add_file(5);
    ctx.user_account = Some(account);
    let before = ctx;
    assert_eq!(initialize_user_at(&mut ctx, 20), Err(DenftError::AlreadyExists));
    assert_eq!(ctx, before);
}
