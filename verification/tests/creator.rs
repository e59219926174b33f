use auton_program::account::Account;
use auton_program::account::Context;
use auton_program::account::Signer;
use auton_program::account::Slot;
use auton_program::address::find_creator_address;
use auton_program::creator::add_content;
use auton_program::creator::add_content_at;
use auton_program::creator::initialize_creator;
use auton_program::creator::initialize_creator_at;
use auton_program::creator::measure_content;
use auton_program::creator::plan_creator_space;
use auton_program::creator::update_profile;
use auton_program::creator::update_profile_at;
use auton_program::creator::AddContent;
use auton_program::creator::ContentItem;
use auton_program::creator::CreatorAccount;
use auton_program::creator::InitializeCreator;
use auton_program::creator::UpdateProfile;
use auton_program::creator::CONTENT_ITEM_FIXED_SPACE;
use auton_program::creator::CONTENT_ITEM_SPACE;
use auton_program::creator::CREATOR_ACCOUNT_BASE_SPACE;
use auton_program::creator::INITIAL_CREATOR_SPACE;
use auton_program::creator::LENGTH_PREFIX_SPACE;
use auton_program::error::CustomError;
use auton_program::pubkey::Pubkey;

fn key(byte: u8) -> Pubkey {
    Pubkey { bytes: [byte; 32] }
}

fn program() -> Pubkey {
    key(7)
}

fn creator_key(owner: Pubkey) -> Pubkey {
    find_creator_address(&program(), &owner).unwrap().0
}

fn fresh(owner: Pubkey) -> Context<InitializeCreator> {
    Context {
        program_id: program(),
        accounts: InitializeCreator {
            creator_account: Slot::Vacant { key: creator_key(owner) },
            creator: Signer { key: owner },
            payer: Signer { key: key(99) },
        },
    }
}

fn created(owner: Pubkey) -> Account<CreatorAccount> {
    let mut ctx = fresh(owner);
    assert_eq!(initialize_creator(&mut ctx), Ok(()));
    match ctx.accounts.creator_account {
        Slot::Occupied { account } => account,
        Slot::Vacant { .. } => panic!("the account was not created"),
    }
}

fn adding(account: Account<CreatorAccount>, caller: Pubkey) -> Context<AddContent> {
    Context {
        program_id: program(),
        accounts: AddContent {
            creator_account: account,
            creator: Signer { key: caller },
            payer: Signer { key: key(99) },
        },
    }
}

fn profiling(account: Account<CreatorAccount>, caller: Pubkey) -> Context<UpdateProfile> {
    Context {
        program_id: program(),
        accounts: UpdateProfile { creator_account: account, creator: Signer { key: caller } },
    }
}

#[test]
fn initialize_creator_creates_an_empty_account() {
    let account = created(key(1));
    assert_eq!(
        account,
        Account {
            key: creator_key(key(1)),
            space: 56,
            data: CreatorAccount {
                creator_wallet: key(1),
                last_content_id: 0,
                content: Vec::new(),
                profile_cid: String::new(),
            },
        }
    );
    assert!(account.data.fits(56));
    assert!(!account.data.fits(55));
}

#[test]
fn initialize_creator_happens_once() {
    let mut ctx = fresh(key(1));
    assert_eq!(initialize_creator(&mut ctx), Ok(()));
    let before = ctx.clone();
    assert_eq!(initialize_creator(&mut ctx), Err(CustomError::AlreadyExists));
    assert_eq!(ctx, before);
}

#[test]
fn initialize_creator_rejects_another_address() {
    let mut ctx = fresh(key(1));
    ctx.accounts.creator_account = Slot::Vacant { key: creator_key(key(2)) };
    let before = ctx.clone();
    assert_eq!(initialize_creator(&mut ctx), Err(CustomError::AddressMismatch));
    assert_eq!(ctx, before);
    assert_eq!(initialize_creator_at(&mut ctx, None), Err(CustomError::AddressMismatch));
    assert_eq!(initialize_creator_at(&mut ctx, Some((creator_key(key(2)), 3))), Ok(()));
}

#[test]
fn add_content_appends_the_item() {
    let mut ctx = adding(created(key(1)), key(1));
    assert_eq!(add_content(&mut ctx, "First".to_string(), 1000, vec![1, 2, 3]), Ok(()));
    assert_eq!(
        ctx.accounts.creator_account,
        Account {
            key: creator_key(key(1)),
            space: 52 + 252 + 4,
            data: CreatorAccount {
                creator_wallet: key(1),
                last_content_id: 1,
                content: vec![ContentItem {
                    id: 1,
                    title: "First".to_string(),
                    price: 1000,
                    encrypted_cid: vec![1, 2, 3],
                }],
                profile_cid: String::new(),
            },
        }
    );
    assert_eq!(ctx.accounts.creator, Signer { key: key(1) });
    assert_eq!(ctx.accounts.payer, Signer { key: key(99) });
}

#[test]
fn content_ids_count_up_from_one() {
    let mut ctx = adding(created(key(1)), key(1));
    let mut other = adding(created(key(2)), key(2));
    for round in 1..=5u64 {
        assert_eq!(add_content(&mut ctx, format!("item {}", round), round * 10, vec![]), Ok(()));
        assert_eq!(add_content(&mut other, "x".to_string(), 0, vec![0; 4]), Ok(()));
        assert_eq!(add_content(&mut other, "y".to_string(), 0, vec![0; 4]), Ok(()));
        assert_eq!(ctx.accounts.creator_account.data.last_content_id, round);
        assert_eq!(ctx.accounts.creator_account.data.content.last().unwrap().id, round);
    }
    let ids: Vec<u64> = ctx.accounts.creator_account.data.content.iter().map(|item| item.id).collect();
    assert_eq!(ids, vec![1, 2, 3, 4, 5]);
    let other_ids: Vec<u64> =
        other.accounts.creator_account.data.content.iter().map(|item| item.id).collect();
    assert_eq!(other_ids, vec![1, 2, 3, 4, 5, 6, 7, 8, 9, 10]);
    assert_eq!(ctx.accounts.creator_account.space, 52 + 5 * 252 + 4);
}

#[test]
fn add_content_continues_after_the_counter() {
    let mut account = created(key(1));
    account.data.last_content_id = 41;
    let mut ctx = adding(account, key(1));
    assert_eq!(add_content(&mut ctx, "t".to_string(), 5, vec![9]), Ok(()));
    assert_eq!(ctx.accounts.creator_account.data.last_content_id, 42);
    assert_eq!(ctx.accounts.creator_account.data.content[0].id, 42);
}

#[test]
fn add_content_by_a_stranger_is_unauthorized() {
    let mut owner = adding(created(key(1)), key(1));
    assert_eq!(add_content(&mut owner, "First".to_string(), 1000, vec![1]), Ok(()));
    let mut ctx = adding(owner.accounts.creator_account.clone(), key(2));
    let before = ctx.clone();
    assert_eq!(
        add_content(&mut ctx, "Second".to_string(), 1, vec![2]),
        Err(CustomError::Unauthorized)
    );
    assert_eq!(ctx, before);
    assert_eq!(ctx.accounts.creator_account.data.content, owner.accounts.creator_account.data.content);
    assert_eq!(ctx.accounts.creator_account.data.last_content_id, 1);
}

#[test]
fn add_content_rejects_an_account_at_another_address() {
    let mut account = created(key(1));
    account.key = creator_key(key(2));
    let mut ctx = adding(account, key(1));
    let before = ctx.clone();
    assert_eq!(
        add_content(&mut ctx, "t".to_string(), 1, vec![]),
        Err(CustomError::AddressMismatch)
    );
    assert_eq!(ctx, before);
    assert_eq!(
        add_content_at(&mut ctx, "t".to_string(), 1, vec![], Some((creator_key(key(2)), 0))),
        Ok(())
    );
}

#[test]
fn add_content_fills_the_planned_space_exactly() {
    let mut ctx = adding(created(key(1)), key(1));
    assert_eq!(add_content(&mut ctx, "t".repeat(128), 1, vec![0; 100]), Ok(()));
    assert_eq!(ctx.accounts.creator_account.space, 308);
    assert!(ctx.accounts.creator_account.data.fits(308));
    assert!(!ctx.accounts.creator_account.data.fits(307));
}

#[test]
fn add_content_fails_where_the_item_outgrows_the_plan() {
    let mut ctx = adding(created(key(1)), key(1));
    let before = ctx.clone();
    assert_eq!(
        add_content(&mut ctx, "t".repeat(129), 1, vec![0; 100]),
        Err(CustomError::StorageAllocation)
    );
    assert_eq!(ctx, before);
    assert_eq!(
        add_content(&mut ctx, "t".repeat(128), 1, vec![0; 101]),
        Err(CustomError::StorageAllocation)
    );
    assert_eq!(ctx, before);
}

#[test]
fn a_small_item_leaves_room_for_a_large_one() {
    let mut ctx = adding(created(key(1)), key(1));
    assert_eq!(add_content(&mut ctx, "a".to_string(), 1, vec![]), Ok(()));
    assert_eq!(add_content(&mut ctx, "t".repeat(200), 1, vec![0; 100]), Ok(()));
    assert_eq!(ctx.accounts.creator_account.space, 52 + 2 * 252 + 4);
    assert!(ctx.accounts.creator_account.data.fits(ctx.accounts.creator_account.space));
}

#[test]
fn add_content_counts_the_bytes_of_the_title() {
    let mut ctx = adding(created(key(1)), key(1));
    let before = ctx.clone();
    assert_eq!(
        add_content(&mut ctx, "é".repeat(65), 1, vec![0; 100]),
        Err(CustomError::StorageAllocation)
    );
    assert_eq!(ctx, before);
    assert_eq!(add_content(&mut ctx, "é".repeat(64), 1, vec![0; 100]), Ok(()));
}

#[test]
fn update_profile_replaces_the_locator() {
    let mut owner = adding(created(key(1)), key(1));
    assert_eq!(add_content(&mut owner, "First".to_string(), 1000, vec![1]), Ok(()));
    let mut ctx = profiling(owner.accounts.creator_account.clone(), key(1));
    assert_eq!(update_profile(&mut ctx, "bafyprofile".to_string()), Ok(()));
    assert_eq!(ctx.accounts.creator_account.data.profile_cid, "bafyprofile");
    assert_eq!(ctx.accounts.creator_account.space, 52 + 252 + 4 + 11);
    assert_eq!(
        ctx.accounts.creator_account.data.content,
        owner.accounts.creator_account.data.content
    );
    assert_eq!(ctx.accounts.creator_account.data.last_content_id, 1);
    assert_eq!(ctx.accounts.creator_account.data.creator_wallet, key(1));
    assert_eq!(ctx.accounts.creator_account.key, creator_key(key(1)));
}

#[test]
fn update_profile_may_shrink_the_storage() {
    let mut ctx = profiling(created(key(1)), key(1));
    assert_eq!(update_profile(&mut ctx, "x".repeat(40)), Ok(()));
    assert_eq!(ctx.accounts.creator_account.space, 96);
    assert_eq!(update_profile(&mut ctx, String::new()), Ok(()));
    assert_eq!(ctx.accounts.creator_account.space, 56);
    assert_eq!(ctx.accounts.creator_account.data.profile_cid, "");
}

#[test]
fn update_profile_by_a_stranger_is_unauthorized() {
    let mut ctx = profiling(created(key(1)), key(2));
    let before = ctx.clone();
    assert_eq!(update_profile(&mut ctx, "mine".to_string()), Err(CustomError::Unauthorized));
    assert_eq!(ctx, before);
}

#[test]
fn update_profile_rejects_an_account_at_another_address() {
    let mut account = created(key(1));
    account.key = key(42);
    let mut ctx = profiling(account, key(1));
    let before = ctx.clone();
    assert_eq!(update_profile(&mut ctx, "p".to_string()), Err(CustomError::AddressMismatch));
    assert_eq!(ctx, before);
    assert_eq!(update_profile_at(&mut ctx, "p".to_string(), Some((key(42), 0))), Ok(()));
}

#[test]
fn update_profile_fails_where_the_content_outgrew_the_plan() {
    let mut account = created(key(1));
    account.data.content.push(ContentItem {
        id: 1,
        title: "t".repeat(300),
        price: 1,
        encrypted_cid: vec![],
    });
    account.data.last_content_id = 1;
    let mut ctx = profiling(account, key(1));
    let before = ctx.clone();
    assert_eq!(update_profile(&mut ctx, "p".to_string()), Err(CustomError::StorageAllocation));
    assert_eq!(ctx, before);
}

#[test]
fn add_content_keeps_the_profile_in_the_plan() {
    let mut profile = profiling(created(key(1)), key(1));
    assert_eq!(update_profile(&mut profile, "x".repeat(10)), Ok(()));
    let mut ctx = adding(profile.accounts.creator_account, key(1));
    assert_eq!(add_content(&mut ctx, "t".to_string(), 1, vec![]), Ok(()));
    assert_eq!(ctx.accounts.creator_account.space, 52 + 252 + 4 + 10);
    assert_eq!(ctx.accounts.creator_account.data.profile_cid, "x".repeat(10));
}

#[test]
fn find_content_gives_the_first_match() {
    let item = |id: u64, price: u64| ContentItem {
        id,
        title: String::new(),
        price,
        encrypted_cid: Vec::new(),
    };
    let account = CreatorAccount {
        creator_wallet: key(1),
        last_content_id: 9,
        content: vec![item(4, 1), item(7, 2), item(4, 3), item(9, 4)],
        profile_cid: String::new(),
    };
    assert_eq!(account.find_content(4), Some(0));
    assert_eq!(account.find_content(7), Some(1));
    assert_eq!(account.find_content(9), Some(3));
    assert_eq!(account.find_content(5), None);
    assert_eq!(account.find_content(0), None);
}

#[test]
fn planned_space_follows_the_formula() {
    assert_eq!(plan_creator_space(0, 0), Some(56));
    assert_eq!(plan_creator_space(1, 0), Some(308));
    assert_eq!(plan_creator_space(3, 46), Some(52 + 3 * 252 + 4 + 46));
    assert_eq!(plan_creator_space(usize::MAX, 0), None);
    assert_eq!(plan_creator_space(0, usize::MAX), None);
    assert_eq!(plan_creator_space(0, usize::MAX - 56), Some(usize::MAX));
    assert_eq!(plan_creator_space(usize::MAX / 252, 0), None);
}

#[test]
fn measure_content_adds_up_the_items() {
    let items = vec![
        ContentItem { id: 1, title: "ab".to_string(), price: 1, encrypted_cid: vec![0; 5] },
        ContentItem { id: 2, title: "é".to_string(), price: 1, encrypted_cid: vec![] },
    ];
    assert_eq!(measure_content(&items, 1000), Some(24 + 2 + 5 + 24 + 2));
    assert_eq!(measure_content(&items, 57), Some(57));
    assert_eq!(measure_content(&items, 56), None);
    assert_eq!(measure_content(&items, 0), None);
    assert_eq!(measure_content(&Vec::new(), 0), Some(0));
}

#[test]
fn creator_constants() {
    assert_eq!(CREATOR_ACCOUNT_BASE_SPACE, 52);
    assert_eq!(CONTENT_ITEM_SPACE, 252);
    assert_eq!(CONTENT_ITEM_FIXED_SPACE, 24);
    assert_eq!(LENGTH_PREFIX_SPACE, 4);
    assert_eq!(INITIAL_CREATOR_SPACE, 56);
}
