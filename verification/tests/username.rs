use auton_program::account::Account;
use auton_program::account::Context;
use auton_program::account::Signer;
use auton_program::account::Slot;
use auton_program::address::find_username_address;
use auton_program::error::CustomError;
use auton_program::pubkey::Pubkey;
use auton_program::text::byte_len;
use auton_program::username::is_valid_username;
use auton_program::username::register_username;
use auton_program::username::register_username_at;
use auton_program::username::RegisterUsername;
use auton_program::username::UsernameAccount;
use auton_program::username::MAX_USERNAME_LEN;
use auton_program::username::MIN_USERNAME_LEN;
use auton_program::username::USERNAME_ACCOUNT_BASE_SPACE;

fn key(byte: u8) -> Pubkey {
    Pubkey { bytes: [byte; 32] }
}

fn program() -> Pubkey {
    key(7)
}

fn slot_of(username: &str) -> Slot<UsernameAccount> {
    match find_username_address(&program(), username) {
        Some((address, _)) => Slot::Vacant { key: address },
        None => Slot::Vacant { key: key(0) },
    }
}

fn claim(username: &str, creator: Pubkey) -> Context<RegisterUsername> {
    Context {
        program_id: program(),
        accounts: RegisterUsername {
            username_account: slot_of(username),
            creator: Signer { key: creator },
            payer: Signer { key: key(99) },
        },
    }
}

#[test]
fn register_username_creates_the_entry() {
    let mut ctx = claim("alice_01", key(1));
    assert_eq!(register_username(&mut ctx, "alice_01".to_string()), Ok(()));
    assert_eq!(
        ctx.accounts.username_account,
        Slot::Occupied {
            account: Account {
                key: find_username_address(&program(), "alice_01").unwrap().0,
                space: 8 + 32 + 4 + 8,
                data: UsernameAccount { authority: key(1), username: "alice_01".to_string() },
            }
        }
    );
    assert_eq!(ctx.accounts.creator, Signer { key: key(1) });
    assert_eq!(ctx.accounts.payer, Signer { key: key(99) });
}

#[test]
fn username_of_two_bytes_is_rejected() {
    let mut ctx = claim("ab", key(1));
    let before = ctx.clone();
    assert_eq!(register_username(&mut ctx, "ab".to_string()), Err(CustomError::InvalidUsername));
    assert_eq!(ctx, before);
}

#[test]
fn username_of_thirty_three_bytes_is_rejected() {
    let name = "a".repeat(33);
    let mut ctx = claim(&name, key(1));
    let before = ctx.clone();
    assert_eq!(register_username(&mut ctx, name), Err(CustomError::InvalidUsername));
    assert_eq!(ctx, before);
}

#[test]
fn username_with_a_hyphen_is_rejected() {
    let mut ctx = claim("al-ice", key(1));
    let before = ctx.clone();
    assert_eq!(register_username(&mut ctx, "al-ice".to_string()), Err(CustomError::InvalidUsername));
    assert_eq!(ctx, before);
}

#[test]
fn usernames_of_three_and_of_thirty_two_bytes_are_accepted() {
    let mut shortest = claim("abc", key(1));
    assert_eq!(register_username(&mut shortest, "abc".to_string()), Ok(()));
    let name = "A1_".repeat(10) + "zZ";
    assert_eq!(name.len(), 32);
    let mut longest = claim(&name, key(1));
    assert_eq!(register_username(&mut longest, name.clone()), Ok(()));
    match longest.accounts.username_account {
        Slot::Occupied { account } => {
            assert_eq!(account.space, 76);
            assert_eq!(account.data.username, name);
        }
        Slot::Vacant { .. } => panic!("the entry was not created"),
    }
}

#[test]
fn a_username_is_claimed_once() {
    let mut ctx = claim("alice", key(1));
    assert_eq!(register_username(&mut ctx, "alice".to_string()), Ok(()));
    let claimed = ctx.accounts.username_account.clone();
    let before = ctx.clone();
    assert_eq!(register_username(&mut ctx, "alice".to_string()), Err(CustomError::AlreadyExists));
    assert_eq!(ctx, before);
    let mut other = claim("alice", key(2));
    other.accounts.username_account = claimed.clone();
    assert_eq!(register_username(&mut other, "alice".to_string()), Err(CustomError::AlreadyExists));
    assert_eq!(other.accounts.username_account, claimed);
}

#[test]
fn two_usernames_are_two_entries() {
    let mut first = claim("alice", key(1));
    assert_eq!(register_username(&mut first, "alice".to_string()), Ok(()));
    let mut second = claim("alicia", key(1));
    assert_eq!(register_username(&mut second, "alicia".to_string()), Ok(()));
    assert_ne!(first.accounts.username_account.key(), second.accounts.username_account.key());
}

#[test]
fn register_username_rejects_another_address() {
    let mut ctx = claim("alice", key(1));
    ctx.accounts.username_account = slot_of("bob");
    let before = ctx.clone();
    assert_eq!(register_username(&mut ctx, "alice".to_string()), Err(CustomError::AddressMismatch));
    assert_eq!(ctx, before);
}

#[test]
fn register_username_looks_at_the_name_before_the_address() {
    let mut ctx = claim("alice", key(1));
    ctx.accounts.username_account = Slot::Vacant { key: key(42) };
    assert_eq!(register_username(&mut ctx, "a!".to_string()), Err(CustomError::InvalidUsername));
}

#[test]
fn register_username_at_goes_by_the_address_it_is_given() {
    let mut ctx = claim("alice", key(1));
    ctx.accounts.username_account = Slot::Vacant { key: key(42) };
    assert_eq!(
        register_username_at(&mut ctx, "alice".to_string(), Some((key(42), 1))),
        Ok(())
    );
    let mut none = claim("alice", key(1));
    assert_eq!(
        register_username_at(&mut none, "alice".to_string(), None),
        Err(CustomError::AddressMismatch)
    );
}

#[test]
fn valid_usernames() {
    for name in ["abc", "ABC", "a_b", "___", "user_2024", "0123456789", "Zz9"] {
        assert!(is_valid_username(name), "{}", name);
    }
    assert!(is_valid_username(&"x".repeat(32)));
}

#[test]
fn invalid_usernames() {
    for name in ["", "a", "ab", "a-b", "a b", "a.b", "abc!", "ab\n", "a@b", "tab\tz", "a/b"] {
        assert!(!is_valid_username(name), "{:?}", name);
    }
    assert!(!is_valid_username(&"x".repeat(33)));
    assert!(!is_valid_username(&"x".repeat(100)));
}

#[test]
fn letters_beyond_ascii_count_by_their_bytes() {
    assert!(is_valid_username("zoë"));
    assert!(is_valid_username("日本"));
    assert!(!is_valid_username("é"));
    assert!(is_valid_username(&"é".repeat(16)));
    assert!(!is_valid_username(&"é".repeat(17)));
    assert!(!is_valid_username("a–b"));
}

#[test]
fn alphanumeric_characters() {
    for c in ['a', 'z', 'A', 'Z', '0', '9', 'é', 'ß', '٣', '藏'] {
        assert!(is_valid_username(&format!("a{}b", c)), "{}", c);
    }
    for c in ['-', ' ', '!', '@', '[', '`', '{', '/', ':', '\0', '\u{7f}', '€', '–'] {
        assert!(!is_valid_username(&format!("a{}b", c)), "{:?}", c);
    }
    assert!(is_valid_username("a_b"));
}

#[test]
fn byte_len_counts_bytes_of_utf8() {
    assert_eq!(byte_len(""), 0);
    assert_eq!(byte_len("abc"), 3);
    assert_eq!(byte_len("zoë"), 4);
    assert_eq!(byte_len("日本"), 6);
}

#[test]
fn username_constants() {
    assert_eq!(MIN_USERNAME_LEN, 3);
    assert_eq!(MAX_USERNAME_LEN, 32);
    assert_eq!(USERNAME_ACCOUNT_BASE_SPACE, 44);
}
