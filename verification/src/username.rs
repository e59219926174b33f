//! The username registry: one record per claimed username, at the address
//! derived from the username itself.

use crate::account::Context;
use crate::account::Slot;
use crate::account::Signer;
use crate::address::address_bytes;
use crate::address::at_address;
use crate::address::find_username_address;
use crate::address::is_at;
use crate::address::program_address;
use crate::address::username_seeds;
use crate::error::CustomError;
use crate::pubkey::Pubkey;
use crate::text::alphanumeric;
use crate::text::byte_len;
use crate::text::is_alphanumeric;
use crate::text::is_ascii_alphanumeric;
use crate::text::lemma_text_len_ascii;
use crate::text::lemma_text_len_at_least_chars;
use crate::text::text_len;
use vstd::prelude::*;
use vstd::string::StrSliceExecFns;

verus! {

/// The fewest bytes of a username.
pub const MIN_USERNAME_LEN: usize = 3;

/// The most bytes of a username.
pub const MAX_USERNAME_LEN: usize = 32;

/// Bytes of a registry entry besides the username: an 8-byte tag, the
/// owner's identity and the length prefix of the username.
pub const USERNAME_ACCOUNT_BASE_SPACE: usize = 8 + 32 + 4;

/// A claimed username and who claimed it.
#[derive(Clone, Debug, PartialEq, Eq)]
pub struct UsernameAccount {
    /// The identity that claimed the username.
    pub authority: Pubkey,
    pub username: String,
}

/// The accounts of `register_username`.
#[derive(Clone, Debug, PartialEq, Eq)]
pub struct RegisterUsername {
    /// Where the registry entry is created.
    pub username_account: Slot<UsernameAccount>,
    /// The caller, who claims the username.
    pub creator: Signer,
    /// Who pays for the storage.
    pub payer: Signer,
}

/// Whether `c` may stand in a username: a letter, a number or an
/// underscore.
pub open spec fn username_char(c: char) -> bool {
    alphanumeric(c) || c == '_'
}

/// Whether `username` can be claimed: 3 to 32 bytes, each character a
/// letter, a number or an underscore.
pub open spec fn valid_username(username: Seq<char>) -> bool {
    &&& MIN_USERNAME_LEN <= text_len(username) <= MAX_USERNAME_LEN
    &&& forall|i: int| 0 <= i < username.len() ==> username_char(#[trigger] username[i])
}

/// Decides whether `username` can be claimed.
pub fn is_valid_username(username: &str) -> (valid: bool)
    ensures
        valid == valid_username(username@),
{
    let len = byte_len(username);
    if len < MIN_USERNAME_LEN || len > MAX_USERNAME_LEN {
        return false;
    }
    let count = username.unicode_len();
    let mut index: usize = 0;
    while index < count
        invariant
            index <= count,
            count == username@.len(),
            forall|i: int| 0 <= i < index ==> username_char(#[trigger] username@[i]),
        decreases count - index,
    {
        let c = username.get_char(index);
        if !(is_alphanumeric(c) || c == '_') {
            assert(!username_char(username@[index as int]));
            return false;
        }
        index += 1;
    }
    true
}

/// Which usernames can be claimed. One of fewer than 3 or more than 32
/// bytes cannot, nor one of more than 32 characters, nor one that holds a
/// hyphen. One of 3 to 32 characters, each an ASCII letter, an ASCII digit
/// or an underscore, can.
pub proof fn lemma_username_rules(username: Seq<char>)
    ensures
        text_len(username) < 3 || text_len(username) > 32 ==> !valid_username(username),
        username.len() > 32 ==> !valid_username(username),
        username.contains('-') ==> !valid_username(username),
        3 <= username.len() <= 32 && (forall|i: int|
            0 <= i < username.len() ==> is_ascii_alphanumeric(#[trigger] username[i])
                || username[i] == '_') ==> valid_username(username),
{
    lemma_text_len_at_least_chars(username);
    if username.contains('-') {
        let at = choose|i: int| 0 <= i < username.len() && username[i] == '-';
        assert(!username_char(username[at]));
    }
    if 3 <= username.len() <= 32 && (forall|i: int|
        0 <= i < username.len() ==> is_ascii_alphanumeric(#[trigger] username[i]) || username[i]
            == '_') {
        assert forall|i: int| 0 <= i < username.len() implies '\0' <= #[trigger] username[i]
            <= '\u{7f}' && username_char(username[i]) by {
            assert(is_ascii_alphanumeric(username[i]) || username[i] == '_');
        }
        lemma_text_len_ascii(username);
    }
}

/// Bytes of storage of the registry entry of `username`: what the entry
/// takes when stored.
pub open spec fn username_space(username: Seq<char>) -> nat {
    USERNAME_ACCOUNT_BASE_SPACE as nat + text_len(username)
}

impl UsernameAccount {
    /// Bytes that the entry takes when stored.
    pub open spec fn encoded_len(self) -> nat {
        username_space(self.username@)
    }
}

/// Why `register_username` fails, if it does, where `derived` is the
/// address derived for the entry of `username`.
pub open spec fn register_username_error(
    ctx: Context<RegisterUsername>,
    username: Seq<char>,
    derived: Option<(Seq<u8>, u8)>,
) -> Option<CustomError> {
    if !valid_username(username) {
        Some(CustomError::InvalidUsername)
    } else if !at_address(ctx.accounts.username_account.address(), derived) {
        Some(CustomError::AddressMismatch)
    } else if ctx.accounts.username_account is Occupied {
        Some(CustomError::AlreadyExists)
    } else {
        None
    }
}

/// The accounts after `register_username` succeeded.
pub open spec fn register_username_result(
    ctx: Context<RegisterUsername>,
    username: String,
) -> Context<RegisterUsername> {
    Context {
        program_id: ctx.program_id,
        accounts: RegisterUsername {
            username_account: ctx.accounts.username_account.filled(
                username_space(username@) as usize,
                UsernameAccount { authority: ctx.accounts.creator.key, username },
            ),
            creator: ctx.accounts.creator,
            payer: ctx.accounts.payer,
        },
    }
}

/// What `register_username` returns and leaves behind.
pub open spec fn register_username_post(
    pre: Context<RegisterUsername>,
    post: Context<RegisterUsername>,
    outcome: Result<(), CustomError>,
    username: String,
    derived: Option<(Seq<u8>, u8)>,
) -> bool {
    match register_username_error(pre, username@, derived) {
        Some(error) => outcome == Err::<(), CustomError>(error) && post == pre,
        None => outcome is Ok && post == register_username_result(pre, username),
    }
}

/// Claims `username` for the caller, given the address `derived` for its
/// registry entry. A username that breaks the rules is rejected; so is an
/// account at another address than the derived one, and a username that is
/// claimed already.
pub fn register_username_at(
    ctx: &mut Context<RegisterUsername>,
    username: String,
    derived: Option<(Pubkey, u8)>,
) -> (outcome: Result<(), CustomError>)
    ensures
        register_username_post(*old(ctx), *final(ctx), outcome, username, address_bytes(derived)),
        outcome is Ok ==> final(ctx).accounts.username_account->account.space
            == final(ctx).accounts.username_account->account.data.encoded_len(),
{
    if !is_valid_username(username.as_str()) {
        return Err(CustomError::InvalidUsername);
    }
    if !is_at(&ctx.accounts.username_account.key(), &derived) {
        return Err(CustomError::AddressMismatch);
    }
    let space = USERNAME_ACCOUNT_BASE_SPACE + byte_len(username.as_str());
    let entry = UsernameAccount { authority: ctx.accounts.creator.key, username };
    ctx.accounts.username_account.create(space, entry)
}

/// Claims `username` for the caller: the registry entry is created at the
/// address derived from the tag `"username"` and the username, so that a
/// username can be claimed once.
pub fn register_username(ctx: &mut Context<RegisterUsername>, username: String) -> (outcome: Result<
    (),
    CustomError,
>)
    ensures
        register_username_post(
            *old(ctx),
            *final(ctx),
            outcome,
            username,
            program_address(username_seeds(username@), old(ctx).program_id@),
        ),
        !valid_username(username@) ==> outcome == Err::<(), CustomError>(
            CustomError::InvalidUsername,
        ) && *final(ctx) == *old(ctx),
        outcome is Ok ==> final(ctx).accounts.username_account->account.space
            == final(ctx).accounts.username_account->account.data.encoded_len(),
{
    let derived = find_username_address(&ctx.program_id, username.as_str());
    register_username_at(ctx, username, derived)
}

/// A username is claimed once. After `register_username` went through,
/// any later call for the same username, by whomever, that meets the entry
/// the first call created fails with `AlreadyExists` and changes nothing.
pub proof fn lemma_username_claimed_once(
    ctx: Context<RegisterUsername>,
    username: String,
    derived: Option<(Seq<u8>, u8)>,
    first: Context<RegisterUsername>,
    first_outcome: Result<(), CustomError>,
    again: Context<RegisterUsername>,
    same_username: String,
    second: Context<RegisterUsername>,
    second_outcome: Result<(), CustomError>,
)
    requires
        register_username_post(ctx, first, first_outcome, username, derived),
        first_outcome is Ok,
        again.program_id == first.program_id,
        again.accounts.username_account == first.accounts.username_account,
        same_username@ == username@,
        register_username_post(again, second, second_outcome, same_username, derived),
    ensures
        second_outcome == Err::<(), CustomError>(CustomError::AlreadyExists),
        second == again,
{
    assert(register_username_error(ctx, username@, derived) is None);
}

} // verus!
