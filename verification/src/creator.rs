//! The creator registry: one account per creator, holding the creator's
//! content list, the counter that numbers it, and a pointer to a profile.

use crate::account::Account;
use crate::account::Context;
use crate::account::Slot;
use crate::account::Signer;
use crate::address::address_bytes;
use crate::address::at_address;
use crate::address::creator_seeds;
use crate::address::find_creator_address;
use crate::address::is_at;
use crate::address::program_address;
use crate::error::CustomError;
use crate::pubkey::Pubkey;
use crate::text::byte_len;
use crate::text::text_len;
use vstd::prelude::*;
use vstd::utf8::encode_utf8;

verus! {

/// Bytes of a creator account before its content list: an 8-byte tag, the
/// owner's identity, the counter and the length prefix of the list.
pub const CREATOR_ACCOUNT_BASE_SPACE: usize = 8 + 32 + 8 + 4;

/// Bytes planned for one content item: id, a title of up to 128 bytes with
/// its length prefix, price, and a locator of up to 100 bytes with its
/// length prefix.
pub const CONTENT_ITEM_SPACE: usize = 8 + 4 + 128 + 8 + 4 + 100;

/// Bytes of the length prefix of a string or a byte string.
pub const LENGTH_PREFIX_SPACE: usize = 4;

/// Bytes of an item besides its title and its locator.
pub const CONTENT_ITEM_FIXED_SPACE: usize = 8 + 4 + 8 + 4;

/// Bytes of storage of a creator account without content and profile.
pub const INITIAL_CREATOR_SPACE: usize = 8 + 32 + 8 + 4 + 4;

/// A priced entry of a creator's list, referring to an encrypted payload
/// that is kept elsewhere.
#[derive(Clone, Debug, PartialEq, Eq)]
pub struct ContentItem {
    /// The id, unique within the creator's list.
    pub id: u64,
    pub title: String,
    /// The price in the smallest currency unit.
    pub price: u64,
    /// Ciphertext, nonce and authentication tag of the payload's locator.
    pub encrypted_cid: Vec<u8>,
}

/// What a creator has published.
#[derive(Clone, Debug, PartialEq, Eq)]
pub struct CreatorAccount {
    /// The owner, who alone may change the account.
    pub creator_wallet: Pubkey,
    /// The id given to the newest item; 0 while there is none.
    pub last_content_id: u64,
    /// The items in the order they were added.
    pub content: Vec<ContentItem>,
    /// Locator of the creator's profile.
    pub profile_cid: String,
}

/// Bytes that the items of `items` take when stored one after another.
pub open spec fn content_encoded_len(items: Seq<ContentItem>) -> nat
    decreases items.len(),
{
    if items.len() == 0 {
        0
    } else {
        content_encoded_len(items.drop_last()) + items.last().encoded_len()
    }
}

/// Bytes of storage planned for a creator account with `items` items and a
/// profile locator of `profile_len` bytes.
pub open spec fn creator_space(items: nat, profile_len: nat) -> nat {
    CREATOR_ACCOUNT_BASE_SPACE as nat + items * (CONTENT_ITEM_SPACE as nat)
        + LENGTH_PREFIX_SPACE as nat + profile_len
}

/// Computes the storage planned for a creator account with `items` items
/// and a profile locator of `profile_len` bytes, unless it exceeds what the
/// machine can address.
pub fn plan_creator_space(items: usize, profile_len: usize) -> (space: Option<usize>)
    ensures
        match space {
            Some(bytes) => bytes == creator_space(items as nat, profile_len as nat),
            None => creator_space(items as nat, profile_len as nat) > usize::MAX,
        },
{
    let list = match items.checked_mul(CONTENT_ITEM_SPACE) {
        Some(bytes) => bytes,
        None => { return None; },
    };
    let with_base = match list.checked_add(CREATOR_ACCOUNT_BASE_SPACE + LENGTH_PREFIX_SPACE) {
        Some(bytes) => bytes,
        None => { return None; },
    };
    with_base.checked_add(profile_len)
}

impl ContentItem {
    /// Bytes that the item takes when stored: id and price in 8 bytes each,
    /// title and locator each behind a 4-byte length.
    pub open spec fn encoded_len(self) -> nat {
        CONTENT_ITEM_FIXED_SPACE as nat + text_len(self.title@) + self.encrypted_cid@.len()
    }
}

impl CreatorAccount {
    /// Ids grow along the list, start above 0 and never pass the counter.
    pub open spec fn wf(self) -> bool {
        &&& forall|i: int, j: int|
            0 <= i < j < self.content@.len() ==> self.content@[i].id < self.content@[j].id
        &&& forall|i: int|
            0 <= i < self.content@.len() ==> 1 <= #[trigger] self.content@[i].id
                <= self.last_content_id
    }

    /// The items are numbered 1, 2, 3, ... and the counter stands at their
    /// number: what holds of an account that only ever grew from empty.
    pub open spec fn numbered_from_one(self) -> bool {
        &&& self.last_content_id == self.content@.len()
        &&& forall|i: int| 0 <= i < self.content@.len() ==> #[trigger] self.content@[i].id == i + 1
    }

    /// Bytes that the account takes when stored.
    pub open spec fn encoded_len(self) -> nat {
        CREATOR_ACCOUNT_BASE_SPACE as nat + content_encoded_len(self.content@)
            + LENGTH_PREFIX_SPACE as nat + text_len(self.profile_cid@)
    }

    /// Whether `index` is the place of the first item with the id
    /// `content_id`.
    pub open spec fn is_first_with_id(self, content_id: u64, index: int) -> bool {
        &&& 0 <= index < self.content@.len()
        &&& self.content@[index].id == content_id
        &&& forall|j: int| 0 <= j < index ==> self.content@[j].id != content_id
    }

    /// Whether some item has the id `content_id`.
    pub open spec fn has_content(self, content_id: u64) -> bool {
        exists|i: int| 0 <= i < self.content@.len() && self.content@[i].id == content_id
    }

    /// The first item with the id `content_id`, where there is one.
    pub open spec fn content_with_id(self, content_id: u64) -> Option<ContentItem> {
        if self.has_content(content_id) {
            Some(self.content@[choose|i: int| self.is_first_with_id(content_id, i)])
        } else {
            None
        }
    }

    /// The first item with a given id stands at one place only.
    pub proof fn lemma_first_with_id(self, content_id: u64, index: int)
        requires
            self.is_first_with_id(content_id, index),
        ensures
            self.has_content(content_id),
            self.content_with_id(content_id) == Some(self.content@[index]),
    {
        let chosen = choose|i: int| self.is_first_with_id(content_id, i);
        assert(self.is_first_with_id(content_id, chosen));
        assert(chosen == index) by {
            if chosen < index {
                assert(self.content@[chosen].id != content_id);
            } else if index < chosen {
                assert(self.content@[index].id != content_id);
            }
        }
    }

    /// Looks for the first item with the id `content_id`, from the front of
    /// the list, and gives its place.
    pub fn find_content(&self, content_id: u64) -> (found: Option<usize>)
        ensures
            match found {
                Some(index) => self.is_first_with_id(content_id, index as int),
                None => !self.has_content(content_id),
            },
    {
        let mut index: usize = 0;
        while index < self.content.len()
            invariant
                index <= self.content@.len(),
                forall|j: int| 0 <= j < index ==> self.content@[j].id != content_id,
            decreases self.content@.len() - index,
        {
            if self.content[index].id == content_id {
                return Some(index);
            }
            index += 1;
        }
        None
    }

    /// Whether the account, stored, fits in `space` bytes.
    pub fn fits(&self, space: usize) -> (fits: bool)
        ensures
            fits == (self.encoded_len() <= space),
    {
        let profile_len = byte_len(self.profile_cid.as_str());
        let fixed: usize = CREATOR_ACCOUNT_BASE_SPACE + LENGTH_PREFIX_SPACE;
        if space < fixed || space - fixed < profile_len {
            return false;
        }
        measure_content(&self.content, space - fixed - profile_len).is_some()
    }
}

/// Measures the bytes that the items of `items` take when stored, as long
/// as they do not exceed `limit`.
pub fn measure_content(items: &Vec<ContentItem>, limit: usize) -> (measured: Option<usize>)
    ensures
        match measured {
            Some(bytes) => bytes == content_encoded_len(items@) && bytes <= limit,
            None => content_encoded_len(items@) > limit,
        },
{
    let mut total: usize = 0;
    let mut index: usize = 0;
    assert(items@.subrange(0, 0) =~= Seq::<ContentItem>::empty());
    while index < items.len()
        invariant
            index <= items@.len(),
            total == content_encoded_len(items@.subrange(0, index as int)),
            total <= limit,
        decreases items@.len() - index,
    {
        let item = &items[index];
        let title_len = byte_len(item.title.as_str());
        let locator_len = item.encrypted_cid.len();
        proof {
            let upto = items@.subrange(0, index as int + 1);
            assert(upto.drop_last() =~= items@.subrange(0, index as int));
            assert(upto.last() == items@[index as int]);
            lemma_content_encoded_len_grows(items@, index as int + 1);
        }
        let room = limit - total;
        if room < CONTENT_ITEM_FIXED_SPACE || room - CONTENT_ITEM_FIXED_SPACE < title_len || room
            - CONTENT_ITEM_FIXED_SPACE - title_len < locator_len {
            return None;
        }
        total = total + CONTENT_ITEM_FIXED_SPACE + title_len + locator_len;
        index += 1;
    }
    assert(items@.subrange(0, index as int) =~= items@);
    Some(total)
}

/// A front part of a list takes no more bytes than the whole list.
pub proof fn lemma_content_encoded_len_grows(items: Seq<ContentItem>, front: int)
    requires
        0 <= front <= items.len(),
    ensures
        content_encoded_len(items.subrange(0, front)) <= content_encoded_len(items),
    decreases items.len() - front,
{
    if front < items.len() {
        let longer = items.subrange(0, front + 1);
        assert(longer.drop_last() =~= items.subrange(0, front));
        lemma_content_encoded_len_grows(items, front + 1);
    } else {
        assert(items.subrange(0, front) =~= items);
    }
}

/// The accounts of `initialize_creator`.
#[derive(Clone, Debug, PartialEq, Eq)]
pub struct InitializeCreator {
    /// Where the creator account is created.
    pub creator_account: Slot<CreatorAccount>,
    /// The caller, who becomes the owner.
    pub creator: Signer,
    /// Who pays for the storage.
    pub payer: Signer,
}

/// The accounts of `add_content`.
#[derive(Clone, Debug, PartialEq, Eq)]
pub struct AddContent {
    /// The creator account that the item is added to.
    pub creator_account: Account<CreatorAccount>,
    /// The caller.
    pub creator: Signer,
    /// Who pays for the growth of the storage.
    pub payer: Signer,
}

/// The accounts of `update_profile`.
#[derive(Clone, Debug, PartialEq, Eq)]
pub struct UpdateProfile {
    /// The creator account whose profile is replaced.
    pub creator_account: Account<CreatorAccount>,
    /// The caller, who also pays for a growth of the storage.
    pub creator: Signer,
}

/// Why `initialize_creator` fails, if it does, where `derived` is the
/// address derived for the caller's creator account.
pub open spec fn initialize_creator_error(
    ctx: Context<InitializeCreator>,
    derived: Option<(Seq<u8>, u8)>,
) -> Option<CustomError> {
    if !at_address(ctx.accounts.creator_account.address(), derived) {
        Some(CustomError::AddressMismatch)
    } else if ctx.accounts.creator_account is Occupied {
        Some(CustomError::AlreadyExists)
    } else {
        None
    }
}

/// What `initialize_creator` returns and leaves behind.
pub open spec fn initialize_creator_post(
    pre: Context<InitializeCreator>,
    post: Context<InitializeCreator>,
    outcome: Result<(), CustomError>,
    derived: Option<(Seq<u8>, u8)>,
) -> bool {
    match initialize_creator_error(pre, derived) {
        Some(error) => outcome == Err::<(), CustomError>(error) && post == pre,
        None => {
            &&& outcome is Ok
            &&& post.program_id == pre.program_id
            &&& post.accounts.creator == pre.accounts.creator
            &&& post.accounts.payer == pre.accounts.payer
            &&& post.accounts.creator_account matches Slot::Occupied { account }
            &&& account.key == pre.accounts.creator_account.address()
            &&& account.space == INITIAL_CREATOR_SPACE
            &&& account.data.creator_wallet == pre.accounts.creator.key
            &&& account.data.last_content_id == 0
            &&& account.data.content@ == Seq::<ContentItem>::empty()
            &&& account.data.profile_cid@ == Seq::<char>::empty()
        },
    }
}

/// Creates the caller's creator account, empty, given the address `derived`
/// for it. An account at another address is rejected, and so is a second
/// creation.
pub fn initialize_creator_at(
    ctx: &mut Context<InitializeCreator>,
    derived: Option<(Pubkey, u8)>,
) -> (outcome: Result<(), CustomError>)
    ensures
        initialize_creator_post(*old(ctx), *final(ctx), outcome, address_bytes(derived)),
{
    if !is_at(&ctx.accounts.creator_account.key(), &derived) {
        return Err(CustomError::AddressMismatch);
    }
    let account = CreatorAccount {
        creator_wallet: ctx.accounts.creator.key,
        last_content_id: 0,
        content: Vec::new(),
        profile_cid: String::new(),
    };
    ctx.accounts.creator_account.create(INITIAL_CREATOR_SPACE, account)
}

/// Creates the caller's creator account at the address derived from the tag
/// `"creator"` and the caller's identity: no content, no profile, counter at
/// zero.
pub fn initialize_creator(ctx: &mut Context<InitializeCreator>) -> (outcome: Result<
    (),
    CustomError,
>)
    ensures
        initialize_creator_post(
            *old(ctx),
            *final(ctx),
            outcome,
            program_address(creator_seeds(old(ctx).accounts.creator.key), old(ctx).program_id@),
        ),
{
    let derived = find_creator_address(&ctx.program_id, &ctx.accounts.creator.key);
    initialize_creator_at(ctx, derived)
}

/// Bytes that a creator account takes once an item with this title and
/// locator is added to it.
pub open spec fn encoded_len_with_item(
    account: CreatorAccount,
    title: Seq<char>,
    encrypted_cid: Seq<u8>,
) -> nat {
    account.encoded_len() + CONTENT_ITEM_FIXED_SPACE as nat + text_len(title)
        + encrypted_cid.len()
}

/// Bytes of storage that `add_content` plans for the account: room for one
/// item more.
pub open spec fn add_content_space(account: CreatorAccount) -> nat {
    creator_space(account.content@.len() + 1, text_len(account.profile_cid@))
}

/// Why `add_content` fails, if it does, where `derived` is the address
/// derived for the caller's creator account.
pub open spec fn add_content_error(
    ctx: Context<AddContent>,
    title: Seq<char>,
    encrypted_cid: Seq<u8>,
    derived: Option<(Seq<u8>, u8)>,
) -> Option<CustomError> {
    let account = ctx.accounts.creator_account;
    if account.data.creator_wallet != ctx.accounts.creator.key {
        Some(CustomError::Unauthorized)
    } else if !at_address(account.key, derived) {
        Some(CustomError::AddressMismatch)
    } else if add_content_space(account.data) > usize::MAX || encoded_len_with_item(
        account.data,
        title,
        encrypted_cid,
    ) > add_content_space(account.data) {
        Some(CustomError::StorageAllocation)
    } else {
        None
    }
}

/// What `add_content` returns and leaves behind.
pub open spec fn add_content_post(
    pre: Context<AddContent>,
    post: Context<AddContent>,
    outcome: Result<(), CustomError>,
    title: String,
    price: u64,
    encrypted_cid: Vec<u8>,
    derived: Option<(Seq<u8>, u8)>,
) -> bool {
    match add_content_error(pre, title@, encrypted_cid@, derived) {
        Some(error) => outcome == Err::<(), CustomError>(error) && post == pre,
        None => {
            let before = pre.accounts.creator_account;
            let after = post.accounts.creator_account;
            &&& outcome is Ok
            &&& post.program_id == pre.program_id
            &&& post.accounts.creator == pre.accounts.creator
            &&& post.accounts.payer == pre.accounts.payer
            &&& after.key == before.key
            &&& after.space == add_content_space(before.data)
            &&& after.data.creator_wallet == before.data.creator_wallet
            &&& after.data.last_content_id == before.data.last_content_id + 1
            &&& after.data.content@ == before.data.content@.push(
                ContentItem {
                    id: (before.data.last_content_id + 1) as u64,
                    title,
                    price,
                    encrypted_cid,
                },
            )
            &&& after.data.profile_cid == before.data.profile_cid
        },
    }
}

/// Appends an item to the caller's content list, given the address
/// `derived` for the caller's creator account.
///
/// The item gets the id that follows the counter, and the counter moves to
/// it. The storage is resized to the base, the planned size of an item for
/// each item, and the profile; where the account would not fit in that, or
/// the size cannot be addressed, nothing changes. Only the owner may add.
pub fn add_content_at(
    ctx: &mut Context<AddContent>,
    title: String,
    price: u64,
    encrypted_cid: Vec<u8>,
    derived: Option<(Pubkey, u8)>,
) -> (outcome: Result<(), CustomError>)
    requires
        old(ctx).accounts.creator_account.data.last_content_id < u64::MAX,
    ensures
        add_content_post(
            *old(ctx),
            *final(ctx),
            outcome,
            title,
            price,
            encrypted_cid,
            address_bytes(derived),
        ),
        outcome is Ok ==> final(ctx).accounts.creator_account.data.encoded_len()
            <= final(ctx).accounts.creator_account.space,
        old(ctx).accounts.creator_account.data.wf()
            ==> final(ctx).accounts.creator_account.data.wf(),
        old(ctx).accounts.creator_account.data.numbered_from_one()
            ==> final(ctx).accounts.creator_account.data.numbered_from_one(),
{
    if ctx.accounts.creator_account.data.creator_wallet != ctx.accounts.creator.key {
        return Err(CustomError::Unauthorized);
    }
    if !is_at(&ctx.accounts.creator_account.key, &derived) {
        return Err(CustomError::AddressMismatch);
    }
    let profile_len = byte_len(ctx.accounts.creator_account.data.profile_cid.as_str());
    let title_len = byte_len(title.as_str());
    let locator_len = encrypted_cid.len();
    let items = match ctx.accounts.creator_account.data.content.len().checked_add(1) {
        Some(items) => items,
        None => {
            proof {
                let count = ctx.accounts.creator_account.data.content@.len() + 1;
                assert(count * 252 >= count) by (nonlinear_arith)
                    requires
                        count >= 0,
                ;
            }
            return Err(CustomError::StorageAllocation);
        },
    };
    let space = match plan_creator_space(items, profile_len) {
        Some(space) => space,
        None => { return Err(CustomError::StorageAllocation); },
    };
    let budget = space - CREATOR_ACCOUNT_BASE_SPACE - LENGTH_PREFIX_SPACE - profile_len;
    let used = match measure_content(&ctx.accounts.creator_account.data.content, budget) {
        Some(used) => used,
        None => { return Err(CustomError::StorageAllocation); },
    };
    let room = budget - used;
    if room < CONTENT_ITEM_FIXED_SPACE || room - CONTENT_ITEM_FIXED_SPACE < title_len || room
        - CONTENT_ITEM_FIXED_SPACE - title_len < locator_len {
        return Err(CustomError::StorageAllocation);
    }
    let new_id = ctx.accounts.creator_account.data.last_content_id + 1;
    let new_content = ContentItem { id: new_id, title, price, encrypted_cid };
    proof {
        let grown = ctx.accounts.creator_account.data.content@.push(new_content);
        assert(grown.drop_last() =~= ctx.accounts.creator_account.data.content@);
        assert(grown.last() == new_content);
    }
    ctx.accounts.creator_account.data.last_content_id = new_id;
    ctx.accounts.creator_account.data.content.push(new_content);
    ctx.accounts.creator_account.space = space;
    Ok(())
}

/// Appends an item to the content list of the caller's creator account,
/// which stands at the address derived from the tag `"creator"` and the
/// caller's identity. A caller who is not the owner is refused and nothing
/// changes.
pub fn add_content(
    ctx: &mut Context<AddContent>,
    title: String,
    price: u64,
    encrypted_cid: Vec<u8>,
) -> (outcome: Result<(), CustomError>)
    requires
        old(ctx).accounts.creator_account.data.last_content_id < u64::MAX,
    ensures
        add_content_post(
            *old(ctx),
            *final(ctx),
            outcome,
            title,
            price,
            encrypted_cid,
            program_address(creator_seeds(old(ctx).accounts.creator.key), old(ctx).program_id@),
        ),
        old(ctx).accounts.creator_account.data.creator_wallet != old(ctx).accounts.creator.key
            ==> outcome == Err::<(), CustomError>(CustomError::Unauthorized) && *final(ctx)
            == *old(ctx),
        outcome is Ok ==> final(ctx).accounts.creator_account.data.encoded_len()
            <= final(ctx).accounts.creator_account.space,
        old(ctx).accounts.creator_account.data.wf()
            ==> final(ctx).accounts.creator_account.data.wf(),
        old(ctx).accounts.creator_account.data.numbered_from_one()
            ==> final(ctx).accounts.creator_account.data.numbered_from_one(),
{
    let derived = find_creator_address(&ctx.program_id, &ctx.accounts.creator.key);
    add_content_at(ctx, title, price, encrypted_cid, derived)
}

/// Bytes of storage that `update_profile` plans for the account with the
/// profile locator `profile_cid`.
pub open spec fn update_profile_space(account: CreatorAccount, profile_cid: Seq<char>) -> nat {
    creator_space(account.content@.len(), text_len(profile_cid))
}

/// Bytes that a creator account takes with the profile locator
/// `profile_cid` in place of its own.
pub open spec fn encoded_len_with_profile(account: CreatorAccount, profile_cid: Seq<char>) -> nat {
    CREATOR_ACCOUNT_BASE_SPACE as nat + content_encoded_len(account.content@)
        + LENGTH_PREFIX_SPACE as nat + text_len(profile_cid)
}

/// Why `update_profile` fails, if it does, where `derived` is the address
/// derived for the caller's creator account.
pub open spec fn update_profile_error(
    ctx: Context<UpdateProfile>,
    profile_cid: Seq<char>,
    derived: Option<(Seq<u8>, u8)>,
) -> Option<CustomError> {
    let account = ctx.accounts.creator_account;
    if account.data.creator_wallet != ctx.accounts.creator.key {
        Some(CustomError::Unauthorized)
    } else if !at_address(account.key, derived) {
        Some(CustomError::AddressMismatch)
    } else if update_profile_space(account.data, profile_cid) > usize::MAX
        || encoded_len_with_profile(account.data, profile_cid) > update_profile_space(
        account.data,
        profile_cid,
    ) {
        Some(CustomError::StorageAllocation)
    } else {
        None
    }
}

/// What `update_profile` returns and leaves behind.
pub open spec fn update_profile_post(
    pre: Context<UpdateProfile>,
    post: Context<UpdateProfile>,
    outcome: Result<(), CustomError>,
    profile_cid: String,
    derived: Option<(Seq<u8>, u8)>,
) -> bool {
    match update_profile_error(pre, profile_cid@, derived) {
        Some(error) => outcome == Err::<(), CustomError>(error) && post == pre,
        None => {
            let before = pre.accounts.creator_account;
            &&& outcome is Ok
            &&& post == Context {
                program_id: pre.program_id,
                accounts: UpdateProfile {
                    creator_account: Account {
                        key: before.key,
                        space: update_profile_space(before.data, profile_cid@) as usize,
                        data: CreatorAccount {
                            creator_wallet: before.data.creator_wallet,
                            last_content_id: before.data.last_content_id,
                            content: before.data.content,
                            profile_cid,
                        },
                    },
                    creator: pre.accounts.creator,
                },
            }
        },
    }
}

/// Replaces the profile locator of the caller's creator account, given the
/// address `derived` for that account. The storage is resized to the base,
/// the planned size of an item for each item, and the new locator; where
/// the account would not fit in that, nothing changes. Only the owner may
/// replace the profile.
pub fn update_profile_at(
    ctx: &mut Context<UpdateProfile>,
    profile_cid: String,
    derived: Option<(Pubkey, u8)>,
) -> (outcome: Result<(), CustomError>)
    ensures
        update_profile_post(*old(ctx), *final(ctx), outcome, profile_cid, address_bytes(derived)),
        outcome is Ok ==> final(ctx).accounts.creator_account.data.encoded_len()
            <= final(ctx).accounts.creator_account.space,
        old(ctx).accounts.creator_account.data.wf()
            ==> final(ctx).accounts.creator_account.data.wf(),
        old(ctx).accounts.creator_account.data.numbered_from_one()
            ==> final(ctx).accounts.creator_account.data.numbered_from_one(),
{
    if ctx.accounts.creator_account.data.creator_wallet != ctx.accounts.creator.key {
        return Err(CustomError::Unauthorized);
    }
    if !is_at(&ctx.accounts.creator_account.key, &derived) {
        return Err(CustomError::AddressMismatch);
    }
    let profile_len = byte_len(profile_cid.as_str());
    let items = ctx.accounts.creator_account.data.content.len();
    let space = match plan_creator_space(items, profile_len) {
        Some(space) => space,
        None => { return Err(CustomError::StorageAllocation); },
    };
    let budget = space - CREATOR_ACCOUNT_BASE_SPACE - LENGTH_PREFIX_SPACE - profile_len;
    if measure_content(&ctx.accounts.creator_account.data.content, budget).is_none() {
        return Err(CustomError::StorageAllocation);
    }
    ctx.accounts.creator_account.data.profile_cid = profile_cid;
    ctx.accounts.creator_account.space = space;
    Ok(())
}

/// Replaces the profile locator of the caller's creator account, which
/// stands at the address derived from the tag `"creator"` and the caller's
/// identity. A caller who is not the owner is refused and nothing changes.
pub fn update_profile(ctx: &mut Context<UpdateProfile>, profile_cid: String) -> (outcome: Result<
    (),
    CustomError,
>)
    ensures
        update_profile_post(
            *old(ctx),
            *final(ctx),
            outcome,
            profile_cid,
            program_address(creator_seeds(old(ctx).accounts.creator.key), old(ctx).program_id@),
        ),
        old(ctx).accounts.creator_account.data.creator_wallet != old(ctx).accounts.creator.key
            ==> outcome == Err::<(), CustomError>(CustomError::Unauthorized) && *final(ctx)
            == *old(ctx),
        outcome is Ok ==> final(ctx).accounts.creator_account.data.encoded_len()
            <= final(ctx).accounts.creator_account.space,
        old(ctx).accounts.creator_account.data.wf()
            ==> final(ctx).accounts.creator_account.data.wf(),
        old(ctx).accounts.creator_account.data.numbered_from_one()
            ==> final(ctx).accounts.creator_account.data.numbered_from_one(),
{
    let derived = find_creator_address(&ctx.program_id, &ctx.accounts.creator.key);
    update_profile_at(ctx, profile_cid, derived)
}

impl CreatorAccount {
    /// Where the items are numbered 1, 2, 3, ... and the counter stands at
    /// their number, the ids grow along the list, start above 0 and never
    /// pass the counter.
    pub proof fn lemma_numbered_is_wf(self)
        requires
            self.numbered_from_one(),
        ensures
            self.wf(),
    {
    }
}

/// A creator account that was just created is empty, fills its storage
/// exactly, and numbers its items from one: the first item added to it
/// gets the id 1.
pub proof fn lemma_fresh_creator_account(
    pre: Context<InitializeCreator>,
    post: Context<InitializeCreator>,
    outcome: Result<(), CustomError>,
    derived: Option<(Seq<u8>, u8)>,
)
    requires
        initialize_creator_post(pre, post, outcome, derived),
        outcome is Ok,
    ensures
        post.accounts.creator_account is Occupied,
        post.accounts.creator_account->account.data.numbered_from_one(),
        post.accounts.creator_account->account.data.wf(),
        post.accounts.creator_account->account.data.encoded_len()
            == post.accounts.creator_account->account.space,
{
    let data = post.accounts.creator_account->account.data;
    assert(encode_utf8(data.profile_cid@) =~= Seq::<u8>::empty());
}

/// Ids are given in order. On an account whose items are numbered from
/// one, `add_content` gives the new item the number of items there are
/// then, so that along the list the ids are 1, 2, 3, ... whatever else
/// happens between two additions to other accounts.
pub proof fn lemma_ids_follow_one_another(
    pre: Context<AddContent>,
    post: Context<AddContent>,
    outcome: Result<(), CustomError>,
    title: String,
    price: u64,
    encrypted_cid: Vec<u8>,
    derived: Option<(Seq<u8>, u8)>,
)
    requires
        pre.accounts.creator_account.data.numbered_from_one(),
        add_content_post(pre, post, outcome, title, price, encrypted_cid, derived),
        outcome is Ok,
    ensures
        post.accounts.creator_account.data.numbered_from_one(),
        post.accounts.creator_account.data.content@.len()
            == pre.accounts.creator_account.data.content@.len() + 1,
        post.accounts.creator_account.data.content@.last().id
            == post.accounts.creator_account.data.content@.len(),
        forall|i: int, j: int|
            0 <= i < j < post.accounts.creator_account.data.content@.len()
                ==> post.accounts.creator_account.data.content@[i].id
                < post.accounts.creator_account.data.content@[j].id,
{
    post.accounts.creator_account.data.lemma_numbered_is_wf();
}

} // verus!
