//! The payment processor: a buyer pays the price of a content item, the
//! platform's fee goes to the administrator, the rest to the creator, and a
//! receipt is created that can exist only once for the buyer and the item.

use crate::account::Account;
use crate::account::Clock;
use crate::account::Context;
use crate::account::Slot;
use crate::account::Wallet;
use crate::address::access_seeds;
use crate::address::address_bytes;
use crate::address::at_address;
use crate::address::config_seeds;
use crate::address::find_access_address;
use crate::address::find_config_address;
use crate::address::is_at;
use crate::address::program_address;
use crate::config::ProtocolConfig;
use crate::creator::CreatorAccount;
use crate::error::CustomError;
use crate::fees::split_payment;
use crate::fees::PaymentSplit;
use crate::fees::MAX_PLATFORM_FEE_BPS;
use crate::pubkey::Pubkey;
use vstd::prelude::*;

verus! {

/// Bytes of storage of a receipt: an 8-byte tag, the buyer's identity, the
/// content id, the creator's identity and the time of the payment.
pub const PAID_ACCESS_SPACE: usize = 8 + 32 + 8 + 32 + 8;

/// The receipt of a payment. That it exists is the proof of access.
#[derive(Clone, Copy, Debug, PartialEq, Eq)]
pub struct PaidAccessAccount {
    /// Who paid.
    pub buyer: Pubkey,
    /// The id of the content paid for.
    pub content_id: u64,
    /// The creator who was paid.
    pub creator: Pubkey,
    /// The ledger's time when the payment was made.
    pub created_at: i64,
}

/// The accounts of `process_payment`.
#[derive(Clone, Debug, PartialEq, Eq)]
pub struct ProcessPayment {
    /// Where the receipt is created.
    pub paid_access_account: Slot<PaidAccessAccount>,
    /// The protocol's configuration.
    pub protocol_config: Account<ProtocolConfig>,
    /// The account of the creator whose content is bought.
    pub creator_account: Account<CreatorAccount>,
    /// The wallet that receives the creator's share.
    pub creator_wallet: Wallet,
    /// The wallet that receives the platform's fee.
    pub admin_wallet: Wallet,
    /// The wallet that pays.
    pub buyer: Wallet,
    /// The ledger's clock.
    pub clock: Clock,
}

impl ProcessPayment {
    /// The accounts are a state that a ledger can be in: the fee rate is in
    /// range, one wallet passed twice shows one balance, and the balances of
    /// the buyer and of another wallet fit together in 64 bits.
    pub open spec fn wf(self) -> bool {
        &&& self.protocol_config.data.wf()
        &&& self.creator_wallet.key == self.buyer.key ==> self.creator_wallet.lamports
            == self.buyer.lamports
        &&& self.admin_wallet.key == self.buyer.key ==> self.admin_wallet.lamports
            == self.buyer.lamports
        &&& self.admin_wallet.key == self.creator_wallet.key ==> self.admin_wallet.lamports
            == self.creator_wallet.lamports
        &&& self.creator_wallet.key != self.buyer.key ==> self.creator_wallet.lamports
            + self.buyer.lamports <= u64::MAX
        &&& self.admin_wallet.key != self.buyer.key ==> self.admin_wallet.lamports
            + self.buyer.lamports <= u64::MAX
    }

    /// Whether the buyer can fund the two transfers of `split` one after the
    /// other: first the fee to the administrator, then the share to the
    /// creator. A fee that the buyer pays to itself is back in its wallet
    /// when the share is taken.
    pub open spec fn covers(self, split: PaymentSplit) -> bool {
        &&& self.buyer.lamports >= split.fee_amount
        &&& self.buyer_after_fee(split) >= split.creator_amount
    }

    /// The buyer's balance once the fee is transferred.
    pub open spec fn buyer_after_fee(self, split: PaymentSplit) -> int {
        if self.admin_wallet.key == self.buyer.key {
            self.buyer.lamports as int
        } else {
            self.buyer.lamports - split.fee_amount
        }
    }

    /// The balance of `wallet` once both transfers of `split` are made: the
    /// buyer's wallet gives the price, the administrator's takes the fee and
    /// the creator's the share, whichever of them `wallet` is.
    pub open spec fn balance_after(self, wallet: Wallet, split: PaymentSplit) -> int {
        wallet.lamports - (if wallet.key == self.buyer.key {
            split.fee_amount + split.creator_amount
        } else {
            0
        }) + (if wallet.key == self.admin_wallet.key {
            split.fee_amount as int
        } else {
            0
        }) + (if wallet.key == self.creator_wallet.key {
            split.creator_amount as int
        } else {
            0
        })
    }

    /// `wallet` with its balance after the payment.
    pub open spec fn settled(self, wallet: Wallet, split: PaymentSplit) -> Wallet {
        Wallet { key: wallet.key, lamports: self.balance_after(wallet, split) as u64 }
    }

    /// The accounts after the payment `split` for `content_id` went through.
    pub open spec fn paid(self, content_id: u64, split: PaymentSplit) -> ProcessPayment {
        ProcessPayment {
            paid_access_account: self.paid_access_account.filled(
                PAID_ACCESS_SPACE,
                self.receipt(content_id),
            ),
            protocol_config: self.protocol_config,
            creator_account: self.creator_account,
            creator_wallet: self.settled(self.creator_wallet, split),
            admin_wallet: self.settled(self.admin_wallet, split),
            buyer: self.settled(self.buyer, split),
            clock: self.clock,
        }
    }

    /// The receipt of a payment for `content_id` made on these accounts:
    /// the buyer, the content, the creator that the creator's account
    /// records, and the time on the ledger's clock.
    pub open spec fn receipt(self, content_id: u64) -> PaidAccessAccount {
        PaidAccessAccount {
            buyer: self.buyer.key,
            content_id,
            creator: self.creator_account.data.creator_wallet,
            created_at: self.clock.unix_timestamp,
        }
    }

    /// The split of the price of the item `content_id` at the configured
    /// fee rate, where the creator's list holds such an item.
    pub open spec fn split_for(self, content_id: u64) -> Option<PaymentSplit> {
        match self.creator_account.data.content_with_id(content_id) {
            Some(item) => Some(
                PaymentSplit::of(item.price, self.protocol_config.data.fee_percentage),
            ),
            None => None,
        }
    }

    /// Decides whether the accounts are a state that a ledger can be in.
    pub fn is_valid(&self) -> (valid: bool)
        ensures
            valid == self.wf(),
    {
        let buyer = &self.buyer;
        let creator = &self.creator_wallet;
        let admin = &self.admin_wallet;
        if self.protocol_config.data.fee_percentage > MAX_PLATFORM_FEE_BPS {
            return false;
        }
        if creator.key == buyer.key {
            if creator.lamports != buyer.lamports {
                return false;
            }
        } else if creator.lamports.checked_add(buyer.lamports).is_none() {
            return false;
        }
        if admin.key == buyer.key {
            if admin.lamports != buyer.lamports {
                return false;
            }
        } else if admin.lamports.checked_add(buyer.lamports).is_none() {
            return false;
        }
        !(admin.key == creator.key && admin.lamports != creator.lamports)
    }

    /// Computes the balance of `wallet` after the payment `split`.
    fn settle(&self, wallet: &Wallet, split: &PaymentSplit) -> (after: Wallet)
        requires
            self.wf(),
            self.covers(*split),
            *wallet == self.buyer || *wallet == self.creator_wallet || *wallet
                == self.admin_wallet,
            split.fee_amount + split.creator_amount == split.total_price,
        ensures
            after == self.settled(*wallet, *split),
            0 <= self.balance_after(*wallet, *split) <= u64::MAX,
    {
        let mut balance: u128 = wallet.lamports as u128;
        if wallet.key == self.admin_wallet.key {
            balance = balance + split.fee_amount as u128;
        }
        if wallet.key == self.creator_wallet.key {
            balance = balance + split.creator_amount as u128;
        }
        if wallet.key == self.buyer.key {
            balance = balance - split.total_price as u128;
        }
        Wallet { key: wallet.key, lamports: balance as u64 }
    }
}

/// Why `process_payment` fails, if it does, where `config_address` and
/// `receipt_address` are the addresses derived for the configuration record
/// and for the receipt.
pub open spec fn process_payment_error(
    ctx: Context<ProcessPayment>,
    content_id: u64,
    config_address: Option<(Seq<u8>, u8)>,
    receipt_address: Option<(Seq<u8>, u8)>,
) -> Option<CustomError> {
    let accounts = ctx.accounts;
    match accounts.split_for(content_id) {
        None => Some(CustomError::ContentNotFound),
        Some(split) => {
            if accounts.admin_wallet.key != accounts.protocol_config.data.admin_wallet {
                Some(CustomError::AddressMismatch)
            } else if accounts.creator_wallet.key != accounts.creator_account.data.creator_wallet {
                Some(CustomError::AddressMismatch)
            } else if !at_address(accounts.protocol_config.key, config_address) {
                Some(CustomError::AddressMismatch)
            } else if !at_address(accounts.paid_access_account.address(), receipt_address) {
                Some(CustomError::AddressMismatch)
            } else if accounts.paid_access_account is Occupied {
                Some(CustomError::AlreadyExists)
            } else if !accounts.covers(split) {
                Some(CustomError::InsufficientFunds)
            } else {
                None
            }
        },
    }
}

/// What `process_payment` returns and leaves behind.
pub open spec fn process_payment_post(
    pre: Context<ProcessPayment>,
    post: Context<ProcessPayment>,
    outcome: Result<PaymentSplit, CustomError>,
    content_id: u64,
    config_address: Option<(Seq<u8>, u8)>,
    receipt_address: Option<(Seq<u8>, u8)>,
) -> bool {
    match process_payment_error(pre, content_id, config_address, receipt_address) {
        Some(error) => outcome == Err::<PaymentSplit, CustomError>(error) && post == pre,
        None => {
            let split = pre.accounts.split_for(content_id).unwrap();
            &&& outcome == Ok::<PaymentSplit, CustomError>(split)
            &&& post.program_id == pre.program_id
            &&& post.accounts == pre.accounts.paid(content_id, split)
        },
    }
}

/// Pays for the content `content_id`, given the addresses derived for the
/// configuration record and for the receipt.
///
/// The item is the first of the creator's list with that id. Its price is
/// split at the configured fee rate; the fee, if it is not zero, goes from
/// the buyer to the administrator's wallet and the rest from the buyer to
/// the creator's wallet, and the receipt of the buyer for the item is
/// created with the creator's identity and the time of the clock. The
/// wallets must be those that the configuration and the creator's account
/// name. Either all of this happens or nothing: a receipt that exists
/// already, or a balance that does not cover a transfer, leaves every
/// account as it was.
pub fn process_payment_at(
    ctx: &mut Context<ProcessPayment>,
    content_id: u64,
    config_address: Option<(Pubkey, u8)>,
    receipt_address: Option<(Pubkey, u8)>,
) -> (outcome: Result<PaymentSplit, CustomError>)
    requires
        old(ctx).accounts.wf(),
    ensures
        process_payment_post(
            *old(ctx),
            *final(ctx),
            outcome,
            content_id,
            address_bytes(config_address),
            address_bytes(receipt_address),
        ),
        final(ctx).accounts.wf(),
{
    let index = match ctx.accounts.creator_account.data.find_content(content_id) {
        Some(index) => index,
        None => { return Err(CustomError::ContentNotFound); },
    };
    proof {
        ctx.accounts.creator_account.data.lemma_first_with_id(content_id, index as int);
    }
    let total_price = ctx.accounts.creator_account.data.content[index].price;
    let split = split_payment(total_price, ctx.accounts.protocol_config.data.fee_percentage);
    if ctx.accounts.admin_wallet.key != ctx.accounts.protocol_config.data.admin_wallet {
        return Err(CustomError::AddressMismatch);
    }
    if ctx.accounts.creator_wallet.key != ctx.accounts.creator_account.data.creator_wallet {
        return Err(CustomError::AddressMismatch);
    }
    if !is_at(&ctx.accounts.protocol_config.key, &config_address) {
        return Err(CustomError::AddressMismatch);
    }
    if !is_at(&ctx.accounts.paid_access_account.key(), &receipt_address) {
        return Err(CustomError::AddressMismatch);
    }
    if !ctx.accounts.paid_access_account.is_vacant() {
        return Err(CustomError::AlreadyExists);
    }
    let buyer_balance = ctx.accounts.buyer.lamports;
    if buyer_balance < split.fee_amount {
        return Err(CustomError::InsufficientFunds);
    }
    let after_fee = if ctx.accounts.admin_wallet.key == ctx.accounts.buyer.key {
        buyer_balance
    } else {
        buyer_balance - split.fee_amount
    };
    if after_fee < split.creator_amount {
        return Err(CustomError::InsufficientFunds);
    }
    let buyer = ctx.accounts.settle(&ctx.accounts.buyer, &split);
    let creator_wallet = ctx.accounts.settle(&ctx.accounts.creator_wallet, &split);
    let admin_wallet = ctx.accounts.settle(&ctx.accounts.admin_wallet, &split);
    let receipt = PaidAccessAccount {
        buyer: ctx.accounts.buyer.key,
        content_id,
        creator: ctx.accounts.creator_account.data.creator_wallet,
        created_at: ctx.accounts.clock.unix_timestamp,
    };
    let _created = ctx.accounts.paid_access_account.create(PAID_ACCESS_SPACE, receipt);
    ctx.accounts.buyer = buyer;
    ctx.accounts.creator_wallet = creator_wallet;
    ctx.accounts.admin_wallet = admin_wallet;
    Ok(split)
}

/// Pays for the content `content_id`: the receipt is created at the address
/// derived from the tag `"access"`, the buyer and the content id, and the
/// configuration is the record at the address derived from `"config"`.
pub fn process_payment(ctx: &mut Context<ProcessPayment>, content_id: u64) -> (outcome: Result<
    PaymentSplit,
    CustomError,
>)
    requires
        old(ctx).accounts.wf(),
    ensures
        process_payment_post(
            *old(ctx),
            *final(ctx),
            outcome,
            content_id,
            program_address(config_seeds(), old(ctx).program_id@),
            program_address(
                access_seeds(old(ctx).accounts.buyer.key, content_id),
                old(ctx).program_id@,
            ),
        ),
        final(ctx).accounts.wf(),
{
    let config_address = find_config_address(&ctx.program_id);
    let receipt_address = find_access_address(&ctx.program_id, &ctx.accounts.buyer.key, content_id);
    process_payment_at(ctx, content_id, config_address, receipt_address)
}

/// A payment is made once. After `process_payment` went through for a
/// buyer and a content id, another call for the same buyer and content id
/// on the accounts that the first one left fails with `AlreadyExists` and
/// changes nothing: the balances stay those after the one payment.
pub proof fn lemma_second_payment_fails(
    ctx: Context<ProcessPayment>,
    content_id: u64,
    config_address: Option<(Seq<u8>, u8)>,
    receipt_address: Option<(Seq<u8>, u8)>,
    first: Context<ProcessPayment>,
    first_outcome: Result<PaymentSplit, CustomError>,
    second: Context<ProcessPayment>,
    second_outcome: Result<PaymentSplit, CustomError>,
)
    requires
        process_payment_post(
            ctx,
            first,
            first_outcome,
            content_id,
            config_address,
            receipt_address,
        ),
        first_outcome is Ok,
        process_payment_post(
            first,
            second,
            second_outcome,
            content_id,
            config_address,
            receipt_address,
        ),
    ensures
        second_outcome == Err::<PaymentSplit, CustomError>(CustomError::AlreadyExists),
        second == first,
        second.accounts.buyer.lamports == ctx.accounts.balance_after(
            ctx.accounts.buyer,
            first_outcome->Ok_0,
        ) as u64,
{
    assert(process_payment_error(ctx, content_id, config_address, receipt_address) is None);
    assert(first.accounts.split_for(content_id) == ctx.accounts.split_for(content_id));
    assert(first.accounts.paid_access_account is Occupied);
}

/// A payment moves value and makes none: where buyer, creator and
/// administrator are three different wallets, the buyer's balance falls by
/// the price, the administrator's rises by the fee and the creator's by the
/// rest.
pub proof fn lemma_payment_between_three(accounts: ProcessPayment, split: PaymentSplit)
    requires
        accounts.buyer.key != accounts.admin_wallet.key,
        accounts.buyer.key != accounts.creator_wallet.key,
        accounts.admin_wallet.key != accounts.creator_wallet.key,
    ensures
        accounts.balance_after(accounts.buyer, split) == accounts.buyer.lamports
            - split.fee_amount - split.creator_amount,
        accounts.balance_after(accounts.admin_wallet, split) == accounts.admin_wallet.lamports
            + split.fee_amount,
        accounts.balance_after(accounts.creator_wallet, split)
            == accounts.creator_wallet.lamports + split.creator_amount,
        accounts.covers(split) <==> accounts.buyer.lamports >= split.fee_amount
            + split.creator_amount,
{
}

} // verus!
