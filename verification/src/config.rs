//! The protocol's one configuration record: who administers it and what fee
//! it takes.

use crate::account::Account;
use crate::account::Context;
use crate::account::Slot;
use crate::account::Signer;
use crate::address::address_bytes;
use crate::address::at_address;
use crate::address::config_seeds;
use crate::address::find_config_address;
use crate::address::is_at;
use crate::address::program_address;
use crate::error::CustomError;
use crate::fees::MAX_PLATFORM_FEE_BPS;
use crate::pubkey::Pubkey;
use vstd::prelude::*;

verus! {

/// Bytes of storage of the configuration record: an 8-byte tag, the
/// administrator's identity and the fee rate.
pub const PROTOCOL_CONFIG_SPACE: usize = 48;

/// The administrator and the fee rate of the protocol.
#[derive(Clone, Copy, Debug, PartialEq, Eq)]
pub struct ProtocolConfig {
    /// The identity that may change the configuration and receives the fee.
    pub admin_wallet: Pubkey,
    /// The fee in basis points of a price.
    pub fee_percentage: u64,
}

impl ProtocolConfig {
    /// The fee rate is at most the whole price.
    pub open spec fn wf(self) -> bool {
        self.fee_percentage <= MAX_PLATFORM_FEE_BPS
    }

    /// The configuration after an update that supplies some of its fields.
    pub open spec fn updated(
        self,
        new_admin_wallet: Option<Pubkey>,
        new_fee_percentage: Option<u64>,
    ) -> ProtocolConfig {
        ProtocolConfig {
            admin_wallet: match new_admin_wallet {
                Some(admin_wallet) => admin_wallet,
                None => self.admin_wallet,
            },
            fee_percentage: match new_fee_percentage {
                Some(fee_percentage) => fee_percentage,
                None => self.fee_percentage,
            },
        }
    }
}

/// The accounts of `initialize_config`.
#[derive(Clone, Debug, PartialEq, Eq)]
pub struct InitializeConfig {
    /// Where the configuration record is created.
    pub protocol_config: Slot<ProtocolConfig>,
    /// The caller, who becomes the administrator.
    pub admin: Signer,
}

/// The accounts of `update_config`.
#[derive(Clone, Debug, PartialEq, Eq)]
pub struct UpdateConfig {
    /// The configuration record.
    pub protocol_config: Account<ProtocolConfig>,
    /// The caller.
    pub admin: Signer,
}

/// Why `initialize_config` fails, if it does, where `derived` is the address
/// derived for the configuration record.
pub open spec fn initialize_config_error(
    ctx: Context<InitializeConfig>,
    initial_fee_percentage: u64,
    derived: Option<(Seq<u8>, u8)>,
) -> Option<CustomError> {
    if initial_fee_percentage > MAX_PLATFORM_FEE_BPS {
        Some(CustomError::InvalidFeePercentage)
    } else if !at_address(ctx.accounts.protocol_config.address(), derived) {
        Some(CustomError::AddressMismatch)
    } else if ctx.accounts.protocol_config is Occupied {
        Some(CustomError::AlreadyExists)
    } else {
        None
    }
}

/// The accounts after `initialize_config` succeeded.
pub open spec fn initialize_config_result(
    ctx: Context<InitializeConfig>,
    initial_fee_percentage: u64,
) -> Context<InitializeConfig> {
    Context {
        program_id: ctx.program_id,
        accounts: InitializeConfig {
            protocol_config: ctx.accounts.protocol_config.filled(
                PROTOCOL_CONFIG_SPACE,
                ProtocolConfig {
                    admin_wallet: ctx.accounts.admin.key,
                    fee_percentage: initial_fee_percentage,
                },
            ),
            admin: ctx.accounts.admin,
        },
    }
}

/// What `initialize_config` returns and leaves behind.
pub open spec fn initialize_config_post(
    pre: Context<InitializeConfig>,
    post: Context<InitializeConfig>,
    outcome: Result<(), CustomError>,
    initial_fee_percentage: u64,
    derived: Option<(Seq<u8>, u8)>,
) -> bool {
    match initialize_config_error(pre, initial_fee_percentage, derived) {
        Some(error) => outcome == Err::<(), CustomError>(error) && post == pre,
        None => outcome is Ok && post == initialize_config_result(pre, initial_fee_percentage),
    }
}

/// Creates the configuration record with the caller as administrator, given
/// the address `derived` for the record. A fee rate above 10000 is rejected;
/// so is an account at another address than the derived one, and a second
/// creation.
pub fn initialize_config_at(
    ctx: &mut Context<InitializeConfig>,
    initial_fee_percentage: u64,
    derived: Option<(Pubkey, u8)>,
) -> (outcome: Result<(), CustomError>)
    ensures
        initialize_config_post(
            *old(ctx),
            *final(ctx),
            outcome,
            initial_fee_percentage,
            address_bytes(derived),
        ),
        outcome is Ok ==> final(ctx).accounts.protocol_config->account.data.wf(),
{
    if initial_fee_percentage > MAX_PLATFORM_FEE_BPS {
        return Err(CustomError::InvalidFeePercentage);
    }
    if !is_at(&ctx.accounts.protocol_config.key(), &derived) {
        return Err(CustomError::AddressMismatch);
    }
    let config = ProtocolConfig {
        admin_wallet: ctx.accounts.admin.key,
        fee_percentage: initial_fee_percentage,
    };
    ctx.accounts.protocol_config.create(PROTOCOL_CONFIG_SPACE, config)
}

/// Creates the configuration record at the address derived from the tag
/// `"config"`, with the caller as administrator.
pub fn initialize_config(
    ctx: &mut Context<InitializeConfig>,
    initial_fee_percentage: u64,
) -> (outcome: Result<(), CustomError>)
    ensures
        initialize_config_post(
            *old(ctx),
            *final(ctx),
            outcome,
            initial_fee_percentage,
            program_address(config_seeds(), old(ctx).program_id@),
        ),
        initial_fee_percentage > MAX_PLATFORM_FEE_BPS ==> outcome == Err::<(), CustomError>(
            CustomError::InvalidFeePercentage,
        ),
{
    let derived = find_config_address(&ctx.program_id);
    initialize_config_at(ctx, initial_fee_percentage, derived)
}

/// Why `update_config` fails, if it does, where `derived` is the address
/// derived for the configuration record.
pub open spec fn update_config_error(
    ctx: Context<UpdateConfig>,
    new_fee_percentage: Option<u64>,
    derived: Option<(Seq<u8>, u8)>,
) -> Option<CustomError> {
    if ctx.accounts.protocol_config.data.admin_wallet != ctx.accounts.admin.key {
        Some(CustomError::Unauthorized)
    } else if !at_address(ctx.accounts.protocol_config.key, derived) {
        Some(CustomError::AddressMismatch)
    } else if new_fee_percentage matches Some(fee_percentage) && fee_percentage
        > MAX_PLATFORM_FEE_BPS {
        Some(CustomError::InvalidFeePercentage)
    } else {
        None
    }
}

/// The accounts after `update_config` succeeded.
pub open spec fn update_config_result(
    ctx: Context<UpdateConfig>,
    new_admin_wallet: Option<Pubkey>,
    new_fee_percentage: Option<u64>,
) -> Context<UpdateConfig> {
    Context {
        program_id: ctx.program_id,
        accounts: UpdateConfig {
            protocol_config: Account {
                key: ctx.accounts.protocol_config.key,
                space: ctx.accounts.protocol_config.space,
                data: ctx.accounts.protocol_config.data.updated(
                    new_admin_wallet,
                    new_fee_percentage,
                ),
            },
            admin: ctx.accounts.admin,
        },
    }
}

/// What `update_config` returns and leaves behind.
pub open spec fn update_config_post(
    pre: Context<UpdateConfig>,
    post: Context<UpdateConfig>,
    outcome: Result<(), CustomError>,
    new_admin_wallet: Option<Pubkey>,
    new_fee_percentage: Option<u64>,
    derived: Option<(Seq<u8>, u8)>,
) -> bool {
    match update_config_error(pre, new_fee_percentage, derived) {
        Some(error) => outcome == Err::<(), CustomError>(error) && post == pre,
        None => outcome is Ok && post == update_config_result(
            pre,
            new_admin_wallet,
            new_fee_percentage,
        ),
    }
}

/// Replaces the fields of the configuration that the caller supplies, given
/// the address `derived` for the record. Only the administrator may do so;
/// a fee rate above 10000 is rejected.
pub fn update_config_at(
    ctx: &mut Context<UpdateConfig>,
    new_admin_wallet: Option<Pubkey>,
    new_fee_percentage: Option<u64>,
    derived: Option<(Pubkey, u8)>,
) -> (outcome: Result<(), CustomError>)
    ensures
        update_config_post(
            *old(ctx),
            *final(ctx),
            outcome,
            new_admin_wallet,
            new_fee_percentage,
            address_bytes(derived),
        ),
        old(ctx).accounts.protocol_config.data.wf()
            ==> final(ctx).accounts.protocol_config.data.wf(),
{
    if ctx.accounts.protocol_config.data.admin_wallet != ctx.accounts.admin.key {
        return Err(CustomError::Unauthorized);
    }
    if !is_at(&ctx.accounts.protocol_config.key, &derived) {
        return Err(CustomError::AddressMismatch);
    }
    if let Some(fee_percentage) = new_fee_percentage {
        if fee_percentage > MAX_PLATFORM_FEE_BPS {
            return Err(CustomError::InvalidFeePercentage);
        }
        ctx.accounts.protocol_config.data.fee_percentage = fee_percentage;
    }
    if let Some(admin_wallet) = new_admin_wallet {
        ctx.accounts.protocol_config.data.admin_wallet = admin_wallet;
    }
    Ok(())
}

/// Replaces the fields of the configuration that the caller supplies. A
/// caller other than the administrator is refused and nothing changes.
pub fn update_config(
    ctx: &mut Context<UpdateConfig>,
    new_admin_wallet: Option<Pubkey>,
    new_fee_percentage: Option<u64>,
) -> (outcome: Result<(), CustomError>)
    ensures
        update_config_post(
            *old(ctx),
            *final(ctx),
            outcome,
            new_admin_wallet,
            new_fee_percentage,
            program_address(config_seeds(), old(ctx).program_id@),
        ),
        old(ctx).accounts.protocol_config.data.admin_wallet != old(ctx).accounts.admin.key
            ==> outcome == Err::<(), CustomError>(CustomError::Unauthorized) && *final(ctx)
            == *old(ctx),
        old(ctx).accounts.protocol_config.data.wf()
            ==> final(ctx).accounts.protocol_config.data.wf(),
{
    let derived = find_config_address(&ctx.program_id);
    update_config_at(ctx, new_admin_wallet, new_fee_percentage, derived)
}

} // verus!
