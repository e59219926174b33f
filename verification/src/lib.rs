//! Content-monetization ledger protocol: deterministic account addresses and
//! the state transitions of configuration, username registry, creator
//! registry and payment processing, each with a verified contract.

pub mod account;
pub mod address;
pub mod config;
pub mod creator;
pub mod error;
pub mod fees;
pub mod payment;
pub mod pubkey;
pub mod text;
pub mod username;

pub use crate::account::Account;
pub use crate::account::Clock;
pub use crate::account::Context;
pub use crate::account::Signer;
pub use crate::account::Slot;
pub use crate::account::Wallet;
pub use crate::config::initialize_config;
pub use crate::config::update_config;
pub use crate::config::InitializeConfig;
pub use crate::config::ProtocolConfig;
pub use crate::config::UpdateConfig;
pub use crate::creator::add_content;
pub use crate::creator::initialize_creator;
pub use crate::creator::update_profile;
pub use crate::creator::AddContent;
pub use crate::creator::ContentItem;
pub use crate::creator::CreatorAccount;
pub use crate::creator::InitializeCreator;
pub use crate::creator::UpdateProfile;
pub use crate::error::CustomError;
pub use crate::fees::split_payment;
pub use crate::fees::PaymentSplit;
pub use crate::fees::MAX_PLATFORM_FEE_BPS;
pub use crate::payment::process_payment;
pub use crate::payment::PaidAccessAccount;
pub use crate::payment::ProcessPayment;
pub use crate::pubkey::Pubkey;
pub use crate::username::register_username;
pub use crate::username::RegisterUsername;
pub use crate::username::UsernameAccount;
