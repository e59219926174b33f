//! The accounts that the ledger hands to an operation: wallets with their
//! balances, records with their storage, and the places where a record may
//! be created once.

use crate::error::CustomError;
use crate::pubkey::Pubkey;
use vstd::prelude::*;

verus! {

/// A caller whose identity the ledger has authenticated.
#[derive(Clone, Copy, Debug, PartialEq, Eq)]
pub struct Signer {
    /// The caller's identity.
    pub key: Pubkey,
}

/// A wallet as the ledger resolved it for one operation.
#[derive(Clone, Copy, Debug, PartialEq, Eq)]
pub struct Wallet {
    /// The wallet's identity.
    pub key: Pubkey,
    /// Its balance in the smallest currency unit.
    pub lamports: u64,
}

/// The ledger's clock at the time of an operation.
#[derive(Clone, Copy, Debug, PartialEq, Eq)]
pub struct Clock {
    /// Seconds since the Unix epoch.
    pub unix_timestamp: i64,
}

/// A record that exists on the ledger.
#[derive(Clone, Debug, PartialEq, Eq)]
pub struct Account<T> {
    /// The address the record lives at.
    pub key: Pubkey,
    /// The bytes of storage allocated to it.
    pub space: usize,
    /// What the record holds.
    pub data: T,
}

/// An address at which a record can be created exactly once.
#[derive(Clone, Debug, PartialEq, Eq)]
pub enum Slot<T> {
    /// No record exists at the address.
    Vacant { key: Pubkey },
    /// A record exists at the address.
    Occupied { account: Account<T> },
}

impl<T> Slot<T> {
    /// The address of the slot.
    pub open spec fn address(self) -> Pubkey {
        match self {
            Slot::Vacant { key } => key,
            Slot::Occupied { account } => account.key,
        }
    }

    /// The slot once a record of `space` bytes holding `data` stands in it.
    pub open spec fn filled(self, space: usize, data: T) -> Slot<T> {
        Slot::Occupied { account: Account { key: self.address(), space, data } }
    }

    /// The address of the slot.
    pub fn key(&self) -> (key: Pubkey)
        ensures
            key == self.address(),
    {
        match self {
            Slot::Vacant { key } => *key,
            Slot::Occupied { account } => account.key,
        }
    }

    /// Whether no record exists at the address.
    pub fn is_vacant(&self) -> (vacant: bool)
        ensures
            vacant == (*self is Vacant),
    {
        match self {
            Slot::Vacant { .. } => true,
            Slot::Occupied { .. } => false,
        }
    }

    /// Creates a record of `space` bytes holding `data` in the slot. A slot
    /// that holds a record already keeps it, and the creation fails.
    pub fn create(&mut self, space: usize, data: T) -> (created: Result<(), CustomError>)
        ensures
            *old(self) is Vacant ==> created is Ok && *final(self) == old(self).filled(space, data),
            *old(self) is Occupied ==> created == Err::<(), CustomError>(CustomError::AlreadyExists)
                && *final(self) == *old(self),
    {
        if self.is_vacant() {
            let key = self.key();
            *self = Slot::Occupied { account: Account { key, space, data } };
            Ok(())
        } else {
            Err(CustomError::AlreadyExists)
        }
    }
}

/// The program an operation runs under, and the accounts it was given.
#[derive(Clone, Debug, PartialEq, Eq)]
pub struct Context<T> {
    /// The identity of the program, under which addresses are derived.
    pub program_id: Pubkey,
    /// The accounts of the operation.
    pub accounts: T,
}

} // verus!
