//! The platform fee: how a price is divided between the administrator and
//! the creator.

use vstd::prelude::*;

verus! {

/// The highest fee rate, in basis points: the whole price.
pub const MAX_PLATFORM_FEE_BPS: u64 = 10000;

/// Basis points in a whole.
pub const BPS_DENOMINATOR: u64 = 10000;

/// The platform's part of `total_price` at `fee_bps` basis points, rounded
/// down to a whole unit.
pub open spec fn fee_of(total_price: u64, fee_bps: u64) -> int {
    (total_price as int * fee_bps as int) / 10000
}

/// A price divided into the platform's fee and the creator's share.
#[derive(Clone, Copy, Debug, PartialEq, Eq, Structural)]
pub struct PaymentSplit {
    pub total_price: u64,
    pub fee_amount: u64,
    pub creator_amount: u64,
}

impl PaymentSplit {
    /// The split of `total_price` at `fee_bps` basis points.
    pub open spec fn of(total_price: u64, fee_bps: u64) -> PaymentSplit {
        PaymentSplit {
            total_price,
            fee_amount: fee_of(total_price, fee_bps) as u64,
            creator_amount: (total_price - fee_of(total_price, fee_bps)) as u64,
        }
    }
}

/// The fee never exceeds the price, and rounding down withholds less than
/// one whole unit from the platform: fewer than 10000 ten-thousandths.
pub proof fn lemma_fee_bounds(total_price: u64, fee_bps: u64)
    requires
        fee_bps <= MAX_PLATFORM_FEE_BPS,
    ensures
        0 <= fee_of(total_price, fee_bps) <= total_price,
        0 <= total_price * fee_bps - fee_of(total_price, fee_bps) * 10000 <= 9999,
        fee_bps == 0 ==> fee_of(total_price, fee_bps) == 0,
        fee_bps == MAX_PLATFORM_FEE_BPS ==> fee_of(total_price, fee_bps) == total_price,
{
    let p = total_price as int;
    let b = fee_bps as int;
    assert(0 <= p * b <= p * 10000) by (nonlinear_arith)
        requires
            0 <= p,
            0 <= b <= 10000,
    ;
    assert(b == 0 ==> p * b == 0) by (nonlinear_arith);
    assert(b == 10000 ==> p * b == p * 10000) by (nonlinear_arith);
}

/// Divides `total_price` into the platform's fee, `total_price * fee_bps /
/// 10000` rounded down, and the creator's share, which is the rest.
pub fn split_payment(total_price: u64, fee_bps: u64) -> (split: PaymentSplit)
    requires
        fee_bps <= MAX_PLATFORM_FEE_BPS,
    ensures
        split == PaymentSplit::of(total_price, fee_bps),
        split.total_price == total_price,
        split.fee_amount == fee_of(total_price, fee_bps),
        split.fee_amount + split.creator_amount == total_price,
{
    proof {
        lemma_fee_bounds(total_price, fee_bps);
        assert(total_price as u128 * fee_bps as u128 <= u128::MAX) by (nonlinear_arith)
            requires
                total_price <= u64::MAX,
                fee_bps <= 10000,
        ;
    }
    let product: u128 = total_price as u128 * fee_bps as u128;
    let fee_amount: u64 = (product / 10000) as u64;
    PaymentSplit { total_price, fee_amount, creator_amount: total_price - fee_amount }
}

} // verus!
