//! Basis-point fees, rounded up to the next minor unit.

use vstd::prelude::*;

verus! {

/// The fee on `amount` at `bps` basis points: `amount * bps / 10_000`, rounded up.
pub open spec fn fee_for(amount: int, bps: int) -> int {
    let scaled = amount * bps;
    if scaled % 10_000 == 0 {
        scaled / 10_000
    } else {
        scaled / 10_000 + 1
    }
}

/// Computes [`fee_for`] without leaving `i128`.
pub fn fee(amount: i128, bps: u32) -> (fee: i128)
    requires
        i128::MIN < amount * bps,
        amount * bps + 9_999 <= i128::MAX,
    ensures
        fee == fee_for(amount as int, bps as int),
{
    let scaled: i128 = amount * (bps as i128);
    if scaled >= 0 {
        (scaled + 9_999) / 10_000
    } else {
        let below: i128 = (0 - scaled) / 10_000;
        0 - below
    }
}

/// The fee is the least whole number of minor units that covers
/// `amount * bps / 10_000`.
pub proof fn law_fee_is_the_ceiling(amount: int, bps: int)
    ensures
        fee_for(amount, bps) * 10_000 >= amount * bps,
        (fee_for(amount, bps) - 1) * 10_000 < amount * bps,
{
}

/// At up to one hundred percent, the fee on a stake that is not negative lies
/// between nothing and the stake.
pub proof fn law_fee_within_stake(amount: int, bps: int)
    requires
        0 <= amount,
        0 <= bps <= 10_000,
    ensures
        0 <= fee_for(amount, bps) <= amount,
{
    assert(0 <= amount * bps <= amount * 10_000) by (nonlinear_arith)
        requires
            0 <= amount,
            0 <= bps <= 10_000,
    ;
}

} // verus!
