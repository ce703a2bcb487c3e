//! How the sums over a pool's bets behave.

use vstd::prelude::*;
use crate::zk_betting::model::{
    Tally, all_claimed, bet_valid, payments_sum, refunds_due, total, weight,
};
use crate::zk_betting::types::{BetCommit, BetSide};

verus! {

/// Adding a bet at the end adds its weight to every tally.
pub proof fn lemma_total_push(bets: Seq<BetCommit>, bet: BetCommit, tally: Tally)
    ensures
        total(bets.push(bet), tally) == total(bets, tally) + weight(tally, bet),
{
    assert(bets.push(bet).drop_last() =~= bets);
}

/// Replacing one bet changes a tally by the difference of the two weights.
pub proof fn lemma_total_update(bets: Seq<BetCommit>, j: int, bet: BetCommit, tally: Tally)
    requires
        0 <= j < bets.len(),
    ensures
        total(bets.update(j, bet), tally) == total(bets, tally) - weight(tally, bets[j]) + weight(
            tally,
            bet,
        ),
    decreases bets.len(),
{
    if j == bets.len() - 1 {
        assert(bets.update(j, bet).drop_last() =~= bets.drop_last());
    } else {
        assert(bets.update(j, bet).drop_last() =~= bets.drop_last().update(j, bet));
        lemma_total_update(bets.drop_last(), j, bet, tally);
    }
}

/// Where each bet of `a` weighs at most as much as the bet of `b` in its place, the
/// tally over `a` is at most the tally over `b`.
pub proof fn lemma_total_le(a: Seq<BetCommit>, tally_a: Tally, b: Seq<BetCommit>, tally_b: Tally)
    requires
        a.len() == b.len(),
        forall|j: int| 0 <= j < a.len() ==> weight(tally_a, #[trigger] a[j]) <= weight(tally_b, b[j]),
    ensures
        total(a, tally_a) <= total(b, tally_b),
    decreases a.len(),
{
    if a.len() > 0 {
        lemma_total_le(a.drop_last(), tally_a, b.drop_last(), tally_b);
    }
}

/// A tally of weights that are not negative is not negative.
pub proof fn lemma_total_nonneg(bets: Seq<BetCommit>, tally: Tally)
    requires
        forall|j: int| 0 <= j < bets.len() ==> 0 <= weight(tally, #[trigger] bets[j]),
    ensures
        0 <= total(bets, tally),
    decreases bets.len(),
{
    if bets.len() > 0 {
        lemma_total_nonneg(bets.drop_last(), tally);
    }
}

/// A tally of weights that are all zero is zero.
pub proof fn lemma_total_zero(bets: Seq<BetCommit>, tally: Tally)
    requires
        forall|j: int| 0 <= j < bets.len() ==> weight(tally, #[trigger] bets[j]) == 0,
    ensures
        total(bets, tally) == 0,
    decreases bets.len(),
{
    if bets.len() > 0 {
        lemma_total_zero(bets.drop_last(), tally);
    }
}

/// Where every bet weighs in `whole` what it weighs in `left` and `right`
/// together, so do the tallies.
pub proof fn lemma_total_sum(bets: Seq<BetCommit>, whole: Tally, left: Tally, right: Tally)
    requires
        forall|j: int|
            0 <= j < bets.len() ==> weight(whole, #[trigger] bets[j]) == weight(left, bets[j])
                + weight(right, bets[j]),
    ensures
        total(bets, whole) == total(bets, left) + total(bets, right),
    decreases bets.len(),
{
    if bets.len() > 0 {
        lemma_total_sum(bets.drop_last(), whole, left, right);
    }
}

/// The tally over the first bets of a list is at most the tally over all of them,
/// where no bet weighs less than nothing.
pub proof fn lemma_total_prefix_le(bets: Seq<BetCommit>, count: int, tally: Tally)
    requires
        0 <= count <= bets.len(),
        forall|k: int| 0 <= k < bets.len() ==> 0 <= weight(tally, #[trigger] bets[k]),
    ensures
        total(bets.take(count), tally) <= total(bets, tally),
    decreases bets.len() - count,
{
    if count == bets.len() {
        assert(bets.take(count) =~= bets);
    } else {
        assert(bets.take(count + 1) =~= bets.take(count).push(bets[count]));
        lemma_total_push(bets.take(count), bets[count], tally);
        lemma_total_prefix_le(bets, count + 1, tally);
    }
}

/// There are at most as many reveals as bets.
pub proof fn lemma_reveals_at_most_bets(bets: Seq<BetCommit>)
    ensures
        0 <= total(bets, Tally::Reveals) <= bets.len(),
    decreases bets.len(),
{
    if bets.len() > 0 {
        lemma_reveals_at_most_bets(bets.drop_last());
    }
}

/// The fees of a valid pool's bets are at most its stakes, and none of its tallies
/// is negative.
pub proof fn lemma_tallies_ordered(bets: Seq<BetCommit>, side: BetSide)
    requires
        forall|j: int| 0 <= j < bets.len() ==> bet_valid(#[trigger] bets[j]),
    ensures
        0 <= total(bets, Tally::Fees) <= total(bets, Tally::Stakes),
        0 <= total(bets, Tally::RevealedOn(side)) <= total(bets, Tally::Stakes),
{
    lemma_total_le(bets, Tally::Fees, bets, Tally::Stakes);
    lemma_total_le(bets, Tally::RevealedOn(side), bets, Tally::Stakes);
    lemma_total_nonneg(bets, Tally::Fees);
    lemma_total_nonneg(bets, Tally::RevealedOn(side));
}

/// The payouts claimed on a side are at most twice what was revealed on it.
pub proof fn lemma_payouts_at_most_twice_side(bets: Seq<BetCommit>, winner: BetSide)
    requires
        forall|j: int| 0 <= j < bets.len() ==> bet_valid(#[trigger] bets[j]),
    ensures
        0 <= total(bets, Tally::Payouts(winner)) <= 2 * total(bets, Tally::RevealedOn(winner)),
    decreases bets.len(),
{
    if bets.len() > 0 {
        lemma_payouts_at_most_twice_side(bets.drop_last(), winner);
    }
}

/// What a refund owes is what marking every bet as claimed adds to the refunds.
pub proof fn lemma_refunds_due_sum(bets: Seq<BetCommit>)
    requires
        forall|j: int| 0 <= j < bets.len() ==> bet_valid(#[trigger] bets[j]),
    ensures
        payments_sum(refunds_due(bets)) + total(bets, Tally::Refunds) == total(
            all_claimed(bets),
            Tally::Refunds,
        ),
    decreases bets.len(),
{
    if bets.len() > 0 {
        let rest = bets.drop_last();
        let last = bets.last();
        lemma_refunds_due_sum(rest);
        assert(all_claimed(bets).drop_last() =~= all_claimed(rest));
        if !last.claimed {
            assert(refunds_due(bets).drop_last() =~= refunds_due(rest));
        }
    }
}

/// Once every bet revealed on a side is claimed, the payouts on the side are
/// exactly twice what was revealed on it.
pub proof fn lemma_payouts_are_twice_side(bets: Seq<BetCommit>, winner: BetSide)
    requires
        forall|j: int|
            0 <= j < bets.len() && (#[trigger] bets[j]).side == Some(winner) ==> bets[j].claimed,
    ensures
        total(bets, Tally::Payouts(winner)) == 2 * total(bets, Tally::RevealedOn(winner)),
    decreases bets.len(),
{
    if bets.len() > 0 {
        assert forall|j: int|
            0 <= j < bets.drop_last().len() && (#[trigger] bets.drop_last()[j]).side == Some(
                winner,
            ) implies bets.drop_last()[j].claimed by {
            assert(bets.drop_last()[j] == bets[j]);
        }
        lemma_payouts_are_twice_side(bets.drop_last(), winner);
        assert(bets[bets.len() - 1].side == Some(winner) ==> bets[bets.len() - 1].claimed);
    }
}

} // verus!
