//! Checks of the contract's invariant on records at hand.

use vstd::prelude::*;
use crate::fees::fee;
use crate::zk_betting::model::{Tally, all_claimed, bet_valid, distinct_bettors, pool_valid, total};
use crate::zk_betting::tallies::{lemma_total_prefix_le, lemma_total_push};
use crate::zk_betting::types::{BetCommit, BetPool, BetSide, FEE_BPS, MIN_BET_STROOPS, PoolStatus};

verus! {

/// Whether a bet is valid.
pub fn bet_is_valid(bet: &BetCommit) -> (ok: bool)
    ensures
        ok == bet_valid(*bet),
{
    if bet.amount < MIN_BET_STROOPS || bet.amount > (i128::MAX - 9_999) / 100 {
        return false;
    }
    let expected_fee = fee(bet.amount, FEE_BPS);
    bet.fee_paid == expected_fee && bet.revealed == bet.side.is_some()
}

/// Whether no two of the bets are of one bettor.
fn bettors_differ(bets: &Vec<BetCommit>) -> (ok: bool)
    ensures
        ok == distinct_bettors(bets@),
{
    let mut first: usize = 0;
    while first < bets.len()
        invariant
            first <= bets.len(),
            forall|j: int, k: int|
                0 <= j < first && j < k < bets.len() ==> (#[trigger] bets@[j]).bettor != (
                #[trigger] bets@[k]).bettor,
        decreases bets.len() - first,
    {
        let mut second: usize = first + 1;
        while second < bets.len()
            invariant
                first < second <= bets.len(),
                forall|k: int|
                    first < k < second ==> bets@[first as int].bettor != (#[trigger] bets@[k]).bettor,
            decreases bets.len() - second,
        {
            if bets[first].bettor.same_as(&bets[second].bettor) {
                return false;
            }
            second += 1;
        }
        first += 1;
    }
    true
}

/// Whether a pool and its bets are valid in the place `index`.
pub fn pool_is_valid(pool: &BetPool, bets: &Vec<BetCommit>, index: usize) -> (ok: bool)
    requires
        index < u32::MAX,
    ensures
        ok == pool_valid(*pool, bets@, index as int),
{
    if pool.pool_id as usize != index + 1 || pool.bet_count as usize != bets.len() {
        return false;
    }
    let settled = match pool.status {
        PoolStatus::Settled => true,
        _ => false,
    };
    let refunded = match pool.status {
        PoolStatus::Refunded => true,
        _ => false,
    };
    if pool.winner_side.is_some() != settled {
        return false;
    }
    let mut stakes: i128 = 0;
    let mut fees: i128 = 0;
    let mut on_player1: i128 = 0;
    let mut on_player2: i128 = 0;
    let mut reveals: usize = 0;
    let mut none_claimed = true;
    let mut all_claimed = true;
    let mut j: usize = 0;
    while j < bets.len()
        invariant
            j <= bets.len(),
            forall|k: int| 0 <= k < j ==> bet_valid(#[trigger] bets@[k]),
            stakes == total(bets@.take(j as int), Tally::Stakes),
            fees == total(bets@.take(j as int), Tally::Fees),
            on_player1 == total(bets@.take(j as int), Tally::RevealedOn(BetSide::Player1)),
            on_player2 == total(bets@.take(j as int), Tally::RevealedOn(BetSide::Player2)),
            reveals == total(bets@.take(j as int), Tally::Reveals),
            0 <= fees <= stakes,
            0 <= on_player1 <= stakes,
            0 <= on_player2 <= stakes,
            0 <= reveals <= j,
            none_claimed == (forall|k: int| 0 <= k < j ==> !(#[trigger] bets@[k]).claimed),
            all_claimed == (forall|k: int| 0 <= k < j ==> (#[trigger] bets@[k]).claimed),
        decreases bets.len() - j,
    {
        let bet = bets[j];
        if !bet_is_valid(&bet) {
            return false;
        }
        proof {
            assert(bets@.take(j + 1) =~= bets@.take(j as int).push(bet));
            lemma_total_push(bets@.take(j as int), bet, Tally::Stakes);
            lemma_total_push(bets@.take(j as int), bet, Tally::Fees);
            lemma_total_push(bets@.take(j as int), bet, Tally::RevealedOn(BetSide::Player1));
            lemma_total_push(bets@.take(j as int), bet, Tally::RevealedOn(BetSide::Player2));
            lemma_total_push(bets@.take(j as int), bet, Tally::Reveals);
        }
        if bet.amount > i128::MAX - stakes {
            proof {
                if pool_valid(*pool, bets@, index as int) {
                    lemma_total_prefix_le(bets@, j + 1, Tally::Stakes);
                }
            }
            return false;
        }
        stakes = stakes + bet.amount;
        fees = fees + bet.fee_paid;
        match bet.side {
            Some(BetSide::Player1) => {
                on_player1 = on_player1 + bet.amount;
            },
            Some(BetSide::Player2) => {
                on_player2 = on_player2 + bet.amount;
            },
            None => {},
        }
        if bet.revealed {
            reveals = reveals + 1;
        }
        if bet.claimed {
            none_claimed = false;
        } else {
            all_claimed = false;
        }
        j += 1;
    }
    proof {
        assert(bets@.take(j as int) =~= bets@);
    }
    if pool.total_pool != stakes || pool.total_fees != fees || pool.player1_total != on_player1
        || pool.player2_total != on_player2 || pool.reveal_count as usize != reveals {
        return false;
    }
    if !settled && !refunded && !none_claimed {
        return false;
    }
    if refunded && !all_claimed {
        return false;
    }
    bettors_differ(bets)
}

} // verus!
