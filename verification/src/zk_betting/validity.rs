//! Every operation keeps the invariant of the contract.

use vstd::prelude::*;
use crate::fees::fee_for;
use crate::primitives::Address;
use crate::zk_betting::model::{
    BettingState, Tally, all_claimed, bet_valid, bettor_index, distinct_bettors, pool_valid,
};
use crate::zk_betting::tallies::{
    lemma_reveals_at_most_bets, lemma_tallies_ordered, lemma_total_le, lemma_total_push,
    lemma_total_update,
};
use crate::zk_betting::types::{BetCommit, BetPool, BetSide, Error, FEE_BPS, PoolStatus};

verus! {

/// In a valid pool a bettor's bet stands where [`bettor_index`] says, and nowhere
/// else.
pub proof fn lemma_bettor_index_unique(bets: Seq<BetCommit>, bettor: Address, j: int)
    requires
        0 <= j < bets.len(),
        bets[j].bettor == bettor,
        distinct_bettors(bets),
    ensures
        bettor_index(bets, bettor) == Some(j),
{
}

/// Replacing a pool and its bets by a pool and bets that are valid in its place
/// keeps the state valid.
pub proof fn lemma_with_pool_valid(
    s: BettingState,
    pool_id: u32,
    pool: BetPool,
    bets: Seq<BetCommit>,
)
    requires
        s.valid(),
        s.has_pool(pool_id),
        pool_valid(pool, bets, pool_id - 1),
    ensures
        s.with_pool(pool_id, pool, bets).valid(),
{
    let after = s.with_pool(pool_id, pool, bets);
    assert forall|i: int| 0 <= i < after.pools.len() implies pool_valid(
        #[trigger] after.pools[i],
        after.bets[i],
        i,
    ) by {
        if i != pool_id - 1 {
            assert(pool_valid(s.pools[i], s.bets[i], i));
        }
    }
}

/// Opening a pool keeps the state valid.
pub proof fn lemma_create_pool_keeps_valid(s: BettingState, match_id: [u8; 32], deadline_ts: u64)
    requires
        s.valid(),
        s.pools.len() < u32::MAX,
    ensures
        s.after_create_pool(match_id, deadline_ts).valid(),
{
    let after = s.after_create_pool(match_id, deadline_ts);
    assert forall|i: int| 0 <= i < after.pools.len() implies pool_valid(
        #[trigger] after.pools[i],
        after.bets[i],
        i,
    ) by {
        if i < s.pools.len() {
            assert(pool_valid(s.pools[i], s.bets[i], i));
        }
    }
}

/// A deposit keeps the state valid, and the sums it forms stay within `i128`.
pub proof fn lemma_commit_bet_keeps_valid(
    s: BettingState,
    pool_id: u32,
    bettor: Address,
    commitment: [u8; 32],
    amount: i128,
    now_ts: u64,
)
    requires
        s.valid(),
        s.commit_bet_fits(pool_id, bettor, amount, now_ts),
    ensures
        s.after_commit_bet(pool_id, bettor, commitment, amount, now_ts).valid(),
        s.commit_bet_error(pool_id, bettor, amount, now_ts) is None ==> {
            &&& 0 <= fee_for(amount as int, FEE_BPS as int) <= amount
            &&& amount + fee_for(amount as int, FEE_BPS as int) <= i128::MAX
            &&& s.pool(pool_id).total_fees + fee_for(amount as int, FEE_BPS as int) <= i128::MAX
        },
{
    if s.commit_bet_error(pool_id, bettor, amount, now_ts) is None {
        let bets = s.pool_bets(pool_id);
        lemma_tallies_ordered(bets, BetSide::Player1);
        let bet = BettingState::new_bet(bettor, commitment, amount);
        lemma_total_push(bets, bet, Tally::Stakes);
        lemma_total_push(bets, bet, Tally::Fees);
        lemma_total_push(bets, bet, Tally::RevealedOn(BetSide::Player1));
        lemma_total_push(bets, bet, Tally::RevealedOn(BetSide::Player2));
        lemma_total_push(bets, bet, Tally::Reveals);
    }
}

/// Locking a pool keeps the state valid.
pub proof fn lemma_lock_pool_keeps_valid(s: BettingState, pool_id: u32)
    requires
        s.valid(),
    ensures
        s.after_lock_pool(pool_id).valid(),
{
    if s.lock_pool_error(pool_id) is None {
        let index = pool_id - 1;
        assert(pool_valid(s.pools[index], s.bets[index], index));
        lemma_with_pool_valid(
            s,
            pool_id,
            BetPool { status: PoolStatus::Locked, ..s.pool(pool_id) },
            s.pool_bets(pool_id),
        );
    }
}

/// A reveal keeps the state valid: the revealed stake moves into its side's total,
/// which stays within the pool's stakes, and the reveals stay within the bets.
pub proof fn lemma_reveal_bet_keeps_valid(
    s: BettingState,
    pool_id: u32,
    bettor: Address,
    side: BetSide,
    salt: [u8; 32],
)
    requires
        s.valid(),
    ensures
        s.after_reveal_bet(pool_id, bettor, side, salt).valid(),
        s.reveal_bet_error(pool_id, bettor, side, salt) is None ==> {
            &&& side == BetSide::Player1 ==> s.pool(pool_id).player1_total + s.bet_of(
                pool_id,
                bettor,
            )->0.amount <= i128::MAX
            &&& side == BetSide::Player2 ==> s.pool(pool_id).player2_total + s.bet_of(
                pool_id,
                bettor,
            )->0.amount <= i128::MAX
            &&& s.pool(pool_id).reveal_count < u32::MAX
        },
{
    if s.reveal_bet_error(pool_id, bettor, side, salt) is None {
        let index = pool_id - 1;
        let pool = s.pool(pool_id);
        let bets = s.pool_bets(pool_id);
        assert(pool_valid(s.pools[index], s.bets[index], index));
        let j = bettor_index(bets, bettor)->0;
        let bet = bets[j];
        let opened = BetCommit { revealed: true, side: Some(side), ..bet };
        let after_bets = bets.update(j, opened);
        let after = s.after_reveal_bet(pool_id, bettor, side, salt);
        let after_pool = after.pool(pool_id);
        assert(bet_valid(bet));
        assert(bet.side is None);
        lemma_total_update(bets, j, opened, Tally::Stakes);
        lemma_total_update(bets, j, opened, Tally::Fees);
        lemma_total_update(bets, j, opened, Tally::RevealedOn(BetSide::Player1));
        lemma_total_update(bets, j, opened, Tally::RevealedOn(BetSide::Player2));
        lemma_total_update(bets, j, opened, Tally::Reveals);
        assert forall|k: int| 0 <= k < after_bets.len() implies bet_valid(
            #[trigger] after_bets[k],
        ) by {
            if k != j {
                assert(bet_valid(bets[k]));
            }
        }
        lemma_tallies_ordered(after_bets, BetSide::Player1);
        lemma_tallies_ordered(after_bets, BetSide::Player2);
        lemma_reveals_at_most_bets(after_bets);
        assert forall|a: int, b: int|
            0 <= a < after_bets.len() && 0 <= b < after_bets.len() && a != b implies (
        #[trigger] after_bets[a]).bettor != (#[trigger] after_bets[b]).bettor by {
            assert(after_bets[a].bettor == bets[a].bettor);
            assert(after_bets[b].bettor == bets[b].bettor);
        }
        assert forall|k: int| 0 <= k < after_bets.len() implies !(#[trigger] after_bets[k]).claimed by {
            assert(!bets[k].claimed);
        }
        assert(pool_valid(after_pool, after_bets, index));
        lemma_with_pool_valid(s, pool_id, after_pool, after_bets);
    }
}

/// Settling a pool keeps the state valid.
pub proof fn lemma_settle_pool_keeps_valid(s: BettingState, pool_id: u32, winner: BetSide)
    requires
        s.valid(),
        s.settle_pool_fits(pool_id),
    ensures
        s.after_settle_pool(pool_id, winner).valid(),
        s.has_pool(pool_id) ==> 0 <= s.pool(pool_id).total_fees,
{
    if s.has_pool(pool_id) {
        let index = pool_id - 1;
        assert(pool_valid(s.pools[index], s.bets[index], index));
        lemma_tallies_ordered(s.pool_bets(pool_id), BetSide::Player1);
    }
    if s.settle_pool_error(pool_id) is None {
        let settled = BetPool {
            status: PoolStatus::Settled,
            winner_side: Some(winner),
            ..s.pool(pool_id)
        };
        lemma_with_pool_valid(s, pool_id, settled, s.pool_bets(pool_id));
        let with = s.with_pool(pool_id, settled, s.pool_bets(pool_id));
        let after = s.after_settle_pool(pool_id, winner);
        assert(after.pools == with.pools);
        assert(after.bets == with.bets);
    }
}

/// Settling by proof keeps the state valid, whatever the verifier answered.
pub proof fn lemma_settle_pool_zk_keeps_valid(
    s: BettingState,
    pool_id: u32,
    winner: BetSide,
    vk_id: [u8; 32],
    proof: Seq<u8>,
    public_inputs: Seq<[u8; 32]>,
    verified: bool,
)
    requires
        s.valid(),
        s.settle_pool_zk_fits(pool_id, winner, vk_id, proof, public_inputs, verified),
    ensures
        s.after_settle_pool_zk(pool_id, winner, vk_id, proof, public_inputs, verified).valid(),
{
    if s.settle_pool_zk_error(pool_id, winner, vk_id, proof, public_inputs, verified) is None {
        lemma_settle_pool_keeps_valid(s, pool_id, winner);
    }
}

/// A claim keeps the state valid, and twice the stake stays within `i128`.
pub proof fn lemma_claim_payout_keeps_valid(s: BettingState, pool_id: u32, bettor: Address)
    requires
        s.valid(),
    ensures
        s.after_claim_payout(pool_id, bettor).valid(),
        s.bet_of(pool_id, bettor) is Some ==> 0 < 2 * s.bet_of(pool_id, bettor)->0.amount
            <= i128::MAX,
{
    if s.has_pool(pool_id) {
        let index = pool_id - 1;
        assert(pool_valid(s.pools[index], s.bets[index], index));
        let bets = s.pool_bets(pool_id);
        if bettor_index(bets, bettor) is Some {
            let j = bettor_index(bets, bettor)->0;
            assert(bet_valid(bets[j]));
        }
    }
    let error = s.claim_payout_error(pool_id, bettor);
    if error is None || error == Some(Error::NoPayout) {
        let index = pool_id - 1;
        let bets = s.pool_bets(pool_id);
        let j = bettor_index(bets, bettor)->0;
        let claimed = BetCommit { claimed: true, ..bets[j] };
        let after_bets = bets.update(j, claimed);
        lemma_total_update(bets, j, claimed, Tally::Stakes);
        lemma_total_update(bets, j, claimed, Tally::Fees);
        lemma_total_update(bets, j, claimed, Tally::RevealedOn(BetSide::Player1));
        lemma_total_update(bets, j, claimed, Tally::RevealedOn(BetSide::Player2));
        lemma_total_update(bets, j, claimed, Tally::Reveals);
        assert forall|k: int| 0 <= k < after_bets.len() implies bet_valid(
            #[trigger] after_bets[k],
        ) by {
            assert(bet_valid(bets[k]));
        }
        assert forall|a: int, b: int|
            0 <= a < after_bets.len() && 0 <= b < after_bets.len() && a != b implies (
        #[trigger] after_bets[a]).bettor != (#[trigger] after_bets[b]).bettor by {
            assert(after_bets[a].bettor == bets[a].bettor);
            assert(after_bets[b].bettor == bets[b].bettor);
        }
        assert(pool_valid(s.pool(pool_id), after_bets, index));
        lemma_with_pool_valid(s, pool_id, s.pool(pool_id), after_bets);
    }
}

/// A refund keeps the state valid.
pub proof fn lemma_refund_pool_keeps_valid(s: BettingState, pool_id: u32)
    requires
        s.valid(),
    ensures
        s.after_refund_pool(pool_id).valid(),
{
    if s.refund_pool_error(pool_id) is None {
        let bets = s.pool_bets(pool_id);
        let after_bets = all_claimed(bets);
        lemma_total_le(bets, Tally::Stakes, after_bets, Tally::Stakes);
        lemma_total_le(after_bets, Tally::Stakes, bets, Tally::Stakes);
        lemma_total_le(bets, Tally::Fees, after_bets, Tally::Fees);
        lemma_total_le(after_bets, Tally::Fees, bets, Tally::Fees);
        lemma_total_le(bets, Tally::Reveals, after_bets, Tally::Reveals);
        lemma_total_le(after_bets, Tally::Reveals, bets, Tally::Reveals);
        let on_player1 = Tally::RevealedOn(BetSide::Player1);
        let on_player2 = Tally::RevealedOn(BetSide::Player2);
        lemma_total_le(bets, on_player1, after_bets, on_player1);
        lemma_total_le(after_bets, on_player1, bets, on_player1);
        lemma_total_le(bets, on_player2, after_bets, on_player2);
        lemma_total_le(after_bets, on_player2, bets, on_player2);
    }
}

} // verus!
