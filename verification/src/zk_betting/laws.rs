//! What holds of the betting state machine.

use vstd::prelude::*;
use crate::commitment::commitment_of;
use crate::fees::law_fee_within_stake;
use crate::primitives::Address;
use crate::zk_betting::model::{
    BettingState, ClaimCall, Operation, Tally, bet_valid, bettor_index, pool_valid,
};
use crate::zk_betting::tallies::{
    lemma_payouts_are_twice_side, lemma_payouts_at_most_twice_side, lemma_refunds_due_sum,
    lemma_tallies_ordered, lemma_total_push, lemma_total_sum, lemma_total_update,
    lemma_total_zero,
};
use crate::zk_betting::types::{BetCommit, BetSide, Error, PoolStatus, FEE_BPS};
use crate::zk_betting::validity::{
    lemma_bettor_index_unique, lemma_claim_payout_keeps_valid, lemma_commit_bet_keeps_valid,
    lemma_create_pool_keeps_valid, lemma_lock_pool_keeps_valid, lemma_refund_pool_keeps_valid,
    lemma_reveal_bet_keeps_valid, lemma_settle_pool_keeps_valid, lemma_settle_pool_zk_keeps_valid,
};

verus! {

/// Every operation keeps the invariant of the contract.
pub proof fn law_operation_keeps_valid(s: BettingState, operation: Operation)
    requires
        s.valid(),
        s.fits(operation),
    ensures
        s.after(operation).valid(),
{
    match operation {
        Operation::CreatePool { match_id, deadline_ts } => {
            lemma_create_pool_keeps_valid(s, match_id, deadline_ts);
        },
        Operation::CommitBet { pool_id, bettor, commitment, amount, now_ts } => {
            lemma_commit_bet_keeps_valid(s, pool_id, bettor, commitment, amount, now_ts);
        },
        Operation::LockPool { pool_id } => {
            lemma_lock_pool_keeps_valid(s, pool_id);
        },
        Operation::RevealBet { pool_id, bettor, side, salt } => {
            lemma_reveal_bet_keeps_valid(s, pool_id, bettor, side, salt);
        },
        Operation::SettlePool { pool_id, winner } => {
            lemma_settle_pool_keeps_valid(s, pool_id, winner);
        },
        Operation::SettlePoolZk { pool_id, winner, vk_id, proof, public_inputs, verified } => {
            lemma_settle_pool_zk_keeps_valid(
                s,
                pool_id,
                winner,
                vk_id,
                proof,
                public_inputs,
                verified,
            );
        },
        Operation::ClaimPayout { pool_id, bettor } => {
            lemma_claim_payout_keeps_valid(s, pool_id, bettor);
        },
        Operation::RefundPool { pool_id } => {
            lemma_refund_pool_keeps_valid(s, pool_id);
        },
        Operation::SweepTreasury { now_ts } => {
            let after = s.after_sweep_treasury(now_ts);
            assert forall|i: int| 0 <= i < after.pools.len() implies pool_valid(
                #[trigger] after.pools[i],
                after.bets[i],
                i,
            ) by {
                assert(pool_valid(s.pools[i], s.bets[i], i));
            }
        },
    }
}

/// A reveal for an unrevealed bet in a locked pool succeeds exactly where the
/// commitment on record is the hash of the revealed side's byte followed by the
/// revealed salt. Otherwise it fails with `InvalidReveal` and changes nothing.
pub proof fn law_reveal_opens_commitment(
    s: BettingState,
    pool_id: u32,
    bettor: Address,
    side: BetSide,
    salt: [u8; 32],
)
    requires
        s.has_pool(pool_id),
        s.pool(pool_id).status == PoolStatus::Locked,
        s.bet_of(pool_id, bettor) is Some,
        !s.bet_of(pool_id, bettor)->0.revealed,
    ensures
        s.reveal_bet_error(pool_id, bettor, side, salt) is None <==> s.bet_of(
            pool_id,
            bettor,
        )->0.commitment@ == commitment_of(side.byte_of(), salt@),
        s.reveal_bet_error(pool_id, bettor, side, salt) is Some ==> {
            &&& s.reveal_bet_error(pool_id, bettor, side, salt) == Some(Error::InvalidReveal)
            &&& s.after_reveal_bet(pool_id, bettor, side, salt) == s
        },
{
}

/// A bet committed to a side and a salt is opened by that pair. Another pair, unless
/// it hashes to the same commitment, is refused with `InvalidReveal` and leaves the
/// bet unrevealed.
pub proof fn law_commitment_binds(
    s: BettingState,
    pool_id: u32,
    bettor: Address,
    side: BetSide,
    salt: [u8; 32],
    other_side: BetSide,
    other_salt: [u8; 32],
)
    requires
        s.has_pool(pool_id),
        s.pool(pool_id).status == PoolStatus::Locked,
        s.bet_of(pool_id, bettor) is Some,
        !s.bet_of(pool_id, bettor)->0.revealed,
        s.bet_of(pool_id, bettor)->0.commitment@ == commitment_of(side.byte_of(), salt@),
        commitment_of(other_side.byte_of(), other_salt@) != commitment_of(side.byte_of(), salt@),
    ensures
        s.reveal_bet_error(pool_id, bettor, side, salt) is None,
        s.reveal_bet_error(pool_id, bettor, other_side, other_salt) == Some(Error::InvalidReveal),
        s.after_reveal_bet(pool_id, bettor, other_side, other_salt) == s,
        !s.after_reveal_bet(pool_id, bettor, other_side, other_salt).bet_of(
            pool_id,
            bettor,
        )->0.revealed,
{
}

/// What the bettors of a pool have paid into escrow is the pool's stakes and fees:
/// at lock time and at every other.
pub proof fn law_escrow_in_is_pool_and_fees(s: BettingState, pool_id: u32)
    requires
        s.valid(),
        s.has_pool(pool_id),
    ensures
        s.escrow_in(pool_id) == s.pool(pool_id).total_pool + s.pool(pool_id).total_fees,
{
}

/// An operation whose sums leave the machine's integers still does to the bets of
/// every pool what it does within them: a deposit adds its bet, a settlement
/// leaves the bets as they are, and a pool that is settled or refunded is not
/// touched.
proof fn lemma_bets_beyond_limits(s: BettingState, operation: Operation, pool_id: u32)
    requires
        s.valid(),
        !s.fits(operation),
        s.has_pool(pool_id),
    ensures
        s.after(operation).has_pool(pool_id),
        s.after(operation).escrow_in(pool_id) == s.escrow_in(pool_id) + s.paid_in(
            operation,
            pool_id,
        ),
        s.after(operation).escrow_out(pool_id) == s.escrow_out(pool_id) + s.paid_out(
            operation,
            pool_id,
        ),
        s.pool(pool_id).status.is_terminal() ==> s.after(operation).pool_bets(pool_id)
            == s.pool_bets(pool_id),
{
    let index = pool_id - 1;
    let bets = s.pool_bets(pool_id);
    assert(pool_valid(s.pools[index], s.bets[index], index));
    match operation {
        Operation::CommitBet { pool_id: target, bettor, commitment, amount, now_ts } => {
            if target == pool_id {
                let bet = BettingState::new_bet(bettor, commitment, amount);
                law_fee_within_stake(amount as int, FEE_BPS as int);
                lemma_total_push(bets, bet, Tally::Stakes);
                lemma_total_push(bets, bet, Tally::Fees);
            }
        },
        Operation::SettlePool { pool_id: target, winner } => {
            if target == pool_id {
                lemma_total_zero(bets, Tally::Payouts(winner));
            }
        },
        Operation::SettlePoolZk { pool_id: target, winner, .. } => {
            if target == pool_id {
                lemma_total_zero(bets, Tally::Payouts(winner));
            }
        },
        _ => {},
    }
}

/// An operation adds to what a pool's bettors have paid into escrow exactly what
/// it asks of them: stake and fee of an accepted deposit, and nothing else.
pub proof fn law_escrow_in_grows_by_deposits(s: BettingState, operation: Operation, pool_id: u32)
    requires
        s.valid(),
        s.has_pool(pool_id),
    ensures
        s.after(operation).has_pool(pool_id),
        s.after(operation).escrow_in(pool_id) == s.escrow_in(pool_id) + s.paid_in(
            operation,
            pool_id,
        ),
{
    if s.fits(operation) {
        law_operation_keeps_valid(s, operation);
        law_pool_records_only_advance(s, operation, pool_id);
        law_escrow_in_is_pool_and_fees(s, pool_id);
        law_escrow_in_is_pool_and_fees(s.after(operation), pool_id);
        match operation {
            Operation::CommitBet { pool_id: target, bettor, commitment, amount, now_ts } => {
                lemma_commit_bet_keeps_valid(s, target, bettor, commitment, amount, now_ts);
            },
            _ => {},
        }
    } else {
        lemma_bets_beyond_limits(s, operation, pool_id);
    }
}

/// The place of a status in the life of a pool.
pub open spec fn status_rank(status: PoolStatus) -> int {
    match status {
        PoolStatus::Open => 0,
        PoolStatus::Locked => 1,
        PoolStatus::Settled => 2,
        PoolStatus::Refunded => 2,
    }
}

/// No operation removes a pool or moves its status backward, and a pool that is
/// settled or refunded keeps its record for good. Of a pool's record an operation
/// changes only the status, the winner and the running totals.
pub proof fn law_pool_records_only_advance(s: BettingState, operation: Operation, pool_id: u32)
    requires
        s.has_pool(pool_id),
    ensures
        s.after(operation).has_pool(pool_id),
        status_rank(s.after(operation).pool(pool_id).status) >= status_rank(s.pool(pool_id).status),
        s.pool(pool_id).status.is_terminal() ==> s.after(operation).pool(pool_id) == s.pool(
            pool_id,
        ),
        s.after(operation).pool(pool_id).pool_id == s.pool(pool_id).pool_id,
        s.after(operation).pool(pool_id).match_id == s.pool(pool_id).match_id,
        s.after(operation).pool(pool_id).deadline_ts == s.pool(pool_id).deadline_ts,
{
}

/// Whatever operations are made, in whatever number and order, no pool is removed
/// and no pool's status moves backward; a pool that is settled or refunded keeps
/// its record as it is.
pub proof fn law_pools_only_advance_for_good(
    s: BettingState,
    operations: Seq<Operation>,
    pool_id: u32,
)
    requires
        s.has_pool(pool_id),
    ensures
        s.after_all(operations).has_pool(pool_id),
        status_rank(s.after_all(operations).pool(pool_id).status) >= status_rank(
            s.pool(pool_id).status,
        ),
        s.pool(pool_id).status.is_terminal() ==> s.after_all(operations).pool(pool_id) == s.pool(
            pool_id,
        ),
    decreases operations.len(),
{
    if operations.len() > 0 {
        law_pools_only_advance_for_good(s, operations.drop_last(), pool_id);
        law_pool_records_only_advance(
            s.after_all(operations.drop_last()),
            operations.last(),
            pool_id,
        );
    }
}

/// Once a pool is settled or refunded, no deposit, lock, settlement or refund
/// succeeds on it, and each of them leaves the state as it was.
pub proof fn law_terminal_pools_refuse(s: BettingState, operation: Operation, pool_id: u32)
    requires
        s.has_pool(pool_id),
        s.pool(pool_id).status.is_terminal(),
    ensures
        match operation {
            Operation::CommitBet { pool_id: target, bettor, amount, now_ts, .. } => target
                == pool_id ==> s.commit_bet_error(target, bettor, amount, now_ts) is Some
                && s.after(operation) == s,
            Operation::LockPool { pool_id: target } => target == pool_id ==> s.lock_pool_error(
                target,
            ) == Some(Error::PoolAlreadyLocked) && s.after(operation) == s,
            Operation::RevealBet { pool_id: target, bettor, side, salt } => target == pool_id
                ==> s.reveal_bet_error(target, bettor, side, salt) == Some(Error::PoolNotLocked)
                && s.after(operation) == s,
            Operation::SettlePool { pool_id: target, .. } => target == pool_id
                ==> s.settle_pool_error(target) == Some(Error::PoolAlreadySettled) && s.after(
                operation,
            ) == s,
            Operation::SettlePoolZk {
                pool_id: target,
                winner,
                vk_id,
                proof,
                public_inputs,
                verified,
            } => target == pool_id ==> s.settle_pool_zk_error(
                target,
                winner,
                vk_id,
                proof,
                public_inputs,
                verified,
            ) is Some && s.after(operation) == s,
            Operation::RefundPool { pool_id: target } => target == pool_id
                ==> s.refund_pool_error(target) == Some(Error::PoolAlreadySettled) && s.after(
                operation,
            ) == s,
            _ => true,
        },
{
}

/// After a claim that paid out or forfeited the bet, a second claim for the same
/// bettor fails with `AlreadyClaimed`, pays nothing and changes nothing.
pub proof fn law_second_claim_fails(s: BettingState, pool_id: u32, bettor: Address)
    requires
        s.valid(),
        s.claim_payout_error(pool_id, bettor) is None || s.claim_payout_error(pool_id, bettor)
            == Some(Error::NoPayout),
    ensures
        s.after_claim_payout(pool_id, bettor).claim_payout_error(pool_id, bettor) == Some(
            Error::AlreadyClaimed,
        ),
        s.after_claim_payout(pool_id, bettor).claim_payout_amount(pool_id, bettor) == 0,
        s.after_claim_payout(pool_id, bettor).after_claim_payout(pool_id, bettor)
            == s.after_claim_payout(pool_id, bettor),
{
    let after = s.after_claim_payout(pool_id, bettor);
    let bets = s.pool_bets(pool_id);
    let j = bettor_index(bets, bettor)->0;
    let after_bets = after.pool_bets(pool_id);
    lemma_bettor_index_unique(after_bets, bettor, j);
}

/// However many claims are made for one bettor of one pool, by the bettor or on
/// the admin's word, by whatever callers and in whatever order: at most one of
/// them marks the bet as claimed, by paying it out or by finding it forfeited;
/// at most one succeeds; all of them together pay the bettor nothing or exactly
/// twice the stake; and once the bet is marked as claimed it stays so, and every
/// further claim that its caller may make is refused with `AlreadyClaimed`.
pub proof fn law_claims_pay_at_most_once(
    s: BettingState,
    calls: Seq<ClaimCall>,
    pool_id: u32,
    bettor: Address,
)
    requires
        s.valid(),
    ensures
        ({
            let after = s.after_claim_calls(calls, pool_id, bettor);
            let succeeding = s.claim_calls_succeeding(calls, pool_id, bettor);
            let marking = s.claim_calls_marking(calls, pool_id, bettor);
            let paid = s.claim_calls_paid(calls, pool_id, bettor);
            &&& after.valid()
            &&& after.admin == s.admin
            &&& after.has_pool(pool_id) == s.has_pool(pool_id)
            &&& s.has_pool(pool_id) ==> after.pool(pool_id) == s.pool(pool_id)
            &&& after.bet_of(pool_id, bettor) is Some <==> s.bet_of(pool_id, bettor) is Some
            &&& s.bet_of(pool_id, bettor) is Some ==> after.bet_of(pool_id, bettor)->0.amount
                == s.bet_of(pool_id, bettor)->0.amount
            &&& s.bet_of(pool_id, bettor) is Some && s.bet_of(pool_id, bettor)->0.claimed
                ==> after.bet_of(pool_id, bettor)->0.claimed && succeeding == 0 && paid == 0
            &&& 0 <= succeeding <= marking <= 1
            &&& s.bet_of(pool_id, bettor) is Some && s.bet_of(pool_id, bettor)->0.claimed
                ==> marking == 0
            &&& marking == 1 ==> after.bet_of(pool_id, bettor) is Some && after.bet_of(
                pool_id,
                bettor,
            )->0.claimed && after.claim_payout_error(pool_id, bettor) == Some(
                Error::AlreadyClaimed,
            ) && after.after_claim_payout(pool_id, bettor) == after
            &&& succeeding == 0 ==> paid == 0
            &&& succeeding == 1 ==> s.bet_of(pool_id, bettor) is Some && paid == 2 * s.bet_of(
                pool_id,
                bettor,
            )->0.amount && after.bet_of(pool_id, bettor)->0.claimed
        }),
    decreases calls.len(),
{
    if calls.len() > 0 {
        let earlier = calls.drop_last();
        let call = calls.last();
        law_claims_pay_at_most_once(s, earlier, pool_id, bettor);
        let before = s.after_claim_calls(earlier, pool_id, bettor);
        lemma_claim_payout_keeps_valid(before, pool_id, bettor);
        if before.claim_call_authorized(call, bettor) {
            let error = before.claim_payout_error(pool_id, bettor);
            if error is None || error == Some(Error::NoPayout) {
                let bets = before.pool_bets(pool_id);
                let j = bettor_index(bets, bettor)->0;
                let after_bets = before.after_claim_payout(pool_id, bettor).pool_bets(pool_id);
                assert(pool_valid(before.pools[pool_id - 1], before.bets[pool_id - 1], pool_id - 1));
                assert(after_bets == bets.update(j, BetCommit { claimed: true, ..bets[j] }));
                lemma_bettor_index_unique(after_bets, bettor, j);
            }
        }
    }
}

/// A bet that was claimed stays claimed under every operation.
pub proof fn law_claimed_bets_stay_claimed(
    s: BettingState,
    operation: Operation,
    pool_id: u32,
    bettor: Address,
)
    requires
        s.valid(),
        s.bet_of(pool_id, bettor) is Some,
        s.bet_of(pool_id, bettor)->0.claimed,
    ensures
        s.after(operation).bet_of(pool_id, bettor) is Some,
        s.after(operation).bet_of(pool_id, bettor)->0.claimed,
{
    if !s.fits(operation) {
        assert(pool_valid(s.pools[pool_id - 1], s.bets[pool_id - 1], pool_id - 1));
        lemma_bets_beyond_limits(s, operation, pool_id);
    } else {
        let index = pool_id - 1;
        let bets = s.pool_bets(pool_id);
        let j = bettor_index(bets, bettor)->0;
        let after = s.after(operation);
        law_operation_keeps_valid(s, operation);
        law_pool_records_only_advance(s, operation, pool_id);
        assert(pool_valid(s.pools[index], s.bets[index], index));
        assert(pool_valid(after.pools[index], after.bets[index], index));
        assert(s.pool(pool_id).status.is_terminal());
        let after_bets = after.pool_bets(pool_id);
        assert(after_bets.len() == bets.len());
        assert(after_bets[j].bettor == bettor);
        assert(after_bets[j].claimed);
        lemma_bettor_index_unique(after_bets, bettor, j);
    }
}

/// An operation adds to what has left escrow for a pool's bettors exactly what it
/// pays them: the payout of a claim, or what a refund owes.
pub proof fn law_escrow_out_grows_by_payments(s: BettingState, operation: Operation, pool_id: u32)
    requires
        s.valid(),
        s.has_pool(pool_id),
    ensures
        s.after(operation).escrow_out(pool_id) == s.escrow_out(pool_id) + s.paid_out(
            operation,
            pool_id,
        ),
{
    if !s.fits(operation) {
        lemma_bets_beyond_limits(s, operation, pool_id);
    } else {
        let index = pool_id - 1;
        let bets = s.pool_bets(pool_id);
        let after = s.after(operation);
        law_operation_keeps_valid(s, operation);
        law_pool_records_only_advance(s, operation, pool_id);
        assert(pool_valid(s.pools[index], s.bets[index], index));
        assert(pool_valid(after.pools[index], after.bets[index], index));
        let after_bets = after.pool_bets(pool_id);
        if !s.pool(pool_id).status.is_terminal() {
            // Nothing was claimed so far, so nothing has left escrow.
            if after.pool(pool_id).status == PoolStatus::Settled {
                let winner = after.pool(pool_id).winner_side->0;
                assert(after_bets == bets);
                lemma_total_zero(bets, Tally::Payouts(winner));
            } else if after.pool(pool_id).status == PoolStatus::Refunded {
                assert(operation == Operation::RefundPool { pool_id });
                lemma_total_zero(bets, Tally::Refunds);
                lemma_refunds_due_sum(bets);
            }
        } else {
            match operation {
                Operation::ClaimPayout { pool_id: target, bettor } => {
                    let error = s.claim_payout_error(target, bettor);
                    if target == pool_id && (error is None || error == Some(Error::NoPayout)) {
                        let j = bettor_index(bets, bettor)->0;
                        let winner = s.pool(pool_id).winner_side->0;
                        assert(bet_valid(bets[j]));
                        lemma_total_update(
                            bets,
                            j,
                            BetCommit { claimed: true, ..bets[j] },
                            Tally::Payouts(winner),
                        );
                    } else {
                        assert(after_bets == bets);
                    }
                },
                _ => {
                    assert(after_bets == bets);
                },
            }
        }
    }
}

/// What has left escrow for the bettors of a pool is at most what they paid in,
/// for every pool whose winning side holds at most half of its stakes and fees.
/// A refunded pool has paid back exactly what was paid in.
pub proof fn law_escrow_out_within_escrow_in(s: BettingState, pool_id: u32)
    requires
        s.valid(),
        s.has_pool(pool_id),
        s.pool(pool_id).winner_side == Some(BetSide::Player1) ==> 2 * s.pool(
            pool_id,
        ).player1_total <= s.pool(pool_id).total_pool + s.pool(pool_id).total_fees,
        s.pool(pool_id).winner_side == Some(BetSide::Player2) ==> 2 * s.pool(
            pool_id,
        ).player2_total <= s.pool(pool_id).total_pool + s.pool(pool_id).total_fees,
    ensures
        0 <= s.escrow_out(pool_id) <= s.escrow_in(pool_id),
        s.pool(pool_id).status == PoolStatus::Refunded ==> s.escrow_out(pool_id) == s.escrow_in(
            pool_id,
        ),
{
    let bets = s.pool_bets(pool_id);
    lemma_tallies_ordered(bets, BetSide::Player1);
    match s.pool(pool_id).status {
        PoolStatus::Settled => {
            let winner = s.pool(pool_id).winner_side->0;
            lemma_payouts_at_most_twice_side(bets, winner);
        },
        PoolStatus::Refunded => {
            lemma_total_sum(bets, Tally::Refunds, Tally::Stakes, Tally::Fees);
        },
        _ => {},
    }
}

/// Whatever the sides hold, the payouts claimed in a settled pool are at most
/// twice what was revealed on the winning side.
pub proof fn law_payouts_within_twice_winning_side(s: BettingState, pool_id: u32)
    requires
        s.valid(),
        s.has_pool(pool_id),
        s.pool(pool_id).status == PoolStatus::Settled,
    ensures
        s.pool(pool_id).winner_side == Some(BetSide::Player1) ==> s.escrow_out(pool_id) <= 2
            * s.pool(pool_id).player1_total,
        s.pool(pool_id).winner_side == Some(BetSide::Player2) ==> s.escrow_out(pool_id) <= 2
            * s.pool(pool_id).player2_total,
{
    lemma_payouts_at_most_twice_side(s.pool_bets(pool_id), s.pool(pool_id).winner_side->0);
}

/// In a valid state no claim is refused for want of a winner: a settled pool has
/// one.
pub proof fn law_settled_pools_have_a_winner(s: BettingState, pool_id: u32, bettor: Address)
    requires
        s.valid(),
    ensures
        s.claim_payout_error(pool_id, bettor) != Some(Error::InvalidWinner),
        s.has_pool(pool_id) ==> (s.pool(pool_id).status == PoolStatus::Settled <==> s.pool(
            pool_id,
        ).winner_side is Some),
{
    if s.has_pool(pool_id) {
        assert(pool_valid(s.pools[pool_id - 1], s.bets[pool_id - 1], pool_id - 1));
    }
}

/// Once every winner of a settled pool has claimed, what has left escrow is exactly
/// twice what was revealed on the winning side: more than was paid in wherever
/// the winning side holds more than half of the pool's stakes and fees.
pub proof fn law_claimed_out_pool_paid_twice_winning_side(s: BettingState, pool_id: u32)
    requires
        s.valid(),
        s.has_pool(pool_id),
        s.pool(pool_id).status == PoolStatus::Settled,
        forall|j: int|
            0 <= j < s.pool_bets(pool_id).len() && (#[trigger] s.pool_bets(pool_id)[j]).side
                == s.pool(pool_id).winner_side ==> s.pool_bets(pool_id)[j].claimed,
    ensures
        s.pool(pool_id).winner_side == Some(BetSide::Player1) ==> s.escrow_out(pool_id) == 2
            * s.pool(pool_id).player1_total,
        s.pool(pool_id).winner_side == Some(BetSide::Player2) ==> s.escrow_out(pool_id) == 2
            * s.pool(pool_id).player2_total,
{
    let index = pool_id - 1;
    assert(pool_valid(s.pools[index], s.bets[index], index));
    lemma_payouts_are_twice_side(s.pool_bets(pool_id), s.pool(pool_id).winner_side->0);
}

} // verus!
