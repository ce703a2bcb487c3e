//! The betting contract as a state machine over plain values.
//!
//! [`BettingState`] is what the contract holds; for each operation one function says
//! when it is refused and one says what it leaves behind.

use vstd::prelude::*;
use crate::commitment::commitment_of;
use crate::fees::fee_for;
use crate::primitives::{Address, be_word};
use crate::zk_betting::types::{
    BetCommit, BetPool, BetSide, Error, Event, FEE_BPS, MIN_BET_STROOPS, Payment, PoolStatus,
    SWEEP_INTERVAL_SECONDS,
};

verus! {

/// A quantity that is summed over the bets of a pool.
pub enum Tally {
    /// The stake.
    Stakes,
    /// The fee paid with the stake.
    Fees,
    /// The stake, where the bet is revealed on the given side.
    RevealedOn(BetSide),
    /// One for each revealed bet.
    Reveals,
    /// What a claim paid: twice the stake, where the bet is claimed and revealed on
    /// the given side.
    Payouts(BetSide),
    /// What a refund paid: stake and fee, where the bet is claimed.
    Refunds,
}

/// What `bet` adds to `tally`.
pub open spec fn weight(tally: Tally, bet: BetCommit) -> int {
    match tally {
        Tally::Stakes => bet.amount as int,
        Tally::Fees => bet.fee_paid as int,
        Tally::RevealedOn(side) => if bet.side == Some(side) {
            bet.amount as int
        } else {
            0
        },
        Tally::Reveals => if bet.revealed {
            1
        } else {
            0
        },
        Tally::Payouts(winner) => if bet.claimed && bet.side == Some(winner) {
            2 * bet.amount
        } else {
            0
        },
        Tally::Refunds => if bet.claimed {
            bet.amount + bet.fee_paid
        } else {
            0
        },
    }
}

/// The sum of [`weight`] over `bets`.
pub open spec fn total(bets: Seq<BetCommit>, tally: Tally) -> int
    decreases bets.len(),
{
    if bets.len() == 0 {
        0
    } else {
        total(bets.drop_last(), tally) + weight(tally, bets.last())
    }
}

/// Where in `bets` the bet of `bettor` stands, if there is one.
pub open spec fn bettor_index(bets: Seq<BetCommit>, bettor: Address) -> Option<int> {
    if exists|j: int| 0 <= j < bets.len() && bets[j].bettor == bettor {
        Some(choose|j: int| 0 <= j < bets.len() && bets[j].bettor == bettor)
    } else {
        None
    }
}

/// What a refund owes on `bets`: stake and fee for each bet not yet claimed, in the
/// order the bets were placed.
pub open spec fn refunds_due(bets: Seq<BetCommit>) -> Seq<Payment>
    decreases bets.len(),
{
    if bets.len() == 0 {
        Seq::empty()
    } else if bets.last().claimed {
        refunds_due(bets.drop_last())
    } else {
        refunds_due(bets.drop_last()).push(
            Payment {
                to: bets.last().bettor,
                amount: (bets.last().amount + bets.last().fee_paid) as i128,
            },
        )
    }
}

/// The sum of the amounts of `payments`.
pub open spec fn payments_sum(payments: Seq<Payment>) -> int
    decreases payments.len(),
{
    if payments.len() == 0 {
        0
    } else {
        payments_sum(payments.drop_last()) + payments.last().amount
    }
}

/// `bets` with every bet marked as claimed.
pub open spec fn all_claimed(bets: Seq<BetCommit>) -> Seq<BetCommit> {
    Seq::new(bets.len(), |j: int| BetCommit { claimed: true, ..bets[j] })
}

/// Whether no two of the bets are of one bettor.
pub open spec fn distinct_bettors(bets: Seq<BetCommit>) -> bool {
    forall|j: int, k: int|
        0 <= j < bets.len() && 0 <= k < bets.len() && j != k ==> (#[trigger] bets[j]).bettor != (
        #[trigger] bets[k]).bettor
}

/// What is true of every recorded bet.
pub open spec fn bet_valid(bet: BetCommit) -> bool {
    &&& bet.amount >= MIN_BET_STROOPS
    &&& bet.amount * FEE_BPS + 9_999 <= i128::MAX
    &&& bet.fee_paid == fee_for(bet.amount as int, FEE_BPS as int)
    &&& bet.revealed <==> bet.side is Some
}

/// What is true of the pool that stands at `index`, and of its bets.
pub open spec fn pool_valid(pool: BetPool, bets: Seq<BetCommit>, index: int) -> bool {
    &&& pool.pool_id == index + 1
    &&& pool.bet_count == bets.len()
    &&& pool.total_pool == total(bets, Tally::Stakes)
    &&& pool.total_fees == total(bets, Tally::Fees)
    &&& pool.player1_total == total(bets, Tally::RevealedOn(BetSide::Player1))
    &&& pool.player2_total == total(bets, Tally::RevealedOn(BetSide::Player2))
    &&& pool.reveal_count == total(bets, Tally::Reveals)
    &&& pool.winner_side is Some <==> pool.status == PoolStatus::Settled
    &&& forall|j: int| 0 <= j < bets.len() ==> bet_valid(#[trigger] bets[j])
    &&& distinct_bettors(bets)
    &&& !pool.status.is_terminal() ==> forall|j: int|
        0 <= j < bets.len() ==> !(#[trigger] bets[j]).claimed
    &&& pool.status == PoolStatus::Refunded ==> forall|j: int|
        0 <= j < bets.len() ==> (#[trigger] bets[j]).claimed
}

/// What the betting contract holds.
pub struct BettingState {
    pub admin: Address,
    pub treasury: Address,
    pub xlm_token: Address,
    /// The verifier contract that settlements by proof go to, once configured.
    pub zk_verifier: Option<Address>,
    /// The verifying key that settlements by proof must name, once configured.
    pub zk_vk_id: Option<[u8; 32]>,
    /// Fees of settled pools that were not yet swept.
    pub fee_accrued: i128,
    /// When fees were last swept, in seconds; 0 for never.
    pub last_sweep_ts: u64,
    /// The pools; the pool with id `n` stands at `n - 1`.
    pub pools: Seq<BetPool>,
    /// For each pool its bets, in the order they were placed.
    pub bets: Seq<Seq<BetCommit>>,
    /// What happened since the events were last taken, oldest first.
    pub events: Seq<Event>,
}

impl BettingState {
    /// The state a new contract starts in.
    pub open spec fn initial(
        admin: Address,
        treasury: Address,
        xlm_token: Address,
    ) -> BettingState {
        BettingState {
            admin,
            treasury,
            xlm_token,
            zk_verifier: None,
            zk_vk_id: None,
            fee_accrued: 0,
            last_sweep_ts: 0,
            pools: Seq::empty(),
            bets: Seq::empty(),
            events: Seq::empty(),
        }
    }

    /// The invariant of the contract: every pool's totals are the sums over its
    /// bets, no bettor has two bets in a pool, a winner is set exactly in settled
    /// pools, bets are claimed only in pools that are settled or refunded, and the
    /// accrued fees are not negative.
    pub open spec fn valid(self) -> bool {
        &&& self.pools.len() == self.bets.len()
        &&& self.pools.len() <= u32::MAX
        &&& self.fee_accrued >= 0
        &&& forall|i: int|
            0 <= i < self.pools.len() ==> pool_valid(#[trigger] self.pools[i], self.bets[i], i)
    }

    pub open spec fn has_pool(self, pool_id: u32) -> bool {
        1 <= pool_id <= self.pools.len()
    }

    pub open spec fn pool(self, pool_id: u32) -> BetPool {
        self.pools[pool_id - 1]
    }

    /// The bets of a pool, in the order they were placed.
    pub open spec fn pool_bets(self, pool_id: u32) -> Seq<BetCommit> {
        self.bets[pool_id - 1]
    }

    /// The state with one pool and its bets replaced.
    pub open spec fn with_pool(
        self,
        pool_id: u32,
        pool: BetPool,
        bets: Seq<BetCommit>,
    ) -> BettingState {
        BettingState {
            pools: self.pools.update(pool_id - 1, pool),
            bets: self.bets.update(pool_id - 1, bets),
            ..self
        }
    }

    /// The state with one more event on record.
    pub open spec fn with_event(self, event: Event) -> BettingState {
        BettingState { events: self.events.push(event), ..self }
    }

    /// The bet of `bettor` in a pool, if the pool exists and holds one.
    pub open spec fn bet_of(self, pool_id: u32, bettor: Address) -> Option<BetCommit> {
        if self.has_pool(pool_id) {
            match bettor_index(self.pool_bets(pool_id), bettor) {
                Some(j) => Some(self.pool_bets(pool_id)[j]),
                None => None,
            }
        } else {
            None
        }
    }

    // ---- create_pool

    /// The pool that `create_pool` adds.
    pub open spec fn new_pool(self, match_id: [u8; 32], deadline_ts: u64) -> BetPool {
        BetPool {
            pool_id: (self.pools.len() + 1) as u32,
            match_id,
            status: PoolStatus::Open,
            player1_total: 0,
            player2_total: 0,
            total_pool: 0,
            total_fees: 0,
            bet_count: 0,
            reveal_count: 0,
            deadline_ts,
            winner_side: None,
        }
    }

    pub open spec fn after_create_pool(self, match_id: [u8; 32], deadline_ts: u64) -> BettingState {
        BettingState {
            pools: self.pools.push(self.new_pool(match_id, deadline_ts)),
            bets: self.bets.push(Seq::empty()),
            events: self.events.push(
                Event::PoolCreated { pool_id: (self.pools.len() + 1) as u32, match_id },
            ),
            ..self
        }
    }

    // ---- commit_bet

    /// Why a deposit is refused, if it is.
    pub open spec fn commit_bet_error(
        self,
        pool_id: u32,
        bettor: Address,
        amount: i128,
        now_ts: u64,
    ) -> Option<Error> {
        if amount < MIN_BET_STROOPS {
            Some(Error::InvalidAmount)
        } else if !self.has_pool(pool_id) {
            Some(Error::PoolNotFound)
        } else if self.pool(pool_id).status != PoolStatus::Open {
            Some(Error::PoolNotOpen)
        } else if self.pool(pool_id).deadline_ts > 0 && now_ts > self.pool(pool_id).deadline_ts {
            Some(Error::BettingDeadlinePassed)
        } else if bettor_index(self.pool_bets(pool_id), bettor) is Some {
            Some(Error::AlreadyCommitted)
        } else {
            None
        }
    }

    /// Whether the numbers of an accepted deposit stay within the machine's
    /// integers. A deposit that is refused forms none.
    pub open spec fn commit_bet_fits(
        self,
        pool_id: u32,
        bettor: Address,
        amount: i128,
        now_ts: u64,
    ) -> bool {
        self.commit_bet_error(pool_id, bettor, amount, now_ts) is None ==> {
            &&& amount * FEE_BPS + 9_999 <= i128::MAX
            &&& self.pool(pool_id).total_pool + amount <= i128::MAX
            &&& self.pool(pool_id).bet_count < u32::MAX
        }
    }

    /// The bet that a deposit records.
    pub open spec fn new_bet(bettor: Address, commitment: [u8; 32], amount: i128) -> BetCommit {
        BetCommit {
            bettor,
            commitment,
            amount,
            fee_paid: fee_for(amount as int, FEE_BPS as int) as i128,
            revealed: false,
            side: None,
            claimed: false,
        }
    }

    pub open spec fn after_commit_bet(
        self,
        pool_id: u32,
        bettor: Address,
        commitment: [u8; 32],
        amount: i128,
        now_ts: u64,
    ) -> BettingState {
        if self.commit_bet_error(pool_id, bettor, amount, now_ts) is Some {
            self
        } else {
            let pool = self.pool(pool_id);
            let bet = Self::new_bet(bettor, commitment, amount);
            self.with_pool(
                pool_id,
                BetPool {
                    total_pool: (pool.total_pool + amount) as i128,
                    total_fees: (pool.total_fees + bet.fee_paid) as i128,
                    bet_count: (pool.bet_count + 1) as u32,
                    ..pool
                },
                self.pool_bets(pool_id).push(bet),
            ).with_event(Event::BetCommitted { pool_id, bettor, amount })
        }
    }

    // ---- lock_pool

    pub open spec fn lock_pool_error(self, pool_id: u32) -> Option<Error> {
        if !self.has_pool(pool_id) {
            Some(Error::PoolNotFound)
        } else if self.pool(pool_id).status != PoolStatus::Open {
            Some(Error::PoolAlreadyLocked)
        } else {
            None
        }
    }

    pub open spec fn after_lock_pool(self, pool_id: u32) -> BettingState {
        if self.lock_pool_error(pool_id) is Some {
            self
        } else {
            self.with_pool(
                pool_id,
                BetPool { status: PoolStatus::Locked, ..self.pool(pool_id) },
                self.pool_bets(pool_id),
            ).with_event(Event::PoolLocked { pool_id, bet_count: self.pool(pool_id).bet_count })
        }
    }

    // ---- reveal_bet

    /// Why a reveal is refused, if it is. A reveal opens the bet exactly when the
    /// commitment on record is the hash of the side's byte followed by the salt.
    pub open spec fn reveal_bet_error(
        self,
        pool_id: u32,
        bettor: Address,
        side: BetSide,
        salt: [u8; 32],
    ) -> Option<Error> {
        if !self.has_pool(pool_id) {
            Some(Error::PoolNotFound)
        } else if self.pool(pool_id).status != PoolStatus::Locked {
            Some(Error::PoolNotLocked)
        } else {
            match self.bet_of(pool_id, bettor) {
                None => Some(Error::BetNotFound),
                Some(bet) => if bet.revealed {
                    Some(Error::AlreadyRevealed)
                } else if commitment_of(side.byte_of(), salt@) != bet.commitment@ {
                    Some(Error::InvalidReveal)
                } else {
                    None
                },
            }
        }
    }

    pub open spec fn after_reveal_bet(
        self,
        pool_id: u32,
        bettor: Address,
        side: BetSide,
        salt: [u8; 32],
    ) -> BettingState {
        if self.reveal_bet_error(pool_id, bettor, side, salt) is Some {
            self
        } else {
            let pool = self.pool(pool_id);
            let bets = self.pool_bets(pool_id);
            let j = bettor_index(bets, bettor)->0;
            let bet = bets[j];
            self.with_pool(
                pool_id,
                BetPool {
                    player1_total: if side == BetSide::Player1 {
                        (pool.player1_total + bet.amount) as i128
                    } else {
                        pool.player1_total
                    },
                    player2_total: if side == BetSide::Player2 {
                        (pool.player2_total + bet.amount) as i128
                    } else {
                        pool.player2_total
                    },
                    reveal_count: (pool.reveal_count + 1) as u32,
                    ..pool
                },
                bets.update(j, BetCommit { revealed: true, side: Some(side), ..bet }),
            ).with_event(Event::BetRevealed { pool_id, bettor, side })
        }
    }

    // ---- settle_pool

    pub open spec fn settle_pool_error(self, pool_id: u32) -> Option<Error> {
        if !self.has_pool(pool_id) {
            Some(Error::PoolNotFound)
        } else if self.pool(pool_id).status.is_terminal() {
            Some(Error::PoolAlreadySettled)
        } else {
            None
        }
    }

    /// Whether the fees of the pool can be added to the accrued fees within `i128`,
    /// where the pool can be settled. Where it cannot, nothing is added.
    pub open spec fn settle_pool_fits(self, pool_id: u32) -> bool {
        self.settle_pool_error(pool_id) is None ==> self.fee_accrued + self.pool(
            pool_id,
        ).total_fees <= i128::MAX
    }

    pub open spec fn after_settle_pool(self, pool_id: u32, winner: BetSide) -> BettingState {
        if self.settle_pool_error(pool_id) is Some {
            self
        } else {
            let pool = self.pool(pool_id);
            BettingState {
                fee_accrued: (self.fee_accrued + pool.total_fees) as i128,
                ..self.with_pool(
                    pool_id,
                    BetPool { status: PoolStatus::Settled, winner_side: Some(winner), ..pool },
                    self.pool_bets(pool_id),
                )
            }.with_event(Event::PoolSettled { pool_id, winner })
        }
    }

    // ---- settle_pool_zk

    /// Whether the public inputs of a proof name this match, this pool and this
    /// winner: the first input is the match identifier, the second the pool id and
    /// the third the winner's byte, both as 32-byte big-endian words.
    pub open spec fn inputs_bind(
        match_id: [u8; 32],
        pool_id: u32,
        winner: BetSide,
        public_inputs: Seq<[u8; 32]>,
    ) -> bool {
        &&& public_inputs.len() >= 3
        &&& public_inputs[0] == match_id
        &&& public_inputs[1]@ == be_word(pool_id)
        &&& public_inputs[2]@ == be_word(winner.byte_of() as u32)
    }

    /// Why a settlement by proof is refused before the verifier is asked, if it is.
    pub open spec fn settle_request_error(
        self,
        pool_id: u32,
        winner: BetSide,
        vk_id: [u8; 32],
        proof: Seq<u8>,
        public_inputs: Seq<[u8; 32]>,
    ) -> Option<Error> {
        if self.zk_verifier is None || self.zk_vk_id is None {
            Some(Error::ZkVerifierNotConfigured)
        } else if vk_id != self.zk_vk_id->0 {
            Some(Error::ZkProofInvalid)
        } else if proof.len() != 256 || public_inputs.len() < 1 {
            Some(Error::ZkProofInvalid)
        } else if self.has_pool(pool_id) && !Self::inputs_bind(
            self.pool(pool_id).match_id,
            pool_id,
            winner,
            public_inputs,
        ) {
            Some(Error::ZkProofInvalid)
        } else {
            None
        }
    }

    /// Why a settlement by proof is refused, if it is, where `verified` is the
    /// verifier's answer to the proof.
    pub open spec fn settle_pool_zk_error(
        self,
        pool_id: u32,
        winner: BetSide,
        vk_id: [u8; 32],
        proof: Seq<u8>,
        public_inputs: Seq<[u8; 32]>,
        verified: bool,
    ) -> Option<Error> {
        if self.settle_request_error(pool_id, winner, vk_id, proof, public_inputs) is Some {
            self.settle_request_error(pool_id, winner, vk_id, proof, public_inputs)
        } else if !verified {
            Some(Error::ZkProofInvalid)
        } else {
            self.settle_pool_error(pool_id)
        }
    }

    /// Whether the fees of the pool can be added to the accrued fees within `i128`,
    /// where the settlement by proof is accepted. Where it is refused, nothing is
    /// added.
    pub open spec fn settle_pool_zk_fits(
        self,
        pool_id: u32,
        winner: BetSide,
        vk_id: [u8; 32],
        proof: Seq<u8>,
        public_inputs: Seq<[u8; 32]>,
        verified: bool,
    ) -> bool {
        self.settle_pool_zk_error(pool_id, winner, vk_id, proof, public_inputs, verified) is None
            ==> self.fee_accrued + self.pool(pool_id).total_fees <= i128::MAX
    }

    pub open spec fn after_settle_pool_zk(
        self,
        pool_id: u32,
        winner: BetSide,
        vk_id: [u8; 32],
        proof: Seq<u8>,
        public_inputs: Seq<[u8; 32]>,
        verified: bool,
    ) -> BettingState {
        if self.settle_pool_zk_error(pool_id, winner, vk_id, proof, public_inputs, verified) is Some {
            self
        } else {
            self.after_settle_pool(pool_id, winner)
        }
    }

    // ---- claim_payout

    /// Why a claim pays nothing, if it does. `NoPayout` is the one refusal that
    /// changes the state: the bet is forfeited and marked as claimed.
    pub open spec fn claim_payout_error(self, pool_id: u32, bettor: Address) -> Option<Error> {
        if !self.has_pool(pool_id) {
            Some(Error::PoolNotFound)
        } else if self.pool(pool_id).status != PoolStatus::Settled {
            Some(Error::PoolNotSettled)
        } else {
            match self.bet_of(pool_id, bettor) {
                None => Some(Error::BetNotFound),
                Some(bet) => if bet.claimed {
                    Some(Error::AlreadyClaimed)
                } else if self.pool(pool_id).winner_side is None {
                    Some(Error::InvalidWinner)
                } else if !bet.revealed || bet.side != self.pool(pool_id).winner_side {
                    Some(Error::NoPayout)
                } else {
                    None
                },
            }
        }
    }

    /// What a claim pays out of escrow: twice the stake to a revealed bet on the
    /// winning side, nothing otherwise.
    pub open spec fn claim_payout_amount(self, pool_id: u32, bettor: Address) -> int {
        if self.claim_payout_error(pool_id, bettor) is None {
            2 * self.bet_of(pool_id, bettor)->0.amount
        } else {
            0
        }
    }

    pub open spec fn after_claim_payout(self, pool_id: u32, bettor: Address) -> BettingState {
        let error = self.claim_payout_error(pool_id, bettor);
        if error is None || error == Some(Error::NoPayout) {
            let bets = self.pool_bets(pool_id);
            let j = bettor_index(bets, bettor)->0;
            let claimed = self.with_pool(
                pool_id,
                self.pool(pool_id),
                bets.update(j, BetCommit { claimed: true, ..bets[j] }),
            );
            if error is None {
                claimed.with_event(
                    Event::PayoutClaimed {
                        pool_id,
                        bettor,
                        payout: self.claim_payout_amount(pool_id, bettor) as i128,
                    },
                )
            } else {
                claimed
            }
        } else {
            self
        }
    }

    // ---- refund_pool

    pub open spec fn refund_pool_error(self, pool_id: u32) -> Option<Error> {
        self.settle_pool_error(pool_id)
    }

    pub open spec fn after_refund_pool(self, pool_id: u32) -> BettingState {
        if self.refund_pool_error(pool_id) is Some {
            self
        } else {
            self.with_pool(
                pool_id,
                BetPool { status: PoolStatus::Refunded, ..self.pool(pool_id) },
                all_claimed(self.pool_bets(pool_id)),
            ).with_event(Event::PoolRefunded { pool_id, bet_count: self.pool(pool_id).bet_count })
        }
    }

    // ---- sweep_treasury

    pub open spec fn sweep_treasury_error(self, now_ts: u64) -> Option<Error> {
        if self.last_sweep_ts > 0 && now_ts - self.last_sweep_ts < SWEEP_INTERVAL_SECONDS {
            Some(Error::SweepTooEarly)
        } else if self.fee_accrued <= 0 {
            Some(Error::NothingToSweep)
        } else {
            None
        }
    }

    pub open spec fn after_sweep_treasury(self, now_ts: u64) -> BettingState {
        if self.sweep_treasury_error(now_ts) is Some {
            self
        } else {
            BettingState { fee_accrued: 0, last_sweep_ts: now_ts, ..self }
        }
    }

    // ---- escrow accounting

    /// What the bettors of a pool have paid into escrow: stakes and fees.
    pub open spec fn escrow_in(self, pool_id: u32) -> int {
        total(self.pool_bets(pool_id), Tally::Stakes) + total(self.pool_bets(pool_id), Tally::Fees)
    }

    /// What has left escrow for the bettors of a pool: the payouts claimed in a
    /// settled pool, the refunds in a refunded one.
    pub open spec fn escrow_out(self, pool_id: u32) -> int {
        match self.pool(pool_id).status {
            PoolStatus::Settled => match self.pool(pool_id).winner_side {
                Some(winner) => total(self.pool_bets(pool_id), Tally::Payouts(winner)),
                None => 0,
            },
            PoolStatus::Refunded => total(self.pool_bets(pool_id), Tally::Refunds),
            _ => 0,
        }
    }
}

/// Why a call is refused: because `caller` is not the principal that the call
/// needs, or else for the reason `otherwise`.
pub open spec fn unless_authorized(
    caller: Address,
    principal: Address,
    otherwise: Option<Error>,
) -> Option<Error> {
    if caller != principal {
        Some(Error::Unauthorized)
    } else {
        otherwise
    }
}

/// What a call answers that needs no more than the right caller.
pub open spec fn unauthorized_or_done(caller: Address, principal: Address) -> Result<(), Error> {
    if caller != principal {
        Err(Error::Unauthorized)
    } else {
        Ok(())
    }
}

/// One call of the contract that can change what it holds, made by the principal
/// that the call needs: the admin, or the bettor for the bettor's own deposit,
/// reveal and claim.
pub enum Operation {
    CreatePool { match_id: [u8; 32], deadline_ts: u64 },
    CommitBet { pool_id: u32, bettor: Address, commitment: [u8; 32], amount: i128, now_ts: u64 },
    LockPool { pool_id: u32 },
    RevealBet { pool_id: u32, bettor: Address, side: BetSide, salt: [u8; 32] },
    SettlePool { pool_id: u32, winner: BetSide },
    /// A settlement by proof, with the verifier's answer.
    SettlePoolZk {
        pool_id: u32,
        winner: BetSide,
        vk_id: [u8; 32],
        proof: Seq<u8>,
        public_inputs: Seq<[u8; 32]>,
        verified: bool,
    },
    ClaimPayout { pool_id: u32, bettor: Address },
    RefundPool { pool_id: u32 },
    SweepTreasury { now_ts: u64 },
}

impl BettingState {
    /// Whether the numbers that `operation` forms, where it is accepted, stay
    /// within the machine's integers. An operation that is refused forms none.
    pub open spec fn fits(self, operation: Operation) -> bool {
        match operation {
            Operation::CreatePool { .. } => self.pools.len() < u32::MAX,
            Operation::CommitBet { pool_id, bettor, amount, now_ts, .. } => self.commit_bet_fits(
                pool_id,
                bettor,
                amount,
                now_ts,
            ),
            Operation::SettlePool { pool_id, .. } => self.settle_pool_fits(pool_id),
            Operation::SettlePoolZk {
                pool_id,
                winner,
                vk_id,
                proof,
                public_inputs,
                verified,
            } => self.settle_pool_zk_fits(pool_id, winner, vk_id, proof, public_inputs, verified),
            _ => true,
        }
    }

    /// The state that `operation` leaves behind.
    pub open spec fn after(self, operation: Operation) -> BettingState {
        match operation {
            Operation::CreatePool { match_id, deadline_ts } => self.after_create_pool(
                match_id,
                deadline_ts,
            ),
            Operation::CommitBet {
                pool_id,
                bettor,
                commitment,
                amount,
                now_ts,
            } => self.after_commit_bet(pool_id, bettor, commitment, amount, now_ts),
            Operation::LockPool { pool_id } => self.after_lock_pool(pool_id),
            Operation::RevealBet { pool_id, bettor, side, salt } => self.after_reveal_bet(
                pool_id,
                bettor,
                side,
                salt,
            ),
            Operation::SettlePool { pool_id, winner } => self.after_settle_pool(pool_id, winner),
            Operation::SettlePoolZk {
                pool_id,
                winner,
                vk_id,
                proof,
                public_inputs,
                verified,
            } => self.after_settle_pool_zk(pool_id, winner, vk_id, proof, public_inputs, verified),
            Operation::ClaimPayout { pool_id, bettor } => self.after_claim_payout(pool_id, bettor),
            Operation::RefundPool { pool_id } => self.after_refund_pool(pool_id),
            Operation::SweepTreasury { now_ts } => self.after_sweep_treasury(now_ts),
        }
    }

    /// The state that the operations of `operations` leave behind, made one after
    /// the other.
    pub open spec fn after_all(self, operations: Seq<Operation>) -> BettingState
        decreases operations.len(),
    {
        if operations.len() == 0 {
            self
        } else {
            self.after_all(operations.drop_last()).after(operations.last())
        }
    }

    /// What `operation` asks the bettors of the pool `pool_id` to pay into escrow:
    /// stake and fee of a deposit that is accepted.
    pub open spec fn paid_in(self, operation: Operation, pool_id: u32) -> int {
        match operation {
            Operation::CommitBet { pool_id: target, bettor, amount, now_ts, .. } => if target
                == pool_id && self.commit_bet_error(target, bettor, amount, now_ts) is None {
                amount + fee_for(amount as int, FEE_BPS as int)
            } else {
                0
            },
            _ => 0,
        }
    }

    /// What `operation` pays out of escrow to the bettors of the pool `pool_id`:
    /// the payout of a claim, or all that a refund owes.
    pub open spec fn paid_out(self, operation: Operation, pool_id: u32) -> int {
        match operation {
            Operation::ClaimPayout { pool_id: target, bettor } => if target == pool_id {
                self.claim_payout_amount(target, bettor)
            } else {
                0
            },
            Operation::RefundPool { pool_id: target } => if target == pool_id
                && self.refund_pool_error(target) is None {
                payments_sum(refunds_due(self.pool_bets(target)))
            } else {
                0
            },
            _ => 0,
        }
    }
}

/// A call of `claim_payout`, or of `admin_claim_payout` where `by_admin` holds,
/// made by `caller`.
pub struct ClaimCall {
    pub caller: Address,
    pub by_admin: bool,
}

impl BettingState {
    /// Whether `call` comes from whom it must come from: a claim from the bettor, a
    /// claim on the admin's word from the admin.
    pub open spec fn claim_call_authorized(self, call: ClaimCall, bettor: Address) -> bool {
        call.caller == if call.by_admin {
            self.admin
        } else {
            bettor
        }
    }

    /// What `call` pays the bettor `bettor` of the pool `pool_id`.
    pub open spec fn claim_call_paid(self, call: ClaimCall, pool_id: u32, bettor: Address) -> int {
        if self.claim_call_authorized(call, bettor) {
            self.claim_payout_amount(pool_id, bettor)
        } else {
            0
        }
    }

    /// Whether `call` succeeds for the bettor `bettor` of the pool `pool_id`.
    pub open spec fn claim_call_succeeds(
        self,
        call: ClaimCall,
        pool_id: u32,
        bettor: Address,
    ) -> bool {
        self.claim_call_authorized(call, bettor) && self.claim_payout_error(pool_id, bettor) is None
    }

    /// Whether `call` marks the bet as claimed: it succeeds, or it finds the bet
    /// forfeited and answers `NoPayout`.
    pub open spec fn claim_call_marks(self, call: ClaimCall, pool_id: u32, bettor: Address) -> bool {
        self.claim_call_authorized(call, bettor) && (self.claim_payout_error(pool_id, bettor)
            is None || self.claim_payout_error(pool_id, bettor) == Some(Error::NoPayout))
    }

    /// The state that `call` leaves behind.
    pub open spec fn after_claim_call(
        self,
        call: ClaimCall,
        pool_id: u32,
        bettor: Address,
    ) -> BettingState {
        if self.claim_call_authorized(call, bettor) {
            self.after_claim_payout(pool_id, bettor)
        } else {
            self
        }
    }

    /// The state that the calls of `calls` leave behind, made one after the other
    /// for the bettor `bettor` of the pool `pool_id`.
    pub open spec fn after_claim_calls(
        self,
        calls: Seq<ClaimCall>,
        pool_id: u32,
        bettor: Address,
    ) -> BettingState
        decreases calls.len(),
    {
        if calls.len() == 0 {
            self
        } else {
            self.after_claim_calls(calls.drop_last(), pool_id, bettor).after_claim_call(
                calls.last(),
                pool_id,
                bettor,
            )
        }
    }

    /// How many of the calls of `calls` succeed, made one after the other.
    pub open spec fn claim_calls_succeeding(
        self,
        calls: Seq<ClaimCall>,
        pool_id: u32,
        bettor: Address,
    ) -> int
        decreases calls.len(),
    {
        if calls.len() == 0 {
            0
        } else {
            let before = self.after_claim_calls(calls.drop_last(), pool_id, bettor);
            self.claim_calls_succeeding(calls.drop_last(), pool_id, bettor) + if before.claim_call_succeeds(
                calls.last(),
                pool_id,
                bettor,
            ) {
                1int
            } else {
                0int
            }
        }
    }

    /// How many of the calls of `calls` mark the bet as claimed, made one after the
    /// other.
    pub open spec fn claim_calls_marking(
        self,
        calls: Seq<ClaimCall>,
        pool_id: u32,
        bettor: Address,
    ) -> int
        decreases calls.len(),
    {
        if calls.len() == 0 {
            0
        } else {
            let before = self.after_claim_calls(calls.drop_last(), pool_id, bettor);
            self.claim_calls_marking(calls.drop_last(), pool_id, bettor) + if before.claim_call_marks(
                calls.last(),
                pool_id,
                bettor,
            ) {
                1int
            } else {
                0int
            }
        }
    }

    /// What the calls of `calls` pay the bettor in all, made one after the other.
    pub open spec fn claim_calls_paid(
        self,
        calls: Seq<ClaimCall>,
        pool_id: u32,
        bettor: Address,
    ) -> int
        decreases calls.len(),
    {
        if calls.len() == 0 {
            0
        } else {
            let before = self.after_claim_calls(calls.drop_last(), pool_id, bettor);
            self.claim_calls_paid(calls.drop_last(), pool_id, bettor) + before.claim_call_paid(
                calls.last(),
                pool_id,
                bettor,
            )
        }
    }
}

} // verus!
