//! The betting contract.

use vstd::prelude::*;
use crate::commitment::opens;
use crate::fees::{fee, fee_for};
use crate::primitives::{Address, bytes_eq, u32_to_bytes32};
use crate::zk_betting::checks::pool_is_valid;
use crate::zk_betting::laws::{
    law_escrow_in_grows_by_deposits, law_escrow_in_is_pool_and_fees,
    law_escrow_out_grows_by_payments, law_escrow_out_within_escrow_in,
};
use crate::zk_betting::model::{
    BettingState, Operation, all_claimed, bet_valid, bettor_index, distinct_bettors,
    payments_sum, pool_valid, refunds_due, unauthorized_or_done, unless_authorized,
};
use crate::zk_betting::tallies::lemma_tallies_ordered;
use crate::zk_betting::types::{
    BetCommit, BetPool, BetSide, Error, Event, FEE_BPS, MIN_BET_STROOPS, Payment, PoolStatus,
    SWEEP_INTERVAL_SECONDS,
};
use crate::zk_betting::validity::{
    lemma_claim_payout_keeps_valid, lemma_commit_bet_keeps_valid, lemma_refund_pool_keeps_valid,
    lemma_reveal_bet_keeps_valid, lemma_settle_pool_keeps_valid,
};

verus! {

/// A contract that checks proofs of match outcomes.
pub trait ZkVerifier {
    /// What the contract, as it stands, answers to a request to verify `proof` for
    /// `public_inputs` under the verifying key `vk_id`. An implementation says what
    /// that is; of one that does not, nothing is known but that its answer is this.
    open spec fn answers(&self, vk_id: [u8; 32], proof: Seq<u8>, public_inputs: Seq<[u8; 32]>) -> bool {
        arbitrary()
    }

    /// Whether `proof` is valid for `public_inputs` under the verifying key `vk_id`.
    /// The contract may take note of the request.
    fn verify_round_proof(
        &mut self,
        vk_id: &[u8; 32],
        proof: &Vec<u8>,
        public_inputs: &Vec<[u8; 32]>,
    ) -> (ok: bool)
        ensures
            ok == old(self).answers(*vk_id, proof@, public_inputs@),
    ;
}

/// The betting contract: its configuration, its pools and their bets.
pub struct ZkBettingContract {
    admin: Address,
    treasury: Address,
    xlm_token: Address,
    zk_verifier: Option<Address>,
    zk_vk_id: Option<[u8; 32]>,
    fee_accrued: i128,
    last_sweep_ts: u64,
    pools: Vec<BetPool>,
    bets: Vec<Vec<BetCommit>>,
    events: Vec<Event>,
}

impl View for ZkBettingContract {
    type V = BettingState;

    closed spec fn view(&self) -> BettingState {
        BettingState {
            admin: self.admin,
            treasury: self.treasury,
            xlm_token: self.xlm_token,
            zk_verifier: self.zk_verifier,
            zk_vk_id: self.zk_vk_id,
            fee_accrued: self.fee_accrued,
            last_sweep_ts: self.last_sweep_ts,
            pools: self.pools@,
            bets: Seq::new(self.bets@.len(), |i: int| self.bets@[i]@),
            events: self.events@,
        }
    }
}

/// Everything the betting contract holds, as plain records.
pub struct BettingSnapshot {
    pub admin: Address,
    pub treasury: Address,
    pub xlm_token: Address,
    pub zk_verifier: Option<Address>,
    pub zk_vk_id: Option<[u8; 32]>,
    pub fee_accrued: i128,
    pub last_sweep_ts: u64,
    /// The pools; the pool with id `n` stands at `n - 1`.
    pub pools: Vec<BetPool>,
    /// For each pool its bets, in the order they were placed.
    pub bets: Vec<Vec<BetCommit>>,
    /// What happened since the events were last taken, oldest first.
    pub events: Vec<Event>,
}

impl View for BettingSnapshot {
    type V = BettingState;

    open spec fn view(&self) -> BettingState {
        BettingState {
            admin: self.admin,
            treasury: self.treasury,
            xlm_token: self.xlm_token,
            zk_verifier: self.zk_verifier,
            zk_vk_id: self.zk_vk_id,
            fee_accrued: self.fee_accrued,
            last_sweep_ts: self.last_sweep_ts,
            pools: self.pools@,
            bets: Seq::new(self.bets@.len(), |i: int| self.bets@[i]@),
            events: self.events@,
        }
    }
}

/// Looks for the bet of `bettor` among `bets`.
fn find_bet(bets: &Vec<BetCommit>, bettor: &Address) -> (found: Option<usize>)
    requires
        distinct_bettors(bets@),
    ensures
        found matches Some(j) ==> bettor_index(bets@, *bettor) == Some(j as int) && j < bets.len()
            && bets@[j as int].bettor == *bettor,
        found is None ==> bettor_index(bets@, *bettor) is None,
{
    let mut j: usize = 0;
    while j < bets.len()
        invariant
            j <= bets.len(),
            forall|k: int| 0 <= k < j ==> (#[trigger] bets@[k]).bettor != *bettor,
            distinct_bettors(bets@),
        decreases bets.len() - j,
    {
        if bets[j].bettor.same_as(bettor) {
            return Some(j);
        }
        j += 1;
    }
    None
}

/// Marks every bet as claimed and lists what is owed on those that were not.
fn refund_all(bets: &mut Vec<BetCommit>) -> (payments: Vec<Payment>)
    requires
        forall|j: int| 0 <= j < old(bets).len() ==> bet_valid(#[trigger] old(bets)@[j]),
    ensures
        final(bets)@ == all_claimed(old(bets)@),
        payments@ == refunds_due(old(bets)@),
{
    let mut payments: Vec<Payment> = Vec::new();
    let mut j: usize = 0;
    while j < bets.len()
        invariant
            j <= bets.len(),
            bets.len() == old(bets).len(),
            forall|k: int| 0 <= k < old(bets).len() ==> bet_valid(#[trigger] old(bets)@[k]),
            forall|k: int|
                0 <= k < j ==> #[trigger] bets@[k] == (BetCommit {
                    claimed: true,
                    ..old(bets)@[k]
                }),
            forall|k: int| j <= k < bets.len() ==> #[trigger] bets@[k] == old(bets)@[k],
            payments@ == refunds_due(old(bets)@.take(j as int)),
        decreases bets.len() - j,
    {
        let bet = bets[j];
        proof {
            assert(old(bets)@.take(j + 1).drop_last() =~= old(bets)@.take(j as int));
        }
        if !bet.claimed {
            payments.push(Payment { to: bet.bettor, amount: bet.amount + bet.fee_paid });
            bets[j].claimed = true;
        }
        j += 1;
    }
    proof {
        assert(old(bets)@.take(j as int) =~= old(bets)@);
    }
    payments
}

impl ZkBettingContract {
    /// A contract without pools, run by `admin`, that sweeps its fees to `treasury`
    /// and holds its escrow in the token `xlm_token`.
    pub fn new(
        admin: Address,
        treasury: Address,
        xlm_token: Address,
    ) -> (contract: ZkBettingContract)
        ensures
            contract@ == BettingState::initial(admin, treasury, xlm_token),
            contract@.valid(),
    {
        let contract = ZkBettingContract {
            admin,
            treasury,
            xlm_token,
            zk_verifier: None,
            zk_vk_id: None,
            fee_accrued: 0,
            last_sweep_ts: 0,
            pools: Vec::new(),
            bets: Vec::new(),
            events: Vec::new(),
        };
        assert(contract@.bets =~= Seq::empty());
        contract
    }

    /// The contract that holds what `snapshot` holds, where that is a valid
    /// state.
    pub fn from_snapshot(snapshot: BettingSnapshot) -> (restored: Option<ZkBettingContract>)
        ensures
            match restored {
                Some(contract) => contract@ == snapshot@ && contract@.valid(),
                None => !snapshot@.valid(),
            },
    {
        if snapshot.pools.len() != snapshot.bets.len() || snapshot.pools.len() > u32::MAX as usize
            || snapshot.fee_accrued < 0 {
            return None;
        }
        let mut index: usize = 0;
        while index < snapshot.pools.len()
            invariant
                index <= snapshot.pools.len() == snapshot.bets.len() <= u32::MAX,
                forall|i: int|
                    0 <= i < index ==> pool_valid(
                        #[trigger] snapshot@.pools[i],
                        snapshot@.bets[i],
                        i,
                    ),
            decreases snapshot.pools.len() - index,
        {
            if !pool_is_valid(&snapshot.pools[index], &snapshot.bets[index], index) {
                return None;
            }
            index += 1;
        }
        let contract = ZkBettingContract {
            admin: snapshot.admin,
            treasury: snapshot.treasury,
            xlm_token: snapshot.xlm_token,
            zk_verifier: snapshot.zk_verifier,
            zk_vk_id: snapshot.zk_vk_id,
            fee_accrued: snapshot.fee_accrued,
            last_sweep_ts: snapshot.last_sweep_ts,
            pools: snapshot.pools,
            bets: snapshot.bets,
            events: snapshot.events,
        };
        Some(contract)
    }

    /// Everything the contract holds, as plain records.
    pub fn into_snapshot(self) -> (snapshot: BettingSnapshot)
        ensures
            snapshot@ == self@,
    {
        BettingSnapshot {
            admin: self.admin,
            treasury: self.treasury,
            xlm_token: self.xlm_token,
            zk_verifier: self.zk_verifier,
            zk_vk_id: self.zk_vk_id,
            fee_accrued: self.fee_accrued,
            last_sweep_ts: self.last_sweep_ts,
            pools: self.pools,
            bets: self.bets,
            events: self.events,
        }
    }

    /// Hands out the events on record, oldest first, and clears the record.
    pub fn take_events(&mut self) -> (events: Vec<Event>)
        ensures
            events@ == old(self)@.events,
            final(self)@ == (BettingState { events: Seq::empty(), ..old(self)@ }),
            old(self)@.valid() ==> final(self)@.valid(),
    {
        let mut events: Vec<Event> = Vec::new();
        std::mem::swap(&mut events, &mut self.events);
        events
    }

    /// Whether one more pool can be numbered within `u32`.
    pub fn create_pool_fits(&self) -> (fits: bool)
        requires
            self@.valid(),
        ensures
            fits == (self@.pools.len() < u32::MAX),
    {
        self.pools.len() < u32::MAX as usize
    }

    /// Checks a deposit. Gives the place of the pool that takes it.
    fn check_commit_bet(&self, pool_id: u32, bettor: &Address, amount: i128, now_ts: u64) -> (result:
        Result<usize, Error>)
        requires
            self@.valid(),
        ensures
            result == match self@.commit_bet_error(pool_id, *bettor, amount, now_ts) {
                Some(error) => Err::<usize, Error>(error),
                None => Ok((pool_id - 1) as usize),
            },
            result is Ok ==> self@.has_pool(pool_id),
    {
        if amount < MIN_BET_STROOPS {
            return Err(Error::InvalidAmount);
        }
        let index = match self.pool_index(pool_id) {
            Some(index) => index,
            None => {
                return Err(Error::PoolNotFound);
            },
        };
        let pool = self.pools[index];
        match pool.status {
            PoolStatus::Open => {},
            _ => {
                return Err(Error::PoolNotOpen);
            },
        }
        if pool.deadline_ts > 0 && now_ts > pool.deadline_ts {
            return Err(Error::BettingDeadlinePassed);
        }
        if find_bet(&self.bets[index], bettor).is_some() {
            return Err(Error::AlreadyCommitted);
        }
        Ok(index)
    }

    /// Whether the numbers of a deposit of `amount` by `bettor` into the pool
    /// `pool_id` stay within the machine's integers, where the deposit is accepted
    /// at the time `now_ts`. A deposit that is refused forms none.
    pub fn commit_bet_fits(&self, pool_id: u32, bettor: Address, amount: i128, now_ts: u64) -> (fits:
        bool)
        requires
            self@.valid(),
        ensures
            fits == self@.commit_bet_fits(pool_id, bettor, amount, now_ts),
    {
        match self.check_commit_bet(pool_id, &bettor, amount, now_ts) {
            Ok(index) => {
                let pool = self.pools[index];
                amount <= (i128::MAX - 9_999) / 100 && pool.total_pool <= i128::MAX - amount
                    && pool.bet_count < u32::MAX
            },
            Err(_) => true,
        }
    }

    /// The place of the pool `pool_id`, where the pool can be settled.
    fn check_settle_pool(&self, pool_id: u32) -> (result: Result<usize, Error>)
        ensures
            result == match self@.settle_pool_error(pool_id) {
                Some(error) => Err::<usize, Error>(error),
                None => Ok((pool_id - 1) as usize),
            },
            result is Ok ==> self@.has_pool(pool_id),
    {
        let index = match self.pool_index(pool_id) {
            Some(index) => index,
            None => {
                return Err(Error::PoolNotFound);
            },
        };
        match self.pools[index].status {
            PoolStatus::Settled => Err(Error::PoolAlreadySettled),
            PoolStatus::Refunded => Err(Error::PoolAlreadySettled),
            _ => Ok(index),
        }
    }

    /// Whether the fees of the pool `pool_id` can be added to the accrued fees
    /// within `i128`, where the pool can be settled.
    pub fn settle_pool_fits(&self, pool_id: u32) -> (fits: bool)
        requires
            self@.valid(),
        ensures
            fits == self@.settle_pool_fits(pool_id),
    {
        match self.check_settle_pool(pool_id) {
            Ok(index) => {
                proof {
                    assert(pool_valid(
                        self@.pools[index as int],
                        self@.bets[index as int],
                        index as int,
                    ));
                    lemma_tallies_ordered(
                        self@.bets[index as int],
                        BetSide::Player1,
                    );
                }
                self.fee_accrued <= i128::MAX - self.pools[index].total_fees
            },
            Err(_) => true,
        }
    }

    /// Whether the fees of the pool `pool_id` can be added to the accrued fees
    /// within `i128`, where the settlement by proof is accepted once the verifier
    /// accepts the proof.
    pub fn settle_pool_zk_fits(
        &self,
        pool_id: u32,
        winner: BetSide,
        vk_id: [u8; 32],
        proof: &Vec<u8>,
        public_inputs: &Vec<[u8; 32]>,
    ) -> (fits: bool)
        requires
            self@.valid(),
        ensures
            fits == self@.settle_pool_zk_fits(
                pool_id,
                winner,
                vk_id,
                proof@,
                public_inputs@,
                true,
            ),
    {
        match self.check_settle_request(pool_id, winner, &vk_id, proof, public_inputs) {
            Ok(()) => self.settle_pool_fits(pool_id),
            Err(_) => true,
        }
    }

    /// Where the pool `pool_id` stands, if it exists.
    fn pool_index(&self, pool_id: u32) -> (found: Option<usize>)
        ensures
            found matches Some(index) ==> self@.has_pool(pool_id) && index == pool_id - 1,
            found is None ==> !self@.has_pool(pool_id),
    {
        if pool_id == 0 || pool_id as usize > self.pools.len() {
            None
        } else {
            Some((pool_id - 1) as usize)
        }
    }

    /// Opens a pool on the match `match_id` and returns its id, one more than the
    /// last. Betting closes at `deadline_ts`, or never where that is 0. Only the
    /// admin opens pools.
    pub fn create_pool(&mut self, caller: Address, match_id: [u8; 32], deadline_ts: u64) -> (result:
        Result<u32, Error>)
        requires
            old(self)@.valid(),
            caller == old(self)@.admin ==> old(self)@.pools.len() < u32::MAX,
        ensures
            result == if caller == old(self)@.admin {
                Ok::<u32, Error>((old(self)@.pools.len() + 1) as u32)
            } else {
                Err(Error::Unauthorized)
            },
            final(self)@ == if caller == old(self)@.admin {
                old(self)@.after_create_pool(match_id, deadline_ts)
            } else {
                old(self)@
            },
            final(self)@.valid(),
    {
        if !caller.same_as(&self.admin) {
            return Err(Error::Unauthorized);
        }
        let counter: u32 = self.pools.len() as u32 + 1;
        let pool = BetPool {
            pool_id: counter,
            match_id,
            status: PoolStatus::Open,
            player1_total: 0,
            player2_total: 0,
            total_pool: 0,
            total_fees: 0,
            bet_count: 0,
            reveal_count: 0,
            deadline_ts,
            winner_side: None,
        };
        self.pools.push(pool);
        self.bets.push(Vec::new());
        self.events.push(Event::PoolCreated { pool_id: counter, match_id });
        proof {
            assert(self@.bets =~= old(self)@.bets.push(Seq::empty()));
        }
        Ok(counter)
    }

    /// Takes a bet of `amount` from `bettor` under the commitment `commitment`, at
    /// the time `now_ts`. Returns what the bettor owes to escrow: the stake and the
    /// fee on it. Only the bettor places the bettor's bet.
    pub fn commit_bet(
        &mut self,
        caller: Address,
        pool_id: u32,
        bettor: Address,
        commitment: [u8; 32],
        amount: i128,
        now_ts: u64,
    ) -> (result: Result<i128, Error>)
        requires
            old(self)@.valid(),
            caller == bettor ==> old(self)@.commit_bet_fits(pool_id, bettor, amount, now_ts),
        ensures
            result == match unless_authorized(
                caller,
                bettor,
                old(self)@.commit_bet_error(pool_id, bettor, amount, now_ts),
            ) {
                Some(error) => Err::<i128, Error>(error),
                None => Ok((amount + fee_for(amount as int, FEE_BPS as int)) as i128),
            },
            final(self)@ == if caller == bettor {
                old(self)@.after_commit_bet(pool_id, bettor, commitment, amount, now_ts)
            } else {
                old(self)@
            },
            final(self)@.valid(),
    {
        if !caller.same_as(&bettor) {
            return Err(Error::Unauthorized);
        }
        let index = match self.check_commit_bet(pool_id, &bettor, amount, now_ts) {
            Ok(index) => index,
            Err(error) => {
                return Err(error);
            },
        };
        let pool = self.pools[index];
        proof {
            lemma_commit_bet_keeps_valid(old(self)@, pool_id, bettor, commitment, amount, now_ts);
        }
        let fee_paid = fee(amount, FEE_BPS);
        let required = amount + fee_paid;
        let bet = BetCommit {
            bettor,
            commitment,
            amount,
            fee_paid,
            revealed: false,
            side: None,
            claimed: false,
        };
        self.bets[index].push(bet);
        self.pools[index].total_pool = pool.total_pool + amount;
        self.pools[index].total_fees = pool.total_fees + fee_paid;
        self.pools[index].bet_count = pool.bet_count + 1;
        self.events.push(Event::BetCommitted { pool_id, bettor, amount });
        proof {
            let expected = old(self)@.after_commit_bet(pool_id, bettor, commitment, amount, now_ts);
            assert(self@.pools =~= expected.pools);
            assert(self@.bets =~= expected.bets);
        }
        Ok(required)
    }

    /// Closes a pool to new bets. Only the admin locks pools. What the bettors have
    /// paid into escrow for the pool is then its stakes and fees.
    pub fn lock_pool(&mut self, caller: Address, pool_id: u32) -> (result: Result<(), Error>)
        requires
            old(self)@.valid(),
        ensures
            result == match unless_authorized(
                caller,
                old(self)@.admin,
                old(self)@.lock_pool_error(pool_id),
            ) {
                Some(error) => Err::<(), Error>(error),
                None => Ok(()),
            },
            final(self)@ == if caller == old(self)@.admin {
                old(self)@.after_lock_pool(pool_id)
            } else {
                old(self)@
            },
            final(self)@.valid(),
            result is Ok ==> final(self)@.escrow_in(pool_id) == final(self)@.pool(pool_id).total_pool
                + final(self)@.pool(pool_id).total_fees,
    {
        if !caller.same_as(&self.admin) {
            return Err(Error::Unauthorized);
        }
        let index = match self.pool_index(pool_id) {
            Some(index) => index,
            None => {
                return Err(Error::PoolNotFound);
            },
        };
        match self.pools[index].status {
            PoolStatus::Open => {},
            _ => {
                return Err(Error::PoolAlreadyLocked);
            },
        }
        self.pools[index].status = PoolStatus::Locked;
        self.events.push(Event::PoolLocked { pool_id, bet_count: self.pools[index].bet_count });
        proof {
            let expected = old(self)@.after_lock_pool(pool_id);
            assert(self@.bets =~= expected.bets);
            law_escrow_in_is_pool_and_fees(self@, pool_id);
        }
        Ok(())
    }

    /// Opens the bet of `bettor` to `side` with the bettor's `salt`, on the bettor's
    /// own word: only the bettor calls it.
    pub fn reveal_bet(
        &mut self,
        caller: Address,
        pool_id: u32,
        bettor: Address,
        side: BetSide,
        salt: [u8; 32],
    ) -> (result: Result<(), Error>)
        requires
            old(self)@.valid(),
        ensures
            result == match unless_authorized(
                caller,
                bettor,
                old(self)@.reveal_bet_error(pool_id, bettor, side, salt),
            ) {
                Some(error) => Err::<(), Error>(error),
                None => Ok(()),
            },
            final(self)@ == if caller == bettor {
                old(self)@.after_reveal_bet(pool_id, bettor, side, salt)
            } else {
                old(self)@
            },
            final(self)@.valid(),
    {
        if !caller.same_as(&bettor) {
            return Err(Error::Unauthorized);
        }
        self.reveal_bet_internal(pool_id, bettor, side, salt)
    }

    /// Opens the bet of `bettor` to `side` with the bettor's `salt`, on the admin's
    /// word: only the admin calls it. The reveal is held to the commitment just as
    /// the bettor's own is.
    pub fn admin_reveal_bet(
        &mut self,
        caller: Address,
        pool_id: u32,
        bettor: Address,
        side: BetSide,
        salt: [u8; 32],
    ) -> (result: Result<(), Error>)
        requires
            old(self)@.valid(),
        ensures
            result == match unless_authorized(
                caller,
                old(self)@.admin,
                old(self)@.reveal_bet_error(pool_id, bettor, side, salt),
            ) {
                Some(error) => Err::<(), Error>(error),
                None => Ok(()),
            },
            final(self)@ == if caller == old(self)@.admin {
                old(self)@.after_reveal_bet(pool_id, bettor, side, salt)
            } else {
                old(self)@
            },
            final(self)@.valid(),
    {
        if !caller.same_as(&self.admin) {
            return Err(Error::Unauthorized);
        }
        self.reveal_bet_internal(pool_id, bettor, side, salt)
    }

    fn reveal_bet_internal(
        &mut self,
        pool_id: u32,
        bettor: Address,
        side: BetSide,
        salt: [u8; 32],
    ) -> (result: Result<(), Error>)
        requires
            old(self)@.valid(),
        ensures
            result == match old(self)@.reveal_bet_error(pool_id, bettor, side, salt) {
                Some(error) => Err::<(), Error>(error),
                None => Ok(()),
            },
            final(self)@ == old(self)@.after_reveal_bet(pool_id, bettor, side, salt),
            final(self)@.valid(),
    {
        let index = match self.pool_index(pool_id) {
            Some(index) => index,
            None => {
                return Err(Error::PoolNotFound);
            },
        };
        let pool = self.pools[index];
        match pool.status {
            PoolStatus::Locked => {},
            _ => {
                return Err(Error::PoolNotLocked);
            },
        }
        let j = match find_bet(&self.bets[index], &bettor) {
            Some(j) => j,
            None => {
                return Err(Error::BetNotFound);
            },
        };
        let bet = self.bets[index][j];
        if bet.revealed {
            return Err(Error::AlreadyRevealed);
        }
        if !opens(&bet.commitment, side.byte(), &salt) {
            return Err(Error::InvalidReveal);
        }
        proof {
            lemma_reveal_bet_keeps_valid(old(self)@, pool_id, bettor, side, salt);
        }
        self.bets[index][j].revealed = true;
        self.bets[index][j].side = Some(side);
        match side {
            BetSide::Player1 => {
                self.pools[index].player1_total = pool.player1_total + bet.amount;
            },
            BetSide::Player2 => {
                self.pools[index].player2_total = pool.player2_total + bet.amount;
            },
        }
        self.pools[index].reveal_count = pool.reveal_count + 1;
        self.events.push(Event::BetRevealed { pool_id, bettor, side });
        proof {
            let expected = old(self)@.after_reveal_bet(pool_id, bettor, side, salt);
            assert(self@.pools =~= expected.pools);
            assert(self@.bets[index as int] =~= expected.bets[index as int]);
            assert(self@.bets =~= expected.bets);
        }
        Ok(())
    }

    /// Settles a pool on the admin's word: `winner` is recorded and the pool's fees
    /// are added to the accrued fees. Only the admin settles pools.
    pub fn settle_pool(
        &mut self,
        caller: Address,
        pool_id: u32,
        winner: BetSide,
    ) -> (result: Result<(), Error>)
        requires
            old(self)@.valid(),
            caller == old(self)@.admin ==> old(self)@.settle_pool_fits(pool_id),
        ensures
            result == match unless_authorized(
                caller,
                old(self)@.admin,
                old(self)@.settle_pool_error(pool_id),
            ) {
                Some(error) => Err::<(), Error>(error),
                None => Ok(()),
            },
            final(self)@ == if caller == old(self)@.admin {
                old(self)@.after_settle_pool(pool_id, winner)
            } else {
                old(self)@
            },
            final(self)@.valid(),
    {
        if !caller.same_as(&self.admin) {
            return Err(Error::Unauthorized);
        }
        let index = match self.check_settle_pool(pool_id) {
            Ok(index) => index,
            Err(error) => {
                return Err(error);
            },
        };
        let pool = self.pools[index];
        proof {
            lemma_settle_pool_keeps_valid(old(self)@, pool_id, winner);
        }
        self.pools[index].status = PoolStatus::Settled;
        self.pools[index].winner_side = Some(winner);
        self.fee_accrued = self.fee_accrued + pool.total_fees;
        self.events.push(Event::PoolSettled { pool_id, winner });
        proof {
            let expected = old(self)@.after_settle_pool(pool_id, winner);
            assert(self@.pools =~= expected.pools);
            assert(self@.bets =~= expected.bets);
        }
        Ok(())
    }

    /// Checks a request to settle by proof, as far as it can be checked without the
    /// verifier.
    fn check_settle_request(
        &self,
        pool_id: u32,
        winner: BetSide,
        vk_id: &[u8; 32],
        proof: &Vec<u8>,
        public_inputs: &Vec<[u8; 32]>,
    ) -> (result: Result<(), Error>)
        ensures
            result == match self@.settle_request_error(
                pool_id,
                winner,
                *vk_id,
                proof@,
                public_inputs@,
            ) {
                Some(error) => Err::<(), Error>(error),
                None => Ok(()),
            },
    {
        if self.zk_verifier.is_none() {
            return Err(Error::ZkVerifierNotConfigured);
        }
        let configured = match self.zk_vk_id {
            Some(configured) => configured,
            None => {
                return Err(Error::ZkVerifierNotConfigured);
            },
        };
        if !bytes_eq(vk_id, &configured) {
            return Err(Error::ZkProofInvalid);
        }
        if proof.len() != 256 || public_inputs.len() < 1 {
            return Err(Error::ZkProofInvalid);
        }
        if let Some(index) = self.pool_index(pool_id) {
            let bound = public_inputs.len() >= 3 && bytes_eq(
                &public_inputs[0],
                &self.pools[index].match_id,
            ) && bytes_eq(&public_inputs[1], &u32_to_bytes32(pool_id)) && bytes_eq(
                &public_inputs[2],
                &u32_to_bytes32(winner.byte() as u32),
            );
            if !bound {
                return Err(Error::ZkProofInvalid);
            }
        }
        Ok(())
    }

    /// Settles a pool on a proof that the verifier has answered: `verified` is its
    /// answer. The pool is settled only where the request names the configured
    /// verifying key, its public inputs bind this match, pool and winner, and the
    /// verifier accepted the proof.
    pub fn settle_pool_verified(
        &mut self,
        caller: Address,
        pool_id: u32,
        winner: BetSide,
        vk_id: [u8; 32],
        proof: &Vec<u8>,
        public_inputs: &Vec<[u8; 32]>,
        verified: bool,
    ) -> (result: Result<(), Error>)
        requires
            old(self)@.valid(),
            caller == old(self)@.admin ==> old(self)@.settle_pool_zk_fits(
                pool_id,
                winner,
                vk_id,
                proof@,
                public_inputs@,
                verified,
            ),
        ensures
            result == match unless_authorized(
                caller,
                old(self)@.admin,
                old(self)@.settle_pool_zk_error(
                    pool_id,
                    winner,
                    vk_id,
                    proof@,
                    public_inputs@,
                    verified,
                ),
            ) {
                Some(error) => Err::<(), Error>(error),
                None => Ok(()),
            },
            final(self)@ == if caller == old(self)@.admin {
                old(self)@.after_settle_pool_zk(
                    pool_id,
                    winner,
                    vk_id,
                    proof@,
                    public_inputs@,
                    verified,
                )
            } else {
                old(self)@
            },
            final(self)@.valid(),
    {
        if !caller.same_as(&self.admin) {
            return Err(Error::Unauthorized);
        }
        match self.check_settle_request(pool_id, winner, &vk_id, proof, public_inputs) {
            Err(error) => {
                return Err(error);
            },
            Ok(()) => {},
        }
        if !verified {
            return Err(Error::ZkProofInvalid);
        }
        self.settle_pool(caller, pool_id, winner)
    }

    /// Settles a pool on a proof of the match's outcome, which `verifier` checks.
    /// The verifier is asked once, about the key id, the proof and the public inputs
    /// that the call brings, and only where the admin calls and the request passes
    /// every check that does not need the verifier; otherwise it is left as it is.
    /// What follows its answer is what [`Self::settle_pool_verified`] does with that
    /// answer.
    pub fn settle_pool_zk<V: ZkVerifier>(
        &mut self,
        caller: Address,
        verifier: &mut V,
        pool_id: u32,
        winner: BetSide,
        vk_id: [u8; 32],
        proof: &Vec<u8>,
        public_inputs: &Vec<[u8; 32]>,
    ) -> (result: Result<(), Error>)
        requires
            old(self)@.valid(),
            caller == old(self)@.admin ==> old(self)@.settle_pool_zk_fits(
                pool_id,
                winner,
                vk_id,
                proof@,
                public_inputs@,
                true,
            ),
        ensures
            result == match unless_authorized(
                caller,
                old(self)@.admin,
                old(self)@.settle_pool_zk_error(
                    pool_id,
                    winner,
                    vk_id,
                    proof@,
                    public_inputs@,
                    old(verifier).answers(vk_id, proof@, public_inputs@),
                ),
            ) {
                Some(error) => Err::<(), Error>(error),
                None => Ok(()),
            },
            final(self)@ == if caller == old(self)@.admin {
                old(self)@.after_settle_pool_zk(
                    pool_id,
                    winner,
                    vk_id,
                    proof@,
                    public_inputs@,
                    old(verifier).answers(vk_id, proof@, public_inputs@),
                )
            } else {
                old(self)@
            },
            caller != old(self)@.admin || old(self)@.settle_request_error(
                pool_id,
                winner,
                vk_id,
                proof@,
                public_inputs@,
            ) is Some ==> *final(verifier) == *old(verifier),
            final(self)@.valid(),
    {
        if !caller.same_as(&self.admin) {
            return Err(Error::Unauthorized);
        }
        match self.check_settle_request(pool_id, winner, &vk_id, proof, public_inputs) {
            Err(error) => {
                return Err(error);
            },
            Ok(()) => {},
        }
        let verified = verifier.verify_round_proof(&vk_id, proof, public_inputs);
        self.settle_pool_verified(caller, pool_id, winner, vk_id, proof, public_inputs, verified)
    }

    /// Claims the bet of `bettor` in a settled pool, on the bettor's own word.
    /// Returns what escrow owes the bettor: twice the stake for a revealed bet on the
    /// winning side. A bet that was not revealed, or lost, is forfeited: it is marked
    /// as claimed and the claim is answered with `NoPayout`.
    /// Only the bettor calls it.
    pub fn claim_payout(
        &mut self,
        caller: Address,
        pool_id: u32,
        bettor: Address,
    ) -> (result: Result<i128, Error>)
        requires
            old(self)@.valid(),
        ensures
            result == match unless_authorized(
                caller,
                bettor,
                old(self)@.claim_payout_error(pool_id, bettor),
            ) {
                Some(error) => Err::<i128, Error>(error),
                None => Ok(old(self)@.claim_payout_amount(pool_id, bettor) as i128),
            },
            final(self)@ == if caller == bettor {
                old(self)@.after_claim_payout(pool_id, bettor)
            } else {
                old(self)@
            },
            final(self)@.valid(),
    {
        if !caller.same_as(&bettor) {
            return Err(Error::Unauthorized);
        }
        self.claim_payout_internal(pool_id, bettor)
    }

    /// Claims the bet of `bettor` in a settled pool, on the admin's word: only the
    /// admin calls it. The payout goes to the bettor all the same.
    pub fn admin_claim_payout(&mut self, caller: Address, pool_id: u32, bettor: Address) -> (result:
        Result<i128, Error>)
        requires
            old(self)@.valid(),
        ensures
            result == match unless_authorized(
                caller,
                old(self)@.admin,
                old(self)@.claim_payout_error(pool_id, bettor),
            ) {
                Some(error) => Err::<i128, Error>(error),
                None => Ok(old(self)@.claim_payout_amount(pool_id, bettor) as i128),
            },
            final(self)@ == if caller == old(self)@.admin {
                old(self)@.after_claim_payout(pool_id, bettor)
            } else {
                old(self)@
            },
            final(self)@.valid(),
    {
        if !caller.same_as(&self.admin) {
            return Err(Error::Unauthorized);
        }
        self.claim_payout_internal(pool_id, bettor)
    }

    fn claim_payout_internal(&mut self, pool_id: u32, bettor: Address) -> (result: Result<
        i128,
        Error,
    >)
        requires
            old(self)@.valid(),
        ensures
            result == match old(self)@.claim_payout_error(pool_id, bettor) {
                Some(error) => Err::<i128, Error>(error),
                None => Ok(old(self)@.claim_payout_amount(pool_id, bettor) as i128),
            },
            final(self)@ == old(self)@.after_claim_payout(pool_id, bettor),
            final(self)@.valid(),
    {
        let index = match self.pool_index(pool_id) {
            Some(index) => index,
            None => {
                return Err(Error::PoolNotFound);
            },
        };
        let pool = self.pools[index];
        match pool.status {
            PoolStatus::Settled => {},
            _ => {
                return Err(Error::PoolNotSettled);
            },
        }
        let j = match find_bet(&self.bets[index], &bettor) {
            Some(j) => j,
            None => {
                return Err(Error::BetNotFound);
            },
        };
        let bet = self.bets[index][j];
        if bet.claimed {
            return Err(Error::AlreadyClaimed);
        }
        let winner = match pool.winner_side {
            Some(winner) => winner,
            None => {
                return Err(Error::InvalidWinner);
            },
        };
        let won = match (bet.side, winner) {
            (Some(BetSide::Player1), BetSide::Player1) => true,
            (Some(BetSide::Player2), BetSide::Player2) => true,
            _ => false,
        };
        proof {
            lemma_claim_payout_keeps_valid(old(self)@, pool_id, bettor);
        }
        self.bets[index][j].claimed = true;
        proof {
            let expected = old(self)@.after_claim_payout(pool_id, bettor);
            assert(self@.pools =~= expected.pools);
            assert(self@.bets =~= expected.bets);
        }
        if !bet.revealed || !won {
            return Err(Error::NoPayout);
        }
        let payout = bet.amount * 2;
        self.events.push(Event::PayoutClaimed { pool_id, bettor, payout });
        Ok(payout)
    }

    /// Calls a pool off: every bet not yet claimed is marked as claimed and the pool
    /// becomes `Refunded`. Returns what escrow owes, bettor by bettor in the order of
    /// their bets: stake and fee, in all what the bettors paid into escrow for the
    /// pool. Only the admin refunds pools.
    pub fn refund_pool(&mut self, caller: Address, pool_id: u32) -> (result: Result<
        Vec<Payment>,
        Error,
    >)
        requires
            old(self)@.valid(),
        ensures
            match unless_authorized(
                caller,
                old(self)@.admin,
                old(self)@.refund_pool_error(pool_id),
            ) {
                Some(error) => result == Err::<Vec<Payment>, Error>(error),
                None => result is Ok && result->Ok_0@ == refunds_due(old(self)@.pool_bets(pool_id)),
            },
            final(self)@ == if caller == old(self)@.admin {
                old(self)@.after_refund_pool(pool_id)
            } else {
                old(self)@
            },
            final(self)@.valid(),
            result is Ok ==> payments_sum(result->Ok_0@) == old(self)@.escrow_in(pool_id),
    {
        if !caller.same_as(&self.admin) {
            return Err(Error::Unauthorized);
        }
        let index = match self.pool_index(pool_id) {
            Some(index) => index,
            None => {
                return Err(Error::PoolNotFound);
            },
        };
        match self.pools[index].status {
            PoolStatus::Settled => {
                return Err(Error::PoolAlreadySettled);
            },
            PoolStatus::Refunded => {
                return Err(Error::PoolAlreadySettled);
            },
            _ => {},
        }
        let payments = refund_all(&mut self.bets[index]);
        self.pools[index].status = PoolStatus::Refunded;
        self.events.push(Event::PoolRefunded { pool_id, bet_count: self.pools[index].bet_count });
        proof {
            let expected = old(self)@.after_refund_pool(pool_id);
            assert(self@.bets =~= expected.bets);
            lemma_refund_pool_keeps_valid(old(self)@, pool_id);
            let refund = Operation::RefundPool { pool_id };
            law_escrow_in_grows_by_deposits(old(self)@, refund, pool_id);
            law_escrow_out_grows_by_payments(old(self)@, refund, pool_id);
            law_escrow_out_within_escrow_in(expected, pool_id);
        }
        Ok(payments)
    }

    /// Sweeps the accrued fees at the time `now_ts`, at most once in
    /// [`SWEEP_INTERVAL_SECONDS`]. Returns what escrow owes the treasury.
    /// Only the admin sweeps.
    pub fn sweep_treasury(&mut self, caller: Address, now_ts: u64) -> (result: Result<i128, Error>)
        ensures
            result == match unless_authorized(
                caller,
                old(self)@.admin,
                old(self)@.sweep_treasury_error(now_ts),
            ) {
                Some(error) => Err::<i128, Error>(error),
                None => Ok(old(self)@.fee_accrued),
            },
            final(self)@ == if caller == old(self)@.admin {
                old(self)@.after_sweep_treasury(now_ts)
            } else {
                old(self)@
            },
            old(self)@.valid() ==> final(self)@.valid(),
    {
        if !caller.same_as(&self.admin) {
            return Err(Error::Unauthorized);
        }
        if self.last_sweep_ts > 0 && (now_ts < self.last_sweep_ts || now_ts - self.last_sweep_ts
            < SWEEP_INTERVAL_SECONDS) {
            return Err(Error::SweepTooEarly);
        }
        let accrued = self.fee_accrued;
        if accrued <= 0 {
            return Err(Error::NothingToSweep);
        }
        self.fee_accrued = 0;
        self.last_sweep_ts = now_ts;
        Ok(accrued)
    }

    /// The pool `pool_id`.
    pub fn get_pool(&self, pool_id: u32) -> (result: Result<BetPool, Error>)
        ensures
            result == if self@.has_pool(pool_id) {
                Ok::<BetPool, Error>(self@.pool(pool_id))
            } else {
                Err(Error::PoolNotFound)
            },
    {
        match self.pool_index(pool_id) {
            Some(index) => Ok(self.pools[index]),
            None => Err(Error::PoolNotFound),
        }
    }

    /// The bet of `bettor` in the pool `pool_id`.
    pub fn get_bet(&self, pool_id: u32, bettor: Address) -> (result: Result<BetCommit, Error>)
        requires
            self@.valid(),
        ensures
            result == match self@.bet_of(pool_id, bettor) {
                Some(bet) => Ok::<BetCommit, Error>(bet),
                None => Err(Error::BetNotFound),
            },
    {
        let index = match self.pool_index(pool_id) {
            Some(index) => index,
            None => {
                return Err(Error::BetNotFound);
            },
        };
        proof {
            assert(pool_valid(self@.pools[index as int], self@.bets[index as int], index as int));
        }
        match find_bet(&self.bets[index], &bettor) {
            Some(j) => Ok(self.bets[index][j]),
            None => Err(Error::BetNotFound),
        }
    }

    /// The number of pools opened so far, which is the id of the last.
    pub fn get_pool_counter(&self) -> (counter: u32)
        requires
            self@.valid(),
        ensures
            counter == self@.pools.len(),
    {
        self.pools.len() as u32
    }

    pub fn get_admin(&self) -> (admin: Address)
        ensures
            admin == self@.admin,
    {
        self.admin
    }

    pub fn get_treasury(&self) -> (treasury: Address)
        ensures
            treasury == self@.treasury,
    {
        self.treasury
    }

    /// The token that the escrow is held in.
    pub fn get_xlm_token(&self) -> (xlm_token: Address)
        ensures
            xlm_token == self@.xlm_token,
    {
        self.xlm_token
    }

    /// The verifier contract that settlements by proof go to, once configured.
    pub fn get_zk_verifier(&self) -> (verifier: Option<Address>)
        ensures
            verifier == self@.zk_verifier,
    {
        self.zk_verifier
    }

    /// The verifying key that settlements by proof must name, once configured.
    pub fn get_zk_vk_id(&self) -> (vk_id: Option<[u8; 32]>)
        ensures
            vk_id == self@.zk_vk_id,
    {
        self.zk_vk_id
    }

    /// The fees of settled pools that were not yet swept.
    pub fn get_fee_accrued(&self) -> (accrued: i128)
        ensures
            accrued == self@.fee_accrued,
    {
        self.fee_accrued
    }

    /// Hands the contract to a new admin. Only the admin does so.
    pub fn set_admin(&mut self, caller: Address, new_admin: Address) -> (result: Result<(), Error>)
        ensures
            result == unauthorized_or_done(caller, old(self)@.admin),
            final(self)@ == if caller == old(self)@.admin {
                BettingState { admin: new_admin, ..old(self)@ }
            } else {
                old(self)@
            },
            old(self)@.valid() ==> final(self)@.valid(),
    {
        if !caller.same_as(&self.admin) {
            return Err(Error::Unauthorized);
        }
        self.admin = new_admin;
        Ok(())
    }

    /// Names the treasury that fees are swept to. Only the admin does so.
    pub fn set_treasury(&mut self, caller: Address, new_treasury: Address) -> (result: Result<
        (),
        Error,
    >)
        ensures
            result == unauthorized_or_done(caller, old(self)@.admin),
            final(self)@ == if caller == old(self)@.admin {
                BettingState { treasury: new_treasury, ..old(self)@ }
            } else {
                old(self)@
            },
            old(self)@.valid() ==> final(self)@.valid(),
    {
        if !caller.same_as(&self.admin) {
            return Err(Error::Unauthorized);
        }
        self.treasury = new_treasury;
        Ok(())
    }

    /// Names the verifier contract and the verifying key for settlements by proof.
    /// Only the admin does so.
    pub fn set_zk_verifier(
        &mut self,
        caller: Address,
        verifier: Address,
        vk_id: [u8; 32],
    ) -> (result: Result<(), Error>)
        ensures
            result == unauthorized_or_done(caller, old(self)@.admin),
            final(self)@ == if caller == old(self)@.admin {
                BettingState { zk_verifier: Some(verifier), zk_vk_id: Some(vk_id), ..old(self)@ }
            } else {
                old(self)@
            },
            old(self)@.valid() ==> final(self)@.valid(),
    {
        if !caller.same_as(&self.admin) {
            return Err(Error::Unauthorized);
        }
        self.zk_verifier = Some(verifier);
        self.zk_vk_id = Some(vk_id);
        Ok(())
    }

    /// The protocol fee on a stake of `amount`: one percent, rounded up.
    pub fn calc_fee(amount: i128) -> (fee: i128)
        requires
            i128::MIN < amount * FEE_BPS,
            amount * FEE_BPS + 9_999 <= i128::MAX,
        ensures
            fee == fee_for(amount as int, FEE_BPS as int),
    {
        fee(amount, FEE_BPS)
    }
}

} // verus!
