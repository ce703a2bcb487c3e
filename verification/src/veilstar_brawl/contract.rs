//! The match contract.

use vstd::prelude::*;
use crate::fees::{fee, fee_for};
use crate::host::sha256;
use crate::primitives::{Address, append_bytes, bytes_eq, is_zero, make_zero_id, u32_to_be_bytes};
use crate::store::{Store, entries_map, first_to_hold, lemma_first_entries_are_the_map};
use crate::veilstar_brawl::model::{BrawlState, match_salt_of, match_valid};
use crate::veilstar_brawl::types::{
    Error, Event, FEE_SWEEP_INTERVAL_SECONDS, MOVE_COST_STROOPS, Match, MoveType, Payment,
    RESERVE_STROOPS, STAKE_DEPOSIT_WINDOW_SECONDS, STAKE_FEE_BPS, SlotKey, ZkMatchOutcomeRecord,
    ZkVerificationRecord,
};

verus! {

/// A contract that checks proofs.
pub trait ZkVerifierContract {
    /// What the contract, as it stands, answers to a request to verify `proof` for
    /// `public_inputs` under the verifying key `vk_id`. An implementation says what
    /// that is; of one that does not, nothing is known but that its answer is this.
    open spec fn answers(&self, vk_id: [u8; 32], proof: Seq<u8>, public_inputs: Seq<[u8; 32]>) -> bool {
        arbitrary()
    }

    /// Whether `proof` is valid for `public_inputs` under the verifying key `vk_id`.
    /// The contract may take note of the request.
    fn verify_round_proof(
        &mut self,
        vk_id: &[u8; 32],
        proof: &Vec<u8>,
        public_inputs: &Vec<[u8; 32]>,
    ) -> (ok: bool)
        ensures
            ok == old(self).answers(*vk_id, proof@, public_inputs@),
    ;
}

/// The match contract: its configuration, its matches and the records of their
/// proofs.
pub struct VeilstarBrawlContract {
    admin: Address,
    game_hub: Address,
    treasury: Address,
    xlm_token: Address,
    zk_verifier_contract: Option<Address>,
    zk_verifier_vk_id: [u8; 32],
    zk_gate_required: bool,
    fee_accrued: i128,
    last_sweep_ts: u64,
    matches: Store<u32, Match>,
    salts: Store<u32, [u8; 32]>,
    zk_commits: Store<SlotKey, [u8; 32]>,
    zk_verified: Store<SlotKey, ZkVerificationRecord>,
    zk_outcomes: Store<u32, ZkMatchOutcomeRecord>,
    events: Vec<Event>,
}

impl View for VeilstarBrawlContract {
    type V = BrawlState;

    closed spec fn view(&self) -> BrawlState {
        BrawlState {
            admin: self.admin,
            game_hub: self.game_hub,
            treasury: self.treasury,
            xlm_token: self.xlm_token,
            zk_verifier_contract: self.zk_verifier_contract,
            zk_verifier_vk_id: self.zk_verifier_vk_id,
            zk_gate_required: self.zk_gate_required,
            fee_accrued: self.fee_accrued,
            last_sweep_ts: self.last_sweep_ts,
            matches: self.matches@,
            salts: self.salts@,
            zk_commits: self.zk_commits@,
            zk_verified: self.zk_verified@,
            zk_outcomes: self.zk_outcomes@,
            events: self.events@,
        }
    }
}

/// Everything the match contract holds, as plain records. Each list of entries
/// stands for a map: where two entries hold one key, the first counts.
pub struct BrawlSnapshot {
    pub admin: Address,
    pub game_hub: Address,
    pub treasury: Address,
    pub xlm_token: Address,
    pub zk_verifier_contract: Option<Address>,
    pub zk_verifier_vk_id: [u8; 32],
    pub zk_gate_required: bool,
    pub fee_accrued: i128,
    pub last_sweep_ts: u64,
    pub matches: Vec<(u32, Match)>,
    pub salts: Vec<(u32, [u8; 32])>,
    pub zk_commits: Vec<(SlotKey, [u8; 32])>,
    pub zk_verified: Vec<(SlotKey, ZkVerificationRecord)>,
    pub zk_outcomes: Vec<(u32, ZkMatchOutcomeRecord)>,
    /// What happened since the events were last taken, oldest first.
    pub events: Vec<Event>,
}

impl View for BrawlSnapshot {
    type V = BrawlState;

    open spec fn view(&self) -> BrawlState {
        BrawlState {
            admin: self.admin,
            game_hub: self.game_hub,
            treasury: self.treasury,
            xlm_token: self.xlm_token,
            zk_verifier_contract: self.zk_verifier_contract,
            zk_verifier_vk_id: self.zk_verifier_vk_id,
            zk_gate_required: self.zk_gate_required,
            fee_accrued: self.fee_accrued,
            last_sweep_ts: self.last_sweep_ts,
            matches: entries_map(self.matches@),
            salts: entries_map(self.salts@),
            zk_commits: entries_map(self.zk_commits@),
            zk_verified: entries_map(self.zk_verified@),
            zk_outcomes: entries_map(self.zk_outcomes@),
            events: self.events@,
        }
    }
}

/// Whether a match is valid.
fn match_is_valid(m: &Match) -> (ok: bool)
    ensures
        ok == match_valid(*m),
{
    m.stake_amount_stroops >= 0 && m.stake_amount_stroops <= (i128::MAX - 9_999) / 10
        && m.stake_fee_bps == STAKE_FEE_BPS && m.fee_accrued_stroops >= 0 && (m.winner.is_some()
        || m.fee_accrued_stroops == 0)
}

/// Computes the salt of a match from its session id and the ledger sequence it
/// starts at.
fn match_salt(session_id: u32, ledger_sequence: u32) -> (salt: [u8; 32])
    ensures
        salt == match_salt_of(session_id, ledger_sequence),
{
    let mut salt_bytes: Vec<u8> = Vec::new();
    append_bytes(&mut salt_bytes, u32_to_be_bytes(session_id).as_slice());
    append_bytes(&mut salt_bytes, u32_to_be_bytes(ledger_sequence).as_slice());
    sha256(salt_bytes.as_slice())
}

impl VeilstarBrawlContract {
    /// A contract without matches, run by `admin`, that reports to the game hub
    /// `game_hub`, sweeps its fees to `treasury` and holds its funds in the token
    /// `xlm_token`. Proofs are not required and no verifying key is configured.
    pub fn new(
        admin: Address,
        game_hub: Address,
        treasury: Address,
        xlm_token: Address,
    ) -> (contract: VeilstarBrawlContract)
        ensures
            contract@ == BrawlState::initial(admin, game_hub, treasury, xlm_token),
            contract@.valid(),
    {
        VeilstarBrawlContract {
            admin,
            game_hub,
            treasury,
            xlm_token,
            zk_verifier_contract: None,
            zk_verifier_vk_id: make_zero_id(),
            zk_gate_required: false,
            fee_accrued: 0,
            last_sweep_ts: 0,
            matches: Store::new(),
            salts: Store::new(),
            zk_commits: Store::new(),
            zk_verified: Store::new(),
            zk_outcomes: Store::new(),
            events: Vec::new(),
        }
    }

    /// The contract that holds what `snapshot` holds, where that is a valid
    /// state.
    pub fn from_snapshot(snapshot: BrawlSnapshot) -> (restored: Option<VeilstarBrawlContract>)
        ensures
            match restored {
                Some(contract) => contract@ == snapshot@ && contract@.valid(),
                None => !snapshot@.valid(),
            },
    {
        if snapshot.fee_accrued < 0 {
            return None;
        }
        let mut index: usize = 0;
        while index < snapshot.matches.len()
            invariant
                index <= snapshot.matches.len(),
                forall|k: int|
                    0 <= k < index && #[trigger] crate::store::is_first_entry(snapshot.matches@, k)
                        ==> match_valid(snapshot.matches@[k].1),
            decreases snapshot.matches.len() - index,
        {
            if first_to_hold(&snapshot.matches, index) && !match_is_valid(
                &snapshot.matches[index].1,
            ) {
                proof {
                    lemma_first_entries_are_the_map(snapshot.matches@);
                    assert(snapshot@.matches.contains_key(snapshot.matches@[index as int].0));
                }
                return None;
            }
            index += 1;
        }
        proof {
            lemma_first_entries_are_the_map(snapshot.matches@);
        }
        Some(
            VeilstarBrawlContract {
                admin: snapshot.admin,
                game_hub: snapshot.game_hub,
                treasury: snapshot.treasury,
                xlm_token: snapshot.xlm_token,
                zk_verifier_contract: snapshot.zk_verifier_contract,
                zk_verifier_vk_id: snapshot.zk_verifier_vk_id,
                zk_gate_required: snapshot.zk_gate_required,
                fee_accrued: snapshot.fee_accrued,
                last_sweep_ts: snapshot.last_sweep_ts,
                matches: Store::from_entries(snapshot.matches),
                salts: Store::from_entries(snapshot.salts),
                zk_commits: Store::from_entries(snapshot.zk_commits),
                zk_verified: Store::from_entries(snapshot.zk_verified),
                zk_outcomes: Store::from_entries(snapshot.zk_outcomes),
                events: snapshot.events,
            },
        )
    }

    /// Everything the contract holds, as plain records.
    pub fn into_snapshot(self) -> (snapshot: BrawlSnapshot)
        ensures
            snapshot@ == self@,
    {
        BrawlSnapshot {
            admin: self.admin,
            game_hub: self.game_hub,
            treasury: self.treasury,
            xlm_token: self.xlm_token,
            zk_verifier_contract: self.zk_verifier_contract,
            zk_verifier_vk_id: self.zk_verifier_vk_id,
            zk_gate_required: self.zk_gate_required,
            fee_accrued: self.fee_accrued,
            last_sweep_ts: self.last_sweep_ts,
            matches: self.matches.into_entries(),
            salts: self.salts.into_entries(),
            zk_commits: self.zk_commits.into_entries(),
            zk_verified: self.zk_verified.into_entries(),
            zk_outcomes: self.zk_outcomes.into_entries(),
            events: self.events,
        }
    }

    /// Hands out the events on record, oldest first, and clears the record.
    pub fn take_events(&mut self) -> (events: Vec<Event>)
        ensures
            events@ == old(self)@.events,
            final(self)@ == (BrawlState { events: Seq::empty(), ..old(self)@ }),
            old(self)@.valid() ==> final(self)@.valid(),
    {
        let mut events: Vec<Event> = Vec::new();
        std::mem::swap(&mut events, &mut self.events);
        events
    }

    /// Whether the fee on a stake can be computed within `i128`.
    pub fn stake_fits(stake_amount_stroops: i128) -> (fits: bool)
        ensures
            fits == (stake_amount_stroops * STAKE_FEE_BPS + 9_999 <= i128::MAX),
    {
        stake_amount_stroops <= (i128::MAX - 9_999) / 10
    }

    /// Whether the count and the sum that a move of `player` adds to stay within
    /// the machine's integers. A move that is refused adds to none.
    pub fn submit_move_fits(&self, session_id: u32, player: Address) -> (fits: bool)
        ensures
            fits == self@.submit_move_fits(session_id, player),
    {
        match self.match_of_player(session_id, &player) {
            Ok(m) => {
                let count = if player.same_as(&m.player1) {
                    m.player1_moves
                } else {
                    m.player2_moves
                };
                count < u32::MAX && m.total_xlm_collected <= i128::MAX - MOVE_COST_STROOPS
            },
            Err(_) => true,
        }
    }

    /// Whether the sum that a power surge of `player` adds to stays within `i128`.
    /// A power surge that is refused adds to none.
    pub fn submit_power_surge_fits(&self, session_id: u32, player: Address) -> (fits: bool)
        ensures
            fits == self@.submit_power_surge_fits(session_id, player),
    {
        match self.match_of_player(session_id, &player) {
            Ok(m) => m.total_xlm_collected <= i128::MAX - MOVE_COST_STROOPS,
            Err(_) => true,
        }
    }

    /// The winner that finalizing the match `m` records, where it can be finalized.
    fn check_end_game(&self, session_id: u32, m: &Match, player1_won: bool) -> (result: Result<
        Address,
        Error,
    >)
        requires
            self@.active_match_error(session_id) is None,
            self@.matches[session_id] == *m,
        ensures
            result == match self@.end_game_error(session_id, player1_won) {
                Some(error) => Err::<Address, Error>(error),
                None => Ok(self@.end_game_winner(session_id, player1_won)),
            },
    {
        if self.zk_gate_required && (m.player1_zk_verified == 0 || m.player2_zk_verified == 0) {
            return Err(Error::ZkCommitRequired);
        }
        let winner = if self.zk_gate_required {
            let outcome = match self.zk_outcomes.get(&session_id) {
                Some(outcome) => *outcome,
                None => {
                    return Err(Error::ZkMatchOutcomeRequired);
                },
            };
            let expected_player1_won = outcome.winner.same_as(&m.player1);
            if expected_player1_won != player1_won {
                return Err(Error::InvalidWinnerClaim);
            }
            outcome.winner
        } else if player1_won {
            m.player1
        } else {
            m.player2
        };
        if m.stake_amount_stroops > 0 && (!m.player1_stake_paid || !m.player2_stake_paid) {
            return Err(Error::StakeNotPaid);
        }
        Ok(winner)
    }

    /// Whether the fees of the match `session_id` can be added to the accrued fees
    /// within `i128`, where the match can be finalized with the claim `player1_won`.
    pub fn end_game_fits(&self, session_id: u32, player1_won: bool) -> (fits: bool)
        requires
            self@.valid(),
        ensures
            fits == self@.end_game_fits(session_id, player1_won),
    {
        let m = match self.active_match(session_id) {
            Ok(m) => m,
            Err(_) => {
                return true;
            },
        };
        if self.check_end_game(session_id, &m, player1_won).is_err() {
            return true;
        }
        if m.stake_amount_stroops > 0 {
            let per_player_fee = Self::calc_fee(m.stake_amount_stroops, m.stake_fee_bps);
            self.fee_accrued <= i128::MAX - per_player_fee * 2
        } else {
            true
        }
    }

    /// Whether the fee on the stake can be computed within `i128`, where the stake
    /// would be set. Where the stake is refused, or is the one that is set, nothing
    /// is computed.
    pub fn set_match_stake_fits(&self, session_id: u32, stake_amount_stroops: i128) -> (fits: bool)
        ensures
            fits == self@.set_match_stake_fits(session_id, stake_amount_stroops),
    {
        match self.matches.get(&session_id) {
            Some(m) => stake_amount_stroops <= 0 || m.stake_amount_stroops > 0 || Self::stake_fits(
                stake_amount_stroops,
            ),
            None => true,
        }
    }

    /// Whether the count of commitments that the commitment adds to stays within
    /// `u32`. A commitment that is refused, or that its slot holds already, adds to
    /// none.
    pub fn submit_zk_commit_fits(
        &self,
        session_id: u32,
        player: Address,
        round: u32,
        turn: u32,
        commitment: [u8; 32],
    ) -> (fits: bool)
        ensures
            fits == self@.submit_zk_commit_fits(session_id, player, round, turn, commitment),
    {
        match self.check_commit(session_id, &player, round, turn, &commitment) {
            Ok((m, slot, fresh)) => !fresh || if slot.is_player1 {
                m.player1_zk_commits < u32::MAX
            } else {
                m.player2_zk_commits < u32::MAX
            },
            Err(_) => true,
        }
    }

    /// Whether the count of verified slots that the proof adds to, where the
    /// verifier accepts it, stays within `u32`. A proof that is refused before the
    /// verifier is asked, or for a slot that holds a record already, adds to none.
    pub fn submit_zk_verification_fits(
        &self,
        session_id: u32,
        player: Address,
        round: u32,
        turn: u32,
        commitment: [u8; 32],
        vk_id: [u8; 32],
        proof: &Vec<u8>,
        public_inputs: &Vec<[u8; 32]>,
    ) -> (fits: bool)
        ensures
            fits == self@.submit_zk_verification_fits(
                session_id,
                player,
                round,
                turn,
                commitment,
                vk_id,
                proof@,
                public_inputs@,
            ),
    {
        match self.check_verification_request(
            session_id,
            &player,
            round,
            turn,
            &commitment,
            &vk_id,
            proof,
            public_inputs,
        ) {
            Ok((m, slot, _)) => self.zk_verified.has(&slot) || if slot.is_player1 {
                m.player1_zk_verified < u32::MAX
            } else {
                m.player2_zk_verified < u32::MAX
            },
            Err(_) => true,
        }
    }

    /// The match `session_id`, where it can be played on.
    fn active_match(&self, session_id: u32) -> (result: Result<Match, Error>)
        ensures
            result == match self@.active_match_error(session_id) {
                Some(error) => Err::<Match, Error>(error),
                None => Ok(self@.matches[session_id]),
            },
    {
        let m = match self.matches.get(&session_id) {
            Some(m) => *m,
            None => {
                return Err(Error::MatchNotFound);
            },
        };
        if m.winner.is_some() {
            return Err(Error::MatchAlreadyEnded);
        }
        if m.is_cancelled {
            return Err(Error::MatchCancelled);
        }
        Ok(m)
    }

    /// The match `session_id`, where it can be played on and `player` is one of its
    /// players.
    fn match_of_player(&self, session_id: u32, player: &Address) -> (result: Result<Match, Error>)
        ensures
            result == match self@.player_error(session_id, *player) {
                Some(error) => Err::<Match, Error>(error),
                None => Ok(self@.matches[session_id]),
            },
    {
        let m = match self.active_match(session_id) {
            Ok(m) => m,
            Err(error) => {
                return Err(error);
            },
        };
        if !player.same_as(&m.player1) && !player.same_as(&m.player2) {
            return Err(Error::NotPlayer);
        }
        Ok(m)
    }

    /// Starts a match between `player1` and `player2` under `session_id`, at the
    /// ledger sequence `ledger_sequence`. A match that was there under the id is
    /// replaced.
    pub fn start_game(
        &mut self,
        session_id: u32,
        player1: Address,
        player2: Address,
        player1_points: i128,
        player2_points: i128,
        ledger_sequence: u32,
    ) -> (result: Result<(), Error>)
        requires
            old(self)@.valid(),
            player1 != player2,
        ensures
            result == Ok::<(), Error>(()),
            final(self)@ == old(self)@.after_start_game(
                session_id,
                player1,
                player2,
                player1_points,
                player2_points,
                ledger_sequence,
            ),
            final(self)@.valid(),
    {
        let m = Match {
            player1,
            player2,
            player1_points,
            player2_points,
            player1_moves: 0,
            player2_moves: 0,
            total_xlm_collected: 0,
            stake_amount_stroops: 0,
            stake_fee_bps: STAKE_FEE_BPS,
            stake_deadline_ts: 0,
            player1_stake_paid: false,
            player2_stake_paid: false,
            fee_accrued_stroops: 0,
            player1_zk_commits: 0,
            player2_zk_commits: 0,
            player1_zk_verified: 0,
            player2_zk_verified: 0,
            is_cancelled: false,
            winner: None,
        };
        let salt = match_salt(session_id, ledger_sequence);
        self.matches.set(session_id, m);
        self.salts.set(session_id, salt);
        Ok(())
    }

    /// Records a combat move of `player`. Returns what the player owes the
    /// contract for it.
    pub fn submit_move(
        &mut self,
        session_id: u32,
        player: Address,
        move_type: MoveType,
        turn: u32,
    ) -> (result: Result<i128, Error>)
        requires
            old(self)@.valid(),
            old(self)@.submit_move_fits(session_id, player),
        ensures
            result == match old(self)@.player_error(session_id, player) {
                Some(error) => Err::<i128, Error>(error),
                None => Ok(MOVE_COST_STROOPS),
            },
            final(self)@ == old(self)@.after_submit_move(session_id, player, move_type, turn),
            final(self)@.valid(),
    {
        let mut m = match self.match_of_player(session_id, &player) {
            Ok(m) => m,
            Err(error) => {
                return Err(error);
            },
        };
        if player.same_as(&m.player1) {
            m.player1_moves = m.player1_moves + 1;
        } else {
            m.player2_moves = m.player2_moves + 1;
        }
        m.total_xlm_collected = m.total_xlm_collected + MOVE_COST_STROOPS;
        self.matches.set(session_id, m);
        self.events.push(Event::MoveSubmitted { session_id, turn, player, move_type });
        Ok(MOVE_COST_STROOPS)
    }

    /// Records a power surge pick of `player`. Returns what the player owes the
    /// contract for it.
    pub fn submit_power_surge(
        &mut self,
        session_id: u32,
        player: Address,
        round: u32,
        card_code: u32,
    ) -> (result: Result<i128, Error>)
        requires
            old(self)@.valid(),
            old(self)@.submit_power_surge_fits(session_id, player),
        ensures
            result == match old(self)@.player_error(session_id, player) {
                Some(error) => Err::<i128, Error>(error),
                None => Ok(MOVE_COST_STROOPS),
            },
            final(self)@ == old(self)@.after_submit_power_surge(
                session_id,
                player,
                round,
                card_code,
            ),
            final(self)@.valid(),
    {
        let mut m = match self.match_of_player(session_id, &player) {
            Ok(m) => m,
            Err(error) => {
                return Err(error);
            },
        };
        m.total_xlm_collected = m.total_xlm_collected + MOVE_COST_STROOPS;
        self.matches.set(session_id, m);
        self.events.push(Event::PowerSurgeSubmitted { session_id, round, player, card_code });
        Ok(MOVE_COST_STROOPS)
    }

    /// Finalizes a match with the claim that player 1 won, or did not. Returns what
    /// the contract owes the winner: twice the stake, where one is set.
    pub fn end_game(&mut self, session_id: u32, player1_won: bool) -> (result: Result<
        Option<Payment>,
        Error,
    >)
        requires
            old(self)@.valid(),
            old(self)@.end_game_fits(session_id, player1_won),
        ensures
            result == match old(self)@.end_game_error(session_id, player1_won) {
                Some(error) => Err::<Option<Payment>, Error>(error),
                None => Ok(old(self)@.end_game_payment(session_id, player1_won)),
            },
            final(self)@ == old(self)@.after_end_game(session_id, player1_won),
            final(self)@.valid(),
    {
        let mut m = match self.active_match(session_id) {
            Ok(m) => m,
            Err(error) => {
                return Err(error);
            },
        };
        let winner = match self.check_end_game(session_id, &m, player1_won) {
            Ok(winner) => winner,
            Err(error) => {
                return Err(error);
            },
        };
        let mut payment: Option<Payment> = None;
        if m.stake_amount_stroops > 0 {
            payment = Some(Payment { to: winner, amount: m.stake_amount_stroops * 2 });
            let per_player_fee = Self::calc_fee(m.stake_amount_stroops, m.stake_fee_bps);
            let total_fee = per_player_fee * 2;
            self.fee_accrued = self.fee_accrued + total_fee;
            m.fee_accrued_stroops = m.fee_accrued_stroops + total_fee;
        }
        m.winner = Some(winner);
        self.matches.set(session_id, m);
        Ok(payment)
    }

    /// Checks a proof of a match's winner, as far as it can be checked without the
    /// verifier.
    fn check_outcome_request(
        &self,
        session_id: u32,
        winner: &Address,
        vk_id: &[u8; 32],
        proof: &Vec<u8>,
        public_inputs: &Vec<[u8; 32]>,
    ) -> (result: Result<Address, Error>)
        ensures
            match self@.outcome_request_error(session_id, *winner, *vk_id, proof@, public_inputs@) {
                Some(error) => result == Err::<Address, Error>(error),
                None => result == Ok::<Address, Error>(self@.zk_verifier_contract->0),
            },
    {
        if proof.len() != 256 || public_inputs.len() == 0 {
            return Err(Error::ZkProofInvalid);
        }
        let m = match self.active_match(session_id) {
            Ok(m) => m,
            Err(error) => {
                return Err(error);
            },
        };
        if is_zero(&self.zk_verifier_vk_id) || !bytes_eq(vk_id, &self.zk_verifier_vk_id) {
            return Err(Error::ZkProofInvalid);
        }
        if !winner.same_as(&m.player1) && !winner.same_as(&m.player2) {
            return Err(Error::InvalidWinnerClaim);
        }
        match self.zk_verifier_contract {
            Some(verifier_contract) => Ok(verifier_contract),
            None => Err(Error::ZkVerifierNotConfigured),
        }
    }

    /// Binds the winner of a match on a proof that the verifier has answered:
    /// `verified` is its answer. A match's winner is bound once.
    pub fn submit_zk_match_outcome_verified(
        &mut self,
        session_id: u32,
        winner: Address,
        vk_id: [u8; 32],
        proof: &Vec<u8>,
        public_inputs: &Vec<[u8; 32]>,
        verified: bool,
    ) -> (result: Result<(), Error>)
        ensures
            result == match old(self)@.submit_zk_match_outcome_error(
                session_id,
                winner,
                vk_id,
                proof@,
                public_inputs@,
                verified,
            ) {
                Some(error) => Err::<(), Error>(error),
                None => Ok(()),
            },
            final(self)@ == old(self)@.after_submit_zk_match_outcome(
                session_id,
                winner,
                vk_id,
                proof@,
                public_inputs@,
                verified,
            ),
            old(self)@.valid() ==> final(self)@.valid(),
    {
        let verifier_contract = match self.check_outcome_request(
            session_id,
            &winner,
            &vk_id,
            proof,
            public_inputs,
        ) {
            Ok(verifier_contract) => verifier_contract,
            Err(error) => {
                return Err(error);
            },
        };
        if !verified {
            return Err(Error::ZkProofInvalid);
        }
        if self.zk_outcomes.has(&session_id) {
            return Err(Error::ZkVerificationAlreadySubmitted);
        }
        self.zk_outcomes.set(session_id, ZkMatchOutcomeRecord { verifier_contract, winner, vk_id });
        self.events.push(Event::WinnerBound { session_id, verifier_contract });
        Ok(())
    }

    /// Binds the winner of a match on a proof, which `verifier` checks. The
    /// verifier is asked once, about the key id, the proof and the public inputs
    /// that the call brings, and only where the request passes every check that
    /// does not need the verifier; otherwise it is left as it is. What follows its
    /// answer is what [`Self::submit_zk_match_outcome_verified`] does with that
    /// answer.
    pub fn submit_zk_match_outcome<V: ZkVerifierContract>(
        &mut self,
        verifier: &mut V,
        session_id: u32,
        winner: Address,
        vk_id: [u8; 32],
        proof: &Vec<u8>,
        public_inputs: &Vec<[u8; 32]>,
    ) -> (result: Result<(), Error>)
        ensures
            result == match old(self)@.submit_zk_match_outcome_error(
                session_id,
                winner,
                vk_id,
                proof@,
                public_inputs@,
                old(verifier).answers(vk_id, proof@, public_inputs@),
            ) {
                Some(error) => Err::<(), Error>(error),
                None => Ok(()),
            },
            final(self)@ == old(self)@.after_submit_zk_match_outcome(
                session_id,
                winner,
                vk_id,
                proof@,
                public_inputs@,
                old(verifier).answers(vk_id, proof@, public_inputs@),
            ),
            old(self)@.outcome_request_error(session_id, winner, vk_id, proof@, public_inputs@)
                is Some ==> *final(verifier) == *old(verifier),
            old(self)@.valid() ==> final(self)@.valid(),
    {
        match self.check_outcome_request(session_id, &winner, &vk_id, proof, public_inputs) {
            Err(error) => {
                return Err(error);
            },
            Ok(_) => {},
        }
        let verified = verifier.verify_round_proof(&vk_id, proof, public_inputs);
        self.submit_zk_match_outcome_verified(
            session_id,
            winner,
            vk_id,
            proof,
            public_inputs,
            verified,
        )
    }

    /// The slot of `player` in the match `m` under `session_id`, where the match
    /// has a salt.
    fn slot_of(&self, session_id: u32, m: &Match, player: &Address, round: u32, turn: u32) -> (slot:
        Option<SlotKey>)
        requires
            self@.matches.contains_key(session_id),
            self@.matches[session_id] == *m,
        ensures
            slot is Some <==> self@.salts.contains_key(session_id),
            slot is Some ==> slot->0 == self@.slot(session_id, *player, round, turn),
    {
        match self.salts.get(&session_id) {
            Some(salt) => Some(
                SlotKey {
                    session_id,
                    salt: *salt,
                    round,
                    turn,
                    is_player1: player.same_as(&m.player1),
                },
            ),
            None => None,
        }
    }

    /// Checks a commitment for a slot. Gives the match, the slot and whether the
    /// slot holds no commitment yet.
    fn check_commit(
        &self,
        session_id: u32,
        player: &Address,
        round: u32,
        turn: u32,
        commitment: &[u8; 32],
    ) -> (result: Result<(Match, SlotKey, bool), Error>)
        ensures
            result == match self@.submit_zk_commit_error(
                session_id,
                *player,
                round,
                turn,
                *commitment,
            ) {
                Some(error) => Err::<(Match, SlotKey, bool), Error>(error),
                None => Ok(
                    (
                        self@.matches[session_id],
                        self@.slot(session_id, *player, round, turn),
                        !self@.zk_commits.contains_key(self@.slot(session_id, *player, round, turn)),
                    ),
                ),
            },
    {
        if round == 0 || turn == 0 {
            return Err(Error::InvalidZkCommitment);
        }
        let m = match self.match_of_player(session_id, player) {
            Ok(m) => m,
            Err(error) => {
                return Err(error);
            },
        };
        let slot = match self.slot_of(session_id, &m, player, round, turn) {
            Some(slot) => slot,
            None => {
                return Err(Error::MatchNotFound);
            },
        };
        match self.zk_commits.get(&slot) {
            Some(stored_commitment) => {
                if !bytes_eq(stored_commitment, commitment) {
                    return Err(Error::ZkCommitAlreadySubmitted);
                }
                Ok((m, slot, false))
            },
            None => Ok((m, slot, true)),
        }
    }

    /// Records the commitment of `player` for the slot at `round` and `turn`. A
    /// slot keeps the commitment it was first given: committing the same value
    /// again is accepted and counts once, committing another value is refused.
    pub fn submit_zk_commit(
        &mut self,
        session_id: u32,
        player: Address,
        round: u32,
        turn: u32,
        commitment: [u8; 32],
    ) -> (result: Result<(), Error>)
        requires
            old(self)@.valid(),
            old(self)@.submit_zk_commit_fits(session_id, player, round, turn, commitment),
        ensures
            result == match old(self)@.submit_zk_commit_error(
                session_id,
                player,
                round,
                turn,
                commitment,
            ) {
                Some(error) => Err::<(), Error>(error),
                None => Ok(()),
            },
            final(self)@ == old(self)@.after_submit_zk_commit(
                session_id,
                player,
                round,
                turn,
                commitment,
            ),
            final(self)@.valid(),
    {
        let (mut m, slot, fresh) = match self.check_commit(
            session_id,
            &player,
            round,
            turn,
            &commitment,
        ) {
            Ok(checked) => checked,
            Err(error) => {
                return Err(error);
            },
        };
        if fresh {
            self.zk_commits.set(slot, commitment);
            if slot.is_player1 {
                m.player1_zk_commits = m.player1_zk_commits + 1;
            } else {
                m.player2_zk_commits = m.player2_zk_commits + 1;
            }
        }
        self.matches.set(session_id, m);
        self.events.push(Event::MoveCommitted { session_id, round, turn, player, commitment });
        Ok(())
    }

    /// Checks a proof for a slot, as far as it can be checked without the verifier.
    fn check_verification_request(
        &self,
        session_id: u32,
        player: &Address,
        round: u32,
        turn: u32,
        commitment: &[u8; 32],
        vk_id: &[u8; 32],
        proof: &Vec<u8>,
        public_inputs: &Vec<[u8; 32]>,
    ) -> (result: Result<(Match, SlotKey, Address), Error>)
        ensures
            match self@.verification_request_error(
                session_id,
                *player,
                round,
                turn,
                *commitment,
                *vk_id,
                proof@,
                public_inputs@,
            ) {
                Some(error) => result == Err::<(Match, SlotKey, Address), Error>(error),
                None => result == Ok::<(Match, SlotKey, Address), Error>(
                    (
                        self@.matches[session_id],
                        self@.slot(session_id, *player, round, turn),
                        self@.zk_verifier_contract->0,
                    ),
                ),
            },
    {
        if round == 0 || turn == 0 {
            return Err(Error::InvalidZkCommitment);
        }
        if proof.len() == 0 {
            return Err(Error::ZkProofInvalid);
        }
        let m = match self.match_of_player(session_id, player) {
            Ok(m) => m,
            Err(error) => {
                return Err(error);
            },
        };
        let slot = match self.slot_of(session_id, &m, player, round, turn) {
            Some(slot) => slot,
            None => {
                return Err(Error::MatchNotFound);
            },
        };
        let stored_commitment = match self.zk_commits.get(&slot) {
            Some(stored_commitment) => *stored_commitment,
            None => {
                return Err(Error::ZkCommitNotFound);
            },
        };
        if !bytes_eq(&stored_commitment, commitment) {
            return Err(Error::InvalidZkCommitment);
        }
        if !is_zero(&self.zk_verifier_vk_id) && !bytes_eq(vk_id, &self.zk_verifier_vk_id) {
            return Err(Error::ZkProofInvalid);
        }
        if proof.len() != 256 || public_inputs.len() == 0 {
            return Err(Error::ZkProofInvalid);
        }
        match self.zk_verifier_contract {
            Some(verifier_contract) => Ok((m, slot, verifier_contract)),
            None => Err(Error::ZkVerifierNotConfigured),
        }
    }

    /// Records a proof for the slot of `player` at `round` and `turn`, which the
    /// verifier has answered: `verified` is its answer. A slot keeps the record
    /// that was first written for it: a further proof for it is accepted where the
    /// verifier accepts it, and neither rewrites the record nor counts again.
    pub fn submit_zk_verification_verified(
        &mut self,
        session_id: u32,
        player: Address,
        round: u32,
        turn: u32,
        commitment: [u8; 32],
        vk_id: [u8; 32],
        proof: &Vec<u8>,
        public_inputs: &Vec<[u8; 32]>,
        verified: bool,
    ) -> (result: Result<(), Error>)
        requires
            old(self)@.valid(),
            verified ==> old(self)@.submit_zk_verification_fits(
                session_id,
                player,
                round,
                turn,
                commitment,
                vk_id,
                proof@,
                public_inputs@,
            ),
        ensures
            result == match old(self)@.submit_zk_verification_error(
                session_id,
                player,
                round,
                turn,
                commitment,
                vk_id,
                proof@,
                public_inputs@,
                verified,
            ) {
                Some(error) => Err::<(), Error>(error),
                None => Ok(()),
            },
            final(self)@ == old(self)@.after_submit_zk_verification(
                session_id,
                player,
                round,
                turn,
                commitment,
                vk_id,
                proof@,
                public_inputs@,
                verified,
            ),
            final(self)@.valid(),
    {
        let (mut m, slot, verifier_contract) = match self.check_verification_request(
            session_id,
            &player,
            round,
            turn,
            &commitment,
            &vk_id,
            proof,
            public_inputs,
        ) {
            Ok(checked) => checked,
            Err(error) => {
                return Err(error);
            },
        };
        if !verified {
            return Err(Error::ZkProofInvalid);
        }
        if !self.zk_verified.has(&slot) {
            self.zk_verified.set(
                slot,
                ZkVerificationRecord { verifier_contract, commitment, vk_id },
            );
            if slot.is_player1 {
                m.player1_zk_verified = m.player1_zk_verified + 1;
            } else {
                m.player2_zk_verified = m.player2_zk_verified + 1;
            }
        }
        self.matches.set(session_id, m);
        self.events.push(
            Event::MoveVerified { session_id, round, turn, player, verifier_contract },
        );
        Ok(())
    }

    /// Records a proof for the slot of `player` at `round` and `turn`, which
    /// `verifier` checks. The verifier is asked once, about the key id, the proof
    /// and the public inputs that the call brings, and only where the request
    /// passes every check that does not need the verifier; otherwise it is left as
    /// it is. What follows its answer is what
    /// [`Self::submit_zk_verification_verified`] does with that answer.
    pub fn submit_zk_verification<V: ZkVerifierContract>(
        &mut self,
        verifier: &mut V,
        session_id: u32,
        player: Address,
        round: u32,
        turn: u32,
        commitment: [u8; 32],
        vk_id: [u8; 32],
        proof: &Vec<u8>,
        public_inputs: &Vec<[u8; 32]>,
    ) -> (result: Result<(), Error>)
        requires
            old(self)@.valid(),
            old(self)@.submit_zk_verification_fits(
                session_id,
                player,
                round,
                turn,
                commitment,
                vk_id,
                proof@,
                public_inputs@,
            ),
        ensures
            result == match old(self)@.submit_zk_verification_error(
                session_id,
                player,
                round,
                turn,
                commitment,
                vk_id,
                proof@,
                public_inputs@,
                old(verifier).answers(vk_id, proof@, public_inputs@),
            ) {
                Some(error) => Err::<(), Error>(error),
                None => Ok(()),
            },
            final(self)@ == old(self)@.after_submit_zk_verification(
                session_id,
                player,
                round,
                turn,
                commitment,
                vk_id,
                proof@,
                public_inputs@,
                old(verifier).answers(vk_id, proof@, public_inputs@),
            ),
            old(self)@.verification_request_error(
                session_id,
                player,
                round,
                turn,
                commitment,
                vk_id,
                proof@,
                public_inputs@,
            ) is Some ==> *final(verifier) == *old(verifier),
            final(self)@.valid(),
    {
        match self.check_verification_request(
            session_id,
            &player,
            round,
            turn,
            &commitment,
            &vk_id,
            proof,
            public_inputs,
        ) {
            Err(error) => {
                return Err(error);
            },
            Ok(_) => {},
        }
        let verified = verifier.verify_round_proof(&vk_id, proof, public_inputs);
        self.submit_zk_verification_verified(
            session_id,
            player,
            round,
            turn,
            commitment,
            vk_id,
            proof,
            public_inputs,
            verified,
        )
    }

    /// Sets the stake of a match at the time `now_ts`; the players then have
    /// [`STAKE_DEPOSIT_WINDOW_SECONDS`] to deposit. Setting the stake that is set
    /// changes nothing; another stake is refused.
    pub fn set_match_stake(
        &mut self,
        session_id: u32,
        stake_amount_stroops: i128,
        now_ts: u64,
    ) -> (result: Result<(), Error>)
        requires
            old(self)@.valid(),
            old(self)@.set_match_stake_fits(session_id, stake_amount_stroops),
        ensures
            result == match old(self)@.set_match_stake_error(session_id, stake_amount_stroops) {
                Some(error) => Err::<(), Error>(error),
                None => Ok(()),
            },
            final(self)@ == old(self)@.after_set_match_stake(
                session_id,
                stake_amount_stroops,
                now_ts,
            ),
            final(self)@.valid(),
    {
        let mut m = match self.matches.get(&session_id) {
            Some(m) => *m,
            None => {
                return Err(Error::MatchNotFound);
            },
        };
        if stake_amount_stroops <= 0 {
            return Err(Error::InvalidStake);
        }
        if m.stake_amount_stroops > 0 {
            if m.stake_amount_stroops != stake_amount_stroops {
                return Err(Error::InvalidStake);
            }
            return Ok(());
        }
        m.stake_amount_stroops = stake_amount_stroops;
        m.stake_fee_bps = STAKE_FEE_BPS;
        m.stake_deadline_ts = if now_ts <= u64::MAX - STAKE_DEPOSIT_WINDOW_SECONDS {
            now_ts + STAKE_DEPOSIT_WINDOW_SECONDS
        } else {
            u64::MAX
        };
        self.matches.set(session_id, m);
        Ok(())
    }

    /// Takes the stake of `player` at the time `now_ts`. Returns what the player
    /// owes the contract: stake and fee, or nothing where the player has deposited
    /// before.
    pub fn deposit_stake(
        &mut self,
        session_id: u32,
        player: Address,
        now_ts: u64,
    ) -> (result: Result<i128, Error>)
        requires
            old(self)@.valid(),
        ensures
            result == match old(self)@.deposit_stake_error(session_id, player, now_ts) {
                Some(error) => Err::<i128, Error>(error),
                None => Ok(old(self)@.deposit_stake_due(session_id, player) as i128),
            },
            final(self)@ == old(self)@.after_deposit_stake(session_id, player, now_ts),
            final(self)@.valid(),
    {
        let mut m = match self.matches.get(&session_id) {
            Some(m) => *m,
            None => {
                return Err(Error::MatchNotFound);
            },
        };
        if m.stake_amount_stroops <= 0 {
            return Err(Error::StakeNotConfigured);
        }
        if m.is_cancelled {
            return Err(Error::MatchCancelled);
        }
        if m.stake_deadline_ts > 0 && now_ts > m.stake_deadline_ts {
            return Err(Error::StakeDepositExpired);
        }
        let is_p1 = player.same_as(&m.player1);
        let is_p2 = player.same_as(&m.player2);
        if !is_p1 && !is_p2 {
            return Err(Error::NotPlayer);
        }
        if (is_p1 && m.player1_stake_paid) || (is_p2 && m.player2_stake_paid) {
            return Ok(0);
        }
        let stake_fee = Self::calc_fee(m.stake_amount_stroops, m.stake_fee_bps);
        let required = m.stake_amount_stroops + stake_fee;
        if is_p1 {
            m.player1_stake_paid = true;
        } else {
            m.player2_stake_paid = true;
        }
        self.matches.set(session_id, m);
        Ok(required)
    }

    /// Cancels a match whose deposit window has passed, at the time `now_ts`.
    /// Returns what the contract owes: stake and fee to the one player who
    /// deposited, where exactly one did.
    pub fn expire_stake(&mut self, session_id: u32, now_ts: u64) -> (result: Result<
        Option<Payment>,
        Error,
    >)
        requires
            old(self)@.valid(),
        ensures
            result == match old(self)@.expire_stake_error(session_id, now_ts) {
                Some(error) => Err::<Option<Payment>, Error>(error),
                None => Ok(old(self)@.expire_stake_refund(session_id)),
            },
            final(self)@ == old(self)@.after_expire_stake(session_id, now_ts),
            final(self)@.valid(),
    {
        let mut m = match self.active_match(session_id) {
            Ok(m) => m,
            Err(error) => {
                return Err(error);
            },
        };
        if m.stake_amount_stroops <= 0 {
            return Err(Error::StakeNotConfigured);
        }
        if m.stake_deadline_ts == 0 || now_ts < m.stake_deadline_ts {
            return Err(Error::DeadlineNotReached);
        }
        let mut refund: Option<Payment> = None;
        if m.player1_stake_paid != m.player2_stake_paid {
            let refund_fee = Self::calc_fee(m.stake_amount_stroops, m.stake_fee_bps);
            let refund_amount = m.stake_amount_stroops + refund_fee;
            let refund_to = if m.player1_stake_paid {
                m.player1
            } else {
                m.player2
            };
            refund = Some(Payment { to: refund_to, amount: refund_amount });
        }
        m.player1_stake_paid = false;
        m.player2_stake_paid = false;
        m.is_cancelled = true;
        self.matches.set(session_id, m);
        Ok(refund)
    }

    /// Cancels a match. Returns what the contract owes: stake and fee to each
    /// player who deposited, player 1 first.
    pub fn cancel_match(&mut self, session_id: u32) -> (result: Result<Vec<Payment>, Error>)
        requires
            old(self)@.valid(),
        ensures
            match old(self)@.active_match_error(session_id) {
                Some(error) => result == Err::<Vec<Payment>, Error>(error),
                None => result is Ok && result->Ok_0@ == old(self)@.cancel_match_refunds(session_id),
            },
            final(self)@ == old(self)@.after_cancel_match(session_id),
            final(self)@.valid(),
    {
        let mut m = match self.active_match(session_id) {
            Ok(m) => m,
            Err(error) => {
                return Err(error);
            },
        };
        let mut refunds: Vec<Payment> = Vec::new();
        if m.stake_amount_stroops > 0 {
            let refund_fee = Self::calc_fee(m.stake_amount_stroops, m.stake_fee_bps);
            let refund_amount = m.stake_amount_stroops + refund_fee;
            if m.player1_stake_paid {
                refunds.push(Payment { to: m.player1, amount: refund_amount });
            }
            if m.player2_stake_paid {
                refunds.push(Payment { to: m.player2, amount: refund_amount });
            }
        }
        m.player1_stake_paid = false;
        m.player2_stake_paid = false;
        m.is_cancelled = true;
        self.matches.set(session_id, m);
        Ok(refunds)
    }

    /// Sweeps accrued fees at the time `now_ts`, at most once in
    /// [`FEE_SWEEP_INTERVAL_SECONDS`], where `balance` is what the contract holds
    /// of its token. Returns what the contract owes the treasury: the accrued fees,
    /// as far as the balance exceeds [`RESERVE_STROOPS`].
    pub fn sweep_treasury(&mut self, now_ts: u64, balance: i128) -> (result: Result<i128, Error>)
        requires
            old(self)@.valid(),
        ensures
            result == match old(self)@.sweep_treasury_error(now_ts, balance) {
                Some(error) => Err::<i128, Error>(error),
                None => Ok(old(self)@.sweepable(balance) as i128),
            },
            final(self)@ == old(self)@.after_sweep_treasury(now_ts, balance),
            final(self)@.valid(),
    {
        if self.last_sweep_ts > 0 && (now_ts < self.last_sweep_ts || now_ts - self.last_sweep_ts
            < FEE_SWEEP_INTERVAL_SECONDS) {
            return Err(Error::SweepTooEarly);
        }
        let accrued_fee = self.fee_accrued;
        if accrued_fee <= 0 {
            return Err(Error::NothingToSweep);
        }
        let sweepable = if balance > RESERVE_STROOPS {
            let above_reserve = balance - RESERVE_STROOPS;
            if above_reserve < accrued_fee {
                above_reserve
            } else {
                accrued_fee
            }
        } else {
            0
        };
        if sweepable <= 0 {
            return Err(Error::NothingToSweep);
        }
        self.fee_accrued = accrued_fee - sweepable;
        self.last_sweep_ts = now_ts;
        Ok(sweepable)
    }

    /// The match `session_id`.
    pub fn get_match(&self, session_id: u32) -> (result: Result<Match, Error>)
        ensures
            result == if self@.matches.contains_key(session_id) {
                Ok::<Match, Error>(self@.matches[session_id])
            } else {
                Err(Error::MatchNotFound)
            },
    {
        match self.matches.get(&session_id) {
            Some(m) => Ok(*m),
            None => Err(Error::MatchNotFound),
        }
    }

    pub fn get_admin(&self) -> (admin: Address)
        ensures
            admin == self@.admin,
    {
        self.admin
    }

    pub fn get_hub(&self) -> (hub: Address)
        ensures
            hub == self@.game_hub,
    {
        self.game_hub
    }

    pub fn get_treasury(&self) -> (treasury: Address)
        ensures
            treasury == self@.treasury,
    {
        self.treasury
    }

    /// The token that stakes and fees are held in.
    pub fn get_xlm_token(&self) -> (xlm_token: Address)
        ensures
            xlm_token == self@.xlm_token,
    {
        self.xlm_token
    }

    /// The fees of finished matches that were not yet swept.
    pub fn get_fee_accrued(&self) -> (accrued: i128)
        ensures
            accrued == self@.fee_accrued,
    {
        self.fee_accrued
    }

    pub fn get_last_sweep_ts(&self) -> (last: u64)
        ensures
            last == self@.last_sweep_ts,
    {
        self.last_sweep_ts
    }

    pub fn get_zk_gate_required(&self) -> (required: bool)
        ensures
            required == self@.zk_gate_required,
    {
        self.zk_gate_required
    }

    pub fn get_zk_verifier_contract(&self) -> (result: Result<Address, Error>)
        ensures
            result == match self@.zk_verifier_contract {
                Some(verifier_contract) => Ok::<Address, Error>(verifier_contract),
                None => Err(Error::ZkVerifierNotConfigured),
            },
    {
        match self.zk_verifier_contract {
            Some(verifier_contract) => Ok(verifier_contract),
            None => Err(Error::ZkVerifierNotConfigured),
        }
    }

    pub fn get_zk_verifier_vk_id(&self) -> (vk_id: [u8; 32])
        ensures
            vk_id == self@.zk_verifier_vk_id,
    {
        self.zk_verifier_vk_id
    }

    /// The bound winner of the match `session_id`.
    pub fn get_zk_match_outcome(&self, session_id: u32) -> (result: Result<
        ZkMatchOutcomeRecord,
        Error,
    >)
        ensures
            result == if self@.zk_outcomes.contains_key(session_id) {
                Ok::<ZkMatchOutcomeRecord, Error>(self@.zk_outcomes[session_id])
            } else {
                Err(Error::ZkMatchOutcomeRequired)
            },
    {
        match self.zk_outcomes.get(&session_id) {
            Some(outcome) => Ok(*outcome),
            None => Err(Error::ZkMatchOutcomeRequired),
        }
    }

    pub fn set_admin(&mut self, new_admin: Address)
        ensures
            final(self)@ == (BrawlState { admin: new_admin, ..old(self)@ }),
            old(self)@.valid() ==> final(self)@.valid(),
    {
        self.admin = new_admin;
    }

    pub fn set_hub(&mut self, new_hub: Address)
        ensures
            final(self)@ == (BrawlState { game_hub: new_hub, ..old(self)@ }),
            old(self)@.valid() ==> final(self)@.valid(),
    {
        self.game_hub = new_hub;
    }

    pub fn set_treasury(&mut self, new_treasury: Address)
        ensures
            final(self)@ == (BrawlState { treasury: new_treasury, ..old(self)@ }),
            old(self)@.valid() ==> final(self)@.valid(),
    {
        self.treasury = new_treasury;
    }

    /// Says whether a match can be finalized only behind verified proofs.
    pub fn set_zk_gate_required(&mut self, required: bool)
        ensures
            final(self)@ == (BrawlState { zk_gate_required: required, ..old(self)@ }),
            old(self)@.valid() ==> final(self)@.valid(),
    {
        self.zk_gate_required = required;
    }

    pub fn set_zk_verifier_contract(&mut self, verifier_contract: Address)
        ensures
            final(self)@ == (BrawlState {
                zk_verifier_contract: Some(verifier_contract),
                ..old(self)@
            }),
            old(self)@.valid() ==> final(self)@.valid(),
    {
        self.zk_verifier_contract = Some(verifier_contract);
    }

    pub fn set_zk_verifier_vk_id(&mut self, vk_id: [u8; 32])
        ensures
            final(self)@ == (BrawlState { zk_verifier_vk_id: vk_id, ..old(self)@ }),
            old(self)@.valid() ==> final(self)@.valid(),
    {
        self.zk_verifier_vk_id = vk_id;
    }

    /// The protocol fee on a stake: `fee_bps` basis points of it, rounded up.
    pub fn calc_fee(stake_amount_stroops: i128, fee_bps: u32) -> (fee: i128)
        requires
            i128::MIN < stake_amount_stroops * fee_bps,
            stake_amount_stroops * fee_bps + 9_999 <= i128::MAX,
        ensures
            fee == fee_for(stake_amount_stroops as int, fee_bps as int),
    {
        fee(stake_amount_stroops, fee_bps)
    }
}

} // verus!
