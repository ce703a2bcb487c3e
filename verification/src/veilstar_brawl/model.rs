//! The match contract as a state machine over plain values.
//!
//! [`BrawlState`] is what the contract holds; for each operation one function says
//! when it is refused and one says what it leaves behind.

use vstd::prelude::*;
use crate::fees::fee_for;
use crate::host::sha256_digest;
use crate::primitives::{Address, array32, be_bytes, is_zero_id, zero_id};
use crate::veilstar_brawl::types::{
    Error, Event, FEE_SWEEP_INTERVAL_SECONDS, MOVE_COST_STROOPS, Match, MoveType, Payment,
    RESERVE_STROOPS, STAKE_DEPOSIT_WINDOW_SECONDS, STAKE_FEE_BPS, SlotKey, ZkMatchOutcomeRecord,
    ZkVerificationRecord,
};

verus! {

/// The salt of the match that starts under `session_id` at the ledger sequence
/// `ledger_sequence`: the SHA-256 of the two numbers, four big-endian bytes each.
pub open spec fn match_salt_of(session_id: u32, ledger_sequence: u32) -> [u8; 32] {
    array32(sha256_digest(be_bytes(session_id) + be_bytes(ledger_sequence)))
}

/// The match that a start records.
pub open spec fn new_match(
    player1: Address,
    player2: Address,
    player1_points: i128,
    player2_points: i128,
) -> Match {
    Match {
        player1,
        player2,
        player1_points,
        player2_points,
        player1_moves: 0,
        player2_moves: 0,
        total_xlm_collected: 0,
        stake_amount_stroops: 0,
        stake_fee_bps: STAKE_FEE_BPS,
        stake_deadline_ts: 0,
        player1_stake_paid: false,
        player2_stake_paid: false,
        fee_accrued_stroops: 0,
        player1_zk_commits: 0,
        player2_zk_commits: 0,
        player1_zk_verified: 0,
        player2_zk_verified: 0,
        is_cancelled: false,
        winner: None,
    }
}

/// What a player owes for a stake: the stake and the fee on it.
pub open spec fn stake_due(m: Match) -> int {
    m.stake_amount_stroops + fee_for(m.stake_amount_stroops as int, m.stake_fee_bps as int)
}

/// What is true of every recorded match.
pub open spec fn match_valid(m: Match) -> bool {
    &&& 0 <= m.stake_amount_stroops
    &&& m.stake_amount_stroops * STAKE_FEE_BPS + 9_999 <= i128::MAX
    &&& m.stake_fee_bps == STAKE_FEE_BPS
    &&& 0 <= m.fee_accrued_stroops
    &&& m.winner is None ==> m.fee_accrued_stroops == 0
}

/// What the match contract holds.
pub struct BrawlState {
    pub admin: Address,
    pub game_hub: Address,
    pub treasury: Address,
    pub xlm_token: Address,
    /// The verifier contract that proofs go to, once configured.
    pub zk_verifier_contract: Option<Address>,
    /// The verifying key that proofs must name; all zero while none is configured.
    pub zk_verifier_vk_id: [u8; 32],
    /// Whether a match can be finalized only behind verified proofs.
    pub zk_gate_required: bool,
    /// Fees of finished matches that were not yet swept.
    pub fee_accrued: i128,
    /// When fees were last swept, in seconds; 0 for never.
    pub last_sweep_ts: u64,
    /// The matches, by session id.
    pub matches: Map<u32, Match>,
    /// The salt of each match, by session id.
    pub salts: Map<u32, [u8; 32]>,
    /// The commitment of each slot that was committed to.
    pub zk_commits: Map<SlotKey, [u8; 32]>,
    /// The record of each slot with a verified proof.
    pub zk_verified: Map<SlotKey, ZkVerificationRecord>,
    /// The bound winner of each match that has one, by session id.
    pub zk_outcomes: Map<u32, ZkMatchOutcomeRecord>,
    /// What happened since the events were last taken, oldest first.
    pub events: Seq<Event>,
}

impl BrawlState {
    /// The state a new contract starts in.
    pub open spec fn initial(
        admin: Address,
        game_hub: Address,
        treasury: Address,
        xlm_token: Address,
    ) -> BrawlState {
        BrawlState {
            admin,
            game_hub,
            treasury,
            xlm_token,
            zk_verifier_contract: None,
            zk_verifier_vk_id: zero_id(),
            zk_gate_required: false,
            fee_accrued: 0,
            last_sweep_ts: 0,
            matches: Map::empty(),
            salts: Map::empty(),
            zk_commits: Map::empty(),
            zk_verified: Map::empty(),
            zk_outcomes: Map::empty(),
            events: Seq::empty(),
        }
    }

    /// The invariant of the contract: the accrued fees are not negative, and every
    /// match carries the protocol's fee rate and a stake whose fee can be computed.
    pub open spec fn valid(self) -> bool {
        &&& self.fee_accrued >= 0
        &&& forall|session_id: u32| #[trigger]
            self.matches.contains_key(session_id) ==> match_valid(self.matches[session_id])
    }

    /// The state with one match replaced.
    pub open spec fn with_match(self, session_id: u32, m: Match) -> BrawlState {
        BrawlState { matches: self.matches.insert(session_id, m), ..self }
    }

    /// The state with one more event on record.
    pub open spec fn with_event(self, event: Event) -> BrawlState {
        BrawlState { events: self.events.push(event), ..self }
    }

    /// Why a match cannot be played on, if it cannot: it is missing, has a winner
    /// or was cancelled.
    pub open spec fn active_match_error(self, session_id: u32) -> Option<Error> {
        if !self.matches.contains_key(session_id) {
            Some(Error::MatchNotFound)
        } else if self.matches[session_id].winner is Some {
            Some(Error::MatchAlreadyEnded)
        } else if self.matches[session_id].is_cancelled {
            Some(Error::MatchCancelled)
        } else {
            None
        }
    }

    /// Why `player` cannot act in a match, if that is so: the match cannot be played
    /// on, or `player` is neither of its players.
    pub open spec fn player_error(self, session_id: u32, player: Address) -> Option<Error> {
        if self.active_match_error(session_id) is Some {
            self.active_match_error(session_id)
        } else if player != self.matches[session_id].player1 && player
            != self.matches[session_id].player2 {
            Some(Error::NotPlayer)
        } else {
            None
        }
    }

    /// The slot of `player` in a match, at a round and a turn.
    pub open spec fn slot(
        self,
        session_id: u32,
        player: Address,
        round: u32,
        turn: u32,
    ) -> SlotKey {
        SlotKey {
            session_id,
            salt: self.salts[session_id],
            round,
            turn,
            is_player1: player == self.matches[session_id].player1,
        }
    }

    // ---- start_game

    pub open spec fn after_start_game(
        self,
        session_id: u32,
        player1: Address,
        player2: Address,
        player1_points: i128,
        player2_points: i128,
        ledger_sequence: u32,
    ) -> BrawlState {
        BrawlState {
            matches: self.matches.insert(
                session_id,
                new_match(player1, player2, player1_points, player2_points),
            ),
            salts: self.salts.insert(session_id, match_salt_of(session_id, ledger_sequence)),
            ..self
        }
    }

    // ---- submit_move, submit_power_surge

    /// Whether the count and the sum that an accepted move adds to stay within the
    /// machine's integers. A move that is refused adds to none.
    pub open spec fn submit_move_fits(self, session_id: u32, player: Address) -> bool {
        let m = self.matches[session_id];
        self.player_error(session_id, player) is None ==> {
            &&& if player == m.player1 {
                m.player1_moves < u32::MAX
            } else {
                m.player2_moves < u32::MAX
            }
            &&& m.total_xlm_collected + MOVE_COST_STROOPS <= i128::MAX
        }
    }

    /// Whether the sum that an accepted power surge adds to stays within `i128`. A
    /// power surge that is refused adds to none.
    pub open spec fn submit_power_surge_fits(self, session_id: u32, player: Address) -> bool {
        self.player_error(session_id, player) is None ==> self.matches[session_id].total_xlm_collected
            + MOVE_COST_STROOPS <= i128::MAX
    }

    pub open spec fn after_submit_move(
        self,
        session_id: u32,
        player: Address,
        move_type: MoveType,
        turn: u32,
    ) -> BrawlState {
        if self.player_error(session_id, player) is Some {
            self
        } else {
            let m = self.matches[session_id];
            self.with_match(
                session_id,
                Match {
                    player1_moves: if player == m.player1 {
                        (m.player1_moves + 1) as u32
                    } else {
                        m.player1_moves
                    },
                    player2_moves: if player == m.player1 {
                        m.player2_moves
                    } else {
                        (m.player2_moves + 1) as u32
                    },
                    total_xlm_collected: (m.total_xlm_collected + MOVE_COST_STROOPS) as i128,
                    ..m
                },
            ).with_event(Event::MoveSubmitted { session_id, turn, player, move_type })
        }
    }

    pub open spec fn after_submit_power_surge(
        self,
        session_id: u32,
        player: Address,
        round: u32,
        card_code: u32,
    ) -> BrawlState {
        if self.player_error(session_id, player) is Some {
            self
        } else {
            let m = self.matches[session_id];
            self.with_match(
                session_id,
                Match {
                    total_xlm_collected: (m.total_xlm_collected + MOVE_COST_STROOPS) as i128,
                    ..m
                },
            ).with_event(Event::PowerSurgeSubmitted { session_id, round, player, card_code })
        }
    }

    // ---- end_game

    /// Why a match cannot be finalized, if it cannot. Where proofs are required, both sides
    /// need a verified slot, the winner must be bound by a proof, and the claim
    /// `player1_won` must agree with the bound winner.
    pub open spec fn end_game_error(self, session_id: u32, player1_won: bool) -> Option<Error> {
        if self.active_match_error(session_id) is Some {
            self.active_match_error(session_id)
        } else {
            let m = self.matches[session_id];
            if self.zk_gate_required && (m.player1_zk_verified == 0 || m.player2_zk_verified == 0) {
                Some(Error::ZkCommitRequired)
            } else if self.zk_gate_required && !self.zk_outcomes.contains_key(session_id) {
                Some(Error::ZkMatchOutcomeRequired)
            } else if self.zk_gate_required && (self.zk_outcomes[session_id].winner == m.player1)
                != player1_won {
                Some(Error::InvalidWinnerClaim)
            } else if m.stake_amount_stroops > 0 && !(m.player1_stake_paid
                && m.player2_stake_paid) {
                Some(Error::StakeNotPaid)
            } else {
                None
            }
        }
    }

    /// The winner that finalizing records: where proofs are required the bound winner,
    /// otherwise the player that the claim names.
    pub open spec fn end_game_winner(self, session_id: u32, player1_won: bool) -> Address {
        if self.zk_gate_required {
            self.zk_outcomes[session_id].winner
        } else if player1_won {
            self.matches[session_id].player1
        } else {
            self.matches[session_id].player2
        }
    }

    /// The fees that finalizing a match accrues: both players' fees where a stake
    /// is set.
    pub open spec fn end_game_fees(self, session_id: u32) -> int {
        let m = self.matches[session_id];
        if m.stake_amount_stroops > 0 {
            2 * fee_for(m.stake_amount_stroops as int, m.stake_fee_bps as int)
        } else {
            0
        }
    }

    /// What finalizing a match pays the winner: twice the stake, where one is set.
    pub open spec fn end_game_payment(self, session_id: u32, player1_won: bool) -> Option<Payment> {
        let m = self.matches[session_id];
        if m.stake_amount_stroops > 0 {
            Some(
                Payment {
                    to: self.end_game_winner(session_id, player1_won),
                    amount: (2 * m.stake_amount_stroops) as i128,
                },
            )
        } else {
            None
        }
    }

    /// Whether the fees of the match can be added to the accrued fees within `i128`,
    /// where the match can be finalized. Where it cannot, nothing is added.
    pub open spec fn end_game_fits(self, session_id: u32, player1_won: bool) -> bool {
        self.end_game_error(session_id, player1_won) is None ==> self.fee_accrued
            + self.end_game_fees(session_id) <= i128::MAX
    }

    pub open spec fn after_end_game(self, session_id: u32, player1_won: bool) -> BrawlState {
        if self.end_game_error(session_id, player1_won) is Some {
            self
        } else {
            let m = self.matches[session_id];
            BrawlState {
                fee_accrued: (self.fee_accrued + self.end_game_fees(session_id)) as i128,
                ..self.with_match(
                    session_id,
                    Match {
                        winner: Some(self.end_game_winner(session_id, player1_won)),
                        fee_accrued_stroops: (m.fee_accrued_stroops + self.end_game_fees(
                            session_id,
                        )) as i128,
                        ..m
                    },
                )
            }
        }
    }

    // ---- submit_zk_match_outcome

    /// Why a proof of a match's winner is refused before the verifier is asked, if
    /// it is.
    pub open spec fn outcome_request_error(
        self,
        session_id: u32,
        winner: Address,
        vk_id: [u8; 32],
        proof: Seq<u8>,
        public_inputs: Seq<[u8; 32]>,
    ) -> Option<Error> {
        if proof.len() != 256 || public_inputs.len() == 0 {
            Some(Error::ZkProofInvalid)
        } else if self.active_match_error(session_id) is Some {
            self.active_match_error(session_id)
        } else if is_zero_id(self.zk_verifier_vk_id) || vk_id != self.zk_verifier_vk_id {
            Some(Error::ZkProofInvalid)
        } else if winner != self.matches[session_id].player1 && winner
            != self.matches[session_id].player2 {
            Some(Error::InvalidWinnerClaim)
        } else if self.zk_verifier_contract is None {
            Some(Error::ZkVerifierNotConfigured)
        } else {
            None
        }
    }

    /// Why a proof of a match's winner is refused, if it is, where `verified` is
    /// the verifier's answer to the proof. A match's winner is bound once: a second
    /// proof is refused even where it is valid.
    pub open spec fn submit_zk_match_outcome_error(
        self,
        session_id: u32,
        winner: Address,
        vk_id: [u8; 32],
        proof: Seq<u8>,
        public_inputs: Seq<[u8; 32]>,
        verified: bool,
    ) -> Option<Error> {
        if self.outcome_request_error(session_id, winner, vk_id, proof, public_inputs) is Some {
            self.outcome_request_error(session_id, winner, vk_id, proof, public_inputs)
        } else if !verified {
            Some(Error::ZkProofInvalid)
        } else if self.zk_outcomes.contains_key(session_id) {
            Some(Error::ZkVerificationAlreadySubmitted)
        } else {
            None
        }
    }

    pub open spec fn after_submit_zk_match_outcome(
        self,
        session_id: u32,
        winner: Address,
        vk_id: [u8; 32],
        proof: Seq<u8>,
        public_inputs: Seq<[u8; 32]>,
        verified: bool,
    ) -> BrawlState {
        if self.submit_zk_match_outcome_error(
            session_id,
            winner,
            vk_id,
            proof,
            public_inputs,
            verified,
        ) is Some {
            self
        } else {
            BrawlState {
                zk_outcomes: self.zk_outcomes.insert(
                    session_id,
                    ZkMatchOutcomeRecord {
                        verifier_contract: self.zk_verifier_contract->0,
                        winner,
                        vk_id,
                    },
                ),
                ..self
            }.with_event(
                Event::WinnerBound { session_id, verifier_contract: self.zk_verifier_contract->0 },
            )
        }
    }

    // ---- submit_zk_commit

    /// Why a commitment is refused, if it is. A slot keeps the commitment it was
    /// first given: the same value is accepted again, another is refused.
    pub open spec fn submit_zk_commit_error(
        self,
        session_id: u32,
        player: Address,
        round: u32,
        turn: u32,
        commitment: [u8; 32],
    ) -> Option<Error> {
        if round == 0 || turn == 0 {
            Some(Error::InvalidZkCommitment)
        } else if self.player_error(session_id, player) is Some {
            self.player_error(session_id, player)
        } else if !self.salts.contains_key(session_id) {
            Some(Error::MatchNotFound)
        } else if self.zk_commits.contains_key(self.slot(session_id, player, round, turn))
            && self.zk_commits[self.slot(session_id, player, round, turn)] != commitment {
            Some(Error::ZkCommitAlreadySubmitted)
        } else {
            None
        }
    }

    /// Whether the count that an accepted commitment adds to stays within `u32`.
    /// A commitment that is refused, or that its slot holds already, adds to none.
    pub open spec fn submit_zk_commit_fits(
        self,
        session_id: u32,
        player: Address,
        round: u32,
        turn: u32,
        commitment: [u8; 32],
    ) -> bool {
        let slot = self.slot(session_id, player, round, turn);
        self.submit_zk_commit_error(session_id, player, round, turn, commitment) is None
            && !self.zk_commits.contains_key(slot) ==> if slot.is_player1 {
            self.matches[session_id].player1_zk_commits < u32::MAX
        } else {
            self.matches[session_id].player2_zk_commits < u32::MAX
        }
    }

    /// A commitment is recorded under its slot, where the slot holds none. The
    /// commitment that a slot holds stays, and the side's count of commitments
    /// grows only where the slot held none before.
    pub open spec fn after_submit_zk_commit(
        self,
        session_id: u32,
        player: Address,
        round: u32,
        turn: u32,
        commitment: [u8; 32],
    ) -> BrawlState {
        if self.submit_zk_commit_error(session_id, player, round, turn, commitment) is Some {
            self
        } else {
            let m = self.matches[session_id];
            let slot = self.slot(session_id, player, round, turn);
            let fresh = !self.zk_commits.contains_key(slot);
            BrawlState {
                zk_commits: if fresh {
                    self.zk_commits.insert(slot, commitment)
                } else {
                    self.zk_commits
                },
                ..self.with_match(
                    session_id,
                    Match {
                        player1_zk_commits: if fresh && slot.is_player1 {
                            (m.player1_zk_commits + 1) as u32
                        } else {
                            m.player1_zk_commits
                        },
                        player2_zk_commits: if fresh && !slot.is_player1 {
                            (m.player2_zk_commits + 1) as u32
                        } else {
                            m.player2_zk_commits
                        },
                        ..m
                    },
                )
            }.with_event(Event::MoveCommitted { session_id, round, turn, player, commitment })
        }
    }

    // ---- submit_zk_verification

    /// Why a proof for a slot is refused before the verifier is asked, if it is.
    /// The value that the proof opens must be the commitment on record for the
    /// slot, and where a verifying key is configured the proof must name it.
    pub open spec fn verification_request_error(
        self,
        session_id: u32,
        player: Address,
        round: u32,
        turn: u32,
        commitment: [u8; 32],
        vk_id: [u8; 32],
        proof: Seq<u8>,
        public_inputs: Seq<[u8; 32]>,
    ) -> Option<Error> {
        if round == 0 || turn == 0 {
            Some(Error::InvalidZkCommitment)
        } else if proof.len() == 0 {
            Some(Error::ZkProofInvalid)
        } else if self.player_error(session_id, player) is Some {
            self.player_error(session_id, player)
        } else if !self.salts.contains_key(session_id) {
            Some(Error::MatchNotFound)
        } else if !self.zk_commits.contains_key(self.slot(session_id, player, round, turn)) {
            Some(Error::ZkCommitNotFound)
        } else if self.zk_commits[self.slot(session_id, player, round, turn)] != commitment {
            Some(Error::InvalidZkCommitment)
        } else if !is_zero_id(self.zk_verifier_vk_id) && vk_id != self.zk_verifier_vk_id {
            Some(Error::ZkProofInvalid)
        } else if proof.len() != 256 || public_inputs.len() == 0 {
            Some(Error::ZkProofInvalid)
        } else if self.zk_verifier_contract is None {
            Some(Error::ZkVerifierNotConfigured)
        } else {
            None
        }
    }

    /// Why a proof for a slot is refused, if it is, where `verified` is the
    /// verifier's answer to the proof.
    pub open spec fn submit_zk_verification_error(
        self,
        session_id: u32,
        player: Address,
        round: u32,
        turn: u32,
        commitment: [u8; 32],
        vk_id: [u8; 32],
        proof: Seq<u8>,
        public_inputs: Seq<[u8; 32]>,
        verified: bool,
    ) -> Option<Error> {
        let early = self.verification_request_error(
            session_id,
            player,
            round,
            turn,
            commitment,
            vk_id,
            proof,
            public_inputs,
        );
        if early is Some {
            early
        } else if !verified {
            Some(Error::ZkProofInvalid)
        } else {
            None
        }
    }

    /// Whether the count that a proof adds to, where the verifier accepts it, stays
    /// within `u32`. A proof that is refused before the verifier is asked, or for a
    /// slot that holds a record already, adds to none.
    pub open spec fn submit_zk_verification_fits(
        self,
        session_id: u32,
        player: Address,
        round: u32,
        turn: u32,
        commitment: [u8; 32],
        vk_id: [u8; 32],
        proof: Seq<u8>,
        public_inputs: Seq<[u8; 32]>,
    ) -> bool {
        let slot = self.slot(session_id, player, round, turn);
        self.verification_request_error(
            session_id,
            player,
            round,
            turn,
            commitment,
            vk_id,
            proof,
            public_inputs,
        ) is None && !self.zk_verified.contains_key(slot) ==> if slot.is_player1 {
            self.matches[session_id].player1_zk_verified < u32::MAX
        } else {
            self.matches[session_id].player2_zk_verified < u32::MAX
        }
    }

    /// A verified proof is recorded under its slot, where the slot holds no record.
    /// The record that a slot holds stays as it was written, and the side's count of
    /// verified slots grows only where the slot held no record before.
    pub open spec fn after_submit_zk_verification(
        self,
        session_id: u32,
        player: Address,
        round: u32,
        turn: u32,
        commitment: [u8; 32],
        vk_id: [u8; 32],
        proof: Seq<u8>,
        public_inputs: Seq<[u8; 32]>,
        verified: bool,
    ) -> BrawlState {
        if self.submit_zk_verification_error(
            session_id,
            player,
            round,
            turn,
            commitment,
            vk_id,
            proof,
            public_inputs,
            verified,
        ) is Some {
            self
        } else {
            let m = self.matches[session_id];
            let slot = self.slot(session_id, player, round, turn);
            let fresh = !self.zk_verified.contains_key(slot);
            BrawlState {
                zk_verified: if fresh {
                    self.zk_verified.insert(
                        slot,
                        ZkVerificationRecord {
                            verifier_contract: self.zk_verifier_contract->0,
                            commitment,
                            vk_id,
                        },
                    )
                } else {
                    self.zk_verified
                },
                ..self.with_match(
                    session_id,
                    Match {
                        player1_zk_verified: if fresh && slot.is_player1 {
                            (m.player1_zk_verified + 1) as u32
                        } else {
                            m.player1_zk_verified
                        },
                        player2_zk_verified: if fresh && !slot.is_player1 {
                            (m.player2_zk_verified + 1) as u32
                        } else {
                            m.player2_zk_verified
                        },
                        ..m
                    },
                )
            }.with_event(
                Event::MoveVerified {
                    session_id,
                    round,
                    turn,
                    player,
                    verifier_contract: self.zk_verifier_contract->0,
                },
            )
        }
    }

    // ---- set_match_stake

    pub open spec fn set_match_stake_error(
        self,
        session_id: u32,
        stake_amount_stroops: i128,
    ) -> Option<Error> {
        if !self.matches.contains_key(session_id) {
            Some(Error::MatchNotFound)
        } else if stake_amount_stroops <= 0 {
            Some(Error::InvalidStake)
        } else if self.matches[session_id].stake_amount_stroops > 0
            && self.matches[session_id].stake_amount_stroops != stake_amount_stroops {
            Some(Error::InvalidStake)
        } else {
            None
        }
    }

    /// Whether the fee on the stake can be computed within `i128`, where the stake
    /// would be set. Where the stake is refused, or is the one that is set, nothing
    /// is computed.
    pub open spec fn set_match_stake_fits(self, session_id: u32, stake_amount_stroops: i128) -> bool {
        self.set_match_stake_error(session_id, stake_amount_stroops) is None
            && self.matches[session_id].stake_amount_stroops <= 0 ==> stake_amount_stroops
            * STAKE_FEE_BPS + 9_999 <= i128::MAX
    }

    /// A stake is set once; setting the same stake again changes nothing.
    pub open spec fn after_set_match_stake(
        self,
        session_id: u32,
        stake_amount_stroops: i128,
        now_ts: u64,
    ) -> BrawlState {
        if self.set_match_stake_error(session_id, stake_amount_stroops) is Some
            || self.matches[session_id].stake_amount_stroops > 0 {
            self
        } else {
            self.with_match(
                session_id,
                Match {
                    stake_amount_stroops,
                    stake_fee_bps: STAKE_FEE_BPS,
                    stake_deadline_ts: if now_ts + STAKE_DEPOSIT_WINDOW_SECONDS <= u64::MAX {
                        (now_ts + STAKE_DEPOSIT_WINDOW_SECONDS) as u64
                    } else {
                        u64::MAX
                    },
                    ..self.matches[session_id]
                },
            )
        }
    }

    // ---- deposit_stake

    pub open spec fn deposit_stake_error(
        self,
        session_id: u32,
        player: Address,
        now_ts: u64,
    ) -> Option<Error> {
        if !self.matches.contains_key(session_id) {
            Some(Error::MatchNotFound)
        } else {
            let m = self.matches[session_id];
            if m.stake_amount_stroops <= 0 {
                Some(Error::StakeNotConfigured)
            } else if m.is_cancelled {
                Some(Error::MatchCancelled)
            } else if m.stake_deadline_ts > 0 && now_ts > m.stake_deadline_ts {
                Some(Error::StakeDepositExpired)
            } else if player != m.player1 && player != m.player2 {
                Some(Error::NotPlayer)
            } else {
                None
            }
        }
    }

    /// Whether `player` has deposited the stake of a match.
    pub open spec fn has_deposited(self, session_id: u32, player: Address) -> bool {
        let m = self.matches[session_id];
        (player == m.player1 && m.player1_stake_paid) || (player == m.player2
            && m.player2_stake_paid)
    }

    /// What a deposit asks of the player: stake and fee, or nothing where the
    /// player has deposited before.
    pub open spec fn deposit_stake_due(self, session_id: u32, player: Address) -> int {
        if self.has_deposited(session_id, player) {
            0
        } else {
            stake_due(self.matches[session_id])
        }
    }

    pub open spec fn after_deposit_stake(
        self,
        session_id: u32,
        player: Address,
        now_ts: u64,
    ) -> BrawlState {
        if self.deposit_stake_error(session_id, player, now_ts) is Some || self.has_deposited(
            session_id,
            player,
        ) {
            self
        } else {
            let m = self.matches[session_id];
            self.with_match(
                session_id,
                if player == m.player1 {
                    Match { player1_stake_paid: true, ..m }
                } else {
                    Match { player2_stake_paid: true, ..m }
                },
            )
        }
    }

    // ---- expire_stake, cancel_match

    pub open spec fn expire_stake_error(self, session_id: u32, now_ts: u64) -> Option<Error> {
        if self.active_match_error(session_id) is Some {
            self.active_match_error(session_id)
        } else if self.matches[session_id].stake_amount_stroops <= 0 {
            Some(Error::StakeNotConfigured)
        } else if self.matches[session_id].stake_deadline_ts == 0 || now_ts
            < self.matches[session_id].stake_deadline_ts {
            Some(Error::DeadlineNotReached)
        } else {
            None
        }
    }

    /// What expiring a match's stake pays back: stake and fee to the one player
    /// who deposited, where exactly one did.
    pub open spec fn expire_stake_refund(self, session_id: u32) -> Option<Payment> {
        let m = self.matches[session_id];
        if m.player1_stake_paid != m.player2_stake_paid {
            Some(
                Payment {
                    to: if m.player1_stake_paid {
                        m.player1
                    } else {
                        m.player2
                    },
                    amount: stake_due(m) as i128,
                },
            )
        } else {
            None
        }
    }

    /// The match, cancelled and with no stake paid.
    pub open spec fn cancelled(m: Match) -> Match {
        Match { player1_stake_paid: false, player2_stake_paid: false, is_cancelled: true, ..m }
    }

    pub open spec fn after_expire_stake(self, session_id: u32, now_ts: u64) -> BrawlState {
        if self.expire_stake_error(session_id, now_ts) is Some {
            self
        } else {
            self.with_match(session_id, Self::cancelled(self.matches[session_id]))
        }
    }

    /// What cancelling a match pays back: stake and fee to each player who
    /// deposited, player 1 first.
    pub open spec fn cancel_match_refunds(self, session_id: u32) -> Seq<Payment> {
        let m = self.matches[session_id];
        let first = if m.stake_amount_stroops > 0 && m.player1_stake_paid {
            seq![Payment { to: m.player1, amount: stake_due(m) as i128 }]
        } else {
            Seq::empty()
        };
        let second = if m.stake_amount_stroops > 0 && m.player2_stake_paid {
            seq![Payment { to: m.player2, amount: stake_due(m) as i128 }]
        } else {
            Seq::empty()
        };
        first + second
    }

    pub open spec fn after_cancel_match(self, session_id: u32) -> BrawlState {
        if self.active_match_error(session_id) is Some {
            self
        } else {
            self.with_match(session_id, Self::cancelled(self.matches[session_id]))
        }
    }

    // ---- sweep_treasury

    /// What a sweep can take at the balance `balance`: the accrued fees, as far as
    /// the balance exceeds the reserve.
    pub open spec fn sweepable(self, balance: i128) -> int {
        if balance > RESERVE_STROOPS {
            if balance - RESERVE_STROOPS < self.fee_accrued {
                balance - RESERVE_STROOPS
            } else {
                self.fee_accrued as int
            }
        } else {
            0
        }
    }

    pub open spec fn sweep_treasury_error(self, now_ts: u64, balance: i128) -> Option<Error> {
        if self.last_sweep_ts > 0 && now_ts - self.last_sweep_ts < FEE_SWEEP_INTERVAL_SECONDS {
            Some(Error::SweepTooEarly)
        } else if self.fee_accrued <= 0 {
            Some(Error::NothingToSweep)
        } else if self.sweepable(balance) <= 0 {
            Some(Error::NothingToSweep)
        } else {
            None
        }
    }

    pub open spec fn after_sweep_treasury(self, now_ts: u64, balance: i128) -> BrawlState {
        if self.sweep_treasury_error(now_ts, balance) is Some {
            self
        } else {
            BrawlState {
                fee_accrued: (self.fee_accrued - self.sweepable(balance)) as i128,
                last_sweep_ts: now_ts,
                ..self
            }
        }
    }
}

} // verus!
