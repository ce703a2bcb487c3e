//! Records and constants of the match contract.

use vstd::prelude::*;
use crate::primitives::{Address, bytes_eq};
use crate::store::StoreKey;

verus! {

/// What a move or a power surge costs the player, in minor units.
pub const MOVE_COST_STROOPS: i128 = 1_000;

/// What a sweep leaves in the contract's balance, in minor units.
pub const RESERVE_STROOPS: i128 = 100_000_000;

/// Protocol fee on each player's stake, in basis points (0.1%).
pub const STAKE_FEE_BPS: u32 = 10;

/// Least time between two treasury sweeps, in seconds (24 hours).
pub const FEE_SWEEP_INTERVAL_SECONDS: u64 = 86_400;

/// How long the players have to deposit once a stake is set, in seconds.
pub const STAKE_DEPOSIT_WINDOW_SECONDS: u64 = 60;

/// Why an operation of the match contract was refused.
#[derive(Copy, Clone, Debug, PartialEq, Eq, PartialOrd, Ord, Structural)]
pub enum Error {
    MatchNotFound,
    NotPlayer,
    MatchAlreadyEnded,
    MatchNotInProgress,
    InsufficientBalance,
    NothingToSweep,
    InvalidStake,
    StakeNotConfigured,
    StakeAlreadyPaid,
    StakeNotPaid,
    SweepTooEarly,
    StakeDepositExpired,
    DeadlineNotReached,
    MatchCancelled,
    InvalidZkCommitment,
    ZkCommitAlreadySubmitted,
    ZkCommitRequired,
    InvalidZkVerifier,
    ZkCommitNotFound,
    ZkVerificationAlreadySubmitted,
    ZkProofInvalid,
    ZkVerifierNotConfigured,
    ZkMatchOutcomeRequired,
    InvalidWinnerClaim,
}

impl Error {
    /// The number under which the error is reported to callers of the contract.
    pub open spec fn code_of(self) -> u32 {
        match self {
            Error::MatchNotFound => 1,
            Error::NotPlayer => 2,
            Error::MatchAlreadyEnded => 3,
            Error::MatchNotInProgress => 4,
            Error::InsufficientBalance => 5,
            Error::NothingToSweep => 6,
            Error::InvalidStake => 7,
            Error::StakeNotConfigured => 8,
            Error::StakeAlreadyPaid => 9,
            Error::StakeNotPaid => 10,
            Error::SweepTooEarly => 11,
            Error::StakeDepositExpired => 12,
            Error::DeadlineNotReached => 13,
            Error::MatchCancelled => 14,
            Error::InvalidZkCommitment => 15,
            Error::ZkCommitAlreadySubmitted => 16,
            Error::ZkCommitRequired => 17,
            Error::InvalidZkVerifier => 18,
            Error::ZkCommitNotFound => 19,
            Error::ZkVerificationAlreadySubmitted => 20,
            Error::ZkProofInvalid => 21,
            Error::ZkVerifierNotConfigured => 22,
            Error::ZkMatchOutcomeRequired => 23,
            Error::InvalidWinnerClaim => 24,
        }
    }

    /// The number under which the error is reported to callers of the contract.
    pub fn code(&self) -> (code: u32)
        ensures
            code == self.code_of(),
    {
        match self {
            Error::MatchNotFound => 1,
            Error::NotPlayer => 2,
            Error::MatchAlreadyEnded => 3,
            Error::MatchNotInProgress => 4,
            Error::InsufficientBalance => 5,
            Error::NothingToSweep => 6,
            Error::InvalidStake => 7,
            Error::StakeNotConfigured => 8,
            Error::StakeAlreadyPaid => 9,
            Error::StakeNotPaid => 10,
            Error::SweepTooEarly => 11,
            Error::StakeDepositExpired => 12,
            Error::DeadlineNotReached => 13,
            Error::MatchCancelled => 14,
            Error::InvalidZkCommitment => 15,
            Error::ZkCommitAlreadySubmitted => 16,
            Error::ZkCommitRequired => 17,
            Error::InvalidZkVerifier => 18,
            Error::ZkCommitNotFound => 19,
            Error::ZkVerificationAlreadySubmitted => 20,
            Error::ZkProofInvalid => 21,
            Error::ZkVerifierNotConfigured => 22,
            Error::ZkMatchOutcomeRequired => 23,
            Error::InvalidWinnerClaim => 24,
        }
    }
}

/// A combat move.
#[derive(Clone, Copy, Debug, PartialEq, Eq, Structural)]
pub enum MoveType {
    Punch,
    Kick,
    Block,
    Special,
}

impl MoveType {
    /// The number that stands for the move in the contract's events.
    pub open spec fn code_of(self) -> u32 {
        match self {
            MoveType::Punch => 0,
            MoveType::Kick => 1,
            MoveType::Block => 2,
            MoveType::Special => 3,
        }
    }

    /// The number that stands for the move in the contract's events.
    pub fn code(&self) -> (code: u32)
        ensures
            code == self.code_of(),
    {
        match self {
            MoveType::Punch => 0,
            MoveType::Kick => 1,
            MoveType::Block => 2,
            MoveType::Special => 3,
        }
    }
}

/// A match between two players.
#[derive(Clone, Copy, Debug, PartialEq, Eq)]
pub struct Match {
    pub player1: Address,
    pub player2: Address,
    pub player1_points: i128,
    pub player2_points: i128,
    pub player1_moves: u32,
    pub player2_moves: u32,
    /// What the players have paid for moves and power surges.
    pub total_xlm_collected: i128,
    /// What each player stakes; 0 while no stake is set.
    pub stake_amount_stroops: i128,
    pub stake_fee_bps: u32,
    /// Until when the stakes can be deposited, in seconds; 0 while no stake is set.
    pub stake_deadline_ts: u64,
    pub player1_stake_paid: bool,
    pub player2_stake_paid: bool,
    /// The fees that the match has added to the accrued fees.
    pub fee_accrued_stroops: i128,
    /// The slots that player 1 has committed to.
    pub player1_zk_commits: u32,
    pub player2_zk_commits: u32,
    /// The slots of player 1 with a verified proof.
    pub player1_zk_verified: u32,
    pub player2_zk_verified: u32,
    pub is_cancelled: bool,
    pub winner: Option<Address>,
}

/// That a proof was verified for a slot: by which verifier, opening which
/// commitment, under which verifying key.
#[derive(Clone, Copy, Debug, PartialEq, Eq)]
pub struct ZkVerificationRecord {
    pub verifier_contract: Address,
    pub commitment: [u8; 32],
    pub vk_id: [u8; 32],
}

/// That a proof bound the winner of a match: by which verifier, to which winner,
/// under which verifying key.
#[derive(Clone, Copy, Debug, PartialEq, Eq)]
pub struct ZkMatchOutcomeRecord {
    pub verifier_contract: Address,
    pub winner: Address,
    pub vk_id: [u8; 32],
}

/// One slot of a match: a round, a turn and a side. The salt tells the slots of a
/// match from those of an earlier match under the same session id.
#[derive(Clone, Copy, Debug, PartialEq, Eq)]
pub struct SlotKey {
    pub session_id: u32,
    pub salt: [u8; 32],
    pub round: u32,
    pub turn: u32,
    pub is_player1: bool,
}

impl StoreKey for SlotKey {
    fn same_key(&self, other: &SlotKey) -> (same: bool) {
        self.session_id == other.session_id && bytes_eq(&self.salt, &other.salt) && self.round
            == other.round && self.turn == other.turn && self.is_player1 == other.is_player1
    }
}

/// What happened in the contract, for observers.
#[derive(Clone, Copy, Debug, PartialEq, Eq)]
pub enum Event {
    MoveSubmitted { session_id: u32, turn: u32, player: Address, move_type: MoveType },
    PowerSurgeSubmitted { session_id: u32, round: u32, player: Address, card_code: u32 },
    MoveCommitted { session_id: u32, round: u32, turn: u32, player: Address, commitment: [u8; 32] },
    MoveVerified {
        session_id: u32,
        round: u32,
        turn: u32,
        player: Address,
        verifier_contract: Address,
    },
    WinnerBound { session_id: u32, verifier_contract: Address },
}

/// Funds that leave the contract for `to`.
#[derive(Clone, Copy, Debug, PartialEq, Eq)]
pub struct Payment {
    pub to: Address,
    pub amount: i128,
}

} // verus!
