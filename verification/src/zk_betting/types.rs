//! Records and constants of the betting contract.

use vstd::prelude::*;
use crate::primitives::Address;

verus! {

/// Protocol fee on every deposit, in basis points (1%).
pub const FEE_BPS: u32 = 100;

/// Least time between two treasury sweeps, in seconds (24 hours).
pub const SWEEP_INTERVAL_SECONDS: u64 = 86_400;

/// Least amount a bet may stake, in minor units.
pub const MIN_BET_STROOPS: i128 = 1_000_000;

/// Why an operation of the betting contract was refused.
#[derive(Copy, Clone, Debug, PartialEq, Eq, PartialOrd, Ord, Structural)]
pub enum Error {
    PoolNotFound,
    PoolNotOpen,
    PoolNotLocked,
    PoolNotSettled,
    PoolAlreadySettled,
    PoolAlreadyLocked,
    AlreadyCommitted,
    BetNotFound,
    AlreadyRevealed,
    InvalidReveal,
    InvalidAmount,
    InvalidWinner,
    NoPayout,
    AlreadyClaimed,
    Unauthorized,
    ZkVerifierNotConfigured,
    ZkProofInvalid,
    BettingDeadlinePassed,
    NothingToSweep,
    SweepTooEarly,
}

impl Error {
    /// The number under which the error is reported to callers of the contract.
    pub open spec fn code_of(self) -> u32 {
        match self {
            Error::PoolNotFound => 1,
            Error::PoolNotOpen => 2,
            Error::PoolNotLocked => 3,
            Error::PoolNotSettled => 4,
            Error::PoolAlreadySettled => 5,
            Error::PoolAlreadyLocked => 6,
            Error::AlreadyCommitted => 7,
            Error::BetNotFound => 8,
            Error::AlreadyRevealed => 9,
            Error::InvalidReveal => 10,
            Error::InvalidAmount => 11,
            Error::InvalidWinner => 12,
            Error::NoPayout => 13,
            Error::AlreadyClaimed => 14,
            Error::Unauthorized => 15,
            Error::ZkVerifierNotConfigured => 16,
            Error::ZkProofInvalid => 17,
            Error::BettingDeadlinePassed => 18,
            Error::NothingToSweep => 19,
            Error::SweepTooEarly => 20,
        }
    }

    /// The number under which the error is reported to callers of the contract.
    pub fn code(&self) -> (code: u32)
        ensures
            code == self.code_of(),
    {
        match self {
            Error::PoolNotFound => 1,
            Error::PoolNotOpen => 2,
            Error::PoolNotLocked => 3,
            Error::PoolNotSettled => 4,
            Error::PoolAlreadySettled => 5,
            Error::PoolAlreadyLocked => 6,
            Error::AlreadyCommitted => 7,
            Error::BetNotFound => 8,
            Error::AlreadyRevealed => 9,
            Error::InvalidReveal => 10,
            Error::InvalidAmount => 11,
            Error::InvalidWinner => 12,
            Error::NoPayout => 13,
            Error::AlreadyClaimed => 14,
            Error::Unauthorized => 15,
            Error::ZkVerifierNotConfigured => 16,
            Error::ZkProofInvalid => 17,
            Error::BettingDeadlinePassed => 18,
            Error::NothingToSweep => 19,
            Error::SweepTooEarly => 20,
        }
    }
}

/// Where a pool stands in its life.
#[derive(Clone, Copy, Debug, PartialEq, Eq, Structural)]
pub enum PoolStatus {
    /// Accepts deposits.
    Open,
    /// Accepts reveals, no more deposits.
    Locked,
    /// A winner is set; bets can be claimed.
    Settled,
    /// Every outstanding bet was paid back.
    Refunded,
}

impl PoolStatus {
    /// Whether nothing can follow this status.
    pub open spec fn is_terminal(self) -> bool {
        self == PoolStatus::Settled || self == PoolStatus::Refunded
    }
}

/// One of the two outcomes a bet can pick.
#[derive(Clone, Copy, Debug, PartialEq, Eq, Structural)]
pub enum BetSide {
    Player1,
    Player2,
}

impl BetSide {
    /// The byte that stands for the side in a commitment and in a proof's inputs.
    pub open spec fn byte_of(self) -> u8 {
        match self {
            BetSide::Player1 => 0,
            BetSide::Player2 => 1,
        }
    }

    /// The byte that stands for the side in a commitment and in a proof's inputs.
    pub fn byte(&self) -> (byte: u8)
        ensures
            byte == self.byte_of(),
    {
        match self {
            BetSide::Player1 => 0,
            BetSide::Player2 => 1,
        }
    }
}

/// A betting pool on one match.
#[derive(Clone, Copy, Debug, PartialEq, Eq)]
pub struct BetPool {
    pub pool_id: u32,
    pub match_id: [u8; 32],
    pub status: PoolStatus,
    /// Sum of the revealed stakes on player 1.
    pub player1_total: i128,
    /// Sum of the revealed stakes on player 2.
    pub player2_total: i128,
    /// Sum of all stakes, fees not counted.
    pub total_pool: i128,
    /// Sum of the fees paid with the stakes.
    pub total_fees: i128,
    pub bet_count: u32,
    pub reveal_count: u32,
    /// When betting closes, in seconds; 0 for never.
    pub deadline_ts: u64,
    /// The winning side, once the pool is settled.
    pub winner_side: Option<BetSide>,
}

/// One bettor's stake in one pool.
#[derive(Clone, Copy, Debug, PartialEq, Eq)]
pub struct BetCommit {
    pub bettor: Address,
    /// SHA-256 of the side's byte followed by the bettor's salt.
    pub commitment: [u8; 32],
    /// The stake, fee not counted.
    pub amount: i128,
    pub fee_paid: i128,
    pub revealed: bool,
    /// The side the bettor opened the commitment to, once revealed.
    pub side: Option<BetSide>,
    /// Whether the bet was paid out, forfeited or refunded.
    pub claimed: bool,
}

/// What happened in the contract, for observers.
#[derive(Clone, Copy, Debug, PartialEq, Eq)]
pub enum Event {
    PoolCreated { pool_id: u32, match_id: [u8; 32] },
    BetCommitted { pool_id: u32, bettor: Address, amount: i128 },
    PoolLocked { pool_id: u32, bet_count: u32 },
    BetRevealed { pool_id: u32, bettor: Address, side: BetSide },
    PoolSettled { pool_id: u32, winner: BetSide },
    PayoutClaimed { pool_id: u32, bettor: Address, payout: i128 },
    PoolRefunded { pool_id: u32, bet_count: u32 },
}

/// Funds that leave escrow for `to`.
#[derive(Clone, Copy, Debug, PartialEq, Eq)]
pub struct Payment {
    pub to: Address,
    pub amount: i128,
}

} // verus!
