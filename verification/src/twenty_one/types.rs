//! Records of the twenty-one contract.

use vstd::prelude::*;
use crate::primitives::Address;

verus! {

/// Why an operation of the twenty-one contract was refused.
#[derive(Copy, Clone, Debug, PartialEq, Eq, PartialOrd, Ord, Structural)]
pub enum Error {
    GameNotFound,
    NotPlayer,
    AlreadyStuck,
    GameAlreadyEnded,
    PlayerBusted,
    BothPlayersNotStuck,
    OpponentNotStuck,
    Draw,
    SelfPlay,
    RoundOverflow,
    InvalidHandData,
}

impl Error {
    /// The number under which the error is reported to callers of the contract.
    pub open spec fn code_of(self) -> u32 {
        match self {
            Error::GameNotFound => 1,
            Error::NotPlayer => 2,
            Error::AlreadyStuck => 3,
            Error::GameAlreadyEnded => 4,
            Error::PlayerBusted => 5,
            Error::BothPlayersNotStuck => 6,
            Error::OpponentNotStuck => 7,
            Error::Draw => 8,
            Error::SelfPlay => 9,
            Error::RoundOverflow => 10,
            Error::InvalidHandData => 11,
        }
    }

    /// The number under which the error is reported to callers of the contract.
    pub fn code(&self) -> (code: u32)
        ensures
            code == self.code_of(),
    {
        match self {
            Error::GameNotFound => 1,
            Error::NotPlayer => 2,
            Error::AlreadyStuck => 3,
            Error::GameAlreadyEnded => 4,
            Error::PlayerBusted => 5,
            Error::BothPlayersNotStuck => 6,
            Error::OpponentNotStuck => 7,
            Error::Draw => 8,
            Error::SelfPlay => 9,
            Error::RoundOverflow => 10,
            Error::InvalidHandData => 11,
        }
    }
}

/// A game of twenty-one. Each byte of a hand is a card, from 1 (ace) to 13 (king).
#[derive(Debug, PartialEq, Eq)]
pub struct Game {
    pub player1: Address,
    pub player2: Address,
    pub player1_points: i128,
    pub player2_points: i128,
    pub player1_hand: Vec<u8>,
    pub player2_hand: Vec<u8>,
    pub player1_stuck: bool,
    pub player2_stuck: bool,
    pub winner: Option<Address>,
    pub round: u32,
}

/// A game as a plain value.
pub struct GameView {
    pub player1: Address,
    pub player2: Address,
    pub player1_points: i128,
    pub player2_points: i128,
    pub player1_hand: Seq<u8>,
    pub player2_hand: Seq<u8>,
    pub player1_stuck: bool,
    pub player2_stuck: bool,
    pub winner: Option<Address>,
    pub round: u32,
}

impl View for Game {
    type V = GameView;

    open spec fn view(&self) -> GameView {
        GameView {
            player1: self.player1,
            player2: self.player2,
            player1_points: self.player1_points,
            player2_points: self.player2_points,
            player1_hand: self.player1_hand@,
            player2_hand: self.player2_hand@,
            player1_stuck: self.player1_stuck,
            player2_stuck: self.player2_stuck,
            winner: self.winner,
            round: self.round,
        }
    }
}

/// That a game has ended, for the game hub: which session, and whether player 1
/// won it.
#[derive(Clone, Copy, Debug, PartialEq, Eq)]
pub struct HubReport {
    pub session_id: u32,
    pub player1_won: bool,
}

} // verus!
