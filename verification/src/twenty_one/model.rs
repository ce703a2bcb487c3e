//! The twenty-one contract as a state machine over plain values.

use vstd::prelude::*;
use crate::primitives::Address;
use crate::twenty_one::cards::{
    card_of, dealt_hand, game_seed, hand_of_deck, hand_value, hit_seed, round_seed,
};
use crate::twenty_one::types::{Error, GameView, HubReport};

verus! {

/// What is true of every recorded game: the hands hold cards of the deck, no hand
/// is worth more than 31, and while the game has no winner no hand is worth more
/// than 21.
pub open spec fn game_valid(game: GameView) -> bool {
    &&& hand_of_deck(game.player1_hand)
    &&& hand_of_deck(game.player2_hand)
    &&& hand_value(game.player1_hand) <= 31
    &&& hand_value(game.player2_hand) <= 31
    &&& game.winner is None ==> hand_value(game.player1_hand) <= 21 && hand_value(
        game.player2_hand,
    ) <= 21
}

/// What the twenty-one contract holds.
pub struct TwentyOneState {
    pub admin: Address,
    pub game_hub: Address,
    /// The games, by session id.
    pub games: Map<u32, GameView>,
}

impl TwentyOneState {
    /// The state a new contract starts in.
    pub open spec fn initial(admin: Address, game_hub: Address) -> TwentyOneState {
        TwentyOneState { admin, game_hub, games: Map::empty() }
    }

    /// The invariant of the contract: every game is valid.
    pub open spec fn valid(self) -> bool {
        forall|session_id: u32| #[trigger]
            self.games.contains_key(session_id) ==> game_valid(self.games[session_id])
    }

    /// The state with one game replaced.
    pub open spec fn with_game(self, session_id: u32, game: GameView) -> TwentyOneState {
        TwentyOneState { games: self.games.insert(session_id, game), ..self }
    }

    // ---- start_game

    /// The game that a start records: two cards dealt to each player, round 1.
    pub open spec fn new_game(
        session_id: u32,
        player1: Address,
        player2: Address,
        player1_points: i128,
        player2_points: i128,
    ) -> GameView {
        GameView {
            player1,
            player2,
            player1_points,
            player2_points,
            player1_hand: dealt_hand(game_seed(session_id, player1, player2), 1),
            player2_hand: dealt_hand(game_seed(session_id, player1, player2), 2),
            player1_stuck: false,
            player2_stuck: false,
            winner: None,
            round: 1,
        }
    }

    pub open spec fn after_start_game(
        self,
        session_id: u32,
        player1: Address,
        player2: Address,
        player1_points: i128,
        player2_points: i128,
    ) -> TwentyOneState {
        if player1 == player2 {
            self
        } else {
            self.with_game(
                session_id,
                Self::new_game(session_id, player1, player2, player1_points, player2_points),
            )
        }
    }

    // ---- hit

    /// The hand of `player` after a draw.
    pub open spec fn hand_after_hit(self, session_id: u32, player: Address) -> Seq<u8> {
        let game = self.games[session_id];
        let hand = if player == game.player1 {
            game.player1_hand
        } else {
            game.player2_hand
        };
        hand.push(card_of(hit_seed(session_id, player, hand.len() as u32, game.round)))
    }

    pub open spec fn hit_error(self, session_id: u32, player: Address) -> Option<Error> {
        if !self.games.contains_key(session_id) {
            Some(Error::GameNotFound)
        } else {
            let game = self.games[session_id];
            if game.winner is Some {
                Some(Error::GameAlreadyEnded)
            } else if player != game.player1 && player != game.player2 {
                Some(Error::NotPlayer)
            } else if player == game.player1 && game.player1_stuck {
                Some(Error::AlreadyStuck)
            } else if player == game.player2 && game.player2_stuck {
                Some(Error::AlreadyStuck)
            } else if hand_value(self.hand_after_hit(session_id, player)) > u32::MAX {
                Some(Error::InvalidHandData)
            } else {
                None
            }
        }
    }

    /// Whether a draw takes the player's hand above 21.
    pub open spec fn hit_busts(self, session_id: u32, player: Address) -> bool {
        hand_value(self.hand_after_hit(session_id, player)) > 21
    }

    /// What a draw has to tell the game hub: that the other player won, where the
    /// draw took the hand above 21.
    pub open spec fn hit_report(self, session_id: u32, player: Address) -> Option<HubReport> {
        if self.hit_busts(session_id, player) {
            Some(HubReport { session_id, player1_won: player != self.games[session_id].player1 })
        } else {
            None
        }
    }

    pub open spec fn after_hit(self, session_id: u32, player: Address) -> TwentyOneState {
        if self.hit_error(session_id, player) is Some {
            self
        } else {
            let game = self.games[session_id];
            let hand = self.hand_after_hit(session_id, player);
            let busts = self.hit_busts(session_id, player);
            self.with_game(
                session_id,
                if player == game.player1 {
                    GameView {
                        player1_hand: hand,
                        winner: if busts {
                            Some(game.player2)
                        } else {
                            None
                        },
                        ..game
                    }
                } else {
                    GameView {
                        player2_hand: hand,
                        winner: if busts {
                            Some(game.player1)
                        } else {
                            None
                        },
                        ..game
                    }
                },
            )
        }
    }

    // ---- stick

    pub open spec fn stick_error(self, session_id: u32, player: Address) -> Option<Error> {
        if !self.games.contains_key(session_id) {
            Some(Error::GameNotFound)
        } else {
            let game = self.games[session_id];
            if game.winner is Some {
                Some(Error::GameAlreadyEnded)
            } else if player == game.player1 {
                if game.player1_stuck {
                    Some(Error::AlreadyStuck)
                } else {
                    None
                }
            } else if player == game.player2 {
                if game.player2_stuck {
                    Some(Error::AlreadyStuck)
                } else {
                    None
                }
            } else {
                Some(Error::NotPlayer)
            }
        }
    }

    pub open spec fn after_stick(self, session_id: u32, player: Address) -> TwentyOneState {
        if self.stick_error(session_id, player) is Some {
            self
        } else {
            let game = self.games[session_id];
            self.with_game(
                session_id,
                if player == game.player1 {
                    GameView { player1_stuck: true, ..game }
                } else {
                    GameView { player2_stuck: true, ..game }
                },
            )
        }
    }

    // ---- reveal_winner

    /// Why no winner is revealed, if none is. `Draw` is the one refusal that changes
    /// the state: the hands were equal, and a new round was dealt.
    pub open spec fn reveal_winner_error(self, session_id: u32) -> Option<Error> {
        if !self.games.contains_key(session_id) {
            Some(Error::GameNotFound)
        } else {
            let game = self.games[session_id];
            if game.winner is Some {
                None
            } else if !game.player1_stuck || !game.player2_stuck {
                Some(Error::BothPlayersNotStuck)
            } else if hand_value(game.player1_hand) > u32::MAX || hand_value(game.player2_hand)
                > u32::MAX {
                Some(Error::InvalidHandData)
            } else if hand_value(game.player1_hand) != hand_value(game.player2_hand) {
                None
            } else if game.round == u32::MAX {
                Some(Error::RoundOverflow)
            } else {
                Some(Error::Draw)
            }
        }
    }

    /// The winner that is revealed: the one on record, or else the player whose
    /// hand is worth more.
    pub open spec fn revealed_winner(self, session_id: u32) -> Address {
        let game = self.games[session_id];
        if game.winner is Some {
            game.winner->0
        } else if hand_value(game.player1_hand) > hand_value(game.player2_hand) {
            game.player1
        } else {
            game.player2
        }
    }

    /// What revealing the winner has to tell the game hub: who won, where the game
    /// had no winner before.
    pub open spec fn reveal_winner_report(self, session_id: u32) -> Option<HubReport> {
        let game = self.games[session_id];
        if game.winner is Some {
            None
        } else {
            Some(
                HubReport {
                    session_id,
                    player1_won: self.revealed_winner(session_id) == game.player1,
                },
            )
        }
    }

    /// The game after a draw: the next round, with two new cards for each player.
    pub open spec fn next_round(session_id: u32, game: GameView) -> GameView {
        let round = (game.round + 1) as u32;
        let base_seed = round_seed(session_id, game.player1, game.player2, round);
        GameView {
            round,
            player1_stuck: false,
            player2_stuck: false,
            player1_hand: dealt_hand(base_seed, 1),
            player2_hand: dealt_hand(base_seed, 2),
            ..game
        }
    }

    pub open spec fn after_reveal_winner(self, session_id: u32) -> TwentyOneState {
        let error = self.reveal_winner_error(session_id);
        if error == Some(Error::Draw) {
            self.with_game(session_id, Self::next_round(session_id, self.games[session_id]))
        } else if error is Some || self.games[session_id].winner is Some {
            self
        } else {
            self.with_game(
                session_id,
                GameView {
                    winner: Some(self.revealed_winner(session_id)),
                    ..self.games[session_id]
                },
            )
        }
    }

    // ---- get_hand_value

    pub open spec fn hand_value_result(
        self,
        session_id: u32,
        player: Address,
    ) -> Result<u32, Error> {
        if !self.games.contains_key(session_id) {
            Err(Error::GameNotFound)
        } else {
            let game = self.games[session_id];
            let hand = if player == game.player1 {
                game.player1_hand
            } else {
                game.player2_hand
            };
            if player != game.player1 && player != game.player2 {
                Err(Error::NotPlayer)
            } else if hand_value(hand) > u32::MAX {
                Err(Error::InvalidHandData)
            } else {
                Ok(hand_value(hand) as u32)
            }
        }
    }
}

} // verus!
