//! The twenty-one contract.

use vstd::prelude::*;
use crate::primitives::Address;
use crate::store::{
    Store, entries_map, first_to_hold, is_first_entry, lemma_first_entries_are_the_map,
};
use crate::twenty_one::cards::{
    calculate_hand_value, deal_card, deal_hand, hand_of_deck, seed_of_hit, seed_of_round,
};
use crate::twenty_one::model::{TwentyOneState, game_valid};
use crate::twenty_one::types::{Error, Game, HubReport};

verus! {

/// The twenty-one contract: its configuration and its games.
pub struct TwentyOneContract {
    admin: Address,
    game_hub: Address,
    games: Store<u32, Game>,
}

impl View for TwentyOneContract {
    type V = TwentyOneState;

    closed spec fn view(&self) -> TwentyOneState {
        TwentyOneState {
            admin: self.admin,
            game_hub: self.game_hub,
            games: self.games@.map_values(|game: Game| game@),
        }
    }
}

/// Everything the twenty-one contract holds, as plain records. The list of games
/// stands for a map: where two entries hold one session id, the first counts.
pub struct TwentyOneSnapshot {
    pub admin: Address,
    pub game_hub: Address,
    pub games: Vec<(u32, Game)>,
}

impl View for TwentyOneSnapshot {
    type V = TwentyOneState;

    open spec fn view(&self) -> TwentyOneState {
        TwentyOneState {
            admin: self.admin,
            game_hub: self.game_hub,
            games: entries_map(self.games@).map_values(|game: Game| game@),
        }
    }
}

/// Whether every card of a hand is a card of the deck.
fn hand_is_of_deck(hand: &Vec<u8>) -> (ok: bool)
    ensures
        ok == hand_of_deck(hand@),
{
    let mut index: usize = 0;
    while index < hand.len()
        invariant
            index <= hand.len(),
            forall|k: int| 0 <= k < index ==> 1 <= #[trigger] hand@[k] <= 13,
        decreases hand.len() - index,
    {
        if hand[index] < 1 || hand[index] > 13 {
            return false;
        }
        index += 1;
    }
    true
}

/// Whether a game is valid.
fn game_is_valid(game: &Game) -> (ok: bool)
    ensures
        ok == game_valid(game@),
{
    if !hand_is_of_deck(&game.player1_hand) || !hand_is_of_deck(&game.player2_hand) {
        return false;
    }
    let limit: u32 = if game.winner.is_some() {
        31
    } else {
        21
    };
    match (calculate_hand_value(&game.player1_hand), calculate_hand_value(&game.player2_hand)) {
        (Ok(value1), Ok(value2)) => value1 <= limit && value2 <= limit,
        _ => false,
    }
}

/// A copy of a hand.
fn copy_hand(hand: &Vec<u8>) -> (copy: Vec<u8>)
    ensures
        copy@ == hand@,
{
    let mut copy: Vec<u8> = Vec::new();
    let mut index: usize = 0;
    while index < hand.len()
        invariant
            index <= hand.len(),
            copy@ == hand@.take(index as int),
        decreases hand.len() - index,
    {
        copy.push(hand[index]);
        index += 1;
    }
    copy
}

/// A copy of a game.
fn copy_game(game: &Game) -> (copy: Game)
    ensures
        copy@ == game@,
{
    Game {
        player1: game.player1,
        player2: game.player2,
        player1_points: game.player1_points,
        player2_points: game.player2_points,
        player1_hand: copy_hand(&game.player1_hand),
        player2_hand: copy_hand(&game.player2_hand),
        player1_stuck: game.player1_stuck,
        player2_stuck: game.player2_stuck,
        winner: game.winner,
        round: game.round,
    }
}

impl TwentyOneContract {
    /// A contract without games, run by `admin`, that reports to the game hub
    /// `game_hub`.
    pub fn new(admin: Address, game_hub: Address) -> (contract: TwentyOneContract)
        ensures
            contract@ == TwentyOneState::initial(admin, game_hub),
            contract@.valid(),
    {
        let contract = TwentyOneContract { admin, game_hub, games: Store::new() };
        assert(contract@.games =~= Map::empty());
        contract
    }

    /// The contract that holds what `snapshot` holds, where that is a valid
    /// state.
    pub fn from_snapshot(snapshot: TwentyOneSnapshot) -> (restored: Option<TwentyOneContract>)
        ensures
            match restored {
                Some(contract) => contract@ == snapshot@ && contract@.valid(),
                None => !snapshot@.valid(),
            },
    {
        let mut index: usize = 0;
        while index < snapshot.games.len()
            invariant
                index <= snapshot.games.len(),
                forall|k: int|
                    0 <= k < index && #[trigger] is_first_entry(snapshot.games@, k) ==> game_valid(
                        snapshot.games@[k].1@,
                    ),
            decreases snapshot.games.len() - index,
        {
            if first_to_hold(&snapshot.games, index) && !game_is_valid(&snapshot.games[index].1) {
                proof {
                    lemma_first_entries_are_the_map(snapshot.games@);
                    assert(snapshot@.games.contains_key(snapshot.games@[index as int].0));
                }
                return None;
            }
            index += 1;
        }
        proof {
            lemma_first_entries_are_the_map(snapshot.games@);
        }
        Some(
            TwentyOneContract {
                admin: snapshot.admin,
                game_hub: snapshot.game_hub,
                games: Store::from_entries(snapshot.games),
            },
        )
    }

    /// Everything the contract holds, as plain records.
    pub fn into_snapshot(self) -> (snapshot: TwentyOneSnapshot)
        ensures
            snapshot@ == self@,
    {
        TwentyOneSnapshot {
            admin: self.admin,
            game_hub: self.game_hub,
            games: self.games.into_entries(),
        }
    }

    /// Puts `game` under `session_id`.
    fn put_game(&mut self, session_id: u32, game: Game)
        requires
            old(self)@.valid(),
            game_valid(game@),
        ensures
            final(self)@ == old(self)@.with_game(session_id, game@),
            final(self)@.valid(),
    {
        self.games.set(session_id, game);
        proof {
            assert(self@.games =~= old(self)@.games.insert(session_id, game@));
        }
    }

    /// A copy of the game under `session_id`, if there is one.
    fn find_game(&self, session_id: u32) -> (found: Option<Game>)
        requires
            self@.valid(),
        ensures
            found is Some <==> self@.games.contains_key(session_id),
            found is Some ==> found->0@ == self@.games[session_id] && game_valid(found->0@),
    {
        match self.games.get(&session_id) {
            Some(game) => Some(copy_game(game)),
            None => None,
        }
    }

    /// Starts a game between `player1` and `player2` under `session_id` and deals
    /// two cards to each. A game that was there under the id is replaced. A player
    /// cannot play against themselves.
    pub fn start_game(
        &mut self,
        session_id: u32,
        player1: Address,
        player2: Address,
        player1_points: i128,
        player2_points: i128,
    ) -> (result: Result<(), Error>)
        requires
            old(self)@.valid(),
        ensures
            result == if player1 == player2 {
                Err::<(), Error>(Error::SelfPlay)
            } else {
                Ok(())
            },
            final(self)@ == old(self)@.after_start_game(
                session_id,
                player1,
                player2,
                player1_points,
                player2_points,
            ),
            final(self)@.valid(),
    {
        if player1.same_as(&player2) {
            return Err(Error::SelfPlay);
        }
        let base_seed = seed_of_round(session_id, &player1, &player2, None);
        let player1_hand = deal_hand(&base_seed, 1);
        let player2_hand = deal_hand(&base_seed, 2);
        let game = Game {
            player1,
            player2,
            player1_points,
            player2_points,
            player1_hand,
            player2_hand,
            player1_stuck: false,
            player2_stuck: false,
            winner: None,
            round: 1,
        };
        self.put_game(session_id, game);
        Ok(())
    }

    /// Deals one more card to `player`. A hand above 21 loses at once: the other
    /// player becomes the winner, and the result says what the game hub is to be
    /// told.
    pub fn hit(&mut self, session_id: u32, player: Address) -> (result: Result<
        Option<HubReport>,
        Error,
    >)
        requires
            old(self)@.valid(),
        ensures
            result == match old(self)@.hit_error(session_id, player) {
                Some(error) => Err::<Option<HubReport>, Error>(error),
                None => Ok(old(self)@.hit_report(session_id, player)),
            },
            final(self)@ == old(self)@.after_hit(session_id, player),
            final(self)@.valid(),
    {
        let mut game = match self.find_game(session_id) {
            Some(game) => game,
            None => {
                return Err(Error::GameNotFound);
            },
        };
        if game.winner.is_some() {
            return Err(Error::GameAlreadyEnded);
        }
        let is_player1 = player.same_as(&game.player1);
        let is_player2 = player.same_as(&game.player2);
        if !is_player1 && !is_player2 {
            return Err(Error::NotPlayer);
        }
        if is_player1 && game.player1_stuck {
            return Err(Error::AlreadyStuck);
        }
        if is_player2 && game.player2_stuck {
            return Err(Error::AlreadyStuck);
        }
        let card_count: u32 = if is_player1 {
            game.player1_hand.len() as u32
        } else {
            game.player2_hand.len() as u32
        };
        let card_seed = seed_of_hit(session_id, &player, card_count, game.round);
        let new_card = deal_card(&card_seed);
        let mut report: Option<HubReport> = None;
        if is_player1 {
            game.player1_hand.push(new_card);
            proof {
                assert(game.player1_hand@.drop_last() =~= old(self)@.games[session_id].player1_hand);
            }
            let value = match calculate_hand_value(&game.player1_hand) {
                Ok(value) => value,
                Err(error) => {
                    return Err(error);
                },
            };
            if value > 21 {
                report = Some(HubReport { session_id, player1_won: false });
                game.winner = Some(game.player2);
            }
        } else {
            game.player2_hand.push(new_card);
            proof {
                assert(game.player2_hand@.drop_last() =~= old(self)@.games[session_id].player2_hand);
            }
            let value = match calculate_hand_value(&game.player2_hand) {
                Ok(value) => value,
                Err(error) => {
                    return Err(error);
                },
            };
            if value > 21 {
                report = Some(HubReport { session_id, player1_won: true });
                game.winner = Some(game.player1);
            }
        }
        self.put_game(session_id, game);
        Ok(report)
    }

    /// Ends the turn of `player` with the hand as it is.
    pub fn stick(&mut self, session_id: u32, player: Address) -> (result: Result<(), Error>)
        requires
            old(self)@.valid(),
        ensures
            result == match old(self)@.stick_error(session_id, player) {
                Some(error) => Err::<(), Error>(error),
                None => Ok(()),
            },
            final(self)@ == old(self)@.after_stick(session_id, player),
            final(self)@.valid(),
    {
        let mut game = match self.find_game(session_id) {
            Some(game) => game,
            None => {
                return Err(Error::GameNotFound);
            },
        };
        if game.winner.is_some() {
            return Err(Error::GameAlreadyEnded);
        }
        if player.same_as(&game.player1) {
            if game.player1_stuck {
                return Err(Error::AlreadyStuck);
            }
            game.player1_stuck = true;
        } else if player.same_as(&game.player2) {
            if game.player2_stuck {
                return Err(Error::AlreadyStuck);
            }
            game.player2_stuck = true;
        } else {
            return Err(Error::NotPlayer);
        }
        self.put_game(session_id, game);
        Ok(())
    }

    /// Reveals the winner once both players have stuck: the player whose hand is
    /// worth more. Equal hands start a new round and are answered with `Draw`. The
    /// result names the winner and says what the game hub is to be told, which is
    /// nothing where the winner was on record before.
    pub fn reveal_winner(&mut self, session_id: u32) -> (result: Result<
        (Address, Option<HubReport>),
        Error,
    >)
        requires
            old(self)@.valid(),
        ensures
            result == match old(self)@.reveal_winner_error(session_id) {
                Some(error) => Err::<(Address, Option<HubReport>), Error>(error),
                None => Ok(
                    (
                        old(self)@.revealed_winner(session_id),
                        old(self)@.reveal_winner_report(session_id),
                    ),
                ),
            },
            final(self)@ == old(self)@.after_reveal_winner(session_id),
            final(self)@.valid(),
    {
        let mut game = match self.find_game(session_id) {
            Some(game) => game,
            None => {
                return Err(Error::GameNotFound);
            },
        };
        if let Some(winner) = game.winner {
            return Ok((winner, None));
        }
        if !game.player1_stuck || !game.player2_stuck {
            return Err(Error::BothPlayersNotStuck);
        }
        let player1_value = match calculate_hand_value(&game.player1_hand) {
            Ok(value) => value,
            Err(error) => {
                return Err(error);
            },
        };
        let player2_value = match calculate_hand_value(&game.player2_hand) {
            Ok(value) => value,
            Err(error) => {
                return Err(error);
            },
        };
        let winner = if player1_value > player2_value {
            game.player1
        } else if player2_value > player1_value {
            game.player2
        } else {
            if game.round == u32::MAX {
                return Err(Error::RoundOverflow);
            }
            game.round = game.round + 1;
            game.player1_stuck = false;
            game.player2_stuck = false;
            let base_seed = seed_of_round(
                session_id,
                &game.player1,
                &game.player2,
                Some(game.round),
            );
            game.player1_hand = deal_hand(&base_seed, 1);
            game.player2_hand = deal_hand(&base_seed, 2);
            self.put_game(session_id, game);
            return Err(Error::Draw);
        };
        let player1_won = winner.same_as(&game.player1);
        game.winner = Some(winner);
        self.put_game(session_id, game);
        Ok((winner, Some(HubReport { session_id, player1_won })))
    }

    /// The game under `session_id`.
    pub fn get_game(&self, session_id: u32) -> (result: Result<Game, Error>)
        requires
            self@.valid(),
        ensures
            match result {
                Ok(game) => self@.games.contains_key(session_id) && game@
                    == self@.games[session_id],
                Err(error) => !self@.games.contains_key(session_id) && error
                    == Error::GameNotFound,
            },
    {
        match self.find_game(session_id) {
            Some(game) => Ok(game),
            None => Err(Error::GameNotFound),
        }
    }

    /// What the hand of `player` is worth.
    pub fn get_hand_value(&self, session_id: u32, player: Address) -> (result: Result<u32, Error>)
        requires
            self@.valid(),
        ensures
            result == self@.hand_value_result(session_id, player),
    {
        let game = match self.find_game(session_id) {
            Some(game) => game,
            None => {
                return Err(Error::GameNotFound);
            },
        };
        if player.same_as(&game.player1) {
            calculate_hand_value(&game.player1_hand)
        } else if player.same_as(&game.player2) {
            calculate_hand_value(&game.player2_hand)
        } else {
            Err(Error::NotPlayer)
        }
    }

    pub fn get_admin(&self) -> (admin: Address)
        ensures
            admin == self@.admin,
    {
        self.admin
    }

    pub fn set_admin(&mut self, new_admin: Address)
        ensures
            final(self)@ == (TwentyOneState { admin: new_admin, ..old(self)@ }),
            old(self)@.valid() ==> final(self)@.valid(),
    {
        self.admin = new_admin;
    }

    pub fn get_hub(&self) -> (hub: Address)
        ensures
            hub == self@.game_hub,
    {
        self.game_hub
    }

    pub fn set_hub(&mut self, new_hub: Address)
        ensures
            final(self)@ == (TwentyOneState { game_hub: new_hub, ..old(self)@ }),
            old(self)@.valid() ==> final(self)@.valid(),
    {
        self.game_hub = new_hub;
    }
}

} // verus!
