//! Cards, hands and how they are dealt.

use vstd::prelude::*;
use crate::host::{
    address_strkey, keccak256, keccak256_digest, prng_draw, prng_u64_in_range, strkey,
};
use crate::primitives::{Address, AddressKind, append_bytes, be_bytes, u32_to_be_bytes};
use crate::twenty_one::types::Error;

verus! {

/// The points a card is worth: its number up to ten, and ten for every card above.
pub open spec fn card_points(card: int) -> int {
    if card >= 10 {
        10
    } else {
        card
    }
}

/// The points of `card`, where cards run from 1 (ace) to 13 (king).
pub fn card_value(card: u32) -> (value: u32)
    ensures
        value == card_points(card as int),
{
    if card >= 10 {
        10
    } else {
        card
    }
}

/// The points of a hand: the sum of the points of its cards.
pub open spec fn hand_value(hand: Seq<u8>) -> int
    decreases hand.len(),
{
    if hand.len() == 0 {
        0
    } else {
        hand_value(hand.drop_last()) + card_points(hand.last() as int)
    }
}

/// Whether every card of a hand is a card of the deck.
pub open spec fn hand_of_deck(hand: Seq<u8>) -> bool {
    forall|index: int| 0 <= index < hand.len() ==> 1 <= #[trigger] hand[index] <= 13
}

/// A hand of cards of the deck is worth at least one point for each card, and a
/// hand grows in value by the points of the card that is added.
pub proof fn lemma_hand_value_bounds(hand: Seq<u8>)
    requires
        hand_of_deck(hand),
    ensures
        hand.len() <= hand_value(hand) <= 10 * hand.len(),
    decreases hand.len(),
{
    if hand.len() > 0 {
        lemma_hand_value_bounds(hand.drop_last());
    }
}

/// The value of a hand never falls as cards are added.
proof fn lemma_hand_value_grows(hand: Seq<u8>, count: int)
    requires
        0 <= count <= hand.len(),
    ensures
        0 <= hand_value(hand.take(count)) <= hand_value(hand),
    decreases hand.len() - count,
{
    if count == hand.len() {
        assert(hand.take(count) =~= hand);
        lemma_hand_value_nonneg(hand);
    } else {
        lemma_hand_value_grows(hand, count + 1);
        assert(hand.take(count + 1).drop_last() =~= hand.take(count));
        lemma_hand_value_nonneg(hand.take(count));
    }
}

proof fn lemma_hand_value_nonneg(hand: Seq<u8>)
    ensures
        0 <= hand_value(hand),
    decreases hand.len(),
{
    if hand.len() > 0 {
        lemma_hand_value_nonneg(hand.drop_last());
    }
}

/// Adds up the points of a hand. A hand worth more than a `u32` can hold is
/// refused with `InvalidHandData`.
pub fn calculate_hand_value(hand: &Vec<u8>) -> (result: Result<u32, Error>)
    ensures
        result == if hand_value(hand@) <= u32::MAX {
            Ok::<u32, Error>(hand_value(hand@) as u32)
        } else {
            Err(Error::InvalidHandData)
        },
        0 <= hand_value(hand@),
{
    let mut total: u32 = 0;
    let mut index: usize = 0;
    while index < hand.len()
        invariant
            index <= hand.len(),
            total == hand_value(hand@.take(index as int)),
        decreases hand.len() - index,
    {
        let points = card_value(hand[index] as u32);
        proof {
            assert(hand@.take(index + 1).drop_last() =~= hand@.take(index as int));
            lemma_hand_value_grows(hand@, index + 1);
        }
        if points > u32::MAX - total {
            return Err(Error::InvalidHandData);
        }
        total = total + points;
        index += 1;
    }
    assert(hand@.take(index as int) =~= hand@);
    Ok(total)
}

/// The strkey of an address, as ASCII bytes.
pub open spec fn strkey_of(address: Address) -> Seq<u8> {
    address_strkey(address.kind == AddressKind::Contract, address.key@)
}

/// The card that is dealt from `seed`.
pub open spec fn card_of(seed: Seq<u8>) -> u8 {
    prng_draw(seed, 1, 13) as u8
}

/// Deals a card from `seed`: a number from 1 to 13, drawn by a generator that is
/// seeded with `seed`.
pub fn deal_card(seed: &[u8; 32]) -> (card: u8)
    ensures
        card == card_of(seed@),
        1 <= card <= 13,
{
    prng_u64_in_range(seed, 1, 13) as u8
}

/// The seed of a game's first round: the hash of the session id and the players'
/// strkeys.
pub open spec fn game_seed(session_id: u32, player1: Address, player2: Address) -> Seq<u8> {
    keccak256_digest(be_bytes(session_id) + strkey_of(player1) + strkey_of(player2))
}

/// The seed of a later round: the hash of the session id, the players' strkeys and
/// the round.
pub open spec fn round_seed(session_id: u32, player1: Address, player2: Address, round: u32) -> Seq<
    u8,
> {
    keccak256_digest(
        be_bytes(session_id) + strkey_of(player1) + strkey_of(player2) + be_bytes(round),
    )
}

/// The seed of the card that a player draws: the hash of the session id, the
/// player's strkey, the number of cards in the player's hand and the round.
pub open spec fn hit_seed(
    session_id: u32,
    player: Address,
    card_count: u32,
    round: u32,
) -> Seq<u8> {
    keccak256_digest(
        be_bytes(session_id) + strkey_of(player) + be_bytes(card_count) + be_bytes(round),
    )
}

/// The seed of one of the two cards that a round deals to a player: the hash of
/// the round's seed, the card's index and the player's number.
pub open spec fn card_seed(base_seed: Seq<u8>, index: u8, player: u8) -> Seq<u8> {
    keccak256_digest(base_seed + seq![index, player])
}

/// The two cards that a round deals to a player.
pub open spec fn dealt_hand(base_seed: Seq<u8>, player: u8) -> Seq<u8> {
    seq![card_of(card_seed(base_seed, 0, player)), card_of(card_seed(base_seed, 1, player))]
}

/// Computes [`game_seed`], or [`round_seed`] where a round is given.
pub fn seed_of_round(
    session_id: u32,
    player1: &Address,
    player2: &Address,
    round: Option<u32>,
) -> (seed: [u8; 32])
    ensures
        seed@ == match round {
            None => game_seed(session_id, *player1, *player2),
            Some(round) => round_seed(session_id, *player1, *player2, round),
        },
{
    let mut seed_bytes: Vec<u8> = Vec::new();
    append_bytes(&mut seed_bytes, u32_to_be_bytes(session_id).as_slice());
    append_bytes(&mut seed_bytes, strkey(player1).as_slice());
    append_bytes(&mut seed_bytes, strkey(player2).as_slice());
    if let Some(round) = round {
        append_bytes(&mut seed_bytes, u32_to_be_bytes(round).as_slice());
    }
    keccak256(seed_bytes.as_slice())
}

/// Computes [`hit_seed`].
pub fn seed_of_hit(
    session_id: u32,
    player: &Address,
    card_count: u32,
    round: u32,
) -> (seed: [u8; 32])
    ensures
        seed@ == hit_seed(session_id, *player, card_count, round),
{
    let mut seed_bytes: Vec<u8> = Vec::new();
    append_bytes(&mut seed_bytes, u32_to_be_bytes(session_id).as_slice());
    append_bytes(&mut seed_bytes, strkey(player).as_slice());
    append_bytes(&mut seed_bytes, u32_to_be_bytes(card_count).as_slice());
    append_bytes(&mut seed_bytes, u32_to_be_bytes(round).as_slice());
    keccak256(seed_bytes.as_slice())
}

/// Deals the two cards of a round to a player: player 1 or player 2.
pub fn deal_hand(base_seed: &[u8; 32], player: u8) -> (hand: Vec<u8>)
    ensures
        hand@ == dealt_hand(base_seed@, player),
        hand_of_deck(hand@),
        hand_value(hand@) <= 20,
{
    let mut hand: Vec<u8> = Vec::new();
    let mut index: u8 = 0;
    while index < 2
        invariant
            index <= 2,
            hand@.len() == index,
            forall|k: int| 0 <= k < index ==> #[trigger] hand@[k] == card_of(
                card_seed(base_seed@, k as u8, player),
            ) && 1 <= hand@[k] <= 13,
        decreases 2 - index,
    {
        let mut card_seed_bytes: Vec<u8> = Vec::new();
        append_bytes(&mut card_seed_bytes, base_seed.as_slice());
        card_seed_bytes.push(index);
        card_seed_bytes.push(player);
        assert(card_seed_bytes@ =~= base_seed@ + seq![index, player]);
        let seed = keccak256(card_seed_bytes.as_slice());
        hand.push(deal_card(&seed));
        index += 1;
    }
    proof {
        lemma_hand_value_bounds(hand@);
    }
    hand
}

} // verus!
