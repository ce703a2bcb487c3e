//! What holds of the match state machine.

use vstd::prelude::*;
use crate::primitives::{Address, is_zero_id};
use crate::veilstar_brawl::model::{BrawlState, stake_due};
use crate::veilstar_brawl::types::{
    Error, Event, SlotKey, ZkVerificationRecord, RESERVE_STROOPS,
};

verus! {

/// A proof for a slot is recorded only where the value it opens is the commitment
/// on record for the slot, the verifier accepted it, and the contract either has no
/// verifying key configured or the proof names the configured one.
pub proof fn law_verification_needs_commitment_and_proof(
    s: BrawlState,
    session_id: u32,
    player: Address,
    round: u32,
    turn: u32,
    commitment: [u8; 32],
    vk_id: [u8; 32],
    proof: Seq<u8>,
    public_inputs: Seq<[u8; 32]>,
    verified: bool,
)
    requires
        s.submit_zk_verification_error(
            session_id,
            player,
            round,
            turn,
            commitment,
            vk_id,
            proof,
            public_inputs,
            verified,
        ) is None,
    ensures
        verified,
        s.zk_commits.contains_key(s.slot(session_id, player, round, turn)),
        s.zk_commits[s.slot(session_id, player, round, turn)] == commitment,
        is_zero_id(s.zk_verifier_vk_id) || vk_id == s.zk_verifier_vk_id,
        proof.len() == 256,
        public_inputs.len() >= 1,
{
}

/// The first accepted proof for a slot writes the slot's record. A further proof
/// for the slot, accepted or not and whatever verifier and verifying key are
/// configured by then, leaves the record as it was written and both counts of
/// verified slots as they are: a slot is recorded once and counts once.
pub proof fn law_repeated_verification_counts_once(
    s: BrawlState,
    session_id: u32,
    player: Address,
    round: u32,
    turn: u32,
    commitment: [u8; 32],
    vk_id: [u8; 32],
    proof: Seq<u8>,
    public_inputs: Seq<[u8; 32]>,
    again_verifier: Option<Address>,
    again_configured_vk_id: [u8; 32],
    again_vk_id: [u8; 32],
    again_proof: Seq<u8>,
    again_public_inputs: Seq<[u8; 32]>,
    again_verified: bool,
)
    requires
        s.submit_zk_verification_error(
            session_id,
            player,
            round,
            turn,
            commitment,
            vk_id,
            proof,
            public_inputs,
            true,
        ) is None,
    ensures
        ({
            let slot = s.slot(session_id, player, round, turn);
            let first = s.after_submit_zk_verification(
                session_id,
                player,
                round,
                turn,
                commitment,
                vk_id,
                proof,
                public_inputs,
                true,
            );
            let between = BrawlState {
                zk_verifier_contract: again_verifier,
                zk_verifier_vk_id: again_configured_vk_id,
                ..first
            };
            let second = between.after_submit_zk_verification(
                session_id,
                player,
                round,
                turn,
                commitment,
                again_vk_id,
                again_proof,
                again_public_inputs,
                again_verified,
            );
            &&& first.zk_verified.contains_key(slot)
            &&& !s.zk_verified.contains_key(slot) ==> first.zk_verified[slot] == (
            ZkVerificationRecord {
                verifier_contract: s.zk_verifier_contract->0,
                commitment,
                vk_id,
            })
            &&& s.zk_verified.contains_key(slot) ==> first.zk_verified[slot] == s.zk_verified[slot]
            &&& second.zk_verified == first.zk_verified
            &&& second.matches[session_id].player1_zk_verified
                == first.matches[session_id].player1_zk_verified
            &&& second.matches[session_id].player2_zk_verified
                == first.matches[session_id].player2_zk_verified
        }),
{
}

/// The first accepted proof for a slot adds one to its side's count of verified
/// slots, where the count has room for it, and nothing to the other side's.
pub proof fn law_first_verification_counts(
    s: BrawlState,
    session_id: u32,
    player: Address,
    round: u32,
    turn: u32,
    commitment: [u8; 32],
    vk_id: [u8; 32],
    proof: Seq<u8>,
    public_inputs: Seq<[u8; 32]>,
)
    requires
        s.submit_zk_verification_fits(
            session_id,
            player,
            round,
            turn,
            commitment,
            vk_id,
            proof,
            public_inputs,
        ),
        s.submit_zk_verification_error(
            session_id,
            player,
            round,
            turn,
            commitment,
            vk_id,
            proof,
            public_inputs,
            true,
        ) is None,
    ensures
        ({
            let slot = s.slot(session_id, player, round, turn);
            let fresh = !s.zk_verified.contains_key(slot);
            let first = s.after_submit_zk_verification(
                session_id,
                player,
                round,
                turn,
                commitment,
                vk_id,
                proof,
                public_inputs,
                true,
            );
            &&& first.matches[session_id].player1_zk_verified
                == s.matches[session_id].player1_zk_verified + if fresh && slot.is_player1 {
                1int
            } else {
                0int
            }
            &&& first.matches[session_id].player2_zk_verified
                == s.matches[session_id].player2_zk_verified + if fresh && !slot.is_player1 {
                1int
            } else {
                0int
            }
        }),
{
}

/// No submission of a commitment or of a proof, accepted or refused, changes a
/// commitment or a record of a verified slot that the state holds. A submission
/// for a slot that holds one already changes no match either, and so no count,
/// however often it is made.
pub proof fn law_slot_records_are_written_once(
    s: BrawlState,
    held: SlotKey,
    session_id: u32,
    player: Address,
    round: u32,
    turn: u32,
    commitment: [u8; 32],
    vk_id: [u8; 32],
    proof: Seq<u8>,
    public_inputs: Seq<[u8; 32]>,
    verified: bool,
)
    ensures
        ({
            let committed = s.after_submit_zk_commit(session_id, player, round, turn, commitment);
            let proved = s.after_submit_zk_verification(
                session_id,
                player,
                round,
                turn,
                commitment,
                vk_id,
                proof,
                public_inputs,
                verified,
            );
            &&& proved.zk_commits == s.zk_commits
            &&& committed.zk_verified == s.zk_verified
            &&& s.zk_commits.contains_key(held) ==> committed.zk_commits.contains_key(held)
                && committed.zk_commits[held] == s.zk_commits[held]
            &&& s.zk_verified.contains_key(held) ==> proved.zk_verified.contains_key(held)
                && proved.zk_verified[held] == s.zk_verified[held]
            &&& s.zk_commits.contains_key(s.slot(session_id, player, round, turn))
                ==> committed.matches == s.matches && committed.zk_commits == s.zk_commits
            &&& s.zk_verified.contains_key(s.slot(session_id, player, round, turn))
                ==> proved.matches == s.matches && proved.zk_verified == s.zk_verified
        }),
{
    let committed = s.after_submit_zk_commit(session_id, player, round, turn, commitment);
    let proved = s.after_submit_zk_verification(
        session_id,
        player,
        round,
        turn,
        commitment,
        vk_id,
        proof,
        public_inputs,
        verified,
    );
    let slot = s.slot(session_id, player, round, turn);
    if s.zk_commits.contains_key(slot) {
        assert(committed.matches =~= s.matches);
    }
    if s.zk_verified.contains_key(slot) {
        assert(proved.matches =~= s.matches);
    }
}

/// Submitting an accepted proof for a slot once more, with the same values, is
/// accepted again and changes nothing but the record of events.
pub proof fn law_identical_verification_only_logs(
    s: BrawlState,
    session_id: u32,
    player: Address,
    round: u32,
    turn: u32,
    commitment: [u8; 32],
    vk_id: [u8; 32],
    proof: Seq<u8>,
    public_inputs: Seq<[u8; 32]>,
)
    requires
        s.submit_zk_verification_error(
            session_id,
            player,
            round,
            turn,
            commitment,
            vk_id,
            proof,
            public_inputs,
            true,
        ) is None,
    ensures
        ({
            let first = s.after_submit_zk_verification(
                session_id,
                player,
                round,
                turn,
                commitment,
                vk_id,
                proof,
                public_inputs,
                true,
            );
            &&& first.submit_zk_verification_error(
                session_id,
                player,
                round,
                turn,
                commitment,
                vk_id,
                proof,
                public_inputs,
                true,
            ) is None
            &&& first.after_submit_zk_verification(
                session_id,
                player,
                round,
                turn,
                commitment,
                vk_id,
                proof,
                public_inputs,
                true,
            ) == first.with_event(
                Event::MoveVerified {
                    session_id,
                    round,
                    turn,
                    player,
                    verifier_contract: s.zk_verifier_contract->0,
                },
            )
        }),
{
    let first = s.after_submit_zk_verification(
        session_id,
        player,
        round,
        turn,
        commitment,
        vk_id,
        proof,
        public_inputs,
        true,
    );
    let second = first.after_submit_zk_verification(
        session_id,
        player,
        round,
        turn,
        commitment,
        vk_id,
        proof,
        public_inputs,
        true,
    );
    assert(second.zk_verified =~= first.zk_verified);
    assert(second.matches =~= first.matches);
}

/// A slot keeps the commitment it was first given. Committing the same value to
/// it again is accepted; committing another value is refused with
/// `ZkCommitAlreadySubmitted` and changes nothing. Either way the slot holds the
/// first commitment afterwards and the counts of commitments are as the first
/// left them: a slot counts once.
pub proof fn law_repeated_commit_counts_once(
    s: BrawlState,
    session_id: u32,
    player: Address,
    round: u32,
    turn: u32,
    commitment: [u8; 32],
    again: [u8; 32],
)
    requires
        s.submit_zk_commit_error(session_id, player, round, turn, commitment) is None,
    ensures
        ({
            let slot = s.slot(session_id, player, round, turn);
            let first = s.after_submit_zk_commit(session_id, player, round, turn, commitment);
            let second = first.after_submit_zk_commit(session_id, player, round, turn, again);
            &&& first.zk_commits.contains_key(slot)
            &&& first.zk_commits[slot] == commitment
            &&& first.submit_zk_commit_error(session_id, player, round, turn, again) == if again
                == commitment {
                None
            } else {
                Some(Error::ZkCommitAlreadySubmitted)
            }
            &&& again != commitment ==> second == first
            &&& second.zk_commits == first.zk_commits
            &&& second.zk_commits[slot] == commitment
            &&& second.matches[session_id].player1_zk_commits
                == first.matches[session_id].player1_zk_commits
            &&& second.matches[session_id].player2_zk_commits
                == first.matches[session_id].player2_zk_commits
        }),
{
}

/// The winner of a match is bound once: after a proof has bound it, every further
/// proof for the match is refused and changes nothing, whatever it claims and
/// whatever the verifier says of it.
pub proof fn law_outcome_is_bound_once(
    s: BrawlState,
    session_id: u32,
    winner: Address,
    vk_id: [u8; 32],
    proof: Seq<u8>,
    public_inputs: Seq<[u8; 32]>,
    again_winner: Address,
    again_vk_id: [u8; 32],
    again_proof: Seq<u8>,
    again_public_inputs: Seq<[u8; 32]>,
    again_verified: bool,
)
    requires
        s.submit_zk_match_outcome_error(session_id, winner, vk_id, proof, public_inputs, true)
            is None,
    ensures
        ({
            let first = s.after_submit_zk_match_outcome(
                session_id,
                winner,
                vk_id,
                proof,
                public_inputs,
                true,
            );
            &&& first.zk_outcomes.contains_key(session_id)
            &&& first.zk_outcomes[session_id].winner == winner
            &&& first.submit_zk_match_outcome_error(
                session_id,
                again_winner,
                again_vk_id,
                again_proof,
                again_public_inputs,
                again_verified,
            ) is Some
            &&& first.after_submit_zk_match_outcome(
                session_id,
                again_winner,
                again_vk_id,
                again_proof,
                again_public_inputs,
                again_verified,
            ) == first
            &&& first.submit_zk_match_outcome_error(
                session_id,
                winner,
                vk_id,
                proof,
                public_inputs,
                true,
            ) == Some(Error::ZkVerificationAlreadySubmitted)
        }),
{
}

/// Where proofs are required, a match is finalized only where both sides have a verified
/// slot and a proof has bound the winner; the winner recorded is the bound one, and
/// the claim that player 1 won agrees with it.
pub proof fn law_required_proofs_hold_end_game(s: BrawlState, session_id: u32, player1_won: bool)
    requires
        s.zk_gate_required,
        s.end_game_error(session_id, player1_won) is None,
    ensures
        s.matches[session_id].player1_zk_verified >= 1,
        s.matches[session_id].player2_zk_verified >= 1,
        s.zk_outcomes.contains_key(session_id),
        player1_won == (s.zk_outcomes[session_id].winner == s.matches[session_id].player1),
        s.after_end_game(session_id, player1_won).matches[session_id].winner == Some(
            s.zk_outcomes[session_id].winner,
        ),
{
}

/// A match is finalized once: after it has a winner, finalizing, playing,
/// committing, proving, expiring and cancelling are all refused with
/// `MatchAlreadyEnded`.
pub proof fn law_ended_matches_refuse(s: BrawlState, session_id: u32, player1_won: bool)
    requires
        s.end_game_error(session_id, player1_won) is None,
    ensures
        ({
            let ended = s.after_end_game(session_id, player1_won);
            &&& ended.active_match_error(session_id) == Some(Error::MatchAlreadyEnded)
            &&& forall|claim: bool| #[trigger]
                ended.end_game_error(session_id, claim) == Some(Error::MatchAlreadyEnded)
            &&& forall|player: Address| #[trigger]
                ended.player_error(session_id, player) == Some(Error::MatchAlreadyEnded)
            &&& forall|now_ts: u64| #[trigger]
                ended.expire_stake_error(session_id, now_ts) == Some(Error::MatchAlreadyEnded)
            &&& ended.after_cancel_match(session_id) == ended
        }),
{
}

/// Finalizing a staked match pays the winner twice the stake and accrues both
/// players' fees, which are what the two deposits brought in beyond the stakes.
pub proof fn law_end_game_settles_stakes(s: BrawlState, session_id: u32, player1_won: bool)
    requires
        s.valid(),
        s.end_game_fits(session_id, player1_won),
        s.end_game_error(session_id, player1_won) is None,
        s.matches[session_id].stake_amount_stroops > 0,
    ensures
        ({
            let m = s.matches[session_id];
            let after = s.after_end_game(session_id, player1_won);
            &&& s.end_game_payment(session_id, player1_won) matches Some(payment)
                && payment.amount == 2 * m.stake_amount_stroops && payment.to
                == after.matches[session_id].winner->0
            &&& after.fee_accrued == s.fee_accrued + s.end_game_fees(session_id)
            &&& payment_plus_fees(s, session_id, player1_won) == 2 * stake_due(m)
        }),
{
}

/// What finalizing a match pays the winner, and the fees it accrues, together.
pub open spec fn payment_plus_fees(s: BrawlState, session_id: u32, player1_won: bool) -> int {
    s.end_game_payment(session_id, player1_won)->0.amount + s.end_game_fees(session_id)
}

/// A sweep takes at most the accrued fees and leaves the reserve in the balance;
/// what it does not take stays accrued.
pub proof fn law_sweep_within_fees_and_reserve(s: BrawlState, now_ts: u64, balance: i128)
    requires
        s.valid(),
        s.sweep_treasury_error(now_ts, balance) is None,
    ensures
        0 < s.sweepable(balance) <= s.fee_accrued,
        balance - s.sweepable(balance) >= RESERVE_STROOPS,
        s.after_sweep_treasury(now_ts, balance).fee_accrued == s.fee_accrued - s.sweepable(
            balance,
        ),
        s.after_sweep_treasury(now_ts, balance).valid(),
{
}

/// After a sweep no sweep succeeds before the sweep interval has passed.
pub proof fn law_sweeps_keep_their_distance(
    s: BrawlState,
    now_ts: u64,
    balance: i128,
    later_ts: u64,
    later_balance: i128,
)
    requires
        s.sweep_treasury_error(now_ts, balance) is None,
        now_ts > 0,
        later_ts < now_ts + crate::veilstar_brawl::types::FEE_SWEEP_INTERVAL_SECONDS,
    ensures
        s.after_sweep_treasury(now_ts, balance).sweep_treasury_error(later_ts, later_balance)
            == Some(Error::SweepTooEarly),
{
}

} // verus!
