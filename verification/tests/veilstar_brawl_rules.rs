use veilstar_wager::primitives::Address;
use veilstar_wager::veilstar_brawl::{
    BrawlSnapshot, Error, Event, MoveType, Payment, VeilstarBrawlContract, ZkVerifierContract,
    FEE_SWEEP_INTERVAL_SECONDS, MOVE_COST_STROOPS, RESERVE_STROOPS, STAKE_DEPOSIT_WINDOW_SECONDS,
    STAKE_FEE_BPS,
};

struct Answer(bool);

impl ZkVerifierContract for Answer {
    fn verify_round_proof(
        &mut self,
        _vk_id: &[u8; 32],
        _proof: &Vec<u8>,
        _public_inputs: &Vec<[u8; 32]>,
    ) -> bool {
        self.0
    }
}

const NOW: u64 = 1_700_000_000;
const STAKE: i128 = 10_000_000;
const VK: [u8; 32] = [8u8; 32];

fn admin() -> Address {
    Address::account([1u8; 32])
}

fn player1() -> Address {
    Address::account([3u8; 32])
}

fn player2() -> Address {
    Address::account([4u8; 32])
}

fn verifier_address() -> Address {
    Address::contract([102u8; 32])
}

fn new_contract() -> VeilstarBrawlContract {
    VeilstarBrawlContract::new(
        admin(),
        Address::contract([100u8; 32]),
        Address::account([2u8; 32]),
        Address::contract([101u8; 32]),
    )
}

fn started(session_id: u32) -> VeilstarBrawlContract {
    let mut contract = new_contract();
    contract.start_game(session_id, player1(), player2(), 100, 200, 100).unwrap();
    contract
}

fn configured(session_id: u32) -> VeilstarBrawlContract {
    let mut contract = started(session_id);
    contract.set_zk_verifier_contract(verifier_address());
    contract.set_zk_verifier_vk_id(VK);
    contract
}

fn proof_bytes() -> Vec<u8> {
    vec![9u8; 256]
}

fn inputs() -> Vec<[u8; 32]> {
    vec![[10u8; 32]]
}

#[test]
fn a_new_match_is_blank() {
    let contract = started(1);
    let m = contract.get_match(1).unwrap();
    assert_eq!(m.player1, player1());
    assert_eq!(m.player2, player2());
    assert_eq!(m.player1_points, 100);
    assert_eq!(m.player2_points, 200);
    assert_eq!(m.stake_amount_stroops, 0);
    assert_eq!(m.stake_fee_bps, STAKE_FEE_BPS);
    assert_eq!(m.stake_deadline_ts, 0);
    assert_eq!(m.fee_accrued_stroops, 0);
    assert_eq!(m.player1_zk_commits + m.player2_zk_commits, 0);
    assert_eq!(m.player1_zk_verified + m.player2_zk_verified, 0);
    assert!(!m.is_cancelled && !m.player1_stake_paid && !m.player2_stake_paid);
    assert_eq!(contract.get_admin(), admin());
    assert_eq!(contract.get_hub(), Address::contract([100u8; 32]));
    assert_eq!(contract.get_treasury(), Address::account([2u8; 32]));
    assert_eq!(contract.get_xlm_token(), Address::contract([101u8; 32]));
    assert_eq!(contract.get_fee_accrued(), 0);
    assert_eq!(contract.get_last_sweep_ts(), 0);
    assert!(!contract.get_zk_gate_required());
    assert_eq!(contract.get_zk_verifier_contract(), Err(Error::ZkVerifierNotConfigured));
    assert_eq!(contract.get_zk_verifier_vk_id(), [0u8; 32]);
    assert_eq!(contract.get_zk_match_outcome(1), Err(Error::ZkMatchOutcomeRequired));
}

#[test]
fn moves_and_surges_cost_a_thousand_stroops() {
    let mut contract = started(1);
    assert_eq!(MOVE_COST_STROOPS, 1_000);
    assert_eq!(contract.submit_move(1, player2(), MoveType::Kick, 1), Ok(1_000));
    assert_eq!(contract.submit_power_surge(1, player1(), 1, 7), Ok(1_000));
    let m = contract.get_match(1).unwrap();
    assert_eq!((m.player1_moves, m.player2_moves, m.total_xlm_collected), (0, 1, 2_000));
    assert_eq!(contract.submit_move(2, player1(), MoveType::Kick, 1), Err(Error::MatchNotFound));
    assert_eq!(contract.submit_power_surge(2, player1(), 1, 1), Err(Error::MatchNotFound));
    assert_eq!(
        contract.submit_power_surge(1, Address::account([9u8; 32]), 1, 1),
        Err(Error::NotPlayer)
    );
    contract.cancel_match(1).unwrap();
    assert_eq!(contract.submit_move(1, player1(), MoveType::Kick, 1), Err(Error::MatchCancelled));
    assert_eq!(contract.submit_power_surge(1, player1(), 1, 1), Err(Error::MatchCancelled));
    assert_eq!(contract.get_match(1).unwrap().total_xlm_collected, 2_000);
}

#[test]
fn stakes_are_set_once_and_deposited_with_a_tenth_of_a_percent() {
    let mut contract = started(1);
    assert_eq!(contract.set_match_stake(2, STAKE, NOW), Err(Error::MatchNotFound));
    assert_eq!(contract.set_match_stake(1, 0, NOW), Err(Error::InvalidStake));
    assert_eq!(contract.set_match_stake(1, -1, NOW), Err(Error::InvalidStake));
    assert_eq!(contract.deposit_stake(1, player1(), NOW), Err(Error::StakeNotConfigured));
    assert_eq!(contract.deposit_stake(2, player1(), NOW), Err(Error::MatchNotFound));

    assert_eq!(contract.set_match_stake(1, STAKE, NOW), Ok(()));
    let m = contract.get_match(1).unwrap();
    assert_eq!(STAKE_DEPOSIT_WINDOW_SECONDS, 60);
    assert_eq!(m.stake_deadline_ts, NOW + 60);
    assert_eq!(m.stake_amount_stroops, STAKE);
    assert_eq!(contract.set_match_stake(1, STAKE + 1, NOW), Err(Error::InvalidStake));
    assert_eq!(contract.set_match_stake(1, STAKE, NOW + 500), Ok(()));
    assert_eq!(contract.get_match(1).unwrap().stake_deadline_ts, NOW + 60);

    assert_eq!(contract.deposit_stake(1, Address::account([9u8; 32]), NOW), Err(Error::NotPlayer));
    assert_eq!(contract.deposit_stake(1, player1(), NOW + 61), Err(Error::StakeDepositExpired));
    assert_eq!(contract.deposit_stake(1, player1(), NOW + 60), Ok(10_010_000));
    assert_eq!(contract.deposit_stake(1, player1(), NOW + 60), Ok(0));
    assert_eq!(contract.deposit_stake(1, player2(), NOW), Ok(10_010_000));
    let m = contract.get_match(1).unwrap();
    assert!(m.player1_stake_paid && m.player2_stake_paid);

    assert_eq!(VeilstarBrawlContract::calc_fee(STAKE, STAKE_FEE_BPS), 10_000);
    assert_eq!(VeilstarBrawlContract::calc_fee(1, 10), 1);
    assert_eq!(VeilstarBrawlContract::calc_fee(1_000, 10), 1);
    assert_eq!(VeilstarBrawlContract::calc_fee(1_001, 10), 2);
    assert_eq!(VeilstarBrawlContract::calc_fee(0, 10), 0);
    assert!(VeilstarBrawlContract::stake_fits(STAKE));
    assert!(!VeilstarBrawlContract::stake_fits(i128::MAX / 10 + 1));
}

#[test]
fn the_deadline_of_a_stake_saturates() {
    let mut contract = started(1);
    assert_eq!(contract.set_match_stake(1, STAKE, u64::MAX - 10), Ok(()));
    assert_eq!(contract.get_match(1).unwrap().stake_deadline_ts, u64::MAX);
}

#[test]
fn finalizing_a_staked_match_pays_the_winner_and_accrues_both_fees() {
    let mut contract = started(1);
    contract.set_match_stake(1, STAKE, NOW).unwrap();
    contract.deposit_stake(1, player1(), NOW).unwrap();
    assert_eq!(contract.end_game(1, false), Err(Error::StakeNotPaid));
    contract.deposit_stake(1, player2(), NOW).unwrap();
    assert!(contract.end_game_fits(1, false));

    assert_eq!(contract.end_game(1, false), Ok(Some(Payment { to: player2(), amount: 2 * STAKE })));
    let m = contract.get_match(1).unwrap();
    assert_eq!(m.winner, Some(player2()));
    assert_eq!(m.fee_accrued_stroops, 20_000);
    assert_eq!(contract.get_fee_accrued(), 20_000);
    assert_eq!(contract.end_game(1, false), Err(Error::MatchAlreadyEnded));
    assert_eq!(contract.end_game(2, false), Err(Error::MatchNotFound));

    let mut unstaked = started(5);
    assert_eq!(unstaked.end_game(5, true), Ok(None));
    assert_eq!(unstaked.get_fee_accrued(), 0);
    assert_eq!(unstaked.get_match(5).unwrap().winner, Some(player1()));
}

#[test]
fn an_expired_stake_goes_back_to_the_one_who_paid() {
    let mut contract = started(1);
    assert_eq!(contract.expire_stake(1, NOW), Err(Error::StakeNotConfigured));
    assert_eq!(contract.expire_stake(2, NOW), Err(Error::MatchNotFound));
    contract.set_match_stake(1, STAKE, NOW).unwrap();
    contract.deposit_stake(1, player2(), NOW).unwrap();
    assert_eq!(contract.expire_stake(1, NOW + 59), Err(Error::DeadlineNotReached));
    assert_eq!(
        contract.expire_stake(1, NOW + 60),
        Ok(Some(Payment { to: player2(), amount: 10_010_000 }))
    );
    let m = contract.get_match(1).unwrap();
    assert!(m.is_cancelled && !m.player1_stake_paid && !m.player2_stake_paid);
    assert_eq!(contract.expire_stake(1, NOW + 60), Err(Error::MatchCancelled));
    assert_eq!(contract.end_game(1, true), Err(Error::MatchCancelled));
    assert_eq!(contract.deposit_stake(1, player1(), NOW), Err(Error::MatchCancelled));

    let mut nobody = started(2);
    nobody.set_match_stake(2, STAKE, NOW).unwrap();
    assert_eq!(nobody.expire_stake(2, NOW + 60), Ok(None));

    let mut both = started(3);
    both.set_match_stake(3, STAKE, NOW).unwrap();
    both.deposit_stake(3, player1(), NOW).unwrap();
    both.deposit_stake(3, player2(), NOW).unwrap();
    assert_eq!(both.expire_stake(3, NOW + 60), Ok(None));

    let mut ended = started(4);
    ended.end_game(4, true).unwrap();
    assert_eq!(ended.expire_stake(4, NOW), Err(Error::MatchAlreadyEnded));
}

#[test]
fn a_cancelled_match_pays_back_every_stake() {
    let mut contract = started(1);
    contract.set_match_stake(1, STAKE, NOW).unwrap();
    contract.deposit_stake(1, player1(), NOW).unwrap();
    contract.deposit_stake(1, player2(), NOW).unwrap();
    assert_eq!(
        contract.cancel_match(1),
        Ok(vec![
            Payment { to: player1(), amount: 10_010_000 },
            Payment { to: player2(), amount: 10_010_000 },
        ])
    );
    assert_eq!(contract.cancel_match(1), Err(Error::MatchCancelled));
    assert_eq!(contract.cancel_match(2), Err(Error::MatchNotFound));

    let mut one = started(2);
    one.set_match_stake(2, STAKE, NOW).unwrap();
    one.deposit_stake(2, player2(), NOW).unwrap();
    assert_eq!(one.cancel_match(2), Ok(vec![Payment { to: player2(), amount: 10_010_000 }]));

    let mut unstaked = started(3);
    assert_eq!(unstaked.cancel_match(3), Ok(vec![]));
    assert!(unstaked.get_match(3).unwrap().is_cancelled);

    let mut ended = started(4);
    ended.end_game(4, true).unwrap();
    assert_eq!(ended.cancel_match(4), Err(Error::MatchAlreadyEnded));
}

#[test]
fn a_sweep_leaves_the_reserve() {
    let mut contract = started(1);
    contract.set_match_stake(1, STAKE, NOW).unwrap();
    contract.deposit_stake(1, player1(), NOW).unwrap();
    contract.deposit_stake(1, player2(), NOW).unwrap();
    contract.end_game(1, true).unwrap();
    assert_eq!(contract.get_fee_accrued(), 20_000);
    assert_eq!(RESERVE_STROOPS, 100_000_000);

    assert_eq!(contract.sweep_treasury(NOW, RESERVE_STROOPS), Err(Error::NothingToSweep));
    assert_eq!(contract.sweep_treasury(NOW, 5), Err(Error::NothingToSweep));
    assert_eq!(contract.sweep_treasury(NOW, RESERVE_STROOPS + 10), Ok(10));
    assert_eq!(contract.get_fee_accrued(), 19_990);
    assert_eq!(contract.get_last_sweep_ts(), NOW);

    assert_eq!(FEE_SWEEP_INTERVAL_SECONDS, 86_400);
    assert_eq!(
        contract.sweep_treasury(NOW + 86_399, RESERVE_STROOPS + 1_000_000),
        Err(Error::SweepTooEarly)
    );
    assert_eq!(
        contract.sweep_treasury(NOW - 1, RESERVE_STROOPS + 1_000_000),
        Err(Error::SweepTooEarly)
    );
    assert_eq!(contract.sweep_treasury(NOW + 86_400, RESERVE_STROOPS + 1_000_000), Ok(19_990));
    assert_eq!(contract.get_fee_accrued(), 0);
    assert_eq!(
        contract.sweep_treasury(NOW + 2 * 86_400, RESERVE_STROOPS + 1_000_000),
        Err(Error::NothingToSweep)
    );
}

#[test]
fn commitments_are_kept_by_slot() {
    let mut contract = started(1);
    assert_eq!(
        contract.submit_zk_commit(1, player1(), 0, 1, [1u8; 32]),
        Err(Error::InvalidZkCommitment)
    );
    assert_eq!(
        contract.submit_zk_commit(1, player1(), 1, 0, [1u8; 32]),
        Err(Error::InvalidZkCommitment)
    );
    assert_eq!(contract.submit_zk_commit(2, player1(), 1, 1, [1u8; 32]), Err(Error::MatchNotFound));
    assert_eq!(
        contract.submit_zk_commit(1, Address::account([9u8; 32]), 1, 1, [1u8; 32]),
        Err(Error::NotPlayer)
    );

    contract.submit_zk_commit(1, player1(), 1, 1, [1u8; 32]).unwrap();
    contract.submit_zk_commit(1, player1(), 1, 2, [2u8; 32]).unwrap();
    contract.submit_zk_commit(1, player1(), 2, 1, [3u8; 32]).unwrap();
    contract.submit_zk_commit(1, player2(), 1, 1, [4u8; 32]).unwrap();
    assert_eq!(contract.submit_zk_commit(1, player1(), 1, 1, [1u8; 32]), Ok(()));
    assert_eq!(
        contract.submit_zk_commit(1, player1(), 1, 1, [5u8; 32]),
        Err(Error::ZkCommitAlreadySubmitted)
    );
    let m = contract.get_match(1).unwrap();
    assert_eq!((m.player1_zk_commits, m.player2_zk_commits), (3, 1));
    assert!(contract.submit_zk_commit_fits(1, player1(), 1, 1, [1u8; 32]));
    assert!(contract.submit_zk_commit_fits(1, player1(), 1, 1, [5u8; 32]));
    assert!(contract.submit_zk_commit_fits(1, player1(), 9, 9, [5u8; 32]));

    let snapshot = contract.into_snapshot();
    assert_eq!(snapshot.zk_commits.len(), 4);
    let kept = snapshot
        .zk_commits
        .iter()
        .find(|(slot, _)| slot.is_player1 && slot.round == 1 && slot.turn == 1)
        .unwrap();
    assert_eq!(kept.1, [1u8; 32]);
}

#[test]
fn a_slot_keeps_its_first_commitment() {
    let mut contract = configured(1);
    let first = [7u8; 32];
    let other = [8u8; 32];
    contract.submit_zk_commit(1, player2(), 2, 3, first).unwrap();
    contract.take_events();

    // Another value for the slot is refused and leaves no trace.
    assert_eq!(
        contract.submit_zk_commit(1, player2(), 2, 3, other),
        Err(Error::ZkCommitAlreadySubmitted)
    );
    assert!(contract.take_events().is_empty());
    // The same slot of the other side is another slot.
    assert_eq!(contract.submit_zk_commit(1, player1(), 2, 3, other), Ok(()));
    let m = contract.get_match(1).unwrap();
    assert_eq!((m.player1_zk_commits, m.player2_zk_commits), (1, 1));

    // A proof opens the first commitment and not the one that was refused.
    let prove = |contract: &mut VeilstarBrawlContract, commitment: [u8; 32]| {
        contract.submit_zk_verification_verified(
            1,
            player2(),
            2,
            3,
            commitment,
            VK,
            &vec![9u8; 256],
            &vec![[10u8; 32]],
            true,
        )
    };
    assert_eq!(prove(&mut contract, other), Err(Error::InvalidZkCommitment));
    assert_eq!(prove(&mut contract, first), Ok(()));

    let snapshot = contract.into_snapshot();
    let held = snapshot
        .zk_commits
        .iter()
        .find(|(slot, _)| !slot.is_player1 && slot.round == 2 && slot.turn == 3)
        .unwrap();
    assert_eq!(held.1, first);
}

#[test]
fn a_verified_slot_keeps_its_first_record() {
    let mut contract = configured(1);
    let c1 = [7u8; 32];
    contract.submit_zk_commit(1, player1(), 1, 2, c1).unwrap();
    let prove = |contract: &mut VeilstarBrawlContract, vk_id: [u8; 32]| {
        contract.submit_zk_verification(
            &mut Answer(true),
            1,
            player1(),
            1,
            2,
            c1,
            vk_id,
            &vec![9u8; 256],
            &vec![[10u8; 32]],
        )
    };
    assert_eq!(prove(&mut contract, VK), Ok(()));

    // The contract is pointed at another verifier and another key; the slot is
    // proved again under them.
    let other_verifier = Address::contract([103u8; 32]);
    let other_key = [9u8; 32];
    contract.set_zk_verifier_contract(other_verifier);
    contract.set_zk_verifier_vk_id(other_key);
    contract.take_events();
    assert_eq!(prove(&mut contract, other_key), Ok(()));
    assert_eq!(
        contract.take_events(),
        vec![Event::MoveVerified {
            session_id: 1,
            round: 1,
            turn: 2,
            player: player1(),
            verifier_contract: other_verifier,
        }]
    );
    let m = contract.get_match(1).unwrap();
    assert_eq!((m.player1_zk_verified, m.player2_zk_verified), (1, 0));
    assert_eq!((m.player1_zk_commits, m.player2_zk_commits), (1, 0));
    assert_eq!(m.winner, None);
    assert_eq!(m.stake_amount_stroops, 0);

    let snapshot = contract.into_snapshot();
    assert_eq!(snapshot.zk_verified.len(), 1);
    let (slot, record) = snapshot.zk_verified[0];
    assert_eq!((slot.session_id, slot.round, slot.turn, slot.is_player1), (1, 1, 2, true));
    assert_eq!(record.verifier_contract, verifier_address());
    assert_eq!(record.vk_id, VK);
    assert_eq!(record.commitment, c1);
}

#[test]
fn a_refused_call_never_meets_a_machine_limit() {
    let mut snapshot = configured(1).into_snapshot();
    for entry in snapshot.matches.iter_mut() {
        entry.1.player1_moves = u32::MAX;
        entry.1.player2_zk_commits = u32::MAX;
        entry.1.player2_zk_verified = u32::MAX;
        entry.1.total_xlm_collected = i128::MAX - MOVE_COST_STROOPS;
    }
    let mut contract = VeilstarBrawlContract::from_snapshot(snapshot).unwrap();
    let stranger = Address::account([9u8; 32]);

    // The full counts are those of one side only.
    assert!(!contract.submit_move_fits(1, player1()));
    assert!(contract.submit_move_fits(1, player2()));
    assert!(contract.submit_move_fits(1, stranger));
    assert!(contract.submit_move_fits(2, player1()));
    assert_eq!(contract.submit_move(1, stranger, MoveType::Punch, 1), Err(Error::NotPlayer));
    assert_eq!(contract.submit_move(2, player1(), MoveType::Punch, 1), Err(Error::MatchNotFound));
    assert_eq!(contract.submit_move(1, player2(), MoveType::Punch, 1), Ok(MOVE_COST_STROOPS));
    assert!(!contract.submit_move_fits(1, player2()));
    assert!(!contract.submit_power_surge_fits(1, player2()));
    assert!(contract.submit_power_surge_fits(1, stranger));
    assert_eq!(contract.submit_power_surge(1, stranger, 1, 1), Err(Error::NotPlayer));

    assert!(contract.submit_zk_commit_fits(1, player1(), 1, 1, [1u8; 32]));
    assert!(!contract.submit_zk_commit_fits(1, player2(), 1, 1, [1u8; 32]));
    assert!(contract.submit_zk_commit_fits(1, player2(), 0, 1, [1u8; 32]));
    assert_eq!(
        contract.submit_zk_commit(1, player2(), 0, 1, [1u8; 32]),
        Err(Error::InvalidZkCommitment)
    );
    assert_eq!(contract.submit_zk_commit(1, player1(), 1, 1, [1u8; 32]), Ok(()));

    let proof = vec![9u8; 256];
    let inputs = vec![[10u8; 32]];
    assert!(contract.submit_zk_verification_fits(1, player1(), 1, 1, [1u8; 32], VK, &proof, &inputs));
    assert!(contract.submit_zk_verification_fits(1, player2(), 1, 1, [1u8; 32], VK, &proof, &inputs));
    assert_eq!(
        contract.submit_zk_verification(&mut Answer(true), 1, player2(), 1, 1, [1u8; 32], VK, &proof, &inputs),
        Err(Error::ZkCommitNotFound)
    );

    assert!(contract.set_match_stake_fits(1, i128::MAX / 10 + 1) == false);
    assert!(contract.set_match_stake_fits(2, i128::MAX));
    assert!(contract.set_match_stake_fits(1, -1));
    assert_eq!(contract.set_match_stake(2, i128::MAX, NOW), Err(Error::MatchNotFound));
    assert_eq!(contract.set_match_stake(1, -1, NOW), Err(Error::InvalidStake));
    contract.set_match_stake(1, STAKE, NOW).unwrap();
    assert!(contract.set_match_stake_fits(1, i128::MAX));
    assert_eq!(contract.set_match_stake(1, i128::MAX, NOW), Err(Error::InvalidStake));
    assert!(contract.end_game_fits(1, true));
    assert_eq!(contract.end_game(1, true), Err(Error::StakeNotPaid));
}

#[test]
fn a_proof_must_open_the_commitment_of_its_slot() {
    let mut contract = configured(1);
    let c1 = [7u8; 32];
    let run = |contract: &mut VeilstarBrawlContract,
               player: Address,
               round: u32,
               turn: u32,
               commitment: [u8; 32],
               vk_id: [u8; 32],
               proof: Vec<u8>,
               inputs: Vec<[u8; 32]>| {
        contract.submit_zk_verification(
            &mut Answer(true),
            1,
            player,
            round,
            turn,
            commitment,
            vk_id,
            &proof,
            &inputs,
        )
    };
    assert_eq!(
        run(&mut contract, player1(), 1, 2, c1, VK, proof_bytes(), inputs()),
        Err(Error::ZkCommitNotFound)
    );
    contract.submit_zk_commit(1, player1(), 1, 2, c1).unwrap();
    assert_eq!(
        run(&mut contract, player1(), 0, 2, c1, VK, proof_bytes(), inputs()),
        Err(Error::InvalidZkCommitment)
    );
    assert_eq!(
        run(&mut contract, player1(), 1, 0, c1, VK, proof_bytes(), inputs()),
        Err(Error::InvalidZkCommitment)
    );
    assert_eq!(
        run(&mut contract, player1(), 1, 2, c1, VK, vec![], inputs()),
        Err(Error::ZkProofInvalid)
    );
    assert_eq!(
        run(&mut contract, Address::account([9u8; 32]), 1, 2, c1, VK, proof_bytes(), inputs()),
        Err(Error::NotPlayer)
    );
    assert_eq!(
        run(&mut contract, player2(), 1, 2, c1, VK, proof_bytes(), inputs()),
        Err(Error::ZkCommitNotFound)
    );
    assert_eq!(
        run(&mut contract, player1(), 1, 2, [8u8; 32], VK, proof_bytes(), inputs()),
        Err(Error::InvalidZkCommitment)
    );
    assert_eq!(
        run(&mut contract, player1(), 1, 2, c1, [9u8; 32], proof_bytes(), inputs()),
        Err(Error::ZkProofInvalid)
    );
    assert_eq!(
        run(&mut contract, player1(), 1, 2, c1, VK, vec![9u8; 255], inputs()),
        Err(Error::ZkProofInvalid)
    );
    assert_eq!(
        run(&mut contract, player1(), 1, 2, c1, VK, proof_bytes(), vec![]),
        Err(Error::ZkProofInvalid)
    );
    assert_eq!(contract.get_match(1).unwrap().player1_zk_verified, 0);

    let refused =
        contract.submit_zk_verification(&mut Answer(false), 1, player1(), 1, 2, c1, VK, &proof_bytes(), &inputs());
    assert_eq!(refused, Err(Error::ZkProofInvalid));
    assert_eq!(contract.get_match(1).unwrap().player1_zk_verified, 0);

    assert_eq!(run(&mut contract, player1(), 1, 2, c1, VK, proof_bytes(), inputs()), Ok(()));
    assert_eq!(run(&mut contract, player1(), 1, 2, c1, VK, proof_bytes(), inputs()), Ok(()));
    let m = contract.get_match(1).unwrap();
    assert_eq!((m.player1_zk_verified, m.player2_zk_verified), (1, 0));
    assert!(contract.submit_zk_verification_fits(
        1,
        player1(),
        1,
        2,
        c1,
        VK,
        &proof_bytes(),
        &inputs()
    ));

    let snapshot = contract.into_snapshot();
    assert_eq!(snapshot.zk_verified.len(), 1);
    let (slot, record) = snapshot.zk_verified[0];
    assert_eq!((slot.session_id, slot.round, slot.turn, slot.is_player1), (1, 1, 2, true));
    assert_eq!(record.commitment, c1);
    assert_eq!(record.vk_id, VK);
    assert_eq!(record.verifier_contract, verifier_address());
}

#[test]
fn without_a_configured_key_any_key_may_be_named() {
    let mut contract = started(1);
    contract.submit_zk_commit(1, player2(), 3, 4, [7u8; 32]).unwrap();
    let result = contract.submit_zk_verification_verified(
        1,
        player2(),
        3,
        4,
        [7u8; 32],
        [0x55u8; 32],
        &proof_bytes(),
        &inputs(),
        true,
    );
    assert_eq!(result, Err(Error::ZkVerifierNotConfigured));
    contract.set_zk_verifier_contract(verifier_address());
    let result = contract.submit_zk_verification_verified(
        1,
        player2(),
        3,
        4,
        [7u8; 32],
        [0x55u8; 32],
        &proof_bytes(),
        &inputs(),
        true,
    );
    assert_eq!(result, Ok(()));
    assert_eq!(contract.get_match(1).unwrap().player2_zk_verified, 1);

    // The winner of a match, though, is bound only under a configured key.
    let outcome =
        contract.submit_zk_match_outcome_verified(1, player2(), [0u8; 32], &proof_bytes(), &inputs(), true);
    assert_eq!(outcome, Err(Error::ZkProofInvalid));
}

#[test]
fn the_winner_of_a_match_is_bound_once() {
    let mut contract = configured(1);
    let bind = |contract: &mut VeilstarBrawlContract,
                answer: bool,
                winner: Address,
                vk_id: [u8; 32],
                proof: Vec<u8>,
                inputs: Vec<[u8; 32]>| {
        contract.submit_zk_match_outcome(&mut Answer(answer), 1, winner, vk_id, &proof, &inputs)
    };
    assert_eq!(
        bind(&mut contract, true, player1(), VK, vec![9u8; 255], inputs()),
        Err(Error::ZkProofInvalid)
    );
    assert_eq!(
        bind(&mut contract, true, player1(), VK, proof_bytes(), vec![]),
        Err(Error::ZkProofInvalid)
    );
    assert_eq!(
        bind(&mut contract, true, player1(), [9u8; 32], proof_bytes(), inputs()),
        Err(Error::ZkProofInvalid)
    );
    assert_eq!(
        bind(&mut contract, true, Address::account([9u8; 32]), VK, proof_bytes(), inputs()),
        Err(Error::InvalidWinnerClaim)
    );
    assert_eq!(
        bind(&mut contract, false, player1(), VK, proof_bytes(), inputs()),
        Err(Error::ZkProofInvalid)
    );
    assert_eq!(contract.get_zk_match_outcome(1), Err(Error::ZkMatchOutcomeRequired));

    assert_eq!(bind(&mut contract, true, player2(), VK, proof_bytes(), inputs()), Ok(()));
    let outcome = contract.get_zk_match_outcome(1).unwrap();
    assert_eq!(outcome.winner, player2());
    assert_eq!(outcome.vk_id, VK);
    assert_eq!(outcome.verifier_contract, verifier_address());

    assert_eq!(
        bind(&mut contract, true, player2(), VK, proof_bytes(), inputs()),
        Err(Error::ZkVerificationAlreadySubmitted)
    );
    assert_eq!(
        bind(&mut contract, true, player1(), VK, proof_bytes(), inputs()),
        Err(Error::ZkVerificationAlreadySubmitted)
    );
    assert_eq!(contract.get_zk_match_outcome(1).unwrap().winner, player2());

    let mut other = started(1);
    other.set_zk_verifier_vk_id(VK);
    assert_eq!(
        other.submit_zk_match_outcome(&mut Answer(true), 1, player1(), VK, &proof_bytes(), &inputs()),
        Err(Error::ZkVerifierNotConfigured)
    );
    assert_eq!(
        other.submit_zk_match_outcome(&mut Answer(true), 2, player1(), VK, &proof_bytes(), &inputs()),
        Err(Error::MatchNotFound)
    );
    other.end_game(1, true).unwrap();
    assert_eq!(
        other.submit_zk_match_outcome(&mut Answer(true), 1, player1(), VK, &proof_bytes(), &inputs()),
        Err(Error::MatchAlreadyEnded)
    );
}

#[test]
fn a_match_that_starts_again_has_slots_of_its_own() {
    let mut contract = configured(1);
    let c1 = [7u8; 32];
    contract.submit_zk_commit(1, player1(), 1, 1, c1).unwrap();

    // The same session id at another ledger sequence: another salt, other slots.
    contract.start_game(1, player1(), player2(), 100, 200, 101).unwrap();
    assert_eq!(contract.get_match(1).unwrap().player1_zk_commits, 0);
    let result =
        contract.submit_zk_verification(&mut Answer(true), 1, player1(), 1, 1, c1, VK, &proof_bytes(), &inputs());
    assert_eq!(result, Err(Error::ZkCommitNotFound));
    contract.submit_zk_commit(1, player1(), 1, 1, c1).unwrap();
    assert_eq!(contract.get_match(1).unwrap().player1_zk_commits, 1);

    let snapshot = contract.into_snapshot();
    assert_eq!(snapshot.zk_commits.len(), 2);
    assert_ne!(snapshot.zk_commits[0].0.salt, snapshot.zk_commits[1].0.salt);
    // The salt is the SHA-256 of the session id and the ledger sequence.
    let expected: [u8; 32] = [
        0x7f, 0x29, 0xd3, 0x38, 0xfb, 0x4e, 0xb8, 0x54, 0xe7, 0x94, 0x30, 0x4a, 0x38, 0x11, 0x40,
        0xb4, 0xd5, 0xea, 0x9d, 0x2f, 0x64, 0x5e, 0x57, 0x1b, 0x90, 0x65, 0x86, 0x7f, 0xa0, 0xd7,
        0x79, 0xf7,
    ];
    assert_eq!(snapshot.zk_commits[0].0.salt, expected);
    assert_eq!(snapshot.salts.len(), 1);
}

#[test]
fn a_snapshot_restores_the_match_contract() {
    let mut contract = configured(1);
    contract.set_zk_gate_required(true);
    contract.set_match_stake(1, STAKE, NOW).unwrap();
    contract.submit_zk_commit(1, player1(), 1, 1, [7u8; 32]).unwrap();
    let m = contract.get_match(1).unwrap();

    let snapshot = contract.into_snapshot();
    let restored = VeilstarBrawlContract::from_snapshot(snapshot).unwrap();
    assert_eq!(restored.get_match(1).unwrap(), m);
    assert!(restored.get_zk_gate_required());
    assert_eq!(restored.get_zk_verifier_vk_id(), VK);

    let tamper = |change: fn(&mut BrawlSnapshot)| {
        let mut snapshot = restored_snapshot();
        change(&mut snapshot);
        VeilstarBrawlContract::from_snapshot(snapshot).is_some()
    };
    assert!(tamper(|_| {}));
    assert!(!tamper(|s| s.fee_accrued = -1));
    assert!(!tamper(|s| s.matches[0].1.stake_fee_bps = 11));
    assert!(!tamper(|s| s.matches[0].1.stake_amount_stroops = -1));
    assert!(!tamper(|s| s.matches[0].1.stake_amount_stroops = i128::MAX));
    assert!(!tamper(|s| s.matches[0].1.fee_accrued_stroops = 5));
    // An entry that an earlier entry with the same key hides does not count.
    assert!(tamper(|s| {
        let mut hidden = s.matches[0];
        hidden.1.stake_fee_bps = 11;
        s.matches.push(hidden);
    }));
}

fn restored_snapshot() -> BrawlSnapshot {
    let mut contract = configured(1);
    contract.set_match_stake(1, STAKE, NOW).unwrap();
    contract.into_snapshot()
}

#[test]
fn configuration_can_be_changed() {
    let mut contract = new_contract();
    contract.set_admin(player1());
    contract.set_hub(player2());
    contract.set_treasury(player1());
    contract.set_zk_gate_required(true);
    contract.set_zk_verifier_contract(verifier_address());
    contract.set_zk_verifier_vk_id(VK);
    assert_eq!(contract.get_admin(), player1());
    assert_eq!(contract.get_hub(), player2());
    assert_eq!(contract.get_treasury(), player1());
    assert!(contract.get_zk_gate_required());
    assert_eq!(contract.get_zk_verifier_contract(), Ok(verifier_address()));
    assert_eq!(contract.get_zk_verifier_vk_id(), VK);
    assert!(contract.submit_move_fits(1, player1()));
}

#[test]
fn codes_of_the_match_contract() {
    let codes = [
        (Error::MatchNotFound, 1),
        (Error::NotPlayer, 2),
        (Error::MatchAlreadyEnded, 3),
        (Error::MatchNotInProgress, 4),
        (Error::InsufficientBalance, 5),
        (Error::NothingToSweep, 6),
        (Error::InvalidStake, 7),
        (Error::StakeNotConfigured, 8),
        (Error::StakeAlreadyPaid, 9),
        (Error::StakeNotPaid, 10),
        (Error::SweepTooEarly, 11),
        (Error::StakeDepositExpired, 12),
        (Error::DeadlineNotReached, 13),
        (Error::MatchCancelled, 14),
        (Error::InvalidZkCommitment, 15),
        (Error::ZkCommitAlreadySubmitted, 16),
        (Error::ZkCommitRequired, 17),
        (Error::InvalidZkVerifier, 18),
        (Error::ZkCommitNotFound, 19),
        (Error::ZkVerificationAlreadySubmitted, 20),
        (Error::ZkProofInvalid, 21),
        (Error::ZkVerifierNotConfigured, 22),
        (Error::ZkMatchOutcomeRequired, 23),
        (Error::InvalidWinnerClaim, 24),
    ];
    for (error, code) in codes {
        assert_eq!(error.code(), code);
    }
    assert_eq!(MoveType::Punch.code(), 0);
    assert_eq!(MoveType::Kick.code(), 1);
    assert_eq!(MoveType::Block.code(), 2);
    assert_eq!(MoveType::Special.code(), 3);
}

#[test]
fn moves_and_proofs_are_put_on_record_for_observers() {
    let mut contract = configured(1);
    assert_eq!(contract.take_events(), vec![]);
    contract.submit_move(1, player1(), MoveType::Special, 3).unwrap();
    contract.submit_power_surge(1, player2(), 2, 7).unwrap();
    assert!(contract.submit_move(1, Address::account([9u8; 32]), MoveType::Kick, 1).is_err());
    contract.submit_zk_commit(1, player2(), 2, 5, [7u8; 32]).unwrap();
    assert!(contract
        .submit_zk_verification(&mut Answer(false), 1, player2(), 2, 5, [7u8; 32], VK, &proof_bytes(), &inputs())
        .is_err());
    contract
        .submit_zk_verification(&mut Answer(true), 1, player2(), 2, 5, [7u8; 32], VK, &proof_bytes(), &inputs())
        .unwrap();
    contract
        .submit_zk_match_outcome(&mut Answer(true), 1, player2(), VK, &proof_bytes(), &inputs())
        .unwrap();
    contract.set_match_stake(1, STAKE, NOW).unwrap();
    contract.end_game(1, false).unwrap_err();
    assert_eq!(
        contract.take_events(),
        vec![
            Event::MoveSubmitted { session_id: 1, turn: 3, player: player1(), move_type: MoveType::Special },
            Event::PowerSurgeSubmitted { session_id: 1, round: 2, player: player2(), card_code: 7 },
            Event::MoveCommitted {
                session_id: 1,
                round: 2,
                turn: 5,
                player: player2(),
                commitment: [7u8; 32]
            },
            Event::MoveVerified {
                session_id: 1,
                round: 2,
                turn: 5,
                player: player2(),
                verifier_contract: verifier_address()
            },
            Event::WinnerBound { session_id: 1, verifier_contract: verifier_address() },
        ]
    );
    assert_eq!(contract.take_events(), vec![]);
}

/// A verifier that keeps what it was asked.
struct Recording {
    answer: bool,
    asked: Vec<([u8; 32], Vec<u8>, Vec<[u8; 32]>)>,
}

impl ZkVerifierContract for Recording {
    fn verify_round_proof(
        &mut self,
        vk_id: &[u8; 32],
        proof: &Vec<u8>,
        public_inputs: &Vec<[u8; 32]>,
    ) -> bool {
        self.asked.push((*vk_id, proof.clone(), public_inputs.clone()));
        self.answer
    }
}

#[test]
fn the_match_contract_asks_the_verifier_once_and_only_on_a_sound_request() {
    let mut contract = configured(1);
    let c1 = [7u8; 32];
    let proof: Vec<u8> = (0..=255u8).collect();
    let inputs = vec![[10u8; 32], [11u8; 32]];
    let mut verifier = Recording { answer: false, asked: vec![] };

    // Refused before the verifier: nothing is asked.
    assert_eq!(
        contract.submit_zk_verification(&mut verifier, 1, player1(), 1, 2, c1, VK, &proof, &inputs),
        Err(Error::ZkCommitNotFound)
    );
    contract.submit_zk_commit(1, player1(), 1, 2, c1).unwrap();
    assert_eq!(
        contract
            .submit_zk_verification(&mut verifier, 1, player1(), 1, 2, [8u8; 32], VK, &proof, &inputs),
        Err(Error::InvalidZkCommitment)
    );
    assert_eq!(
        contract
            .submit_zk_verification(&mut verifier, 1, player1(), 1, 2, c1, [9u8; 32], &proof, &inputs),
        Err(Error::ZkProofInvalid)
    );
    assert_eq!(
        contract.submit_zk_verification(&mut verifier, 1, player1(), 1, 2, c1, VK, &proof, &vec![]),
        Err(Error::ZkProofInvalid)
    );
    assert_eq!(
        contract.submit_zk_match_outcome(&mut verifier, 2, player1(), VK, &proof, &inputs),
        Err(Error::MatchNotFound)
    );
    assert_eq!(
        contract.submit_zk_match_outcome(&mut verifier, 1, admin(), VK, &proof, &inputs),
        Err(Error::InvalidWinnerClaim)
    );
    assert!(verifier.asked.is_empty());

    // A sound request goes to the verifier as it came, once, and its answer decides.
    assert_eq!(
        contract.submit_zk_verification(&mut verifier, 1, player1(), 1, 2, c1, VK, &proof, &inputs),
        Err(Error::ZkProofInvalid)
    );
    assert_eq!(verifier.asked, vec![(VK, proof.clone(), inputs.clone())]);
    assert_eq!(contract.get_match(1).unwrap().player1_zk_verified, 0);
    assert_eq!(
        contract.submit_zk_match_outcome(&mut verifier, 1, player2(), VK, &proof, &inputs),
        Err(Error::ZkProofInvalid)
    );
    assert_eq!(verifier.asked.len(), 2);
    assert_eq!(contract.get_zk_match_outcome(1).is_err(), true);

    verifier.answer = true;
    assert_eq!(
        contract.submit_zk_verification(&mut verifier, 1, player1(), 1, 2, c1, VK, &proof, &inputs),
        Ok(())
    );
    assert_eq!(
        contract.submit_zk_match_outcome(&mut verifier, 1, player2(), VK, &proof, &inputs),
        Ok(())
    );
    assert_eq!(verifier.asked.len(), 4);
    assert!(verifier.asked.iter().all(|asked| *asked == (VK, proof.clone(), inputs.clone())));
    assert_eq!(contract.get_match(1).unwrap().player1_zk_verified, 1);
    assert_eq!(contract.get_zk_match_outcome(1).unwrap().winner, player2());
}
