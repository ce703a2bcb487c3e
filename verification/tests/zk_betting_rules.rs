use veilstar_wager::commitment::{commit, opens};
use veilstar_wager::primitives::{u32_to_bytes32, Address};
use veilstar_wager::zk_betting::{
    BetSide, BettingSnapshot, Error, Event, Payment, PoolStatus, ZkBettingContract, ZkVerifier,
    FEE_BPS,
    MIN_BET_STROOPS, SWEEP_INTERVAL_SECONDS,
};

struct Answer(bool);

impl ZkVerifier for Answer {
    fn verify_round_proof(
        &mut self,
        _vk_id: &[u8; 32],
        _proof: &Vec<u8>,
        _public_inputs: &Vec<[u8; 32]>,
    ) -> bool {
        self.0
    }
}

const TEN_UNITS: i128 = 100_000_000;

fn admin() -> Address {
    Address::account([1u8; 32])
}

fn alice() -> Address {
    Address::account([10u8; 32])
}

fn bob() -> Address {
    Address::account([11u8; 32])
}

fn new_contract() -> ZkBettingContract {
    ZkBettingContract::new(admin(), Address::account([2u8; 32]), Address::contract([3u8; 32]))
}

/// A pool with a bet of ten units by Alice on player 1 and one by Bob on player 2.
fn pool_with_two_bets() -> (ZkBettingContract, u32, [u8; 32], [u8; 32]) {
    let mut contract = new_contract();
    let pool_id = contract.create_pool(admin(), [1u8; 32], 0).unwrap();
    let salt_a = [0xa1u8; 32];
    let salt_b = [0xb2u8; 32];
    contract.commit_bet(alice(), pool_id, alice(), commit(0, &salt_a), TEN_UNITS, 1).unwrap();
    contract.commit_bet(bob(), pool_id, bob(), commit(1, &salt_b), TEN_UNITS, 1).unwrap();
    (contract, pool_id, salt_a, salt_b)
}

#[test]
fn winner_claims_twice_the_stake_and_the_silent_bettor_forfeits() {
    let mut fresh = new_contract();
    let fresh_pool = fresh.create_pool(admin(), [1u8; 32], 0).unwrap();
    let deposit =
        fresh.commit_bet(alice(), fresh_pool, alice(), commit(0, &[0xa1u8; 32]), TEN_UNITS, 1);
    assert_eq!(deposit, Ok(TEN_UNITS + ZkBettingContract::calc_fee(TEN_UNITS)));
    assert_eq!(deposit, Ok(101_000_000));

    let (mut contract, pool_id, salt_a, _salt_b) = pool_with_two_bets();
    let pool = contract.get_pool(pool_id).unwrap();
    assert_eq!(pool.deadline_ts, 0);
    assert_eq!(pool.total_pool, 2 * TEN_UNITS);
    assert_eq!(pool.total_fees, 2_000_000);

    contract.lock_pool(admin(), pool_id).unwrap();
    assert_eq!(contract.reveal_bet(alice(), pool_id, alice(), BetSide::Player1, salt_a), Ok(()));
    let pool = contract.get_pool(pool_id).unwrap();
    assert_eq!(pool.player1_total, TEN_UNITS);
    assert_eq!(pool.player2_total, 0);
    assert_eq!(pool.reveal_count, 1);

    contract.settle_pool(admin(), pool_id, BetSide::Player1).unwrap();
    assert_eq!(contract.claim_payout(alice(), pool_id, alice()), Ok(2 * TEN_UNITS));
    assert!(contract.get_bet(pool_id, alice()).unwrap().claimed);

    assert_eq!(contract.claim_payout(bob(), pool_id, bob()), Err(Error::NoPayout));
    let bet = contract.get_bet(pool_id, bob()).unwrap();
    assert!(bet.claimed);
    assert!(!bet.revealed);
    assert_eq!(bet.side, None);
}

#[test]
fn a_second_claim_is_refused_whatever_the_first_brought() {
    let (mut contract, pool_id, salt_a, _salt_b) = pool_with_two_bets();
    contract.lock_pool(admin(), pool_id).unwrap();
    contract.reveal_bet(alice(), pool_id, alice(), BetSide::Player1, salt_a).unwrap();
    contract.settle_pool(admin(), pool_id, BetSide::Player1).unwrap();

    assert_eq!(contract.claim_payout(alice(), pool_id, alice()), Ok(2 * TEN_UNITS));
    assert_eq!(contract.claim_payout(alice(), pool_id, alice()), Err(Error::AlreadyClaimed));
    assert_eq!(contract.admin_claim_payout(admin(), pool_id, alice()), Err(Error::AlreadyClaimed));

    assert_eq!(contract.claim_payout(bob(), pool_id, bob()), Err(Error::NoPayout));
    assert_eq!(contract.claim_payout(bob(), pool_id, bob()), Err(Error::AlreadyClaimed));
}

#[test]
fn a_loser_that_revealed_forfeits_too() {
    let (mut contract, pool_id, salt_a, salt_b) = pool_with_two_bets();
    contract.lock_pool(admin(), pool_id).unwrap();
    contract.reveal_bet(alice(), pool_id, alice(), BetSide::Player1, salt_a).unwrap();
    contract.admin_reveal_bet(admin(), pool_id, bob(), BetSide::Player2, salt_b).unwrap();
    contract.settle_pool(admin(), pool_id, BetSide::Player2).unwrap();
    assert_eq!(contract.claim_payout(alice(), pool_id, alice()), Err(Error::NoPayout));
    assert!(contract.get_bet(pool_id, alice()).unwrap().claimed);
    assert_eq!(contract.admin_claim_payout(admin(), pool_id, bob()), Ok(2 * TEN_UNITS));
}

#[test]
fn a_reveal_for_the_other_side_is_refused_and_changes_nothing() {
    let (mut contract, pool_id, salt_a, _salt_b) = pool_with_two_bets();
    contract.lock_pool(admin(), pool_id).unwrap();
    let before = contract.get_pool(pool_id).unwrap();

    let result = contract.reveal_bet(alice(), pool_id, alice(), BetSide::Player2, salt_a);
    assert_eq!(result, Err(Error::InvalidReveal));
    let bet = contract.get_bet(pool_id, alice()).unwrap();
    assert!(!bet.revealed);
    assert_eq!(bet.side, None);
    assert_eq!(contract.get_pool(pool_id).unwrap(), before);

    let wrong_salt = [0xa2u8; 32];
    let result = contract.reveal_bet(alice(), pool_id, alice(), BetSide::Player1, wrong_salt);
    assert_eq!(result, Err(Error::InvalidReveal));

    assert_eq!(contract.reveal_bet(alice(), pool_id, alice(), BetSide::Player1, salt_a), Ok(()));
    assert_eq!(
        contract.reveal_bet(alice(), pool_id, alice(), BetSide::Player1, salt_a),
        Err(Error::AlreadyRevealed)
    );
}

#[test]
fn commitments_open_to_their_own_side_and_salt_only() {
    let salt = [42u8; 32];
    let commitment = commit(0, &salt);
    assert!(opens(&commitment, 0, &salt));
    assert!(!opens(&commitment, 1, &salt));
    assert!(!opens(&commitment, 0, &[43u8; 32]));
    assert_ne!(commit(0, &salt), commit(1, &salt));
    assert_ne!(commitment, salt);
    assert_eq!(BetSide::Player1.byte(), 0);
    assert_eq!(BetSide::Player2.byte(), 1);
}

#[test]
fn fees_are_one_percent_rounded_up() {
    assert_eq!(FEE_BPS, 100);
    assert_eq!(ZkBettingContract::calc_fee(0), 0);
    assert_eq!(ZkBettingContract::calc_fee(1), 1);
    assert_eq!(ZkBettingContract::calc_fee(99), 1);
    assert_eq!(ZkBettingContract::calc_fee(100), 1);
    assert_eq!(ZkBettingContract::calc_fee(101), 2);
    assert_eq!(ZkBettingContract::calc_fee(1_000_000), 10_000);
    assert_eq!(ZkBettingContract::calc_fee(1_000_001), 10_001);
    assert_eq!(ZkBettingContract::calc_fee(TEN_UNITS), 1_000_000);
    assert_eq!(ZkBettingContract::calc_fee(-100), -1);
    assert_eq!(ZkBettingContract::calc_fee(-150), -1);
    assert_eq!(ZkBettingContract::calc_fee(-1), 0);
    assert_eq!(veilstar_wager::fees::fee(12_345, 10_000), 12_345);
    assert_eq!(veilstar_wager::fees::fee(12_345, 0), 0);
    assert_eq!(veilstar_wager::fees::fee(3, 3_334), 2);
}

#[test]
fn deposits_are_stake_and_fee() {
    let mut contract = new_contract();
    let pool_id = contract.create_pool(admin(), [1u8; 32], 0).unwrap();
    let due = contract.commit_bet(alice(), pool_id, alice(), [7u8; 32], 1_000_001, 1);
    assert_eq!(due, Ok(1_010_002));
    let bet = contract.get_bet(pool_id, alice()).unwrap();
    assert_eq!(bet.amount, 1_000_001);
    assert_eq!(bet.fee_paid, 10_001);
    assert_eq!(bet.commitment, [7u8; 32]);
    assert_eq!(bet.bettor, alice());
    assert!(!bet.revealed && !bet.claimed);
    let pool = contract.get_pool(pool_id).unwrap();
    assert_eq!(pool.total_pool + pool.total_fees, 1_010_002);
    assert_eq!(pool.bet_count, 1);
}

#[test]
fn small_bets_are_refused() {
    let mut contract = new_contract();
    let pool_id = contract.create_pool(admin(), [1u8; 32], 0).unwrap();
    assert_eq!(MIN_BET_STROOPS, 1_000_000);
    assert_eq!(
        contract.commit_bet(alice(), pool_id, alice(), [7u8; 32], 999_999, 1),
        Err(Error::InvalidAmount)
    );
    assert_eq!(
        contract.commit_bet(alice(), 99, alice(), [7u8; 32], 999_999, 1),
        Err(Error::InvalidAmount)
    );
    assert_eq!(
        contract.commit_bet(alice(), pool_id, alice(), [7u8; 32], 1_000_000, 1),
        Ok(1_010_000)
    );
    assert_eq!(
        contract.commit_bet(bob(), pool_id, bob(), [7u8; 32], 0, 1),
        Err(Error::InvalidAmount)
    );
    assert_eq!(
        contract.commit_bet(bob(), pool_id, bob(), [7u8; 32], -5, 1),
        Err(Error::InvalidAmount)
    );
}

#[test]
fn bets_close_at_the_deadline() {
    let mut contract = new_contract();
    let pool_id = contract.create_pool(admin(), [1u8; 32], 1_000).unwrap();
    assert_eq!(
        contract.commit_bet(alice(), pool_id, alice(), [7u8; 32], TEN_UNITS, 1_000),
        Ok(101_000_000)
    );
    assert_eq!(
        contract.commit_bet(bob(), pool_id, bob(), [7u8; 32], TEN_UNITS, 1_001),
        Err(Error::BettingDeadlinePassed)
    );
    let open_ended = contract.create_pool(admin(), [1u8; 32], 0).unwrap();
    assert_eq!(
        contract.commit_bet(bob(), open_ended, bob(), [7u8; 32], TEN_UNITS, u64::MAX),
        Ok(101_000_000)
    );
}

#[test]
fn operations_need_the_right_state() {
    let (mut contract, pool_id, salt_a, _salt_b) = pool_with_two_bets();

    assert_eq!(contract.lock_pool(admin(), 99), Err(Error::PoolNotFound));
    assert_eq!(contract.lock_pool(admin(), 0), Err(Error::PoolNotFound));
    assert_eq!(contract.get_pool(99), Err(Error::PoolNotFound));
    assert_eq!(contract.settle_pool(admin(), 99, BetSide::Player1), Err(Error::PoolNotFound));
    assert_eq!(contract.refund_pool(admin(), 99), Err(Error::PoolNotFound));
    assert_eq!(contract.claim_payout(alice(), 99, alice()), Err(Error::PoolNotFound));
    assert_eq!(
        contract.reveal_bet(alice(), 99, alice(), BetSide::Player1, salt_a),
        Err(Error::PoolNotFound)
    );
    assert_eq!(
        contract.commit_bet(alice(), 99, alice(), [7u8; 32], TEN_UNITS, 1),
        Err(Error::PoolNotFound)
    );

    assert_eq!(
        contract.reveal_bet(alice(), pool_id, alice(), BetSide::Player1, salt_a),
        Err(Error::PoolNotLocked)
    );
    assert_eq!(contract.claim_payout(alice(), pool_id, alice()), Err(Error::PoolNotSettled));

    contract.lock_pool(admin(), pool_id).unwrap();
    assert_eq!(contract.lock_pool(admin(), pool_id), Err(Error::PoolAlreadyLocked));
    let carol = Address::account([12u8; 32]);
    assert_eq!(
        contract.commit_bet(carol, pool_id, carol, [7u8; 32], TEN_UNITS, 1),
        Err(Error::PoolNotOpen)
    );
    assert_eq!(
        contract.reveal_bet(carol, pool_id, carol, BetSide::Player1, salt_a),
        Err(Error::BetNotFound)
    );
    assert_eq!(contract.get_bet(pool_id, carol), Err(Error::BetNotFound));
    assert_eq!(contract.get_bet(99, alice()), Err(Error::BetNotFound));
    assert_eq!(contract.claim_payout(alice(), pool_id, alice()), Err(Error::PoolNotSettled));

    contract.settle_pool(admin(), pool_id, BetSide::Player1).unwrap();
    assert_eq!(contract.claim_payout(carol, pool_id, carol), Err(Error::BetNotFound));
    assert_eq!(
        contract.reveal_bet(alice(), pool_id, alice(), BetSide::Player1, salt_a),
        Err(Error::PoolNotLocked)
    );
}

#[test]
fn settled_and_refunded_pools_stay_as_they_are() {
    let (mut contract, settled, _salt_a, _salt_b) = pool_with_two_bets();
    contract.settle_pool(admin(), settled, BetSide::Player2).unwrap();
    let refunded = contract.create_pool(admin(), [2u8; 32], 0).unwrap();
    contract.commit_bet(alice(), refunded, alice(), [7u8; 32], TEN_UNITS, 1).unwrap();
    contract.refund_pool(admin(), refunded).unwrap();
    contract.set_zk_verifier(admin(), Address::contract([9u8; 32]), [7u8; 32]).unwrap();

    for pool_id in [settled, refunded] {
        let before = contract.get_pool(pool_id).unwrap();
        let carol = Address::account([12u8; 32]);
        assert_eq!(
            contract.commit_bet(carol, pool_id, carol, [7u8; 32], TEN_UNITS, 1),
            Err(Error::PoolNotOpen)
        );
        assert_eq!(contract.lock_pool(admin(), pool_id), Err(Error::PoolAlreadyLocked));
        assert_eq!(
            contract.settle_pool(admin(), pool_id, BetSide::Player1),
            Err(Error::PoolAlreadySettled)
        );
        assert_eq!(contract.refund_pool(admin(), pool_id), Err(Error::PoolAlreadySettled));
        let inputs = vec![before.match_id, u32_to_bytes32(pool_id), u32_to_bytes32(0)];
        assert_eq!(
            contract.settle_pool_zk(
                admin(),
                &mut Answer(true),
                pool_id,
                BetSide::Player1,
                [7u8; 32],
                &vec![0u8; 256],
                &inputs
            ),
            Err(Error::PoolAlreadySettled)
        );
        assert_eq!(contract.get_pool(pool_id).unwrap(), before);
    }
    assert_eq!(contract.get_pool(settled).unwrap().winner_side, Some(BetSide::Player2));
    assert_eq!(contract.get_pool(refunded).unwrap().winner_side, None);
}

#[test]
fn a_refund_pays_back_stake_and_fee_in_the_order_of_the_bets() {
    let mut contract = new_contract();
    let pool_id = contract.create_pool(admin(), [1u8; 32], 0).unwrap();
    contract.commit_bet(bob(), pool_id, bob(), [7u8; 32], 1_000_001, 1).unwrap();
    contract.commit_bet(alice(), pool_id, alice(), [8u8; 32], TEN_UNITS, 1).unwrap();
    contract.lock_pool(admin(), pool_id).unwrap();

    let refunds = contract.refund_pool(admin(), pool_id).unwrap();
    assert_eq!(
        refunds,
        vec![
            Payment { to: bob(), amount: 1_010_002 },
            Payment { to: alice(), amount: 101_000_000 },
        ]
    );
    let pool = contract.get_pool(pool_id).unwrap();
    assert_eq!(pool.status, PoolStatus::Refunded);
    let paid: i128 = refunds.iter().map(|refund| refund.amount).sum();
    assert_eq!(paid, pool.total_pool + pool.total_fees);
    assert!(contract.get_bet(pool_id, alice()).unwrap().claimed);
    assert!(contract.get_bet(pool_id, bob()).unwrap().claimed);
    assert_eq!(contract.claim_payout(alice(), pool_id, alice()), Err(Error::PoolNotSettled));
    assert_eq!(contract.get_fee_accrued(), 0);

    let empty = contract.create_pool(admin(), [1u8; 32], 0).unwrap();
    assert_eq!(contract.refund_pool(admin(), empty), Ok(vec![]));
}

#[test]
fn fees_accrue_at_settlement_and_are_swept_once_a_day() {
    let (mut contract, pool_id, _salt_a, _salt_b) = pool_with_two_bets();
    assert_eq!(contract.sweep_treasury(admin(), 5_000), Err(Error::NothingToSweep));
    contract.settle_pool(admin(), pool_id, BetSide::Player1).unwrap();
    assert_eq!(contract.get_fee_accrued(), 2_000_000);

    assert_eq!(contract.sweep_treasury(admin(), 5_000), Ok(2_000_000));
    assert_eq!(contract.get_fee_accrued(), 0);

    let next = contract.create_pool(admin(), [2u8; 32], 0).unwrap();
    contract.commit_bet(alice(), next, alice(), [7u8; 32], TEN_UNITS, 6_000).unwrap();
    contract.settle_pool(admin(), next, BetSide::Player1).unwrap();
    assert_eq!(contract.get_fee_accrued(), 1_000_000);

    assert_eq!(SWEEP_INTERVAL_SECONDS, 86_400);
    assert_eq!(contract.sweep_treasury(admin(), 5_000 + 86_399), Err(Error::SweepTooEarly));
    assert_eq!(contract.sweep_treasury(admin(), 4_000), Err(Error::SweepTooEarly));
    assert_eq!(contract.get_fee_accrued(), 1_000_000);
    assert_eq!(contract.sweep_treasury(admin(), 5_000 + 86_400), Ok(1_000_000));
    assert_eq!(
        contract.sweep_treasury(admin(), 5_000 + 2 * 86_400),
        Err(Error::NothingToSweep)
    );
}

#[test]
fn callers_are_held_to_their_roles() {
    let (mut contract, pool_id, salt_a, _salt_b) = pool_with_two_bets();
    let stranger = Address::account([66u8; 32]);

    assert_eq!(contract.create_pool(stranger, [1u8; 32], 0), Err(Error::Unauthorized));
    assert_eq!(contract.get_pool_counter(), 1);
    assert_eq!(contract.lock_pool(stranger, pool_id), Err(Error::Unauthorized));
    assert_eq!(contract.lock_pool(alice(), pool_id), Err(Error::Unauthorized));
    assert_eq!(
        contract.commit_bet(stranger, pool_id, Address::account([12u8; 32]), [7u8; 32], TEN_UNITS, 1),
        Err(Error::Unauthorized)
    );
    assert_eq!(
        contract.commit_bet(admin(), pool_id, Address::account([12u8; 32]), [7u8; 32], TEN_UNITS, 1),
        Err(Error::Unauthorized)
    );
    assert_eq!(contract.get_pool(pool_id).unwrap().bet_count, 2);
    assert_eq!(contract.settle_pool(stranger, pool_id, BetSide::Player1), Err(Error::Unauthorized));
    assert_eq!(contract.refund_pool(stranger, pool_id), Err(Error::Unauthorized));
    assert_eq!(contract.sweep_treasury(stranger, 1), Err(Error::Unauthorized));
    assert_eq!(contract.set_admin(stranger, stranger), Err(Error::Unauthorized));
    assert_eq!(contract.set_treasury(stranger, stranger), Err(Error::Unauthorized));
    assert_eq!(contract.set_zk_verifier(stranger, stranger, [0u8; 32]), Err(Error::Unauthorized));
    assert_eq!(contract.get_admin(), admin());
    assert_eq!(contract.get_zk_verifier(), None);
    assert_eq!(contract.get_pool(pool_id).unwrap().status, PoolStatus::Open);

    contract.lock_pool(admin(), pool_id).unwrap();
    assert_eq!(
        contract.reveal_bet(bob(), pool_id, alice(), BetSide::Player1, salt_a),
        Err(Error::Unauthorized)
    );
    assert_eq!(
        contract.reveal_bet(admin(), pool_id, alice(), BetSide::Player1, salt_a),
        Err(Error::Unauthorized)
    );
    assert_eq!(
        contract.admin_reveal_bet(alice(), pool_id, alice(), BetSide::Player1, salt_a),
        Err(Error::Unauthorized)
    );
    assert!(!contract.get_bet(pool_id, alice()).unwrap().revealed);
    assert_eq!(
        contract.admin_reveal_bet(admin(), pool_id, alice(), BetSide::Player1, salt_a),
        Ok(())
    );

    assert_eq!(
        contract.settle_pool_zk(
            stranger,
            &mut Answer(true),
            pool_id,
            BetSide::Player1,
            [7u8; 32],
            &vec![0u8; 256],
            &vec![]
        ),
        Err(Error::Unauthorized)
    );
    contract.settle_pool(admin(), pool_id, BetSide::Player1).unwrap();
    assert_eq!(contract.claim_payout(bob(), pool_id, alice()), Err(Error::Unauthorized));
    assert_eq!(contract.admin_claim_payout(alice(), pool_id, alice()), Err(Error::Unauthorized));
    assert!(!contract.get_bet(pool_id, alice()).unwrap().claimed);

    assert_eq!(contract.set_admin(admin(), stranger), Ok(()));
    assert_eq!(contract.get_admin(), stranger);
    assert_eq!(contract.create_pool(admin(), [1u8; 32], 0), Err(Error::Unauthorized));
    assert_eq!(contract.create_pool(stranger, [1u8; 32], 0), Ok(2));
    assert_eq!(contract.set_treasury(stranger, alice()), Ok(()));
    assert_eq!(contract.get_treasury(), alice());
    assert_eq!(contract.get_xlm_token(), Address::contract([3u8; 32]));
}

#[test]
fn a_settlement_by_proof_follows_the_verifier_once_the_request_is_sound() {
    let mut contract = new_contract();
    let match_id = [0x4du8; 32];
    let pool_id = contract.create_pool(admin(), match_id, 0).unwrap();
    let vk_id = [7u8; 32];
    let proof = vec![5u8; 256];
    let inputs = vec![match_id, u32_to_bytes32(pool_id), u32_to_bytes32(1)];

    let settle = |contract: &mut ZkBettingContract, verified: bool| {
        contract.settle_pool_verified(
            admin(),
            pool_id,
            BetSide::Player2,
            vk_id,
            &proof,
            &inputs,
            verified,
        )
    };
    assert_eq!(settle(&mut contract, true), Err(Error::ZkVerifierNotConfigured));
    contract.set_zk_verifier(admin(), Address::contract([9u8; 32]), vk_id).unwrap();
    assert_eq!(contract.get_zk_verifier(), Some(Address::contract([9u8; 32])));
    assert_eq!(contract.get_zk_vk_id(), Some(vk_id));
    assert_eq!(settle(&mut contract, false), Err(Error::ZkProofInvalid));
    assert_eq!(contract.get_pool(pool_id).unwrap().status, PoolStatus::Open);
    assert_eq!(settle(&mut contract, true), Ok(()));
    let pool = contract.get_pool(pool_id).unwrap();
    assert_eq!(pool.status, PoolStatus::Settled);
    assert_eq!(pool.winner_side, Some(BetSide::Player2));
    assert_eq!(settle(&mut contract, true), Err(Error::PoolAlreadySettled));
}

#[test]
fn a_settlement_by_proof_needs_a_sound_request() {
    let mut contract = new_contract();
    let match_id = [0x4du8; 32];
    let pool_id = contract.create_pool(admin(), match_id, 0).unwrap();
    let vk_id = [7u8; 32];
    contract.set_zk_verifier(admin(), Address::contract([9u8; 32]), vk_id).unwrap();
    let good = vec![match_id, u32_to_bytes32(pool_id), u32_to_bytes32(0)];

    let mut attempt = |proof: Vec<u8>, inputs: Vec<[u8; 32]>, pool: u32| {
        contract.settle_pool_zk(admin(), &mut Answer(true), pool, BetSide::Player1, vk_id, &proof, &inputs)
    };
    assert_eq!(attempt(vec![5u8; 255], good.clone(), pool_id), Err(Error::ZkProofInvalid));
    assert_eq!(attempt(vec![5u8; 257], good.clone(), pool_id), Err(Error::ZkProofInvalid));
    assert_eq!(attempt(vec![5u8; 256], vec![], pool_id), Err(Error::ZkProofInvalid));
    assert_eq!(attempt(vec![5u8; 256], vec![match_id], pool_id), Err(Error::ZkProofInvalid));
    assert_eq!(
        attempt(vec![5u8; 256], vec![match_id, u32_to_bytes32(pool_id)], pool_id),
        Err(Error::ZkProofInvalid)
    );
    let mut padded = good.clone();
    padded[1][0] = 1;
    assert_eq!(attempt(vec![5u8; 256], padded, pool_id), Err(Error::ZkProofInvalid));
    assert_eq!(attempt(vec![5u8; 256], good.clone(), 99), Err(Error::PoolNotFound));
    let mut longer = good.clone();
    longer.push([9u8; 32]);
    assert_eq!(attempt(vec![5u8; 256], longer, pool_id), Ok(()));
}

#[test]
fn words_are_big_endian() {
    let mut expected = [0u8; 32];
    expected[28..].copy_from_slice(&[0x12, 0x34, 0x56, 0x78]);
    assert_eq!(u32_to_bytes32(0x1234_5678), expected);
    assert_eq!(u32_to_bytes32(0), [0u8; 32]);
    expected[28..].copy_from_slice(&[0xff; 4]);
    assert_eq!(u32_to_bytes32(u32::MAX), expected);
}

#[test]
fn a_snapshot_restores_the_contract() {
    let (mut contract, pool_id, salt_a, _salt_b) = pool_with_two_bets();
    contract.lock_pool(admin(), pool_id).unwrap();
    contract.reveal_bet(alice(), pool_id, alice(), BetSide::Player1, salt_a).unwrap();
    contract.settle_pool(admin(), pool_id, BetSide::Player1).unwrap();
    contract.create_pool(admin(), [2u8; 32], 77).unwrap();
    let pool = contract.get_pool(pool_id).unwrap();
    let bet = contract.get_bet(pool_id, alice()).unwrap();

    let snapshot = contract.into_snapshot();
    assert_eq!(snapshot.pools.len(), 2);
    assert_eq!(snapshot.bets[0].len(), 2);
    assert_eq!(snapshot.fee_accrued, 2_000_000);
    let mut restored = ZkBettingContract::from_snapshot(snapshot).unwrap();
    assert_eq!(restored.get_pool(pool_id).unwrap(), pool);
    assert_eq!(restored.get_bet(pool_id, alice()).unwrap(), bet);
    assert_eq!(restored.get_pool_counter(), 2);
    assert_eq!(restored.claim_payout(alice(), pool_id, alice()), Ok(2 * TEN_UNITS));
}

fn tampered(change: impl FnOnce(&mut BettingSnapshot)) -> bool {
    let (mut contract, pool_id, salt_a, _salt_b) = pool_with_two_bets();
    contract.lock_pool(admin(), pool_id).unwrap();
    contract.reveal_bet(alice(), pool_id, alice(), BetSide::Player1, salt_a).unwrap();
    let mut snapshot = contract.into_snapshot();
    change(&mut snapshot);
    ZkBettingContract::from_snapshot(snapshot).is_some()
}

#[test]
fn a_snapshot_that_breaks_the_books_is_refused() {
    assert!(tampered(|_| {}));
    assert!(!tampered(|s| s.pools[0].total_pool += 1));
    assert!(!tampered(|s| s.pools[0].total_fees -= 1));
    assert!(!tampered(|s| s.pools[0].player1_total = 0));
    assert!(!tampered(|s| s.pools[0].player2_total = 1));
    assert!(!tampered(|s| s.pools[0].reveal_count = 2));
    assert!(!tampered(|s| s.pools[0].bet_count = 3));
    assert!(!tampered(|s| s.pools[0].pool_id = 2));
    assert!(!tampered(|s| s.pools[0].winner_side = Some(BetSide::Player1)));
    assert!(!tampered(|s| s.pools[0].status = PoolStatus::Settled));
    assert!(!tampered(|s| s.pools[0].status = PoolStatus::Refunded));
    assert!(!tampered(|s| s.bets[0][1].claimed = true));
    assert!(!tampered(|s| s.bets[0][1].revealed = true));
    assert!(!tampered(|s| s.bets[0][1].fee_paid += 1));
    assert!(!tampered(|s| s.bets[0][1].bettor = s.bets[0][0].bettor));
    assert!(!tampered(|s| s.bets.push(vec![])));
    assert!(!tampered(|s| s.fee_accrued = -1));
    assert!(!tampered(|s| {
        s.bets[0][1].amount = 5;
        s.bets[0][1].fee_paid = 1;
        s.pools[0].total_pool = TEN_UNITS + 5;
        s.pools[0].total_fees = 1_000_001;
    }));
}

#[test]
fn the_machine_limits_of_a_deposit_are_told_apart() {
    let mut contract = new_contract();
    let pool_id = contract.create_pool(admin(), [1u8; 32], 0).unwrap();
    let fits = |contract: &ZkBettingContract, pool_id: u32, amount: i128| {
        contract.commit_bet_fits(pool_id, alice(), amount, 1)
    };
    assert!(contract.create_pool_fits());
    assert!(fits(&contract, pool_id, TEN_UNITS));
    assert!(fits(&contract, 99, TEN_UNITS));
    assert!(fits(&contract, pool_id, (i128::MAX - 9_999) / 100));
    assert!(!fits(&contract, pool_id, (i128::MAX - 9_999) / 100 + 1));
    assert!(!fits(&contract, pool_id, i128::MAX));
    assert!(contract.settle_pool_fits(pool_id));
    let big = (i128::MAX - 9_999) / 100;
    for n in 0..100u8 {
        let bettor = Address::account([100 + n; 32]);
        let amount = if n < 99 { big } else { big - 2_000_000 };
        assert!(contract.commit_bet_fits(pool_id, bettor, amount, 1));
        contract.commit_bet(bettor, pool_id, bettor, [7u8; 32], amount, 1).unwrap();
    }
    let room = i128::MAX - 100 * big + 2_000_000;
    assert!(2_000_000 < room && room < big);
    assert!(fits(&contract, pool_id, room));
    assert!(!fits(&contract, pool_id, room + 1));
    assert!(!fits(&contract, pool_id, big));
    assert!(contract.settle_pool_fits(pool_id));

    // A deposit that is refused meets no limit, however large it is.
    let again = Address::account([100u8; 32]);
    assert!(contract.commit_bet_fits(pool_id, again, i128::MAX, 1));
    assert_eq!(
        contract.commit_bet(again, pool_id, again, [7u8; 32], i128::MAX, 1),
        Err(Error::AlreadyCommitted)
    );
    assert!(fits(&contract, 99, i128::MAX));
    assert_eq!(
        contract.commit_bet(alice(), 99, alice(), [7u8; 32], i128::MAX, 1),
        Err(Error::PoolNotFound)
    );
    assert!(fits(&contract, pool_id, 1));
    assert_eq!(
        contract.commit_bet(alice(), pool_id, alice(), [7u8; 32], 1, 1),
        Err(Error::InvalidAmount)
    );
    contract.lock_pool(admin(), pool_id).unwrap();
    assert!(fits(&contract, pool_id, i128::MAX));
    assert_eq!(
        contract.commit_bet(alice(), pool_id, alice(), [7u8; 32], i128::MAX, 1),
        Err(Error::PoolNotOpen)
    );
    assert_eq!(
        contract.commit_bet(bob(), pool_id, alice(), [7u8; 32], i128::MAX, 1),
        Err(Error::Unauthorized)
    );
    let restored = ZkBettingContract::from_snapshot(contract.into_snapshot()).unwrap();
    assert_eq!(restored.get_pool(pool_id).unwrap().total_pool, 100 * big - 2_000_000);
}

#[test]
fn error_codes_of_the_betting_contract() {
    let codes = [
        (Error::PoolNotFound, 1),
        (Error::PoolNotOpen, 2),
        (Error::PoolNotLocked, 3),
        (Error::PoolNotSettled, 4),
        (Error::PoolAlreadySettled, 5),
        (Error::PoolAlreadyLocked, 6),
        (Error::AlreadyCommitted, 7),
        (Error::BetNotFound, 8),
        (Error::AlreadyRevealed, 9),
        (Error::InvalidReveal, 10),
        (Error::InvalidAmount, 11),
        (Error::InvalidWinner, 12),
        (Error::NoPayout, 13),
        (Error::AlreadyClaimed, 14),
        (Error::Unauthorized, 15),
        (Error::ZkVerifierNotConfigured, 16),
        (Error::ZkProofInvalid, 17),
        (Error::BettingDeadlinePassed, 18),
        (Error::NothingToSweep, 19),
        (Error::SweepTooEarly, 20),
    ];
    for (error, code) in codes {
        assert_eq!(error.code(), code);
    }
}

#[test]
fn what_succeeds_is_put_on_record_for_observers() {
    let mut contract = new_contract();
    assert_eq!(contract.take_events(), vec![]);
    let match_id = [0x4du8; 32];
    let pool_id = contract.create_pool(admin(), match_id, 0).unwrap();
    let salt = [0xa1u8; 32];
    contract.commit_bet(alice(), pool_id, alice(), commit(1, &salt), TEN_UNITS, 1).unwrap();
    contract.commit_bet(bob(), pool_id, bob(), [7u8; 32], 1_000_000, 1).unwrap();
    // What is refused leaves no trace.
    assert!(contract.commit_bet(bob(), pool_id, bob(), [7u8; 32], 1_000_000, 1).is_err());
    assert!(contract.lock_pool(bob(), pool_id).is_err());
    contract.lock_pool(admin(), pool_id).unwrap();
    assert!(contract.reveal_bet(alice(), pool_id, alice(), BetSide::Player1, salt).is_err());
    contract.reveal_bet(alice(), pool_id, alice(), BetSide::Player2, salt).unwrap();
    assert_eq!(
        contract.take_events(),
        vec![
            Event::PoolCreated { pool_id, match_id },
            Event::BetCommitted { pool_id, bettor: alice(), amount: TEN_UNITS },
            Event::BetCommitted { pool_id, bettor: bob(), amount: 1_000_000 },
            Event::PoolLocked { pool_id, bet_count: 2 },
            Event::BetRevealed { pool_id, bettor: alice(), side: BetSide::Player2 },
        ]
    );
    assert_eq!(contract.take_events(), vec![]);

    contract.settle_pool(admin(), pool_id, BetSide::Player2).unwrap();
    assert_eq!(contract.claim_payout(bob(), pool_id, bob()), Err(Error::NoPayout));
    contract.claim_payout(alice(), pool_id, alice()).unwrap();
    contract.sweep_treasury(admin(), 5).unwrap();
    assert_eq!(
        contract.take_events(),
        vec![
            Event::PoolSettled { pool_id, winner: BetSide::Player2 },
            Event::PayoutClaimed { pool_id, bettor: alice(), payout: 2 * TEN_UNITS },
        ]
    );

    let other = contract.create_pool(admin(), match_id, 0).unwrap();
    contract.commit_bet(bob(), other, bob(), [7u8; 32], 1_000_000, 1).unwrap();
    contract.refund_pool(admin(), other).unwrap();
    let events = contract.take_events();
    assert_eq!(events.last(), Some(&Event::PoolRefunded { pool_id: other, bet_count: 1 }));
    assert_eq!(events.len(), 3);
}

#[test]
fn a_lone_winner_is_paid_more_than_the_pool_took_in() {
    let mut contract = new_contract();
    let pool_id = contract.create_pool(admin(), [1u8; 32], 0).unwrap();
    let salt = [0xa1u8; 32];
    let paid_in =
        contract.commit_bet(alice(), pool_id, alice(), commit(0, &salt), TEN_UNITS, 1).unwrap();
    contract.lock_pool(admin(), pool_id).unwrap();
    contract.reveal_bet(alice(), pool_id, alice(), BetSide::Player1, salt).unwrap();
    contract.settle_pool(admin(), pool_id, BetSide::Player1).unwrap();
    let paid_out = contract.claim_payout(alice(), pool_id, alice()).unwrap();
    assert_eq!(paid_in, 101_000_000);
    assert_eq!(paid_out, 200_000_000);
    let pool = contract.get_pool(pool_id).unwrap();
    assert_eq!(paid_out, 2 * pool.player1_total);
    assert!(paid_out > pool.total_pool + pool.total_fees);
}

#[test]
fn many_claims_in_any_order_pay_once() {
    // Each row is a run of claims for alice: the caller and whether the claim is
    // made on the admin's word.
    let runs: [&[(Address, bool)]; 4] = [
        &[(alice(), false), (alice(), false), (admin(), true), (alice(), false)],
        &[(admin(), true), (alice(), false), (admin(), true)],
        &[(bob(), false), (alice(), true), (admin(), true), (bob(), true), (alice(), false)],
        &[(bob(), false), (bob(), true), (admin(), false)],
    ];
    for run in runs {
        let (mut contract, pool_id, salt_a, _salt_b) = pool_with_two_bets();
        contract.lock_pool(admin(), pool_id).unwrap();
        contract.reveal_bet(alice(), pool_id, alice(), BetSide::Player1, salt_a).unwrap();
        contract.settle_pool(admin(), pool_id, BetSide::Player1).unwrap();

        let mut succeeded = 0;
        let mut paid: i128 = 0;
        let mut was_claimed = false;
        for (caller, by_admin) in run.iter().copied() {
            let result = if by_admin {
                contract.admin_claim_payout(caller, pool_id, alice())
            } else {
                contract.claim_payout(caller, pool_id, alice())
            };
            let authorized = caller == if by_admin { admin() } else { alice() };
            match result {
                Ok(amount) => {
                    assert!(authorized && !was_claimed);
                    succeeded += 1;
                    paid += amount;
                },
                Err(error) if !authorized => assert_eq!(error, Error::Unauthorized),
                Err(error) => assert_eq!(error, Error::AlreadyClaimed),
            }
            let claimed = contract.get_bet(pool_id, alice()).unwrap().claimed;
            assert!(claimed || !was_claimed);
            was_claimed = claimed;
        }
        let any_authorized =
            run.iter().any(|(caller, by_admin)| *caller == if *by_admin { admin() } else { alice() });
        assert_eq!(succeeded, if any_authorized { 1 } else { 0 });
        assert_eq!(paid, if any_authorized { 2 * TEN_UNITS } else { 0 });
        assert_eq!(was_claimed, any_authorized);
    }
}

/// A verifier that keeps what it was asked.
struct Recording {
    answer: bool,
    asked: Vec<([u8; 32], Vec<u8>, Vec<[u8; 32]>)>,
}

impl ZkVerifier for Recording {
    fn verify_round_proof(
        &mut self,
        vk_id: &[u8; 32],
        proof: &Vec<u8>,
        public_inputs: &Vec<[u8; 32]>,
    ) -> bool {
        self.asked.push((*vk_id, proof.clone(), public_inputs.clone()));
        self.answer
    }
}

#[test]
fn the_verifier_is_asked_once_about_what_the_call_brings_and_only_on_a_sound_request() {
    let mut contract = new_contract();
    let match_id = [0x4du8; 32];
    let pool_id = contract.create_pool(admin(), match_id, 0).unwrap();
    let vk_id = [7u8; 32];
    let inputs = vec![match_id, u32_to_bytes32(pool_id), u32_to_bytes32(1)];
    let proof: Vec<u8> = (0..=255u8).collect();
    let mut verifier = Recording { answer: false, asked: vec![] };
    let mut settle = |contract: &mut ZkBettingContract,
                      verifier: &mut Recording,
                      caller: Address,
                      vk: [u8; 32],
                      proof: &Vec<u8>,
                      inputs: &Vec<[u8; 32]>| {
        contract.settle_pool_zk(caller, verifier, pool_id, BetSide::Player2, vk, proof, inputs)
    };

    // Refused before the verifier: nothing is asked.
    assert_eq!(
        settle(&mut contract, &mut verifier, admin(), vk_id, &proof, &inputs),
        Err(Error::ZkVerifierNotConfigured)
    );
    contract.set_zk_verifier(admin(), Address::contract([9u8; 32]), vk_id).unwrap();
    assert_eq!(
        settle(&mut contract, &mut verifier, alice(), vk_id, &proof, &inputs),
        Err(Error::Unauthorized)
    );
    assert_eq!(
        settle(&mut contract, &mut verifier, admin(), [8u8; 32], &proof, &inputs),
        Err(Error::ZkProofInvalid)
    );
    assert_eq!(
        settle(&mut contract, &mut verifier, admin(), vk_id, &proof[..255].to_vec(), &inputs),
        Err(Error::ZkProofInvalid)
    );
    assert_eq!(
        settle(&mut contract, &mut verifier, admin(), vk_id, &proof, &vec![]),
        Err(Error::ZkProofInvalid)
    );
    let other_winner = vec![match_id, u32_to_bytes32(pool_id), u32_to_bytes32(0)];
    assert_eq!(
        settle(&mut contract, &mut verifier, admin(), vk_id, &proof, &other_winner),
        Err(Error::ZkProofInvalid)
    );
    assert!(verifier.asked.is_empty());

    // A sound request goes to the verifier as it came, once, and its answer decides.
    assert_eq!(
        settle(&mut contract, &mut verifier, admin(), vk_id, &proof, &inputs),
        Err(Error::ZkProofInvalid)
    );
    assert_eq!(verifier.asked, vec![(vk_id, proof.clone(), inputs.clone())]);
    assert_eq!(contract.get_pool(pool_id).unwrap().status, PoolStatus::Open);
    verifier.answer = true;
    assert_eq!(settle(&mut contract, &mut verifier, admin(), vk_id, &proof, &inputs), Ok(()));
    assert_eq!(verifier.asked.len(), 2);
    assert_eq!(verifier.asked[1], (vk_id, proof.clone(), inputs.clone()));
    assert_eq!(contract.get_pool(pool_id).unwrap().status, PoolStatus::Settled);
    assert_eq!(contract.get_pool(pool_id).unwrap().winner_side, Some(BetSide::Player2));
}
