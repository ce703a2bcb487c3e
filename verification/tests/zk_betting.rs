use std::collections::HashMap;

use veilstar_wager::commitment::commit;
use veilstar_wager::primitives::Address;
use veilstar_wager::zk_betting::{
    BetSide, Error, PoolStatus, ZkBettingContract, ZkVerifier,
};

struct MockVerifierAcceptContract;

impl ZkVerifier for MockVerifierAcceptContract {
    fn verify_round_proof(
        &mut self,
        _vk_id: &[u8; 32],
        _proof: &Vec<u8>,
        _public_inputs: &Vec<[u8; 32]>,
    ) -> bool {
        true
    }
}

struct MockVerifierRejectContract;

impl ZkVerifier for MockVerifierRejectContract {
    fn verify_round_proof(
        &mut self,
        _vk_id: &[u8; 32],
        _proof: &Vec<u8>,
        _public_inputs: &Vec<[u8; 32]>,
    ) -> bool {
        false
    }
}

/// Balances of the token that the escrow is held in.
struct Ledger {
    balances: HashMap<Address, i128>,
    escrow: i128,
}

impl Ledger {
    fn new() -> Ledger {
        Ledger { balances: HashMap::new(), escrow: 0 }
    }

    fn mint(&mut self, to: &Address, amount: i128) {
        *self.balances.entry(*to).or_insert(0) += amount;
    }

    fn balance(&self, of: &Address) -> i128 {
        *self.balances.get(of).unwrap_or(&0)
    }

    fn deposit(&mut self, from: &Address, amount: i128) {
        assert!(self.balance(from) >= amount);
        *self.balances.entry(*from).or_insert(0) -= amount;
        self.escrow += amount;
    }

    fn pay(&mut self, to: &Address, amount: i128) {
        self.escrow -= amount;
        *self.balances.entry(*to).or_insert(0) += amount;
    }
}

fn address(n: u8) -> Address {
    Address::account([n; 32])
}

fn setup() -> (ZkBettingContract, Address, Address, Address) {
    let admin = address(1);
    let treasury = address(2);
    let xlm_token = Address::contract([3u8; 32]);
    (ZkBettingContract::new(admin, treasury, xlm_token), admin, treasury, xlm_token)
}

fn make_commitment(side: u8, salt: &[u8; 32]) -> [u8; 32] {
    commit(side, salt)
}

fn match_id() -> [u8; 32] {
    [1u8; 32]
}

fn u32_to_bytes32(value: u32) -> [u8; 32] {
    let mut out = [0u8; 32];
    let be = value.to_be_bytes();
    out[28] = be[0];
    out[29] = be[1];
    out[30] = be[2];
    out[31] = be[3];
    out
}

#[test]
fn test_create_pool() {
    let (mut contract, admin, _treasury, _xlm) = setup();

    let mid = match_id();
    let pool_id = contract.create_pool(admin, mid, 1000).unwrap();

    assert_eq!(pool_id, 1);

    let pool = contract.get_pool(pool_id).unwrap();
    assert_eq!(pool.status, PoolStatus::Open);
    assert_eq!(pool.bet_count, 0);
    assert_eq!(pool.total_pool, 0);
}

#[test]
fn test_commit_and_reveal() {
    let (mut contract, admin, _treasury, _xlm) = setup();
    let mut ledger = Ledger::new();

    let bettor = address(10);
    ledger.mint(&bettor, 100_000_000_000);

    let mid = match_id();
    let pool_id = contract.create_pool(admin, mid, 0).unwrap();

    let salt = [42u8; 32];
    let commitment = make_commitment(0, &salt);
    let amount: i128 = 100_000_000;

    let required = contract.commit_bet(bettor, pool_id, bettor, commitment, amount, 5).unwrap();
    ledger.deposit(&bettor, required);

    let pool = contract.get_pool(pool_id).unwrap();
    assert_eq!(pool.bet_count, 1);
    assert_eq!(pool.total_pool, amount);

    let bet = contract.get_bet(pool_id, bettor).unwrap();
    assert!(!bet.revealed);
    assert_eq!(bet.amount, amount);

    contract.lock_pool(admin, pool_id).unwrap();

    let pool = contract.get_pool(pool_id).unwrap();
    assert_eq!(pool.status, PoolStatus::Locked);

    contract.reveal_bet(bettor, pool_id, bettor, BetSide::Player1, salt).unwrap();

    let bet = contract.get_bet(pool_id, bettor).unwrap();
    assert!(bet.revealed);
    assert_eq!(bet.side, Some(BetSide::Player1));

    let pool = contract.get_pool(pool_id).unwrap();
    assert_eq!(pool.player1_total, amount);
    assert_eq!(pool.reveal_count, 1);
}

#[test]
fn test_settle_and_claim() {
    let (mut contract, admin, _treasury, _xlm) = setup();
    let mut ledger = Ledger::new();

    let bettor1 = address(10);
    let bettor2 = address(11);
    ledger.mint(&bettor1, 100_000_000_000);
    ledger.mint(&bettor2, 100_000_000_000);

    let mid = match_id();
    let pool_id = contract.create_pool(admin, mid, 0).unwrap();

    let salt1 = [10u8; 32];
    let commit1 = make_commitment(0, &salt1);
    let due = contract.commit_bet(bettor1, pool_id, bettor1, commit1, 100_000_000, 5).unwrap();
    ledger.deposit(&bettor1, due);

    let salt2 = [20u8; 32];
    let commit2 = make_commitment(1, &salt2);
    let due = contract.commit_bet(bettor2, pool_id, bettor2, commit2, 100_000_000, 5).unwrap();
    ledger.deposit(&bettor2, due);

    contract.lock_pool(admin, pool_id).unwrap();

    contract.reveal_bet(bettor1, pool_id, bettor1, BetSide::Player1, salt1).unwrap();
    contract.reveal_bet(bettor2, pool_id, bettor2, BetSide::Player2, salt2).unwrap();

    contract.settle_pool(admin, pool_id, BetSide::Player1).unwrap();

    let pool = contract.get_pool(pool_id).unwrap();
    assert_eq!(pool.status, PoolStatus::Settled);
    assert_eq!(pool.winner_side, Some(BetSide::Player1));

    let balance_before = ledger.balance(&bettor1);
    let payout = contract.claim_payout(bettor1, pool_id, bettor1).unwrap();
    ledger.pay(&bettor1, payout);
    assert_eq!(payout, 200_000_000);

    let balance_after = ledger.balance(&bettor1);
    assert_eq!(balance_after - balance_before, payout);
}

#[test]
fn test_refund_pool() {
    let (mut contract, admin, _treasury, _xlm) = setup();
    let mut ledger = Ledger::new();

    let bettor = address(10);
    ledger.mint(&bettor, 100_000_000_000);

    let mid = match_id();
    let pool_id = contract.create_pool(admin, mid, 0).unwrap();

    let salt = [99u8; 32];
    let commitment = make_commitment(0, &salt);
    let amount: i128 = 50_000_000;

    let balance_before = ledger.balance(&bettor);
    let due = contract.commit_bet(bettor, pool_id, bettor, commitment, amount, 5).unwrap();
    ledger.deposit(&bettor, due);

    let refunds = contract.refund_pool(admin, pool_id).unwrap();
    for refund in refunds.iter() {
        ledger.pay(&refund.to, refund.amount);
    }

    let balance_after = ledger.balance(&bettor);
    assert_eq!(balance_after, balance_before);
    assert_eq!(ledger.escrow, 0);

    let pool = contract.get_pool(pool_id).unwrap();
    assert_eq!(pool.status, PoolStatus::Refunded);
}

#[test]
fn test_invalid_reveal_rejected() {
    let (mut contract, admin, _treasury, _xlm) = setup();

    let bettor = address(10);

    let mid = match_id();
    let pool_id = contract.create_pool(admin, mid, 0).unwrap();

    let salt = [55u8; 32];
    let commitment = make_commitment(0, &salt);
    contract.commit_bet(bettor, pool_id, bettor, commitment, 10_000_000, 5).unwrap();

    contract.lock_pool(admin, pool_id).unwrap();

    let wrong_salt = [55u8; 32];
    let result = contract.reveal_bet(bettor, pool_id, bettor, BetSide::Player2, wrong_salt);
    assert!(result.is_err());
    assert_eq!(result, Err(Error::InvalidReveal));
}

#[test]
fn test_duplicate_bet_rejected() {
    let (mut contract, admin, _treasury, _xlm) = setup();

    let bettor = address(10);

    let mid = match_id();
    let pool_id = contract.create_pool(admin, mid, 0).unwrap();

    let salt = [77u8; 32];
    let commitment = make_commitment(0, &salt);
    contract.commit_bet(bettor, pool_id, bettor, commitment, 10_000_000, 5).unwrap();

    let salt2 = [78u8; 32];
    let commit2 = make_commitment(1, &salt2);
    let result = contract.commit_bet(bettor, pool_id, bettor, commit2, 10_000_000, 5);
    assert!(result.is_err());
    assert_eq!(result, Err(Error::AlreadyCommitted));
}

#[test]
fn test_pool_counter_increments() {
    let (mut contract, admin, _treasury, _xlm) = setup();

    let mid = match_id();
    let id1 = contract.create_pool(admin, mid, 0).unwrap();
    let id2 = contract.create_pool(admin, mid, 0).unwrap();
    let id3 = contract.create_pool(admin, mid, 0).unwrap();

    assert_eq!(id1, 1);
    assert_eq!(id2, 2);
    assert_eq!(id3, 3);
    assert_eq!(contract.get_pool_counter(), 3);
}

#[test]
fn test_settle_pool_zk_success_with_bound_inputs() {
    let (mut contract, admin, _treasury, _xlm) = setup();

    let mut verifier = MockVerifierAcceptContract;
    let vk_id = [7u8; 32];
    contract.set_zk_verifier(admin, Address::contract([50u8; 32]), vk_id).unwrap();

    let mid = match_id();
    let pool_id = contract.create_pool(admin, mid, 0).unwrap();
    contract.lock_pool(admin, pool_id).unwrap();

    let proof = vec![5u8; 256];
    let winner_side = 0u32;
    let public_inputs = vec![mid, u32_to_bytes32(pool_id), u32_to_bytes32(winner_side)];

    contract
        .settle_pool_zk(admin, &mut verifier, pool_id, BetSide::Player1, vk_id, &proof, &public_inputs)
        .unwrap();

    let pool = contract.get_pool(pool_id).unwrap();
    assert_eq!(pool.status, PoolStatus::Settled);
    assert_eq!(pool.winner_side, Some(BetSide::Player1));
}

#[test]
fn test_settle_pool_zk_requires_verifier_config() {
    let (mut contract, admin, _treasury, _xlm) = setup();

    let mid = match_id();
    let pool_id = contract.create_pool(admin, mid, 0).unwrap();
    contract.lock_pool(admin, pool_id).unwrap();

    let proof = vec![5u8; 256];
    let public_inputs = vec![mid, u32_to_bytes32(pool_id), u32_to_bytes32(0u32)];
    let vk_id = [7u8; 32];

    let result = contract.settle_pool_zk(admin, &mut MockVerifierAcceptContract,
        pool_id,
        BetSide::Player1,
        vk_id,
        &proof,
        &public_inputs,
    );
    assert!(result.is_err());
    assert_eq!(result, Err(Error::ZkVerifierNotConfigured));
}

#[test]
fn test_settle_pool_zk_rejects_vk_id_mismatch() {
    let (mut contract, admin, _treasury, _xlm) = setup();

    let configured_vk_id = [7u8; 32];
    contract.set_zk_verifier(admin, Address::contract([50u8; 32]), configured_vk_id).unwrap();

    let mid = match_id();
    let pool_id = contract.create_pool(admin, mid, 0).unwrap();
    contract.lock_pool(admin, pool_id).unwrap();

    let proof = vec![5u8; 256];
    let public_inputs = vec![mid, u32_to_bytes32(pool_id), u32_to_bytes32(0u32)];
    let wrong_vk_id = [8u8; 32];

    let result = contract.settle_pool_zk(admin, &mut MockVerifierAcceptContract,
        pool_id,
        BetSide::Player1,
        wrong_vk_id,
        &proof,
        &public_inputs,
    );
    assert!(result.is_err());
    assert_eq!(result, Err(Error::ZkProofInvalid));
}

#[test]
fn test_settle_pool_zk_rejects_public_input_binding_mismatch() {
    let (mut contract, admin, _treasury, _xlm) = setup();

    let mut verifier = MockVerifierAcceptContract;
    let vk_id = [7u8; 32];
    contract.set_zk_verifier(admin, Address::contract([50u8; 32]), vk_id).unwrap();

    let mid = match_id();
    let pool_id = contract.create_pool(admin, mid, 0).unwrap();
    contract.lock_pool(admin, pool_id).unwrap();

    let proof = vec![5u8; 256];

    let bad_winner_inputs = vec![mid, u32_to_bytes32(pool_id), u32_to_bytes32(1u32)];
    let winner_result = contract.settle_pool_zk(admin, &mut verifier,
        pool_id,
        BetSide::Player1,
        vk_id,
        &proof,
        &bad_winner_inputs,
    );
    assert!(winner_result.is_err());

    let bad_pool_inputs = vec![mid, u32_to_bytes32(pool_id + 1), u32_to_bytes32(0u32)];
    let pool_result = contract.settle_pool_zk(admin, &mut verifier,
        pool_id,
        BetSide::Player1,
        vk_id,
        &proof,
        &bad_pool_inputs,
    );
    assert!(pool_result.is_err());

    let bad_match_inputs = vec![[2u8; 32], u32_to_bytes32(pool_id), u32_to_bytes32(0u32)];
    let match_result = contract.settle_pool_zk(admin, &mut verifier,
        pool_id,
        BetSide::Player1,
        vk_id,
        &proof,
        &bad_match_inputs,
    );
    assert!(match_result.is_err());

    assert_eq!(contract.get_pool(pool_id).unwrap().status, PoolStatus::Locked);
}

#[test]
fn test_settle_pool_zk_rejects_when_verifier_returns_false() {
    let (mut contract, admin, _treasury, _xlm) = setup();

    let mut verifier = MockVerifierRejectContract;
    let vk_id = [7u8; 32];
    contract.set_zk_verifier(admin, Address::contract([50u8; 32]), vk_id).unwrap();

    let mid = match_id();
    let pool_id = contract.create_pool(admin, mid, 0).unwrap();
    contract.lock_pool(admin, pool_id).unwrap();

    let proof = vec![5u8; 256];
    let public_inputs = vec![mid, u32_to_bytes32(pool_id), u32_to_bytes32(0u32)];

    let result = contract.settle_pool_zk(admin, &mut verifier,
        pool_id,
        BetSide::Player1,
        vk_id,
        &proof,
        &public_inputs,
    );
    assert!(result.is_err());
    assert_eq!(result, Err(Error::ZkProofInvalid));
}

#[test]
fn commitment_is_sha256_of_side_then_salt() {
    let expected0: [u8; 32] = [
        0xa2, 0xba, 0xaf, 0x6e, 0xf8, 0xa3, 0x16, 0x41, 0x08, 0x27, 0xdd, 0x12, 0x9a, 0x17, 0x32,
        0xfa, 0x4c, 0xf1, 0x28, 0x7f, 0x12, 0x5d, 0xaa, 0x72, 0xdc, 0x5c, 0x5c, 0xc8, 0xc8, 0x81,
        0xdc, 0xcb,
    ];
    assert_eq!(commit(0, &[42u8; 32]), expected0);
    let expected1: [u8; 32] = [
        0xe7, 0x36, 0x81, 0x42, 0x86, 0xdf, 0x88, 0x86, 0xe6, 0x6b, 0xb0, 0xfd, 0xae, 0x1c, 0x70,
        0x19, 0x6b, 0xfc, 0xb1, 0x1d, 0x07, 0xb7, 0x25, 0xb2, 0xfb, 0x28, 0x21, 0x41, 0x8f, 0xcf,
        0x9c, 0x4a,
    ];
    assert_eq!(commit(1, &[42u8; 32]), expected1);
}
