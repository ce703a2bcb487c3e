//! Calls into the Soroban host: hashing, arithmetic on the BN254 curve, the seeded
//! number generator and the strkeys of addresses.
//!
//! Nothing in this file is proved. Each function here hands plain values to a fresh
//! host and hands plain values back; what the host computes has a name, and the
//! contracts of the rest of the crate speak of those names.
//!
//! Each call has a host of its own. Its result then depends on the values handed
//! over and on nothing that a caller's host holds or has spent, and a point that
//! the host refuses comes back as `None`, where on the caller's host it would end
//! the call.

use soroban_sdk::{Bytes, BytesN, Env, TryFromVal};
use soroban_sdk::crypto::bn254::{Bn254G1Affine, Bn254G2Affine, Fr};
use soroban_sdk::testutils::EnvTestConfig;
use soroban_sdk::xdr::{AccountId, ContractId, PublicKey, ScAddress, Uint256};
use vstd::prelude::*;
use crate::primitives::{Address, AddressKind};

verus! {

/// The SHA-256 digest of `data`: what `soroban_sdk::crypto::Crypto::sha256` returns
/// for these bytes.
pub uninterp spec fn sha256_digest(data: Seq<u8>) -> Seq<u8>;

/// Calls `soroban_sdk::crypto::Crypto::sha256` on a fresh host. The digest depends on
/// the bytes alone. The host charges a few thousand instructions and some tens
/// more for each byte to a budget of a hundred million; the bound on the length
/// keeps the call far below it.
#[verifier::external_body]
pub(crate) fn sha256(data: &[u8]) -> (digest: [u8; 32])
    requires
        data@.len() <= 256,
    ensures
        digest@ == sha256_digest(data@),
{
    let env = Env::new_with_config(EnvTestConfig { capture_snapshot_at_drop: false });
    env.crypto().sha256(&Bytes::from_slice(&env, data)).to_array()
}

/// The sum of two points of G1 in their 64-byte encoding: what
/// `soroban_sdk::crypto::bn254::Bn254::g1_add` returns for them, or `None` where
/// the host refuses them, as it does for bytes that encode no point of the curve.
pub uninterp spec fn bn254_g1_sum(first: Seq<u8>, second: Seq<u8>) -> Option<Seq<u8>>;

/// Calls `soroban_sdk::crypto::bn254::Bn254::g1_add` inside a contract frame of a
/// fresh host, so that a refusal by the host comes back as `None`. The outcome
/// depends on the two encodings alone.
#[verifier::external_body]
pub(crate) fn bn254_g1_add(first: &[u8; 64], second: &[u8; 64]) -> (sum: Option<[u8; 64]>)
    ensures
        sum is Some <==> bn254_g1_sum(first@, second@) is Some,
        sum is Some ==> sum->0@ == bn254_g1_sum(first@, second@)->0,
{
    let env = Env::new_with_config(EnvTestConfig { capture_snapshot_at_drop: false });
    let admin = <soroban_sdk::Address as soroban_sdk::testutils::Address>::generate(&env);
    let id = env.register_stellar_asset_contract_v2(admin).address();
    env.try_as_contract::<[u8; 64], soroban_sdk::Error>(&id, || {
        let a = Bn254G1Affine::from_array(&env, first);
        let b = Bn254G1Affine::from_array(&env, second);
        env.crypto().bn254().g1_add(&a, &b).to_array()
    }).ok()
}

/// The product of a point of G1 in its 64-byte encoding and a scalar given as 32
/// big-endian bytes: what `soroban_sdk::crypto::bn254::Bn254::g1_mul` returns for
/// the point and `soroban_sdk::crypto::bn254::Fr::from_bytes` of the scalar, or
/// `None` where the host refuses them.
pub uninterp spec fn bn254_g1_product(point: Seq<u8>, scalar: Seq<u8>) -> Option<Seq<u8>>;

/// Calls `soroban_sdk::crypto::bn254::Bn254::g1_mul` inside a contract frame of a
/// fresh host, so that a refusal by the host comes back as `None`. The outcome
/// depends on the two encodings alone.
#[verifier::external_body]
pub(crate) fn bn254_g1_mul(point: &[u8; 64], scalar: &[u8; 32]) -> (product: Option<[u8; 64]>)
    ensures
        product is Some <==> bn254_g1_product(point@, scalar@) is Some,
        product is Some ==> product->0@ == bn254_g1_product(point@, scalar@)->0,
{
    let env = Env::new_with_config(EnvTestConfig { capture_snapshot_at_drop: false });
    let admin = <soroban_sdk::Address as soroban_sdk::testutils::Address>::generate(&env);
    let id = env.register_stellar_asset_contract_v2(admin).address();
    env.try_as_contract::<[u8; 64], soroban_sdk::Error>(&id, || {
        let a = Bn254G1Affine::from_array(&env, point);
        let s = Fr::from_bytes(BytesN::from_array(&env, scalar));
        env.crypto().bn254().g1_mul(&a, &s).to_array()
    }).ok()
}

/// The negation of a point of G1 in its 64-byte encoding: what `Neg::neg` of
/// `soroban_sdk::crypto::bn254::Bn254G1Affine` returns for it, or `None` where
/// that panics, as it does for a second coordinate that is no element of the base
/// field.
pub uninterp spec fn bn254_g1_negation(point: Seq<u8>) -> Option<Seq<u8>>;

/// Negates a `soroban_sdk::crypto::bn254::Bn254G1Affine` inside a contract frame of
/// a fresh host, so that a panic comes back as `None`. The outcome depends on the
/// encoding alone.
#[verifier::external_body]
pub(crate) fn bn254_g1_neg(point: &[u8; 64]) -> (negated: Option<[u8; 64]>)
    ensures
        negated is Some <==> bn254_g1_negation(point@) is Some,
        negated is Some ==> negated->0@ == bn254_g1_negation(point@)->0,
{
    let env = Env::new_with_config(EnvTestConfig { capture_snapshot_at_drop: false });
    let admin = <soroban_sdk::Address as soroban_sdk::testutils::Address>::generate(&env);
    let id = env.register_stellar_asset_contract_v2(admin).address();
    env.try_as_contract::<[u8; 64], soroban_sdk::Error>(&id, || {
        (-Bn254G1Affine::from_array(&env, point)).to_array()
    }).ok()
}

/// Whether the product of the pairings of `g1[i]` with `g2[i]` is the identity of
/// the target group: what `soroban_sdk::crypto::bn254::Bn254::pairing_check` returns
/// for the points in their 64-byte and 128-byte encodings, or `None` where the host
/// refuses them.
pub uninterp spec fn bn254_pairing_product_is_one(g1: Seq<Seq<u8>>, g2: Seq<Seq<u8>>) -> Option<
    bool,
>;

/// The encodings of four points of G1, as sequences of bytes.
pub open spec fn g1_encodings(points: [[u8; 64]; 4]) -> Seq<Seq<u8>> {
    seq![points[0]@, points[1]@, points[2]@, points[3]@]
}

/// The encodings of four points of G2, as sequences of bytes.
pub open spec fn g2_encodings(points: [[u8; 128]; 4]) -> Seq<Seq<u8>> {
    seq![points[0]@, points[1]@, points[2]@, points[3]@]
}

/// Calls `soroban_sdk::crypto::bn254::Bn254::pairing_check` on four pairs of points
/// inside a contract frame of a fresh host, so that a refusal by the host comes
/// back as `None`. The outcome depends on the eight encodings alone.
#[verifier::external_body]
pub(crate) fn bn254_pairing_check(g1: &[[u8; 64]; 4], g2: &[[u8; 128]; 4]) -> (holds: Option<bool>)
    ensures
        holds == bn254_pairing_product_is_one(g1_encodings(*g1), g2_encodings(*g2)),
{
    let env = Env::new_with_config(EnvTestConfig { capture_snapshot_at_drop: false });
    let admin = <soroban_sdk::Address as soroban_sdk::testutils::Address>::generate(&env);
    let id = env.register_stellar_asset_contract_v2(admin).address();
    env.try_as_contract::<bool, soroban_sdk::Error>(&id, || {
        let vp1 = g1.map(|p| Bn254G1Affine::from_array(&env, &p));
        let vp2 = g2.map(|p| Bn254G2Affine::from_array(&env, &p));
        env.crypto().bn254().pairing_check(
            soroban_sdk::Vec::from_array(&env, vp1),
            soroban_sdk::Vec::from_array(&env, vp2),
        )
    }).ok()
}

/// The Keccak-256 digest of `data`: what `soroban_sdk::crypto::Crypto::keccak256`
/// returns for these bytes.
pub uninterp spec fn keccak256_digest(data: Seq<u8>) -> Seq<u8>;

/// Calls `soroban_sdk::crypto::Crypto::keccak256` on a fresh host. The digest
/// depends on the bytes alone. The host charges a few thousand instructions and
/// some tens more for each byte to a budget of a hundred million; the bound on the
/// length keeps the call far below it.
#[verifier::external_body]
pub(crate) fn keccak256(data: &[u8]) -> (digest: [u8; 32])
    requires
        data@.len() <= 256,
    ensures
        digest@ == keccak256_digest(data@),
{
    let env = Env::new_with_config(EnvTestConfig { capture_snapshot_at_drop: false });
    env.crypto().keccak256(&Bytes::from_slice(&env, data)).to_array()
}

/// The first number that the host's generator yields between `low` and `high`
/// after it was seeded with `seed`: what `soroban_sdk::prng::Prng::gen_range`
/// returns for the range `low..=high` right after `soroban_sdk::prng::Prng::seed`.
pub uninterp spec fn prng_draw(seed: Seq<u8>, low: u64, high: u64) -> u64;

/// Seeds the generator of a contract frame of a fresh host with
/// `soroban_sdk::prng::Prng::seed` and draws one number with
/// `soroban_sdk::prng::Prng::gen_range`. The number lies in the range and depends
/// on the seed and the range alone. An empty range, on which the draw panics, is
/// left out.
#[verifier::external_body]
pub(crate) fn prng_u64_in_range(seed: &[u8; 32], low: u64, high: u64) -> (value: u64)
    requires
        low <= high,
    ensures
        value == prng_draw(seed@, low, high),
        low <= value <= high,
{
    let env = Env::new_with_config(EnvTestConfig { capture_snapshot_at_drop: false });
    let admin = <soroban_sdk::Address as soroban_sdk::testutils::Address>::generate(&env);
    let id = env.register_stellar_asset_contract_v2(admin).address();
    env.as_contract(&id, || {
        env.prng().seed(Bytes::from_array(&env, seed));
        env.prng().gen_range::<u64>(low..=high)
    })
}

/// The strkey of an account or a contract, as ASCII bytes: what
/// `soroban_sdk::Address::to_string` returns for the address with this payload.
pub uninterp spec fn address_strkey(is_contract: bool, key: Seq<u8>) -> Seq<u8>;

/// Builds the `soroban_sdk::Address` with the payload of `address` on a fresh host
/// and calls `soroban_sdk::Address::to_string` on it. The strkey of an account and
/// of a contract is 56 characters long and depends on the kind and the payload
/// alone.
#[verifier::external_body]
pub(crate) fn strkey(address: &Address) -> (text: [u8; 56])
    ensures
        text@ == address_strkey(address.kind == AddressKind::Contract, address.key@),
{
    let env = Env::new_with_config(EnvTestConfig { capture_snapshot_at_drop: false });
    let sc_address = match address.kind {
        AddressKind::Account => ScAddress::Account(
            AccountId(PublicKey::PublicKeyTypeEd25519(Uint256(address.key))),
        ),
        AddressKind::Contract => {
            ScAddress::Contract(ContractId(soroban_sdk::xdr::Hash(address.key)))
        },
    };
    let outside = soroban_sdk::Address::try_from_val(&env, &sc_address).unwrap();
    let mut text = [0u8; 56];
    outside.to_string().copy_into_slice(&mut text);
    text
}

} // verus!
