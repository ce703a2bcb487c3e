//! Groth16 proof verification over the BN254 curve.
//!
//! The contract keeps verifying keys by their id and checks proofs against them.
//! A proof is 256 bytes: a point `A` of G1, a point `B` of G2 and a point `C` of
//! G1. It is accepted where
//! `e(-A, B) * e(alpha, beta) * e(vk_x, gamma) * e(C, delta) == 1`, with
//! `vk_x = ic[0] + sum of public_input[i] * ic[i + 1]`. Whatever is malformed or
//! missing makes the answer `false`.
//!
//! A key can be replaced until a proof is accepted under it. From then on it stays
//! as it is, so that what was accepted under a key id stays accepted. A request
//! that is answered with `false` changes nothing.

use vstd::prelude::*;
use crate::host::{
    bn254_g1_add, bn254_g1_mul, bn254_g1_neg, bn254_g1_negation, bn254_g1_product, bn254_g1_sum,
    bn254_pairing_check, bn254_pairing_product_is_one,
};
use crate::primitives::Address;
use crate::store::{Store, entries_map};

verus! {

/// The length of a proof in bytes.
pub const PROOF_GROTH16_BYTES_LEN: usize = 256;

/// Why an operation of the verifier contract was refused.
#[derive(Copy, Clone, Debug, PartialEq, Eq, PartialOrd, Ord, Structural)]
pub enum Error {
    InvalidVk,
    InvalidProof,
    InvalidPublicInputs,
    Unauthorized,
}

impl Error {
    /// The number under which the error is reported to callers of the contract.
    pub open spec fn code_of(self) -> u32 {
        match self {
            Error::InvalidVk => 1,
            Error::InvalidProof => 2,
            Error::InvalidPublicInputs => 3,
            Error::Unauthorized => 4,
        }
    }

    /// The number under which the error is reported to callers of the contract.
    pub fn code(&self) -> (code: u32)
        ensures
            code == self.code_of(),
    {
        match self {
            Error::InvalidVk => 1,
            Error::InvalidProof => 2,
            Error::InvalidPublicInputs => 3,
            Error::Unauthorized => 4,
        }
    }
}

/// A Groth16 verifying key: one point of G1, three of G2, and one point of G1 more
/// than the proofs it checks have public inputs.
#[derive(Debug, PartialEq, Eq)]
pub struct Groth16VerificationKey {
    pub alpha_g1: [u8; 64],
    pub beta_g2: [u8; 128],
    pub gamma_g2: [u8; 128],
    pub delta_g2: [u8; 128],
    pub ic: Vec<[u8; 64]>,
}

/// A verifying key as a plain value.
pub struct KeyView {
    pub alpha_g1: [u8; 64],
    pub beta_g2: [u8; 128],
    pub gamma_g2: [u8; 128],
    pub delta_g2: [u8; 128],
    pub ic: Seq<[u8; 64]>,
}

impl View for Groth16VerificationKey {
    type V = KeyView;

    open spec fn view(&self) -> KeyView {
        KeyView {
            alpha_g1: self.alpha_g1,
            beta_g2: self.beta_g2,
            gamma_g2: self.gamma_g2,
            delta_g2: self.delta_g2,
            ic: self.ic@,
        }
    }
}

/// `ic[0]` plus the first `count` public inputs, each times the point of `ic` one
/// place after it; `None` where the curve arithmetic refuses a point.
pub open spec fn vk_x_prefix(ic: Seq<[u8; 64]>, public_inputs: Seq<[u8; 32]>, count: nat) -> Option<
    Seq<u8>,
>
    decreases count,
{
    if count == 0 {
        Some(ic[0]@)
    } else {
        match vk_x_prefix(ic, public_inputs, (count - 1) as nat) {
            None => None,
            Some(sum) => match bn254_g1_product(ic[count as int]@, public_inputs[count - 1]@) {
                None => None,
                Some(term) => bn254_g1_sum(sum, term),
            },
        }
    }
}

/// Whether `proof` is a valid Groth16 proof for `public_inputs` under `key`.
pub open spec fn groth16_accepts(
    key: KeyView,
    proof: Seq<u8>,
    public_inputs: Seq<[u8; 32]>,
) -> bool {
    &&& proof.len() == 256
    &&& key.ic.len() == public_inputs.len() + 1
    &&& match (
        vk_x_prefix(key.ic, public_inputs, public_inputs.len()),
        bn254_g1_negation(proof.subrange(0, 64)),
    ) {
        (Some(vk_x), Some(minus_a)) => bn254_pairing_product_is_one(
            seq![minus_a, key.alpha_g1@, vk_x, proof.subrange(192, 256)],
            seq![proof.subrange(64, 192), key.beta_g2@, key.gamma_g2@, key.delta_g2@],
        ) == Some(true),
        _ => false,
    }
}

/// What the verifier contract holds.
pub struct VerifierState {
    pub admin: Address,
    /// The installed verifying keys, by their id.
    pub keys: Map<[u8; 32], KeyView>,
    /// The ids of the keys that a proof was verified against. Such a key stays as
    /// it is.
    pub used: Set<[u8; 32]>,
}

impl VerifierState {
    /// The state a new contract starts in.
    pub open spec fn initial(admin: Address) -> VerifierState {
        VerifierState { admin, keys: Map::empty(), used: Set::empty() }
    }

    /// Every installed key has at least one point in `ic`.
    pub open spec fn valid(self) -> bool {
        forall|vk_id: [u8; 32]| #[trigger]
            self.keys.contains_key(vk_id) ==> self.keys[vk_id].ic.len() >= 1
    }

    /// Why a key is not installed, if it is not: only the admin installs keys, a
    /// key needs a point in `ic`, and a key that a proof was verified against is
    /// not replaced.
    pub open spec fn set_verification_key_error(
        self,
        caller: Address,
        vk_id: [u8; 32],
        key: KeyView,
    ) -> Option<Error> {
        if caller != self.admin {
            Some(Error::Unauthorized)
        } else if key.ic.len() == 0 {
            Some(Error::InvalidVk)
        } else if self.used.contains(vk_id) {
            Some(Error::InvalidVk)
        } else {
            None
        }
    }

    /// The state after a request to install `key` under `vk_id`.
    pub open spec fn after_set_verification_key(
        self,
        caller: Address,
        vk_id: [u8; 32],
        key: KeyView,
    ) -> VerifierState {
        if self.set_verification_key_error(caller, vk_id, key) is Some {
            self
        } else {
            VerifierState { keys: self.keys.insert(vk_id, key), ..self }
        }
    }

    /// The state after a request to verify a proof against the key `vk_id`: where
    /// the proof is accepted, the key counts as verified against from then on. A
    /// request that is answered with `false` leaves the state as it is, so that
    /// nobody freezes a key without a proof that holds under it.
    pub open spec fn after_verify_round_proof(
        self,
        vk_id: [u8; 32],
        proof: Seq<u8>,
        public_inputs: Seq<[u8; 32]>,
    ) -> VerifierState {
        if self.accepts(vk_id, proof, public_inputs) {
            VerifierState { used: self.used.insert(vk_id), ..self }
        } else {
            self
        }
    }

    /// Whether the contract answers `true` to a request to verify.
    pub open spec fn accepts(
        self,
        vk_id: [u8; 32],
        proof: Seq<u8>,
        public_inputs: Seq<[u8; 32]>,
    ) -> bool {
        self.keys.contains_key(vk_id) && groth16_accepts(self.keys[vk_id], proof, public_inputs)
    }
}

/// A request to verify is answered with `false` where the proof is not exactly 256
/// bytes long, where no key is installed under the id, and where the key has not
/// exactly one point more in `ic` than there are public inputs.
pub proof fn law_malformed_requests_fail(
    s: VerifierState,
    vk_id: [u8; 32],
    proof: Seq<u8>,
    public_inputs: Seq<[u8; 32]>,
)
    ensures
        proof.len() != 256 ==> !s.accepts(vk_id, proof, public_inputs),
        !s.keys.contains_key(vk_id) ==> !s.accepts(vk_id, proof, public_inputs),
        s.keys.contains_key(vk_id) && public_inputs.len() != s.keys[vk_id].ic.len() - 1
            ==> !s.accepts(vk_id, proof, public_inputs),
{
}

/// Once a proof was accepted under a key, the key is what it is for good: every
/// request to install a key under its id is refused with `InvalidVk`, whoever
/// makes it and whatever key it brings, and the contract goes on to accept
/// exactly the proofs that it accepted under the key. Requests to verify change
/// no key either, and no request takes the mark from a key.
pub proof fn law_used_keys_are_immutable(
    s: VerifierState,
    vk_id: [u8; 32],
    first_proof: Seq<u8>,
    first_inputs: Seq<[u8; 32]>,
    caller: Address,
    key: KeyView,
    other_id: [u8; 32],
    proof: Seq<u8>,
    public_inputs: Seq<[u8; 32]>,
)
    requires
        s.accepts(vk_id, first_proof, first_inputs),
    ensures
        ({
            let verified = s.after_verify_round_proof(vk_id, first_proof, first_inputs);
            let after = verified.after_set_verification_key(caller, vk_id, key);
            &&& verified.keys == s.keys
            &&& caller == s.admin ==> verified.set_verification_key_error(caller, vk_id, key)
                == Some(Error::InvalidVk)
            &&& after == verified
            &&& after.keys[vk_id] == s.keys[vk_id]
            &&& after.accepts(vk_id, proof, public_inputs) == s.accepts(vk_id, proof, public_inputs)
            &&& verified.after_verify_round_proof(other_id, proof, public_inputs).used.contains(
                vk_id,
            )
            &&& verified.after_set_verification_key(caller, other_id, key).used.contains(vk_id)
        }),
{
}

/// A request to verify that is answered with `false` leaves the contract as it
/// is: a proof that has not 256 bytes, inputs that do not match the key, bytes
/// that encode no point and a proof that does not hold freeze no key.
pub proof fn law_refused_proofs_mark_nothing(
    s: VerifierState,
    vk_id: [u8; 32],
    proof: Seq<u8>,
    public_inputs: Seq<[u8; 32]>,
)
    requires
        !s.accepts(vk_id, proof, public_inputs),
    ensures
        s.after_verify_round_proof(vk_id, proof, public_inputs) == s,
{
}

/// The Groth16 verifier contract.
pub struct ZkGroth16VerifierContract {
    admin: Address,
    keys: Store<[u8; 32], Groth16VerificationKey>,
    used: Store<[u8; 32], bool>,
}

impl View for ZkGroth16VerifierContract {
    type V = VerifierState;

    closed spec fn view(&self) -> VerifierState {
        VerifierState {
            admin: self.admin,
            keys: self.keys@.map_values(|key: Groth16VerificationKey| key@),
            used: marked(self.used@),
        }
    }
}

/// The ids that `marks` holds with the mark `true`.
pub open spec fn marked(marks: Map<[u8; 32], bool>) -> Set<[u8; 32]> {
    Set::new(|vk_id: [u8; 32]| marks.contains_key(vk_id) && marks[vk_id])
}

/// Everything the verifier contract holds, as plain records. Each list stands for
/// a map: where two entries hold one id, the first counts. `used` holds `true`
/// for the id of each key that a proof was verified against.
pub struct VerifierSnapshot {
    pub admin: Address,
    pub keys: Vec<([u8; 32], Groth16VerificationKey)>,
    pub used: Vec<([u8; 32], bool)>,
}

impl View for VerifierSnapshot {
    type V = VerifierState;

    open spec fn view(&self) -> VerifierState {
        VerifierState {
            admin: self.admin,
            keys: entries_map(self.keys@).map_values(|key: Groth16VerificationKey| key@),
            used: marked(entries_map(self.used@)),
        }
    }
}

/// Copies the 64 bytes of `proof` from `start` up to `end`, where that is a range
/// of 64 bytes within the proof.
fn proof_g1_slice(proof: &Vec<u8>, start: usize, end: usize) -> (point: Option<[u8; 64]>)
    ensures
        point is Some <==> start < end <= proof.len() && end - start == 64,
        point is Some ==> point->0@ == proof@.subrange(start as int, end as int),
{
    if end <= start || end > proof.len() {
        return None;
    }
    if end - start != 64 {
        return None;
    }
    let mut point = [0u8; 64];
    let mut i: usize = 0;
    while i < 64
        invariant
            i <= 64,
            start + 64 == end <= proof.len(),
            forall|k: int| 0 <= k < i ==> point[k] == proof[start + k],
        decreases 64 - i,
    {
        point[i] = proof[start + i];
        i += 1;
    }
    Some(point)
}

/// Copies the 128 bytes of `proof` from `start` up to `end`, where that is a range
/// of 128 bytes within the proof.
fn proof_g2_slice(proof: &Vec<u8>, start: usize, end: usize) -> (point: Option<[u8; 128]>)
    ensures
        point is Some <==> start < end <= proof.len() && end - start == 128,
        point is Some ==> point->0@ == proof@.subrange(start as int, end as int),
{
    if end <= start || end > proof.len() {
        return None;
    }
    if end - start != 128 {
        return None;
    }
    let mut point = [0u8; 128];
    let mut i: usize = 0;
    while i < 128
        invariant
            i <= 128,
            start + 128 == end <= proof.len(),
            forall|k: int| 0 <= k < i ==> point[k] == proof[start + k],
        decreases 128 - i,
    {
        point[i] = proof[start + i];
        i += 1;
    }
    Some(point)
}

/// Computes `vk_x`: `ic[0]` plus each public input times the point of `ic` one
/// place after it.
fn accumulate_inputs(ic: &Vec<[u8; 64]>, public_inputs: &Vec<[u8; 32]>) -> (vk_x: Option<[u8; 64]>)
    requires
        ic.len() == public_inputs.len() + 1,
    ensures
        vk_x is Some <==> vk_x_prefix(ic@, public_inputs@, public_inputs@.len()) is Some,
        vk_x is Some ==> vk_x->0@ == vk_x_prefix(ic@, public_inputs@, public_inputs@.len())->0,
{
    let mut vk_x: [u8; 64] = ic[0];
    let mut index: usize = 0;
    while index < public_inputs.len()
        invariant
            index <= public_inputs.len(),
            ic.len() == public_inputs.len() + 1,
            vk_x_prefix(ic@, public_inputs@, index as nat) == Some(vk_x@),
        decreases public_inputs.len() - index,
    {
        let term = match bn254_g1_mul(&ic[index + 1], &public_inputs[index]) {
            Some(term) => term,
            None => {
                proof {
                    lemma_vk_x_stays_none(
                        ic@,
                        public_inputs@,
                        (index + 1) as nat,
                        public_inputs@.len(),
                    );
                }
                return None;
            },
        };
        vk_x = match bn254_g1_add(&vk_x, &term) {
            Some(sum) => sum,
            None => {
                proof {
                    lemma_vk_x_stays_none(
                        ic@,
                        public_inputs@,
                        (index + 1) as nat,
                        public_inputs@.len(),
                    );
                }
                return None;
            },
        };
        index += 1;
    }
    Some(vk_x)
}

/// Once the sum has failed it stays failed.
proof fn lemma_vk_x_stays_none(
    ic: Seq<[u8; 64]>,
    public_inputs: Seq<[u8; 32]>,
    failed: nat,
    count: nat,
)
    requires
        vk_x_prefix(ic, public_inputs, failed) is None,
        failed <= count,
    ensures
        vk_x_prefix(ic, public_inputs, count) is None,
    decreases count,
{
    if failed < count {
        lemma_vk_x_stays_none(ic, public_inputs, failed, (count - 1) as nat);
    }
}

impl ZkGroth16VerifierContract {
    /// A contract without keys, run by `admin`.
    pub fn new(admin: Address) -> (contract: ZkGroth16VerifierContract)
        ensures
            contract@ == VerifierState::initial(admin),
            contract@.valid(),
    {
        let contract = ZkGroth16VerifierContract { admin, keys: Store::new(), used: Store::new() };
        assert(contract@.keys =~= Map::empty());
        assert(contract@.used =~= Set::empty());
        contract
    }

    /// The contract that holds what `snapshot` holds.
    pub fn from_snapshot(snapshot: VerifierSnapshot) -> (contract: ZkGroth16VerifierContract)
        ensures
            contract@ == snapshot@,
    {
        ZkGroth16VerifierContract {
            admin: snapshot.admin,
            keys: Store::from_entries(snapshot.keys),
            used: Store::from_entries(snapshot.used),
        }
    }

    /// Everything the contract holds, as plain records.
    pub fn into_snapshot(self) -> (snapshot: VerifierSnapshot)
        ensures
            snapshot@ == self@,
    {
        VerifierSnapshot {
            admin: self.admin,
            keys: self.keys.into_entries(),
            used: self.used.into_entries(),
        }
    }

    /// Installs a verifying key under `vk_id`, in place of a key that was there and
    /// that no proof was verified against. Only the admin installs keys. A key
    /// without a point in `ic` is refused with `InvalidVk`, and so is a key for an
    /// id whose key a proof was verified against: that key stays.
    pub fn set_verification_key(
        &mut self,
        caller: Address,
        vk_id: [u8; 32],
        alpha_g1: [u8; 64],
        beta_g2: [u8; 128],
        gamma_g2: [u8; 128],
        delta_g2: [u8; 128],
        ic: Vec<[u8; 64]>,
    ) -> (result: Result<(), Error>)
        ensures
            result == match old(self)@.set_verification_key_error(
                caller,
                vk_id,
                KeyView { alpha_g1, beta_g2, gamma_g2, delta_g2, ic: ic@ },
            ) {
                Some(error) => Err::<(), Error>(error),
                None => Ok(()),
            },
            final(self)@ == old(self)@.after_set_verification_key(
                caller,
                vk_id,
                KeyView { alpha_g1, beta_g2, gamma_g2, delta_g2, ic: ic@ },
            ),
            old(self)@.valid() ==> final(self)@.valid(),
    {
        if !caller.same_as(&self.admin) {
            return Err(Error::Unauthorized);
        }
        if ic.len() == 0 {
            return Err(Error::InvalidVk);
        }
        if self.is_used(&vk_id) {
            return Err(Error::InvalidVk);
        }
        let key = Groth16VerificationKey { alpha_g1, beta_g2, gamma_g2, delta_g2, ic };
        self.keys.set(vk_id, key);
        assert(self@.keys =~= old(self)@.keys.insert(vk_id, key@));
        Ok(())
    }

    /// Whether a proof was verified against the key installed as `vk_id`.
    pub fn is_used(&self, vk_id: &[u8; 32]) -> (used: bool)
        ensures
            used == self@.used.contains(*vk_id),
    {
        match self.used.get(vk_id) {
            Some(mark) => *mark,
            None => false,
        }
    }

    /// Whether `proof` is a valid proof for `public_inputs` under the key installed
    /// as `vk_id`. Never fails: a request that cannot be checked is answered with
    /// `false`. Where the proof is accepted, the key counts as verified against from
    /// then on.
    pub fn verify_round_proof(
        &mut self,
        vk_id: &[u8; 32],
        proof: &Vec<u8>,
        public_inputs: &Vec<[u8; 32]>,
    ) -> (ok: bool)
        ensures
            ok == old(self)@.accepts(*vk_id, proof@, public_inputs@),
            final(self)@ == old(self)@.after_verify_round_proof(*vk_id, proof@, public_inputs@),
            old(self)@.valid() ==> final(self)@.valid(),
    {
        let key = match self.keys.get(vk_id) {
            Some(key) => key,
            None => {
                return false;
            },
        };
        if proof.len() != PROOF_GROTH16_BYTES_LEN {
            return false;
        }
        if key.ic.len() == 0 || key.ic.len() - 1 != public_inputs.len() {
            return false;
        }
        let proof_a = match proof_g1_slice(proof, 0, 64) {
            Some(point) => point,
            None => {
                return false;
            },
        };
        let proof_b = match proof_g2_slice(proof, 64, 192) {
            Some(point) => point,
            None => {
                return false;
            },
        };
        let proof_c = match proof_g1_slice(proof, 192, 256) {
            Some(point) => point,
            None => {
                return false;
            },
        };
        let vk_x = match accumulate_inputs(&key.ic, public_inputs) {
            Some(vk_x) => vk_x,
            None => {
                return false;
            },
        };
        let minus_a = match bn254_g1_neg(&proof_a) {
            Some(minus_a) => minus_a,
            None => {
                return false;
            },
        };
        let g1_points = [minus_a, key.alpha_g1, vk_x, proof_c];
        let g2_points = [proof_b, key.beta_g2, key.gamma_g2, key.delta_g2];
        match bn254_pairing_check(&g1_points, &g2_points) {
            Some(true) => {
                self.used.set(*vk_id, true);
                assert(self@.used =~= old(self)@.used.insert(*vk_id));
                true
            },
            _ => false,
        }
    }

    pub fn get_admin(&self) -> (admin: Address)
        ensures
            admin == self@.admin,
    {
        self.admin
    }
}

impl crate::zk_betting::contract::ZkVerifier for ZkGroth16VerifierContract {
    open spec fn answers(
        &self,
        vk_id: [u8; 32],
        proof: Seq<u8>,
        public_inputs: Seq<[u8; 32]>,
    ) -> bool {
        self@.accepts(vk_id, proof, public_inputs)
    }

    fn verify_round_proof(
        &mut self,
        vk_id: &[u8; 32],
        proof: &Vec<u8>,
        public_inputs: &Vec<[u8; 32]>,
    ) -> (ok: bool)
        ensures
            final(self)@ == old(self)@.after_verify_round_proof(*vk_id, proof@, public_inputs@),
    {
        ZkGroth16VerifierContract::verify_round_proof(self, vk_id, proof, public_inputs)
    }
}

impl crate::veilstar_brawl::contract::ZkVerifierContract for ZkGroth16VerifierContract {
    open spec fn answers(
        &self,
        vk_id: [u8; 32],
        proof: Seq<u8>,
        public_inputs: Seq<[u8; 32]>,
    ) -> bool {
        self@.accepts(vk_id, proof, public_inputs)
    }

    fn verify_round_proof(
        &mut self,
        vk_id: &[u8; 32],
        proof: &Vec<u8>,
        public_inputs: &Vec<[u8; 32]>,
    ) -> (ok: bool)
        ensures
            final(self)@ == old(self)@.after_verify_round_proof(*vk_id, proof@, public_inputs@),
    {
        ZkGroth16VerifierContract::verify_round_proof(self, vk_id, proof, public_inputs)
    }
}

} // verus!
