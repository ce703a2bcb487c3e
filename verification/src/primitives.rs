//! Identities and fixed-width byte words shared by the contracts.

use vstd::prelude::*;

verus! {

/// What an [`Address`] names.
#[derive(Clone, Copy, Debug, PartialEq, Eq, Hash, Structural)]
pub enum AddressKind {
    /// An account, named by its Ed25519 public key.
    Account,
    /// A contract, named by its contract hash.
    Contract,
}

/// The identity of an account or a contract: its kind and its 32-byte payload.
#[derive(Clone, Copy, Debug, PartialEq, Eq, Hash)]
pub struct Address {
    pub kind: AddressKind,
    pub key: [u8; 32],
}

/// Whether two byte arrays hold the same bytes.
pub fn bytes_eq<const N: usize>(a: &[u8; N], b: &[u8; N]) -> (same: bool)
    ensures
        same == (*a == *b),
        same == (a@ == b@),
{
    let mut i: usize = 0;
    while i < N
        invariant
            i <= N,
            forall|k: int| 0 <= k < i ==> a[k] == b[k],
        decreases N - i,
    {
        if a[i] != b[i] {
            return false;
        }
        i += 1;
    }
    assert(*a =~= *b);
    true
}

impl Address {
    /// An account address with the given public key.
    pub fn account(key: [u8; 32]) -> (address: Address)
        ensures
            address == (Address { kind: AddressKind::Account, key }),
    {
        Address { kind: AddressKind::Account, key }
    }

    /// A contract address with the given contract hash.
    pub fn contract(key: [u8; 32]) -> (address: Address)
        ensures
            address == (Address { kind: AddressKind::Contract, key }),
    {
        Address { kind: AddressKind::Contract, key }
    }

    /// Whether `self` and `other` name the same account or contract.
    pub fn same_as(&self, other: &Address) -> (same: bool)
        ensures
            same == (*self == *other),
    {
        let same_kind = match (self.kind, other.kind) {
            (AddressKind::Account, AddressKind::Account) => true,
            (AddressKind::Contract, AddressKind::Contract) => true,
            _ => false,
        };
        same_kind && bytes_eq(&self.key, &other.key)
    }
}

/// The four bytes of `value`, most significant first.
pub open spec fn be_bytes(value: u32) -> Seq<u8> {
    seq![
        (value / 0x100_0000) as u8,
        ((value / 0x1_0000) % 0x100) as u8,
        ((value / 0x100) % 0x100) as u8,
        (value % 0x100) as u8,
    ]
}

/// The four bytes of `value`, most significant first.
pub fn u32_to_be_bytes(value: u32) -> (bytes: [u8; 4])
    ensures
        bytes@ == be_bytes(value),
{
    let bytes = [
        (value / 0x100_0000) as u8,
        ((value / 0x1_0000) % 0x100) as u8,
        ((value / 0x100) % 0x100) as u8,
        (value % 0x100) as u8,
    ];
    bytes
}

/// The 32-byte big-endian encoding of `value`: 28 zero bytes, then its four bytes.
pub open spec fn be_word(value: u32) -> Seq<u8> {
    Seq::new(28, |index: int| 0u8) + be_bytes(value)
}

/// Encodes `value` as a 32-byte big-endian word.
pub fn u32_to_bytes32(value: u32) -> (word: [u8; 32])
    ensures
        word@ == be_word(value),
{
    let bytes = u32_to_be_bytes(value);
    let mut word = [0u8; 32];
    word[28] = bytes[0];
    word[29] = bytes[1];
    word[30] = bytes[2];
    word[31] = bytes[3];
    word
}

/// Appends `bytes` to `out`.
pub fn append_bytes(out: &mut Vec<u8>, bytes: &[u8])
    ensures
        final(out)@ == old(out)@ + bytes@,
{
    let mut index: usize = 0;
    while index < bytes.len()
        invariant
            index <= bytes.len(),
            out@ == old(out)@ + bytes@.take(index as int),
        decreases bytes.len() - index,
    {
        out.push(bytes[index]);
        index += 1;
    }
}

/// The 32-byte array that holds `bytes`.
pub open spec fn array32(bytes: Seq<u8>) -> [u8; 32] {
    choose|array: [u8; 32]| array@ == bytes
}

/// The id whose bytes are all zero.
pub open spec fn zero_id() -> [u8; 32] {
    array32(Seq::new(32, |index: int| 0u8))
}

/// Makes the id whose bytes are all zero.
pub fn make_zero_id() -> (id: [u8; 32])
    ensures
        id == zero_id(),
        is_zero_id(id),
{
    let id = [0u8; 32];
    proof {
        assert(id@ =~= Seq::new(32, |index: int| 0u8));
    }
    id
}

/// Whether every byte of `id` is zero.
pub open spec fn is_zero_id(id: [u8; 32]) -> bool {
    forall|index: int| 0 <= index < 32 ==> id[index] == 0
}

/// Whether every byte of `id` is zero.
pub fn is_zero(id: &[u8; 32]) -> (zero: bool)
    ensures
        zero == is_zero_id(*id),
{
    let mut index: usize = 0;
    while index < 32
        invariant
            index <= 32,
            forall|k: int| 0 <= k < index ==> id[k] == 0,
        decreases 32 - index,
    {
        if id[index] != 0 {
            return false;
        }
        index += 1;
    }
    true
}

} // verus!
