//! Identifiers, addresses and hashes.

use vstd::prelude::*;
use vstd::std_specs::cmp::PartialEqSpecImpl;

verus! {

/// Identifier of an account in the store.
pub type AccountId = u32;

/// Identifier of a balance slot: a fungible token, a minted token, or the
/// reserved counter slot.
pub type TokenId = u32;

/// Number of operations that an account has sent.
pub type Nonce = u32;

/// Whether two byte arrays hold the same bytes.
pub fn bytes_equal<const N: usize>(a: &[u8; N], b: &[u8; N]) -> (r: bool)
    ensures
        r == (*a == *b),
{
    let mut i: usize = 0;
    while i < N
        invariant
            i <= N,
            forall|j: int| 0 <= j < i ==> a[j] == b[j],
        decreases N - i,
    {
        if a[i] != b[i] {
            return false;
        }
        i = i + 1;
    }
    assert(*a =~= *b);
    true
}

/// A 20-byte account address.
#[derive(Clone, Copy, Debug)]
pub struct Address(pub [u8; 20]);

impl Address {
    /// The address whose bytes are all `byte`.
    pub open spec fn spec_repeat_byte(byte: u8) -> Address {
        Address(vstd::array::spec_array_fill_for_copy_type::<u8, 20>(byte))
    }

    #[verifier::when_used_as_spec(spec_repeat_byte)]
    pub fn repeat_byte(byte: u8) -> (r: Address)
        ensures
            r == Address::spec_repeat_byte(byte),
    {
        Address([byte; 20])
    }

    /// The zero address, which nothing can be minted to.
    pub open spec fn spec_zero() -> Address {
        Address::spec_repeat_byte(0)
    }

    #[verifier::when_used_as_spec(spec_zero)]
    pub fn zero() -> (r: Address)
        ensures
            r == Address::spec_zero(),
    {
        Address::repeat_byte(0)
    }
}

impl PartialEq for Address {
    fn eq(&self, other: &Address) -> (r: bool) {
        bytes_equal(&self.0, &other.0)
    }
}

impl Eq for Address {

}

impl PartialEqSpecImpl for Address {
    open spec fn obeys_eq_spec() -> bool {
        true
    }

    open spec fn eq_spec(&self, other: &Address) -> bool {
        *self == *other
    }
}

/// Fingerprint of the key that signs for an account. An account whose
/// fingerprint is the default one is locked.
#[derive(Clone, Copy, Debug)]
pub struct PubKeyHash {
    pub data: [u8; 20],
}

impl PubKeyHash {
    /// The fingerprint of an account that has registered no key.
    pub open spec fn spec_default() -> PubKeyHash {
        PubKeyHash { data: vstd::array::spec_array_fill_for_copy_type::<u8, 20>(0u8) }
    }
}

impl Default for PubKeyHash {
    fn default() -> (r: PubKeyHash)
        ensures
            r == PubKeyHash::spec_default(),
    {
        PubKeyHash { data: [0u8; 20] }
    }
}

impl PartialEq for PubKeyHash {
    fn eq(&self, other: &PubKeyHash) -> (r: bool) {
        bytes_equal(&self.data, &other.data)
    }
}

impl Eq for PubKeyHash {

}

impl PartialEqSpecImpl for PubKeyHash {
    open spec fn obeys_eq_spec() -> bool {
        true
    }

    open spec fn eq_spec(&self, other: &PubKeyHash) -> bool {
        *self == *other
    }
}

/// A 32-byte hash.
#[derive(Clone, Copy, Debug)]
pub struct H256(pub [u8; 32]);

impl PartialEq for H256 {
    fn eq(&self, other: &H256) -> (r: bool) {
        bytes_equal(&self.0, &other.0)
    }
}

impl Eq for H256 {

}

impl PartialEqSpecImpl for H256 {
    open spec fn obeys_eq_spec() -> bool {
        true
    }

    open spec fn eq_spec(&self, other: &H256) -> bool {
        *self == *other
    }
}

} // verus!
