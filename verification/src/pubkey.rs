//! Account addresses as 32 plain bytes.

use vstd::prelude::*;

verus! {

/// A 32-byte account address.
#[derive(Clone, Copy, Debug, PartialEq, Eq)]
pub struct Pubkey {
    pub bytes: [u8; 32],
}

/// The all-zero address, which the protocol uses to mean "not set".
pub open spec fn zero_key() -> Pubkey {
    Pubkey { bytes: zero_bytes() }
}

/// The all-zero 32-byte value, which the protocol uses to mean "no commitment".
pub open spec fn zero_bytes() -> [u8; 32] {
    vstd::array::spec_array_fill_for_copy_type::<u8, 32>(0u8)
}

/// Whether two 32-byte values hold the same bytes.
pub fn bytes_eq(a: &[u8; 32], b: &[u8; 32]) -> (r: bool)
    ensures
        r == (*a == *b),
{
    broadcast use vstd::array::group_array_axioms;
    let mut i: usize = 0;
    while i < 32
        invariant
            i <= 32,
            forall|j: int| 0 <= j < i ==> a[j] == b[j],
        decreases 32 - i,
    {
        if a[i] != b[i] {
            return false;
        }
        i = i + 1;
    }
    assert(*a =~= *b);
    true
}

/// Whether a 32-byte value is all zeros.
pub fn bytes_is_zero(a: &[u8; 32]) -> (r: bool)
    ensures
        r == (*a == zero_bytes()),
{
    let z: [u8; 32] = [0u8; 32];
    bytes_eq(a, &z)
}

impl Pubkey {
    /// The all-zero address.
    pub fn zero() -> (k: Pubkey)
        ensures
            k == zero_key(),
    {
        Pubkey { bytes: [0u8; 32] }
    }

    /// An address made of the given bytes.
    pub fn new_from_array(bytes: [u8; 32]) -> (k: Pubkey)
        ensures
            k.bytes == bytes,
    {
        Pubkey { bytes }
    }

    /// Whether two addresses are the same.
    pub fn equals(&self, other: &Pubkey) -> (r: bool)
        ensures
            r == (*self == *other),
    {
        bytes_eq(&self.bytes, &other.bytes)
    }

    /// Whether this is the all-zero address ("not set").
    pub fn is_zero(&self) -> (r: bool)
        ensures
            r == (*self == zero_key()),
    {
        bytes_is_zero(&self.bytes)
    }
}

impl Default for Pubkey {
    fn default() -> (k: Pubkey)
        ensures
            k == zero_key(),
    {
        Pubkey::zero()
    }
}

} // verus!
