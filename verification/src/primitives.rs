//! Addresses, byte strings of a fixed length and 256-bit integers.
use vstd::prelude::*;
use vstd::slice::slice_to_vec;

verus! {

/// An account or contract address.
#[derive(Clone, Copy, Debug, PartialEq, Eq)]
pub struct Address(pub [u8; 20]);

impl View for Address {
    type V = Seq<u8>;

    open spec fn view(&self) -> Seq<u8> {
        self.0@
    }
}

impl Address {
    /// The 20 bytes of the address.
    pub fn to_vec(&self) -> (r: Vec<u8>)
        ensures
            r@ == self@,
    {
        slice_to_vec(self.0.as_slice())
    }

    /// The address that 20 bytes spell; any other number of bytes spells none.
    pub fn from_bytes(bytes: &[u8]) -> (r: Option<Address>)
        ensures
            match r {
                Some(a) => a@ == bytes@,
                None => bytes@.len() != 20,
            },
    {
        match fixed::<20>(bytes, [0u8;20]) {
            Some(a) => Some(Address(a)),
            None => None,
        }
    }
}

/// `N` bytes.
#[derive(Clone, Copy, Debug, PartialEq, Eq)]
pub struct FixedBytes<const N: usize>(pub [u8; N]);

impl<const N: usize> View for FixedBytes<N> {
    type V = Seq<u8>;

    open spec fn view(&self) -> Seq<u8> {
        self.0@
    }
}

impl<const N: usize> FixedBytes<N> {
    /// The bytes.
    pub fn to_vec(&self) -> (r: Vec<u8>)
        ensures
            r@ == self@,
    {
        slice_to_vec(self.0.as_slice())
    }
}

impl FixedBytes<32> {
    /// The value that 32 bytes spell; any other number of bytes spells none.
    pub fn from_bytes(bytes: &[u8]) -> (r: Option<FixedBytes<32>>)
        ensures
            match r {
                Some(a) => a@ == bytes@,
                None => bytes@.len() != 32,
            },
    {
        match fixed::<32>(bytes, [0u8;32]) {
            Some(a) => Some(FixedBytes(a)),
            None => None,
        }
    }
}

/// An array that holds the given bytes, if there are as many as it has room for.
pub(crate) fn fixed<const N: usize>(bytes: &[u8], room: [u8; N]) -> (r: Option<[u8; N]>)
    ensures
        match r {
            Some(a) => a@ == bytes@,
            None => bytes@.len() != N,
        },
{
    if bytes.len() != N {
        return None;
    }
    let mut a: [u8; N] = room;
    let mut i: usize = 0;
    while i < N
        invariant
            i <= N,
            bytes@.len() == N,
            forall|j: int| 0 <= j < i ==> a@[j] == bytes@[j],
        decreases N - i,
    {
        a[i] = bytes[i];
        i = i + 1;
    }
    assert(a@ =~= bytes@);
    Some(a)
}

/// An unsigned integer of 256 bits, as four 64-bit limbs, the least significant first.
#[derive(Clone, Copy, Debug, PartialEq, Eq)]
pub struct U256 {
    pub limbs: [u64; 4],
}

/// The integer that four limbs stand for.
pub open spec fn limbs_value(limbs: Seq<u64>) -> nat {
    (limbs[0] + limbs[1] * 0x1_0000_0000_0000_0000 + limbs[2]
        * 0x1_0000_0000_0000_0000_0000_0000_0000_0000 + limbs[3]
        * 0x1_0000_0000_0000_0000_0000_0000_0000_0000_0000_0000_0000_0000) as nat
}

impl View for U256 {
    type V = nat;

    open spec fn view(&self) -> nat {
        limbs_value(self.limbs@)
    }
}

impl U256 {
    /// The integer of a 64-bit value.
    pub fn from_u64(value: u64) -> (r: U256)
        ensures
            r@ == value,
            r.limbs@ == seq![value, 0, 0, 0],
    {
        U256 { limbs: [value, 0, 0, 0] }
    }
}

/// Whether `a` is greater than `b`.
///
/// `PartialOrd` on `U256` of `ruint`, which `alloy` re-exports: it orders the integers by value,
/// and `from_limbs` takes the limbs in the order of [`limbs_value`].
#[verifier::external_body]
pub(crate) fn is_greater(a: &U256, b: &U256) -> (r: bool)
    ensures
        r == (a@ > b@),
{
    thegraph_core::alloy::primitives::U256::from_limbs(a.limbs)
        > thegraph_core::alloy::primitives::U256::from_limbs(b.limbs)
}

} // verus!
