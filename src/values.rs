//! Plain value types of the wallet: account identities and 256-bit integers.
use vstd::prelude::*;

verus! {

/// Number of bytes in an account identity.
pub const ADDRESS_LEN: usize = 20;

/// The sequence of bytes of the zero identity, which marks "no owner".
pub open spec fn zero_bytes() -> Seq<u8> {
    Seq::new(ADDRESS_LEN as nat, |_i: int| 0u8)
}

/// A 20-byte account identity.
#[derive(Clone, Copy, Debug, PartialEq, Eq, Hash)]
pub struct Address {
    pub bytes: [u8; 20],
}

impl View for Address {
    type V = Seq<u8>;

    open spec fn view(&self) -> Seq<u8> {
        self.bytes@
    }
}

impl Address {
    /// The identity made of the given bytes.
    pub fn new(bytes: [u8; 20]) -> (r: Address)
        ensures
            r@ == bytes@,
    {
        Address { bytes }
    }

    /// The zero identity.
    pub fn zero() -> (r: Address)
        ensures
            r@ == zero_bytes(),
    {
        let r = Address { bytes: [0u8; 20] };
        assert(r@ =~= zero_bytes());
        r
    }

    /// Whether every byte of the identity is zero.
    pub fn is_zero(&self) -> (r: bool)
        ensures
            r == (self@ == zero_bytes()),
    {
        let mut i: usize = 0;
        while i < ADDRESS_LEN
            invariant
                0 <= i <= ADDRESS_LEN,
                self@.len() == ADDRESS_LEN,
                forall|j: int| 0 <= j < i ==> self@[j] == 0u8,
            decreases ADDRESS_LEN - i,
        {
            if self.bytes[i] != 0 {
                assert(self@[i as int] != zero_bytes()[i as int]);
                return false;
            }
            i = i + 1;
        }
        assert(self@ =~= zero_bytes());
        true
    }

    /// Whether the two identities hold the same bytes.
    pub fn same_as(&self, other: &Address) -> (r: bool)
        ensures
            r == (self@ == other@),
    {
        let mut i: usize = 0;
        while i < ADDRESS_LEN
            invariant
                0 <= i <= ADDRESS_LEN,
                self@.len() == ADDRESS_LEN,
                other@.len() == ADDRESS_LEN,
                forall|j: int| 0 <= j < i ==> self@[j] == other@[j],
            decreases ADDRESS_LEN - i,
        {
            if self.bytes[i] != other.bytes[i] {
                return false;
            }
            i = i + 1;
        }
        assert(self@ =~= other@);
        true
    }
}

/// The weight of the high half of a `U256`: 2 to the power 128.
pub open spec fn half_base() -> nat {
    u128::MAX as nat + 1
}

/// An unsigned 256-bit integer, held as its high and low 128-bit halves.
#[derive(Clone, Copy, Debug, PartialEq, Eq, Hash)]
pub struct U256 {
    pub hi: u128,
    pub lo: u128,
}

impl View for U256 {
    type V = nat;

    open spec fn view(&self) -> nat {
        self.hi as nat * half_base() + self.lo as nat
    }
}

/// A value of `hi * 2^128 + lo` is below the next multiple of `2^128`.
proof fn lemma_halves_order(a_hi: nat, a_lo: nat, b_hi: nat, b_lo: nat)
    requires
        a_hi < b_hi,
        a_lo < half_base(),
    ensures
        a_hi * half_base() + a_lo < b_hi * half_base() + b_lo,
{
    assert((a_hi + 1) * half_base() <= b_hi * half_base()) by (nonlinear_arith)
        requires
            a_hi + 1 <= b_hi,
    ;
    assert((a_hi + 1) * half_base() == a_hi * half_base() + half_base()) by (nonlinear_arith);
}

impl U256 {
    /// The integer zero.
    pub fn zero() -> (r: U256)
        ensures
            r@ == 0,
    {
        U256 { hi: 0, lo: 0 }
    }

    /// The integer `hi * 2^128 + lo`.
    pub fn from_halves(hi: u128, lo: u128) -> (r: U256)
        ensures
            r@ == hi as nat * half_base() + lo as nat,
    {
        U256 { hi, lo }
    }

    /// The integer `n`.
    pub fn from_u64(n: u64) -> (r: U256)
        ensures
            r@ == n as nat,
    {
        U256 { hi: 0, lo: n as u128 }
    }

    /// Whether the integer is zero.
    pub fn is_zero(&self) -> (r: bool)
        ensures
            r == (self@ == 0),
    {
        proof {
            if self.hi > 0 {
                lemma_halves_order(0, 0, self.hi as nat, self.lo as nat);
            } else {
                assert(0 * half_base() == 0);
            }
        }
        self.hi == 0 && self.lo == 0
    }

    /// Whether `self` is strictly less than `other`.
    pub fn lt(&self, other: &U256) -> (r: bool)
        ensures
            r == (self@ < other@),
    {
        if self.hi < other.hi {
            proof {
                lemma_halves_order(self.hi as nat, self.lo as nat, other.hi as nat, other.lo as nat);
            }
            true
        } else if self.hi > other.hi {
            proof {
                lemma_halves_order(other.hi as nat, other.lo as nat, self.hi as nat, self.lo as nat);
            }
            false
        } else {
            self.lo < other.lo
        }
    }

    /// Whether `self` is less than or equal to `other`.
    pub fn le(&self, other: &U256) -> (r: bool)
        ensures
            r == (self@ <= other@),
    {
        !other.lt(self)
    }
}

} // verus!
