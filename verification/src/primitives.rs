//! Fixed-width values that requests are made of.
//!
//! Each type holds its bytes or limbs directly and has a mathematical view:
//! an address and a hash are sequences of bytes, a 256-bit integer is a
//! natural number.

use vstd::prelude::*;
use vstd::arithmetic::div_mod::lemma_fundamental_div_mod_converse_mod;

verus! {

/// A 20-byte account address.
#[derive(Clone, Copy, Debug, PartialEq, Eq, Hash)]
pub struct Address {
    pub bytes: [u8; 20],
}

impl View for Address {
    type V = Seq<u8>;

    open spec fn view(&self) -> Seq<u8> {
        self.bytes@
    }
}

/// The twenty zero bytes.
pub open spec fn zero_address() -> Seq<u8> {
    Seq::new(20, |i: int| 0u8)
}

impl Address {
    /// The zero address.
    pub fn zero() -> (address: Address)
        ensures
            address@ == zero_address(),
    {
        let address = Address { bytes: [0u8; 20] };
        assert(address@ =~= zero_address());
        address
    }

    /// Reads an address from exactly twenty bytes.
    pub fn from_slice(src: &[u8]) -> (address: Address)
        requires
            src@.len() == 20,
        ensures
            address@ == src@,
    {
        let mut bytes = [0u8; 20];
        let mut i: usize = 0;
        while i < 20
            invariant
                i <= 20,
                src@.len() == 20,
                forall|j: int| 0 <= j < i ==> bytes@[j] == src@[j],
            decreases 20 - i,
        {
            bytes[i] = src[i];
            i += 1;
        }
        let address = Address { bytes };
        assert(address@ =~= src@);
        address
    }

    /// Whether every byte of the address is zero.
    pub fn is_zero(&self) -> (zero: bool)
        ensures
            zero <==> self@ == zero_address(),
    {
        let mut i: usize = 0;
        while i < 20
            invariant
                i <= 20,
                forall|j: int| 0 <= j < i ==> self.bytes@[j] == 0u8,
            decreases 20 - i,
        {
            if self.bytes[i] != 0 {
                assert(zero_address()[i as int] == 0u8);
                return false;
            }
            i += 1;
        }
        assert(self@ =~= zero_address());
        true
    }
}

/// The 32-byte hash that identifies a submitted transaction.
#[derive(Clone, Copy, Debug, PartialEq, Eq, Hash)]
pub struct TxHash {
    pub bytes: [u8; 32],
}

impl View for TxHash {
    type V = Seq<u8>;

    open spec fn view(&self) -> Seq<u8> {
        self.bytes@
    }
}

/// Where a transaction goes: to an existing account, or nowhere, which
/// creates a contract.
#[derive(Clone, Copy, Debug, PartialEq, Eq, Hash)]
pub enum TxKind {
    /// A contract creation.
    Create,
    /// A call to the account at this address.
    Call(Address),
}

/// Two to the power of 256, one more than the largest 256-bit integer.
pub open spec fn u256_modulus() -> nat {
    0x1_0000_0000_0000_0000_0000_0000_0000_0000_0000_0000_0000_0000_0000_0000_0000_0000nat
}

/// The number that four 64-bit limbs stand for, least significant limb
/// first: each limb counts two to the power of 64 times the one before it.
pub open spec fn limbs_value(limbs: Seq<u64>) -> nat {
    (limbs[0] + limbs[1] * 0x1_0000_0000_0000_0000int + limbs[2]
        * 0x1_0000_0000_0000_0000_0000_0000_0000_0000int + limbs[3]
        * 0x1_0000_0000_0000_0000_0000_0000_0000_0000_0000_0000_0000_0000int) as nat
}

/// An unsigned 256-bit integer, held as four 64-bit limbs with the least
/// significant first.
#[derive(Clone, Copy, Debug, PartialEq, Eq, Hash)]
pub struct U256 {
    pub limbs: [u64; 4],
}

impl View for U256 {
    type V = nat;

    open spec fn view(&self) -> nat {
        limbs_value(self.limbs@)
    }
}

impl U256 {
    /// The number zero.
    pub fn zero() -> (value: U256)
        ensures
            value@ == 0,
    {
        U256 { limbs: [0u64; 4] }
    }

    /// The integer with the given limbs, least significant first.
    pub fn from_limbs(limbs: [u64; 4]) -> (value: U256)
        ensures
            value.limbs == limbs,
            value@ == limbs_value(limbs@),
    {
        U256 { limbs }
    }

    /// The four limbs, least significant first.
    pub fn as_limbs(&self) -> (limbs: [u64; 4])
        ensures
            limbs == self.limbs,
    {
        self.limbs
    }

    /// Whether the integer is zero.
    pub fn is_zero(&self) -> (zero: bool)
        ensures
            zero <==> self@ == 0,
    {
        self.limbs[0] == 0 && self.limbs[1] == 0 && self.limbs[2] == 0 && self.limbs[3] == 0
    }

    /// The sum of two integers, reduced modulo two to the power of 256.
    pub fn wrapping_add(self, rhs: U256) -> (sum: U256)
        ensures
            sum@ == (self@ + rhs@) % u256_modulus(),
    {
        let s0: u128 = self.limbs[0] as u128 + rhs.limbs[0] as u128;
        let r0: u64 = (s0 % 0x1_0000_0000_0000_0000u128) as u64;
        let c0: u128 = s0 / 0x1_0000_0000_0000_0000u128;
        let s1: u128 = self.limbs[1] as u128 + rhs.limbs[1] as u128 + c0;
        let r1: u64 = (s1 % 0x1_0000_0000_0000_0000u128) as u64;
        let c1: u128 = s1 / 0x1_0000_0000_0000_0000u128;
        let s2: u128 = self.limbs[2] as u128 + rhs.limbs[2] as u128 + c1;
        let r2: u64 = (s2 % 0x1_0000_0000_0000_0000u128) as u64;
        let c2: u128 = s2 / 0x1_0000_0000_0000_0000u128;
        let s3: u128 = self.limbs[3] as u128 + rhs.limbs[3] as u128 + c2;
        let r3: u64 = (s3 % 0x1_0000_0000_0000_0000u128) as u64;
        let c3: u128 = s3 / 0x1_0000_0000_0000_0000u128;
        let sum = U256 { limbs: [r0, r1, r2, r3] };
        proof {
            let total = self@ + rhs@;
            assert(sum.limbs@[0] == r0 && sum.limbs@[1] == r1 && sum.limbs@[2] == r2
                && sum.limbs@[3] == r3);
            assert(c3 == 0 || c3 == 1);
            assert(total == c3 * u256_modulus() + sum@);
            lemma_fundamental_div_mod_converse_mod(
                total as int,
                u256_modulus() as int,
                c3 as int,
                sum@ as int,
            );
        }
        sum
    }

    /// The integer as a `u128`, where it fits.
    pub fn to_u128(&self) -> (narrow: Option<u128>)
        ensures
            narrow is Some <==> self@ <= u128::MAX,
            narrow is Some ==> narrow.unwrap() == self@,
    {
        if self.limbs[2] == 0 && self.limbs[3] == 0 {
            let high: u128 = self.limbs[1] as u128;
            let low: u128 = self.limbs[0] as u128;
            Some(high * 0x1_0000_0000_0000_0000u128 + low)
        } else {
            None
        }
    }

    /// The integer as a `u64`, where it fits.
    pub fn to_u64(&self) -> (narrow: Option<u64>)
        ensures
            narrow is Some <==> self@ <= u64::MAX,
            narrow is Some ==> narrow.unwrap() == self@,
    {
        if self.limbs[1] == 0 && self.limbs[2] == 0 && self.limbs[3] == 0 {
            Some(self.limbs[0])
        } else {
            None
        }
    }
}

impl From<u64> for U256 {
    fn from(value: u64) -> (wide: U256) {
        U256 { limbs: [value, 0, 0, 0] }
    }
}

impl vstd::std_specs::convert::FromSpecImpl<u64> for U256 {
    open spec fn obeys_from_spec() -> bool {
        true
    }

    open spec fn from_spec(value: u64) -> U256 {
        U256 { limbs: [value, 0, 0, 0] }
    }
}

/// The view of the integer made from a `u64` is that number.
pub proof fn lemma_from_u64(value: u64)
    ensures
        <U256 as vstd::std_specs::convert::FromSpec<u64>>::from_spec(value)@ == value,
{
}

} // verus!
