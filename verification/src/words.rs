//! Fixed-width words of the wire format: 32-byte hashes, 20-byte account
//! addresses and 256-bit unsigned integers, stored as big-endian limbs.

use vstd::prelude::*;
use crate::bytes::{
    u64_be, u64_from_be, u32_be, u32_from_be, lemma_u64_be_round_trip, lemma_u64_be_inverse,
    lemma_u32_be_round_trip, lemma_u32_be_inverse, push_u64_be, push_u32_be, read_u64_be,
    read_u32_be,
};

verus! {

/// A 32-byte value (a message or bundle hash), most significant limb first.
#[derive(Clone, Copy, PartialEq, Eq, Structural, Debug)]
pub struct B256 {
    pub w0: u64,
    pub w1: u64,
    pub w2: u64,
    pub w3: u64,
}

/// A 20-byte account address, split big-endian into 8 + 8 + 4 bytes.
#[derive(Clone, Copy, PartialEq, Eq, Structural, Debug)]
pub struct Address {
    pub a0: u64,
    pub a1: u64,
    pub a2: u32,
}

/// A 256-bit unsigned integer, most significant limb first.
#[derive(Clone, Copy, PartialEq, Eq, Structural, Debug)]
pub struct U256 {
    pub w0: u64,
    pub w1: u64,
    pub w2: u64,
    pub w3: u64,
}

impl B256 {
    /// The 32-byte big-endian image.
    pub open spec fn as_bytes(self) -> Seq<u8> {
        u64_be(self.w0) + u64_be(self.w1) + u64_be(self.w2) + u64_be(self.w3)
    }

    /// The value stored in a 32-byte big-endian word.
    pub open spec fn of_word(s: Seq<u8>) -> B256 {
        B256 {
            w0: u64_from_be(s.subrange(0, 8)),
            w1: u64_from_be(s.subrange(8, 16)),
            w2: u64_from_be(s.subrange(16, 24)),
            w3: u64_from_be(s.subrange(24, 32)),
        }
    }

    pub open spec fn spec_is_zero(self) -> bool {
        self.w0 == 0 && self.w1 == 0 && self.w2 == 0 && self.w3 == 0
    }

    pub fn zero() -> (r: B256)
        ensures
            r.spec_is_zero(),
    {
        B256 { w0: 0, w1: 0, w2: 0, w3: 0 }
    }

    /// True exactly when every byte of the value is zero.
    pub fn is_zero(&self) -> (r: bool)
        ensures
            r == self.spec_is_zero(),
    {
        self.w0 == 0 && self.w1 == 0 && self.w2 == 0 && self.w3 == 0
    }

    /// Appends the 32-byte image to `out`.
    pub fn push_to(&self, out: &mut Vec<u8>)
        ensures
            final(out)@ == old(out)@ + self.as_bytes(),
    {
        push_u64_be(out, self.w0);
        push_u64_be(out, self.w1);
        push_u64_be(out, self.w2);
        push_u64_be(out, self.w3);
        assert(out@ =~= old(out)@ + self.as_bytes());
    }

    /// Reads the 32-byte value stored at `v[offset..offset + 32]`.
    pub fn read_from(v: &Vec<u8>, offset: usize) -> (r: B256)
        requires
            offset + 32 <= v@.len(),
        ensures
            r.as_bytes() == v@.subrange(offset as int, offset + 32),
            r == B256::of_word(v@.subrange(offset as int, offset + 32)),
    {
        let n = v.len();
        assert(offset + 32 <= n);
        let r = B256 {
            w0: read_u64_be(v, offset),
            w1: read_u64_be(v, offset + 8),
            w2: read_u64_be(v, offset + 16),
            w3: read_u64_be(v, offset + 24),
        };
        proof {
            lemma_u64_be_inverse(v@.subrange(offset as int, offset + 8));
            lemma_u64_be_inverse(v@.subrange(offset + 8, offset + 16));
            lemma_u64_be_inverse(v@.subrange(offset + 16, offset + 24));
            lemma_u64_be_inverse(v@.subrange(offset + 24, offset + 32));
            assert(r.as_bytes() =~= v@.subrange(offset as int, offset + 32));
            let w = v@.subrange(offset as int, offset + 32);
            assert(w.subrange(0, 8) =~= v@.subrange(offset as int, offset + 8));
            assert(w.subrange(8, 16) =~= v@.subrange(offset + 8, offset + 16));
            assert(w.subrange(16, 24) =~= v@.subrange(offset + 16, offset + 24));
            assert(w.subrange(24, 32) =~= v@.subrange(offset + 24, offset + 32));
        }
        r
    }
}

impl Address {
    /// The 20-byte big-endian image.
    pub open spec fn as_bytes(self) -> Seq<u8> {
        u64_be(self.a0) + u64_be(self.a1) + u32_be(self.a2)
    }

    /// The address stored in 20 big-endian bytes.
    pub open spec fn of_slice(s: Seq<u8>) -> Address {
        Address {
            a0: u64_from_be(s.subrange(0, 8)),
            a1: u64_from_be(s.subrange(8, 16)),
            a2: u32_from_be(s.subrange(16, 20)),
        }
    }

    pub fn zero() -> (r: Address)
        ensures
            r == (Address { a0: 0u64, a1: 0u64, a2: 0u32 }),
    {
        Address { a0: 0, a1: 0, a2: 0 }
    }

    /// Appends the 20-byte image to `out`.
    pub fn push_to(&self, out: &mut Vec<u8>)
        ensures
            final(out)@ == old(out)@ + self.as_bytes(),
    {
        push_u64_be(out, self.a0);
        push_u64_be(out, self.a1);
        push_u32_be(out, self.a2);
        assert(out@ =~= old(out)@ + self.as_bytes());
    }

    /// Reads the 20-byte address stored at `v[offset..offset + 20]`.
    pub fn read_from(v: &Vec<u8>, offset: usize) -> (r: Address)
        requires
            offset + 20 <= v@.len(),
        ensures
            r.as_bytes() == v@.subrange(offset as int, offset + 20),
            r == Address::of_slice(v@.subrange(offset as int, offset + 20)),
    {
        let n = v.len();
        assert(offset + 20 <= n);
        let r = Address {
            a0: read_u64_be(v, offset),
            a1: read_u64_be(v, offset + 8),
            a2: read_u32_be(v, offset + 16),
        };
        proof {
            lemma_u64_be_inverse(v@.subrange(offset as int, offset + 8));
            lemma_u64_be_inverse(v@.subrange(offset + 8, offset + 16));
            lemma_u32_be_inverse(v@.subrange(offset + 16, offset + 20));
            assert(r.as_bytes() =~= v@.subrange(offset as int, offset + 20));
            let w = v@.subrange(offset as int, offset + 20);
            assert(w.subrange(0, 8) =~= v@.subrange(offset as int, offset + 8));
            assert(w.subrange(8, 16) =~= v@.subrange(offset + 8, offset + 16));
            assert(w.subrange(16, 20) =~= v@.subrange(offset + 16, offset + 20));
        }
        r
    }

    /// The byte image determines the value.
    pub proof fn lemma_as_bytes_injective(a: Address, b: Address)
        requires
            a.as_bytes() == b.as_bytes(),
        ensures
            a == b,
    {
        lemma_u64_be_round_trip(a.a0);
        lemma_u64_be_round_trip(a.a1);
        lemma_u32_be_round_trip(a.a2);
        lemma_u64_be_round_trip(b.a0);
        lemma_u64_be_round_trip(b.a1);
        lemma_u32_be_round_trip(b.a2);
        assert(u64_be(a.a0) =~= a.as_bytes().subrange(0, 8));
        assert(u64_be(a.a1) =~= a.as_bytes().subrange(8, 16));
        assert(u32_be(a.a2) =~= a.as_bytes().subrange(16, 20));
        assert(u64_be(b.a0) =~= b.as_bytes().subrange(0, 8));
        assert(u64_be(b.a1) =~= b.as_bytes().subrange(8, 16));
        assert(u32_be(b.a2) =~= b.as_bytes().subrange(16, 20));
    }
}

impl U256 {
    /// The 32-byte big-endian image.
    pub open spec fn as_bytes(self) -> Seq<u8> {
        u64_be(self.w0) + u64_be(self.w1) + u64_be(self.w2) + u64_be(self.w3)
    }

    /// The value stored in a 32-byte big-endian word.
    pub open spec fn of_word(s: Seq<u8>) -> U256 {
        U256 {
            w0: u64_from_be(s.subrange(0, 8)),
            w1: u64_from_be(s.subrange(8, 16)),
            w2: u64_from_be(s.subrange(16, 24)),
            w3: u64_from_be(s.subrange(24, 32)),
        }
    }

    /// The numeric value.
    pub open spec fn as_nat(self) -> nat {
        ((((self.w0 as nat) * 0x1_0000_0000_0000_0000 + self.w1 as nat) * 0x1_0000_0000_0000_0000
            + self.w2 as nat) * 0x1_0000_0000_0000_0000 + self.w3 as nat) as nat
    }

    pub open spec fn spec_is_zero(self) -> bool {
        self.w0 == 0 && self.w1 == 0 && self.w2 == 0 && self.w3 == 0
    }

    pub fn zero() -> (r: U256)
        ensures
            r.spec_is_zero(),
            r.as_nat() == 0,
    {
        U256 { w0: 0, w1: 0, w2: 0, w3: 0 }
    }

    pub fn is_zero(&self) -> (r: bool)
        ensures
            r == self.spec_is_zero(),
    {
        self.w0 == 0 && self.w1 == 0 && self.w2 == 0 && self.w3 == 0
    }

    /// The value of a single `u64`.
    pub fn from_u64(x: u64) -> (r: U256)
        ensures
            r.as_nat() == x,
    {
        U256 { w0: 0, w1: 0, w2: 0, w3: x }
    }

    /// The value of a `u128`.
    pub fn from_u128(x: u128) -> (r: U256)
        ensures
            r.as_nat() == x,
    {
        let hi: u64 = (x >> 64) as u64;
        let lo: u64 = (x & 0xffff_ffff_ffff_ffff) as u64;
        proof {
            assert(((x >> 64) as u64) as u128 * 0x1_0000_0000_0000_0000 + ((x
                & 0xffff_ffff_ffff_ffff) as u64) as u128 == x) by (bit_vector);
        }
        U256 { w0: 0, w1: 0, w2: hi, w3: lo }
    }

    /// The `u64` value, where the value fits; `None` exactly otherwise.
    pub fn try_to_u64(&self) -> (r: Option<u64>)
        ensures
            match r {
                Some(x) => self.as_nat() == x,
                None => self.as_nat() > u64::MAX,
            },
    {
        if self.w0 == 0 && self.w1 == 0 && self.w2 == 0 {
            Some(self.w3)
        } else {
            proof {
                self.lemma_limb_bound();
            }
            None
        }
    }

    /// A value with a non-zero upper limb exceeds `u64::MAX`.
    pub proof fn lemma_limb_bound(self)
        requires
            self.w0 != 0 || self.w1 != 0 || self.w2 != 0,
        ensures
            self.as_nat() > u64::MAX,
    {
        assert(self.as_nat() >= ((self.w0 as nat) * 0x1_0000_0000_0000_0000 + self.w1 as nat)
            * 0x1_0000_0000_0000_0000 + self.w2 as nat) by (nonlinear_arith);
        if self.w0 != 0 || self.w1 != 0 {
            assert((self.w0 as nat) * 0x1_0000_0000_0000_0000 + self.w1 as nat >= 1);
            assert(self.as_nat() >= 0x1_0000_0000_0000_0000) by (nonlinear_arith)
                requires
                    self.as_nat() >= ((self.w0 as nat) * 0x1_0000_0000_0000_0000 + self.w1
                        as nat) * 0x1_0000_0000_0000_0000 + self.w2 as nat,
                    (self.w0 as nat) * 0x1_0000_0000_0000_0000 + self.w1 as nat >= 1,
            ;
        } else {
            assert(self.as_nat() >= (self.w2 as nat) * 0x1_0000_0000_0000_0000
                + self.w3 as nat) by (nonlinear_arith);
            assert((self.w2 as nat) * 0x1_0000_0000_0000_0000 >= 0x1_0000_0000_0000_0000)
                by (nonlinear_arith)
                requires
                    self.w2 >= 1,
            ;
        }
    }

    /// Numeric comparison: true exactly when `self` is below `other`.
    pub fn lt(&self, other: &U256) -> (r: bool)
        ensures
            r == (self.as_nat() < other.as_nat()),
    {
        proof {
            lemma_lex_le(*self, *other);
            lemma_lex_le(*other, *self);
        }
        if self.w0 != other.w0 {
            self.w0 < other.w0
        } else if self.w1 != other.w1 {
            self.w1 < other.w1
        } else if self.w2 != other.w2 {
            self.w2 < other.w2
        } else {
            self.w3 < other.w3
        }
    }

    /// Appends the 32-byte image to `out`.
    pub fn push_to(&self, out: &mut Vec<u8>)
        ensures
            final(out)@ == old(out)@ + self.as_bytes(),
    {
        push_u64_be(out, self.w0);
        push_u64_be(out, self.w1);
        push_u64_be(out, self.w2);
        push_u64_be(out, self.w3);
        assert(out@ =~= old(out)@ + self.as_bytes());
    }

    /// Reads the 256-bit value stored at `v[offset..offset + 32]`.
    pub fn read_from(v: &Vec<u8>, offset: usize) -> (r: U256)
        requires
            offset + 32 <= v@.len(),
        ensures
            r.as_bytes() == v@.subrange(offset as int, offset + 32),
            r == U256::of_word(v@.subrange(offset as int, offset + 32)),
    {
        let n = v.len();
        assert(offset + 32 <= n);
        let r = U256 {
            w0: read_u64_be(v, offset),
            w1: read_u64_be(v, offset + 8),
            w2: read_u64_be(v, offset + 16),
            w3: read_u64_be(v, offset + 24),
        };
        proof {
            lemma_u64_be_inverse(v@.subrange(offset as int, offset + 8));
            lemma_u64_be_inverse(v@.subrange(offset + 8, offset + 16));
            lemma_u64_be_inverse(v@.subrange(offset + 16, offset + 24));
            lemma_u64_be_inverse(v@.subrange(offset + 24, offset + 32));
            assert(r.as_bytes() =~= v@.subrange(offset as int, offset + 32));
            let w = v@.subrange(offset as int, offset + 32);
            assert(w.subrange(0, 8) =~= v@.subrange(offset as int, offset + 8));
            assert(w.subrange(8, 16) =~= v@.subrange(offset + 8, offset + 16));
            assert(w.subrange(16, 24) =~= v@.subrange(offset + 16, offset + 24));
            assert(w.subrange(24, 32) =~= v@.subrange(offset + 24, offset + 32));
        }
        r
    }

    /// The byte image determines the value.
    pub proof fn lemma_as_bytes_injective(a: U256, b: U256)
        requires
            a.as_bytes() == b.as_bytes(),
        ensures
            a == b,
    {
        lemma_u64_be_round_trip(a.w0);
        lemma_u64_be_round_trip(a.w1);
        lemma_u64_be_round_trip(a.w2);
        lemma_u64_be_round_trip(a.w3);
        lemma_u64_be_round_trip(b.w0);
        lemma_u64_be_round_trip(b.w1);
        lemma_u64_be_round_trip(b.w2);
        lemma_u64_be_round_trip(b.w3);
        assert(u64_be(a.w0) =~= a.as_bytes().subrange(0, 8));
        assert(u64_be(a.w1) =~= a.as_bytes().subrange(8, 16));
        assert(u64_be(a.w2) =~= a.as_bytes().subrange(16, 24));
        assert(u64_be(a.w3) =~= a.as_bytes().subrange(24, 32));
        assert(u64_be(b.w0) =~= b.as_bytes().subrange(0, 8));
        assert(u64_be(b.w1) =~= b.as_bytes().subrange(8, 16));
        assert(u64_be(b.w2) =~= b.as_bytes().subrange(16, 24));
        assert(u64_be(b.w3) =~= b.as_bytes().subrange(24, 32));
    }

    /// Divides by ten: returns the quotient and the last decimal digit.
    pub fn div_mod_10(&self) -> (r: (U256, u8))
        ensures
            r.0.as_nat() * 10 + r.1 == self.as_nat(),
            r.1 < 10,
            self.as_nat() > 0 ==> r.0.as_nat() < self.as_nat(),
    {
        let mut rem: u64 = 0;
        let (q0, r0) = div_step(rem, self.w0);
        rem = r0;
        let (q1, r1) = div_step(rem, self.w1);
        rem = r1;
        let (q2, r2) = div_step(rem, self.w2);
        rem = r2;
        let (q3, r3) = div_step(rem, self.w3);
        let q = U256 { w0: q0, w1: q1, w2: q2, w3: q3 };
        proof {
            let b: nat = 0x1_0000_0000_0000_0000;
            let n0: nat = self.w0 as nat;
            let n1: nat = (n0 * b + self.w1 as nat) as nat;
            let n2: nat = (n1 * b + self.w2 as nat) as nat;
            let n3: nat = (n2 * b + self.w3 as nat) as nat;
            assert(self.as_nat() == n3);
            let m0: nat = q0 as nat;
            let m1: nat = (m0 * b + q1 as nat) as nat;
            let m2: nat = (m1 * b + q2 as nat) as nat;
            let m3: nat = (m2 * b + q3 as nat) as nat;
            assert(q.as_nat() == m3);
            assert(n0 == m0 * 10 + r0);
            assert(n1 == m1 * 10 + r1) by (nonlinear_arith)
                requires
                    n0 == m0 * 10 + r0,
                    n1 == n0 * b + self.w1 as nat,
                    b * (r0 as nat) + self.w1 as nat == (q1 as nat) * 10 + r1,
                    m1 == m0 * b + q1 as nat,
            ;
            assert(n2 == m2 * 10 + r2) by (nonlinear_arith)
                requires
                    n1 == m1 * 10 + r1,
                    n2 == n1 * b + self.w2 as nat,
                    b * (r1 as nat) + self.w2 as nat == (q2 as nat) * 10 + r2,
                    m2 == m1 * b + q2 as nat,
            ;
            assert(n3 == m3 * 10 + r3) by (nonlinear_arith)
                requires
                    n2 == m2 * 10 + r2,
                    n3 == n2 * b + self.w3 as nat,
                    b * (r2 as nat) + self.w3 as nat == (q3 as nat) * 10 + r3,
                    m3 == m2 * b + q3 as nat,
            ;
            if self.as_nat() > 0 {
                assert(q.as_nat() < self.as_nat()) by (nonlinear_arith)
                    requires
                        q.as_nat() * 10 + r3 == self.as_nat(),
                        r3 < 10,
                        self.as_nat() > 0,
                ;
            }
        }
        (q, r3 as u8)
    }
}

/// One limb of the long division: divides `rem * 2^64 + limb` by ten.
fn div_step(rem: u64, limb: u64) -> (r: (u64, u64))
    requires
        rem < 10,
    ensures
        0x1_0000_0000_0000_0000 * (rem as nat) + (limb as nat) == (r.0 as nat) * 10 + (
        r.1 as nat),
        r.1 < 10,
{
    let cur: u128 = ((rem as u128) << 64) | (limb as u128);
    proof {
        assert(((rem as u128) << 64) | (limb as u128) == (rem as u128) * 0x1_0000_0000_0000_0000
            + (limb as u128)) by (bit_vector)
            requires
                rem < 10u64,
        ;
    }
    let q: u128 = cur / 10;
    let r: u128 = cur % 10;
    proof {
        assert(q * 10 + r == cur);
        assert(q < 0x1_0000_0000_0000_0000) by (nonlinear_arith)
            requires
                q * 10 + r == cur,
                r < 10,
                cur < 10 * 0x1_0000_0000_0000_0000,
        ;
    }
    (q as u64, r as u64)
}

/// Lexicographic order on the limbs agrees with numeric order.
proof fn lemma_lex_le(a: U256, b: U256)
    ensures
        (a.w0 < b.w0 || (a.w0 == b.w0 && a.w1 < b.w1) || (a.w0 == b.w0 && a.w1 == b.w1 && a.w2
            < b.w2) || (a.w0 == b.w0 && a.w1 == b.w1 && a.w2 == b.w2 && a.w3 < b.w3))
            ==> a.as_nat() < b.as_nat(),
{
    let p: nat = 0x1_0000_0000_0000_0000;
    let ah: nat = ((a.w0 as nat) * p + a.w1 as nat) as nat;
    let bh: nat = ((b.w0 as nat) * p + b.w1 as nat) as nat;
    let ah2: nat = (ah * p + a.w2 as nat) as nat;
    let bh2: nat = (bh * p + b.w2 as nat) as nat;
    if a.w0 < b.w0 {
        assert(ah < bh) by (nonlinear_arith)
            requires
                ah == (a.w0 as nat) * p + a.w1 as nat,
                bh == (b.w0 as nat) * p + b.w1 as nat,
                a.w0 < b.w0,
                a.w1 < p,
                p > 0,
        ;
    }
    if ah < bh {
        assert(ah2 < bh2) by (nonlinear_arith)
            requires
                ah2 == ah * p + a.w2 as nat,
                bh2 == bh * p + b.w2 as nat,
                ah < bh,
                a.w2 < p,
                p > 0,
        ;
    }
    if ah2 < bh2 {
        assert(ah2 * p + (a.w3 as nat) < bh2 * p + (b.w3 as nat)) by (nonlinear_arith)
            requires
                ah2 < bh2,
                a.w3 < p,
                p > 0,
        ;
    }
}

} // verus!
