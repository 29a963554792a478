//! 128-bit integers carried as two 64-bit halves.
//!
//! The native 128-bit integers have no layout that every caller agrees on,
//! so at the boundary each one travels as a low half and a high half. The
//! low half always holds the 64 least significant bits; the high half holds
//! the rest, and for the signed type it carries the sign.

use vstd::prelude::*;

verus! {

/// The weight of the high half: 2^64.
pub open spec fn half_weight() -> int {
    0x1_0000_0000_0000_0000
}

/// An unsigned 128-bit integer as two halves.
#[derive(Clone, Copy, Debug, PartialEq, Eq, Structural)]
pub struct U128 {
    /// The 64 least significant bits.
    pub lo: u64,
    /// The 64 most significant bits.
    pub hi: u64,
}

/// A signed 128-bit integer as two halves, in two's complement.
#[derive(Clone, Copy, Debug, PartialEq, Eq, Structural)]
pub struct I128 {
    /// The 64 least significant bits.
    pub lo: u64,
    /// The 64 most significant bits; its sign is the sign of the value.
    pub hi: i64,
}

impl View for U128 {
    type V = int;

    /// The integer that the two halves stand for.
    open spec fn view(&self) -> int {
        self.lo as int + self.hi as int * half_weight()
    }
}

impl View for I128 {
    type V = int;

    /// The integer that the two halves stand for.
    open spec fn view(&self) -> int {
        self.lo as int + self.hi as int * half_weight()
    }
}

impl U128 {
    /// The halves of `value`.
    pub open spec fn split(value: u128) -> U128 {
        U128 {
            lo: (value as int % half_weight()) as u64,
            hi: (value as int / half_weight()) as u64,
        }
    }

    /// The native value of the halves.
    pub open spec fn join(self) -> u128 {
        self@ as u128
    }

    /// Splits a native value into its halves.
    pub fn from_native(value: u128) -> (r: U128)
        ensures
            r == U128::split(value),
            r@ == value as int,
    {
        let lo: u64 = (value % 0x1_0000_0000_0000_0000u128) as u64;
        let hi: u64 = (value / 0x1_0000_0000_0000_0000u128) as u64;
        U128 { lo, hi }
    }

    /// Joins the halves into the native value.
    pub fn to_native(self) -> (r: u128)
        ensures
            r == self.join(),
            r as int == self@,
    {
        (self.hi as u128) * 0x1_0000_0000_0000_0000u128 + (self.lo as u128)
    }
}

impl I128 {
    /// The halves of `value`.
    pub open spec fn split(value: i128) -> I128 {
        I128 {
            lo: (value as int % half_weight()) as u64,
            hi: (value as int / half_weight()) as i64,
        }
    }

    /// The native value of the halves.
    pub open spec fn join(self) -> i128 {
        self@ as i128
    }

    /// Splits a native value into its halves.
    pub fn from_native(value: i128) -> (r: I128)
        ensures
            r == I128::split(value),
            r@ == value as int,
    {
        let bits: u128 = #[verifier::truncate] (value as u128);
        let lo: u64 = (bits % 0x1_0000_0000_0000_0000u128) as u64;
        let upper: u64 = (bits / 0x1_0000_0000_0000_0000u128) as u64;
        let hi: i64 = #[verifier::truncate] (upper as i64);
        proof {
            assert(bits == value as u128);
            assert(upper == ((value as u128) / 0x1_0000_0000_0000_0000u128) as u64);
            assert(((value as u128) % 0x1_0000_0000_0000_0000u128) as u64 + ((((value as u128)
                / 0x1_0000_0000_0000_0000u128) as u64) as i64) * 0x1_0000_0000_0000_0000
                == value) by (bit_vector);
        }
        I128 { lo, hi }
    }

    /// Joins the halves into the native value.
    pub fn to_native(self) -> (r: i128)
        ensures
            r == self.join(),
            r as int == self@,
    {
        (self.hi as i128) * 0x1_0000_0000_0000_0000i128 + (self.lo as i128)
    }
}

/// The weight of byte `k` of a half: 256^k.
pub open spec fn byte_weight(k: int) -> int {
    if k == 0 {
        0x1
    } else if k == 1 {
        0x100
    } else if k == 2 {
        0x1_0000
    } else if k == 3 {
        0x100_0000
    } else if k == 4 {
        0x1_0000_0000
    } else if k == 5 {
        0x100_0000_0000
    } else if k == 6 {
        0x1_0000_0000_0000
    } else {
        0x100_0000_0000_0000
    }
}

/// Byte `k` of `half`, counted from the least significant.
pub open spec fn byte_of(half: u64, k: int) -> u8 {
    ((half as int / byte_weight(k)) % 256) as u8
}

/// The eight bytes of `half`, least significant first.
pub open spec fn half_bytes(half: u64) -> Seq<u8> {
    Seq::new(8, |k: int| byte_of(half, k))
}

/// The bits of a signed high half, read as an unsigned number.
pub open spec fn high_bits(hi: i64) -> u64 {
    if hi < 0 {
        (hi + half_weight()) as u64
    } else {
        hi as u64
    }
}

/// A half is the sum of its bytes, each at its weight.
proof fn lemma_half_is_sum_of_bytes(half: u64)
    by (bit_vector)
    ensures
        half == (half / 0x1) % 256 + ((half / 0x100) % 256) * 0x100 + ((half / 0x1_0000) % 256)
            * 0x1_0000 + ((half / 0x100_0000) % 256) * 0x100_0000 + ((half / 0x1_0000_0000) % 256)
            * 0x1_0000_0000 + ((half / 0x100_0000_0000) % 256) * 0x100_0000_0000 + ((half
            / 0x1_0000_0000_0000) % 256) * 0x1_0000_0000_0000 + ((half / 0x100_0000_0000_0000)
            % 256) * 0x100_0000_0000_0000,
{
}

/// Halves with the same bytes are the same half.
proof fn lemma_half_bytes_decide(a: u64, b: u64)
    requires
        half_bytes(a) == half_bytes(b),
    ensures
        a == b,
{
    lemma_half_is_sum_of_bytes(a);
    lemma_half_is_sum_of_bytes(b);
    assert forall|k: int| 0 <= k < 8 implies byte_of(a, k) == byte_of(b, k) by {
        assert(half_bytes(a)[k] == byte_of(a, k));
        assert(half_bytes(b)[k] == byte_of(b, k));
    }
    assert(byte_of(a, 0) == byte_of(b, 0));
    assert(byte_of(a, 1) == byte_of(b, 1));
    assert(byte_of(a, 2) == byte_of(b, 2));
    assert(byte_of(a, 3) == byte_of(b, 3));
    assert(byte_of(a, 4) == byte_of(b, 4));
    assert(byte_of(a, 5) == byte_of(b, 5));
    assert(byte_of(a, 6) == byte_of(b, 6));
    assert(byte_of(a, 7) == byte_of(b, 7));
}

/// The sum of eight bytes, each at its weight, has those bytes.
proof fn lemma_bytes_of_sum(b0: u8, b1: u8, b2: u8, b3: u8, b4: u8, b5: u8, b6: u8, b7: u8)
    by (bit_vector)
    ensures
        ({
            let sum = b0 + b1 * 0x100 + b2 * 0x1_0000 + b3 * 0x100_0000 + b4 * 0x1_0000_0000 + b5
                * 0x100_0000_0000 + b6 * 0x1_0000_0000_0000 + b7 * 0x100_0000_0000_0000;
            &&& sum <= 0xffff_ffff_ffff_ffff
            &&& (sum / 0x1) % 256 == b0
            &&& (sum / 0x100) % 256 == b1
            &&& (sum / 0x1_0000) % 256 == b2
            &&& (sum / 0x100_0000) % 256 == b3
            &&& (sum / 0x1_0000_0000) % 256 == b4
            &&& (sum / 0x100_0000_0000) % 256 == b5
            &&& (sum / 0x1_0000_0000_0000) % 256 == b6
            &&& (sum / 0x100_0000_0000_0000) % 256 == b7
        }),
{
}

/// Byte `k` of `half`.
fn byte_at(half: u64, k: usize) -> (r: u8)
    requires
        k < 8,
    ensures
        r == byte_of(half, k as int),
{
    let weight: u64 = if k == 0 {
        0x1
    } else if k == 1 {
        0x100
    } else if k == 2 {
        0x1_0000
    } else if k == 3 {
        0x100_0000
    } else if k == 4 {
        0x1_0000_0000
    } else if k == 5 {
        0x100_0000_0000
    } else if k == 6 {
        0x1_0000_0000_0000
    } else {
        0x100_0000_0000_0000
    };
    ((half / weight) % 256) as u8
}

/// The half whose bytes, least significant first, are the eight bytes of
/// `bytes` from `start` on.
fn half_from_bytes(bytes: &[u8; 16], start: usize) -> (r: u64)
    requires
        start == 0 || start == 8,
    ensures
        half_bytes(r) == bytes@.subrange(start as int, start + 8),
{
    let b0: u8 = bytes[start];
    let b1: u8 = bytes[start + 1];
    let b2: u8 = bytes[start + 2];
    let b3: u8 = bytes[start + 3];
    let b4: u8 = bytes[start + 4];
    let b5: u8 = bytes[start + 5];
    let b6: u8 = bytes[start + 6];
    let b7: u8 = bytes[start + 7];
    proof {
        lemma_bytes_of_sum(b0, b1, b2, b3, b4, b5, b6, b7);
    }
    let r: u64 = b0 as u64 + b1 as u64 * 0x100 + b2 as u64 * 0x1_0000 + b3 as u64 * 0x100_0000
        + b4 as u64 * 0x1_0000_0000 + b5 as u64 * 0x100_0000_0000 + b6 as u64
        * 0x1_0000_0000_0000 + b7 as u64 * 0x100_0000_0000_0000;
    assert(half_bytes(r) =~= bytes@.subrange(start as int, start + 8));
    r
}

/// The sixteen bytes of two halves, least significant first.
fn halves_to_bytes(lo: u64, hi: u64) -> (r: [u8; 16])
    ensures
        r@ == half_bytes(lo) + half_bytes(hi),
{
    let r: [u8; 16] = [
        byte_at(lo, 0),
        byte_at(lo, 1),
        byte_at(lo, 2),
        byte_at(lo, 3),
        byte_at(lo, 4),
        byte_at(lo, 5),
        byte_at(lo, 6),
        byte_at(lo, 7),
        byte_at(hi, 0),
        byte_at(hi, 1),
        byte_at(hi, 2),
        byte_at(hi, 3),
        byte_at(hi, 4),
        byte_at(hi, 5),
        byte_at(hi, 6),
        byte_at(hi, 7),
    ];
    assert(r@ =~= half_bytes(lo) + half_bytes(hi));
    r
}

impl U128 {
    /// The sixteen bytes of the value, least significant first, whatever
    /// the byte order of the machine.
    pub open spec fn le_bytes(self) -> Seq<u8> {
        half_bytes(self.lo) + half_bytes(self.hi)
    }

    /// Writes the value as sixteen bytes, least significant first.
    pub fn to_le_bytes(self) -> (r: [u8; 16])
        ensures
            r@ == self.le_bytes(),
    {
        halves_to_bytes(self.lo, self.hi)
    }

    /// Reads the value that sixteen bytes, least significant first, stand
    /// for.
    pub fn from_le_bytes(bytes: &[u8; 16]) -> (r: U128)
        ensures
            r.le_bytes() == bytes@,
    {
        let lo: u64 = half_from_bytes(bytes, 0);
        let hi: u64 = half_from_bytes(bytes, 8);
        assert(half_bytes(lo) + half_bytes(hi) =~= bytes@);
        U128 { lo, hi }
    }
}

impl I128 {
    /// The sixteen bytes of the value in two's complement, least
    /// significant first, whatever the byte order of the machine.
    pub open spec fn le_bytes(self) -> Seq<u8> {
        half_bytes(self.lo) + half_bytes(high_bits(self.hi))
    }

    /// Writes the value as sixteen bytes, least significant first.
    pub fn to_le_bytes(self) -> (r: [u8; 16])
        ensures
            r@ == self.le_bytes(),
    {
        let bits: u64 = if self.hi >= 0 {
            self.hi as u64
        } else {
            ((self.hi - i64::MIN) as u64) + 0x8000_0000_0000_0000
        };
        halves_to_bytes(self.lo, bits)
    }

    /// Reads the value that sixteen bytes, least significant first, stand
    /// for.
    pub fn from_le_bytes(bytes: &[u8; 16]) -> (r: I128)
        ensures
            r.le_bytes() == bytes@,
    {
        let lo: u64 = half_from_bytes(bytes, 0);
        let bits: u64 = half_from_bytes(bytes, 8);
        let hi: i64 = if bits <= 0x7fff_ffff_ffff_ffff {
            bits as i64
        } else {
            ((bits - 0x8000_0000_0000_0000) as i64) + i64::MIN
        };
        assert(high_bits(hi) == bits);
        assert(half_bytes(lo) + half_bytes(bits) =~= bytes@);
        I128 { lo, hi }
    }
}

/// No two values have the same sixteen bytes: a value written and read
/// again is the value, and bytes read and written again are the bytes.
pub proof fn lemma_le_bytes_decide(a: U128, b: U128, c: I128, d: I128)
    ensures
        a.le_bytes().len() == 16,
        c.le_bytes().len() == 16,
        a.le_bytes() == b.le_bytes() ==> a == b,
        c.le_bytes() == d.le_bytes() ==> c == d,
{
    if a.le_bytes() == b.le_bytes() {
        assert(half_bytes(a.lo) =~= a.le_bytes().subrange(0, 8));
        assert(half_bytes(b.lo) =~= b.le_bytes().subrange(0, 8));
        assert(half_bytes(a.hi) =~= a.le_bytes().subrange(8, 16));
        assert(half_bytes(b.hi) =~= b.le_bytes().subrange(8, 16));
        lemma_half_bytes_decide(a.lo, b.lo);
        lemma_half_bytes_decide(a.hi, b.hi);
    }
    if c.le_bytes() == d.le_bytes() {
        assert(half_bytes(c.lo) =~= c.le_bytes().subrange(0, 8));
        assert(half_bytes(d.lo) =~= d.le_bytes().subrange(0, 8));
        assert(half_bytes(high_bits(c.hi)) =~= c.le_bytes().subrange(8, 16));
        assert(half_bytes(high_bits(d.hi)) =~= d.le_bytes().subrange(8, 16));
        lemma_half_bytes_decide(c.lo, d.lo);
        lemma_half_bytes_decide(high_bits(c.hi), high_bits(d.hi));
    }
}

/// Every unsigned 128-bit value, from 0 to the largest, comes back
/// unchanged from its halves, and its halves stand for the value itself.
pub proof fn lemma_u128_round_trip(value: u128)
    ensures
        U128::split(value)@ == value as int,
        U128::split(value).join() == value,
{
}

/// Every pair of halves is the pair that its own value splits into: no two
/// pairs stand for the same value.
pub proof fn lemma_u128_halves_round_trip(halves: U128)
    ensures
        0 <= halves@ <= u128::MAX,
        U128::split(halves.join()) == halves,
{
}

/// Every signed 128-bit value, from the most negative to the most
/// positive, comes back unchanged from its halves, and its halves stand
/// for the value itself. The sign of the value is the sign of the high
/// half.
pub proof fn lemma_i128_round_trip(value: i128)
    ensures
        I128::split(value)@ == value as int,
        I128::split(value).join() == value,
        value < 0 <==> I128::split(value).hi < 0,
{
}

/// Every pair of halves is the pair that its own value splits into: no two
/// pairs stand for the same value.
pub proof fn lemma_i128_halves_round_trip(halves: I128)
    ensures
        i128::MIN <= halves@ <= i128::MAX,
        I128::split(halves.join()) == halves,
{
}

} // verus!
