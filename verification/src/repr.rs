//! Integer representations a `Duration` or `Instant` can store.
//!
//! Every operation states its result over `as_int`, the mathematical value
//! of the stored integer, so that the conversion engine and the arithmetic
//! wrappers can be proved once for all representations.

use vstd::prelude::*;

verus! {

/// An unsigned integer representation: a value in `0 ..= max_value()`.
pub trait Repr: Sized + Copy {
    /// The mathematical value stored.
    spec fn as_int(self) -> int;

    /// The largest value the representation can hold.
    spec fn max_value() -> int;

    /// Every value lies between zero and the maximum, and the maximum fits
    /// in 64 bits.
    proof fn lemma_in_range(self)
        ensures
            0 <= self.as_int() <= Self::max_value(),
            Self::max_value() <= u64::MAX as int,
    ;

    /// Widen into 64 bits; always exact.
    fn to_u64(self) -> (r: u64)
        ensures
            r as int == self.as_int(),
    ;

    /// Narrow from 64 bits; reports a value that does not fit.
    fn from_u64(v: u64) -> (r: Option<Self>)
        ensures
            match r {
                Some(x) => x.as_int() == v as int && v as int <= Self::max_value(),
                None => v as int > Self::max_value(),
            },
    ;

    /// Narrow from 64 bits, keeping the low bits: a wrapping cast.
    fn from_u64_wrapping(v: u64) -> (r: Self)
        ensures
            r.as_int() == v as int % (Self::max_value() + 1),
    ;

    /// The zero value.
    fn zero() -> (r: Self)
        ensures
            r.as_int() == 0,
    ;

    /// The largest value.
    fn max_val() -> (r: Self)
        ensures
            r.as_int() == Self::max_value(),
    ;

    /// Exact sum; the caller must rule overflow out.
    fn add(self, o: Self) -> (r: Self)
        requires
            self.as_int() + o.as_int() <= Self::max_value(),
        ensures
            r.as_int() == self.as_int() + o.as_int(),
    ;

    /// Exact difference; the caller must rule underflow out.
    fn sub(self, o: Self) -> (r: Self)
        requires
            o.as_int() <= self.as_int(),
        ensures
            r.as_int() == self.as_int() - o.as_int(),
    ;

    /// Exact product; the caller must rule overflow out.
    fn mul(self, o: Self) -> (r: Self)
        requires
            self.as_int() * o.as_int() <= Self::max_value(),
        ensures
            r.as_int() == self.as_int() * o.as_int(),
    ;

    /// Quotient, truncated toward zero.
    fn div(self, o: Self) -> (r: Self)
        requires
            o.as_int() > 0,
        ensures
            r.as_int() == self.as_int() / o.as_int(),
    ;

    /// Remainder of `div`.
    fn rem(self, o: Self) -> (r: Self)
        requires
            o.as_int() > 0,
        ensures
            r.as_int() == self.as_int() % o.as_int(),
    ;

    /// Sum, reporting overflow instead of wrapping.
    fn checked_add(self, o: Self) -> (r: Option<Self>)
        ensures
            match r {
                Some(x) => x.as_int() == self.as_int() + o.as_int(),
                None => self.as_int() + o.as_int() > Self::max_value(),
            },
    ;

    /// Product, reporting overflow instead of wrapping.
    fn checked_mul(self, o: Self) -> (r: Option<Self>)
        ensures
            match r {
                Some(x) => x.as_int() == self.as_int() * o.as_int(),
                None => self.as_int() * o.as_int() > Self::max_value(),
            },
    ;

    /// Sum, clamped to the maximum.
    fn saturating_add(self, o: Self) -> (r: Self)
        ensures
            r.as_int() == if self.as_int() + o.as_int() <= Self::max_value() {
                self.as_int() + o.as_int()
            } else {
                Self::max_value()
            },
    ;

    /// Difference, clamped to zero.
    fn saturating_sub(self, o: Self) -> (r: Self)
        ensures
            r.as_int() == if o.as_int() <= self.as_int() {
                self.as_int() - o.as_int()
            } else {
                0
            },
    ;
}

impl Repr for u8 {
    open spec fn as_int(self) -> int {
        self as int
    }

    open spec fn max_value() -> int {
        u8::MAX as int
    }

    proof fn lemma_in_range(self) {
    }

    fn to_u64(self) -> (r: u64) {
        self as u64
    }

    fn from_u64(v: u64) -> (r: Option<Self>) {
        if v <= u8::MAX as u64 {
            Some(v as u8)
        } else {
            None
        }
    }

    fn from_u64_wrapping(v: u64) -> (r: Self) {
        proof {
            assert(v as u8 == (v % 0x100) as u8) by (bit_vector);
        }
        #[verifier::truncate]
        (v as u8)
    }

    fn zero() -> (r: Self) {
        0
    }

    fn max_val() -> (r: Self) {
        u8::MAX
    }

    fn add(self, o: Self) -> (r: Self) {
        self + o
    }

    fn sub(self, o: Self) -> (r: Self) {
        self - o
    }

    fn mul(self, o: Self) -> (r: Self) {
        self * o
    }

    fn div(self, o: Self) -> (r: Self) {
        self / o
    }

    fn rem(self, o: Self) -> (r: Self) {
        self % o
    }

    fn checked_add(self, o: Self) -> (r: Option<Self>) {
        u8::checked_add(self, o)
    }

    fn checked_mul(self, o: Self) -> (r: Option<Self>) {
        u8::checked_mul(self, o)
    }

    fn saturating_add(self, o: Self) -> (r: Self) {
        u8::saturating_add(self, o)
    }

    fn saturating_sub(self, o: Self) -> (r: Self) {
        u8::saturating_sub(self, o)
    }
}

impl Repr for u16 {
    open spec fn as_int(self) -> int {
        self as int
    }

    open spec fn max_value() -> int {
        u16::MAX as int
    }

    proof fn lemma_in_range(self) {
    }

    fn to_u64(self) -> (r: u64) {
        self as u64
    }

    fn from_u64(v: u64) -> (r: Option<Self>) {
        if v <= u16::MAX as u64 {
            Some(v as u16)
        } else {
            None
        }
    }

    fn from_u64_wrapping(v: u64) -> (r: Self) {
        proof {
            assert(v as u16 == (v % 0x1_0000) as u16) by (bit_vector);
        }
        #[verifier::truncate]
        (v as u16)
    }

    fn zero() -> (r: Self) {
        0
    }

    fn max_val() -> (r: Self) {
        u16::MAX
    }

    fn add(self, o: Self) -> (r: Self) {
        self + o
    }

    fn sub(self, o: Self) -> (r: Self) {
        self - o
    }

    fn mul(self, o: Self) -> (r: Self) {
        self * o
    }

    fn div(self, o: Self) -> (r: Self) {
        self / o
    }

    fn rem(self, o: Self) -> (r: Self) {
        self % o
    }

    fn checked_add(self, o: Self) -> (r: Option<Self>) {
        u16::checked_add(self, o)
    }

    fn checked_mul(self, o: Self) -> (r: Option<Self>) {
        u16::checked_mul(self, o)
    }

    fn saturating_add(self, o: Self) -> (r: Self) {
        u16::saturating_add(self, o)
    }

    fn saturating_sub(self, o: Self) -> (r: Self) {
        u16::saturating_sub(self, o)
    }
}

impl Repr for u32 {
    open spec fn as_int(self) -> int {
        self as int
    }

    open spec fn max_value() -> int {
        u32::MAX as int
    }

    proof fn lemma_in_range(self) {
    }

    fn to_u64(self) -> (r: u64) {
        self as u64
    }

    fn from_u64(v: u64) -> (r: Option<Self>) {
        if v <= u32::MAX as u64 {
            Some(v as u32)
        } else {
            None
        }
    }

    fn from_u64_wrapping(v: u64) -> (r: Self) {
        proof {
            assert(v as u32 == (v % 0x1_0000_0000) as u32) by (bit_vector);
        }
        #[verifier::truncate]
        (v as u32)
    }

    fn zero() -> (r: Self) {
        0
    }

    fn max_val() -> (r: Self) {
        u32::MAX
    }

    fn add(self, o: Self) -> (r: Self) {
        self + o
    }

    fn sub(self, o: Self) -> (r: Self) {
        self - o
    }

    fn mul(self, o: Self) -> (r: Self) {
        self * o
    }

    fn div(self, o: Self) -> (r: Self) {
        self / o
    }

    fn rem(self, o: Self) -> (r: Self) {
        self % o
    }

    fn checked_add(self, o: Self) -> (r: Option<Self>) {
        u32::checked_add(self, o)
    }

    fn checked_mul(self, o: Self) -> (r: Option<Self>) {
        u32::checked_mul(self, o)
    }

    fn saturating_add(self, o: Self) -> (r: Self) {
        u32::saturating_add(self, o)
    }

    fn saturating_sub(self, o: Self) -> (r: Self) {
        u32::saturating_sub(self, o)
    }
}

impl Repr for u64 {
    open spec fn as_int(self) -> int {
        self as int
    }

    open spec fn max_value() -> int {
        u64::MAX as int
    }

    proof fn lemma_in_range(self) {
    }

    fn to_u64(self) -> (r: u64) {
        self
    }

    fn from_u64(v: u64) -> (r: Option<Self>) {
        Some(v)
    }

    fn from_u64_wrapping(v: u64) -> (r: Self) {
        proof {
            vstd::arithmetic::div_mod::lemma_small_mod(v as nat, 0x1_0000_0000_0000_0000);
        }
        v
    }

    fn zero() -> (r: Self) {
        0
    }

    fn max_val() -> (r: Self) {
        u64::MAX
    }

    fn add(self, o: Self) -> (r: Self) {
        self + o
    }

    fn sub(self, o: Self) -> (r: Self) {
        self - o
    }

    fn mul(self, o: Self) -> (r: Self) {
        self * o
    }

    fn div(self, o: Self) -> (r: Self) {
        self / o
    }

    fn rem(self, o: Self) -> (r: Self) {
        self % o
    }

    fn checked_add(self, o: Self) -> (r: Option<Self>) {
        u64::checked_add(self, o)
    }

    fn checked_mul(self, o: Self) -> (r: Option<Self>) {
        u64::checked_mul(self, o)
    }

    fn saturating_add(self, o: Self) -> (r: Self) {
        u64::saturating_add(self, o)
    }

    fn saturating_sub(self, o: Self) -> (r: Self) {
        u64::saturating_sub(self, o)
    }
}

} // verus!
