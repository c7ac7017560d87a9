//! The unit registry: marker types that carry a time unit's scale.
//!
//! A unit is a compile-time identity whose scale is an exact fraction of
//! seconds per tick (milliseconds have scale 1/1000, days 86400/1). Units
//! are never instantiated; they only parameterize `Duration`, `Instant`
//! and `Moment`, and feed the conversion-factor algebra below.

use vstd::prelude::*;

use crate::ratio::{lemma_reduced_unique, reduced_den, reduced_num, Ratio};

verus! {

/// A time unit: a zero-sized tag whose scale, in seconds per tick, is a
/// fixed positive fraction.
pub trait Unit {
    /// Numerator of the scale, in seconds per tick.
    spec fn scale_num() -> nat;

    /// Denominator of the scale.
    spec fn scale_den() -> nat;

    /// The scale is positive and fits the machine: no unit lasts zero
    /// seconds, and no denominator is zero.
    proof fn lemma_scale_wf()
        ensures
            0 < Self::scale_num() <= u64::MAX as nat,
            0 < Self::scale_den() <= u64::MAX as nat,
    ;

    /// The scale as a runtime fraction.
    fn scale() -> (r: Ratio)
        ensures
            r.num as nat == Self::scale_num(),
            r.den as nat == Self::scale_den(),
    ;
}

/// Numerator of `Scale(S) / Scale(D)` before reduction.
pub open spec fn raw_factor_num<S: Unit, D: Unit>() -> nat {
    S::scale_num() * D::scale_den()
}

/// Denominator of `Scale(S) / Scale(D)` before reduction.
pub open spec fn raw_factor_den<S: Unit, D: Unit>() -> nat {
    S::scale_den() * D::scale_num()
}

/// Numerator of the conversion factor from `S` to `D`, in lowest terms.
pub open spec fn factor_num<S: Unit, D: Unit>() -> nat {
    reduced_num(raw_factor_num::<S, D>(), raw_factor_den::<S, D>())
}

/// Denominator of the conversion factor from `S` to `D`, in lowest terms.
pub open spec fn factor_den<S: Unit, D: Unit>() -> nat {
    reduced_den(raw_factor_num::<S, D>(), raw_factor_den::<S, D>())
}

/// The conversion factor from `S` to `D`: how many `D`-ticks one `S`-tick
/// is worth, as a reduced fraction.
pub fn factor<S: Unit, D: Unit>() -> (r: Ratio)
    requires
        raw_factor_num::<S, D>() <= u64::MAX as nat,
        raw_factor_den::<S, D>() <= u64::MAX as nat,
    ensures
        r.is_reduced(),
        r.num as nat == factor_num::<S, D>(),
        r.den as nat == factor_den::<S, D>(),
{
    proof {
        S::lemma_scale_wf();
        D::lemma_scale_wf();
        assert(raw_factor_den::<S, D>() > 0) by (nonlinear_arith)
            requires
                S::scale_den() > 0,
                D::scale_num() > 0,
        ;
    }
    let s = S::scale();
    let d = D::scale();
    Ratio::new(s.num * d.den, s.den * d.num)
}

/// The reduced conversion factor is positive and names the same rational
/// number as the quotient of the two scales it came from.
pub proof fn lemma_factor_value<S: Unit, D: Unit>()
    ensures
        factor_num::<S, D>() > 0,
        factor_den::<S, D>() > 0,
        factor_num::<S, D>() * raw_factor_den::<S, D>() == raw_factor_num::<S, D>()
            * factor_den::<S, D>(),
{
    S::lemma_scale_wf();
    D::lemma_scale_wf();
    let rn = raw_factor_num::<S, D>();
    let rd = raw_factor_den::<S, D>();
    assert(rn > 0 && rd > 0) by (nonlinear_arith)
        requires
            rn == S::scale_num() * D::scale_den(),
            rd == S::scale_den() * D::scale_num(),
            S::scale_num() > 0,
            S::scale_den() > 0,
            D::scale_num() > 0,
            D::scale_den() > 0,
    ;
    crate::ratio::lemma_gcd_reduce(rn, rd);
    let g = crate::ratio::gcd_spec(rn, rd);
    let a = factor_num::<S, D>();
    let b = factor_den::<S, D>();
    assert(a > 0 && b > 0) by (nonlinear_arith)
        requires
            a * g == rn,
            b * g == rd,
            rn > 0,
            rd > 0,
    ;
    assert(a * rd == rn * b) by (nonlinear_arith)
        requires
            a * g == rn,
            b * g == rd,
            g > 0,
    ;
}

/// Two unit pairs whose scales stand in the same proportion share one
/// conversion factor: the reduced factor depends only on the rational
/// number `Scale(S) / Scale(D)`, not on how the scales are spelled. This
/// is what conversion correctness rests on — seconds to centiseconds uses
/// the factor 100/1 however "centiseconds" is written in the registry.
pub proof fn lemma_factor_canonical<S1: Unit, D1: Unit, S2: Unit, D2: Unit>()
    requires
        raw_factor_num::<S1, D1>() * raw_factor_den::<S2, D2>() == raw_factor_num::<S2, D2>()
            * raw_factor_den::<S1, D1>(),
    ensures
        factor_num::<S1, D1>() == factor_num::<S2, D2>(),
        factor_den::<S1, D1>() == factor_den::<S2, D2>(),
{
    S1::lemma_scale_wf();
    D1::lemma_scale_wf();
    S2::lemma_scale_wf();
    D2::lemma_scale_wf();
    assert(raw_factor_den::<S1, D1>() > 0) by (nonlinear_arith)
        requires
            S1::scale_den() > 0,
            D1::scale_num() > 0,
    ;
    assert(raw_factor_den::<S2, D2>() > 0) by (nonlinear_arith)
        requires
            S2::scale_den() > 0,
            D2::scale_num() > 0,
    ;
    lemma_reduced_unique(
        raw_factor_num::<S1, D1>(),
        raw_factor_den::<S1, D1>(),
        raw_factor_num::<S2, D2>(),
        raw_factor_den::<S2, D2>(),
    );
}

/// The number of `D`-ticks that `v` ticks of unit `S` are worth, truncated
/// toward zero. This is the literal-conversion path: "2 days in minutes"
/// is `lit::<Days, Minutes>(2) == 2880`, computed without ever building a
/// duration value.
pub fn lit<S: Unit, D: Unit>(v: u64) -> (r: u64)
    requires
        raw_factor_num::<S, D>() <= u64::MAX as nat,
        raw_factor_den::<S, D>() <= u64::MAX as nat,
        v as nat * raw_factor_num::<S, D>() / raw_factor_den::<S, D>() <= u64::MAX as nat,
    ensures
        r as int == v as int * raw_factor_num::<S, D>() as int / raw_factor_den::<S, D>() as int,
{
    proof {
        S::lemma_scale_wf();
        D::lemma_scale_wf();
        assert(raw_factor_den::<S, D>() > 0) by (nonlinear_arith)
            requires
                S::scale_den() > 0,
                D::scale_num() > 0,
        ;
    }
    let s = S::scale();
    let d = D::scale();
    let n: u64 = s.num * d.den;
    let dd: u64 = s.den * d.num;
    proof {
        vstd::arithmetic::mul::lemma_mul_upper_bound(
            v as int,
            u64::MAX as int,
            n as int,
            u64::MAX as int,
        );
    }
    let prod: u128 = (v as u128) * (n as u128);
    let res: u128 = prod / (dd as u128);
    res as u64
}

/// One day: 86400 seconds.
#[derive(Debug, Default, Copy, Clone, PartialOrd, Ord, PartialEq, Eq, Hash)]
pub struct Days;

impl Unit for Days {
    open spec fn scale_num() -> nat {
        86400
    }

    open spec fn scale_den() -> nat {
        1
    }

    proof fn lemma_scale_wf() {
    }

    fn scale() -> (r: Ratio) {
        Ratio { num: 86400, den: 1 }
    }
}

/// One hour: 3600 seconds.
#[derive(Debug, Default, Copy, Clone, PartialOrd, Ord, PartialEq, Eq, Hash)]
pub struct Hours;

impl Unit for Hours {
    open spec fn scale_num() -> nat {
        3600
    }

    open spec fn scale_den() -> nat {
        1
    }

    proof fn lemma_scale_wf() {
    }

    fn scale() -> (r: Ratio) {
        Ratio { num: 3600, den: 1 }
    }
}

/// One minute: 60 seconds.
#[derive(Debug, Default, Copy, Clone, PartialOrd, Ord, PartialEq, Eq, Hash)]
pub struct Minutes;

impl Unit for Minutes {
    open spec fn scale_num() -> nat {
        60
    }

    open spec fn scale_den() -> nat {
        1
    }

    proof fn lemma_scale_wf() {
    }

    fn scale() -> (r: Ratio) {
        Ratio { num: 60, den: 1 }
    }
}

/// The reference unit itself.
#[derive(Debug, Default, Copy, Clone, PartialOrd, Ord, PartialEq, Eq, Hash)]
pub struct Seconds;

impl Unit for Seconds {
    open spec fn scale_num() -> nat {
        1
    }

    open spec fn scale_den() -> nat {
        1
    }

    proof fn lemma_scale_wf() {
    }

    fn scale() -> (r: Ratio) {
        Ratio { num: 1, den: 1 }
    }
}

/// A tenth of a second.
#[derive(Debug, Default, Copy, Clone, PartialOrd, Ord, PartialEq, Eq, Hash)]
pub struct Deciseconds;

impl Unit for Deciseconds {
    open spec fn scale_num() -> nat {
        1
    }

    open spec fn scale_den() -> nat {
        10
    }

    proof fn lemma_scale_wf() {
    }

    fn scale() -> (r: Ratio) {
        Ratio { num: 1, den: 10 }
    }
}

/// A sixteenth of a second.
#[derive(Debug, Default, Copy, Clone, PartialOrd, Ord, PartialEq, Eq, Hash)]
pub struct Debiseconds;

impl Unit for Debiseconds {
    open spec fn scale_num() -> nat {
        1
    }

    open spec fn scale_den() -> nat {
        16
    }

    proof fn lemma_scale_wf() {
    }

    fn scale() -> (r: Ratio) {
        Ratio { num: 1, den: 16 }
    }
}

/// A sixty-fourth of a second.
#[derive(Debug, Default, Copy, Clone, PartialOrd, Ord, PartialEq, Eq, Hash)]
#[allow(non_camel_case_types)]
pub struct Cebiseconds_2;

impl Unit for Cebiseconds_2 {
    open spec fn scale_num() -> nat {
        1
    }

    open spec fn scale_den() -> nat {
        64
    }

    proof fn lemma_scale_wf() {
    }

    fn scale() -> (r: Ratio) {
        Ratio { num: 1, den: 64 }
    }
}

/// A hundredth of a second.
#[derive(Debug, Default, Copy, Clone, PartialOrd, Ord, PartialEq, Eq, Hash)]
pub struct Centiseconds;

impl Unit for Centiseconds {
    open spec fn scale_num() -> nat {
        1
    }

    open spec fn scale_den() -> nat {
        100
    }

    proof fn lemma_scale_wf() {
    }

    fn scale() -> (r: Ratio) {
        Ratio { num: 1, den: 100 }
    }
}

/// A hundred-twenty-eighth of a second.
#[derive(Debug, Default, Copy, Clone, PartialOrd, Ord, PartialEq, Eq, Hash)]
pub struct Cebiseconds;

impl Unit for Cebiseconds {
    open spec fn scale_num() -> nat {
        1
    }

    open spec fn scale_den() -> nat {
        128
    }

    proof fn lemma_scale_wf() {
    }

    fn scale() -> (r: Ratio) {
        Ratio { num: 1, den: 128 }
    }
}

/// A thousandth of a second.
#[derive(Debug, Default, Copy, Clone, PartialOrd, Ord, PartialEq, Eq, Hash)]
pub struct Milliseconds;

impl Unit for Milliseconds {
    open spec fn scale_num() -> nat {
        1
    }

    open spec fn scale_den() -> nat {
        1000
    }

    proof fn lemma_scale_wf() {
    }

    fn scale() -> (r: Ratio) {
        Ratio { num: 1, den: 1000 }
    }
}

/// A 1024th of a second.
#[derive(Debug, Default, Copy, Clone, PartialOrd, Ord, PartialEq, Eq, Hash)]
pub struct Mibiseconds;

impl Unit for Mibiseconds {
    open spec fn scale_num() -> nat {
        1
    }

    open spec fn scale_den() -> nat {
        1024
    }

    proof fn lemma_scale_wf() {
    }

    fn scale() -> (r: Ratio) {
        Ratio { num: 1, den: 1024 }
    }
}

/// A 32-bit fixed-point subdivision of a second: 1/2^32 seconds.
#[derive(Debug, Default, Copy, Clone, PartialOrd, Ord, PartialEq, Eq, Hash)]
pub struct Subseconds32;

impl Unit for Subseconds32 {
    open spec fn scale_num() -> nat {
        1
    }

    open spec fn scale_den() -> nat {
        4294967296
    }

    proof fn lemma_scale_wf() {
    }

    fn scale() -> (r: Ratio) {
        Ratio { num: 1, den: 4294967296 }
    }
}

} // verus!
