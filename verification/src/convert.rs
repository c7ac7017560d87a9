//! The runtime value converter.
//!
//! Given a stored integer in a source representation and a reduced
//! conversion factor `num / den`, this computes the equivalent integer in a
//! destination representation. The quotient and the remainder of the value
//! by `den` are carried separately, so that no intermediate product can
//! overflow where the final result fits; every step that can still
//! overflow or fail to narrow reports failure instead of wrapping.

use vstd::arithmetic::div_mod::{
    lemma_div_multiples_vanish, lemma_fundamental_div_mod, lemma_fundamental_div_mod_converse,
    lemma_mod_pos_bound,
};
use vstd::prelude::*;

use crate::ratio::Ratio;
use crate::repr::Repr;

verus! {

/// The value a conversion by the factor `num / den` produces.
///
/// An upscale or equal factor (`num >= den`) is exact up to the final
/// truncation: the result is the whole part of `v * num / den`. A pure
/// downscale (`num < den`) intentionally drops the sub-unit remainder
/// first and truncates toward zero: 90 seconds become 1 minute.
pub open spec fn convert_spec(v: int, num: int, den: int) -> int {
    if num >= den {
        (v * num) / den
    } else {
        (v / den) * num
    }
}

/// Whether every step of the conversion fits: the factor's parts narrow
/// into the representations they are used in, and no product or sum
/// exceeds the destination's range.
pub open spec fn convert_fits<SR: Repr, DR: Repr>(v: int, num: int, den: int) -> bool {
    &&& den <= SR::max_value()
    &&& num <= DR::max_value()
    &&& v / den <= DR::max_value()
    &&& (v / den) * num <= DR::max_value()
    &&& (num >= den ==> {
        &&& v % den <= DR::max_value()
        &&& (v % den) * num <= DR::max_value()
        &&& (v / den) * num + ((v % den) * num) / den <= DR::max_value()
    })
}

/// Splitting a value into quotient and remainder by `den` before scaling
/// loses nothing: the remainder's contribution carries the rest exactly.
proof fn lemma_split_exact(v: int, num: int, den: int)
    requires
        0 <= v,
        0 <= num,
        0 < den,
    ensures
        (v * num) / den == (v / den) * num + ((v % den) * num) / den,
{
    let q = v / den;
    let r = v % den;
    lemma_fundamental_div_mod(v, den);
    lemma_mod_pos_bound(v, den);
    let q2 = (r * num) / den;
    let r2 = (r * num) % den;
    lemma_fundamental_div_mod(r * num, den);
    lemma_mod_pos_bound(r * num, den);
    assert(v * num == (q * num + q2) * den + r2) by (nonlinear_arith)
        requires
            v == den * q + r,
            r * num == den * q2 + r2,
    ;
    lemma_fundamental_div_mod_converse(v * num, den, q * num + q2, r2);
}

/// Convert `value` by the factor `num / den`, exactly and without
/// overflow; a result that cannot be represented is reported, never
/// wrapped or truncated to a wrong value.
pub fn convert<SR: Repr, DR: Repr>(value: SR, factor: Ratio) -> (result: Option<DR>)
    requires
        factor.wf(),
    ensures
        ({
            let v = value.as_int();
            let n = factor.num as int;
            let d = factor.den as int;
            match result {
                Some(w) => convert_fits::<SR, DR>(v, n, d) && w.as_int() == convert_spec(v, n, d),
                None => !convert_fits::<SR, DR>(v, n, d),
            }
        }),
{
    proof {
        value.lemma_in_range();
    }
    let den_src = match SR::from_u64(factor.den) {
        Some(x) => x,
        None => {
            return None;
        },
    };
    let num_dst = match DR::from_u64(factor.num) {
        Some(x) => x,
        None => {
            return None;
        },
    };
    let quot = value.div(den_src);
    let quot_dst = match DR::from_u64(quot.to_u64()) {
        Some(x) => x,
        None => {
            return None;
        },
    };
    let partial = match quot_dst.checked_mul(num_dst) {
        Some(x) => x,
        None => {
            return None;
        },
    };
    if factor.num >= factor.den {
        let rem = value.rem(den_src);
        let rem_dst = match DR::from_u64(rem.to_u64()) {
            Some(x) => x,
            None => {
                return None;
            },
        };
        let rem_prod = match rem_dst.checked_mul(num_dst) {
            Some(x) => x,
            None => {
                return None;
            },
        };
        let den_dst = match DR::from_u64(factor.den) {
            Some(x) => x,
            None => vstd::pervasive::unreached(),
        };
        let correction = rem_prod.div(den_dst);
        let total = match partial.checked_add(correction) {
            Some(x) => x,
            None => {
                return None;
            },
        };
        proof {
            partial.lemma_in_range();
            rem_prod.lemma_in_range();
            total.lemma_in_range();
            lemma_split_exact(value.as_int(), factor.num as int, factor.den as int);
        }
        Some(total)
    } else {
        proof {
            partial.lemma_in_range();
        }
        Some(partial)
    }
}

/// A conversion and its inverse cancel whenever the forward step is exact,
/// that is, whenever `den` divides the value converted; in particular a
/// pure upscale (`den == 1`) always converts back to the original value.
pub proof fn lemma_convert_round_trip(v: int, num: int, den: int)
    requires
        0 <= v,
        0 < num,
        0 < den,
        v % den == 0,
    ensures
        convert_spec(convert_spec(v, num, den), den, num) == v,
{
    let k = v / den;
    lemma_fundamental_div_mod(v, den);
    assert(v == k * den) by (nonlinear_arith)
        requires
            v == den * k + v % den,
            v % den == 0,
    ;
    let w = convert_spec(v, num, den);
    if num >= den {
        assert(v * num == (k * num) * den) by (nonlinear_arith)
            requires
                v == k * den,
        ;
        assert(w == k * num) by {
            lemma_div_multiples_vanish(k * num, den);
            assert(den * (k * num) == (k * num) * den) by (nonlinear_arith);
        }
        if den < num {
            assert(w / num == k) by {
                lemma_div_multiples_vanish(k, num);
                assert(num * k == k * num) by (nonlinear_arith);
            }
            assert((w / num) * den == v) by (nonlinear_arith)
                requires
                    w / num == k,
                    v == k * den,
            ;
        } else {
            assert(w * den == v * num) by (nonlinear_arith)
                requires
                    w == k * num,
                    v == k * den,
                    num == den,
            ;
            assert((w * den) / num == w) by {
                lemma_div_multiples_vanish(w, num);
                assert(num * w == w * den) by (nonlinear_arith)
                    requires
                        num == den,
                ;
            }
        }
    } else {
        assert(w == k * num) by {
            lemma_div_multiples_vanish(k, den);
            assert(den * k == k * den) by (nonlinear_arith);
        }
        assert(w * den == (k * den) * num) by (nonlinear_arith)
            requires
                w == k * num,
        ;
        assert((w * den) / num == k * den) by {
            lemma_div_multiples_vanish(k * den, num);
            assert(num * (k * den) == (k * den) * num) by (nonlinear_arith);
        }
    }
}

} // verus!
