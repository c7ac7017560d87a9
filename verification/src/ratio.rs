//! Exact rational numbers and the greatest-common-divisor engine that keeps
//! them in lowest terms.

use vstd::prelude::*;

verus! {

/// Greatest common divisor, defined by Euclid's recursion.
///
/// `gcd_spec(a, 0) == a` and `gcd_spec(0, b) == b`.
pub open spec fn gcd_spec(a: nat, b: nat) -> nat
    decreases b,
{
    if b == 0 {
        a
    } else {
        gcd_spec(b, a % b)
    }
}

/// `d` divides `n`: some whole number of copies of `d` makes `n`.
pub open spec fn divides(d: nat, n: nat) -> bool {
    exists|k: nat| n == #[trigger] (k * d)
}

/// Nothing but 0 is a multiple of 0.
proof fn lemma_divides_zero(n: nat)
    requires
        divides(0, n),
    ensures
        n == 0,
{
    let k = choose|k: nat| n == #[trigger] (k * 0);
}

/// A divisor of a positive number is positive and no larger than it.
proof fn lemma_divides_le(d: nat, n: nat)
    requires
        divides(d, n),
        n > 0,
    ensures
        0 < d <= n,
{
    let k = choose|k: nat| n == #[trigger] (k * d);
    assert(0 < d <= n) by (nonlinear_arith)
        requires
            n == k * d,
            n > 0,
    ;
}

/// The greatest common divisor divides both of its arguments.
pub proof fn lemma_gcd_divides(a: nat, b: nat)
    ensures
        divides(gcd_spec(a, b), a),
        divides(gcd_spec(a, b), b),
    decreases b,
{
    if b == 0 {
        assert(a == 1 * a);
        assert(0 == 0 * a);
    } else {
        let g = gcd_spec(b, a % b);
        lemma_gcd_divides(b, a % b);
        let k1 = choose|k: nat| b == #[trigger] (k * g);
        let k2 = choose|k: nat| (a % b) == #[trigger] (k * g);
        let q = a / b;
        assert(a == b * q + a % b) by {
            vstd::arithmetic::div_mod::lemma_fundamental_div_mod(a as int, b as int);
        }
        assert(a == (q * k1 + k2) * g) by (nonlinear_arith)
            requires
                a == b * q + a % b,
                b == k1 * g,
                a % b == k2 * g,
        ;
    }
}

/// Every common divisor of `a` and `b` divides their greatest common divisor.
pub proof fn lemma_divides_gcd(a: nat, b: nat, c: nat)
    requires
        divides(c, a),
        divides(c, b),
    ensures
        divides(c, gcd_spec(a, b)),
    decreases b,
{
    if b != 0 {
        if c == 0 {
            lemma_divides_zero(b);
        }
        let ka = choose|k: nat| a == #[trigger] (k * c);
        let kb = choose|k: nat| b == #[trigger] (k * c);
        let q = a / b;
        assert(a == b * q + a % b) by {
            vstd::arithmetic::div_mod::lemma_fundamental_div_mod(a as int, b as int);
        }
        assert(ka >= q * kb) by (nonlinear_arith)
            requires
                a == b * q + a % b,
                a == ka * c,
                b == kb * c,
                c > 0,
                a % b >= 0,
        ;
        let m = q * kb;
        assert(b * q == m * c) by (nonlinear_arith)
            requires
                b == kb * c,
                m == q * kb,
        ;
        assert(a % b == ka * c - m * c);
        let kr = (ka - m) as nat;
        assert(kr * c == ka * c - m * c) by (nonlinear_arith)
            requires
                kr == ka - m,
        ;
        assert(a % b == kr * c);
        lemma_divides_gcd(b, a % b, c);
    }
}

/// The greatest common divisor is zero exactly when both arguments are.
pub proof fn lemma_gcd_pos(a: nat, b: nat)
    ensures
        gcd_spec(a, b) == 0 <==> (a == 0 && b == 0),
{
    lemma_gcd_divides(a, b);
    if gcd_spec(a, b) == 0 {
        lemma_divides_zero(a);
        lemma_divides_zero(b);
    }
}

/// The greatest common divisor is greatest: as long as it is not zero —
/// that is, as long as one argument is positive — no common divisor
/// exceeds it.
pub proof fn lemma_gcd_greatest(a: nat, b: nat, c: nat)
    requires
        divides(c, a),
        divides(c, b),
        gcd_spec(a, b) > 0,
    ensures
        c <= gcd_spec(a, b),
{
    lemma_divides_gcd(a, b, c);
    lemma_divides_le(c, gcd_spec(a, b));
}

/// The greatest common divisor does not depend on the argument order.
pub proof fn lemma_gcd_commutes(a: nat, b: nat)
    ensures
        gcd_spec(a, b) == gcd_spec(b, a),
{
    let g1 = gcd_spec(a, b);
    let g2 = gcd_spec(b, a);
    lemma_gcd_divides(a, b);
    lemma_gcd_divides(b, a);
    lemma_divides_gcd(b, a, g1);
    lemma_divides_gcd(a, b, g2);
    lemma_gcd_pos(a, b);
    lemma_gcd_pos(b, a);
    if a != 0 || b != 0 {
        lemma_divides_le(g1, g2);
        lemma_divides_le(g2, g1);
    }
}

/// Scaling both arguments scales their greatest common divisor.
pub proof fn lemma_gcd_scale(a: nat, b: nat, c: nat)
    requires
        c > 0,
    ensures
        gcd_spec(a * c, b * c) == c * gcd_spec(a, b),
    decreases b,
{
    if b == 0 {
        assert(b * c == 0);
        assert(a * c == c * a) by (nonlinear_arith);
    } else {
        let q = a / b;
        let r = a % b;
        assert(a == b * q + r) by {
            vstd::arithmetic::div_mod::lemma_fundamental_div_mod(a as int, b as int);
        }
        assert(a * c == q * (b * c) + r * c) by (nonlinear_arith)
            requires
                a == b * q + r,
        ;
        assert(r * c < b * c) by (nonlinear_arith)
            requires
                r < b,
                c > 0,
        ;
        assert(b * c > 0) by (nonlinear_arith)
            requires
                b > 0,
                c > 0,
        ;
        vstd::arithmetic::div_mod::lemma_fundamental_div_mod_converse(
            (a * c) as int,
            (b * c) as int,
            q as int,
            (r * c) as int,
        );
        assert((a * c) % (b * c) == r * c);
        lemma_gcd_scale(b, r, c);
    }
}

/// If `a` is coprime to `b` and divides `b * c`, it divides `c`.
pub proof fn lemma_coprime_divides(a: nat, b: nat, c: nat)
    requires
        gcd_spec(a, b) == 1,
        divides(a, b * c),
    ensures
        divides(a, c),
{
    if c == 0 {
        assert(c == 0 * a);
    } else {
        assert(divides(a, a * c)) by {
            assert(a * c == c * a) by (nonlinear_arith);
        }
        lemma_divides_gcd(a * c, b * c, a);
        lemma_gcd_scale(a, b, c);
        assert(gcd_spec(a * c, b * c) == c * 1);
    }
}

/// A rational number has exactly one form in lowest terms: any two pairs
/// naming the same value reduce to the same pair. This is what lets one
/// reduced conversion factor stand for every proportionally equal pair of
/// unit scales.
pub proof fn lemma_reduced_unique(n1: nat, d1: nat, n2: nat, d2: nat)
    requires
        d1 > 0,
        d2 > 0,
        n1 * d2 == n2 * d1,
    ensures
        reduced_num(n1, d1) == reduced_num(n2, d2),
        reduced_den(n1, d1) == reduced_den(n2, d2),
{
    lemma_gcd_reduce(n1, d1);
    lemma_gcd_reduce(n2, d2);
    let g1 = gcd_spec(n1, d1);
    let g2 = gcd_spec(n2, d2);
    let a1 = reduced_num(n1, d1);
    let b1 = reduced_den(n1, d1);
    let a2 = reduced_num(n2, d2);
    let b2 = reduced_den(n2, d2);
    assert(b1 > 0) by (nonlinear_arith)
        requires
            b1 * g1 == d1,
            d1 > 0,
    ;
    assert(b2 > 0) by (nonlinear_arith)
        requires
            b2 * g2 == d2,
            d2 > 0,
    ;
    assert(a1 * b2 == a2 * b1) by (nonlinear_arith)
        requires
            n1 * d2 == n2 * d1,
            a1 * g1 == n1,
            b1 * g1 == d1,
            a2 * g2 == n2,
            b2 * g2 == d2,
            g1 > 0,
            g2 > 0,
    ;
    lemma_gcd_commutes(a1, b1);
    lemma_gcd_commutes(a2, b2);
    assert(divides(b1, a1 * b2)) by {
        assert(a1 * b2 == a2 * b1);
    }
    assert(divides(b2, a2 * b1)) by {
        assert(a2 * b1 == a1 * b2);
    }
    lemma_coprime_divides(b1, a1, b2);
    lemma_coprime_divides(b2, a2, b1);
    lemma_divides_le(b1, b2);
    lemma_divides_le(b2, b1);
    assert(a1 == a2) by (nonlinear_arith)
        requires
            a1 * b2 == a2 * b1,
            b1 == b2,
            b1 > 0,
    ;
}

/// Dividing a pair by its greatest common divisor leaves a coprime pair:
/// this is what makes reduction to lowest terms canonical.
pub proof fn lemma_gcd_reduce(n: nat, d: nat)
    ensures
        d > 0 ==> {
            let g = gcd_spec(n, d);
            &&& 0 < g <= d
            &&& (n / g) * g == n
            &&& (d / g) * g == d
            &&& gcd_spec(n / g, d / g) == 1
        },
{
    if d > 0 {
        let g = gcd_spec(n, d);
        lemma_gcd_divides(n, d);
        lemma_gcd_pos(n, d);
        lemma_divides_le(g, d);
        let kn = choose|k: nat| n == #[trigger] (k * g);
        let kd = choose|k: nat| d == #[trigger] (k * g);
        assert(n / g == kn && (n / g) * g == n) by (nonlinear_arith)
            requires
                n == kn * g,
                g > 0,
        ;
        assert(d / g == kd && (d / g) * g == d) by (nonlinear_arith)
            requires
                d == kd * g,
                g > 0,
        ;
        let g2 = gcd_spec(kn, kd);
        lemma_gcd_divides(kn, kd);
        lemma_gcd_pos(kn, kd);
        assert(kd > 0) by (nonlinear_arith)
            requires
                d == kd * g,
                d > 0,
        ;
        let k2n = choose|k: nat| kn == #[trigger] (k * g2);
        let k2d = choose|k: nat| kd == #[trigger] (k * g2);
        assert(n == k2n * (g2 * g)) by (nonlinear_arith)
            requires
                n == kn * g,
                kn == k2n * g2,
        ;
        assert(d == k2d * (g2 * g)) by (nonlinear_arith)
            requires
                d == kd * g,
                kd == k2d * g2,
        ;
        lemma_divides_gcd(n, d, g2 * g);
        lemma_divides_le(g2 * g, g);
        assert(g2 == 1) by (nonlinear_arith)
            requires
                g2 * g <= g,
                0 < g2 * g,
                g > 0,
        ;
    }
}

/// Greatest common divisor of two machine integers.
pub fn gcd(a: u64, b: u64) -> (g: u64)
    ensures
        g as nat == gcd_spec(a as nat, b as nat),
{
    let mut x = a;
    let mut y = b;
    while y != 0
        invariant
            gcd_spec(x as nat, y as nat) == gcd_spec(a as nat, b as nat),
        decreases y,
    {
        let r = x % y;
        x = y;
        y = r;
    }
    x
}

/// Numerator of `n / d` brought to lowest terms.
pub open spec fn reduced_num(n: nat, d: nat) -> nat {
    n / gcd_spec(n, d)
}

/// Denominator of `n / d` brought to lowest terms.
pub open spec fn reduced_den(n: nat, d: nat) -> nat {
    d / gcd_spec(n, d)
}

/// Reduction to lowest terms is idempotent: reducing an already reduced
/// pair changes nothing.
pub proof fn lemma_reduce_idempotent(n: nat, d: nat)
    requires
        d > 0,
    ensures
        reduced_den(n, d) > 0,
        reduced_num(reduced_num(n, d), reduced_den(n, d)) == reduced_num(n, d),
        reduced_den(reduced_num(n, d), reduced_den(n, d)) == reduced_den(n, d),
{
    lemma_gcd_reduce(n, d);
    let g = gcd_spec(n, d);
    assert(d / g > 0) by (nonlinear_arith)
        requires
            (d / g) * g == d,
            d > 0,
    ;
    assert(reduced_num(n, d) / 1 == reduced_num(n, d));
    assert(reduced_den(n, d) / 1 == reduced_den(n, d));
}

/// An exact fraction: a numerator and a positive denominator.
#[derive(Clone, Copy, Debug, PartialEq, Eq, Structural)]
pub struct Ratio {
    pub num: u64,
    pub den: u64,
}

impl Ratio {
    /// The denominator is never zero.
    pub open spec fn wf(self) -> bool {
        self.den > 0
    }

    /// In lowest terms: numerator and denominator share no divisor above 1.
    pub open spec fn is_reduced(self) -> bool {
        self.den > 0 && gcd_spec(self.num as nat, self.den as nat) == 1
    }

    /// The fraction `num / den`, brought to lowest terms.
    pub fn new(num: u64, den: u64) -> (r: Ratio)
        requires
            den > 0,
        ensures
            r.is_reduced(),
            r.num as nat == reduced_num(num as nat, den as nat),
            r.den as nat == reduced_den(num as nat, den as nat),
            r.num as int * den as int == num as int * r.den as int,
    {
        let g = gcd(num, den);
        proof {
            lemma_gcd_reduce(num as nat, den as nat);
            let rn = num as nat / g as nat;
            let rd = den as nat / g as nat;
            assert(rd > 0) by (nonlinear_arith)
                requires
                    rd * (g as nat) == den as nat,
                    den > 0,
            ;
            assert(rn * den as nat == num as nat * rd) by (nonlinear_arith)
                requires
                    rn * (g as nat) == num as nat,
                    rd * (g as nat) == den as nat,
            ;
        }
        Ratio { num: num / g, den: den / g }
    }

    /// The product of two ratios, reduced.
    pub fn mul(self, rhs: Ratio) -> (r: Ratio)
        requires
            self.wf(),
            rhs.wf(),
            self.num as int * rhs.num as int <= u64::MAX as int,
            self.den as int * rhs.den as int <= u64::MAX as int,
        ensures
            r.is_reduced(),
            r.num as nat == reduced_num(
                self.num as nat * rhs.num as nat,
                self.den as nat * rhs.den as nat,
            ),
            r.den as nat == reduced_den(
                self.num as nat * rhs.num as nat,
                self.den as nat * rhs.den as nat,
            ),
            r.num as int * (self.den as int * rhs.den as int) == (self.num as int
                * rhs.num as int) * r.den as int,
    {
        proof {
            assert(self.den as int * rhs.den as int > 0) by (nonlinear_arith)
                requires
                    self.den > 0,
                    rhs.den > 0,
            ;
        }
        Ratio::new(self.num * rhs.num, self.den * rhs.den)
    }

    /// The reciprocal `den / num`, reduced; only a ratio with a positive
    /// numerator has one.
    pub fn recip(self) -> (r: Ratio)
        requires
            self.wf(),
            self.num > 0,
        ensures
            r.is_reduced(),
            r.num as nat == reduced_num(self.den as nat, self.num as nat),
            r.den as nat == reduced_den(self.den as nat, self.num as nat),
            r.num as int * self.num as int == self.den as int * r.den as int,
    {
        Ratio::new(self.den, self.num)
    }

    /// The quotient of two ratios: multiplication by the reciprocal.
    pub fn div(self, rhs: Ratio) -> (r: Ratio)
        requires
            self.wf(),
            rhs.wf(),
            rhs.num > 0,
            self.num as int * rhs.den as int <= u64::MAX as int,
            self.den as int * rhs.num as int <= u64::MAX as int,
        ensures
            r.is_reduced(),
            r.num as nat == reduced_num(
                self.num as nat * rhs.den as nat,
                self.den as nat * rhs.num as nat,
            ),
            r.den as nat == reduced_den(
                self.num as nat * rhs.den as nat,
                self.den as nat * rhs.num as nat,
            ),
            r.num as int * (self.den as int * rhs.num as int) == (self.num as int
                * rhs.den as int) * r.den as int,
    {
        proof {
            assert(self.den as int * rhs.num as int > 0) by (nonlinear_arith)
                requires
                    self.den > 0,
                    rhs.num > 0,
            ;
        }
        Ratio::new(self.num * rhs.den, self.den * rhs.num)
    }
}

} // verus!
