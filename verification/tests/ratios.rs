use no_time::ratio::{gcd, Ratio};

#[test]
fn gcd_small_values() {
    assert_eq!(gcd(0, 1), 1);
    assert_eq!(gcd(1, 0), 1);
    assert_eq!(gcd(1, 1), 1);
    assert_eq!(gcd(1, 9), 1);
    assert_eq!(gcd(2, 4), 2);
    assert_eq!(gcd(4, 6), 2);
}

#[test]
fn gcd_of_zero_pair() {
    assert_eq!(gcd(0, 0), 0);
    assert_eq!(gcd(12, 0), 12);
    assert_eq!(gcd(0, 12), 12);
}

#[test]
fn reduce_to_lowest_terms() {
    let r = Ratio::new(4, 6);
    assert_eq!((r.num, r.den), (2, 3));

    // a zero numerator reduces to 0/1
    let z = Ratio::new(0, 5);
    assert_eq!((z.num, z.den), (0, 1));

    // equal numerator and denominator reduce to 1/1
    let e = Ratio::new(7, 7);
    assert_eq!((e.num, e.den), (1, 1));

    // reduction is idempotent
    let again = Ratio::new(r.num, r.den);
    assert_eq!((again.num, again.den), (r.num, r.den));
}

#[test]
fn ratio_products() {
    let half = Ratio::new(1, 2);
    let quarter = Ratio::new(1, 4);
    let sixty = Ratio::new(60, 1);

    let eighth = half.mul(quarter);
    assert_eq!((eighth.num, eighth.den), (1, 8));

    let thirty = half.mul(sixty);
    assert_eq!((thirty.num, thirty.den), (30, 1));
}

#[test]
fn ratio_quotient() {
    let half = Ratio::new(1, 2);
    let sixty = Ratio::new(60, 1);

    let q = half.div(sixty);
    assert_eq!((q.num, q.den), (1, 120));
}

#[test]
fn ratio_reciprocal() {
    let r = Ratio::new(4, 6).recip();
    assert_eq!((r.num, r.den), (3, 2));
}
