//! Exact rational time for the pacing of a live session.

use num_rational::Ratio;
use vstd::arithmetic::div_mod::lemma_div_multiples_vanish_quotient;
use vstd::arithmetic::mul::lemma_mul_is_commutative;
use vstd::prelude::*;

verus! {

/// Nanoseconds in one second.
pub const NANOS_PER_SECOND: u64 = 1_000_000_000;

/// `k` divides `n`.
pub open spec fn divides(k: nat, n: nat) -> bool {
    k > 0 && n % k == 0
}

/// `n / d` cannot be written with smaller numbers: `d` is positive and
/// nothing but one divides both.
pub open spec fn lowest_terms(n: nat, d: nat) -> bool {
    d > 0 && forall|k: nat| k > 1 ==> !(#[trigger] divides(k, n) && divides(k, d))
}

/// `Ratio::new` on each pair, `+` on the two ratios, then `numer` and `denom`
/// of the sum. The sum is the exact one, in lowest terms. The bounds keep
/// every intermediate product of the addition within 64 bits.
#[verifier::external_body]
fn ratio_sum(an: u64, ad: u64, bn: u64, bd: u64) -> (sum: (u64, u64))
    requires
        ad > 0,
        bd > 0,
        ad * bd <= u64::MAX,
        an * bd + bn * ad <= u64::MAX,
    ensures
        sum.0 * (ad * bd) == (an * bd + bn * ad) * sum.1,
        lowest_terms(sum.0 as nat, sum.1 as nat),
{
    let sum = Ratio::new(an, ad) + Ratio::new(bn, bd);
    (*sum.numer(), *sum.denom())
}

/// The greatest number that divides both `a` and `b`; `a` itself where `b`
/// is zero.
pub open spec fn gcd(a: nat, b: nat) -> nat
    decreases b,
{
    if b == 0 {
        a
    } else {
        gcd(b, a % b)
    }
}

/// `Ratio::new(n, d) * Ratio::new(factor, 1)`, then `numer` and `denom` of the
/// product: `n / d` times `factor`, exact and in lowest terms. The
/// multiplication first divides `factor` by what it shares with `d`; the
/// bound keeps what it then multiplies within 64 bits.
#[verifier::external_body]
fn ratio_scaled(n: u64, d: u64, factor: u64) -> (product: (u64, u64))
    requires
        lowest_terms(n as nat, d as nat),
        n * (factor as nat / gcd(d as nat, factor as nat)) <= u64::MAX,
    ensures
        product.0 * d == (n * factor) * product.1,
        lowest_terms(product.0 as nat, product.1 as nat),
{
    let product = Ratio::new(n, d) * Ratio::new(factor, 1);
    (*product.numer(), *product.denom())
}

/// `Ratio::new` and `Ratio::to_integer`: the ratio rounded towards zero.
#[verifier::external_body]
fn ratio_whole(n: u64, d: u64) -> (whole: u64)
    requires
        d > 0,
    ensures
        whole == n / d,
{
    Ratio::new(n, d).to_integer()
}

/// An exact, non-negative count of seconds: `numer / denom` in lowest terms.
#[derive(Clone, Copy, Debug)]
pub struct Elapsed {
    pub numer: u64,
    pub denom: u64,
}

impl Elapsed {
    pub open spec fn wf(&self) -> bool {
        lowest_terms(self.numer as nat, self.denom as nat)
    }

    /// This time is `other` plus `frames` samples played at `rate` Hz.
    pub open spec fn is_sum(&self, other: Elapsed, frames: nat, rate: nat) -> bool {
        self.numer * (other.denom * rate) == (other.numer * rate + frames * other.denom)
            * self.denom
    }

    /// Adding `frames` samples at `rate` Hz stays within what 64 bits hold.
    pub open spec fn can_add(&self, frames: nat, rate: nat) -> bool {
        &&& frames <= u64::MAX
        &&& rate <= u64::MAX
        &&& self.denom * rate <= u64::MAX
        &&& self.numer * rate + frames * self.denom <= u64::MAX
    }

    /// The billionths of this time can be counted in 64 bits, once the
    /// billion is divided by what it shares with the denominator.
    pub open spec fn can_count_nanos(&self) -> bool {
        self.numer * (NANOS_PER_SECOND as nat / gcd(self.denom as nat, NANOS_PER_SECOND as nat))
            <= u64::MAX
    }

    /// The whole nanoseconds in this time, rounded down.
    pub open spec fn nanos(&self) -> nat {
        (self.numer as nat * NANOS_PER_SECOND as nat) / (self.denom as nat)
    }

    /// No time at all.
    pub fn zero() -> (t: Elapsed)
        ensures
            t.numer == 0,
            t.denom == 1,
            t.wf(),
    {
        assert forall|k: nat| k > 1 implies !(#[trigger] divides(k, 0) && divides(k, 1)) by {
            assert(1nat % k == 1) by (nonlinear_arith)
                requires
                    k > 1,
            ;
        }
        Elapsed { numer: 0, denom: 1 }
    }

    /// This time plus the playing time of `frames` samples at `rate` Hz, or
    /// nothing where the sum cannot be formed in 64 bits.
    pub fn plus_frames(&self, frames: usize, rate: usize) -> (sum: Option<Elapsed>)
        requires
            self.wf(),
            rate > 0,
        ensures
            sum is Some <==> self.can_add(frames as nat, rate as nat),
            sum matches Some(t) ==> t.wf() && t.is_sum(*self, frames as nat, rate as nat),
    {
        if frames as u128 > u64::MAX as u128 || rate as u128 > u64::MAX as u128 {
            return None;
        }
        assert(self.denom * rate <= 0xffff_ffff_ffff_ffff * 0xffff_ffff_ffff_ffff && self.numer
            * rate <= 0xffff_ffff_ffff_ffff * 0xffff_ffff_ffff_ffff && frames * self.denom
            <= 0xffff_ffff_ffff_ffff * 0xffff_ffff_ffff_ffff) by (nonlinear_arith)
            requires
                self.numer <= 0xffff_ffff_ffff_ffff,
                rate <= 0xffff_ffff_ffff_ffff,
                frames <= 0xffff_ffff_ffff_ffff,
                self.denom <= 0xffff_ffff_ffff_ffff,
        ;
        let denom_product: u128 = self.denom as u128 * rate as u128;
        let left: u128 = self.numer as u128 * rate as u128;
        let right: u128 = frames as u128 * self.denom as u128;
        if denom_product > u64::MAX as u128 || left > u64::MAX as u128 || right > u64::MAX as u128 {
            return None;
        }
        if left + right > u64::MAX as u128 {
            return None;
        }
        let (numer, denom) = ratio_sum(self.numer, self.denom, frames as u64, rate as u64);
        proof {
            lemma_mul_is_commutative(frames as int, self.denom as int);
            lemma_mul_is_commutative(rate as int, self.numer as int);
        }
        Some(Elapsed { numer, denom })
    }

    /// The whole nanoseconds in this time, or nothing where its billionths
    /// cannot be counted in 64 bits.
    pub fn whole_nanos(&self) -> (nanos: Option<u64>)
        requires
            self.wf(),
        ensures
            nanos is Some <==> self.can_count_nanos(),
            nanos matches Some(n) ==> n == self.nanos(),
    {
        let shared = greatest_common_divisor(self.denom, NANOS_PER_SECOND);
        match self.numer.checked_mul(NANOS_PER_SECOND / shared) {
            None => None,
            Some(_) => {
                let (pn, pd) = ratio_scaled(self.numer, self.denom, NANOS_PER_SECOND);
                let whole = ratio_whole(pn, pd);
                proof {
                    let scaled = self.numer as int * NANOS_PER_SECOND as int;
                    let d = self.denom as int;
                    assert(pn * d == scaled * pd);
                    lemma_div_multiples_vanish_quotient(d, pn as int, pd as int);
                    lemma_div_multiples_vanish_quotient(pd as int, scaled, d);
                    lemma_mul_is_commutative(d, pn as int);
                    lemma_mul_is_commutative(d, pd as int);
                    lemma_mul_is_commutative(pd as int, scaled);
                }
                Some(whole)
            },
        }
    }
}

/// A common divisor of two numbers, one of them positive, is positive.
proof fn lemma_gcd_positive(a: nat, b: nat)
    requires
        a > 0 || b > 0,
    ensures
        gcd(a, b) > 0,
    decreases b,
{
    if b != 0 {
        lemma_gcd_positive(b, a % b);
    }
}

/// Computes `gcd` by repeated division.
fn greatest_common_divisor(a: u64, b: u64) -> (g: u64)
    ensures
        g == gcd(a as nat, b as nat),
        a > 0 || b > 0 ==> g > 0,
{
    let mut x: u64 = a;
    let mut y: u64 = b;
    while y != 0
        invariant
            gcd(x as nat, y as nat) == gcd(a as nat, b as nat),
        decreases y,
    {
        let r: u64 = x % y;
        x = y;
        y = r;
    }
    proof {
        if a > 0 || b > 0 {
            lemma_gcd_positive(a as nat, b as nat);
        }
    }
    x
}

} // verus!
