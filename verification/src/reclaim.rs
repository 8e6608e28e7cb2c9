//! The share of a balance that a reclaim sweeps back, rounded to whole base
//! units.

use vstd::prelude::*;
use vstd::arithmetic::div_mod::{lemma_div_is_ordered, lemma_fundamental_div_mod_converse};
use vstd::arithmetic::mul::{lemma_mul_inequality, lemma_mul_upper_bound};
use crate::error::FundError;

verus! {

/// `balance * numerator / denominator`, rounded to the nearest whole number,
/// a half rounded up.
pub open spec fn rounded_share(balance: nat, numerator: nat, denominator: nat) -> nat {
    (2 * balance * numerator + denominator) / (2 * denominator)
}

/// The rounded share is the quotient, plus one where the remainder is at
/// least half the denominator.
pub proof fn lemma_rounded_share_by_remainder(balance: nat, numerator: nat, denominator: nat)
    requires
        denominator > 0,
    ensures
        rounded_share(balance, numerator, denominator) == (balance * numerator) / denominator
            + (if 2 * ((balance * numerator) % denominator) >= denominator {
            1nat
        } else {
            0nat
        }),
{
    let p: int = (balance * numerator) as int;
    let d: int = denominator as int;
    let q: int = p / d;
    let r: int = p % d;
    assert(p == q * d + r && 0 <= r < d) by {
        vstd::arithmetic::div_mod::lemma_fundamental_div_mod(p, d);
        vstd::arithmetic::div_mod::lemma_mod_pos_bound(p, d);
        assert(d * q == q * d) by (nonlinear_arith);
    }
    assert(2 * balance * numerator == 2 * p) by (nonlinear_arith)
        requires
            p == balance * numerator,
    ;
    if 2 * r >= d {
        assert(2 * p + d == (q + 1) * (2 * d) + (2 * r - d)) by (nonlinear_arith)
            requires
                p == q * d + r,
        ;
        lemma_fundamental_div_mod_converse(2 * p + d, 2 * d, q + 1, 2 * r - d);
    } else {
        assert(2 * p + d == q * (2 * d) + (2 * r + d)) by (nonlinear_arith)
            requires
                p == q * d + r,
        ;
        lemma_fundamental_div_mod_converse(2 * p + d, 2 * d, q, 2 * r + d);
    }
}

/// A share of at most the whole never exceeds the balance.
pub proof fn lemma_rounded_share_bounded(balance: nat, numerator: nat, denominator: nat)
    requires
        0 < numerator <= denominator,
    ensures
        rounded_share(balance, numerator, denominator) <= balance,
{
    let b: int = balance as int;
    let n: int = numerator as int;
    let d: int = denominator as int;
    assert(2 * b * n <= 2 * b * d) by {
        lemma_mul_inequality(n, d, 2 * b);
        assert(n * (2 * b) == 2 * b * n) by (nonlinear_arith);
        assert(d * (2 * b) == 2 * b * d) by (nonlinear_arith);
    }
    assert(2 * b * d + d == b * (2 * d) + d) by (nonlinear_arith);
    lemma_fundamental_div_mod_converse(2 * b * d + d, 2 * d, b, d);
    lemma_div_is_ordered(2 * b * n + d, 2 * b * d + d, 2 * d);
}

/// The rounded share is the whole number nearest to the exact share
/// `balance * numerator / denominator`; of two that are equally near, the
/// greater. In halves of the denominator: the share less a half is at most
/// the exact share, which is less than the share and a half.
pub proof fn law_share_is_nearest(balance: nat, numerator: nat, denominator: nat)
    requires
        denominator > 0,
    ensures
        2 * rounded_share(balance, numerator, denominator) * denominator - denominator <= 2
            * balance * numerator,
        2 * balance * numerator < 2 * rounded_share(balance, numerator, denominator) * denominator
            + denominator,
{
    let x: int = (2 * balance * numerator + denominator) as int;
    let d: int = (2 * denominator) as int;
    let s: int = x / d;
    assert(x == d * s + x % d && 0 <= x % d < d) by {
        vstd::arithmetic::div_mod::lemma_fundamental_div_mod(x, d);
        vstd::arithmetic::div_mod::lemma_mod_bound(x, d);
    }
    assert(d * s == 2 * s * denominator) by (nonlinear_arith)
        requires
            d == 2 * denominator,
    ;
}

/// The whole of a balance is the balance.
pub proof fn law_whole_share_is_the_balance(balance: nat, denominator: nat)
    requires
        denominator > 0,
    ensures
        rounded_share(balance, denominator, denominator) == balance,
{
    let b: int = balance as int;
    let d: int = denominator as int;
    assert(2 * b * d + d == b * (2 * d) + d) by (nonlinear_arith);
    lemma_fundamental_div_mod_converse(2 * b * d + d, 2 * d, b, d);
}

/// The thousandths of a balance that a reclaim sweeps back unless told
/// otherwise: 99.9 percent.
pub const RECLAIM_PER_MILLE: u64 = 999;

/// The fraction of a balance to sweep back: more than nothing, at most all.
#[derive(Clone, Copy, Debug, PartialEq, Eq)]
pub struct ReclaimFraction {
    num: u64,
    den: u64,
}

impl ReclaimFraction {
    /// The parts that are swept back.
    pub closed spec fn spec_numerator(&self) -> u64 {
        self.num
    }

    /// The parts that make the whole.
    pub closed spec fn spec_denominator(&self) -> u64 {
        self.den
    }

    /// A fraction lies in (0, 1]: in percent, in (0, 100].
    #[verifier::type_invariant]
    pub open spec fn valid(&self) -> bool {
        0 < self.spec_numerator() <= self.spec_denominator()
    }

    /// The share of `balance` that this fraction sweeps back.
    pub open spec fn share(&self, balance: nat) -> nat {
        rounded_share(balance, self.spec_numerator() as nat, self.spec_denominator() as nat)
    }

    /// The fraction `numerator / denominator`. One that is zero, more than
    /// the whole, or has no denominator is a configuration error.
    pub fn new(numerator: u64, denominator: u64) -> (r: Result<ReclaimFraction, FundError>)
        ensures
            0 < numerator <= denominator ==> r is Ok && r->Ok_0.spec_numerator() == numerator
                && r->Ok_0.spec_denominator() == denominator,
            !(0 < numerator <= denominator) ==> r == Err::<ReclaimFraction, FundError>(
                FundError::ConfigurationError,
            ),
    {
        if 0 < numerator && numerator <= denominator {
            Ok(ReclaimFraction { num: numerator, den: denominator })
        } else {
            Err(FundError::ConfigurationError)
        }
    }

    /// The fraction of `parts` thousandths.
    pub fn per_mille(parts: u64) -> (r: Result<ReclaimFraction, FundError>)
        ensures
            0 < parts <= 1000 ==> r is Ok && r->Ok_0.spec_numerator() == parts
                && r->Ok_0.spec_denominator() == 1000,
            !(0 < parts <= 1000) ==> r == Err::<ReclaimFraction, FundError>(
                FundError::ConfigurationError,
            ),
    {
        ReclaimFraction::new(parts, 1000)
    }

    /// The fraction that a reclaim uses unless told otherwise.
    pub closed spec fn standard_spec() -> ReclaimFraction {
        ReclaimFraction { num: RECLAIM_PER_MILLE, den: 1000 }
    }

    /// 999 thousandths: 99.9 percent.
    #[verifier::when_used_as_spec(standard_spec)]
    pub fn standard() -> (f: ReclaimFraction)
        ensures
            f == ReclaimFraction::standard_spec(),
            f.spec_numerator() == RECLAIM_PER_MILLE,
            f.spec_denominator() == 1000,
    {
        ReclaimFraction { num: RECLAIM_PER_MILLE, den: 1000 }
    }

    /// The standard fraction is 999 thousandths.
    pub proof fn law_standard_fraction()
        ensures
            ReclaimFraction::standard_spec().spec_numerator() == RECLAIM_PER_MILLE,
            ReclaimFraction::standard_spec().spec_denominator() == 1000,
            ReclaimFraction::standard_spec().valid(),
    {
    }

    /// A share is never more than the balance it is taken of.
    pub proof fn law_share_is_within_balance(&self, balance: nat)
        requires
            self.valid(),
        ensures
            0 <= self.share(balance) <= balance,
    {
        lemma_rounded_share_bounded(balance, self.num as nat, self.den as nat);
    }

    /// No fraction of nothing is anything.
    pub proof fn lemma_share_of_nothing(&self)
        requires
            self.valid(),
        ensures
            self.share(0) == 0,
    {
        lemma_rounded_share_bounded(0, self.num as nat, self.den as nat);
    }

    /// The parts that are swept back.
    #[verifier::when_used_as_spec(spec_numerator)]
    pub fn numerator(&self) -> (n: u64)
        ensures
            n == self.spec_numerator(),
    {
        self.num
    }

    /// The parts that make the whole.
    #[verifier::when_used_as_spec(spec_denominator)]
    pub fn denominator(&self) -> (d: u64)
        ensures
            d == self.spec_denominator(),
    {
        self.den
    }
}

/// The amount to sweep back from a child that holds `balance`: the
/// fraction of it, rounded to the nearest base unit. It is never more than
/// the balance.
pub fn reclaim_amount(balance: u64, fraction: ReclaimFraction) -> (amount: u64)
    ensures
        amount == fraction.share(balance as nat),
        amount <= balance,
{
    proof {
        use_type_invariant(&fraction);
        lemma_rounded_share_by_remainder(balance as nat, fraction.num as nat, fraction.den as nat);
        lemma_rounded_share_bounded(balance as nat, fraction.num as nat, fraction.den as nat);
        assert(balance * fraction.num <= 0xffff_ffff_ffff_ffff * 0xffff_ffff_ffff_ffff) by {
            lemma_mul_upper_bound(
                balance as int,
                0xffff_ffff_ffff_ffff,
                fraction.num as int,
                0xffff_ffff_ffff_ffff,
            );
        }
    }
    let product: u128 = (balance as u128) * (fraction.num as u128);
    let whole: u128 = fraction.den as u128;
    let quotient: u128 = product / whole;
    let remainder: u128 = product % whole;
    if remainder >= whole - remainder {
        (quotient + 1) as u64
    } else {
        quotient as u64
    }
}

} // verus!
