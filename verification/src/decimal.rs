use vstd::prelude::*;

verus! {

/// Number of atomic units that make up 1.0: values carry 18 fractional
/// decimal digits, stored as an integer count of units of 10^-18.
pub const DECIMAL_FRACTIONAL: u128 = 1_000_000_000_000_000_000;

/// A non-negative fixed-point decimal with 18 fractional digits.
/// The represented value is `atomics` / 10^18; 1.0 is `DECIMAL_FRACTIONAL`
/// atomics. All threshold and quorum fractions are carried in this form so
/// that every comparison and rounding step is exact integer arithmetic.
#[derive(Clone, Copy, Debug, PartialEq, Eq, Structural)]
pub struct Decimal {
    pub atomics: u128,
}

/// 10^n as a mathematical integer.
pub open spec fn pow10_spec(n: nat) -> nat
    decreases n,
{
    if n == 0 {
        1
    } else {
        10 * pow10_spec((n - 1) as nat)
    }
}

/// 10^n never shrinks as n grows.
pub proof fn lemma_pow10_monotone(m: nat, n: nat)
    requires
        m <= n,
    ensures
        pow10_spec(m) <= pow10_spec(n),
    decreases n,
{
    if m < n {
        lemma_pow10_monotone(m, (n - 1) as nat);
        assert(pow10_spec(n) == 10 * pow10_spec((n - 1) as nat));
    }
}

/// 10^38 written out: the largest power of ten that fits in u128.
pub proof fn lemma_pow10_38()
    ensures
        pow10_spec(38) == 100_000_000_000_000_000_000_000_000_000_000_000_000,
{
    reveal_with_fuel(pow10_spec, 40);
}

/// Computes 10^n; the exponent cap keeps the result inside u128.
pub fn pow10(n: u32) -> (r: u128)
    requires
        n <= 38,
    ensures
        r == pow10_spec(n as nat),
{
    proof {
        lemma_pow10_38();
    }
    let mut r: u128 = 1;
    let mut i: u32 = 0;
    while i < n
        invariant
            i <= n <= 38,
            r == pow10_spec(i as nat),
            pow10_spec(38nat) == 100_000_000_000_000_000_000_000_000_000_000_000_000,
        decreases n - i,
    {
        proof {
            lemma_pow10_monotone((i + 1) as nat, 38nat);
        }
        r = r * 10;
        i = i + 1;
    }
    r
}

impl Decimal {
    /// The value 0.
    pub fn zero() -> (r: Decimal)
        ensures
            r.atomics == 0,
    {
        Decimal { atomics: 0 }
    }

    /// The value 1.0.
    pub fn one() -> (r: Decimal)
        ensures
            r.atomics == DECIMAL_FRACTIONAL,
    {
        Decimal { atomics: DECIMAL_FRACTIONAL }
    }

    /// `p` percent, i.e. p/100.
    pub fn percent(p: u64) -> (r: Decimal)
        ensures
            r.atomics == p * 10_000_000_000_000_000,
    {
        Decimal { atomics: (p as u128) * 10_000_000_000_000_000 }
    }

    /// The exact quotient `numerator` / `denominator`, rounded down to 18
    /// fractional digits.
    pub fn from_ratio(numerator: u128, denominator: u128) -> (r: Decimal)
        requires
            denominator != 0,
            numerator * DECIMAL_FRACTIONAL <= u128::MAX,
        ensures
            r.atomics == numerator * DECIMAL_FRACTIONAL / (denominator as int),
    {
        Decimal { atomics: numerator * DECIMAL_FRACTIONAL / denominator }
    }

    /// Reads `value` as a count of units of 10^-`decimal_places`. Returns
    /// `None` when the rescaled value does not fit in 18 fractional digits.
    pub fn from_atomics(value: u128, decimal_places: u32) -> (r: Option<Decimal>)
        ensures
            ({
                let scale_up = pow10_spec((18 - decimal_places) as nat);
                decimal_places <= 18 && value * scale_up <= u128::MAX ==> r == Some(
                    Decimal { atomics: (value * scale_up) as u128 },
                )
            }),
            decimal_places <= 18 && value * pow10_spec((18 - decimal_places) as nat) > u128::MAX
                ==> r is None,
            18 < decimal_places <= 56 ==> r == Some(
                Decimal { atomics: (value as int / pow10_spec((decimal_places - 18) as nat) as int) as u128 },
            ),
            decimal_places > 56 ==> r == Some(Decimal { atomics: 0 }),
    {
        if decimal_places <= 18 {
            let factor = pow10(18 - decimal_places);
            assert(factor >= 1) by {
                lemma_pow10_monotone(0nat, (18 - decimal_places) as nat);
            }
            if value <= u128::MAX / factor {
                proof {
                    vstd::arithmetic::mul::lemma_mul_inequality(
                        value as int,
                        u128::MAX as int / factor as int,
                        factor as int,
                    );
                    vstd::arithmetic::div_mod::lemma_fundamental_div_mod(
                        u128::MAX as int,
                        factor as int,
                    );
                    vstd::arithmetic::div_mod::lemma_mod_bound(u128::MAX as int, factor as int);
                }
                Some(Decimal { atomics: value * factor })
            } else {
                proof {
                    let q = u128::MAX as int / factor as int;
                    vstd::arithmetic::div_mod::lemma_fundamental_div_mod(
                        u128::MAX as int,
                        factor as int,
                    );
                    vstd::arithmetic::div_mod::lemma_mod_bound(u128::MAX as int, factor as int);
                    assert(value >= q + 1);
                    vstd::arithmetic::mul::lemma_mul_inequality(q + 1, value as int, factor as int);
                    assert((q + 1) * factor as int == q * factor as int + factor as int)
                        by (nonlinear_arith);
                }
                None
            }
        } else if decimal_places <= 56 {
            let factor = pow10(decimal_places - 18);
            assert(factor >= 1) by {
                lemma_pow10_monotone(0nat, (decimal_places - 18) as nat);
            }
            Some(Decimal { atomics: value / factor })
        } else {
            Some(Decimal { atomics: 0 })
        }
    }

    /// True exactly when the value is 0.
    pub fn is_zero(&self) -> (r: bool)
        ensures
            r == (self.atomics == 0),
    {
        self.atomics == 0
    }
}

} // verus!
