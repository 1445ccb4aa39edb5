//! Fixed-point decimal arithmetic: every monetary quantity is a pair of an
//! integer mantissa and a decimal scale, read as `mantissa / 10^scale`.
//!
//! All operations are exact or fail detectably: addition and multiplication
//! return `None` on overflow instead of rounding, and rescaling to a lower
//! scale truncates toward zero, so no operation ever invents precision.

use vstd::prelude::*;
use vstd::arithmetic::power::{pow, lemma_pow_adds, lemma_pow_positive, lemma_pow_increases};
use vstd::arithmetic::mul::{lemma_mul_inequality, lemma_mul_nonnegative};
use vstd::arithmetic::div_mod::{
    lemma_div_denominator, lemma_div_nonincreasing, lemma_div_pos_is_pos,
    lemma_div_by_multiple, lemma_fundamental_div_mod, lemma_mod_division_less_than_divisor,
    lemma_div_multiples_vanish_quotient,
};

verus! {

/// A fixed-point decimal amount: `mantissa / 10^scale`.
///
/// Raw ledger integers are paired with their token's decimal count on
/// arrival and rescaled to the canonical report scale before they are
/// combined with values from other sources.
#[derive(Clone, Copy, Debug, PartialEq, Eq, Structural)]
pub struct Dec {
    pub mantissa: u128,
    pub scale: u32,
}

/// `10^e`, the denominator that a scale of `e` stands for.
pub open spec fn pow10(e: nat) -> int {
    pow(10, e)
}

pub proof fn lemma_pow10_pos(e: nat)
    ensures
        pow10(e) >= 1,
{
    lemma_pow_positive(10, e);
}

/// The mantissa of a value after moving it from scale `from` to scale `to`:
/// exact when the scale rises, truncated toward zero when it falls.
pub open spec fn rescale_mant(m: int, from: nat, to: nat) -> int {
    if to >= from {
        m * pow10((to - from) as nat)
    } else {
        m / pow10((from - to) as nat)
    }
}

pub proof fn lemma_rescale_mant_nonneg(m: int, from: nat, to: nat)
    requires
        0 <= m,
    ensures
        0 <= rescale_mant(m, from, to),
{
    if to >= from {
        lemma_pow10_pos((to - from) as nat);
        lemma_mul_nonnegative(m, pow10((to - from) as nat));
    } else {
        lemma_pow10_pos((from - to) as nat);
        if m == 0 {
            assert(0int / pow10((from - to) as nat) == 0) by {
                vstd::arithmetic::div_mod::lemma_div_of0(pow10((from - to) as nat));
            }
        } else {
            lemma_div_pos_is_pos(m, pow10((from - to) as nat));
        }
    }
}

pub proof fn lemma_pow10_step(e: nat)
    ensures
        pow10(e + 1) == pow10(e) * 10,
{
    lemma_pow_adds(10, e, 1);
    assert(pow(10, 1) == 10) by {
        vstd::arithmetic::power::lemma_pow1(10);
    }
}

/// What `add` returns: the operands aligned to the larger of the two scales
/// and their mantissas summed; `None` exactly when that sum does not fit.
pub open spec fn spec_add(a: Dec, b: Dec) -> Option<Dec> {
    let s = if a.scale >= b.scale { a.scale } else { b.scale };
    let am = rescale_mant(a.mantissa as int, a.scale as nat, s as nat);
    let bm = rescale_mant(b.mantissa as int, b.scale as nat, s as nat);
    if am + bm <= u128::MAX as int {
        Some(Dec { mantissa: (am + bm) as u128, scale: s })
    } else {
        None
    }
}

/// What `mul` returns: the exact product, at the sum of the scales; `None`
/// exactly when the product mantissa or the scale does not fit.
pub open spec fn spec_mul(a: Dec, b: Dec) -> Option<Dec> {
    if a.mantissa as int * b.mantissa as int <= u128::MAX as int
        && a.scale as int + b.scale as int <= u32::MAX as int {
        Some(Dec {
            mantissa: (a.mantissa as int * b.mantissa as int) as u128,
            scale: (a.scale + b.scale) as u32,
        })
    } else {
        None
    }
}

impl Dec {
    /// The zero amount at a given scale.
    pub fn zero(scale: u32) -> (r: Dec)
        ensures
            r == (Dec { mantissa: 0u128, scale }),
    {
        Dec { mantissa: 0, scale }
    }

    /// A decimal is zero exactly when its mantissa is zero, at any scale.
    pub fn is_zero(&self) -> (r: bool)
        ensures
            r == (self.mantissa == 0),
    {
        self.mantissa == 0
    }

    /// Moves the value to scale `to`. Raising the scale is exact and fails
    /// (`None`) exactly when the widened mantissa would not fit; lowering the
    /// scale truncates toward zero and always succeeds.
    pub fn rescale(self, to: u32) -> (r: Option<Dec>)
        ensures
            r is Some <==> rescale_mant(self.mantissa as int, self.scale as nat, to as nat)
                <= u128::MAX as int,
            r matches Some(v) ==> v.scale == to
                && v.mantissa as int == rescale_mant(self.mantissa as int, self.scale as nat, to as nat),
            to <= self.scale ==> r is Some,
    {
        if to >= self.scale {
            let diff = to - self.scale;
            let mut m = self.mantissa;
            let mut i: u32 = 0;
            proof {
                assert(pow10(0) == 1) by {
                    vstd::arithmetic::power::lemma_pow0(10);
                }
            }
            while i < diff
                invariant
                    i <= diff,
                    to >= self.scale,
                    diff == to - self.scale,
                    m as int == self.mantissa as int * pow10(i as nat),
                decreases diff - i,
            {
                let ghost m0 = self.mantissa as int;
                let ghost iold = i as nat;
                m = match m.checked_mul(10) {
                    Some(v) => v,
                    None => {
                        proof {
                            lemma_pow10_step(iold);
                            lemma_pow_increases(10, (iold + 1) as nat, diff as nat);
                            lemma_mul_inequality(pow10((iold + 1) as nat), pow10(diff as nat), m0);
                            assert(m0 * pow10(iold) * 10 == m0 * pow10((iold + 1) as nat)) by (nonlinear_arith)
                                requires pow10((iold + 1) as nat) == pow10(iold) * 10;
                            assert(pow10((iold + 1) as nat) * m0 == m0 * pow10((iold + 1) as nat)) by (nonlinear_arith);
                            assert(pow10(diff as nat) * m0 == m0 * pow10(diff as nat)) by (nonlinear_arith);
                        }
                        return None;
                    },
                };
                i = i + 1;
                proof {
                    lemma_pow10_step(iold);
                    assert(m0 * pow10(iold) * 10 == m0 * pow10(iold + 1)) by (nonlinear_arith)
                        requires pow10(iold + 1) == pow10(iold) * 10;
                }
            }
            Some(Dec { mantissa: m, scale: to })
        } else {
            let diff = self.scale - to;
            let mut m = self.mantissa;
            let mut i: u32 = 0;
            proof {
                assert(pow10(0) == 1) by {
                    vstd::arithmetic::power::lemma_pow0(10);
                }
            }
            while i < diff
                invariant
                    i <= diff,
                    to < self.scale,
                    diff == self.scale - to,
                    m as int == self.mantissa as int / pow10(i as nat),
                decreases diff - i,
            {
                let ghost m0 = self.mantissa as int;
                let ghost iold = i as nat;
                proof {
                    lemma_pow10_pos(iold);
                    lemma_pow10_step(iold);
                    lemma_div_denominator(m0, pow10(iold), 10);
                }
                m = m / 10;
                i = i + 1;
            }
            proof {
                lemma_pow10_pos(diff as nat);
                lemma_div_nonincreasing(self.mantissa as int, pow10(diff as nat));
            }
            Some(Dec { mantissa: m, scale: to })
        }
    }

    /// Exact addition after aligning both operands to the larger scale;
    /// `None` exactly on overflow, never a silently rounded sum.
    pub fn add(self, o: Dec) -> (r: Option<Dec>)
        ensures
            r == spec_add(self, o),
    {
        let s = if self.scale >= o.scale { self.scale } else { o.scale };
        proof {
            lemma_rescale_mant_nonneg(self.mantissa as int, self.scale as nat, s as nat);
            lemma_rescale_mant_nonneg(o.mantissa as int, o.scale as nat, s as nat);
        }
        let a = match self.rescale(s) {
            Some(v) => v,
            None => {
                return None;
            },
        };
        let b = match o.rescale(s) {
            Some(v) => v,
            None => {
                return None;
            },
        };
        match a.mantissa.checked_add(b.mantissa) {
            Some(m) => Some(Dec { mantissa: m, scale: s }),
            None => None,
        }
    }

    /// Exact multiplication; the result's scale is the sum of the operands'
    /// scales, and `None` marks overflow of either mantissa or scale.
    pub fn mul(self, o: Dec) -> (r: Option<Dec>)
        ensures
            r == spec_mul(self, o),
    {
        let m = match self.mantissa.checked_mul(o.mantissa) {
            Some(v) => v,
            None => {
                return None;
            },
        };
        match self.scale.checked_add(o.scale) {
            Some(s) => Some(Dec { mantissa: m, scale: s }),
            None => None,
        }
    }
}

/// The scale at which quotients are produced: enough fractional digits that
/// a later rescale to the report or display scale only drops digits the
/// display could never show.
pub const QUOTIENT_SCALE: u32 = 18;

/// What `div` returns: the quotient truncated at `QUOTIENT_SCALE` fractional
/// digits. `None` when the quotient mantissa would not fit, or when the
/// divisor mantissa is too large to process digit by digit.
pub open spec fn spec_div(a: Dec, b: Dec) -> Option<Dec>
    recommends
        b.mantissa != 0,
{
    if b.mantissa == 0 || b.mantissa as int > u128::MAX as int / 10 {
        None
    } else {
        let q = (a.mantissa as int * pow10(b.scale as nat + QUOTIENT_SCALE as nat)) / (
        b.mantissa as int * pow10(a.scale as nat));
        if q <= u128::MAX as int {
            Some(Dec { mantissa: q as u128, scale: QUOTIENT_SCALE })
        } else {
            None
        }
    }
}

impl Dec {
    /// The quotient of two amounts, truncated at `QUOTIENT_SCALE` fractional
    /// digits; exact whenever the true quotient has no further digits.
    #[verifier::loop_isolation(false)]
    pub fn div(self, o: Dec) -> (r: Option<Dec>)
        requires
            o.mantissa != 0,
        ensures
            r == spec_div(self, o),
    {
        if o.mantissa > u128::MAX / 10 {
            return None;
        }
        let n = self.mantissa;
        let d = o.mantissa;
        let ghost ni = n as int;
        let ghost di = d as int;
        let ghost qspec = (ni * pow10(o.scale as nat + QUOTIENT_SCALE as nat)) / (di * pow10(
            self.scale as nat,
        ));
        let target: u64 = o.scale as u64 + QUOTIENT_SCALE as u64;
        proof {
            lemma_pow10_pos(self.scale as nat);
            lemma_pow10_pos(o.scale as nat + QUOTIENT_SCALE as nat);
        }
        if target >= self.scale as u64 {
            let e: u64 = target - self.scale as u64;
            proof {
                lemma_pow10_pos(e as nat);
                lemma_pow_adds(10, self.scale as nat, e as nat);
                lemma_mul_nonnegative(ni, pow10(e as nat));
                lemma_div_multiples_vanish_quotient(
                    pow10(self.scale as nat),
                    ni * pow10(e as nat),
                    di,
                );
                assert(pow10(self.scale as nat) * (ni * pow10(e as nat)) == ni * pow10(
                    o.scale as nat + QUOTIENT_SCALE as nat,
                )) by (nonlinear_arith)
                    requires
                        pow10(o.scale as nat + QUOTIENT_SCALE as nat) == pow10(self.scale as nat)
                            * pow10(e as nat),
                ;
                assert(pow10(self.scale as nat) * di == di * pow10(self.scale as nat))
                    by (nonlinear_arith);
                assert(qspec == (ni * pow10(e as nat)) / di);
            }
            let mut q = n / d;
            let mut rem = n % d;
            let mut i: u64 = 0;
            proof {
                assert(pow10(0) == 1) by {
                    vstd::arithmetic::power::lemma_pow0(10);
                }
                lemma_fundamental_div_mod(ni, di);
                assert(q as int * di + rem as int == ni * pow10(0 as nat)) by (nonlinear_arith)
                    requires
                        pow10(0 as nat) == 1,
                        ni == di * (q as int) + rem as int,
                ;
            }
            while i < e
                invariant
                    i <= e,
                    0 < di <= u128::MAX as int / 10,
                    qspec == (ni * pow10(e as nat)) / di,
                    q as int * di + rem as int == ni * pow10(i as nat),
                    rem < d,
                    d == di,
                    n == ni,
                decreases e - i,
            {
                let ghost qi = q as int;
                let ghost iold = i as nat;
                let r10 = rem * 10;
                let digit = r10 / d;
                let ghost qnext = (ni * pow10(iold + 1)) / di;
                proof {
                    lemma_pow10_step(iold);
                    lemma_fundamental_div_mod(r10 as int, di);
                    lemma_mod_division_less_than_divisor(r10 as int, di);
                    assert(ni * pow10(iold + 1) == (qi * 10 + digit as int) * di + r10 as int % di)
                        by (nonlinear_arith)
                        requires
                            pow10(iold + 1) == pow10(iold) * 10,
                            qi * di + rem as int == ni * pow10(iold),
                            r10 as int == rem as int * 10,
                            r10 as int == di * (digit as int) + r10 as int % di,
                    ;
                    // the next floor quotient is 10*q + digit
                    vstd::arithmetic::div_mod::lemma_fundamental_div_mod_converse(
                        ni * pow10(iold + 1),
                        di,
                        qi * 10 + digit as int,
                        r10 as int % di,
                    );
                    // and it never exceeds the final quotient
                    lemma_pow_increases(10, iold + 1, e as nat);
                    lemma_mul_inequality(pow10(iold + 1), pow10(e as nat), ni);
                    assert(pow10(iold + 1) * ni == ni * pow10(iold + 1)) by (nonlinear_arith);
                    assert(pow10(e as nat) * ni == ni * pow10(e as nat)) by (nonlinear_arith);
                    vstd::arithmetic::div_mod::lemma_div_is_ordered(
                        ni * pow10(iold + 1),
                        ni * pow10(e as nat),
                        di,
                    );
                }
                rem = r10 % d;
                q = match q.checked_mul(10) {
                    Some(v) => v,
                    None => {
                        proof {
                            assert(qnext > u128::MAX as int);
                        }
                        return None;
                    },
                };
                q = match q.checked_add(digit) {
                    Some(v) => v,
                    None => {
                        proof {
                            assert(qnext > u128::MAX as int);
                        }
                        return None;
                    },
                };
                i = i + 1;
            }
            proof {
                vstd::arithmetic::div_mod::lemma_fundamental_div_mod_converse(
                    ni * pow10(e as nat),
                    di,
                    q as int,
                    rem as int,
                );
            }
            Some(Dec { mantissa: q, scale: QUOTIENT_SCALE })
        } else {
            // the divisor's scale already exceeds the quotient scale: divide
            // by the divisor widened with the leftover powers of ten
            let f: u64 = self.scale as u64 - target;
            proof {
                lemma_pow10_pos(f as nat);
                lemma_pow_adds(10, o.scale as nat + QUOTIENT_SCALE as nat, f as nat);
                assert(di * pow10(f as nat) > 0) by (nonlinear_arith)
                    requires
                        di > 0,
                        pow10(f as nat) > 0,
                ;
                lemma_div_multiples_vanish_quotient(
                    pow10(o.scale as nat + QUOTIENT_SCALE as nat),
                    ni,
                    di * pow10(f as nat),
                );
                assert(pow10(o.scale as nat + QUOTIENT_SCALE as nat) * ni == ni * pow10(
                    o.scale as nat + QUOTIENT_SCALE as nat,
                )) by (nonlinear_arith);
                assert(pow10(o.scale as nat + QUOTIENT_SCALE as nat) * (di * pow10(f as nat)) == di
                    * pow10(self.scale as nat)) by (nonlinear_arith)
                    requires
                        pow10(self.scale as nat) == pow10(o.scale as nat + QUOTIENT_SCALE as nat)
                            * pow10(f as nat),
                ;
                assert(qspec == ni / (di * pow10(f as nat)));
            }
            let mut dd = d;
            let mut i: u64 = 0;
            proof {
                assert(pow10(0) == 1) by {
                    vstd::arithmetic::power::lemma_pow0(10);
                }
            }
            while i < f
                invariant
                    i <= f,
                    0 < di,
                    dd as int == di * pow10(i as nat),
                    d == di,
                    n == ni,
                decreases f - i,
            {
                let ghost iold = i as nat;
                dd = match dd.checked_mul(10) {
                    Some(v) => v,
                    None => {
                        proof {
                            lemma_pow10_step(iold);
                            lemma_pow_increases(10, iold + 1, f as nat);
                            lemma_mul_inequality(pow10(iold + 1), pow10(f as nat), di);
                            assert(di * pow10(iold) * 10 == di * pow10(iold + 1))
                                by (nonlinear_arith)
                                requires
                                    pow10(iold + 1) == pow10(iold) * 10,
                            ;
                            assert(pow10(iold + 1) * di == di * pow10(iold + 1))
                                by (nonlinear_arith);
                            assert(pow10(f as nat) * di == di * pow10(f as nat))
                                by (nonlinear_arith);
                            // the widened divisor exceeds every mantissa, so
                            // the quotient is zero
                            vstd::arithmetic::div_mod::lemma_basic_div(
                                ni,
                                di * pow10(f as nat),
                            );
                        }
                        return Some(Dec { mantissa: 0, scale: QUOTIENT_SCALE });
                    },
                };
                i = i + 1;
                proof {
                    lemma_pow10_step(iold);
                    assert(di * pow10(iold) * 10 == di * pow10(iold + 1)) by (nonlinear_arith)
                        requires
                            pow10(iold + 1) == pow10(iold) * 10,
                    ;
                }
            }
            let q = n / dd;
            proof {
                lemma_div_nonincreasing(ni, dd as int);
                if ni > 0 {
                    lemma_div_pos_is_pos(ni, dd as int);
                } else {
                    vstd::arithmetic::div_mod::lemma_div_of0(dd as int);
                }
            }
            Some(Dec { mantissa: q, scale: QUOTIENT_SCALE })
        }
    }
}

/// Rescaling a value to another scale and back never invents precision:
/// raising the scale and returning is the identity, while lowering it and
/// returning yields the value truncated to the coarser scale — at most the
/// digits below the coarser of the two scales are lost, and the loss is
/// strictly less than one unit at that scale.
pub proof fn lemma_rescale_round_trip(x: Dec, to: u32)
    ensures
        to >= x.scale ==> rescale_mant(
            rescale_mant(x.mantissa as int, x.scale as nat, to as nat),
            to as nat,
            x.scale as nat,
        ) == x.mantissa as int,
        to < x.scale ==> rescale_mant(
            rescale_mant(x.mantissa as int, x.scale as nat, to as nat),
            to as nat,
            x.scale as nat,
        ) == (x.mantissa as int / pow10((x.scale - to) as nat)) * pow10((x.scale - to) as nat),
        to < x.scale ==> x.mantissa as int - rescale_mant(
            rescale_mant(x.mantissa as int, x.scale as nat, to as nat),
            to as nat,
            x.scale as nat,
        ) < pow10((x.scale - to) as nat),
        to < x.scale ==> rescale_mant(
            rescale_mant(x.mantissa as int, x.scale as nat, to as nat),
            to as nat,
            x.scale as nat,
        ) <= x.mantissa as int,
{
    let m = x.mantissa as int;
    if to >= x.scale {
        let d = (to - x.scale) as nat;
        lemma_pow10_pos(d);
        if to == x.scale {
            assert(pow10(0) == 1) by {
                vstd::arithmetic::power::lemma_pow0(10);
            }
        } else {
            lemma_div_by_multiple(m, pow10(d));
            assert(m * pow10(d) / pow10(d) == m);
        }
    } else {
        let d = (x.scale - to) as nat;
        lemma_pow10_pos(d);
        let q = m / pow10(d);
        lemma_fundamental_div_mod(m, pow10(d));
        lemma_mod_division_less_than_divisor(m, pow10(d));
        assert(m == pow10(d) * q + m % pow10(d));
        assert(q * pow10(d) == pow10(d) * q) by (nonlinear_arith);
    }
}

} // verus!
