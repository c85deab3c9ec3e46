//! Fixed-point decimal numbers: the numeric carrier for every money amount,
//! price, quantity and percentage in the report.
//!
//! A `Decimal` stores an integer mantissa `m` and denotes the value
//! `m / 10^9`, i.e. every value carries exactly nine fractional decimal
//! digits.  The mantissa is kept within `±10^28`, which comfortably holds any
//! broker-supplied `units` (an `i64`) scaled by `10^9`, and leaves room for
//! portfolio-wide sums.
//!
//! Nine digits is the type's native rounding: a product or quotient whose
//! exact result carries more fractional digits is truncated toward zero at
//! the ninth.  This is narrower than an arbitrary-precision decimal — two
//! factors with nine fractional digits each multiply exactly there but not
//! here — and `lemma_product_exact` states precisely when nothing is lost:
//! whenever the factors' mantissa product is a multiple of `10^9`, which
//! covers every broker price or payment scaled by an integer quantity.
use vstd::arithmetic::div_mod::{
    lemma_fundamental_div_mod, lemma_fundamental_div_mod_converse, lemma_hoist_over_denominator,
    lemma_div_pos_is_pos, lemma_div_is_ordered,
};
use vstd::arithmetic::mul::{lemma_mul_inequality, lemma_mul_nonnegative, lemma_mul_upper_bound};
use vstd::prelude::*;
use vstd::string::StringExecFns;

verus! {

/// 10^9: the implicit denominator under every mantissa.
pub const DEC_ONE: i128 = 1_000_000_000;

/// Largest mantissa magnitude a `Decimal` may hold: 10^28.
pub const DEC_LIMIT: i128 = 10_000_000_000_000_000_000_000_000_000;

/// A decimal number with nine fractional digits, held as a scaled mantissa.
#[derive(Clone, Copy, PartialEq, Eq, Structural, Hash, Debug)]
pub struct Decimal {
    mantissa: i128,
}

impl View for Decimal {
    type V = int;

    /// A `Decimal` is abstracted as its mantissa: the integer `v` stands for
    /// the numeric value `v / 10^9`.
    closed spec fn view(&self) -> int {
        self.mantissa as int
    }
}

/// The mantissa range every well-formed `Decimal` stays in.
pub open spec fn dec_in_range(v: int) -> bool {
    -(DEC_LIMIT as int) <= v <= DEC_LIMIT as int
}

/// The `Decimal` whose mantissa is `v` (meaningful when `dec_in_range(v)`).
pub closed spec fn spec_dec(v: int) -> Decimal {
    Decimal { mantissa: v as i128 }
}

/// Truncating (toward zero) division, the rounding used when a product or
/// quotient has more than nine fractional digits.
pub open spec fn div_trunc(a: int, b: int) -> int {
    let q = (vstd::math::abs(a) as int) / (vstd::math::abs(b) as int);
    if (a < 0) <==> (b < 0) {
        q
    } else {
        -q
    }
}

/// Value of a product of two decimals: the exact product has eighteen
/// fractional digits; the result keeps nine, rounding toward zero.
pub open spec fn spec_mul_val(a: int, b: int) -> int {
    div_trunc(a * b, DEC_ONE as int)
}

/// Value of a quotient of two decimals, rounded toward zero at the ninth
/// fractional digit.
pub open spec fn spec_div_val(a: int, b: int) -> int {
    div_trunc(a * (DEC_ONE as int), b)
}

/// 10^k.
pub open spec fn spec_pow10(k: nat) -> int
    decreases k,
{
    if k == 0 {
        1
    } else {
        10 * spec_pow10((k - 1) as nat)
    }
}

/// `v` rounded to a multiple of `d`, halves to the even multiple.
pub open spec fn spec_round_at(v: int, d: int) -> int {
    let m = vstd::math::abs(v) as int;
    let q = m / d;
    let r = m % d;
    let q2 = if 2 * r > d || (2 * r == d && q % 2 == 1) {
        q + 1
    } else {
        q
    };
    if v < 0 {
        -(q2 * d)
    } else {
        q2 * d
    }
}

/// `v` rounded to `dp` fractional digits (banker's rounding); asking for nine
/// or more digits keeps the value unchanged.
pub open spec fn spec_round_dp(v: int, dp: nat) -> int {
    if dp < 9 {
        spec_round_at(v, spec_pow10((9 - dp) as nat))
    } else {
        v
    }
}

/// The character for one decimal digit.
pub open spec fn digit_char(d: int) -> char {
    if d == 0 {
        '0'
    } else if d == 1 {
        '1'
    } else if d == 2 {
        '2'
    } else if d == 3 {
        '3'
    } else if d == 4 {
        '4'
    } else if d == 5 {
        '5'
    } else if d == 6 {
        '6'
    } else if d == 7 {
        '7'
    } else if d == 8 {
        '8'
    } else {
        '9'
    }
}

/// Decimal digit characters of a nonnegative integer, most significant first.
pub open spec fn spec_digits(n: int) -> Seq<char>
    decreases n,
{
    if n < 10 {
        seq![digit_char(n)]
    } else {
        spec_digits(n / 10).push(digit_char(n % 10))
    }
}

/// Exactly `k` digit characters of `n` (expected: `0 <= n < 10^k`),
/// zero-padded on the left.
pub open spec fn spec_padded(n: int, k: nat) -> Seq<char>
    decreases k,
{
    if k == 0 {
        Seq::empty()
    } else {
        spec_padded(n / 10, (k - 1) as nat).push(digit_char(n % 10))
    }
}

/// How many trailing zero digits a positive integer carries.
pub open spec fn spec_tz(n: int) -> nat
    decreases n,
{
    if n <= 0 {
        0
    } else if n % 10 == 0 {
        1 + spec_tz(n / 10)
    } else {
        0
    }
}

/// The character rendering of a decimal value: optional minus sign, integer
/// digits, and, when the fractional part is nonzero, a point followed by the
/// fractional digits with trailing zeros removed.
pub open spec fn spec_dec_chars(v: int) -> Seq<char> {
    let sign: Seq<char> = if v < 0 {
        seq!['-']
    } else {
        Seq::empty()
    };
    let m = vstd::math::abs(v) as int;
    let ip = m / (DEC_ONE as int);
    let f = m % (DEC_ONE as int);
    if f == 0 {
        sign + spec_digits(ip)
    } else {
        sign + spec_digits(ip) + seq!['.'] + spec_padded(
            f / spec_pow10(spec_tz(f)),
            (9 - spec_tz(f)) as nat,
        )
    }
}

impl Decimal {
    /// Every constructed `Decimal` keeps its mantissa within `±10^28`; exec
    /// code recovers this fact with `use_type_invariant`.
    #[verifier::type_invariant]
    pub open spec fn type_inv(self) -> bool {
        dec_in_range(self@)
    }

    /// `spec_dec` inverts the view.
    pub proof fn lemma_view_roundtrip(self)
        ensures
            spec_dec(self@) == self,
    {
    }
}

/// The view of `spec_dec(v)` is `v` itself whenever `v` fits the mantissa
/// type.
pub broadcast proof fn lemma_spec_dec_view(v: int)
    requires
        i128::MIN <= v <= i128::MAX,
    ensures
        #[trigger] spec_dec(v)@ == v,
{
}

/// Rebuilding a decimal from its view gives the same value.
pub broadcast proof fn lemma_dec_roundtrip(d: Decimal)
    ensures
        #[trigger] spec_dec(d@) == d,
{
}

impl Decimal {

    pub fn zero() -> (r: Decimal)
        ensures
            r == spec_dec(0),
            r@ == 0,
    {
        Decimal { mantissa: 0 }
    }

    /// Builds the decimal with mantissa `m`, i.e. the value `m / 10^9`.
    pub fn from_mantissa(m: i128) -> (r: Option<Decimal>)
        ensures
            dec_in_range(m as int) ==> r == Some(spec_dec(m as int)),
            !dec_in_range(m as int) ==> r is None,
    {
        if -DEC_LIMIT <= m && m <= DEC_LIMIT {
            Some(Decimal { mantissa: m })
        } else {
            None
        }
    }

    /// The decimal with integer value `n`.
    pub fn from_int(n: i64) -> (r: Decimal)
        ensures
            r == spec_dec(n * (DEC_ONE as int)),
            r@ == n * (DEC_ONE as int),
    {
        Decimal { mantissa: (n as i128) * DEC_ONE }
    }

    pub fn is_zero(&self) -> (r: bool)
        ensures
            r <==> self@ == 0,
    {
        self.mantissa == 0
    }

    pub fn lt(&self, rhs: &Decimal) -> (r: bool)
        ensures
            r <==> self@ < rhs@,
    {
        self.mantissa < rhs.mantissa
    }

    pub fn eq_value(&self, rhs: &Decimal) -> (r: bool)
        ensures
            r <==> self@ == rhs@,
    {
        self.mantissa == rhs.mantissa
    }

    pub fn is_negative(&self) -> (r: bool)
        ensures
            r <==> self@ < 0,
    {
        self.mantissa < 0
    }

    pub fn add(self, rhs: Decimal) -> (r: Decimal)
        requires
            dec_in_range(self@ + rhs@),
        ensures
            r == spec_dec(self@ + rhs@),
            r@ == self@ + rhs@,
    {
        proof {
            use_type_invariant(self);
            use_type_invariant(rhs);
        }
        Decimal { mantissa: self.mantissa + rhs.mantissa }
    }

    pub fn sub(self, rhs: Decimal) -> (r: Decimal)
        requires
            dec_in_range(self@ - rhs@),
        ensures
            r == spec_dec(self@ - rhs@),
            r@ == self@ - rhs@,
    {
        proof {
            use_type_invariant(self);
            use_type_invariant(rhs);
        }
        Decimal { mantissa: self.mantissa - rhs.mantissa }
    }

    /// Product, truncated toward zero at the ninth fractional digit.
    pub fn mul(self, rhs: Decimal) -> (r: Decimal)
        requires
            dec_in_range(spec_mul_val(self@, rhs@)),
        ensures
            r == spec_dec(spec_mul_val(self@, rhs@)),
            r@ == spec_mul_val(self@, rhs@),
    {
        proof {
            use_type_invariant(self);
            use_type_invariant(rhs);
        }
        let a = self.mantissa;
        let b = rhs.mantissa;
        let an: i128 = if a < 0 { -a } else { a };
        let bn: i128 = if b < 0 { -b } else { b };
        let neg = (a < 0) != (b < 0);
        proof {
            assert((a as int) * (b as int) == if neg {
                -((an as int) * (bn as int))
            } else {
                (an as int) * (bn as int)
            }) by (nonlinear_arith)
                requires
                    an == if a < 0 { -(a as int) } else { a as int },
                    bn == if b < 0 { -(b as int) } else { b as int },
                    neg == ((a < 0) != (b < 0)),
            ;
        }
        let q = an / DEC_ONE;
        let s = an % DEC_ONE;
        let ghost prod: int = (an as int) * (bn as int);
        proof {
            lemma_fundamental_div_mod(an as int, DEC_ONE as int);
            // an * bn == (q * bn) * DEC_ONE + s * bn
            assert(prod == (q as int) * (bn as int) * (DEC_ONE as int) + (s as int) * (
            bn as int)) by (nonlinear_arith)
                requires
                    an == (DEC_ONE as int) * (q as int) + (s as int),
                    prod == (an as int) * (bn as int),
            ;
            lemma_hoist_over_denominator(
                (s as int) * (bn as int),
                (q as int) * (bn as int),
                DEC_ONE as nat,
            );
            assert(prod / (DEC_ONE as int) == (q as int) * (bn as int) + ((s as int) * (
            bn as int)) / (DEC_ONE as int));
            lemma_mul_nonnegative(s as int, bn as int);
            lemma_div_pos_is_pos((s as int) * (bn as int), DEC_ONE as int);
            lemma_mul_nonnegative(q as int, bn as int);
            // hence q * bn <= prod / DEC_ONE <= DEC_LIMIT, and s * bn fits
            lemma_mul_upper_bound(s as int, DEC_ONE as int, bn as int, DEC_LIMIT as int);
        }
        let hi = q * bn;
        let lo = (s * bn) / DEC_ONE;
        let mag = hi + lo;
        let m = if neg {
            -mag
        } else {
            mag
        };
        Decimal { mantissa: m }
    }

    /// Quotient, truncated toward zero at the ninth fractional digit.
    pub fn div(self, rhs: Decimal) -> (r: Decimal)
        requires
            rhs@ != 0,
            dec_in_range(spec_div_val(self@, rhs@)),
        ensures
            r == spec_dec(spec_div_val(self@, rhs@)),
            r@ == spec_div_val(self@, rhs@),
    {
        proof {
            use_type_invariant(self);
            use_type_invariant(rhs);
        }
        let a = self.mantissa;
        let b = rhs.mantissa;
        let an: i128 = if a < 0 { -a } else { a };
        let bn: i128 = if b < 0 { -b } else { b };
        let neg = (a < 0) != (b < 0);
        proof {
            assert((a as int) * (DEC_ONE as int) == if a < 0 {
                -((an as int) * (DEC_ONE as int))
            } else {
                (an as int) * (DEC_ONE as int)
            }) by (nonlinear_arith)
                requires
                    an == if a < 0 { -(a as int) } else { a as int },
            ;
        }
        let q = an / bn;
        let s = an % bn;
        let ghost scaled: int = (an as int) * (DEC_ONE as int);
        proof {
            lemma_fundamental_div_mod(an as int, bn as int);
            assert(scaled == (q as int) * (DEC_ONE as int) * (bn as int) + (s as int) * (
            DEC_ONE as int)) by (nonlinear_arith)
                requires
                    an == (bn as int) * (q as int) + (s as int),
                    scaled == (an as int) * (DEC_ONE as int),
            ;
            lemma_hoist_over_denominator(
                (s as int) * (DEC_ONE as int),
                (q as int) * (DEC_ONE as int),
                bn as nat,
            );
            assert(scaled / (bn as int) == (q as int) * (DEC_ONE as int) + ((s as int) * (
            DEC_ONE as int)) / (bn as int));
            lemma_mul_nonnegative(s as int, DEC_ONE as int);
            lemma_div_pos_is_pos((s as int) * (DEC_ONE as int), bn as int);
            lemma_mul_nonnegative(q as int, DEC_ONE as int);
            lemma_mul_upper_bound(s as int, DEC_LIMIT as int, DEC_ONE as int, DEC_ONE as int);
        }
        let hi = q * DEC_ONE;
        let lo = (s * DEC_ONE) / bn;
        let mag = hi + lo;
        let m = if neg {
            -mag
        } else {
            mag
        };
        Decimal { mantissa: m }
    }

    /// Rounds to `dp` fractional digits, halves to even (banker's rounding).
    pub fn round_dp(self, dp: u32) -> (r: Decimal)
        ensures
            r == spec_dec(spec_round_dp(self@, dp as nat)),
            r@ == spec_round_dp(self@, dp as nat),
    {
        if dp >= 9 {
            proof {
                use_type_invariant(self);
            }
            return self;
        }
        proof {
            use_type_invariant(self);
        }
        let d = pow10_upto9(9 - dp);
        let m = if self.mantissa < 0 {
            -self.mantissa
        } else {
            self.mantissa
        };
        let q = m / d;
        let r0 = m % d;
        let up = 2 * r0 > d || (2 * r0 == d && q % 2 == 1);
        let q2 = if up {
            q + 1
        } else {
            q
        };
        proof {
            lemma_fundamental_div_mod(m as int, d as int);
            lemma_mul_nonnegative(q as int, d as int);
            assert((q as int) * (d as int) <= m as int) by (nonlinear_arith)
                requires
                    m as int == (d as int) * (q as int) + (r0 as int),
                    r0 >= 0,
            ;
            if up {
                // `up` forces a nonzero remainder, so m is below DEC_LIMIT,
                // itself a multiple of d; the rounded-up multiple still fits.
                let k = (DEC_LIMIT as int) / (d as int);
                lemma_fundamental_div_mod(DEC_LIMIT as int, d as int);
                assert((DEC_LIMIT as int) - 1 == (k - 1) * (d as int) + ((d as int) - 1))
                    by (nonlinear_arith)
                    requires
                        DEC_LIMIT as int == (d as int) * k + 0,
                ;
                lemma_fundamental_div_mod_converse(
                    (DEC_LIMIT as int) - 1,
                    d as int,
                    k - 1,
                    (d as int) - 1,
                );
                lemma_div_is_ordered(m as int, (DEC_LIMIT as int) - 1, d as int);
                assert(q as int <= k - 1);
                lemma_mul_inequality(q2 as int, k, d as int);
                assert((q2 as int) * (d as int) <= k * (d as int));
                assert(k * (d as int) == DEC_LIMIT as int) by (nonlinear_arith)
                    requires
                        DEC_LIMIT as int == (d as int) * k + 0,
                ;
            }
            assert(0 <= (q2 as int) * (d as int) <= DEC_LIMIT as int);
        }
        let res = q2 * d;
        let mm = if self.mantissa < 0 {
            -res
        } else {
            res
        };
        Decimal { mantissa: mm }
    }

    /// Renders the value: minus sign for negatives, integer digits, and the
    /// fractional digits with trailing zeros trimmed ("1.1", "-0.25", "3").
    pub fn to_string(&self) -> (r: String)
        ensures
            r@ == spec_dec_chars(self@),
    {
        proof {
            use_type_invariant(*self);
        }
        let mut s = String::new();
        if self.mantissa < 0 {
            proof {
                reveal_strlit("-");
            }
            s.append("-");
        }
        let m = if self.mantissa < 0 {
            -self.mantissa
        } else {
            self.mantissa
        };
        let ip = m / DEC_ONE;
        let f = m % DEC_ONE;
        push_digits(&mut s, ip);
        if f != 0 {
            proof {
                reveal_strlit(".");
            }
            s.append(".");
            let ghost f0: int = f as int;
            let mut fv = f;
            let mut k: u32 = 9;
            proof {
                assert(f0 == (fv as int) * spec_pow10((9 - k) as nat));
            }
            while fv % 10 == 0
                invariant
                    1 <= k <= 9,
                    1 <= fv,
                    0 < f0 < DEC_ONE as int,
                    f0 == (fv as int) * spec_pow10((9 - k) as nat),
                decreases fv,
            {
                proof {
                    let p = spec_pow10((9 - k) as nat);
                    lemma_pow10_pos((9 - k) as nat);
                    // fv is a positive multiple of 10 here, so k >= 2:
                    // otherwise f0 = fv * 10^8 >= 10^9 would be too large.
                    assert(fv >= 10);
                    assert(f0 >= 10 * p) by (nonlinear_arith)
                        requires
                            fv >= 10,
                            p >= 1,
                            f0 == (fv as int) * p,
                    ;
                    if k == 1 {
                        assert(spec_pow10(8nat) == 100_000_000) by {
                            reveal_with_fuel(spec_pow10, 9);
                        }
                        assert(false);
                    }
                    lemma_fundamental_div_mod(fv as int, 10);
                    assert(f0 == ((fv as int) / 10) * spec_pow10((9 - (k - 1)) as nat))
                        by (nonlinear_arith)
                        requires
                            fv as int == 10 * ((fv as int) / 10),
                            spec_pow10((9 - (k - 1)) as nat) == 10 * spec_pow10((9 - k) as nat),
                            f0 == (fv as int) * spec_pow10((9 - k) as nat),
                    ;
                }
                fv = fv / 10;
                k = k - 1;
            }
            proof {
                lemma_tz_scaled(fv as int, (9 - k) as nat);
                assert(spec_tz(f0) == (9 - k) as nat);
                assert(f0 / spec_pow10(spec_tz(f0)) == fv as int);
            }
            push_padded(&mut s, fv, k);
        }
        proof {
            reveal_strlit("-");
            reveal_strlit(".");
            assert(s@ =~= spec_dec_chars(self@));
        }
        s
    }
}

/// The one-character string for a decimal digit.
fn digit_str(d: i128) -> (r: &'static str)
    requires
        0 <= d <= 9,
    ensures
        r@ =~= seq![digit_char(d as int)],
{
    proof {
        reveal_strlit("0");
        reveal_strlit("1");
        reveal_strlit("2");
        reveal_strlit("3");
        reveal_strlit("4");
        reveal_strlit("5");
        reveal_strlit("6");
        reveal_strlit("7");
        reveal_strlit("8");
        reveal_strlit("9");
    }
    match d {
        0 => "0",
        1 => "1",
        2 => "2",
        3 => "3",
        4 => "4",
        5 => "5",
        6 => "6",
        7 => "7",
        8 => "8",
        _ => "9",
    }
}

/// Appends the decimal digits of `n`, most significant first.
fn push_digits(s: &mut String, n: i128)
    requires
        0 <= n,
    ensures
        final(s)@ == old(s)@ + spec_digits(n as int),
    decreases n,
{
    if n < 10 {
        s.append(digit_str(n));
    } else {
        proof {
            lemma_fundamental_div_mod(n as int, 10);
        }
        push_digits(s, n / 10);
        s.append(digit_str(n % 10));
        proof {
            assert(s@ =~= old(s)@ + spec_digits(n as int));
        }
    }
}

/// Appends exactly `k` digits of `n`, zero-padded on the left.
fn push_padded(s: &mut String, n: i128, k: u32)
    requires
        0 <= n,
    ensures
        final(s)@ == old(s)@ + spec_padded(n as int, k as nat),
    decreases k,
{
    if k > 0 {
        push_padded(s, n / 10, k - 1);
        s.append(digit_str(n % 10));
        proof {
            assert(s@ =~= old(s)@ + spec_padded(n as int, k as nat));
        }
    } else {
        proof {
            assert(s@ =~= old(s)@ + spec_padded(n as int, 0));
        }
    }
}

/// When the exact product of two mantissas is a multiple of 10^9 — the
/// factors together carry at most nine fractional digits — the stored
/// product loses nothing to truncation.
pub proof fn lemma_product_exact(a: int, b: int)
    requires
        (a * b) % (DEC_ONE as int) == 0,
    ensures
        spec_mul_val(a, b) * (DEC_ONE as int) == a * b,
{
    let d = DEC_ONE as int;
    let x = a * b;
    let q = x / d;
    lemma_fundamental_div_mod(x, d);
    if x >= 0 {
        assert(vstd::math::abs(x) == x);
        assert(spec_mul_val(a, b) == q);
        assert(q * d == d * q);
    } else {
        assert(x == d * q);
        assert(-x == (-q) * d + 0) by (nonlinear_arith)
            requires
                x == d * q,
        ;
        lemma_fundamental_div_mod_converse(-x, d, -q, 0);
        assert((-x) / d == -q);
        assert(vstd::math::abs(x) == -x);
        assert(spec_mul_val(a, b) == -((-x) / d));
        assert(q * d == d * q);
    }
}

/// Multiplying by the decimal that stands for the integer `k` is exact: no
/// digits are lost to truncation.
pub proof fn lemma_mul_by_int_exact(a: int, k: int)
    requires
        k >= 0,
    ensures
        spec_mul_val(a, k * (DEC_ONE as int)) == a * k,
{
    let d = DEC_ONE as int;
    let x = a * (k * d);
    let p = a * k;
    assert(x == p * d) by (nonlinear_arith)
        requires
            x == a * (k * d),
            p == a * k,
    ;
    if p >= 0 {
        assert(vstd::math::abs(x) == p * d) by (nonlinear_arith)
            requires
                x == p * d,
                p >= 0,
                d > 0,
        ;
        vstd::arithmetic::div_mod::lemma_div_multiples_vanish(p, d);
        assert(d * p == p * d);
        assert(x >= 0);
    } else {
        assert(vstd::math::abs(x) == (-p) * d) by (nonlinear_arith)
            requires
                x == p * d,
                p < 0,
                d > 0,
        ;
        vstd::arithmetic::div_mod::lemma_div_multiples_vanish(-p, d);
        assert(d * (-p) == (-p) * d);
        assert(x < 0) by (nonlinear_arith)
            requires
                x == p * d,
                p < 0,
                d > 0,
        ;
    }
}

/// 10^k is positive.
proof fn lemma_pow10_pos(k: nat)
    ensures
        spec_pow10(k) >= 1,
    decreases k,
{
    if k > 0 {
        lemma_pow10_pos((k - 1) as nat);
    }
}

/// A positive integer with no trailing zero digit, scaled by 10^j, has
/// exactly j trailing zero digits.
proof fn lemma_tz_scaled(x: int, j: nat)
    requires
        x > 0,
        x % 10 != 0,
    ensures
        spec_tz(x * spec_pow10(j)) == j,
        x * spec_pow10(j) / spec_pow10(j) == x,
    decreases j,
{
    lemma_pow10_pos(j);
    vstd::arithmetic::div_mod::lemma_div_multiples_vanish(x, spec_pow10(j));
    assert(spec_pow10(j) * x == x * spec_pow10(j));
    if j == 0 {
        assert(spec_pow10(0) == 1);
        assert(x * 1 == x);
    } else {
        lemma_pow10_pos((j - 1) as nat);
        let y = x * spec_pow10((j - 1) as nat);
        let n = x * spec_pow10(j);
        assert(n == y * 10) by (nonlinear_arith)
            requires
                spec_pow10(j) == 10 * spec_pow10((j - 1) as nat),
                y == x * spec_pow10((j - 1) as nat),
                n == x * spec_pow10(j),
        ;
        assert(y >= 1) by (nonlinear_arith)
            requires
                x >= 1,
                spec_pow10((j - 1) as nat) >= 1,
                y == x * spec_pow10((j - 1) as nat),
        ;
        vstd::arithmetic::div_mod::lemma_div_multiples_vanish(y, 10);
        vstd::arithmetic::div_mod::lemma_mod_multiples_basic(y, 10);
        assert(n % 10 == 0);
        assert(n / 10 == y);
        lemma_tz_scaled(x, (j - 1) as nat);
        assert(n > 0);
        assert(spec_tz(n) == 1 + spec_tz(y));
    }
}

/// 10^k for k at most 9, together with the facts round_dp needs about it.
pub(crate) fn pow10_upto9(k: u32) -> (r: i128)
    requires
        k <= 9,
    ensures
        r as int == spec_pow10(k as nat),
        1 <= r <= DEC_ONE,
        k <= 8 ==> r <= 100_000_000,
        (DEC_LIMIT as int) % (r as int) == 0,
{
    proof {
        reveal_with_fuel(spec_pow10, 10);
    }
    match k {
        0 => 1,
        1 => 10,
        2 => 100,
        3 => 1_000,
        4 => 10_000,
        5 => 100_000,
        6 => 1_000_000,
        7 => 10_000_000,
        8 => 100_000_000,
        _ => 1_000_000_000,
    }
}

} // verus!
