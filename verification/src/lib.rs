//! Brokerage portfolio aggregation: typed money arithmetic, operation
//! classification and reduction, position/paper/asset/portfolio rollups and
//! per-instrument history ledgers, all with verified contracts.
//!
//! This crate root holds the conversions from the broker's scaled wire
//! numbers (`units` plus a nano fraction) into the library's decimal and
//! money types.
use vstd::prelude::*;

pub mod asset;
pub mod currency;
pub mod decimal;
pub mod history;
pub mod income;
pub mod money;
pub mod operations;
pub mod paper;
pub mod portfolio;
pub mod position;
pub mod progress;
pub mod raw;
pub mod sums;

use crate::currency::{spec_from_code, Currency};
use crate::decimal::{spec_pow10, Decimal, DEC_ONE};
use crate::money::{spec_money, Money};
use crate::raw::{RawMoney, RawQuotation, RawTimestamp};

verus! {

broadcast use crate::decimal::lemma_spec_dec_view, crate::decimal::lemma_dec_roundtrip;

/// Number of decimal digits of a nonnegative integer.
pub open spec fn spec_digit_count(n: int) -> nat
    decreases n,
{
    if n < 10 {
        1
    } else {
        1 + spec_digit_count(n / 10)
    }
}

/// Whether a nano fraction is representable: up to nine digits, or ten
/// digits ending in zero, which reduce to nine exactly.  A ten-digit
/// fraction with a nonzero last digit would lose that digit.
pub open spec fn spec_nano_ok(nano: int) -> bool {
    let n = vstd::math::abs(nano) as int;
    n < DEC_ONE as int || (n < 10 * (DEC_ONE as int) && n % 10 == 0)
}

/// The value (as a scaled mantissa) that the broker's notation denotes: the
/// digits of `|nano|` are read as the fractional digits right of the point,
/// and the sign of `nano` counts only when `units` is zero.  A tenth digit,
/// when it is zero, is dropped without loss.
pub open spec fn spec_quote_val(units: int, nano: int) -> int {
    let na0 = vstd::math::abs(nano) as int;
    let na = if na0 >= DEC_ONE as int {
        na0 / 10
    } else {
        na0
    };
    let d = spec_digit_count(na);
    let frac = na * spec_pow10((9 - d) as nat);
    let mag = (vstd::math::abs(units) as int) * (DEC_ONE as int) + frac;
    if units < 0 || (units == 0 && nano < 0) {
        -mag
    } else {
        mag
    }
}

/// The decimal an optional wire quotation reads as: absent and
/// unrepresentable values read as zero.
pub open spec fn spec_quotation_val(q: Option<RawQuotation>) -> int {
    match q {
        Some(q) => if spec_nano_ok(q.nano as int) {
            spec_quote_val(q.units as int, q.nano as int)
        } else {
            0
        },
        None => 0,
    }
}

/// The money amount a wire money value denotes, when its nano fraction is
/// representable and its currency code resolves.
pub open spec fn spec_money_of_raw(m: RawMoney) -> Option<Money> {
    if spec_nano_ok(m.nano as int) {
        match spec_from_code(m.currency@) {
            Some(c) => Some(spec_money(spec_quote_val(m.units as int, m.nano as int), c)),
            None => None,
        }
    } else {
        None
    }
}

/// The decimal a units/nano pair denotes; `None` when the nano fraction has
/// ten digits ending in a nonzero one and cannot be read back exactly.
fn quote_decimal(units: i64, nano: i32) -> (r: Option<Decimal>)
    ensures
        spec_nano_ok(nano as int) ==> {
            &&& crate::decimal::dec_in_range(spec_quote_val(units as int, nano as int))
            &&& r == Some(crate::decimal::spec_dec(spec_quote_val(units as int, nano as int)))
            &&& (r matches Some(d) && d@ == spec_quote_val(units as int, nano as int))
        },
        !spec_nano_ok(nano as int) ==> r is None,
{
    let na0: i64 = if nano < 0 {
        -(nano as i64)
    } else {
        nano as i64
    };
    let na: i64 = if na0 >= 1_000_000_000 {
        if na0 % 10 == 0 {
            na0 / 10
        } else {
            return None;
        }
    } else {
        na0
    };
    let d: u32 = if na < 10 {
        1
    } else if na < 100 {
        2
    } else if na < 1_000 {
        3
    } else if na < 10_000 {
        4
    } else if na < 100_000 {
        5
    } else if na < 1_000_000 {
        6
    } else if na < 10_000_000 {
        7
    } else if na < 100_000_000 {
        8
    } else {
        9
    };
    proof {
        reveal_with_fuel(spec_digit_count, 10);
        assert(spec_digit_count(na as int) == d as int);
    }
    let p = crate::decimal::pow10_upto9(9 - d);
    proof {
        vstd::arithmetic::mul::lemma_mul_upper_bound(
            na as int,
            1_000_000_000,
            p as int,
            100_000_000,
        );
        vstd::arithmetic::mul::lemma_mul_nonnegative(na as int, p as int);
    }
    let frac = (na as i128) * p;
    let ua: i128 = if units < 0 {
        -(units as i128)
    } else {
        units as i128
    };
    proof {
        vstd::arithmetic::mul::lemma_mul_upper_bound(
            ua as int,
            9_223_372_036_854_775_808,
            DEC_ONE as int,
            DEC_ONE as int,
        );
        vstd::arithmetic::mul::lemma_mul_nonnegative(ua as int, DEC_ONE as int);
    }
    let mag = ua * DEC_ONE + frac;
    let neg = units < 0 || (units == 0 && nano < 0);
    let m = if neg {
        -mag
    } else {
        mag
    };
    match Decimal::from_mantissa(m) {
        Some(dec) => Some(dec),
        None => None,
    }
}

/// Reads an optional wire quotation as a decimal; an absent or
/// unrepresentable value reads as zero.
pub fn to_decimal(val: Option<&RawQuotation>) -> (r: Decimal)
    ensures
        r@ == (match val {
            Some(q) => if spec_nano_ok(q.nano as int) {
                spec_quote_val(q.units as int, q.nano as int)
            } else {
                0
            },
            None => 0,
        }),
{
    if let Some(q) = val {
        match quote_decimal(q.units, q.nano) {
            Some(d) => d,
            None => Decimal::zero(),
        }
    } else {
        Decimal::zero()
    }
}

/// Reads an optional wire money value as a tagged amount; absent values,
/// unrepresentable nano fractions and unknown currency codes give `None`.
pub fn to_money(val: Option<&RawMoney>) -> (r: Option<Money>)
    ensures
        r == (match val {
            Some(m) => spec_money_of_raw(*m),
            None => None::<Money>,
        }),
        r matches Some(mo) ==> (match val {
            Some(m) => mo.value@ == spec_quote_val(m.units as int, m.nano as int),
            None => false,
        }),
{
    let m = match val {
        Some(m) => m,
        None => {
            return None;
        },
    };
    let value = match quote_decimal(m.units, m.nano) {
        Some(v) => v,
        None => {
            return None;
        },
    };
    Money::new(value, m.currency.as_str())
}

/// Reads the currency tag of an optional wire money value.
pub fn to_currency(mv: &Option<RawMoney>) -> (r: Option<Currency>)
    ensures
        r == (match mv {
            Some(m) => spec_from_code(m.currency@),
            None => None::<Currency>,
        }),
{
    match mv {
        Some(m) => Currency::from_code(m.currency.as_str()),
        None => None,
    }
}

/// What chrono builds from a count of Unix seconds: the same count when it
/// is within chrono's representable range, and the epoch otherwise.
pub uninterp spec fn spec_timestamp_norm(seconds: int) -> int;

/// A count of seconds safely within chrono's calendar, which its
/// documentation limits to about ±262,000 years from the common era:
/// ±4·10^12 seconds stay under ±127,000 years.
pub open spec fn spec_timestamp_in_range(seconds: int) -> bool {
    -4_000_000_000_000 <= seconds <= 4_000_000_000_000
}

/// Relies on chrono::DateTime::from_timestamp, documented to be `None`
/// exactly on an out-of-range count of seconds and to round-trip with
/// DateTime::timestamp otherwise, with the date range limited to about
/// ±262,000 years; the `None` fallback is chrono's default, the Unix epoch.
/// So the result is the count itself or zero, and within the conservative
/// range above it is always the count itself.
#[verifier::external_body]
fn normalize_timestamp(seconds: i64) -> (r: i64)
    ensures
        r as int == spec_timestamp_norm(seconds as int),
        r == seconds || r == 0,
        spec_timestamp_in_range(seconds as int) ==> r == seconds,
{
    chrono::DateTime::<chrono::Utc>::from_timestamp(seconds, 0).unwrap_or_default().timestamp()
}

/// Reads an optional wire timestamp as Unix seconds, clamped to chrono's
/// datetime range; an absent timestamp reads as the epoch.  Any count within
/// ±4·10^12 seconds of the epoch reads back unchanged; an out-of-range count
/// reads as the epoch.
pub fn to_datetime_utc(ts: Option<&RawTimestamp>) -> (r: i64)
    ensures
        r as int == (match ts {
            Some(t) => spec_timestamp_norm(t.seconds as int),
            None => 0,
        }),
        (match ts {
            Some(t) => r == t.seconds || r == 0,
            None => r == 0,
        }),
        (match ts {
            Some(t) => spec_timestamp_in_range(t.seconds as int) ==> r == t.seconds,
            None => true,
        }),
{
    if let Some(t) = ts {
        normalize_timestamp(t.seconds)
    } else {
        0
    }
}

} // verus!
