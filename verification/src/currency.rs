//! Currency tags resolved against the ISO 4217 table.
//!
//! The report never converts between currencies; a `Currency` is only a tag
//! carried alongside each amount.  The tag is the ISO 4217 numeric code, and
//! resolving an alpha code ("rub", "USD") is delegated to the `iso_currency`
//! crate behind a trusted wrapper.
use vstd::prelude::*;

verus! {

/// ISO 4217 numeric code of the Russian ruble, the report's fallback
/// currency.
pub const RUB_NUMERIC: u16 = 643;

/// A currency tag: the ISO 4217 numeric code of the currency.
#[derive(Clone, Copy, PartialEq, Eq, Structural, Hash, Debug)]
pub struct Currency {
    pub numeric: u16,
}

/// What the ISO 4217 table lookup returns for an already upper-cased alpha
/// code: the currency's numeric code, or nothing for an unknown code.
pub uninterp spec fn iso_lookup(code: Seq<char>) -> Option<u16>;

/// ASCII upper case of one character; anything but `a`..`z` is unchanged.
pub open spec fn ascii_upper_char(c: char) -> char {
    if 97 <= c as u32 <= 122 {
        ((c as u32 - 32) as u32) as char
    } else {
        c
    }
}

/// ASCII upper case of a character sequence.
pub open spec fn spec_upper(s: Seq<char>) -> Seq<char> {
    s.map_values(|c: char| ascii_upper_char(c))
}

/// The currency an alpha code resolves to, case-insensitively.
pub open spec fn spec_from_code(s: Seq<char>) -> Option<Currency> {
    match iso_lookup(spec_upper(s)) {
        Some(n) => Some(Currency { numeric: n }),
        None => None,
    }
}

/// Relies on str::to_ascii_uppercase: ASCII letters are mapped to their upper
/// case and every other character is returned unchanged.
#[verifier::external_body]
fn ascii_uppercase(s: &str) -> (r: String)
    ensures
        r@ == spec_upper(s@),
{
    s.to_ascii_uppercase()
}

/// Relies on iso_currency::Currency::from_code, an exact match of an
/// upper-case alpha code against the ISO 4217 table, and on
/// iso_currency::Currency::numeric, which reads the matched currency's
/// numeric code.
#[verifier::external_body]
fn iso_numeric_of(code: &str) -> (r: Option<u16>)
    ensures
        r == iso_lookup(code@),
{
    match iso_currency::Currency::from_code(code) {
        Some(c) => Some(c.numeric()),
        None => None,
    }
}

impl Currency {
    /// The Russian ruble.
    pub fn rub() -> (c: Currency)
        ensures
            c == (Currency { numeric: RUB_NUMERIC }),
    {
        Currency { numeric: RUB_NUMERIC }
    }

    /// Resolves an ISO 4217 alpha code, case-insensitively; `None` when the
    /// code is not in the table.
    pub fn from_code(code: &str) -> (r: Option<Currency>)
        ensures
            r == spec_from_code(code@),
    {
        let upper = ascii_uppercase(code);
        match iso_numeric_of(upper.as_str()) {
            Some(n) => Some(Currency { numeric: n }),
            None => None,
        }
    }
}

} // verus!
