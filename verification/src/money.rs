//! Money: a decimal amount tagged with its currency.
//!
//! Binary operators keep the left operand's currency whatever the right
//! operand carries; the aggregation assumes currency-homogeneous groups and
//! never converts.
use crate::currency::{spec_from_code, Currency};
use crate::decimal::{dec_in_range, spec_dec, spec_div_val, spec_mul_val, Decimal};
use vstd::prelude::*;

verus! {

broadcast use crate::decimal::lemma_spec_dec_view, crate::decimal::lemma_dec_roundtrip;

/// An amount of money: a decimal value and the currency it is counted in.
#[derive(Clone, Copy, PartialEq, Eq, Structural, Hash, Debug)]
pub struct Money {
    pub value: Decimal,
    pub currency: Currency,
}

/// Sign queries shared by the numeric report quantities; rendering uses them
/// to pick a color for a cell.
pub trait NumberRange {
    fn is_negative(&self) -> bool;

    fn is_zero(&self) -> bool;
}

/// The money amount with value `v` (as a scaled mantissa) in currency `c`.
pub open spec fn spec_money(v: int, c: Currency) -> Money {
    Money { value: spec_dec(v), currency: c }
}

/// What money addition returns: the sum of the values under the left
/// operand's currency tag.
pub open spec fn spec_add(a: Money, b: Money) -> Money {
    spec_money(a.value@ + b.value@, a.currency)
}

impl Money {
    /// Tags `value` with the currency `currency` resolves to; `None` when the
    /// code is not in the ISO 4217 table.
    pub fn new(value: Decimal, currency: &str) -> (r: Option<Money>)
        ensures
            r == (match spec_from_code(currency@) {
                Some(c) => Some(Money { value, currency: c }),
                None => None::<Money>,
            }),
    {
        match Currency::from_code(currency) {
            Some(c) => Some(Money { value, currency: c }),
            None => None,
        }
    }

    pub fn from_value(value: Decimal, currency: Currency) -> (r: Money)
        ensures
            r == (Money { value, currency }),
    {
        Money { value, currency }
    }

    /// The zero amount of a currency: the identity for addition.
    pub fn zero(currency: Currency) -> (r: Money)
        ensures
            r == spec_money(0, currency),
            r.value@ == 0,
            r.currency == currency,
    {
        Money { value: Decimal::zero(), currency }
    }

    /// Adds the values; the result keeps `self`'s currency.
    pub fn add(self, rhs: Money) -> (r: Money)
        requires
            dec_in_range(self.value@ + rhs.value@),
        ensures
            r == spec_add(self, rhs),
            r.value@ == self.value@ + rhs.value@,
            r.currency == self.currency,
    {
        Money { value: self.value.add(rhs.value), currency: self.currency }
    }

    /// In-place form of `add`.
    pub fn add_assign(&mut self, rhs: Money)
        requires
            dec_in_range(old(self).value@ + rhs.value@),
        ensures
            *final(self) == spec_add(*old(self), rhs),
            final(self).value@ == old(self).value@ + rhs.value@,
            final(self).currency == old(self).currency,
    {
        self.value = self.value.add(rhs.value);
    }

    /// Subtracts the values; the result keeps `self`'s currency.
    pub fn sub(self, rhs: Money) -> (r: Money)
        requires
            dec_in_range(self.value@ - rhs.value@),
        ensures
            r == spec_money(self.value@ - rhs.value@, self.currency),
            r.value@ == self.value@ - rhs.value@,
            r.currency == self.currency,
    {
        Money { value: self.value.sub(rhs.value), currency: self.currency }
    }

    /// Adds a bare decimal to the value; the currency stays.
    pub fn add_value(self, rhs: Decimal) -> (r: Money)
        requires
            dec_in_range(self.value@ + rhs@),
        ensures
            r == spec_money(self.value@ + rhs@, self.currency),
            r.value@ == self.value@ + rhs@,
            r.currency == self.currency,
    {
        Money { value: self.value.add(rhs), currency: self.currency }
    }

    /// Subtracts a bare decimal from the value; the currency stays.
    pub fn sub_value(self, rhs: Decimal) -> (r: Money)
        requires
            dec_in_range(self.value@ - rhs@),
        ensures
            r == spec_money(self.value@ - rhs@, self.currency),
            r.value@ == self.value@ - rhs@,
            r.currency == self.currency,
    {
        Money { value: self.value.sub(rhs), currency: self.currency }
    }

    /// Scales the amount by a decimal factor (price times quantity); the
    /// product is truncated toward zero at the ninth fractional digit.
    pub fn mul(self, factor: Decimal) -> (r: Money)
        requires
            dec_in_range(spec_mul_val(self.value@, factor@)),
        ensures
            r == spec_money(spec_mul_val(self.value@, factor@), self.currency),
            r.value@ == spec_mul_val(self.value@, factor@),
            r.currency == self.currency,
    {
        Money { value: self.value.mul(factor), currency: self.currency }
    }

    /// Multiplies the values; the result keeps `self`'s currency.
    pub fn mul_money(self, rhs: Money) -> (r: Money)
        requires
            dec_in_range(spec_mul_val(self.value@, rhs.value@)),
        ensures
            r == spec_money(spec_mul_val(self.value@, rhs.value@), self.currency),
            r.value@ == spec_mul_val(self.value@, rhs.value@),
            r.currency == self.currency,
    {
        Money { value: self.value.mul(rhs.value), currency: self.currency }
    }

    /// Divides the values; the result keeps `self`'s currency.  The quotient
    /// is truncated toward zero at the ninth fractional digit.
    pub fn div(self, rhs: Money) -> (r: Money)
        requires
            rhs.value@ != 0,
            dec_in_range(spec_div_val(self.value@, rhs.value@)),
        ensures
            r == spec_money(spec_div_val(self.value@, rhs.value@), self.currency),
            r.value@ == spec_div_val(self.value@, rhs.value@),
            r.currency == self.currency,
    {
        Money { value: self.value.div(rhs.value), currency: self.currency }
    }

    /// Divides the value by a bare decimal; the currency stays.
    pub fn div_value(self, rhs: Decimal) -> (r: Money)
        requires
            rhs@ != 0,
            dec_in_range(spec_div_val(self.value@, rhs@)),
        ensures
            r == spec_money(spec_div_val(self.value@, rhs@), self.currency),
            r.value@ == spec_div_val(self.value@, rhs@),
            r.currency == self.currency,
    {
        Money { value: self.value.div(rhs), currency: self.currency }
    }

    /// In-place form of `sub`.
    pub fn sub_assign(&mut self, rhs: Money)
        requires
            dec_in_range(old(self).value@ - rhs.value@),
        ensures
            *final(self) == spec_money(old(self).value@ - rhs.value@, old(self).currency),
            final(self).value@ == old(self).value@ - rhs.value@,
            final(self).currency == old(self).currency,
    {
        self.value = self.value.sub(rhs.value);
    }

    /// In-place form of `mul_money`.
    pub fn mul_assign(&mut self, rhs: Money)
        requires
            dec_in_range(spec_mul_val(old(self).value@, rhs.value@)),
        ensures
            *final(self) == spec_money(
                spec_mul_val(old(self).value@, rhs.value@),
                old(self).currency,
            ),
            final(self).value@ == spec_mul_val(old(self).value@, rhs.value@),
            final(self).currency == old(self).currency,
    {
        self.value = self.value.mul(rhs.value);
    }

    /// In-place form of `div`.
    pub fn div_assign(&mut self, rhs: Money)
        requires
            rhs.value@ != 0,
            dec_in_range(spec_div_val(old(self).value@, rhs.value@)),
        ensures
            *final(self) == spec_money(
                spec_div_val(old(self).value@, rhs.value@),
                old(self).currency,
            ),
            final(self).value@ == spec_div_val(old(self).value@, rhs.value@),
            final(self).currency == old(self).currency,
    {
        self.value = self.value.div(rhs.value);
    }

    pub fn is_negative(&self) -> (r: bool)
        ensures
            r <==> self.value@ < 0,
    {
        self.value.is_negative()
    }

    pub fn is_zero(&self) -> (r: bool)
        ensures
            r <==> self.value@ == 0,
    {
        self.value.is_zero()
    }
}

impl NumberRange for Money {
    fn is_negative(&self) -> bool {
        Money::is_negative(self)
    }

    fn is_zero(&self) -> bool {
        Money::is_zero(self)
    }
}

/// Law: for every money amount `m` of currency `c`, `zero(c) + m == m`, and
/// `zero(c)` reads as zero.
pub proof fn lemma_zero_add_identity(c: Currency, m: Money)
    requires
        m.currency == c,
    ensures
        spec_add(spec_money(0, c), m) == m,
        spec_money(0, c).value@ == 0,
{
    m.value.lemma_view_roundtrip();
}

} // verus!
