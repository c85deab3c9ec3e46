//! Mark-to-market return of a position or of a group of positions.
//!
//! An `Income` pairs a current value with a cost basis (`balance`) in one
//! currency.  The derived quantities are the signed delta and the percentage
//! `delta / balance * 100`, defined as exactly zero when the balance is zero.
use crate::currency::Currency;
use crate::decimal::{
    dec_in_range, lemma_mul_by_int_exact, spec_dec, spec_div_val, Decimal, DEC_ONE,
};
use crate::money::{Money, NumberRange};
use vstd::prelude::*;

verus! {

broadcast use crate::decimal::lemma_spec_dec_view, crate::decimal::lemma_dec_roundtrip;

/// Current value and cost basis of a currency-homogeneous group.
#[derive(Clone, Copy, PartialEq, Eq, Structural, Debug)]
pub struct Income {
    pub currency: Currency,
    pub current: Decimal,
    pub balance: Decimal,
}

/// The income with current value `cur` and balance `bal` (scaled mantissas)
/// in currency `c`.
pub open spec fn spec_income(cur: int, bal: int, c: Currency) -> Income {
    Income { currency: c, current: spec_dec(cur), balance: spec_dec(bal) }
}

/// What income addition returns: component-wise sums under the left
/// operand's currency tag.
pub open spec fn spec_income_add(a: Income, b: Income) -> Income {
    spec_income(a.current@ + b.current@, a.balance@ + b.balance@, a.currency)
}

/// The percentage return of `cur` over `bal`, as a scaled mantissa:
/// `(cur - bal) / bal * 100`, and exactly zero when `bal` is zero.
pub open spec fn spec_percent(cur: int, bal: int) -> int {
    if bal == 0 {
        0
    } else {
        spec_div_val(100 * (cur - bal), bal)
    }
}

impl Income {
    /// Pairs a current value with a balance; the currency tag is taken from
    /// `current`, whatever `balance` carries.
    pub fn new(current: Money, balance: Money) -> (r: Income)
        ensures
            r == spec_income(current.value@, balance.value@, current.currency),
            r.current@ == current.value@,
            r.balance@ == balance.value@,
            r.currency == current.currency,
    {
        Income { currency: current.currency, current: current.value, balance: balance.value }
    }

    pub fn zero(currency: Currency) -> (r: Income)
        ensures
            r == spec_income(0, 0, currency),
            r.current@ == 0,
            r.balance@ == 0,
            r.currency == currency,
    {
        Income { currency, current: Decimal::zero(), balance: Decimal::zero() }
    }

    /// The signed delta between current value and cost basis.
    pub fn income(&self) -> (r: Decimal)
        requires
            dec_in_range(self.current@ - self.balance@),
        ensures
            r == spec_dec(self.current@ - self.balance@),
            r@ == self.current@ - self.balance@,
    {
        self.current.sub(self.balance)
    }

    /// The percentage return; zero when the balance is zero, with no division
    /// attempted and nothing asked of the delta there.
    pub fn percent(&self) -> (r: Decimal)
        requires
            self.balance@ == 0 || dec_in_range(100 * (self.current@ - self.balance@)),
            dec_in_range(spec_percent(self.current@, self.balance@)),
        ensures
            r == spec_dec(spec_percent(self.current@, self.balance@)),
            r@ == spec_percent(self.current@, self.balance@),
    {
        if self.balance.is_zero() {
            Decimal::zero()
        } else {
            let delta = self.current.sub(self.balance);
            let hundred = Decimal::from_int(100);
            proof {
                lemma_mul_by_int_exact(delta@, 100);
            }
            let scaled = delta.mul(hundred);
            scaled.div(self.balance)
        }
    }

    /// Adds component-wise; the result keeps `self`'s currency.
    pub fn add(self, rhs: Income) -> (r: Income)
        requires
            dec_in_range(self.current@ + rhs.current@),
            dec_in_range(self.balance@ + rhs.balance@),
        ensures
            r == spec_income_add(self, rhs),
            r.current@ == self.current@ + rhs.current@,
            r.balance@ == self.balance@ + rhs.balance@,
            r.currency == self.currency,
    {
        Income {
            currency: self.currency,
            current: self.current.add(rhs.current),
            balance: self.balance.add(rhs.balance),
        }
    }

    /// In-place form of `add`.
    pub fn add_assign(&mut self, rhs: Income)
        requires
            dec_in_range(old(self).current@ + rhs.current@),
            dec_in_range(old(self).balance@ + rhs.balance@),
        ensures
            *final(self) == spec_income_add(*old(self), rhs),
            final(self).current@ == old(self).current@ + rhs.current@,
            final(self).balance@ == old(self).balance@ + rhs.balance@,
            final(self).currency == old(self).currency,
    {
        self.current = self.current.add(rhs.current);
        self.balance = self.balance.add(rhs.balance);
    }
}

impl NumberRange for Income {
    fn is_negative(&self) -> bool {
        self.current.lt(&self.balance)
    }

    fn is_zero(&self) -> bool {
        self.current.eq_value(&self.balance)
    }
}

/// Law: a zero balance yields a zero percentage, for every current value.
pub proof fn lemma_percent_zero_balance(cur: int)
    ensures
        spec_percent(cur, 0) == 0,
{
}

} // verus!
