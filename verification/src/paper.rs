//! Paper: one reportable instrument, combining its position snapshot, its
//! operation totals and its identity, under a profit-kind tag that decides
//! which extra income lines the report shows for it.
use crate::currency::Currency;
use crate::decimal::{dec_in_range, lemma_product_exact, Decimal, DEC_LIMIT, DEC_ONE};
use crate::income::{spec_income, Income};
use crate::money::{spec_money, Money};
use crate::operations::{fee_part_fn, income_part_fn, reduce, Totals};
use crate::position::{spec_position_of, Position};
use crate::raw::{RawOperation, RawPosition};
use crate::sums::{prefix_sums_in, sum_by};
use vstd::prelude::*;

verus! {

broadcast use crate::decimal::lemma_spec_dec_view, crate::decimal::lemma_dec_roundtrip;

/// The extra-profit category of an asset class: whether an additional-income
/// line applies at all, and under what name the report shows it.
pub trait Profit: Sized + Copy {
    /// Whether additional profit applies to this asset class.
    fn applicable() -> bool;

    /// Display name of the additional-profit line.
    fn name() -> &'static str;
}

/// Dividend-bearing instruments (shares).
#[derive(Clone, Copy, PartialEq, Eq, Structural, Debug)]
pub struct DividentProfit;

/// Coupon-bearing instruments (bonds).
#[derive(Clone, Copy, PartialEq, Eq, Structural, Debug)]
pub struct CouponProfit;

/// Instruments with no additional-profit line (ETFs, currencies, futures);
/// the reducer may still find payments for them, but none are displayed.
#[derive(Clone, Copy, PartialEq, Eq, Structural, Debug)]
pub struct NoneProfit;

impl Profit for DividentProfit {
    fn applicable() -> bool {
        true
    }

    fn name() -> &'static str {
        "Dividents"
    }
}

impl Profit for CouponProfit {
    fn applicable() -> bool {
        true
    }

    fn name() -> &'static str {
        "Coupons"
    }
}

impl Profit for NoneProfit {
    fn applicable() -> bool {
        false
    }

    fn name() -> &'static str {
        ""
    }
}

/// An instrument's display identity.
pub struct Instrument {
    pub name: String,
    pub ticker: String,
}

/// One reportable instrument: identity, position snapshot and operation
/// totals.
pub struct Paper<P: Profit> {
    pub name: String,
    pub ticker: String,
    pub figi: String,
    pub position: Position,
    pub totals: Totals,
    pub profit: P,
}

/// Cost basis of a paper: average buy price times quantity.
pub open spec fn spec_balance_val<P: Profit>(p: Paper<P>) -> int {
    crate::decimal::spec_mul_val(p.position.average_buy_price.value@, p.position.quantity@)
}

/// Mark-to-market value of a paper: current price times quantity.
pub open spec fn spec_current_val<P: Profit>(p: Paper<P>) -> int {
    crate::decimal::spec_mul_val(p.position.current_instrument_price.value@, p.position.quantity@)
}

/// The paper's accumulated dividends or coupons.
pub open spec fn spec_dividents_val<P: Profit>(p: Paper<P>) -> int {
    p.totals.additional_profit.value@
}

/// The paper's accumulated taxes and fees.
pub open spec fn spec_fees_val<P: Profit>(p: Paper<P>) -> int {
    p.totals.fees.value@
}

impl<P: Profit> Paper<P> {
    /// Income from price movement alone: current value against cost basis.
    /// As with every binary result, the currency tag comes from the left
    /// operand — here the current value, so the current price's tag.
    pub fn income(&self) -> (r: Income)
        requires
            dec_in_range(spec_balance_val(*self)),
            dec_in_range(spec_current_val(*self)),
        ensures
            r == spec_income(
                spec_current_val(*self),
                spec_balance_val(*self),
                self.position.current_instrument_price.currency,
            ),
    {
        Income::new(self.current(), self.balance())
    }

    /// Income including the accumulated dividends or coupons: they raise the
    /// current value while the cost basis stays.  The tag is the income's,
    /// i.e. the current price's.
    pub fn total_income(&self) -> (r: Income)
        requires
            dec_in_range(spec_balance_val(*self)),
            dec_in_range(spec_current_val(*self)),
            dec_in_range(spec_current_val(*self) + spec_dividents_val(*self)),
        ensures
            r == spec_income(
                spec_current_val(*self) + spec_dividents_val(*self),
                spec_balance_val(*self),
                self.position.current_instrument_price.currency,
            ),
    {
        self.income().add(Income::new(self.dividents(), Money::zero(self.currency())))
    }

    /// Cost basis: what was really spent, average buy price times quantity,
    /// truncated toward zero at the decimal type's ninth fractional digit.
    /// Recomputed on every call, never cached; the product keeps the left
    /// operand's tag, the average buy price's currency.
    pub fn balance(&self) -> (r: Money)
        requires
            dec_in_range(spec_balance_val(*self)),
        ensures
            r == spec_money(
                spec_balance_val(*self),
                self.position.average_buy_price.currency,
            ),
    {
        self.position.average_buy_price.mul(self.position.quantity)
    }

    /// Current position value: current price times quantity, truncated
    /// toward zero at the decimal type's ninth fractional digit.  Recomputed
    /// on every call, never cached; the product keeps the current price's
    /// currency tag.
    pub fn current(&self) -> (r: Money)
        requires
            dec_in_range(spec_current_val(*self)),
        ensures
            r == spec_money(
                spec_current_val(*self),
                self.position.current_instrument_price.currency,
            ),
    {
        self.position.current_instrument_price.mul(self.position.quantity)
    }

    /// Dividends and coupons.
    pub fn dividents(&self) -> (r: Money)
        ensures
            r == self.totals.additional_profit,
    {
        self.totals.additional_profit
    }

    /// Taxes and fees.
    pub fn fees(&self) -> (r: Money)
        ensures
            r == self.totals.fees,
    {
        self.totals.fees
    }

    pub fn currency(&self) -> (r: Currency)
        ensures
            r == self.position.currency,
    {
        self.position.currency
    }

    pub fn quantity(&self) -> (r: Decimal)
        ensures
            r == self.position.quantity,
    {
        self.position.quantity
    }

    pub fn current_instrument_price(&self) -> (r: Money)
        ensures
            r == self.position.current_instrument_price,
    {
        self.position.current_instrument_price
    }

    pub fn average_buy_price(&self) -> (r: Money)
        ensures
            r == self.position.average_buy_price,
    {
        self.position.average_buy_price
    }
}

/// That `p` is exactly the paper built from instrument identity `ins`, raw
/// position `raw` (read as `pos`) and the reduced operation history `ops`.
pub open spec fn spec_paper_built<P: Profit>(
    p: Paper<P>,
    ins: Instrument,
    raw: RawPosition,
    ops: Seq<RawOperation>,
    pos: Position,
    profit: P,
) -> bool {
    &&& p.name == ins.name
    &&& p.ticker == ins.ticker
    &&& p.figi == raw.figi
    &&& p.position == pos
    &&& p.profit == profit
    &&& p.totals.additional_profit == spec_money(sum_by(ops, income_part_fn()), pos.currency)
    &&& p.totals.fees == spec_money(sum_by(ops, fee_part_fn()), pos.currency)
}

/// Builds a paper from its raw parts: the position snapshot, the instrument
/// identity the catalog lookup found, and the instrument's operation
/// history, reduced into totals in the position's currency.  An unreadable
/// position or a missing catalog entry gives `None`: the position is skipped,
/// never a partially identified line.
pub fn create_paper_from_position<P: Profit>(
    instrument: Option<&Instrument>,
    portfolio_position: &RawPosition,
    operations: &Vec<RawOperation>,
    profit: P,
) -> (r: Option<Paper<P>>)
    requires
        prefix_sums_in(operations@, income_part_fn(), DEC_LIMIT as int),
        prefix_sums_in(operations@, fee_part_fn(), DEC_LIMIT as int),
    ensures
        (match (instrument, spec_position_of(*portfolio_position)) {
            (Some(ins), Ok(pos)) => r matches Some(p) && spec_paper_built(
                p,
                *ins,
                *portfolio_position,
                operations@,
                pos,
                profit,
            ),
            _ => r is None,
        }),
{
    let position = match Position::new(portfolio_position) {
        Ok(p) => p,
        Err(_) => {
            return None;
        },
    };
    let totals = reduce(operations, position.currency);
    let instrument = match instrument {
        Some(i) => i,
        None => {
            return None;
        },
    };
    Some(
        Paper {
            name: instrument.name.clone(),
            ticker: instrument.ticker.clone(),
            figi: portfolio_position.figi.clone(),
            position,
            totals,
            profit,
        },
    )
}

/// Law: reading a paper's balance or current value back is exact — equal to
/// price times quantity with no precision loss — whenever that product
/// carries at most nine fractional digits (its mantissa product is a
/// multiple of 10^9).
pub proof fn lemma_paper_round_trip<P: Profit>(p: Paper<P>)
    requires
        (p.position.average_buy_price.value@ * p.position.quantity@) % (DEC_ONE as int) == 0,
        (p.position.current_instrument_price.value@ * p.position.quantity@) % (DEC_ONE as int)
            == 0,
    ensures
        spec_balance_val(p) * (DEC_ONE as int) == p.position.average_buy_price.value@
            * p.position.quantity@,
        spec_current_val(p) * (DEC_ONE as int) == p.position.current_instrument_price.value@
            * p.position.quantity@,
{
    lemma_product_exact(p.position.average_buy_price.value@, p.position.quantity@);
    lemma_product_exact(p.position.current_instrument_price.value@, p.position.quantity@);
}

} // verus!
