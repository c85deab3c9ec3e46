//! Position: the snapshot of one held instrument, read from a raw portfolio
//! record.
use crate::currency::{spec_from_code, Currency};
use crate::decimal::{spec_dec, Decimal};
use crate::money::Money;
use crate::raw::RawPosition;
use crate::{spec_money_of_raw, spec_quotation_val, to_currency, to_decimal, to_money};
use vstd::prelude::*;

verus! {

broadcast use crate::decimal::lemma_spec_dec_view, crate::decimal::lemma_dec_roundtrip;

/// Why a position snapshot could not be read.  Any of these skips the
/// position; none aborts the aggregation run.
#[derive(Clone, Copy, PartialEq, Eq, Structural, Debug)]
pub enum PositionError {
    /// The current-price field is absent or its currency code is not in the
    /// ISO 4217 table.
    MissingCurrency,
    /// The average-position-price field is absent or unreadable.
    MissingAveragePrice,
    /// The current-price field is unreadable as a money amount.
    MissingCurrentPrice,
}

/// Snapshot of one held instrument: its currency, both prices and the held
/// quantity.  Balance and current value are derived from it on demand and
/// never cached.
#[derive(Clone, Copy, PartialEq, Eq, Structural, Debug)]
pub struct Position {
    pub currency: Currency,
    pub average_buy_price: Money,
    pub current_instrument_price: Money,
    pub quantity: Decimal,
}

/// The outcome of reading a raw position snapshot: the checks run in order
/// (currency of the current price, then the average price, then the current
/// price itself), and a missing quantity reads as zero.
pub open spec fn spec_position_of(raw: RawPosition) -> Result<Position, PositionError> {
    match raw.current_price {
        None => Err(PositionError::MissingCurrency),
        Some(cm) => match spec_from_code(cm.currency@) {
            None => Err(PositionError::MissingCurrency),
            Some(c) => match raw.average_position_price {
                None => Err(PositionError::MissingAveragePrice),
                Some(am) => match spec_money_of_raw(am) {
                    None => Err(PositionError::MissingAveragePrice),
                    Some(avg) => match spec_money_of_raw(cm) {
                        None => Err(PositionError::MissingCurrentPrice),
                        Some(cur) => Ok(
                            Position {
                                currency: c,
                                average_buy_price: avg,
                                current_instrument_price: cur,
                                quantity: spec_dec(spec_quotation_val(raw.quantity)),
                            },
                        ),
                    },
                },
            },
        },
    }
}

impl Position {
    /// Reads a raw snapshot; a missing price or an unknown currency code is
    /// an error that the caller answers by skipping the position.
    pub fn new(raw: &RawPosition) -> (r: Result<Position, PositionError>)
        ensures
            r == spec_position_of(*raw),
    {
        let currency = match to_currency(&raw.current_price) {
            Some(c) => c,
            None => {
                return Err(PositionError::MissingCurrency);
            },
        };
        let average_buy_price = match to_money(raw.average_position_price.as_ref()) {
            Some(m) => m,
            None => {
                return Err(PositionError::MissingAveragePrice);
            },
        };
        let quantity = to_decimal(raw.quantity.as_ref());
        let current_instrument_price = match to_money(raw.current_price.as_ref()) {
            Some(m) => m,
            None => {
                return Err(PositionError::MissingCurrentPrice);
            },
        };
        Ok(Position { currency, average_buy_price, current_instrument_price, quantity })
    }
}

} // verus!
