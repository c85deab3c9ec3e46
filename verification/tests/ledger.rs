//! Position reading and the history ledger.
use tinkoff::currency::Currency;
use tinkoff::paper::Instrument;
use tinkoff::portfolio::Portfolio;
use tinkoff::decimal::Decimal;
use tinkoff::history::{History, HistoryItem};
use tinkoff::position::{Position, PositionError};
use tinkoff::raw::{
    instrument_kind_of, InstrumentKind, InstrumentShort, OperationKind, OperationState, RawMoney,
    RawOperation, RawPosition, RawQuotation, RawTimestamp,
};

fn rub(units: i64) -> RawMoney {
    RawMoney {
        currency: "rub".to_string(),
        units,
        nano: 0,
    }
}

fn raw_position() -> RawPosition {
    RawPosition {
        figi: "BBG0013HGFT4".to_string(),
        instrument_type: "bond".to_string(),
        quantity: Some(RawQuotation {
            units: 100,
            nano: 0,
        }),
        average_position_price: Some(rub(10)),
        current_price: Some(rub(11)),
    }
}

fn op_at(id: &str, seconds: i64, units: i64) -> RawOperation {
    RawOperation {
        id: id.to_string(),
        currency: "rub".to_string(),
        payment: Some(rub(units)),
        price: Some(rub(1)),
        state: OperationState::Executed,
        quantity: 2,
        quantity_rest: 1,
        date: Some(RawTimestamp { seconds }),
        type_text: "Coupon payment".to_string(),
        operation_type: OperationKind::Coupon,
    }
}

fn instrument() -> InstrumentShort {
    InstrumentShort {
        name: "Bond One".to_string(),
        ticker: "BND1".to_string(),
        figi: "BBG0013HGFT4".to_string(),
    }
}

#[test]
fn position_round_trip() {
    let p = Position::new(&raw_position()).unwrap();
    assert_eq!(p.currency, Currency::rub());
    assert_eq!(p.average_buy_price.value, Decimal::from_int(10));
    assert_eq!(p.current_instrument_price.value, Decimal::from_int(11));
    assert_eq!(p.quantity, Decimal::from_int(100));
}

#[test]
fn position_missing_current_price() {
    let mut raw = raw_position();
    raw.current_price = None;
    assert_eq!(Position::new(&raw), Err(PositionError::MissingCurrency));
}

#[test]
fn position_unknown_currency() {
    let mut raw = raw_position();
    raw.current_price = Some(RawMoney {
        currency: "xxx?".to_string(),
        units: 11,
        nano: 0,
    });
    assert_eq!(Position::new(&raw), Err(PositionError::MissingCurrency));
}

#[test]
fn position_missing_average_price() {
    let mut raw = raw_position();
    raw.average_position_price = None;
    assert_eq!(Position::new(&raw), Err(PositionError::MissingAveragePrice));
}

#[test]
fn position_unreadable_current_price() {
    let mut raw = raw_position();
    // ten-digit nano fraction ending in a nonzero digit: the currency
    // resolves, the amount cannot be read back exactly
    raw.current_price = Some(RawMoney {
        currency: "rub".to_string(),
        units: 11,
        nano: 1_500_000_001,
    });
    assert_eq!(Position::new(&raw), Err(PositionError::MissingCurrentPrice));
}

#[test]
fn history_dedup_keeps_first_occurrence() {
    let ops = vec![op_at("1", 30, 5), op_at("1", 30, 5), op_at("2", 10, -7)];

    let history = History::new(ops, &instrument()).unwrap();

    assert_eq!(history.items.len(), 2);
}

#[test]
fn history_sorts_by_timestamp() {
    let ops = vec![op_at("a", 30, 5), op_at("b", 10, -7), op_at("c", 20, 1)];

    let history = History::new(ops, &instrument()).unwrap();

    let stamps: Vec<i64> = history.items.iter().map(|i| i.datetime).collect();
    assert_eq!(stamps, vec![10, 20, 30]);
}

#[test]
fn history_of_no_operations_is_none() {
    assert!(History::new(Vec::new(), &instrument()).is_none());
}

#[test]
fn history_rollups_split_by_sign() {
    let ops = vec![op_at("a", 30, 5), op_at("b", 10, -7), op_at("c", 20, 1)];

    let history = History::new(ops, &instrument()).unwrap();

    assert_eq!(history.currency, Currency::rub());
    assert_eq!(history.expenses().value, Decimal::from_int(-7));
    assert_eq!(history.profit().value, Decimal::from_int(6));
    assert_eq!(history.balance().value, Decimal::from_int(-1));
}

#[test]
fn history_item_fallbacks() {
    let mut bad = op_at("a", 5, 3);
    bad.payment = None;
    bad.state = OperationState::Canceled;

    let item = HistoryItem::from(&bad);

    assert!(item.payment.value.is_zero());
    assert_eq!(item.payment.currency, Currency::rub());
    assert_eq!(item.operation_state, "Canceled".to_string());
    assert_eq!(item.description, "Coupon payment".to_string());
    assert_eq!(item.datetime, 5);
    assert_eq!(item.quantity, 2);
    assert_eq!(item.quantity_rest, 1);
}

#[test]
fn instrument_kind_parsing() {
    assert_eq!(
        instrument_kind_of(&"bond".to_string()),
        Some(InstrumentKind::Bond)
    );
    assert_eq!(
        instrument_kind_of(&"share".to_string()),
        Some(InstrumentKind::Share)
    );
    assert_eq!(
        instrument_kind_of(&"etf".to_string()),
        Some(InstrumentKind::Etf)
    );
    assert_eq!(
        instrument_kind_of(&"currency".to_string()),
        Some(InstrumentKind::Currency)
    );
    assert_eq!(
        instrument_kind_of(&"futures".to_string()),
        Some(InstrumentKind::Futures)
    );
    assert_eq!(instrument_kind_of(&"option".to_string()), None);
}

#[test]
fn portfolio_add_position_routes_by_kind() {
    let mut portfolio = Portfolio::new(true);
    let ins = Instrument {
        name: "Bond One".to_string(),
        ticker: "BND1".to_string(),
    };
    let ops = vec![op_at("1", 10, 100)];

    let added = portfolio.add_position(InstrumentKind::Bond, Some(&ins), &raw_position(), &ops);

    assert!(added);
    assert_eq!(portfolio.bonds.len(), 1);
    assert!(portfolio.shares.is_empty());
    let paper = portfolio.bonds.paper_at(0);
    assert_eq!(paper.name, "Bond One".to_string());
    assert_eq!(paper.figi, "BBG0013HGFT4".to_string());
    assert_eq!(paper.dividents().value, Decimal::from_int(100));

    // a missing catalog entry adds nothing
    let not_added = portfolio.add_position(InstrumentKind::Share, None, &raw_position(), &ops);
    assert!(!not_added);
    assert!(portfolio.shares.is_empty());
}
