//! The aggregation model: money arithmetic, classification, reduction and
//! the portfolio rollups, on concrete values.
use tinkoff::asset::Asset;
use tinkoff::currency::Currency;
use tinkoff::decimal::Decimal;
use tinkoff::income::Income;
use tinkoff::money::Money;
use tinkoff::operations::{reduce, to_influence, OperationInfluence, Totals};
use tinkoff::paper::{CouponProfit, DividentProfit, NoneProfit, Paper};
use tinkoff::portfolio::Portfolio;
use tinkoff::position::Position;
use tinkoff::raw::{OperationKind, OperationState, RawMoney, RawOperation, RawTimestamp};

fn dec(n: i64) -> Decimal {
    Decimal::from_int(n)
}

fn rub_money(n: i64) -> Money {
    Money::from_value(dec(n), Currency::rub())
}

fn op(id: &str, kind: OperationKind, units: i64) -> RawOperation {
    RawOperation {
        id: id.to_string(),
        currency: "rub".to_string(),
        payment: Some(RawMoney {
            currency: "rub".to_string(),
            units,
            nano: 0,
        }),
        price: None,
        state: OperationState::Executed,
        quantity: 1,
        quantity_rest: 0,
        date: Some(RawTimestamp { seconds: 1_000 }),
        type_text: "Operation".to_string(),
        operation_type: kind,
    }
}

fn test_portfolio() -> Portfolio {
    let currency = Currency::rub();
    let mut bonds = Asset::new("Bonds", CouponProfit, true);
    bonds.add_paper(Paper {
        name: "1".to_string(),
        ticker: "1t".to_string(),
        figi: "1f".to_string(),
        position: Position {
            currency,
            average_buy_price: Money::from_value(dec(10), currency),
            current_instrument_price: Money::from_value(dec(11), currency),
            quantity: dec(100),
        },
        totals: Totals {
            additional_profit: Money::from_value(dec(100), currency),
            fees: Money::from_value(dec(10), currency),
        },
        profit: CouponProfit,
    });
    let mut shares = Asset::new("Shares", DividentProfit, true);
    shares.add_paper(Paper {
        name: "2".to_string(),
        ticker: "2t".to_string(),
        figi: "2f".to_string(),
        position: Position {
            currency,
            average_buy_price: Money::from_value(dec(5), currency),
            current_instrument_price: Money::from_value(dec(6), currency),
            quantity: dec(100),
        },
        totals: Totals {
            additional_profit: Money::from_value(dec(50), currency),
            fees: Money::from_value(dec(10), currency),
        },
        profit: DividentProfit,
    });

    let etfs = Asset::new("Etfs", NoneProfit, true);
    let currencies = Asset::new("Currencies", NoneProfit, true);
    let futures = Asset::new("Futures", NoneProfit, true);
    Portfolio {
        bonds,
        shares,
        etfs,
        currencies,
        futures,
    }
}

#[test]
fn portfolio_balance() {
    assert_eq!(dec(1500), test_portfolio().balance().value);
}

#[test]
fn portfolio_current() {
    assert_eq!(dec(1700), test_portfolio().current().value);
}

#[test]
fn portfolio_income() {
    let portfolio = test_portfolio();
    assert_eq!(dec(1500), portfolio.income().balance);
    assert_eq!(dec(1700), portfolio.income().current);
    assert_eq!("13.33", portfolio.income().percent().round_dp(2).to_string());
}

#[test]
fn portfolio_dividents() {
    assert_eq!(dec(150), test_portfolio().dividents().value);
}

#[test]
fn portfolio_total_income() {
    assert_eq!(dec(1850), test_portfolio().total_income().current);
}

#[test]
fn money_zero_is_additive_identity() {
    let m = rub_money(42);
    assert_eq!(Money::zero(Currency::rub()).add(m), m);
    assert!(Money::zero(Currency::rub()).is_zero());
}

#[test]
fn income_percent_of_zero_balance_is_zero() {
    let i = Income::new(rub_money(123), rub_money(0));
    assert!(i.percent().is_zero());
}

#[test]
fn classifier_buckets() {
    assert_eq!(
        to_influence(OperationKind::Coupon),
        OperationInfluence::PureIncome
    );
    assert_eq!(
        to_influence(OperationKind::DividendTax),
        OperationInfluence::PureIncome
    );
    assert_eq!(
        to_influence(OperationKind::BrokerFee),
        OperationInfluence::Fees
    );
    assert_eq!(
        to_influence(OperationKind::OutStampDuty),
        OperationInfluence::Fees
    );
    assert_eq!(
        to_influence(OperationKind::Buy),
        OperationInfluence::Unspecified
    );
    assert_eq!(
        to_influence(OperationKind::Sell),
        OperationInfluence::Unspecified
    );
}

#[test]
fn reduce_splits_income_and_fees() {
    let ops = vec![
        op("1", OperationKind::Coupon, 100),
        op("2", OperationKind::DividendTax, -13),
        op("3", OperationKind::BrokerFee, -5),
        op("4", OperationKind::Buy, -1000),
    ];

    let totals = reduce(&ops, Currency::rub());

    assert_eq!(totals.additional_profit.value, dec(87));
    assert_eq!(totals.fees.value, dec(-5));
    assert_eq!(totals.additional_profit.currency, Currency::rub());
}

#[test]
fn reduce_is_order_independent() {
    let ops = vec![
        op("1", OperationKind::Coupon, 100),
        op("2", OperationKind::BrokerFee, -5),
        op("3", OperationKind::Dividend, 40),
        op("4", OperationKind::ServiceFee, -2),
    ];
    let shuffled = vec![
        op("4", OperationKind::ServiceFee, -2),
        op("3", OperationKind::Dividend, 40),
        op("1", OperationKind::Coupon, 100),
        op("2", OperationKind::BrokerFee, -5),
    ];

    let a = reduce(&ops, Currency::rub());
    let b = reduce(&shuffled, Currency::rub());

    assert_eq!(a.additional_profit.value, b.additional_profit.value);
    assert_eq!(a.fees.value, b.fees.value);
}

#[test]
fn reduce_skips_missing_payment() {
    let mut broken = op("1", OperationKind::Coupon, 100);
    broken.payment = None;

    let totals = reduce(&vec![broken], Currency::rub());

    assert!(totals.additional_profit.is_zero());
    assert!(totals.fees.is_zero());
}

#[test]
fn asset_aggregation_is_idempotent() {
    let a = test_portfolio();
    let b = test_portfolio();
    assert_eq!(a.bonds.balance(), b.bonds.balance());
    assert_eq!(a.bonds.current(), b.bonds.current());
    assert_eq!(a.bonds.dividents(), b.bonds.dividents());
    assert_eq!(a.bonds.total_income(), b.bonds.total_income());
}

#[test]
fn empty_asset_defaults_to_ruble() {
    let a: Asset<NoneProfit> = Asset::new("Etfs", NoneProfit, true);
    assert!(a.is_empty());
    assert!(a.balance().is_zero());
    assert_eq!(a.balance().currency, Currency::rub());
}

#[test]
fn count_not_empty_assets_counts_populated_groups() {
    assert_eq!(test_portfolio().count_not_empty_assets(), 2);
    assert_eq!(Portfolio::new(true).count_not_empty_assets(), 0);
}

#[test]
fn bond_paper_end_to_end() {
    let portfolio = test_portfolio();
    let bond = portfolio.bonds.paper_at(0);

    assert_eq!(bond.balance().value, dec(1000));
    assert_eq!(bond.current().value, dec(1100));
    assert_eq!(bond.income().percent(), dec(10));
    let total = bond.total_income();
    assert_eq!(total.current, dec(1200));
    assert_eq!(total.balance, dec(1000));
    assert_eq!(total.percent(), dec(20));
    assert_eq!(bond.fees().value, dec(10));
}

#[test]
fn decimal_rounding_is_banker_style() {
    let v = Decimal::from_mantissa(13_335_000_000).unwrap();
    assert_eq!(v.round_dp(2).to_string(), "13.34");
    let w = Decimal::from_mantissa(13_345_000_000).unwrap();
    assert_eq!(w.round_dp(2).to_string(), "13.34");
    let x = Decimal::from_mantissa(13_346_000_000).unwrap();
    assert_eq!(x.round_dp(2).to_string(), "13.35");
    assert_eq!(dec(-3).round_dp(2), dec(-3));
}

#[test]
fn portfolio_dividents_include_every_group() {
    let mut portfolio = test_portfolio();
    portfolio.currencies.add_paper(Paper {
        name: "usd".to_string(),
        ticker: "USD000UTSTOM".to_string(),
        figi: "3f".to_string(),
        position: Position {
            currency: Currency::rub(),
            average_buy_price: Money::from_value(dec(90), Currency::rub()),
            current_instrument_price: Money::from_value(dec(95), Currency::rub()),
            quantity: dec(10),
        },
        totals: Totals {
            additional_profit: Money::from_value(dec(7), Currency::rub()),
            fees: Money::from_value(dec(1), Currency::rub()),
        },
        profit: NoneProfit,
    });

    assert_eq!(portfolio.dividents().value, dec(157));
}

#[test]
fn paper_values_keep_their_price_currency() {
    let rub = Currency::rub();
    let usd = Currency::from_code("USD").unwrap();
    let paper = Paper {
        name: "x".to_string(),
        ticker: "xt".to_string(),
        figi: "xf".to_string(),
        position: Position {
            currency: usd,
            average_buy_price: Money::from_value(dec(10), rub),
            current_instrument_price: Money::from_value(dec(11), usd),
            quantity: dec(2),
        },
        totals: Totals {
            additional_profit: Money::from_value(dec(0), usd),
            fees: Money::from_value(dec(0), usd),
        },
        profit: CouponProfit,
    };

    // each product keeps its left operand's tag
    assert_eq!(paper.balance().currency, rub);
    assert_eq!(paper.current().currency, usd);
    assert_eq!(paper.income().currency, usd);
}

#[test]
fn money_operator_surface() {
    let a = rub_money(10);
    let b = rub_money(4);
    assert_eq!(a.sub(b).value, dec(6));
    assert_eq!(a.mul_money(b).value, dec(40));
    assert_eq!(a.div(b).value.to_string(), "2.5");
    assert_eq!(a.div_value(dec(8)).value.to_string(), "1.25");
    assert_eq!(a.add_value(dec(5)).value, dec(15));
    assert_eq!(a.sub_value(dec(5)).value, dec(5));
    let mut c = rub_money(10);
    c.sub_assign(b);
    assert_eq!(c.value, dec(6));
    c.mul_assign(b);
    assert_eq!(c.value, dec(24));
    c.div_assign(b);
    assert_eq!(c.value, dec(6));
    assert_eq!(c.currency, Currency::rub());
}

#[test]
fn decimal_arithmetic_exactness() {
    let half = Decimal::from_mantissa(500_000_000).unwrap();
    assert_eq!(dec(10).mul(half).to_string(), "5");
    assert_eq!(dec(1).div(dec(8)).to_string(), "0.125");
    assert_eq!(dec(7).sub(dec(9)).to_string(), "-2");
}
