//! Conversions from the broker's scaled wire numbers into decimals and
//! tagged money amounts.
use tinkoff::currency::Currency;
use tinkoff::raw::{RawMoney, RawQuotation};
use tinkoff::raw::RawTimestamp;
use tinkoff::{to_datetime_utc, to_decimal, to_money};

#[test]
fn to_decimal_from_none() {
    // Arrange

    // Act
    let r = to_decimal(None);

    // Assert
    assert!(r.is_zero());
}

#[test]
fn to_decimal_positive_above_one() {
    // Arrange
    let q = RawQuotation { units: 1, nano: 1 };

    // Act
    let r = to_decimal(Some(&q));

    // Assert
    assert_eq!(r.to_string(), String::from("1.1"));
}

#[test]
fn to_decimal_positive_above_zero() {
    // Arrange
    let q = RawQuotation { units: 0, nano: 1 };

    // Act
    let r = to_decimal(Some(&q));

    // Assert
    assert_eq!(r.to_string(), String::from("0.1"));
}

#[test]
fn to_decimal_negative_below_minus_one() {
    // Arrange
    let q = RawQuotation {
        units: -1,
        nano: -1,
    };

    // Act
    let r = to_decimal(Some(&q));

    // Assert
    assert_eq!(r.to_string(), String::from("-1.1"));
}

#[test]
fn to_decimal_negative_above_minus_one() {
    // Arrange
    let q = RawQuotation { units: 0, nano: -1 };

    // Act
    let r = to_decimal(Some(&q));

    // Assert
    assert_eq!(r.to_string(), String::from("-0.1"));
}

#[test]
fn to_money_from_none() {
    // Arrange

    // Act
    let r = to_money(None);

    // Assert
    assert!(r.is_none());
}

#[test]
fn to_money_positive_above_one() {
    // Arrange
    let q = RawMoney {
        units: 1,
        nano: 1,
        currency: "rub".to_string(),
    };

    // Act
    let r = to_money(Some(&q));

    // Assert
    let m = r.unwrap();
    assert_eq!(m.value.to_string(), String::from("1.1"));
    assert_eq!(m.currency, Currency::rub());
}

#[test]
fn to_money_positive_above_zero() {
    // Arrange
    let q = RawMoney {
        units: 0,
        nano: 1,
        currency: "rub".to_string(),
    };

    // Act
    let r = to_money(Some(&q));

    // Assert
    assert_eq!(r.unwrap().value.to_string(), String::from("0.1"));
}

#[test]
fn to_money_negative_below_minus_one() {
    // Arrange
    let q = RawMoney {
        units: -1,
        nano: -1,
        currency: "rub".to_string(),
    };

    // Act
    let r = to_money(Some(&q));

    // Assert
    assert_eq!(r.unwrap().value.to_string(), String::from("-1.1"));
}

#[test]
fn to_money_negative_above_minus_one() {
    // Arrange
    let q = RawMoney {
        units: 0,
        nano: -1,
        currency: "rub".to_string(),
    };

    // Act
    let r = to_money(Some(&q));

    // Assert
    assert_eq!(r.unwrap().value.to_string(), String::from("-0.1"));
}

#[test]
fn to_money_unknown_currency_is_none() {
    let q = RawMoney {
        units: 5,
        nano: 0,
        currency: "zzz".to_string(),
    };

    let r = to_money(Some(&q));

    assert!(r.is_none());
}

#[test]
fn to_money_sign_of_nano_ignored_when_units_nonzero() {
    // The broker's notation concatenates digits: the nano sign only counts
    // when units is zero.
    let q = RawQuotation { units: 5, nano: -3 };

    let r = to_decimal(Some(&q));

    assert_eq!(r.to_string(), String::from("5.3"));
}

#[test]
fn to_decimal_ten_digit_nano_reducing_exactly() {
    // "0.1500000000" carries ten fractional digits but the last is zero,
    // so it reads back exactly as 0.15
    let q = RawQuotation {
        units: 0,
        nano: 1_500_000_000,
    };

    let r = to_decimal(Some(&q));

    assert_eq!(r.to_string(), String::from("0.15"));
}

#[test]
fn to_decimal_ten_digit_nano_losing_a_digit_reads_zero() {
    let q = RawQuotation {
        units: 0,
        nano: 1_500_000_001,
    };

    let r = to_decimal(Some(&q));

    assert!(r.is_zero());
}

#[test]
fn currency_resolution_is_case_insensitive_and_exact() {
    assert_eq!(Currency::from_code("eur").unwrap().numeric, 978);
    assert_eq!(Currency::from_code("RUB").unwrap(), Currency::rub());
    assert!(Currency::from_code("nope").is_none());
}

#[test]
fn to_datetime_utc_reads_seconds_back() {
    assert_eq!(to_datetime_utc(None), 0);
    assert_eq!(
        to_datetime_utc(Some(&RawTimestamp { seconds: 86_400 })),
        86_400
    );
    // far outside the datetime range: falls back to the epoch
    assert_eq!(
        to_datetime_utc(Some(&RawTimestamp { seconds: i64::MAX })),
        0
    );
}
