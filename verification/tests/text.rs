use barter_data::instrument::{
    strike_text, strike_units, Expiry, FutureContract, Instrument, InstrumentKind, OptionContract,
    OptionExercise, OptionKind, Symbol,
};
use barter_data::text::{
    bytes_precede, decimal_text, same_text, signed_decimal_text, text_precedes,
};

fn expiry(year: u16, month: u8, day: u8) -> Expiry {
    Expiry { year, month, day, millis: 0 }
}

#[test]
fn decimal_text_of_small_and_large_numbers() {
    assert_eq!(decimal_text(0), "0");
    assert_eq!(decimal_text(7), "7");
    assert_eq!(decimal_text(10), "10");
    assert_eq!(decimal_text(1700000000), "1700000000");
    assert_eq!(decimal_text(u64::MAX), "18446744073709551615");
}

#[test]
fn signed_decimal_text_matches_the_standard_rendering() {
    assert_eq!(signed_decimal_text(0), "0");
    assert_eq!(signed_decimal_text(-1), "-1");
    assert_eq!(signed_decimal_text(1700000000), 1700000000i64.to_string());
    assert_eq!(signed_decimal_text(i64::MIN), i64::MIN.to_string());
    assert_eq!(signed_decimal_text(i64::MAX), i64::MAX.to_string());
}

#[test]
fn strike_text_trims_the_fraction() {
    assert_eq!(strike_text(0), "0");
    assert_eq!(strike_text(2500_00000000), "2500");
    assert_eq!(strike_text(50000000), "0.5");
    assert_eq!(strike_text(38000_25000000), "38000.25");
    assert_eq!(strike_text(1), "0.00000001");
    assert_eq!(strike_text(1_00000010), "1.0000001");
}

#[test]
fn expiry_code_is_year_month_day() {
    assert_eq!(expiry(2020, 1, 3).code(), "200103");
    assert_eq!(expiry(2023, 12, 31).code(), "231231");
    assert_eq!(expiry(2000, 10, 9).code(), "001009");
}

#[test]
fn expiry_order_is_the_order_of_time() {
    let early = Expiry { year: 2024, month: 2, day: 23, millis: 0 };
    let late = Expiry { year: 2024, month: 2, day: 23, millis: 1 };
    assert!(early.precedes(&late));
    assert!(!late.precedes(&early));
    assert!(!early.precedes(&early));
    assert!(expiry(2023, 12, 31).precedes(&expiry(2024, 1, 1)));
}

#[test]
fn text_order_is_the_order_of_str() {
    let words = ["", "a", "ab", "b", "btc", "eth", "usd", "usdt", "é", "z"];
    for a in words {
        for b in words {
            assert_eq!(text_precedes(a, b), a < b, "{a:?} before {b:?}");
            assert_eq!(bytes_precede(a.as_bytes(), b.as_bytes()), a.as_bytes() < b.as_bytes());
            assert_eq!(same_text(a, b), a == b);
        }
    }
}

#[test]
fn symbols_are_kept_in_lowercase() {
    assert_eq!(Symbol::new("BTC").as_str(), "btc");
    assert_eq!(Symbol::new("Usdt").as_str(), "usdt");
    assert_eq!(Symbol::new("eth").as_str(), "eth");
    let instrument = Instrument::new("BTC", "USD", InstrumentKind::Spot);
    assert_eq!(instrument.base.as_str(), "btc");
    assert_eq!(instrument.quote.as_str(), "usd");
    assert_eq!(instrument.kind, InstrumentKind::Spot);
}

#[test]
fn instruments_order_by_base_then_quote_then_kind() {
    let spot = |base: &str, quote: &str| Instrument::new(base, quote, InstrumentKind::Spot);
    assert!(spot("btc", "usd").precedes(&spot("eth", "usd")));
    assert!(!spot("eth", "usd").precedes(&spot("btc", "usd")));
    assert!(spot("btc", "usd").precedes(&spot("btc", "usdt")));
    assert!(!spot("btc", "usd").precedes(&spot("btc", "usd")));

    let future = InstrumentKind::Future(FutureContract { expiry: expiry(2024, 3, 29) });
    let later = InstrumentKind::Future(FutureContract { expiry: expiry(2024, 6, 28) });
    let call = InstrumentKind::Option(OptionContract {
        kind: OptionKind::Call,
        exercise: OptionExercise::European,
        expiry: expiry(2024, 3, 29),
        strike: 2500_00000000,
    });
    let put = InstrumentKind::Option(OptionContract {
        kind: OptionKind::Put,
        exercise: OptionExercise::American,
        expiry: expiry(2024, 3, 29),
        strike: 2500_00000000,
    });
    let kinds = [InstrumentKind::Spot, future, later, InstrumentKind::Perpetual, call, put];
    for (i, a) in kinds.iter().enumerate() {
        for (j, b) in kinds.iter().enumerate() {
            assert_eq!(a.precedes(b), i < j, "{a:?} before {b:?}");
            let x = Instrument::new("btc", "usd", *a);
            let y = Instrument::new("btc", "usd", *b);
            assert_eq!(x.precedes(&y), i < j);
        }
    }
}

#[test]
fn options_order_by_kind_exercise_expiry_and_strike() {
    let option = |kind, exercise, day, strike| {
        InstrumentKind::Option(OptionContract { kind, exercise, expiry: expiry(2024, 3, day), strike })
    };
    let ordered = [
        option(OptionKind::Call, OptionExercise::American, 1, 5),
        option(OptionKind::Call, OptionExercise::American, 1, 6),
        option(OptionKind::Call, OptionExercise::American, 2, 1),
        option(OptionKind::Call, OptionExercise::Bermudan, 1, 1),
        option(OptionKind::Call, OptionExercise::European, 1, 1),
        option(OptionKind::Put, OptionExercise::American, 1, 1),
    ];
    for (i, a) in ordered.iter().enumerate() {
        for (j, b) in ordered.iter().enumerate() {
            assert_eq!(a.precedes(b), i < j);
        }
    }
}

#[test]
fn strike_units_of_decimal_prices() {
    assert_eq!(strike_units(2500, 0), Some(2500_00000000));
    assert_eq!(strike_units(25005, 1), Some(2500_50000000));
    assert_eq!(strike_units(1, 8), Some(1));
    assert_eq!(strike_units(50, 9), Some(5));
    assert_eq!(strike_units(20000, 12), Some(2));
    assert_eq!(strike_units(0, 30), Some(0));
    assert_eq!(strike_units(0, u32::MAX), Some(0));
    assert_eq!(strike_units(u64::MAX as i128, 8), Some(u64::MAX));
    assert_eq!(strike_units(184467440737, 0), Some(18446744073700000000));
}

#[test]
fn strike_units_refuses_what_no_units_stand_for() {
    assert_eq!(strike_units(-1, 0), None);
    assert_eq!(strike_units(-2500, 2), None);
    assert_eq!(strike_units(5, 9), None);
    assert_eq!(strike_units(2000, 12), None);
    assert_eq!(strike_units(1, u32::MAX), None);
    assert_eq!(strike_units(u64::MAX as i128 + 1, 8), None);
    assert_eq!(strike_units(184467440738, 0), None);
    assert_eq!(strike_units(i128::MAX, 0), None);
    assert_eq!(strike_units(i128::MAX, 8), None);
}
