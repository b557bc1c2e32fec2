use rebalance::allocation::{AllocationModel, ConfigError, TargetAllocation};
use rebalance::money::{Decimal, FixedPointMoney, MoneyError, Quantity};
use rebalance::pipeline::{rebalance, RebalanceError};
use rebalance::planner::Side;
use rebalance::snapshot::{InstrumentMeta, JoinError, Position, RecordError};

fn rubles(whole: i64) -> FixedPointMoney {
    FixedPointMoney::new(String::from("rub"), whole, 0).unwrap()
}

fn aim(ticker: &str, target_percent: u8) -> TargetAllocation {
    TargetAllocation { ticker: String::from(ticker), target_percent }
}

fn listed(id: &str, ticker: &str, lot_size: u32) -> InstrumentMeta {
    InstrumentMeta::new(String::from(id), String::from(ticker), lot_size).unwrap()
}

fn owned(id: &str, quantity: i64, price: FixedPointMoney) -> Position {
    Position { instrument_id: String::from(id), quantity: Quantity { whole: quantity }, unit_price: price }
}

fn on(ticker: &str, cause: MoneyError) -> RecordError {
    RecordError { ticker: String::from(ticker), cause }
}

fn catalog() -> Vec<InstrumentMeta> {
    vec![listed("u1", "AAA", 1), listed("u2", "BBB", 10), listed("u3", "CCC", 1)]
}

fn holdings() -> Vec<Position> {
    vec![owned("u1", 70, rubles(100)), owned("u3", 5, rubles(1)), owned("u2", 6, rubles(50))]
}

#[test]
fn two_tickers_at_seventy_and_thirty_against_sixty_and_forty() {
    let model = AllocationModel::new(vec![aim("AAA", 60), aim("BBB", 40)], None).unwrap();
    let outcome = rebalance(&model, &holdings(), &catalog(), &String::from("rub")).unwrap();

    assert_eq!(outcome.observed_total, rubles(10_000));
    assert_eq!(outcome.total, rubles(10_000));

    assert_eq!(outcome.report.len(), 2);
    let a = &outcome.report[0];
    assert_eq!(a.ticker, "AAA");
    assert_eq!(a.target_percent, 60);
    assert_eq!(a.current_percent, Decimal { nanos: 70_000_000_000 });
    assert_eq!(a.volume, rubles(7_000));
    assert!(a.shifted);
    let b = &outcome.report[1];
    assert_eq!(b.ticker, "BBB");
    assert_eq!(b.target_percent, 40);
    assert_eq!(b.current_percent, Decimal { nanos: 30_000_000_000 });
    assert_eq!(b.volume, rubles(3_000));
    assert!(b.shifted);

    assert_eq!(outcome.trade_plan.len(), 2);
    let sell = &outcome.trade_plan[0];
    assert_eq!(sell.ticker, "AAA");
    assert_eq!(sell.target_volume, rubles(6_000));
    assert_eq!((sell.side, sell.lots), (Side::Sell, 10));
    assert_eq!(sell.current_price, rubles(100));
    let buy = &outcome.trade_plan[1];
    assert_eq!(buy.ticker, "BBB");
    assert_eq!(buy.target_volume, rubles(4_000));
    assert_eq!((buy.side, buy.lots), (Side::Buy, 20));
    assert_eq!(buy.current_price, rubles(50));
}

#[test]
fn no_trade_plan_when_nothing_is_shifted() {
    let model = AllocationModel::new(vec![aim("AAA", 68), aim("BBB", 32)], None).unwrap();
    let outcome = rebalance(&model, &holdings(), &catalog(), &String::from("rub")).unwrap();
    assert_eq!(outcome.report.len(), 2);
    assert!(!outcome.report[0].shifted);
    assert!(!outcome.report[1].shifted);
    assert!(outcome.trade_plan.is_empty());
}

#[test]
fn the_correction_moves_the_total_that_everything_is_computed_against() {
    let model = AllocationModel::new(
        vec![aim("AAA", 60), aim("BBB", 40)],
        Some(Decimal { nanos: 10_000_000_000_000 }),
    ).unwrap();
    let outcome = rebalance(&model, &holdings(), &catalog(), &String::from("rub")).unwrap();
    assert_eq!(outcome.observed_total, rubles(10_000));
    assert_eq!(outcome.total, rubles(20_000));
    assert_eq!(outcome.report[0].current_percent, Decimal { nanos: 35_000_000_000 });
    assert_eq!(outcome.report[0].volume, rubles(7_000));
    assert_eq!(outcome.report[1].current_percent, Decimal { nanos: 15_000_000_000 });
    assert!(outcome.report[0].shifted);
    assert!(outcome.report[1].shifted);
    assert_eq!(outcome.trade_plan[0].target_volume, rubles(12_000));
    assert_eq!((outcome.trade_plan[0].side, outcome.trade_plan[0].lots), (Side::Buy, 50));
    assert_eq!(outcome.trade_plan[1].target_volume, rubles(8_000));
    assert_eq!((outcome.trade_plan[1].side, outcome.trade_plan[1].lots), (Side::Buy, 100));
}

#[test]
fn an_over_allocated_model_ends_the_run() {
    let model = AllocationModel {
        targets: vec![aim("AAA", 60), aim("ZZZ", 41)],
        manual_value_delta: None,
    };
    assert_eq!(
        rebalance(&model, &holdings(), &catalog(), &String::from("rub")),
        Err(RebalanceError::Config(ConfigError::AllocationSumExceeded))
    );
}

#[test]
fn an_unknown_ticker_ends_the_run() {
    let model = AllocationModel::new(vec![aim("AAA", 60), aim("ZZZ", 40)], None).unwrap();
    assert_eq!(
        rebalance(&model, &holdings(), &catalog(), &String::from("rub")),
        Err(RebalanceError::Join(JoinError::UnknownTicker(String::from("ZZZ"))))
    );
}

#[test]
fn a_target_that_is_not_held_ends_the_run() {
    let model = AllocationModel::new(vec![aim("AAA", 60), aim("BBB", 40)], None).unwrap();
    let held = vec![owned("u1", 70, rubles(100))];
    assert_eq!(
        rebalance(&model, &held, &catalog(), &String::from("rub")),
        Err(RebalanceError::Join(JoinError::NoPosition(String::from("BBB"))))
    );
}

#[test]
fn a_foreign_currency_ends_the_run() {
    let model = AllocationModel::new(vec![aim("AAA", 60), aim("BBB", 40)], None).unwrap();
    assert_eq!(
        rebalance(&model, &holdings(), &catalog(), &String::from("usd")),
        Err(RebalanceError::Valuation(on("AAA", MoneyError::CurrencyMismatch)))
    );
}

#[test]
fn an_overflow_ends_the_run() {
    let model = AllocationModel::new(vec![aim("AAA", 60)], None).unwrap();
    let held = vec![owned("u1", 2, rubles(i64::MAX))];
    assert_eq!(
        rebalance(&model, &held, &catalog(), &String::from("rub")),
        Err(RebalanceError::Valuation(on("AAA", MoneyError::Overflow)))
    );
}

#[test]
fn an_empty_portfolio_has_no_shares() {
    let model = AllocationModel::new(vec![aim("AAA", 60)], None).unwrap();
    let held = vec![owned("u1", 0, rubles(100))];
    assert_eq!(
        rebalance(&model, &held, &catalog(), &String::from("rub")),
        Err(RebalanceError::Drift(on("AAA", MoneyError::Overflow)))
    );
}

#[test]
fn a_model_without_targets_gives_an_empty_result() {
    let model = AllocationModel::new(Vec::new(), None).unwrap();
    let outcome = rebalance(&model, &holdings(), &catalog(), &String::from("rub")).unwrap();
    assert_eq!(outcome.observed_total, rubles(0));
    assert!(outcome.report.is_empty());
    assert!(outcome.trade_plan.is_empty());
}

#[test]
fn a_correction_out_of_range_ends_the_run() {
    let model = AllocationModel::new(vec![aim("AAA", 60)], Some(Decimal { nanos: i128::MAX })).unwrap();
    assert_eq!(
        rebalance(&model, &holdings(), &catalog(), &String::from("rub")),
        Err(RebalanceError::Adjustment(MoneyError::Overflow))
    );
}

#[test]
fn a_trade_that_cannot_be_sized_ends_the_run() {
    let model = AllocationModel::new(vec![aim("AAA", 60), aim("CCC", 40)], None).unwrap();
    let held = vec![owned("u1", 70, rubles(100)), owned("u3", 5, rubles(0))];
    assert_eq!(
        rebalance(&model, &held, &catalog(), &String::from("rub")),
        Err(RebalanceError::Planning(on("CCC", MoneyError::Overflow)))
    );
}
