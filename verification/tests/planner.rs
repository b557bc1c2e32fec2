use rebalance::drift::InstrumentAllocation;
use rebalance::money::{Decimal, FixedPointMoney, MoneyError};
use rebalance::planner::{Side, TradeAction, TradePlanner};
use rebalance::snapshot::RecordError;

fn amount(whole: i64, frac: u32) -> FixedPointMoney {
    FixedPointMoney::new(String::from("rub"), whole, frac).unwrap()
}

fn allocation(
    ticker: &str,
    target: u8,
    current: i128,
    price: FixedPointMoney,
    volume: FixedPointMoney,
    shifted: bool,
) -> InstrumentAllocation {
    InstrumentAllocation {
        ticker: String::from(ticker),
        target_percent: target,
        current_percent: Decimal { nanos: current * 1_000_000_000 },
        current_price: price,
        volume,
        shifted,
    }
}

#[test]
fn trade_sizing_rounds_a_half_up() {
    // 1000 against 850 at 100: 150 / 100 = 1.5, which rounds to 2.
    assert_eq!(
        TradePlanner::size_trade(&amount(1_000, 0), &amount(850, 0), &amount(100, 0)),
        Ok((Side::Buy, 2))
    );
}

#[test]
fn trade_sizing_rounds_a_half_away_from_zero_when_selling() {
    assert_eq!(
        TradePlanner::size_trade(&amount(850, 0), &amount(1_000, 0), &amount(100, 0)),
        Ok((Side::Sell, 2))
    );
}

#[test]
fn trade_sizing_rounds_to_the_nearest() {
    assert_eq!(
        TradePlanner::size_trade(&amount(1_000, 0), &amount(851, 0), &amount(100, 0)),
        Ok((Side::Buy, 1))
    );
    assert_eq!(
        TradePlanner::size_trade(&amount(1_000, 0), &amount(850, 1), &amount(100, 0)),
        Ok((Side::Buy, 1))
    );
    assert_eq!(
        TradePlanner::size_trade(&amount(1_000, 0), &amount(750, 0), &amount(100, 0)),
        Ok((Side::Buy, 3))
    );
}

#[test]
fn a_zero_lot_trade_is_a_buy_of_nothing() {
    assert_eq!(
        TradePlanner::size_trade(&amount(1_000, 0), &amount(1_000, 0), &amount(100, 0)),
        Ok((Side::Buy, 0))
    );
    assert_eq!(
        TradePlanner::size_trade(&amount(1_000, 0), &amount(1_049, 0), &amount(100, 0)),
        Ok((Side::Buy, 0))
    );
}

#[test]
fn trade_sizing_refuses_a_zero_price() {
    assert_eq!(
        TradePlanner::size_trade(&amount(1_000, 0), &amount(850, 0), &amount(0, 0)),
        Err(MoneyError::Overflow)
    );
}

#[test]
fn trade_sizing_refuses_mixed_currencies() {
    let usd = FixedPointMoney::new(String::from("usd"), 100, 0).unwrap();
    assert_eq!(
        TradePlanner::size_trade(&amount(1_000, 0), &amount(850, 0), &usd),
        Err(MoneyError::CurrencyMismatch)
    );
    assert_eq!(
        TradePlanner::size_trade(&usd, &amount(850, 0), &amount(100, 0)),
        Err(MoneyError::CurrencyMismatch)
    );
    assert_eq!(
        TradePlanner::size_trade(&amount(1_000, 0), &usd, &amount(100, 0)),
        Err(MoneyError::CurrencyMismatch)
    );
}

#[test]
fn trade_sizing_reports_a_count_out_of_range() {
    // The widest difference over the smallest price.
    assert_eq!(
        TradePlanner::size_trade(&amount(i64::MAX, 0), &amount(i64::MIN, 0), &amount(0, 1)),
        Err(MoneyError::Overflow)
    );
    assert_eq!(
        TradePlanner::size_trade(&amount(18, 446_744_073), &amount(0, 0), &amount(0, 1)),
        Ok((Side::Buy, 18_446_744_073))
    );
    assert_eq!(
        TradePlanner::size_trade(&amount(18_446_744_073, 709_551_615), &amount(0, 0), &amount(0, 1)),
        Ok((Side::Buy, u64::MAX))
    );
    assert_eq!(
        TradePlanner::size_trade(&amount(0, 0), &amount(18_446_744_073, 709_551_615), &amount(0, 1)),
        Ok((Side::Sell, u64::MAX))
    );
    assert_eq!(
        TradePlanner::size_trade(&amount(18_446_744_073, 709_551_616), &amount(0, 0), &amount(0, 1)),
        Err(MoneyError::Overflow)
    );
}

#[test]
fn a_negative_price_turns_the_side() {
    assert_eq!(
        TradePlanner::size_trade(&amount(1_000, 0), &amount(850, 0), &amount(-100, 0)),
        Ok((Side::Sell, 2))
    );
}

#[test]
fn target_volume_is_target_share_of_total() {
    assert_eq!(TradePlanner::target_volume(10, &amount(10_000, 0)), Ok(amount(1_000, 0)));
    assert_eq!(TradePlanner::target_volume(60, &amount(10_000, 0)), Ok(amount(6_000, 0)));
    assert_eq!(TradePlanner::target_volume(0, &amount(10_000, 0)), Ok(amount(0, 0)));
    assert_eq!(TradePlanner::target_volume(33, &amount(0, 10)), Ok(amount(0, 3)));
    assert_eq!(
        TradePlanner::target_volume(100, &amount(i64::MAX, 999_999_999)),
        Ok(amount(i64::MAX, 999_999_999))
    );
}

#[test]
fn target_volume_reports_overflow() {
    assert_eq!(
        TradePlanner::target_volume(200, &amount(i64::MAX, 0)),
        Err(MoneyError::Overflow)
    );
}

#[test]
fn plan_reports_every_field() {
    let a = allocation("AAA", 10, 8, amount(100, 0), amount(850, 0), true);
    assert_eq!(
        TradePlanner::plan(&a, &amount(10_000, 0)),
        Ok(TradeAction {
            ticker: String::from("AAA"),
            target_volume: amount(1_000, 0),
            side: Side::Buy,
            lots: 2,
            current_price: amount(100, 0),
        })
    );
}

#[test]
fn plan_all_is_empty_when_nothing_is_shifted() {
    let report = vec![
        allocation("AAA", 10, 8, amount(100, 0), amount(850, 0), false),
        allocation("BBB", 90, 92, amount(0, 0), amount(9_150, 0), false),
    ];
    assert_eq!(TradePlanner::plan_all(&report, &amount(10_000, 0)), Ok(Vec::new()));
    assert_eq!(TradePlanner::plan_all(&Vec::new(), &amount(10_000, 0)), Ok(Vec::new()));
}

#[test]
fn plan_all_covers_every_instrument_once_one_is_shifted() {
    let report = vec![
        allocation("AAA", 10, 8, amount(100, 0), amount(850, 0), false),
        allocation("BBB", 90, 92, amount(50, 0), amount(9_150, 0), true),
    ];
    let plan = TradePlanner::plan_all(&report, &amount(10_000, 0)).unwrap();
    assert_eq!(plan.len(), 2);
    assert_eq!(plan[0].ticker, "AAA");
    assert_eq!((plan[0].side, plan[0].lots), (Side::Buy, 2));
    assert_eq!(plan[1].ticker, "BBB");
    assert_eq!(plan[1].target_volume, amount(9_000, 0));
    assert_eq!((plan[1].side, plan[1].lots), (Side::Sell, 3));
}

#[test]
fn plan_all_fails_as_a_whole() {
    let report = vec![
        allocation("AAA", 10, 8, amount(100, 0), amount(850, 0), true),
        allocation("BBB", 90, 92, amount(0, 0), amount(9_150, 0), false),
    ];
    assert_eq!(
        TradePlanner::plan_all(&report, &amount(10_000, 0)),
        Err(RecordError { ticker: String::from("BBB"), cause: MoneyError::Overflow })
    );
}
