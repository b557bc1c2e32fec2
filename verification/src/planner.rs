//! The whole-lot trades that bring each instrument back to its target.

use crate::arith::{abs_int, div_round, div_round_spec, mul_div_trunc, mul_div_trunc_spec};
use crate::drift::{allocation_views, any_shifted, AllocationView, DriftDetector, InstrumentAllocation};
use crate::money::{from_nanos_spec, yields, FixedPointMoney, MoneyError, MoneyView};
use crate::snapshot::{RecordError, RecordFault};
use vstd::prelude::*;

verus! {

/// The direction of a trade.
#[derive(Clone, Copy, Debug, PartialEq, Eq, Structural)]
pub enum Side {
    Buy,
    Sell,
}

/// The adjustment of one instrument. Zero lots is a valid adjustment: there
/// is nothing to trade.
#[derive(Debug, PartialEq, Eq)]
pub struct TradeAction {
    pub ticker: String,
    /// The money that the target share of the total amounts to.
    pub target_volume: FixedPointMoney,
    pub side: Side,
    pub lots: u64,
    pub current_price: FixedPointMoney,
}

/// What a `TradeAction` stands for.
pub struct ActionView {
    pub ticker: Seq<char>,
    pub target_volume: MoneyView,
    pub side: Side,
    pub lots: int,
    pub current_price: MoneyView,
}

impl Clone for TradeAction {
    fn clone(&self) -> (copy: Self)
        ensures
            copy == *self,
    {
        TradeAction {
            ticker: self.ticker.clone(),
            target_volume: self.target_volume.clone(),
            side: self.side,
            lots: self.lots,
            current_price: self.current_price.clone(),
        }
    }
}

impl View for TradeAction {
    type V = ActionView;

    open spec fn view(&self) -> ActionView {
        ActionView {
            ticker: self.ticker@,
            target_volume: self.target_volume@,
            side: self.side,
            lots: self.lots as int,
            current_price: self.current_price@,
        }
    }
}

/// The sizing of trades.
pub struct TradePlanner;

/// The money that a target share of `total` amounts to:
/// `target * total / 100`, rounded toward zero at the ninth decimal, in the
/// currency of `total`.
pub open spec fn target_volume_spec(target: int, total: MoneyView) -> Result<
    MoneyView,
    MoneyError,
> {
    match mul_div_trunc_spec(target, total.nanos, 100) {
        None => Err(MoneyError::Overflow),
        Some(nanos) => from_nanos_spec(total.currency, nanos),
    }
}

/// The trade that moves `volume` to `target_volume` at a price: the
/// difference over the price, rounded to the nearest whole number with a
/// half going away from zero; a negative count is sold, any other bought.
/// The three amounts must be in one currency, the price must not be zero,
/// and the count must fit in 64 bits.
pub open spec fn size_trade_spec(
    target_volume: MoneyView,
    volume: MoneyView,
    price: MoneyView,
) -> Result<(Side, int), MoneyError> {
    if target_volume.currency != volume.currency || price.currency != volume.currency {
        Err(MoneyError::CurrencyMismatch)
    } else {
        match div_round_spec(target_volume.nanos - volume.nanos, price.nanos) {
            None => Err(MoneyError::Overflow),
            Some(lots) => if abs_int(lots) > u64::MAX {
                Err(MoneyError::Overflow)
            } else {
                Ok(
                    (
                        if lots < 0 {
                            Side::Sell
                        } else {
                            Side::Buy
                        },
                        abs_int(lots),
                    ),
                )
            },
        }
    }
}

/// The adjustment of one instrument, given the total.
pub open spec fn plan_spec(allocation: AllocationView, total: MoneyView) -> Result<
    ActionView,
    MoneyError,
> {
    match target_volume_spec(allocation.target_percent, total) {
        Err(e) => Err(e),
        Ok(target_volume) => match size_trade_spec(
            target_volume,
            allocation.volume,
            allocation.current_price,
        ) {
            Err(e) => Err(e),
            Ok(trade) => Ok(
                ActionView {
                    ticker: allocation.ticker,
                    target_volume,
                    side: trade.0,
                    lots: trade.1,
                    current_price: allocation.current_price,
                },
            ),
        },
    }
}

/// The adjustments of the first `n` instruments of a report, in their order,
/// or the error of the first that cannot be sized, with its ticker.
pub open spec fn plan_upto(report: Seq<AllocationView>, total: MoneyView, n: nat) -> Result<
    Seq<ActionView>,
    RecordFault,
>
    decreases n,
{
    if n == 0 {
        Ok(Seq::empty())
    } else {
        match plan_upto(report, total, (n - 1) as nat) {
            Err(fault) => Err(fault),
            Ok(plan) => match plan_spec(report[n - 1], total) {
                Err(cause) => Err(RecordFault { ticker: report[n - 1].ticker, cause }),
                Ok(action) => Ok(plan.push(action)),
            },
        }
    }
}

/// The trade plan of a report: empty unless some instrument is shifted, and
/// then one adjustment for every instrument of the report.
pub open spec fn plan_all_spec(report: Seq<AllocationView>, total: MoneyView) -> Result<
    Seq<ActionView>,
    RecordFault,
> {
    if any_shifted(report) {
        plan_upto(report, total, report.len())
    } else {
        Ok(Seq::empty())
    }
}

/// What each of a sequence of actions stands for.
pub open spec fn action_views(plan: Seq<TradeAction>) -> Seq<ActionView> {
    plan.map_values(|a: TradeAction| a@)
}

proof fn lemma_plan_fails_for_good(report: Seq<AllocationView>, total: MoneyView, n: nat, m: nat)
    requires
        n <= m,
        plan_upto(report, total, n) is Err,
    ensures
        plan_upto(report, total, m) == plan_upto(report, total, n),
    decreases m,
{
    if n < m {
        lemma_plan_fails_for_good(report, total, n, (m - 1) as nat);
    }
}

impl TradePlanner {
    /// The money that a target share of `total` amounts to.
    pub fn target_volume(target_percent: u8, total: &FixedPointMoney) -> (result: Result<
        FixedPointMoney,
        MoneyError,
    >)
        ensures
            yields(result, target_volume_spec(target_percent as int, total@)),
    {
        match mul_div_trunc(target_percent as i128, total.nanos(), 100) {
            None => Err(MoneyError::Overflow),
            Some(nanos) => FixedPointMoney::from_nanos(total.currency().clone(), nanos),
        }
    }

    /// The side and the number of lots of the trade that moves `volume` to
    /// `target_volume` at `current_price`.
    pub fn size_trade(
        target_volume: &FixedPointMoney,
        volume: &FixedPointMoney,
        current_price: &FixedPointMoney,
    ) -> (result: Result<(Side, u64), MoneyError>)
        ensures
            match (result, size_trade_spec(target_volume@, volume@, current_price@)) {
                (Ok(trade), Ok(v)) => trade.0 == v.0 && trade.1 == v.1,
                (Err(e), Err(f)) => e == f,
                _ => false,
            },
    {
        if *target_volume.currency() != *volume.currency() {
            return Err(MoneyError::CurrencyMismatch);
        }
        if *current_price.currency() != *volume.currency() {
            return Err(MoneyError::CurrencyMismatch);
        }
        let diff: i128 = target_volume.nanos() - volume.nanos();
        match div_round(diff, current_price.nanos()) {
            None => Err(MoneyError::Overflow),
            Some(lots) => {
                let most: i128 = 0xffff_ffff_ffff_ffffi128;
                if lots > most || lots < -most {
                    Err(MoneyError::Overflow)
                } else if lots < 0 {
                    Ok((Side::Sell, (-lots) as u64))
                } else {
                    Ok((Side::Buy, lots as u64))
                }
            },
        }
    }

    /// The adjustment of one instrument, given the total.
    pub fn plan(allocation: &InstrumentAllocation, total: &FixedPointMoney) -> (result: Result<
        TradeAction,
        MoneyError,
    >)
        ensures
            match (result, plan_spec(allocation@, total@)) {
                (Ok(action), Ok(view)) => action@ == view,
                (Err(e), Err(f)) => e == f,
                _ => false,
            },
    {
        let target_volume = match TradePlanner::target_volume(allocation.target_percent, total) {
            Ok(money) => money,
            Err(e) => {
                return Err(e);
            },
        };
        match TradePlanner::size_trade(&target_volume, &allocation.volume, &allocation.current_price) {
            Err(e) => Err(e),
            Ok((side, lots)) => Ok(
                TradeAction {
                    ticker: allocation.ticker.clone(),
                    target_volume,
                    side,
                    lots,
                    current_price: allocation.current_price.clone(),
                },
            ),
        }
    }

    /// The trade plan of a report: empty unless some instrument is shifted.
    pub fn plan_all(report: &Vec<InstrumentAllocation>, total: &FixedPointMoney) -> (result:
        Result<Vec<TradeAction>, RecordError>)
        ensures
            match (result, plan_all_spec(allocation_views(report@), total@)) {
                (Ok(plan), Ok(views)) => action_views(plan@) == views,
                (Err(e), Err(fault)) => e@ == fault,
                _ => false,
            },
    {
        let ghost views = allocation_views(report@);
        let mut plan: Vec<TradeAction> = Vec::new();
        assert(action_views(plan@) =~= Seq::empty());
        if !DriftDetector::any_shifted(report) {
            return Ok(plan);
        }
        let mut i: usize = 0;
        while i < report.len()
            invariant
                i <= report.len(),
                views == allocation_views(report@),
                any_shifted(views),
                plan_upto(views, total@, i as nat) == Ok::<Seq<ActionView>, RecordFault>(
                    action_views(plan@),
                ),
            decreases report.len() - i,
        {
            let ghost before = action_views(plan@);
            match TradePlanner::plan(&report[i], total) {
                Err(e) => {
                    proof {
                        lemma_plan_fails_for_good(views, total@, (i + 1) as nat, views.len());
                    }
                    return Err(RecordError { ticker: report[i].ticker.clone(), cause: e });
                },
                Ok(action) => {
                    plan.push(action);
                    assert(action_views(plan@) =~= before.push(action@));
                },
            }
            i = i + 1;
        }
        Ok(plan)
    }
}

proof fn lemma_plan_upto_pointwise(report: Seq<AllocationView>, total: MoneyView, n: nat)
    requires
        plan_upto(report, total, n) is Ok,
    ensures
        plan_upto(report, total, n)->Ok_0.len() == n,
        forall|k: int|
            0 <= k < n ==> #[trigger] plan_spec(report[k], total) == Ok::<ActionView, MoneyError>(
                plan_upto(report, total, n)->Ok_0[k],
            ),
    decreases n,
{
    if n > 0 {
        lemma_plan_upto_pointwise(report, total, (n - 1) as nat);
    }
}

/// The trade plan of a report in which nothing is shifted is empty, whatever
/// the report holds.
pub proof fn lemma_no_drift_no_trades(report: Seq<AllocationView>, total: MoneyView)
    requires
        forall|k: int| 0 <= k < report.len() ==> !(#[trigger] report[k]).shifted,
    ensures
        plan_all_spec(report, total) == Ok::<Seq<ActionView>, RecordFault>(Seq::empty()),
{
}

/// A trade plan that succeeds on a report with a shifted instrument holds
/// one adjustment for each instrument of the report, shifted or not, in the
/// order of the report.
pub proof fn lemma_plan_covers_each_instrument(report: Seq<AllocationView>, total: MoneyView)
    requires
        any_shifted(report),
        plan_all_spec(report, total) is Ok,
    ensures
        plan_all_spec(report, total)->Ok_0.len() == report.len(),
        forall|k: int|
            0 <= k < report.len() ==> #[trigger] plan_spec(report[k], total) == Ok::<
                ActionView,
                MoneyError,
            >(plan_all_spec(report, total)->Ok_0[k]),
{
    lemma_plan_upto_pointwise(report, total, report.len());
}

} // verus!
