//! One run over a static snapshot: validate the model, join, value, detect
//! drift, plan trades. Any error ends the run: there is no partial report.

use crate::allocation::{
    adjusted_total_spec, percent_sum, AllocationModel, ConfigError, FULL_ALLOCATION,
};
use crate::drift::{allocation_views, report_spec, AllocationView, DriftDetector, InstrumentAllocation};
use crate::money::{FixedPointMoney, MoneyError, MoneyView};
use crate::planner::{action_views, plan_all_spec, ActionView, TradeAction, TradePlanner};
use crate::snapshot::{
    build_spec, total_spec, InstrumentMeta, JoinError, JoinFault, PortfolioSnapshot, Position,
    RecordError, RecordFault,
};
use vstd::prelude::*;

verus! {

/// Why a run gave no result: the stage that failed, with the ticker it
/// failed on where the stage works record by record.
#[derive(Debug, PartialEq, Eq)]
pub enum RebalanceError {
    /// The model was refused.
    Config(ConfigError),
    /// A target could not be joined.
    Join(JoinError),
    /// The worth of the holdings could not be summed.
    Valuation(RecordError),
    /// The correction could not be applied to the total.
    Adjustment(MoneyError),
    /// A record's share of the total could not be computed.
    Drift(RecordError),
    /// A trade could not be sized.
    Planning(RecordError),
}

/// What a `RebalanceError` stands for.
pub enum RebalanceFault {
    Config(ConfigError),
    Join(JoinFault),
    Valuation(RecordFault),
    Adjustment(MoneyError),
    Drift(RecordFault),
    Planning(RecordFault),
}

impl View for RebalanceError {
    type V = RebalanceFault;

    open spec fn view(&self) -> RebalanceFault {
        match self {
            RebalanceError::Config(e) => RebalanceFault::Config(*e),
            RebalanceError::Join(e) => RebalanceFault::Join(e@),
            RebalanceError::Valuation(e) => RebalanceFault::Valuation(e@),
            RebalanceError::Adjustment(e) => RebalanceFault::Adjustment(*e),
            RebalanceError::Drift(e) => RebalanceFault::Drift(e@),
            RebalanceError::Planning(e) => RebalanceFault::Planning(e@),
        }
    }
}

/// The result of a run.
#[derive(Debug, PartialEq, Eq)]
pub struct RebalanceOutcome {
    /// What the joined holdings are worth, as observed.
    pub observed_total: FixedPointMoney,
    /// The total that shares and trades are computed against: the observed
    /// total, moved by the model's correction where there is one.
    pub total: FixedPointMoney,
    pub report: Vec<InstrumentAllocation>,
    /// Empty unless some instrument of the report is shifted.
    pub trade_plan: Vec<TradeAction>,
}

/// What a `RebalanceOutcome` stands for.
pub struct OutcomeView {
    pub observed_total: MoneyView,
    pub total: MoneyView,
    pub report: Seq<AllocationView>,
    pub trade_plan: Seq<ActionView>,
}

impl View for RebalanceOutcome {
    type V = OutcomeView;

    open spec fn view(&self) -> OutcomeView {
        OutcomeView {
            observed_total: self.observed_total@,
            total: self.total@,
            report: allocation_views(self.report@),
            trade_plan: action_views(self.trade_plan@),
        }
    }
}

/// The result of a run, stage by stage; the first stage that fails gives the
/// error.
pub open spec fn rebalance_spec(
    model: AllocationModel,
    positions: Seq<Position>,
    instruments: Seq<InstrumentMeta>,
    settlement: Seq<char>,
) -> Result<OutcomeView, RebalanceFault> {
    if percent_sum(model.targets@) > FULL_ALLOCATION {
        Err(RebalanceFault::Config(ConfigError::AllocationSumExceeded))
    } else {
        match build_spec(positions, instruments, model.targets@) {
            Err(fault) => Err(RebalanceFault::Join(fault)),
            Ok(records) => match total_spec(records, settlement) {
                Err(fault) => Err(RebalanceFault::Valuation(fault)),
                Ok(observed_total) => match adjusted_total_spec(
                    observed_total,
                    model.manual_value_delta,
                ) {
                    Err(e) => Err(RebalanceFault::Adjustment(e)),
                    Ok(total) => match report_spec(records, total) {
                        Err(fault) => Err(RebalanceFault::Drift(fault)),
                        Ok(report) => match plan_all_spec(report, total) {
                            Err(fault) => Err(RebalanceFault::Planning(fault)),
                            Ok(trade_plan) => Ok(
                                OutcomeView { observed_total, total, report, trade_plan },
                            ),
                        },
                    },
                },
            },
        }
    }
}

/// Runs the whole computation on one snapshot.
pub fn rebalance(
    model: &AllocationModel,
    positions: &Vec<Position>,
    instruments: &Vec<InstrumentMeta>,
    settlement_currency: &String,
) -> (result: Result<RebalanceOutcome, RebalanceError>)
    ensures
        match (result, rebalance_spec(*model, positions@, instruments@, settlement_currency@)) {
            (Ok(outcome), Ok(view)) => outcome@ == view,
            (Err(e), Err(fault)) => e@ == fault,
            _ => false,
        },
{
    match model.validate() {
        Err(e) => {
            return Err(RebalanceError::Config(e));
        },
        Ok(()) => {},
    }
    let records = match PortfolioSnapshot::build(positions, instruments, &model.targets) {
        Ok(records) => records,
        Err(e) => {
            return Err(RebalanceError::Join(e));
        },
    };
    let snapshot = PortfolioSnapshot::new(records, settlement_currency.clone());
    let observed_total = match snapshot.total_value() {
        Ok(total) => total,
        Err(e) => {
            return Err(RebalanceError::Valuation(e));
        },
    };
    let total = match model.adjusted_total(&observed_total) {
        Ok(total) => total,
        Err(e) => {
            return Err(RebalanceError::Adjustment(e));
        },
    };
    let report = match DriftDetector::report(&snapshot.records, &total) {
        Ok(report) => report,
        Err(e) => {
            return Err(RebalanceError::Drift(e));
        },
    };
    let trade_plan = match TradePlanner::plan_all(&report, &total) {
        Ok(plan) => plan,
        Err(e) => {
            return Err(RebalanceError::Planning(e));
        },
    };
    Ok(RebalanceOutcome { observed_total, total, report, trade_plan })
}

} // verus!
