//! The target allocation table and its validation.

use crate::money::{from_nanos_spec, yields, Decimal, FixedPointMoney, MoneyError, MoneyView};
use vstd::prelude::*;

verus! {

/// The largest sum that the target percentages of a model may reach.
pub const FULL_ALLOCATION: u64 = 100;

/// The share of the portfolio that one ticker should hold, in percent.
#[derive(Debug, PartialEq, Eq)]
pub struct TargetAllocation {
    pub ticker: String,
    pub target_percent: u8,
}

impl Clone for TargetAllocation {
    fn clone(&self) -> (copy: Self)
        ensures
            copy == *self,
    {
        TargetAllocation { ticker: self.ticker.clone(), target_percent: self.target_percent }
    }
}

/// Why a model is refused.
#[derive(Clone, Copy, Debug, PartialEq, Eq, Structural)]
pub enum ConfigError {
    /// The target percentages add up to more than 100.
    AllocationSumExceeded,
}

/// The target table, in the order it was given, with an optional correction
/// that is applied to the portfolio's total value before any share is
/// computed. `new` makes only models whose targets sum to 100 or less; one
/// put together field by field is checked by `validate`.
#[derive(Debug, PartialEq, Eq)]
pub struct AllocationModel {
    pub targets: Vec<TargetAllocation>,
    pub manual_value_delta: Option<Decimal>,
}

impl Clone for AllocationModel {
    fn clone(&self) -> (copy: Self)
        ensures
            copy.targets@ == self.targets@,
            copy.manual_value_delta == self.manual_value_delta,
    {
        let mut targets: Vec<TargetAllocation> = Vec::new();
        let mut i: usize = 0;
        while i < self.targets.len()
            invariant
                i <= self.targets.len(),
                targets@ == self.targets@.take(i as int),
            decreases self.targets.len() - i,
        {
            targets.push(self.targets[i].clone());
            i = i + 1;
        }
        AllocationModel { targets, manual_value_delta: self.manual_value_delta }
    }
}

/// The sum of the first `n` target percentages.
pub open spec fn percent_sum_upto(targets: Seq<TargetAllocation>, n: nat) -> int
    decreases n,
{
    if n == 0 {
        0
    } else {
        percent_sum_upto(targets, (n - 1) as nat) + targets[n - 1].target_percent
    }
}

/// The sum of all target percentages.
pub open spec fn percent_sum(targets: Seq<TargetAllocation>) -> int {
    percent_sum_upto(targets, targets.len())
}

/// The total that shares are computed against: the observed total, moved by
/// the correction where there is one.
pub open spec fn adjusted_total_spec(total: MoneyView, delta: Option<Decimal>) -> Result<
    MoneyView,
    MoneyError,
> {
    match delta {
        None => Ok(total),
        Some(d) => from_nanos_spec(total.currency, total.nanos + d.nanos),
    }
}

proof fn lemma_percent_sum_grows(targets: Seq<TargetAllocation>, n: nat, m: nat)
    requires
        n <= m,
    ensures
        percent_sum_upto(targets, n) <= percent_sum_upto(targets, m),
    decreases m,
{
    if n < m {
        lemma_percent_sum_grows(targets, n, (m - 1) as nat);
    }
}

impl AllocationModel {
    /// A model from its targets and its correction, checked as `validate`
    /// checks it: targets that sum to more than 100 are refused.
    pub fn new(targets: Vec<TargetAllocation>, manual_value_delta: Option<Decimal>) -> (result:
        Result<AllocationModel, ConfigError>)
        ensures
            result is Ok <==> percent_sum(targets@) <= FULL_ALLOCATION,
            result matches Ok(model) ==> model.targets == targets && model.manual_value_delta
                == manual_value_delta,
            result matches Err(e) ==> e == ConfigError::AllocationSumExceeded,
    {
        let model = AllocationModel { targets, manual_value_delta };
        match model.validate() {
            Ok(()) => Ok(model),
            Err(e) => Err(e),
        }
    }

    /// Accepts the model if and only if its percentages sum to 100 or less.
    pub fn validate(&self) -> (result: Result<(), ConfigError>)
        ensures
            result is Ok <==> percent_sum(self.targets@) <= FULL_ALLOCATION,
            result matches Err(e) ==> e == ConfigError::AllocationSumExceeded,
    {
        let mut sum: u64 = 0;
        let mut i: usize = 0;
        while i < self.targets.len()
            invariant
                i <= self.targets.len(),
                sum == percent_sum_upto(self.targets@, i as nat),
                sum <= FULL_ALLOCATION,
            decreases self.targets.len() - i,
        {
            sum = sum + self.targets[i].target_percent as u64;
            i = i + 1;
            if sum > FULL_ALLOCATION {
                proof {
                    lemma_percent_sum_grows(self.targets@, i as nat, self.targets@.len());
                }
                return Err(ConfigError::AllocationSumExceeded);
            }
        }
        Ok(())
    }

    /// The total that shares are computed against.
    pub fn adjusted_total(&self, total: &FixedPointMoney) -> (result: Result<
        FixedPointMoney,
        MoneyError,
    >)
        ensures
            yields(result, adjusted_total_spec(total@, self.manual_value_delta)),
    {
        match self.manual_value_delta {
            None => Ok(total.clone()),
            Some(delta) => {
                match total.nanos().checked_add(delta.nanos) {
                    Some(moved) => FixedPointMoney::from_nanos(total.currency().clone(), moved),
                    None => Err(MoneyError::Overflow),
                }
            },
        }
    }
}

/// In a model that `validate` accepts, every target lies between 0 and 100
/// percent.
pub proof fn lemma_accepted_targets_are_percentages(targets: Seq<TargetAllocation>)
    requires
        percent_sum(targets) <= FULL_ALLOCATION,
    ensures
        forall|k: int| 0 <= k < targets.len() ==> 0 <= (#[trigger] targets[k]).target_percent <= 100,
{
    assert forall|k: int| 0 <= k < targets.len() implies 0 <= (#[trigger] targets[k]).target_percent
        <= 100 by {
        lemma_percent_sum_grows(targets, 0, k as nat);
        lemma_percent_sum_grows(targets, (k + 1) as nat, targets.len());
    }
}

} // verus!
