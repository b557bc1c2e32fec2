//! Current shares of the portfolio and the policy that tells which of them
//! drifted from their target.

use crate::arith::{abs_int, mul_div_trunc, mul_div_trunc_spec};
use crate::money::{
    from_nanos_spec, yields, Decimal, FixedPointMoney, MoneyError, MoneyView, NANOS_PER_UNIT,
};
use crate::snapshot::{
    record_views, value_spec, RecordError, RecordFault, RecordView, WorkingRecord,
};
use vstd::prelude::*;

verus! {

/// Below this share, in percent, the band round the current share is
/// relative; from it on, the band is absolute.
pub const RELATIVE_REGIME_BELOW: i128 = 20;

/// The relative band: this many percent of the current share.
pub const RELATIVE_BAND: i128 = 5;

/// The absolute band, in percentage points.
pub const ABSOLUTE_BAND: i128 = 5;

/// Where one instrument stands against its target.
#[derive(Debug, PartialEq, Eq)]
pub struct InstrumentAllocation {
    pub ticker: String,
    pub target_percent: u8,
    /// The current share of the total, in percent.
    pub current_percent: Decimal,
    pub current_price: FixedPointMoney,
    /// The money that the current share of the total amounts to.
    pub volume: FixedPointMoney,
    pub shifted: bool,
}

/// What an `InstrumentAllocation` stands for; the current share is counted
/// in billionths of a percent.
pub struct AllocationView {
    pub ticker: Seq<char>,
    pub target_percent: int,
    pub current_percent: int,
    pub current_price: MoneyView,
    pub volume: MoneyView,
    pub shifted: bool,
}

impl Clone for InstrumentAllocation {
    fn clone(&self) -> (copy: Self)
        ensures
            copy == *self,
    {
        InstrumentAllocation {
            ticker: self.ticker.clone(),
            target_percent: self.target_percent,
            current_percent: self.current_percent,
            current_price: self.current_price.clone(),
            volume: self.volume.clone(),
            shifted: self.shifted,
        }
    }
}

impl View for InstrumentAllocation {
    type V = AllocationView;

    open spec fn view(&self) -> AllocationView {
        AllocationView {
            ticker: self.ticker@,
            target_percent: self.target_percent as int,
            current_percent: self.current_percent.nanos as int,
            current_price: self.current_price@,
            volume: self.volume@,
            shifted: self.shifted,
        }
    }
}

/// The drift policy and what it is applied to.
pub struct DriftDetector;

/// The share that `value` is of `total`, in billionths of a percent:
/// `value / total * 100`, rounded toward zero at the ninth decimal. The two
/// amounts must be in one currency. There is no share of a total of zero,
/// and none where the scaled value or the share leaves the 128-bit range:
/// these count as overflow.
pub open spec fn share_spec(value: MoneyView, total: MoneyView) -> Result<int, MoneyError> {
    if value.currency != total.currency {
        Err(MoneyError::CurrencyMismatch)
    } else {
        match mul_div_trunc_spec(value.nanos, 100 * NANOS_PER_UNIT, total.nanos) {
            Some(share) => Ok(share),
            None => Err(MoneyError::Overflow),
        }
    }
}

/// The share that a record's worth is of `total`.
pub open spec fn current_percent_spec(record: RecordView, total: MoneyView) -> Result<
    int,
    MoneyError,
> {
    match value_spec(record) {
        Err(e) => Err(e),
        Ok(value) => share_spec(value, total),
    }
}

/// The policy. `current` is a share in billionths of a percent, `target` a
/// whole percentage. Below 20 percent the instrument is shifted when the
/// share is further from the target than 5 percent of the share itself; from
/// 20 percent on, when the share, cut down to whole percent, is 5 points or
/// more from the target.
pub open spec fn is_shifted_spec(current: int, target: int) -> bool {
    if current < RELATIVE_REGIME_BELOW * NANOS_PER_UNIT {
        100 * abs_int(current - target * NANOS_PER_UNIT) > RELATIVE_BAND * current
    } else {
        abs_int(current / (NANOS_PER_UNIT as int) - target) >= ABSOLUTE_BAND
    }
}

/// The money that a share of `total` amounts to: `current * total / 100`,
/// rounded toward zero at the ninth decimal, in the currency of `total`.
pub open spec fn volume_spec(current: int, total: MoneyView) -> Result<MoneyView, MoneyError> {
    match mul_div_trunc_spec(current, total.nanos, 100 * NANOS_PER_UNIT) {
        None => Err(MoneyError::Overflow),
        Some(nanos) => from_nanos_spec(total.currency, nanos),
    }
}

/// Where a record stands against its target, given the total.
pub open spec fn assess_spec(record: RecordView, total: MoneyView) -> Result<
    AllocationView,
    MoneyError,
> {
    match current_percent_spec(record, total) {
        Err(e) => Err(e),
        Ok(current) => match volume_spec(current, total) {
            Err(e) => Err(e),
            Ok(volume) => Ok(
                AllocationView {
                    ticker: record.ticker,
                    target_percent: record.target_percent,
                    current_percent: current,
                    current_price: record.unit_price,
                    volume,
                    shifted: is_shifted_spec(current, record.target_percent),
                },
            ),
        },
    }
}

/// Where the first `n` records stand, in their order, or the error of the
/// first record that cannot be assessed, with its ticker.
pub open spec fn report_upto(records: Seq<RecordView>, total: MoneyView, n: nat) -> Result<
    Seq<AllocationView>,
    RecordFault,
>
    decreases n,
{
    if n == 0 {
        Ok(Seq::empty())
    } else {
        match report_upto(records, total, (n - 1) as nat) {
            Err(fault) => Err(fault),
            Ok(report) => match assess_spec(records[n - 1], total) {
                Err(cause) => Err(RecordFault { ticker: records[n - 1].ticker, cause }),
                Ok(allocation) => Ok(report.push(allocation)),
            },
        }
    }
}

/// Where all records stand.
pub open spec fn report_spec(records: Seq<RecordView>, total: MoneyView) -> Result<
    Seq<AllocationView>,
    RecordFault,
> {
    report_upto(records, total, records.len())
}

/// What each of a sequence of allocations stands for.
pub open spec fn allocation_views(report: Seq<InstrumentAllocation>) -> Seq<AllocationView> {
    report.map_values(|a: InstrumentAllocation| a@)
}

/// Whether any allocation of a report is shifted.
pub open spec fn any_shifted(report: Seq<AllocationView>) -> bool {
    exists|i: int| 0 <= i < report.len() && (#[trigger] report[i]).shifted
}

proof fn lemma_report_fails_for_good(records: Seq<RecordView>, total: MoneyView, n: nat, m: nat)
    requires
        n <= m,
        report_upto(records, total, n) is Err,
    ensures
        report_upto(records, total, m) == report_upto(records, total, n),
    decreases m,
{
    if n < m {
        lemma_report_fails_for_good(records, total, n, (m - 1) as nat);
    }
}

impl DriftDetector {
    /// The share that `value` is of `total`, in percent.
    pub fn share(value: &FixedPointMoney, total: &FixedPointMoney) -> (result: Result<
        Decimal,
        MoneyError,
    >)
        ensures
            match (result, share_spec(value@, total@)) {
                (Ok(share), Ok(v)) => share.nanos == v,
                (Err(e), Err(f)) => e == f,
                _ => false,
            },
    {
        if *value.currency() != *total.currency() {
            return Err(MoneyError::CurrencyMismatch);
        }
        match mul_div_trunc(value.nanos(), 100 * NANOS_PER_UNIT, total.nanos()) {
            Some(nanos) => Ok(Decimal { nanos }),
            None => Err(MoneyError::Overflow),
        }
    }

    /// The share that a record's worth is of `total`, in percent.
    pub fn current_percent(record: &WorkingRecord, total: &FixedPointMoney) -> (result: Result<
        Decimal,
        MoneyError,
    >)
        ensures
            match (result, current_percent_spec(record@, total@)) {
                (Ok(share), Ok(v)) => share.nanos == v,
                (Err(e), Err(f)) => e == f,
                _ => false,
            },
    {
        match record.value() {
            Err(e) => Err(e),
            Ok(value) => DriftDetector::share(&value, total),
        }
    }

    /// Whether a share of `current_percent` has drifted from a target of
    /// `target_percent`.
    pub fn is_shifted(current_percent: Decimal, target_percent: u8) -> (shifted: bool)
        ensures
            shifted == is_shifted_spec(current_percent.nanos as int, target_percent as int),
    {
        let current: i128 = current_percent.nanos;
        let target: i128 = target_percent as i128;
        if current < 0 {
            true
        } else if current < RELATIVE_REGIME_BELOW * NANOS_PER_UNIT {
            let gap: i128 = current - target * NANOS_PER_UNIT;
            let distance: i128 = if gap < 0 {
                -gap
            } else {
                gap
            };
            100 * distance > RELATIVE_BAND * current
        } else {
            let gap: i128 = current / NANOS_PER_UNIT - target;
            let distance: i128 = if gap < 0 {
                -gap
            } else {
                gap
            };
            distance >= ABSOLUTE_BAND
        }
    }

    /// The money that a share of `total` amounts to.
    pub fn volume(current_percent: Decimal, total: &FixedPointMoney) -> (result: Result<
        FixedPointMoney,
        MoneyError,
    >)
        ensures
            yields(result, volume_spec(current_percent.nanos as int, total@)),
    {
        match mul_div_trunc(current_percent.nanos, total.nanos(), 100 * NANOS_PER_UNIT) {
            None => Err(MoneyError::Overflow),
            Some(nanos) => FixedPointMoney::from_nanos(total.currency().clone(), nanos),
        }
    }

    /// Where a record stands against its target, given the total.
    pub fn assess(record: &WorkingRecord, total: &FixedPointMoney) -> (result: Result<
        InstrumentAllocation,
        MoneyError,
    >)
        ensures
            match (result, assess_spec(record@, total@)) {
                (Ok(allocation), Ok(view)) => allocation@ == view,
                (Err(e), Err(f)) => e == f,
                _ => false,
            },
    {
        let current_percent = match DriftDetector::current_percent(record, total) {
            Ok(share) => share,
            Err(e) => {
                return Err(e);
            },
        };
        let volume = match DriftDetector::volume(current_percent, total) {
            Ok(volume) => volume,
            Err(e) => {
                return Err(e);
            },
        };
        Ok(
            InstrumentAllocation {
                ticker: record.ticker.clone(),
                target_percent: record.target_percent,
                current_percent,
                current_price: record.unit_price.clone(),
                volume,
                shifted: DriftDetector::is_shifted(current_percent, record.target_percent),
            },
        )
    }

    /// Where all records stand, in their order; the first record that cannot
    /// be assessed fails the whole report.
    pub fn report(records: &Vec<WorkingRecord>, total: &FixedPointMoney) -> (result: Result<
        Vec<InstrumentAllocation>,
        RecordError,
    >)
        ensures
            match (result, report_spec(record_views(records@), total@)) {
                (Ok(report), Ok(views)) => allocation_views(report@) == views,
                (Err(e), Err(fault)) => e@ == fault,
                _ => false,
            },
    {
        let ghost views = record_views(records@);
        let mut report: Vec<InstrumentAllocation> = Vec::new();
        let mut i: usize = 0;
        assert(allocation_views(report@) =~= Seq::empty());
        while i < records.len()
            invariant
                i <= records.len(),
                views == record_views(records@),
                report_upto(views, total@, i as nat) == Ok::<Seq<AllocationView>, RecordFault>(
                    allocation_views(report@),
                ),
            decreases records.len() - i,
        {
            let ghost before = allocation_views(report@);
            match DriftDetector::assess(&records[i], total) {
                Err(e) => {
                    proof {
                        lemma_report_fails_for_good(views, total@, (i + 1) as nat, views.len());
                    }
                    return Err(RecordError { ticker: records[i].ticker.clone(), cause: e });
                },
                Ok(allocation) => {
                    report.push(allocation);
                    assert(allocation_views(report@) =~= before.push(allocation@));
                },
            }
            i = i + 1;
        }
        Ok(report)
    }

    /// Whether any allocation of a report is shifted.
    pub fn any_shifted(report: &Vec<InstrumentAllocation>) -> (found: bool)
        ensures
            found == any_shifted(allocation_views(report@)),
    {
        let mut i: usize = 0;
        while i < report.len()
            invariant
                i <= report.len(),
                forall|k: int| 0 <= k < i ==> !(#[trigger] allocation_views(report@)[k]).shifted,
            decreases report.len() - i,
        {
            if report[i].shifted {
                assert(allocation_views(report@)[i as int].shifted);
                return true;
            }
            i = i + 1;
        }
        false
    }
}

proof fn lemma_report_upto_pointwise(records: Seq<RecordView>, total: MoneyView, n: nat)
    requires
        report_upto(records, total, n) is Ok,
    ensures
        report_upto(records, total, n)->Ok_0.len() == n,
        forall|k: int|
            0 <= k < n ==> #[trigger] assess_spec(records[k], total) == Ok::<
                AllocationView,
                MoneyError,
            >(report_upto(records, total, n)->Ok_0[k]),
    decreases n,
{
    if n > 0 {
        lemma_report_upto_pointwise(records, total, (n - 1) as nat);
    }
}

proof fn lemma_report_upto_failure(records: Seq<RecordView>, total: MoneyView, n: nat) -> (k: int)
    requires
        report_upto(records, total, n) is Err,
    ensures
        0 <= k < n,
        assess_spec(records[k], total) is Err,
        report_upto(records, total, n)->Err_0 == (RecordFault {
            ticker: records[k].ticker,
            cause: assess_spec(records[k], total)->Err_0,
        }),
        forall|j: int| 0 <= j < k ==> #[trigger] assess_spec(records[j], total) is Ok,
    decreases n,
{
    if report_upto(records, total, (n - 1) as nat) is Err {
        lemma_report_upto_failure(records, total, (n - 1) as nat)
    } else {
        lemma_report_upto_pointwise(records, total, (n - 1) as nat);
        n - 1
    }
}

/// A report that succeeds holds one allocation for each record, in the order
/// of the records, and each is the assessment of its own record.
pub proof fn lemma_report_assesses_each_record(records: Seq<RecordView>, total: MoneyView)
    requires
        report_spec(records, total) is Ok,
    ensures
        report_spec(records, total)->Ok_0.len() == records.len(),
        forall|k: int|
            0 <= k < records.len() ==> #[trigger] assess_spec(records[k], total) == Ok::<
                AllocationView,
                MoneyError,
            >(report_spec(records, total)->Ok_0[k]),
{
    lemma_report_upto_pointwise(records, total, records.len());
}

/// A report that fails names the first record, in order, that cannot be
/// assessed, with the error of its assessment; the result is that record's
/// index.
pub proof fn lemma_report_fails_on_first_error(records: Seq<RecordView>, total: MoneyView) -> (k:
    int)
    requires
        report_spec(records, total) is Err,
    ensures
        0 <= k < records.len(),
        assess_spec(records[k], total) is Err,
        report_spec(records, total)->Err_0 == (RecordFault {
            ticker: records[k].ticker,
            cause: assess_spec(records[k], total)->Err_0,
        }),
        forall|j: int| 0 <= j < k ==> #[trigger] assess_spec(records[j], total) is Ok,
{
    lemma_report_upto_failure(records, total, records.len())
}

/// A share that is exactly on its target is not shifted, in either regime.
pub proof fn lemma_on_target_is_not_shifted(target: int)
    requires
        0 <= target,
    ensures
        !is_shifted_spec(target * NANOS_PER_UNIT, target),
{
}

/// A share that, cut down to whole percent, is 5 points or more from its
/// target is shifted in either regime: the relative band is never wider than
/// the absolute one.
pub proof fn lemma_five_points_off_is_shifted(current: int, target: int)
    requires
        0 <= current,
        abs_int(current / (NANOS_PER_UNIT as int) - target) >= ABSOLUTE_BAND,
    ensures
        is_shifted_spec(current, target),
{
}

/// A negative share is always shifted.
pub proof fn lemma_negative_share_is_shifted(current: int, target: int)
    requires
        current < 0,
    ensures
        is_shifted_spec(current, target),
{
}

} // verus!
