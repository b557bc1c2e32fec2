//! The join of targets, instrument catalog and held positions into working
//! records, and the valuation of those records.

use crate::allocation::TargetAllocation;
use crate::money::{add_spec, scale_spec, yields, FixedPointMoney, MoneyError, MoneyView, Quantity};
use vstd::prelude::*;

verus! {

/// Reference data of one instrument of the catalog. A lot holds at least one
/// share.
#[derive(Debug, PartialEq, Eq)]
pub struct InstrumentMeta {
    id: String,
    ticker: String,
    lot_size: u32,
}

/// What an `InstrumentMeta` stands for.
pub struct InstrumentView {
    pub id: Seq<char>,
    pub ticker: Seq<char>,
    /// How many shares make one lot.
    pub lot_size: int,
}

impl View for InstrumentMeta {
    type V = InstrumentView;

    closed spec fn view(&self) -> InstrumentView {
        InstrumentView { id: self.id@, ticker: self.ticker@, lot_size: self.lot_size as int }
    }
}

impl Clone for InstrumentMeta {
    fn clone(&self) -> (copy: Self)
        ensures
            copy == *self,
    {
        proof {
            use_type_invariant(self);
        }
        InstrumentMeta {
            id: self.id.clone(),
            ticker: self.ticker.clone(),
            lot_size: self.lot_size,
        }
    }
}

impl InstrumentMeta {
    #[verifier::type_invariant]
    spec fn lot_holds_a_share(self) -> bool {
        self.lot_size > 0
    }

    /// An instrument from its parts; nothing if the lot size is zero.
    pub fn new(id: String, ticker: String, lot_size: u32) -> (made: Option<InstrumentMeta>)
        ensures
            made is Some <==> lot_size > 0,
            made matches Some(m) ==> m@ == (InstrumentView {
                id: id@,
                ticker: ticker@,
                lot_size: lot_size as int,
            }),
    {
        if lot_size > 0 {
            Some(InstrumentMeta { id, ticker, lot_size })
        } else {
            None
        }
    }

    /// The identifier by which positions refer to the instrument.
    pub fn id(&self) -> (id: &String)
        ensures
            id@ == self@.id,
    {
        &self.id
    }

    /// The ticker by which targets refer to the instrument.
    pub fn ticker(&self) -> (ticker: &String)
        ensures
            ticker@ == self@.ticker,
    {
        &self.ticker
    }

    /// How many shares make one lot.
    pub fn lot_size(&self) -> (shares: u32)
        ensures
            shares == self@.lot_size,
            shares > 0,
    {
        proof {
            use_type_invariant(self);
        }
        self.lot_size
    }
}

/// One holding, as observed: how many lots of an instrument, at what price
/// per share.
#[derive(Debug, PartialEq, Eq)]
pub struct Position {
    pub instrument_id: String,
    pub quantity: Quantity,
    pub unit_price: FixedPointMoney,
}

impl Clone for Position {
    fn clone(&self) -> (copy: Self)
        ensures
            copy == *self,
    {
        Position {
            instrument_id: self.instrument_id.clone(),
            quantity: self.quantity,
            unit_price: self.unit_price.clone(),
        }
    }
}

/// A target joined to its instrument and its holding.
#[derive(Debug, PartialEq, Eq)]
pub struct WorkingRecord {
    pub ticker: String,
    pub target_percent: u8,
    pub quantity: Quantity,
    pub unit_price: FixedPointMoney,
    pub lot_size: u32,
}

impl Clone for WorkingRecord {
    fn clone(&self) -> (copy: Self)
        ensures
            copy == *self,
    {
        WorkingRecord {
            ticker: self.ticker.clone(),
            target_percent: self.target_percent,
            quantity: self.quantity,
            unit_price: self.unit_price.clone(),
            lot_size: self.lot_size,
        }
    }
}

/// What a `WorkingRecord` stands for.
pub struct RecordView {
    pub ticker: Seq<char>,
    pub target_percent: int,
    pub quantity: int,
    pub unit_price: MoneyView,
    pub lot_size: int,
}

impl View for WorkingRecord {
    type V = RecordView;

    open spec fn view(&self) -> RecordView {
        RecordView {
            ticker: self.ticker@,
            target_percent: self.target_percent as int,
            quantity: self.quantity.whole as int,
            unit_price: self.unit_price@,
            lot_size: self.lot_size as int,
        }
    }
}

/// A computation on the money of one record that gave no value.
#[derive(Debug, PartialEq, Eq)]
pub struct RecordError {
    /// The ticker of the record.
    pub ticker: String,
    pub cause: MoneyError,
}

impl Clone for RecordError {
    fn clone(&self) -> (copy: Self)
        ensures
            copy == *self,
    {
        RecordError { ticker: self.ticker.clone(), cause: self.cause }
    }
}

/// What a `RecordError` stands for.
pub struct RecordFault {
    pub ticker: Seq<char>,
    pub cause: MoneyError,
}

impl View for RecordError {
    type V = RecordFault;

    open spec fn view(&self) -> RecordFault {
        RecordFault { ticker: self.ticker@, cause: self.cause }
    }
}

/// Why a target could not be joined. Each variant names the target's ticker.
#[derive(Debug, PartialEq, Eq)]
pub enum JoinError {
    /// No instrument of the catalog has the ticker.
    UnknownTicker(String),
    /// The ticker's instrument is not among the held positions.
    NoPosition(String),
}

impl Clone for JoinError {
    fn clone(&self) -> (copy: Self)
        ensures
            copy == *self,
    {
        match self {
            JoinError::UnknownTicker(ticker) => JoinError::UnknownTicker(ticker.clone()),
            JoinError::NoPosition(ticker) => JoinError::NoPosition(ticker.clone()),
        }
    }
}

/// What a `JoinError` stands for.
pub enum JoinFault {
    UnknownTicker(Seq<char>),
    NoPosition(Seq<char>),
}

impl View for JoinError {
    type V = JoinFault;

    open spec fn view(&self) -> JoinFault {
        match self {
            JoinError::UnknownTicker(ticker) => JoinFault::UnknownTicker(ticker@),
            JoinError::NoPosition(ticker) => JoinFault::NoPosition(ticker@),
        }
    }
}

/// The records that were joined, with the currency in which the portfolio is
/// settled.
#[derive(Debug, PartialEq, Eq)]
pub struct PortfolioSnapshot {
    pub records: Vec<WorkingRecord>,
    pub settlement_currency: String,
}

impl Clone for PortfolioSnapshot {
    fn clone(&self) -> (copy: Self)
        ensures
            copy.records@ == self.records@,
            copy.settlement_currency == self.settlement_currency,
    {
        let mut records: Vec<WorkingRecord> = Vec::new();
        let mut i: usize = 0;
        while i < self.records.len()
            invariant
                i <= self.records.len(),
                records@ == self.records@.take(i as int),
            decreases self.records.len() - i,
        {
            records.push(self.records[i].clone());
            i = i + 1;
        }
        PortfolioSnapshot { records, settlement_currency: self.settlement_currency.clone() }
    }
}

/// The index of the first of the first `n` instruments that has the ticker.
pub open spec fn first_with_ticker_upto(
    instruments: Seq<InstrumentMeta>,
    ticker: Seq<char>,
    n: nat,
) -> Option<int>
    decreases n,
{
    if n == 0 {
        None
    } else {
        match first_with_ticker_upto(instruments, ticker, (n - 1) as nat) {
            Some(i) => Some(i),
            None => if instruments[n - 1]@.ticker == ticker {
                Some(n - 1)
            } else {
                None
            },
        }
    }
}

/// The index of the first instrument that has the ticker.
pub open spec fn first_with_ticker(instruments: Seq<InstrumentMeta>, ticker: Seq<char>) -> Option<
    int,
> {
    first_with_ticker_upto(instruments, ticker, instruments.len())
}

/// The index of the last of the first `n` positions that holds the
/// instrument.
pub open spec fn last_with_id_upto(positions: Seq<Position>, id: Seq<char>, n: nat) -> Option<int>
    decreases n,
{
    if n == 0 {
        None
    } else if positions[n - 1].instrument_id@ == id {
        Some(n - 1)
    } else {
        last_with_id_upto(positions, id, (n - 1) as nat)
    }
}

/// The index of the last position that holds the instrument: where an
/// instrument is listed more than once, the latest entry counts.
pub open spec fn last_with_id(positions: Seq<Position>, id: Seq<char>) -> Option<int> {
    last_with_id_upto(positions, id, positions.len())
}

/// The record of one target: its instrument is the first of the catalog with
/// its ticker, its holding the last position of that instrument.
pub open spec fn join_spec(
    target: TargetAllocation,
    instruments: Seq<InstrumentMeta>,
    positions: Seq<Position>,
) -> Result<RecordView, JoinFault> {
    match first_with_ticker(instruments, target.ticker@) {
        None => Err(JoinFault::UnknownTicker(target.ticker@)),
        Some(i) => match last_with_id(positions, instruments[i]@.id) {
            None => Err(JoinFault::NoPosition(target.ticker@)),
            Some(j) => Ok(
                RecordView {
                    ticker: target.ticker@,
                    target_percent: target.target_percent as int,
                    quantity: positions[j].quantity.whole as int,
                    unit_price: positions[j].unit_price@,
                    lot_size: instruments[i]@.lot_size,
                },
            ),
        },
    }
}

/// The records of the first `n` targets, in their order, or the fault of the
/// first target that cannot be joined.
pub open spec fn build_upto(
    positions: Seq<Position>,
    instruments: Seq<InstrumentMeta>,
    targets: Seq<TargetAllocation>,
    n: nat,
) -> Result<Seq<RecordView>, JoinFault>
    decreases n,
{
    if n == 0 {
        Ok(Seq::empty())
    } else {
        match build_upto(positions, instruments, targets, (n - 1) as nat) {
            Err(fault) => Err(fault),
            Ok(records) => match join_spec(targets[n - 1], instruments, positions) {
                Err(fault) => Err(fault),
                Ok(record) => Ok(records.push(record)),
            },
        }
    }
}

/// The records of all targets, or the fault of the first target that cannot
/// be joined. A position that no target asks for is left out.
pub open spec fn build_spec(
    positions: Seq<Position>,
    instruments: Seq<InstrumentMeta>,
    targets: Seq<TargetAllocation>,
) -> Result<Seq<RecordView>, JoinFault> {
    build_upto(positions, instruments, targets, targets.len())
}

/// What each of a sequence of records stands for.
pub open spec fn record_views(records: Seq<WorkingRecord>) -> Seq<RecordView> {
    records.map_values(|r: WorkingRecord| r@)
}

/// The worth of a record: its price per share, times the lots held, times
/// the shares in a lot.
pub open spec fn value_spec(record: RecordView) -> Result<MoneyView, MoneyError> {
    match scale_spec(record.unit_price, record.quantity) {
        Err(e) => Err(e),
        Ok(held) => scale_spec(held, record.lot_size),
    }
}

/// The sum so far and the worth of one more record, added; an error names
/// the record.
pub open spec fn accumulate_spec(sum: MoneyView, record: RecordView) -> Result<
    MoneyView,
    RecordFault,
> {
    match value_spec(record) {
        Err(cause) => Err(RecordFault { ticker: record.ticker, cause }),
        Ok(value) => match add_spec(sum, value) {
            Err(cause) => Err(RecordFault { ticker: record.ticker, cause }),
            Ok(next) => Ok(next),
        },
    }
}

/// The worth of the first `n` records together, summed in their order from
/// nothing in the settlement currency, or the first error met on the way.
pub open spec fn total_upto(records: Seq<RecordView>, currency: Seq<char>, n: nat) -> Result<
    MoneyView,
    RecordFault,
>
    decreases n,
{
    if n == 0 {
        Ok(MoneyView { currency, nanos: 0 })
    } else {
        match total_upto(records, currency, (n - 1) as nat) {
            Err(fault) => Err(fault),
            Ok(sum) => accumulate_spec(sum, records[n - 1]),
        }
    }
}

/// The worth of all records together.
pub open spec fn total_spec(records: Seq<RecordView>, currency: Seq<char>) -> Result<
    MoneyView,
    RecordFault,
> {
    total_upto(records, currency, records.len())
}

proof fn lemma_first_with_ticker_stays(
    instruments: Seq<InstrumentMeta>,
    ticker: Seq<char>,
    n: nat,
    m: nat,
)
    requires
        n <= m,
        first_with_ticker_upto(instruments, ticker, n) is Some,
    ensures
        first_with_ticker_upto(instruments, ticker, m) == first_with_ticker_upto(
            instruments,
            ticker,
            n,
        ),
    decreases m,
{
    if n < m {
        lemma_first_with_ticker_stays(instruments, ticker, n, (m - 1) as nat);
    }
}

/// The index of the first instrument of the catalog that has the ticker.
pub fn find_instrument(instruments: &Vec<InstrumentMeta>, ticker: &String) -> (found: Option<
    usize,
>)
    ensures
        match (found, first_with_ticker(instruments@, ticker@)) {
            (Some(i), Some(k)) => i == k,
            (None, None) => true,
            _ => false,
        },
        found matches Some(i) ==> i < instruments.len() && instruments[i as int]@.ticker
            == ticker@,
{
    let mut i: usize = 0;
    while i < instruments.len()
        invariant
            i <= instruments.len(),
            first_with_ticker_upto(instruments@, ticker@, i as nat) is None,
        decreases instruments.len() - i,
    {
        if instruments[i].ticker == *ticker {
            proof {
                lemma_first_with_ticker_stays(
                    instruments@,
                    ticker@,
                    (i + 1) as nat,
                    instruments@.len(),
                );
            }
            return Some(i);
        }
        i = i + 1;
    }
    None
}

/// The index of the last position that holds the instrument.
pub fn find_position(positions: &Vec<Position>, id: &String) -> (found: Option<usize>)
    ensures
        match (found, last_with_id(positions@, id@)) {
            (Some(i), Some(k)) => i == k,
            (None, None) => true,
            _ => false,
        },
        found matches Some(i) ==> i < positions.len() && positions[i as int].instrument_id@
            == id@,
{
    let mut i: usize = positions.len();
    while i > 0
        invariant
            i <= positions.len(),
            last_with_id(positions@, id@) == last_with_id_upto(positions@, id@, i as nat),
        decreases i,
    {
        i = i - 1;
        if positions[i].instrument_id == *id {
            return Some(i);
        }
    }
    None
}

impl WorkingRecord {
    /// The record of one target, joined to the catalog and the holdings.
    pub fn join(
        target: &TargetAllocation,
        instruments: &Vec<InstrumentMeta>,
        positions: &Vec<Position>,
    ) -> (result: Result<WorkingRecord, JoinError>)
        ensures
            match (result, join_spec(*target, instruments@, positions@)) {
                (Ok(record), Ok(view)) => record@ == view,
                (Err(e), Err(fault)) => e@ == fault,
                _ => false,
            },
    {
        let i: usize = match find_instrument(instruments, &target.ticker) {
            Some(i) => i,
            None => {
                return Err(JoinError::UnknownTicker(target.ticker.clone()));
            },
        };
        let j: usize = match find_position(positions, &instruments[i].id) {
            Some(j) => j,
            None => {
                return Err(JoinError::NoPosition(target.ticker.clone()));
            },
        };
        Ok(
            WorkingRecord {
                ticker: target.ticker.clone(),
                target_percent: target.target_percent,
                quantity: positions[j].quantity,
                unit_price: positions[j].unit_price.clone(),
                lot_size: instruments[i].lot_size,
            },
        )
    }

    /// What the holding is worth.
    pub fn value(&self) -> (result: Result<FixedPointMoney, MoneyError>)
        ensures
            yields(result, value_spec(self@)),
    {
        match self.unit_price.multiply_by_quantity(self.quantity) {
            Err(e) => Err(e),
            Ok(held) => held.multiply_by_quantity(Quantity { whole: self.lot_size as i64 }),
        }
    }
}

impl PortfolioSnapshot {
    /// Joins every target, in order, to its instrument and its holding.
    pub fn build(
        positions: &Vec<Position>,
        instruments: &Vec<InstrumentMeta>,
        targets: &Vec<TargetAllocation>,
    ) -> (result: Result<Vec<WorkingRecord>, JoinError>)
        ensures
            match (result, build_spec(positions@, instruments@, targets@)) {
                (Ok(records), Ok(views)) => record_views(records@) == views,
                (Err(e), Err(fault)) => e@ == fault,
                _ => false,
            },
    {
        let mut records: Vec<WorkingRecord> = Vec::new();
        let mut i: usize = 0;
        assert(record_views(records@) =~= Seq::empty());
        while i < targets.len()
            invariant
                i <= targets.len(),
                build_upto(positions@, instruments@, targets@, i as nat) == Ok::<
                    Seq<RecordView>,
                    JoinFault,
                >(record_views(records@)),
            decreases targets.len() - i,
        {
            let ghost before = record_views(records@);
            match WorkingRecord::join(&targets[i], instruments, positions) {
                Err(e) => {
                    proof {
                        lemma_build_fails_for_good(
                            positions@,
                            instruments@,
                            targets@,
                            (i + 1) as nat,
                            targets@.len(),
                        );
                    }
                    return Err(e);
                },
                Ok(record) => {
                    records.push(record);
                    assert(record_views(records@) =~= before.push(record@));
                },
            }
            i = i + 1;
        }
        Ok(records)
    }

    /// The snapshot of joined records, settled in a currency.
    pub fn new(records: Vec<WorkingRecord>, settlement_currency: String) -> (snapshot:
        PortfolioSnapshot)
        ensures
            snapshot.records == records,
            snapshot.settlement_currency == settlement_currency,
    {
        PortfolioSnapshot { records, settlement_currency }
    }

    /// What the joined holdings are worth together.
    pub fn total_value(&self) -> (result: Result<FixedPointMoney, RecordError>)
        ensures
            match (
                result,
                total_spec(record_views(self.records@), self.settlement_currency@),
            ) {
                (Ok(total), Ok(view)) => total@ == view,
                (Err(e), Err(fault)) => e@ == fault,
                _ => false,
            },
    {
        let ghost views = record_views(self.records@);
        let mut sum = FixedPointMoney::zero(self.settlement_currency.clone());
        let mut i: usize = 0;
        while i < self.records.len()
            invariant
                i <= self.records.len(),
                views == record_views(self.records@),
                total_upto(views, self.settlement_currency@, i as nat) == Ok::<
                    MoneyView,
                    RecordFault,
                >(sum@),
            decreases self.records.len() - i,
        {
            let value = match self.records[i].value() {
                Ok(value) => value,
                Err(e) => {
                    proof {
                        lemma_total_fails_for_good(
                            views,
                            self.settlement_currency@,
                            (i + 1) as nat,
                            views.len(),
                        );
                    }
                    return Err(RecordError { ticker: self.records[i].ticker.clone(), cause: e });
                },
            };
            sum = match sum.add(&value) {
                Ok(next) => next,
                Err(e) => {
                    proof {
                        lemma_total_fails_for_good(
                            views,
                            self.settlement_currency@,
                            (i + 1) as nat,
                            views.len(),
                        );
                    }
                    return Err(RecordError { ticker: self.records[i].ticker.clone(), cause: e });
                },
            };
            i = i + 1;
        }
        Ok(sum)
    }
}

proof fn lemma_build_fails_for_good(
    positions: Seq<Position>,
    instruments: Seq<InstrumentMeta>,
    targets: Seq<TargetAllocation>,
    n: nat,
    m: nat,
)
    requires
        n <= m,
        build_upto(positions, instruments, targets, n) is Err,
    ensures
        build_upto(positions, instruments, targets, m) == build_upto(
            positions,
            instruments,
            targets,
            n,
        ),
    decreases m,
{
    if n < m {
        lemma_build_fails_for_good(positions, instruments, targets, n, (m - 1) as nat);
    }
}

proof fn lemma_total_fails_for_good(records: Seq<RecordView>, currency: Seq<char>, n: nat, m: nat)
    requires
        n <= m,
        total_upto(records, currency, n) is Err,
    ensures
        total_upto(records, currency, m) == total_upto(records, currency, n),
    decreases m,
{
    if n < m {
        lemma_total_fails_for_good(records, currency, n, (m - 1) as nat);
    }
}

proof fn lemma_build_upto_pointwise(
    positions: Seq<Position>,
    instruments: Seq<InstrumentMeta>,
    targets: Seq<TargetAllocation>,
    n: nat,
)
    requires
        build_upto(positions, instruments, targets, n) is Ok,
    ensures
        build_upto(positions, instruments, targets, n)->Ok_0.len() == n,
        forall|k: int|
            0 <= k < n ==> #[trigger] join_spec(targets[k], instruments, positions) == Ok::<
                RecordView,
                JoinFault,
            >(build_upto(positions, instruments, targets, n)->Ok_0[k]),
    decreases n,
{
    if n > 0 {
        lemma_build_upto_pointwise(positions, instruments, targets, (n - 1) as nat);
    }
}

proof fn lemma_build_upto_failure(
    positions: Seq<Position>,
    instruments: Seq<InstrumentMeta>,
    targets: Seq<TargetAllocation>,
    n: nat,
) -> (k: int)
    requires
        build_upto(positions, instruments, targets, n) is Err,
    ensures
        0 <= k < n,
        join_spec(targets[k], instruments, positions) == Err::<RecordView, JoinFault>(
            build_upto(positions, instruments, targets, n)->Err_0,
        ),
        forall|j: int| 0 <= j < k ==> #[trigger] join_spec(targets[j], instruments, positions) is Ok,
    decreases n,
{
    if build_upto(positions, instruments, targets, (n - 1) as nat) is Err {
        lemma_build_upto_failure(positions, instruments, targets, (n - 1) as nat)
    } else {
        lemma_build_upto_pointwise(positions, instruments, targets, (n - 1) as nat);
        n - 1
    }
}

/// A build that succeeds gives one record for each target, in the order of
/// the targets, and each record is the join of its own target: positions that
/// no target asks for play no part.
pub proof fn lemma_build_joins_each_target(
    positions: Seq<Position>,
    instruments: Seq<InstrumentMeta>,
    targets: Seq<TargetAllocation>,
)
    requires
        build_spec(positions, instruments, targets) is Ok,
    ensures
        build_spec(positions, instruments, targets)->Ok_0.len() == targets.len(),
        forall|k: int|
            0 <= k < targets.len() ==> #[trigger] join_spec(targets[k], instruments, positions)
                == Ok::<RecordView, JoinFault>(
                build_spec(positions, instruments, targets)->Ok_0[k],
            ),
{
    lemma_build_upto_pointwise(positions, instruments, targets, targets.len());
}

/// A build that fails reports the first target, in order, that cannot be
/// joined; the result is that target's index.
pub proof fn lemma_build_fails_on_first_unjoined(
    positions: Seq<Position>,
    instruments: Seq<InstrumentMeta>,
    targets: Seq<TargetAllocation>,
) -> (k: int)
    requires
        build_spec(positions, instruments, targets) is Err,
    ensures
        0 <= k < targets.len(),
        join_spec(targets[k], instruments, positions) == Err::<RecordView, JoinFault>(
            build_spec(positions, instruments, targets)->Err_0,
        ),
        forall|j: int| 0 <= j < k ==> #[trigger] join_spec(targets[j], instruments, positions) is Ok,
{
    lemma_build_upto_failure(positions, instruments, targets, targets.len())
}

} // verus!
