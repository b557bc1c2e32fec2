//! Fixed-point money: a currency code, a whole part, and a fractional part
//! counted in billionths of the unit.

use vstd::prelude::*;

verus! {

/// How many fractional sub-units make one whole unit.
pub const NANOS_PER_UNIT: i128 = 1_000_000_000;

/// Why a computation on money gave no value.
#[derive(Clone, Copy, Debug, PartialEq, Eq, Structural)]
pub enum MoneyError {
    /// The operands are in different currencies, or not in the expected one.
    CurrencyMismatch,
    /// The result cannot be represented.
    Overflow,
}

/// A signed decimal number with nine fractional digits, held as a count of
/// billionths.
#[derive(Clone, Copy, Debug, PartialEq, Eq, Structural)]
pub struct Decimal {
    pub nanos: i128,
}

/// A count of shares or lots.
#[derive(Clone, Copy, Debug, PartialEq, Eq, Structural)]
pub struct Quantity {
    pub whole: i64,
}

/// What a `FixedPointMoney` stands for: its currency code and its amount in
/// billionths of the unit.
pub struct MoneyView {
    pub currency: Seq<char>,
    pub nanos: int,
}

/// An amount of money. The amount is `whole + frac / 10^9`, with
/// `0 <= frac < 10^9`, so a negative amount has a negative `whole` and a
/// non-negative `frac`.
#[derive(Debug, PartialEq, Eq)]
pub struct FixedPointMoney {
    currency: String,
    whole: i64,
    frac: u32,
}

impl View for FixedPointMoney {
    type V = MoneyView;

    closed spec fn view(&self) -> MoneyView {
        MoneyView { currency: self.currency@, nanos: self.whole * NANOS_PER_UNIT + self.frac }
    }
}

impl Clone for FixedPointMoney {
    fn clone(&self) -> (copy: Self)
        ensures
            copy == *self,
    {
        proof {
            use_type_invariant(self);
        }
        FixedPointMoney { currency: self.currency.clone(), whole: self.whole, frac: self.frac }
    }
}

/// Whether an amount in billionths has a whole part that an `i64` can hold.
pub open spec fn representable(nanos: int) -> bool {
    i64::MIN * NANOS_PER_UNIT <= nanos < (i64::MAX + 1) * NANOS_PER_UNIT
}

/// Whether `x` can be held in an `i64`.
pub open spec fn fits_i64(x: int) -> bool {
    i64::MIN <= x <= i64::MAX
}

/// The sum of two amounts: the currencies must agree and the whole part of
/// the sum, carry included, must be representable.
pub open spec fn add_spec(a: MoneyView, b: MoneyView) -> Result<MoneyView, MoneyError> {
    if a.currency != b.currency {
        Err(MoneyError::CurrencyMismatch)
    } else if !representable(a.nanos + b.nanos) {
        Err(MoneyError::Overflow)
    } else {
        Ok(MoneyView { currency: a.currency, nanos: a.nanos + b.nanos })
    }
}

/// An amount times an integer count. The whole part is scaled in 64 bits and
/// the scaled fraction is carried into it; either step may overflow.
pub open spec fn scale_spec(a: MoneyView, count: int) -> Result<MoneyView, MoneyError> {
    if !fits_i64((a.nanos / (NANOS_PER_UNIT as int)) * count) || !representable(a.nanos * count) {
        Err(MoneyError::Overflow)
    } else {
        Ok(MoneyView { currency: a.currency, nanos: a.nanos * count })
    }
}

/// The amount of `a` as a plain decimal, provided `a` is in the settlement
/// currency.
pub open spec fn to_decimal_spec(a: MoneyView, settlement: Seq<char>) -> Result<
    int,
    MoneyError,
> {
    if a.currency != settlement {
        Err(MoneyError::CurrencyMismatch)
    } else {
        Ok(a.nanos)
    }
}

/// The money that a count of billionths makes in a currency.
pub open spec fn from_nanos_spec(currency: Seq<char>, nanos: int) -> Result<
    MoneyView,
    MoneyError,
> {
    if !representable(nanos) {
        Err(MoneyError::Overflow)
    } else {
        Ok(MoneyView { currency, nanos })
    }
}

/// Whether a computed result is the amount, or the error, that its model
/// gives.
pub open spec fn yields(
    result: Result<FixedPointMoney, MoneyError>,
    expected: Result<MoneyView, MoneyError>,
) -> bool {
    match (result, expected) {
        (Ok(m), Ok(v)) => m@ == v,
        (Err(e), Err(f)) => e == f,
        _ => false,
    }
}

impl FixedPointMoney {
    #[verifier::type_invariant]
    spec fn fraction_in_range(self) -> bool {
        self.frac < NANOS_PER_UNIT
    }

    /// Money from its three parts; nothing if `frac` is not below `10^9`.
    pub fn new(currency: String, whole: i64, frac: u32) -> (made: Option<FixedPointMoney>)
        ensures
            made is Some <==> frac < NANOS_PER_UNIT,
            made matches Some(m) ==> m@ == (MoneyView {
                currency: currency@,
                nanos: whole * NANOS_PER_UNIT + frac,
            }),
    {
        if frac < 1_000_000_000 {
            Some(FixedPointMoney { currency, whole, frac })
        } else {
            None
        }
    }

    /// No money at all, in a currency.
    pub fn zero(currency: String) -> (made: FixedPointMoney)
        ensures
            made@ == (MoneyView { currency: currency@, nanos: 0 }),
    {
        FixedPointMoney { currency, whole: 0, frac: 0 }
    }

    /// Money from an amount in billionths of the unit.
    pub fn from_nanos(currency: String, nanos: i128) -> (result: Result<
        FixedPointMoney,
        MoneyError,
    >)
        ensures
            yields(result, from_nanos_spec(currency@, nanos as int)),
    {
        let unit: i128 = NANOS_PER_UNIT;
        let (whole, frac): (i128, i128) = if nanos >= 0 {
            (nanos / unit, nanos % unit)
        } else {
            let below: i128 = -(nanos + 1);
            (-(below / unit) - 1, unit - 1 - below % unit)
        };
        if whole < -0x8000_0000_0000_0000i128 || whole > 0x7fff_ffff_ffff_ffffi128 {
            Err(MoneyError::Overflow)
        } else {
            Ok(FixedPointMoney { currency, whole: whole as i64, frac: frac as u32 })
        }
    }

    /// The currency code.
    pub fn currency(&self) -> (code: &String)
        ensures
            code@ == self@.currency,
    {
        &self.currency
    }

    /// The whole part: the amount rounded down to a whole unit.
    pub fn whole(&self) -> (units: i64)
        ensures
            units == self@.nanos / (NANOS_PER_UNIT as int),
    {
        proof {
            use_type_invariant(self);
        }
        self.whole
    }

    /// The fractional part, in billionths.
    pub fn frac(&self) -> (part: u32)
        ensures
            part == self@.nanos % (NANOS_PER_UNIT as int),
    {
        proof {
            use_type_invariant(self);
        }
        self.frac
    }

    /// The amount in billionths of the unit.
    pub fn nanos(&self) -> (amount: i128)
        ensures
            amount == self@.nanos,
            representable(amount as int),
    {
        proof {
            use_type_invariant(self);
        }
        (self.whole as i128) * NANOS_PER_UNIT + (self.frac as i128)
    }

    /// The amount as a plain decimal. The money must be in the settlement
    /// currency.
    pub fn to_decimal(&self, settlement: &String) -> (result: Result<Decimal, MoneyError>)
        ensures
            match (result, to_decimal_spec(self@, settlement@)) {
                (Ok(d), Ok(v)) => d.nanos == v,
                (Err(e), Err(f)) => e == f,
                _ => false,
            },
    {
        if self.currency != *settlement {
            return Err(MoneyError::CurrencyMismatch);
        }
        Ok(Decimal { nanos: self.nanos() })
    }

    /// The sum of two amounts of one currency.
    pub fn add(&self, other: &FixedPointMoney) -> (result: Result<FixedPointMoney, MoneyError>)
        ensures
            yields(result, add_spec(self@, other@)),
    {
        proof {
            use_type_invariant(self);
            use_type_invariant(other);
        }
        if self.currency != other.currency {
            return Err(MoneyError::CurrencyMismatch);
        }
        let fractions: u32 = self.frac + other.frac;
        let (carry, frac): (i128, u32) = if fractions >= 1_000_000_000 {
            (1, fractions - 1_000_000_000)
        } else {
            (0, fractions)
        };
        let whole: i128 = (self.whole as i128) + (other.whole as i128) + carry;
        if whole < -0x8000_0000_0000_0000i128 || whole > 0x7fff_ffff_ffff_ffffi128 {
            Err(MoneyError::Overflow)
        } else {
            Ok(FixedPointMoney { currency: self.currency.clone(), whole: whole as i64, frac })
        }
    }

    /// The amount times a count.
    pub fn multiply_by_quantity(&self, q: Quantity) -> (result: Result<
        FixedPointMoney,
        MoneyError,
    >)
        ensures
            yields(result, scale_spec(self@, q.whole as int)),
    {
        proof {
            use_type_invariant(self);
        }
        let scaled_whole: i64 = match self.whole.checked_mul(q.whole) {
            Some(product) => product,
            None => {
                return Err(MoneyError::Overflow);
            },
        };
        assert(-0x8000_0000_0000_0000 * 1_000_000_000 <= (self.frac as int) * (q.whole as int)
            <= 0x8000_0000_0000_0000 * 1_000_000_000) by (nonlinear_arith)
            requires
                0 <= self.frac < 1_000_000_000,
                -0x8000_0000_0000_0000 <= q.whole < 0x8000_0000_0000_0000,
        ;
        let scaled_frac: i128 = (self.frac as i128) * (q.whole as i128);
        assert(self@.nanos * q.whole == scaled_whole * NANOS_PER_UNIT + scaled_frac)
            by (nonlinear_arith)
            requires
                self@.nanos == self.whole * 1_000_000_000 + self.frac,
                scaled_whole == self.whole * q.whole,
                scaled_frac == self.frac * q.whole,
                NANOS_PER_UNIT == 1_000_000_000,
        ;
        let total: i128 = (scaled_whole as i128) * NANOS_PER_UNIT + scaled_frac;
        FixedPointMoney::from_nanos(self.currency.clone(), total)
    }
}

/// The sum of two amounts is the same whichever operand comes first, and so
/// is the error where there is no sum.
pub proof fn lemma_add_commutative(a: FixedPointMoney, b: FixedPointMoney)
    ensures
        add_spec(a@, b@) == add_spec(b@, a@),
{
}

/// Three amounts of one currency add up to the same total however they are
/// grouped, as long as neither partial sum overflows; the two groupings
/// then also overflow together.
pub proof fn lemma_add_associative(a: FixedPointMoney, b: FixedPointMoney, c: FixedPointMoney)
    requires
        add_spec(a@, b@) is Ok,
        add_spec(b@, c@) is Ok,
    ensures
        add_spec(add_spec(a@, b@)->Ok_0, c@) == add_spec(a@, add_spec(b@, c@)->Ok_0),
{
}

} // verus!
