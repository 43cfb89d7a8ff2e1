//! The monetary value engine: an immutable amount-and-currency pair
//! behind a validating constructor.

use crate::financial::currency::Currency;
use crate::result::{ValobsError, ValobsResult};
use crate::traits::{ValobsValidate, ValueObject};
use vstd::arithmetic::div_mod::{
    lemma_basic_div, lemma_div_is_ordered, lemma_div_is_ordered_by_denominator,
    lemma_fundamental_div_mod, lemma_mod_bound, lemma_small_div_converse,
};
use vstd::prelude::*;

verus! {

/// The integer type of a monetary amount, counted in minor units of
/// its currency (for example cents for USD).
pub type MoneyAmount = u64;

/// An immutable quantity of a single currency, counted in minor units.
///
/// A `Money` can only be obtained through the validating constructor
/// [`Money::new`] or through an operation on existing values; the
/// constructor rejects a zero amount, so a freshly constructed value
/// always carries a positive amount. Every operation returns a new
/// value and never mutates its operands.
#[derive(Debug, Clone, Copy, PartialEq, Eq, Structural)]
pub struct Money {
    amount: MoneyAmount,
    currency: Currency,
}

/// The serialized form of a monetary value: a structured record with
/// the `amount` in minor units first and the three-letter ISO 4217
/// `currency` code second, suitable for JSON-style interchange.
#[derive(Debug, Clone, PartialEq, Eq)]
pub struct MoneyRecord {
    /// The amount in minor units.
    pub amount: MoneyAmount,
    /// The ISO 4217 three-letter code of the currency.
    pub currency: String,
}

impl Money {
    /// The amount carried by this value, in minor units.
    pub closed spec fn spec_amount(self) -> MoneyAmount {
        self.amount
    }

    /// The currency tag carried by this value.
    pub closed spec fn spec_currency(self) -> Currency {
        self.currency
    }

    /// The value that the validating constructor builds from an amount
    /// and a currency.
    pub closed spec fn spec_new(amount: MoneyAmount, currency: Currency) -> Money {
        Money { amount, currency }
    }

    /// A well-formed monetary value carries a positive amount.
    pub open spec fn wf(self) -> bool {
        self.spec_amount() > 0
    }

    /// Create a new `Money` instance.
    ///
    /// This is the sole validation gate: a zero amount is rejected, so
    /// no `Money` with amount zero can be constructed here.
    pub fn new(amount: MoneyAmount, currency: Currency) -> (r: ValobsResult<Money>)
        ensures
            amount == 0 ==> r == ValobsResult::<Money>::Err(ValobsError::InvalidAmount),
            amount > 0 ==> r == ValobsResult::<Money>::Ok(Money::spec_new(amount, currency)),
            r matches Ok(m) ==> m.wf() && m.spec_amount() == amount && m.spec_currency()
                == currency,
    {
        if amount == 0 {
            return Err(ValobsError::InvalidAmount);
        }
        Ok(Money { amount, currency })
    }

    /// Get the amount of money.
    pub fn amount(&self) -> (r: MoneyAmount)
        ensures
            r == self.spec_amount(),
    {
        self.amount
    }

    /// Get the currency of the money.
    pub fn currency(&self) -> (r: &Currency)
        ensures
            *r == self.spec_currency(),
    {
        &self.currency
    }

    /// Check that two monetary values carry the same currency, as every
    /// binary operation does before combining amounts.
    pub fn check_currency(&self, other: &Money) -> (r: ValobsResult<()>)
        ensures
            self.spec_currency() == other.spec_currency() ==> r == ValobsResult::<()>::Ok(()),
            self.spec_currency() != other.spec_currency() ==> r == ValobsResult::<()>::Err(
                ValobsError::CurrencyMismatch,
            ),
    {
        if self.currency != other.currency {
            return Err(ValobsError::CurrencyMismatch);
        }
        Ok(())
    }

    /// The result of adding `b` to `a`: the amounts are combined only
    /// when the currency tags agree.
    pub open spec fn spec_add(a: Money, b: Money) -> ValobsResult<Money> {
        if a.spec_currency() != b.spec_currency() {
            Err(ValobsError::CurrencyMismatch)
        } else {
            Ok(Money::spec_new((a.spec_amount() + b.spec_amount()) as MoneyAmount, a.spec_currency()))
        }
    }

    /// The result of subtracting `b` from `a`: an amount that would
    /// underflow is rejected before the subtraction is attempted, and
    /// the currency tags must agree.
    pub open spec fn spec_subtract(a: Money, b: Money) -> ValobsResult<Money> {
        if a.spec_amount() < b.spec_amount() {
            Err(ValobsError::NegativeResult)
        } else if a.spec_currency() != b.spec_currency() {
            Err(ValobsError::CurrencyMismatch)
        } else {
            Ok(Money::spec_new((a.spec_amount() - b.spec_amount()) as MoneyAmount, a.spec_currency()))
        }
    }

    /// Add two `Money` instances together.
    ///
    /// The sum is taken only on same-currency operands, and must fit in
    /// the amount type; the caller rules the overflow case out.
    pub fn add(&self, other: &Money) -> (r: ValobsResult<Money>)
        requires
            self.spec_currency() == other.spec_currency() ==> self.spec_amount()
                + other.spec_amount() <= MoneyAmount::MAX,
        ensures
            r == Money::spec_add(*self, *other),
            self.spec_currency() != other.spec_currency() ==> r == ValobsResult::<Money>::Err(
                ValobsError::CurrencyMismatch,
            ),
            self.spec_currency() == other.spec_currency() ==> (r matches Ok(m)
                && m.spec_amount() == self.spec_amount() + other.spec_amount()
                && m.spec_currency() == self.spec_currency()),
    {
        self.check_currency(other)?;
        Ok(Money { amount: self.amount + other.amount, currency: self.currency })
    }

    /// Subtract one `Money` instance from another.
    ///
    /// The underflow check comes first: when the subtrahend is larger
    /// the result is `NegativeResult`, even if the currencies also
    /// differ. A subtraction of equal amounts succeeds and carries a
    /// zero amount, exactly as the amount arithmetic dictates.
    pub fn subtract(&self, other: &Money) -> (r: ValobsResult<Money>)
        ensures
            r == Money::spec_subtract(*self, *other),
            self.spec_amount() < other.spec_amount() ==> r == ValobsResult::<Money>::Err(
                ValobsError::NegativeResult,
            ),
            self.spec_amount() >= other.spec_amount() && self.spec_currency()
                != other.spec_currency() ==> r == ValobsResult::<Money>::Err(
                ValobsError::CurrencyMismatch,
            ),
            self.spec_amount() >= other.spec_amount() && self.spec_currency()
                == other.spec_currency() ==> (r matches Ok(m)
                && m.spec_amount() == self.spec_amount() - other.spec_amount()
                && m.spec_currency() == self.spec_currency()),
    {
        if self.amount < other.amount {
            return Err(ValobsError::NegativeResult);
        }
        self.check_currency(other)?;
        Ok(Money { amount: self.amount - other.amount, currency: self.currency })
    }

    /// The amount that slot `i` of an equal-parts allocation of `total`
    /// into `parts` receives: the first `total % parts` slots get one
    /// minor unit more than the rest (largest-remainder distribution).
    pub open spec fn part_amount(total: int, parts: int, i: int) -> int {
        if i < total % parts {
            total / parts + 1
        } else {
            total / parts
        }
    }

    /// The sum of the first `k` slot amounts of an equal-parts
    /// allocation of `total` into `parts`.
    pub open spec fn sum_part_amounts(total: int, parts: int, k: int) -> int
        decreases k,
    {
        if k <= 0 {
            0
        } else {
            Self::sum_part_amounts(total, parts, k - 1) + Self::part_amount(total, parts, k - 1)
        }
    }

    /// The sum of the amounts carried by a sequence of monetary values.
    pub open spec fn sum_amounts(s: Seq<Money>) -> int
        decreases s.len(),
    {
        if s.len() == 0 {
            0
        } else {
            Self::sum_amounts(s.drop_last()) + s.last().spec_amount()
        }
    }

    /// Allocate the `Money` instance between a number of parts.
    ///
    /// The result is one `Money` per part. The parts sum exactly to the
    /// original amount: `low = amount / parts` and the first
    /// `amount % parts` slots receive `low + 1` while the rest receive
    /// `low`, so no minor unit is lost or gained and the sequence of
    /// amounts never grows from one slot to the next. When there are
    /// more parts than minor units some slot would receive a zero
    /// amount, and the same `InvalidAmount` failure as for direct
    /// construction is returned.
    pub fn allocate(&self, parts: u32) -> (r: ValobsResult<Vec<Money>>)
        ensures
            parts == 0 ==> r == ValobsResult::<Vec<Money>>::Err(ValobsError::InvalidPartCount),
            parts > 0 && self.spec_amount() < parts as int ==> r == ValobsResult::<Vec<Money>>::Err(
                ValobsError::InvalidAmount,
            ),
            parts > 0 && self.spec_amount() >= parts as int ==> (r matches Ok(v)
                && v@.len() == parts
                && (forall|i: int|
                    0 <= i < parts ==> ((#[trigger] v@[i]).spec_amount() == Self::part_amount(
                        self.spec_amount() as int,
                        parts as int,
                        i,
                    ) && v@[i].spec_currency() == self.spec_currency() && v@[i].wf()))
                && Self::sum_amounts(v@) == self.spec_amount()
                && (forall|i: int, j: int|
                    0 <= i <= j < parts ==> (#[trigger] v@[i]).spec_amount()
                        >= (#[trigger] v@[j]).spec_amount())),
    {
        if parts == 0 {
            return Err(ValobsError::InvalidPartCount);
        }
        let p64: u64 = parts as u64;
        let low: u64 = self.amount / p64;
        if low == 0 {
            proof {
                lemma_small_div_converse(self.amount as int, p64 as int);
            }
            return Err(ValobsError::InvalidAmount);
        }
        proof {
            if self.spec_amount() < p64 {
                lemma_basic_div(self.amount as int, p64 as int);
            }
        }
        let remainder: u64 = self.amount % p64;
        let ghost total: int = self.spec_amount() as int;
        let ghost gp: int = parts as int;
        let mut v: Vec<Money> = Vec::new();
        let mut i: u64 = 0;
        while i < p64
            invariant
                0 < p64,
                p64 == parts as u64,
                gp == p64 as int,
                total == self.spec_amount() as int,
                low as int == total / gp,
                low > 0,
                remainder as int == total % gp,
                total >= gp,
                i <= p64,
                v@.len() == i,
                forall|j: int|
                    0 <= j < i ==> ((#[trigger] v@[j]).spec_amount() == Self::part_amount(
                        total,
                        gp,
                        j,
                    ) && v@[j].spec_currency() == self.spec_currency()),
                Self::sum_amounts(v@) == Self::sum_part_amounts(total, gp, i as int),
            decreases p64 - i,
        {
            let amt: u64;
            if i < remainder {
                proof {
                    // A nonzero remainder forces at least two parts, so
                    // the raised slot amount still fits in the type.
                    lemma_mod_bound(total, gp);
                    lemma_div_is_ordered_by_denominator(total, 2, gp);
                    lemma_div_is_ordered(total, u64::MAX as int, 2);
                    assert(total / gp < u64::MAX as int);
                }
                amt = low + 1;
            } else {
                amt = low;
            }
            let part = Money { amount: amt, currency: self.currency };
            let ghost prev = v@;
            v.push(part);
            proof {
                assert(v@.drop_last() =~= prev);
            }
            i = i + 1;
        }
        proof {
            Self::lemma_allocate_preserves_sum(total, gp);
            assert forall|a: int, b: int| 0 <= a <= b < gp implies (#[trigger] v@[a]).spec_amount()
                >= (#[trigger] v@[b]).spec_amount() by {
                Self::lemma_allocate_non_increasing(total, gp, a, b);
            }
        }
        Ok(v)
    }

    /// Helper for [`Money::lemma_allocate_preserves_sum`]: the closed
    /// form of the prefix sums of an equal-parts allocation.
    proof fn lemma_sum_part_amounts_closed(total: int, parts: int, k: int)
        requires
            0 <= total,
            0 < parts,
            0 <= k <= parts,
        ensures
            Self::sum_part_amounts(total, parts, k) == if k <= total % parts {
                k * (total / parts + 1)
            } else {
                (total % parts) * (total / parts + 1) + (k - total % parts) * (total / parts)
            },
        decreases k,
    {
        let q = total / parts;
        let m = total % parts;
        lemma_mod_bound(total, parts);
        if k == 0 {
            assert(0 * (q + 1) == 0) by (nonlinear_arith);
        } else {
            Self::lemma_sum_part_amounts_closed(total, parts, k - 1);
            if k <= m {
                assert((k - 1) * (q + 1) + (q + 1) == k * (q + 1)) by (nonlinear_arith);
            } else if k - 1 <= m {
                assert((k - 1) * (q + 1) == m * (q + 1));
                assert((k - m) * q == q) by (nonlinear_arith)
                    requires
                        k - m == 1,
                ;
            } else {
                assert((k - 1 - m) * q + q == (k - m) * q) by (nonlinear_arith);
            }
        }
    }

    /// Equal-parts allocation preserves the amount exactly: for every
    /// positive amount and every part count between one and the amount,
    /// the slot amounts of the largest-remainder distribution sum to
    /// the amount, with no minor unit lost or gained to rounding.
    pub proof fn lemma_allocate_preserves_sum(total: int, parts: int)
        requires
            0 < parts <= total,
        ensures
            Self::sum_part_amounts(total, parts, parts) == total,
    {
        let q = total / parts;
        let m = total % parts;
        lemma_mod_bound(total, parts);
        Self::lemma_sum_part_amounts_closed(total, parts, parts);
        lemma_fundamental_div_mod(total, parts);
        assert(m * (q + 1) + (parts - m) * q == parts * q + m) by (nonlinear_arith);
    }

    /// Within an equal-parts allocation, earlier slots never receive
    /// less than later slots: the slot amounts are non-increasing.
    pub proof fn lemma_allocate_non_increasing(total: int, parts: int, i: int, j: int)
        requires
            0 < parts <= total,
            0 <= i <= j < parts,
        ensures
            Self::part_amount(total, parts, i) >= Self::part_amount(total, parts, j),
    {
    }

    /// Build the parts of an allocation from precomputed per-part
    /// amounts, in this money's currency.
    ///
    /// Ratio-weighted allocation computes one rounded amount per ratio
    /// and then routes every amount through the same validation gate as
    /// direct construction; this function is that final, validating
    /// step. An empty amount sequence yields an empty result, not a
    /// failure.
    pub fn with_amounts(&self, amounts: &Vec<MoneyAmount>) -> (r: ValobsResult<Vec<Money>>)
        ensures
            (exists|i: int| 0 <= i < amounts@.len() && amounts@[i] == 0) ==> r
                == ValobsResult::<Vec<Money>>::Err(ValobsError::InvalidAmount),
            (forall|i: int| 0 <= i < amounts@.len() ==> amounts@[i] > 0) ==> (r matches Ok(v)
                && v@.len() == amounts@.len()
                && (forall|i: int|
                    0 <= i < amounts@.len() ==> ((#[trigger] v@[i]).spec_amount() == amounts@[i]
                        && v@[i].spec_currency() == self.spec_currency()
                        && v@[i].wf()))),
    {
        let mut v: Vec<Money> = Vec::new();
        let mut i: usize = 0;
        while i < amounts.len()
            invariant
                i <= amounts@.len(),
                v@.len() == i,
                forall|j: int| 0 <= j < i ==> amounts@[j] > 0,
                forall|j: int|
                    0 <= j < i ==> ((#[trigger] v@[j]).spec_amount() == amounts@[j]
                        && v@[j].spec_currency() == self.spec_currency()),
            decreases amounts@.len() - i,
        {
            let a = amounts[i];
            if a == 0 {
                return Err(ValobsError::InvalidAmount);
            }
            v.push(Money { amount: a, currency: self.currency });
            i = i + 1;
        }
        Ok(v)
    }

    /// Serialize this value to its wire record: the amount in minor
    /// units and the ISO 4217 code of the currency.
    pub fn to_record(&self) -> (r: MoneyRecord)
        ensures
            r.amount == self.spec_amount(),
            r.currency@ == self.spec_currency().spec_code(),
    {
        MoneyRecord { amount: self.amount, currency: self.currency.code().to_owned() }
    }

    /// Deserialize a wire record, routing the amount through the same
    /// validation gate as direct construction.
    ///
    /// The currency code is checked first: a code outside the closed
    /// enumeration is `UnknownCurrency`, then a zero amount is
    /// `InvalidAmount`.
    pub fn from_record(rec: &MoneyRecord) -> (r: ValobsResult<Money>)
        ensures
            (forall|c: Currency| rec.currency@ != c.spec_code()) ==> r
                == ValobsResult::<Money>::Err(ValobsError::UnknownCurrency),
            forall|c: Currency|
                rec.currency@ == c.spec_code() && rec.amount == 0 ==> r
                    == ValobsResult::<Money>::Err(ValobsError::InvalidAmount),
            forall|c: Currency|
                rec.currency@ == c.spec_code() && rec.amount > 0 ==> r
                    == ValobsResult::<Money>::Ok(Money::spec_new(rec.amount, c)),
    {
        match Currency::from_code(rec.currency.as_str()) {
            None => Err(ValobsError::UnknownCurrency),
            Some(c) => {
                proof {
                    assert forall|c2: Currency| rec.currency@ == c2.spec_code() implies c2
                        == c by {
                        Currency::lemma_code_injective(c2, c);
                    }
                }
                Money::new(rec.amount, c)
            },
        }
    }

    /// Serialization round-trip: a wire record written from any
    /// well-formed monetary value, read back under the contract of
    /// [`Money::from_record`], yields exactly the original value.
    pub proof fn lemma_record_round_trip(m: Money, rec: MoneyRecord, back: ValobsResult<Money>)
        requires
            m.wf(),
            rec.amount == m.spec_amount(),
            rec.currency@ == m.spec_currency().spec_code(),
            forall|c: Currency|
                rec.currency@ == c.spec_code() && rec.amount > 0 ==> back
                    == ValobsResult::<Money>::Ok(Money::spec_new(rec.amount, c)),
        ensures
            back == ValobsResult::<Money>::Ok(m),
    {
        assert(rec.currency@ == m.spec_currency().spec_code() && rec.amount > 0);
    }

    /// Adding combines the amounts of same-currency operands exactly;
    /// subtracting fails exactly when the minuend's amount is smaller;
    /// and both fail whenever the currencies differ.
    pub proof fn lemma_add_subtract(a: Money, b: Money)
        requires
            a.wf(),
            b.wf(),
            a.spec_amount() + b.spec_amount() <= MoneyAmount::MAX,
        ensures
            a.spec_currency() == b.spec_currency() ==> (Money::spec_add(a, b) matches Ok(m)
                && m.spec_amount() == a.spec_amount() + b.spec_amount()),
            a.spec_currency() == b.spec_currency() ==> (Money::spec_subtract(a, b) is Err
                <==> a.spec_amount() < b.spec_amount()),
            a.spec_currency() != b.spec_currency() ==> Money::spec_add(a, b) is Err
                && Money::spec_subtract(a, b) is Err,
    {
    }

    /// Determinism of the binary operations: `add` and `subtract`
    /// ensure that their results equal `spec_add` and `spec_subtract`
    /// of the operand values, which are functions of those values
    /// alone, so two calls on identical inputs return equal results.
    pub proof fn lemma_binary_operations_deterministic(
        a: Money,
        b: Money,
        r1: ValobsResult<Money>,
        r2: ValobsResult<Money>,
    )
        requires
            (r1 == Money::spec_add(a, b) && r2 == Money::spec_add(a, b)) || (r1
                == Money::spec_subtract(a, b) && r2 == Money::spec_subtract(a, b)),
        ensures
            r1 == r2,
    {
    }

    /// Two monetary values are equal exactly when both the amount and
    /// the currency are equal; no cross-currency comparison exists.
    pub proof fn lemma_equality_is_structural(a: Money, b: Money)
        ensures
            a == b <==> (a.spec_amount() == b.spec_amount() && a.spec_currency()
                == b.spec_currency()),
    {
    }
}

impl ValobsValidate for Money {
    type Target = (MoneyAmount, Currency);

    /// An amount-and-currency pair is accepted when the amount is
    /// positive.
    open spec fn spec_accepts(target: &(MoneyAmount, Currency)) -> bool {
        target.0 > 0
    }

    /// The factory builds exactly the pair it was given.
    open spec fn spec_builds(target: &(MoneyAmount, Currency), v: &Money) -> bool {
        *v == Money::spec_new(target.0, target.1)
    }

    fn validate(target: (MoneyAmount, Currency)) -> (r: ValobsResult<Money>) {
        Money::new(target.0, target.1)
    }
}

impl ValueObject for Money {

}

} // verus!
