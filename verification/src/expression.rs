use vstd::prelude::*;

use crate::bank::Bank;
use crate::bank::MissingRateError;
use crate::bank::PairModel;
use crate::bank::spec_rate;
use crate::money::Money;
use crate::money::MoneyModel;

verus! {

/// Mathematical value of an expression tree: a `Money` leaf, or the sum of
/// two subexpressions.
#[verifier::ext_equal]
pub ghost enum ExprModel {
    Money(MoneyModel),
    Sum(Box<ExprModel>, Box<ExprModel>),
}

/// Whether `v` fits the machine amounts that `Money` carries.
pub open spec fn fits_i64(v: int) -> bool {
    i64::MIN <= v <= i64::MAX
}

/// Truncating integer division (rounding toward zero, as the `/` of the
/// machine amounts does) on unbounded integers.
pub open spec fn trunc_div(a: int, b: int) -> int
    recommends
        b != 0,
{
    if a == 0 {
        0
    } else if a > 0 && b > 0 {
        a / b
    } else if a < 0 && b < 0 {
        (a * -1) / (b * -1)
    } else if a < 0 {
        ((a * -1) / b) * -1
    } else {
        (a / (b * -1)) * -1
    }
}

/// What one `Money` leaf reduces to under `rates`: its amount divided
/// (truncating) by the bank's rate for (leaf currency, target), or the
/// unresolved pair when that rate is absent or is the unusable divisor zero.
pub open spec fn spec_convert(m: MoneyModel, rates: Map<PairModel, i64>, to: Seq<char>) -> Result<
    int,
    PairModel,
> {
    match spec_rate(rates, m.currency, to) {
        Some(r) => if r != 0 {
            Ok(trunc_div(m.amount, r as int))
        } else {
            Err(PairModel { from: m.currency, to })
        },
        None => Err(PairModel { from: m.currency, to }),
    }
}

/// The amount an expression reduces to in the currency `to` under `rates`:
/// each leaf converted independently, depth first, and the results summed; or
/// the first unresolved pair, in depth-first order.
pub open spec fn spec_reduce(e: ExprModel, rates: Map<PairModel, i64>, to: Seq<char>) -> Result<
    int,
    PairModel,
>
    decreases e,
{
    match e {
        ExprModel::Money(m) => spec_convert(m, rates, to),
        ExprModel::Sum(a, b) => match spec_reduce(*a, rates, to) {
            Ok(x) => match spec_reduce(*b, rates, to) {
                Ok(y) => Ok(x + y),
                Err(p) => Err(p),
            },
            Err(p) => Err(p),
        },
    }
}

/// Whether every value the reduction of `e` computes — each converted leaf
/// and each partial sum — fits the machine amounts.
pub open spec fn reduce_fits(e: ExprModel, rates: Map<PairModel, i64>, to: Seq<char>) -> bool
    decreases e,
{
    match e {
        ExprModel::Money(m) => (spec_convert(m, rates, to) matches Ok(v) ==> fits_i64(v)),
        ExprModel::Sum(a, b) => {
            &&& reduce_fits(*a, rates, to)
            &&& reduce_fits(*b, rates, to)
            &&& (spec_reduce(*a, rates, to) matches Ok(x) && spec_reduce(*b, rates, to) matches Ok(
                y,
            ) ==> fits_i64(x + y))
        },
    }
}

/// The expression scaled by `k`: a leaf multiplies its amount, a sum
/// distributes `k` over both operands.
pub open spec fn spec_times(e: ExprModel, k: int) -> ExprModel
    decreases e,
{
    match e {
        ExprModel::Money(m) => ExprModel::Money(
            MoneyModel { amount: m.amount * k, currency: m.currency },
        ),
        ExprModel::Sum(a, b) => ExprModel::Sum(
            Box::new(spec_times(*a, k)),
            Box::new(spec_times(*b, k)),
        ),
    }
}

/// Whether every scaled amount of `spec_times(e, k)` fits the machine
/// amounts.
pub open spec fn times_fits(e: ExprModel, k: int) -> bool
    decreases e,
{
    match e {
        ExprModel::Money(m) => fits_i64(m.amount * k),
        ExprModel::Sum(a, b) => times_fits(*a, k) && times_fits(*b, k),
    }
}

/// Whether some leaf of `e` names a currency pair that `rates` cannot
/// resolve toward the target `to`: a leaf currency distinct from `to` whose
/// ordered pair either has no registered rate or a registered rate of zero.
pub open spec fn references_unresolved(
    e: ExprModel,
    rates: Map<PairModel, i64>,
    to: Seq<char>,
) -> bool
    decreases e,
{
    match e {
        ExprModel::Money(m) => m.currency != to && (!rates.contains_key(
            PairModel { from: m.currency, to },
        ) || rates[PairModel { from: m.currency, to }] == 0),
        ExprModel::Sum(a, b) => references_unresolved(*a, rates, to) || references_unresolved(
            *b,
            rates,
            to,
        ),
    }
}

/// How an executable reduction outcome realises the mathematical one: the
/// same amount stamped with the target currency, or an error naming the same
/// unresolved pair.
pub open spec fn reduce_result_matches(
    r: Result<Money, MissingRateError>,
    s: Result<int, PairModel>,
    to: Seq<char>,
) -> bool {
    match (r, s) {
        (Ok(m), Ok(v)) => m@.amount == v && m@.currency == to,
        (Err(e), Err(p)) => e@ == p,
        _ => false,
    }
}

/// Anything reducible to a `Money` in a target currency given a `Bank`:
/// a `Money` leaf, or a `Sum` of two expressions.
pub trait Expression: Sized {
    /// The expression tree this value stands for.
    spec fn model(&self) -> ExprModel;

    /// An owned copy standing for the same expression tree.
    fn duplicate(&self) -> (d: Self)
        ensures
            d.model() == self.model(),
        decreases self.model(),
    ;

    /// Prices the expression in the currency `to`, converting each leaf by
    /// `bank`'s directional rates and summing the converted amounts.
    fn reduce(&self, bank: &Bank, to: &str) -> (r: Result<Money, MissingRateError>)
        requires
            reduce_fits(self.model(), bank@, to@),
        ensures
            reduce_result_matches(r, spec_reduce(self.model(), bank@, to@), to@),
        decreases self.model(),
    ;

    /// Scales the expression by `multiplier`: a leaf multiplies its amount,
    /// a sum distributes the multiplier over both operands.
    fn times(&self, multiplier: i64) -> (t: Self)
        requires
            times_fits(self.model(), multiplier as int),
        ensures
            t.model() == spec_times(self.model(), multiplier as int),
        decreases self.model(),
    ;
}

/// A composite expression: the sum of two operand expressions, both kept
/// unconverted until the sum is reduced.
#[derive(Debug, Clone)]
pub struct Sum<T, U> {
    pub augend: T,
    pub addend: U,
}

impl<T, U> Sum<T, U> {
    pub fn new(augend: T, addend: U) -> (s: Sum<T, U>)
        ensures
            s.augend == augend,
            s.addend == addend,
    {
        Sum { augend, addend }
    }
}

impl<T: Expression, U: Expression> Sum<T, U> {
    /// Combines this sum and `addend` into a wider `Sum`, converting
    /// nothing: both operands are kept as they are and pricing is deferred
    /// until the new sum is reduced.
    pub fn plus<A: Expression>(&self, addend: &A) -> (s: Sum<Sum<T, U>, A>)
        ensures
            s.augend.model() == self.model(),
            s.addend.model() == addend.model(),
    {
        Sum::new(self.duplicate(), addend.duplicate())
    }
}

impl<T: Expression, U: Expression> Expression for Sum<T, U> {
    open spec fn model(&self) -> ExprModel {
        ExprModel::Sum(Box::new(self.augend.model()), Box::new(self.addend.model()))
    }

    fn duplicate(&self) -> (d: Self) {
        Sum { augend: self.augend.duplicate(), addend: self.addend.duplicate() }
    }

    fn reduce(&self, bank: &Bank, to: &str) -> (r: Result<Money, MissingRateError>) {
        let a = match self.augend.reduce(bank, to) {
            Ok(m) => m,
            Err(e) => {
                return Err(e);
            },
        };
        let b = match self.addend.reduce(bank, to) {
            Ok(m) => m,
            Err(e) => {
                return Err(e);
            },
        };
        Ok(Money::new(a.amount() + b.amount(), to.to_owned()))
    }

    fn times(&self, multiplier: i64) -> (t: Self) {
        Sum { augend: self.augend.times(multiplier), addend: self.addend.times(multiplier) }
    }
}

} // verus!
