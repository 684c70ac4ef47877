use vstd::prelude::*;

use vstd::std_specs::cmp::PartialEqSpec;

use crate::bank::PairModel;
use crate::bank::spec_rate;
use crate::expression::ExprModel;
use crate::expression::references_unresolved;
use crate::expression::spec_reduce;
use crate::expression::spec_times;
use crate::expression::trunc_div;
use crate::money::Money;
use crate::money::MoneyModel;

verus! {

/// Scaling a bare money multiplies its amount and keeps its currency:
/// `Money(a, c)` scaled by `k` stands for `Money(a * k, c)`.
pub proof fn lemma_money_times(m: MoneyModel, k: int)
    ensures
        spec_times(ExprModel::Money(m), k) == (ExprModel::Money(
            MoneyModel { amount: m.amount * k, currency: m.currency },
        )),
{
}

/// Money equality is structural: two `Money` values are equal exactly when
/// both the amounts and the currencies agree, so a value equals itself, and
/// differs from one with another amount or another currency.
pub proof fn lemma_money_equality(x: Money, y: Money)
    ensures
        x.eq_spec(&y) <==> (x@.amount == y@.amount && x@.currency == y@.currency),
{
    if x@.amount == y@.amount && x@.currency == y@.currency {
        assert(x@ =~= y@);
    }
}

/// The rate from any currency to itself is `1`, whatever rates are
/// registered — including none at all.
pub proof fn lemma_identity_rate(rates: Map<PairModel, i64>, currency: Seq<char>)
    ensures
        spec_rate(rates, currency, currency) == Some(1i64),
{
}

/// Reducing a bare money to its own currency leaves its amount unchanged,
/// whatever rates are registered.
pub proof fn lemma_reduce_own_currency(m: MoneyModel, rates: Map<PairModel, i64>)
    ensures
        spec_reduce(ExprModel::Money(m), rates, m.currency) == Result::<int, PairModel>::Ok(
            m.amount,
        ),
{
    assert(trunc_div(m.amount, 1) == m.amount);
}

/// Scaling a sum distributes the multiplier over both operands, returning a
/// sum again rather than a reduced value.
pub proof fn lemma_times_distributes(a: ExprModel, b: ExprModel, k: int)
    ensures
        spec_times(ExprModel::Sum(Box::new(a), Box::new(b)), k) == (ExprModel::Sum(
            Box::new(spec_times(a, k)),
            Box::new(spec_times(b, k)),
        )),
{
}

/// A reduction fails exactly when the expression references an unresolved
/// pair: some leaf in a currency distinct from the target whose ordered pair
/// has no registered rate, or a registered rate of zero. No such expression
/// reduces to a made-up amount, and every other expression reduces to one.
/// The error that comes out names such a pair: distinct currencies ending in
/// the requested target, with no usable rate registered.
pub proof fn lemma_unresolved_pair_rejected(
    e: ExprModel,
    rates: Map<PairModel, i64>,
    to: Seq<char>,
)
    ensures
        (spec_reduce(e, rates, to) is Err) <==> references_unresolved(e, rates, to),
        spec_reduce(e, rates, to) matches Err(p) ==> {
            &&& p.to == to
            &&& p.from != to
            &&& !rates.contains_key(p) || rates[p] == 0
        },
    decreases e,
{
    match e {
        ExprModel::Money(_) => {},
        ExprModel::Sum(a, b) => {
            lemma_unresolved_pair_rejected(*a, rates, to);
            lemma_unresolved_pair_rejected(*b, rates, to);
        },
    }
}

/// Registering a rate for a pair overwrites any earlier rate for that exact
/// pair: after registering `first` and then `second`, lookups answer
/// `second`.
pub proof fn lemma_add_rate_overwrites(
    rates: Map<PairModel, i64>,
    pair: PairModel,
    first: i64,
    second: i64,
)
    requires
        pair.from != pair.to,
    ensures
        spec_rate(rates.insert(pair, first).insert(pair, second), pair.from, pair.to) == Some(
            second,
        ),
{
    assert((PairModel { from: pair.from, to: pair.to }) =~= pair);
}

} // verus!
