use vstd::prelude::*;

use crate::bank::Bank;
use crate::bank::MissingRateError;
use crate::expression::ExprModel;
use crate::expression::Expression;
use crate::expression::Sum;

verus! {

/// Mathematical value of a `Money`: an unbounded amount tagged with a
/// currency label.
#[verifier::ext_equal]
pub ghost struct MoneyModel {
    pub amount: int,
    pub currency: Seq<char>,
}

/// An immutable amount of a named currency, such as 5 "USD".
#[derive(Debug, Clone)]
pub struct Money {
    pub(crate) amount: i64,
    pub(crate) currency: String,
}

impl View for Money {
    type V = MoneyModel;

    closed spec fn view(&self) -> MoneyModel {
        MoneyModel { amount: self.amount as int, currency: self.currency@ }
    }
}

impl PartialEq for Money {
    fn eq(&self, other: &Money) -> (r: bool) {
        self.amount == other.amount && self.currency == other.currency
    }
}

impl vstd::std_specs::cmp::PartialEqSpecImpl for Money {
    open spec fn obeys_eq_spec() -> bool {
        true
    }

    open spec fn eq_spec(&self, other: &Money) -> bool {
        self@ == other@
    }
}

impl Money {
    pub fn new(amount: i64, currency: String) -> (m: Money)
        ensures
            m@ == (MoneyModel { amount: amount as int, currency: currency@ }),
    {
        Money { amount, currency }
    }

    pub fn dollar(amount: i64) -> (m: Money)
        ensures
            m@.amount == amount as int,
            m@.currency == "USD"@,
    {
        Money::new(amount, "USD".to_owned())
    }

    pub fn franc(amount: i64) -> (m: Money)
        ensures
            m@.amount == amount as int,
            m@.currency == "CHF"@,
    {
        Money::new(amount, "CHF".to_owned())
    }

    pub fn currency(&self) -> (c: &str)
        ensures
            c@ == self@.currency,
    {
        self.currency.as_str()
    }

    pub(crate) fn amount(&self) -> (a: i64)
        ensures
            a as int == self@.amount,
    {
        self.amount
    }

    /// Combines this money and `addend` into a `Sum`, converting nothing:
    /// both operands are kept as they are and pricing is deferred until the
    /// sum is reduced.
    pub fn plus<A: Expression>(&self, addend: &A) -> (s: Sum<Money, A>)
        ensures
            s.augend.model() == self.model(),
            s.addend.model() == addend.model(),
    {
        Sum::new(self.duplicate(), addend.duplicate())
    }
}

impl Expression for Money {
    open spec fn model(&self) -> ExprModel {
        ExprModel::Money(self@)
    }

    fn duplicate(&self) -> (d: Self) {
        Money { amount: self.amount, currency: self.currency.clone() }
    }

    fn reduce(&self, bank: &Bank, to: &str) -> (r: Result<Money, MissingRateError>) {
        let rate = match bank.rate(self.currency.as_str(), to) {
            Ok(rate) => rate,
            Err(e) => {
                return Err(e);
            },
        };
        if rate == 0 {
            return Err(MissingRateError { from: self.currency.clone(), to: to.to_owned() });
        }
        let q = self.amount.checked_div(rate).unwrap();
        Ok(Money::new(q, to.to_owned()))
    }

    fn times(&self, multiplier: i64) -> (t: Self) {
        Money::new(self.amount * multiplier, self.currency.clone())
    }
}

} // verus!
