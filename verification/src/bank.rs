use vstd::prelude::*;

use crate::expression::Expression;
use crate::expression::reduce_fits;
use crate::expression::reduce_result_matches;
use crate::expression::spec_reduce;
use crate::money::Money;

verus! {

/// Mathematical value of a `Pair`: an ordered (source, target) currency pair,
/// the lookup key for a directional exchange rate.
#[verifier::ext_equal]
pub ghost struct PairModel {
    pub from: Seq<char>,
    pub to: Seq<char>,
}

/// An ordered (source, target) currency pair under which a directional
/// exchange rate is registered.
#[derive(Debug)]
pub struct Pair {
    pub(crate) from: String,
    pub(crate) to: String,
}

impl View for Pair {
    type V = PairModel;

    closed spec fn view(&self) -> PairModel {
        PairModel { from: self.from@, to: self.to@ }
    }
}

impl Pair {
    pub fn new(from: String, to: String) -> (p: Pair)
        ensures
            p@ == (PairModel { from: from@, to: to@ }),
    {
        Pair { from, to }
    }
}

/// The error returned when a reduction or a rate lookup needs a directional
/// rate for a pair of distinct currencies that was never registered, or whose
/// registered rate is the unusable divisor zero.
#[derive(Debug)]
pub struct MissingRateError {
    pub from: String,
    pub to: String,
}

impl View for MissingRateError {
    type V = PairModel;

    open spec fn view(&self) -> PairModel {
        PairModel { from: self.from@, to: self.to@ }
    }
}

/// The rate a bank holding `rates` answers for converting `from` into `to`:
/// `1` for a currency and itself (with no lookup), the registered rate for any
/// other registered pair, and nothing otherwise.
pub open spec fn spec_rate(rates: Map<PairModel, i64>, from: Seq<char>, to: Seq<char>) -> Option<
    i64,
> {
    if from == to {
        Some(1i64)
    } else if rates.contains_key(PairModel { from, to }) {
        Some(rates[PairModel { from, to }])
    } else {
        None
    }
}

/// Holds directional exchange rates, keyed by ordered currency pairs, and
/// prices expressions in a chosen target currency.
pub struct Bank {
    rates: Vec<(Pair, i64)>,
}

/// The rate table that a sequence of registrations builds up: later entries
/// overwrite earlier ones for the same pair, as each registration did.
spec fn rates_map(entries: Seq<(Pair, i64)>) -> Map<PairModel, i64>
    decreases entries.len(),
{
    if entries.len() == 0 {
        Map::empty()
    } else {
        rates_map(entries.drop_last()).insert(entries.last().0@, entries.last().1)
    }
}

impl View for Bank {
    type V = Map<PairModel, i64>;

    closed spec fn view(&self) -> Map<PairModel, i64> {
        rates_map(self.rates@)
    }
}

impl Bank {
    pub fn new() -> (b: Bank)
        ensures
            b@ == Map::<PairModel, i64>::empty(),
    {
        Bank { rates: Vec::new() }
    }

    /// Registers the directional rate for the exact ordered pair
    /// `(from, to)`, overwriting any rate registered for it before.
    pub fn add_rate(&mut self, from: &str, to: &str, rate: i64)
        ensures
            final(self)@ == old(self)@.insert(PairModel { from: from@, to: to@ }, rate),
    {
        self.rates.push((Pair::new(from.to_owned(), to.to_owned()), rate));
        proof {
            assert(self.rates@.drop_last() =~= old(self).rates@);
        }
    }

    /// Answers `1` for a currency and itself, no rates needed; otherwise the
    /// registered rate for the exact ordered pair, or `MissingRateError` when
    /// none was ever registered.
    pub fn rate(&self, from: &str, to: &str) -> (r: Result<i64, MissingRateError>)
        ensures
            match spec_rate(self@, from@, to@) {
                Some(v) => r == Result::<i64, MissingRateError>::Ok(v),
                None => r matches Err(e) && e@ == (PairModel { from: from@, to: to@ }),
            },
    {
        let from_s = from.to_owned();
        let to_s = to.to_owned();
        if from_s == to_s {
            return Ok(1);
        }
        let ghost key = PairModel { from: from@, to: to@ };
        let mut found: Option<i64> = None;
        let mut i: usize = 0;
        while i < self.rates.len()
            invariant
                i <= self.rates@.len(),
                from_s@ == from@,
                to_s@ == to@,
                key == (PairModel { from: from@, to: to@ }),
                match found {
                    Some(v) => {
                        &&& rates_map(self.rates@.take(i as int)).contains_key(key)
                        &&& rates_map(self.rates@.take(i as int))[key] == v
                    },
                    None => !rates_map(self.rates@.take(i as int)).contains_key(key),
                },
            decreases self.rates@.len() - i,
        {
            let entry = &self.rates[i];
            proof {
                let next = self.rates@.take(i as int + 1);
                assert(next.drop_last() =~= self.rates@.take(i as int));
                assert(next.last() == self.rates@[i as int]);
            }
            if entry.0.from == from_s && entry.0.to == to_s {
                proof {
                    assert(entry.0@ =~= key);
                }
                found = Some(entry.1);
            } else {
                proof {
                    assert(entry.0@.from == entry.0.from@ && entry.0@.to == entry.0.to@);
                }
            }
            i = i + 1;
        }
        proof {
            assert(self.rates@.take(self.rates@.len() as int) =~= self.rates@);
        }
        match found {
            Some(v) => Ok(v),
            None => Err(MissingRateError { from: from_s, to: to_s }),
        }
    }

    /// Prices `source` in the currency `to`, delegating to the expression's
    /// own reduction over this bank's rate table.
    pub fn reduce<E: Expression>(&self, source: &E, to: &str) -> (r: Result<
        Money,
        MissingRateError,
    >)
        requires
            reduce_fits(source.model(), self@, to@),
        ensures
            reduce_result_matches(r, spec_reduce(source.model(), self@, to@), to@),
    {
        source.reduce(self, to)
    }
}

} // verus!
