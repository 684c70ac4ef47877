//! Currency-aware arithmetic: immutable `Money` values, `Sum` expression
//! trees over them, and a `Bank` of directional exchange rates that reduces
//! any expression to a `Money` in a requested target currency.

mod bank;
mod expression;
mod laws;
mod money;

pub use crate::bank::Bank;
pub use crate::bank::MissingRateError;
pub use crate::bank::Pair;
pub use crate::bank::PairModel;
pub use crate::bank::spec_rate;
pub use crate::expression::ExprModel;
pub use crate::expression::Expression;
pub use crate::expression::references_unresolved;
pub use crate::laws::lemma_add_rate_overwrites;
pub use crate::laws::lemma_identity_rate;
pub use crate::laws::lemma_money_equality;
pub use crate::laws::lemma_money_times;
pub use crate::laws::lemma_reduce_own_currency;
pub use crate::laws::lemma_times_distributes;
pub use crate::laws::lemma_unresolved_pair_rejected;
pub use crate::expression::Sum;
pub use crate::expression::fits_i64;
pub use crate::expression::reduce_fits;
pub use crate::expression::reduce_result_matches;
pub use crate::expression::spec_convert;
pub use crate::expression::spec_reduce;
pub use crate::expression::spec_times;
pub use crate::expression::times_fits;
pub use crate::expression::trunc_div;
pub use crate::money::Money;
pub use crate::money::MoneyModel;
