use money::Bank;
use money::Expression;
use money::Money;
use money::Pair;
use money::Sum;

#[test]
fn test_missing_rate_names_pair() {
    let bank = Bank::new();
    let err = bank.reduce(&Money::franc(2), "USD").unwrap_err();
    assert_eq!(err.from, "CHF");
    assert_eq!(err.to, "USD");
}

#[test]
fn test_missing_rate_inside_sum() {
    let bank = &mut Bank::new();
    bank.add_rate("CHF", "USD", 2);
    let sum = Sum::new(Money::dollar(5), Money::new(3, "GBP".to_string()));
    let err = bank.reduce(&sum, "USD").unwrap_err();
    assert_eq!(err.from, "GBP");
    assert_eq!(err.to, "USD");
}

#[test]
fn test_rate_lookup_missing() {
    let bank = &mut Bank::new();
    bank.add_rate("CHF", "USD", 2);
    let err = bank.rate("USD", "CHF").unwrap_err();
    assert_eq!(err.from, "USD");
    assert_eq!(err.to, "CHF");
}

#[test]
fn test_rate_is_directional() {
    let bank = &mut Bank::new();
    bank.add_rate("CHF", "USD", 2);
    assert_eq!(2, bank.rate("CHF", "USD").unwrap());
    assert!(bank.rate("USD", "CHF").is_err());
}

#[test]
fn test_add_rate_overwrites() {
    let bank = &mut Bank::new();
    bank.add_rate("CHF", "USD", 2);
    bank.add_rate("CHF", "USD", 3);
    assert_eq!(3, bank.rate("CHF", "USD").unwrap());
    let result = bank.reduce(&Money::franc(9), "USD").unwrap();
    assert_eq!(Money::dollar(3), result);
}

#[test]
fn test_zero_rate_cannot_convert() {
    let bank = &mut Bank::new();
    bank.add_rate("CHF", "USD", 0);
    assert_eq!(0, bank.rate("CHF", "USD").unwrap());
    let err = bank.reduce(&Money::franc(2), "USD").unwrap_err();
    assert_eq!(err.from, "CHF");
    assert_eq!(err.to, "USD");
}

#[test]
fn test_identity_rate_ignores_stored_rate() {
    let bank = &mut Bank::new();
    bank.add_rate("USD", "USD", 5);
    assert_eq!(1, bank.rate("USD", "USD").unwrap());
    let result = bank.reduce(&Money::dollar(7), "USD").unwrap();
    assert_eq!(Money::dollar(7), result);
}

#[test]
fn test_reduce_rounds_toward_zero() {
    let bank = &mut Bank::new();
    bank.add_rate("CHF", "USD", 2);
    assert_eq!(Money::dollar(2), bank.reduce(&Money::franc(5), "USD").unwrap());
    assert_eq!(Money::dollar(-2), bank.reduce(&Money::franc(-5), "USD").unwrap());
}

#[test]
fn test_times_negative_multiplier() {
    let debt = Money::dollar(-3);
    assert_eq!(Money::dollar(6), debt.times(-2));
    assert_eq!(Money::dollar(0), debt.times(0));
}

#[test]
fn test_times_keeps_largest_amount() {
    let all = Money::dollar(i64::MAX);
    assert_eq!(Money::dollar(i64::MAX), all.times(1));
}

#[test]
fn test_reduce_nested_sums() {
    let bank = &mut Bank::new();
    bank.add_rate("CHF", "USD", 2);
    let inner = Sum::new(Money::dollar(1), Money::franc(4));
    let outer = Sum::new(inner, Money::dollar(3));
    let result = bank.reduce(&outer, "USD").unwrap();
    assert_eq!(Money::dollar(6), result);
}

#[test]
fn test_money_new_sets_currency() {
    let m = Money::new(7, "EUR".to_string());
    assert_eq!("EUR", m.currency());
    assert_eq!(Money::new(7, "EUR".to_string()), m);
}

#[test]
fn test_pair_new_builds_key() {
    let _pair = Pair::new("CHF".to_string(), "USD".to_string());
}
