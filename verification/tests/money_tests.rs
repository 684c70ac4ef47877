use money::Bank;
use money::Expression;
use money::Money;
use money::Sum;

#[test]
fn test_multiplication() {
    let five = Money::dollar(5);
    assert_eq!(Money::dollar(10), five.times(2));
    assert_eq!(Money::dollar(15), five.times(3));
}

#[test]
fn test_equality() {
    assert_eq!(Money::dollar(5) == Money::dollar(5), true);
    assert_eq!(Money::dollar(5) == Money::dollar(6), false);
    assert_eq!(Money::dollar(5) == Money::franc(5), false);
}

#[test]
fn test_currency() {
    assert_eq!("USD", Money::dollar(1).currency());
    assert_eq!("CHF", Money::franc(1).currency());
}

#[test]
fn test_simple_addition() {
    let five = Money::dollar(5);
    let sum = five.plus(&five);
    let bank = Bank::new();
    let reduced = bank.reduce(&sum, "USD").unwrap();
    assert_eq!(Money::dollar(10), reduced);
}

#[test]
fn test_plus_return_sum() {
    let five = Money::dollar(5);
    let sum = five.plus(&five);
    assert_eq!(&five, &sum.augend);
    assert_eq!(&five, &sum.addend);
}

#[test]
fn test_reduce_sum() {
    let three = Money::dollar(3);
    let four = Money::dollar(4);
    let sum = Sum::new(three.clone(), four.clone());
    let bank = Bank::new();
    let result = bank.reduce(&sum, "USD").unwrap();
    assert_eq!(Money::dollar(7), result);
}

#[test]
fn test_reduce_money() {
    let bank = Bank::new();
    let result = bank.reduce(&Money::dollar(1), "USD").unwrap();
    assert_eq!(Money::dollar(1), result);
}

#[test]
fn test_reduce_money_different_currency() {
    let bank = &mut Bank::new();
    bank.add_rate("CHF", "USD", 2);
    let result = bank.reduce(&Money::franc(2), "USD").unwrap();
    assert_eq!(Money::dollar(1), result);
}

#[test]
fn test_identity_rate() {
    let bank = Bank::new();
    assert_eq!(1, bank.rate("USD", "USD").unwrap());
}

#[test]
fn test_mixed_addition() {
    let five_bucks = Money::dollar(5);
    let ten_francs = Money::franc(10);
    let bank = &mut Bank::new();
    bank.add_rate("CHF", "USD", 2);
    let result = bank.reduce(&five_bucks.plus(&ten_francs), "USD").unwrap();
    assert_eq!(Money::dollar(10), result);
}

#[test]
fn test_sum_plus_money() {
    let five_bucks = Money::dollar(5);
    let ten_francs = Money::franc(10);
    let bank = &mut Bank::new();
    bank.add_rate("CHF", "USD", 2);
    let sum = Sum::new(five_bucks.clone(), ten_francs.clone());
    let sum = sum.plus(&five_bucks);
    let result = bank.reduce(&sum, "USD").unwrap();
    assert_eq!(Money::dollar(15), result);
}

#[test]
fn test_sum_times() {
    let five_bucks = Money::dollar(5);
    let ten_francs = Money::franc(10);
    let bank = &mut Bank::new();
    bank.add_rate("CHF", "USD", 2);
    let sum = Sum::new(five_bucks, ten_francs).times(2);
    let result = bank.reduce(&sum, "USD").unwrap();
    assert_eq!(Money::dollar(20), result);
}
