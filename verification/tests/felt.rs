use cheatnet::felt::{Felt252, FIELD_HIGH, FIELD_LOW};

#[test]
fn small_integers_are_field_elements() {
    let felt = Felt252::from_u128(5);
    assert_eq!(felt.high(), 0);
    assert_eq!(felt.low(), 5);
    let max = Felt252::from_u128(u128::MAX);
    assert_eq!(max.high(), 0);
    assert_eq!(max.low(), u128::MAX);
}

#[test]
fn new_accepts_what_is_below_the_prime() {
    assert_eq!(Felt252::new(0, 7), Some(Felt252::from_u128(7)));
    let largest = Felt252::new(FIELD_HIGH, 0).unwrap();
    assert_eq!(largest.high(), FIELD_HIGH);
    assert_eq!(largest.low(), 0);
    let below = Felt252::new(FIELD_HIGH - 1, u128::MAX).unwrap();
    assert_eq!(below.high(), FIELD_HIGH - 1);
    assert_eq!(below.low(), u128::MAX);
}

#[test]
fn new_refuses_the_prime_and_what_is_above() {
    assert_eq!(Felt252::new(FIELD_HIGH, FIELD_LOW), None);
    assert_eq!(Felt252::new(FIELD_HIGH, 2), None);
    assert_eq!(Felt252::new(FIELD_HIGH + 1, 0), None);
    assert_eq!(Felt252::new(u128::MAX, u128::MAX), None);
}

#[test]
fn the_prime_is_the_one_of_the_field() {
    assert_eq!(FIELD_HIGH, (1u128 << 123) + (17u128 << 64));
    assert_eq!(FIELD_LOW, 1);
    assert_eq!(FIELD_HIGH, cairo_felt::FIELD_HIGH);
    assert_eq!(FIELD_LOW, cairo_felt::FIELD_LOW);
}

#[test]
fn field_elements_are_equal_where_both_halves_are() {
    assert_eq!(Felt252::new(1, 2).unwrap(), Felt252::new(1, 2).unwrap());
    assert_ne!(Felt252::new(1, 2).unwrap(), Felt252::new(2, 1).unwrap());
    assert_ne!(Felt252::new(0, 2).unwrap(), Felt252::new(1, 2).unwrap());
}
