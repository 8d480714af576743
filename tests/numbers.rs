use lang_tour::numbers::{
    heading_by_if_let, heading_by_match, invert, let_patterns_if_expressions,
    match_arms_are_patterns, mutable_variable_bindings, parity_of, trait_markers,
    traits_are_sharable_interfaces, Number, Signed,
};
use std::ops::Neg;

fn num(odd: bool, value: i32) -> Number {
    Number { odd, value }
}

fn fields(n: &Number) -> (bool, i32) {
    (n.odd, n.value)
}

#[test]
fn headings_follow_parity() {
    assert_eq!(heading_by_if_let(num(true, 1)), ("Odd number", 1));
    assert_eq!(heading_by_if_let(num(false, 2)), ("Even number", 2));
    assert_eq!(heading_by_match(num(true, 1)), ("Odd number", 1));
    assert_eq!(heading_by_match(num(false, 2)), ("Even number", 2));
    assert_eq!(heading_by_match(num(false, -7)), ("Even number", -7));
}

#[test]
fn pattern_demos_show_one_then_two() {
    let expected = vec![("Odd number", 1), ("Even number", 2)];
    assert_eq!(let_patterns_if_expressions(), expected);
    assert_eq!(match_arms_are_patterns(), expected);
}

#[test]
fn mutable_fields_are_assigned() {
    assert_eq!(fields(&mutable_variable_bindings()), (false, 18));
}

#[test]
fn strictly_negative_on_number_and_i32() {
    assert!(num(true, -55).is_strictly_negative());
    assert!(!num(true, 0).is_strictly_negative());
    assert!(!num(false, 4).is_strictly_negative());
    assert!((-88i32).is_strictly_negative());
    assert!(!0i32.is_strictly_negative());
    assert!(i32::MIN.is_strictly_negative());
}

#[test]
fn negation_flips_value_and_keeps_parity() {
    assert_eq!(fields(&num(true, 987).neg()), (true, -987));
    assert_eq!(fields(&(-num(false, -4))), (false, 4));
    assert_eq!(fields(&num(true, i32::MAX).neg()), (true, -i32::MAX));
}

#[test]
fn trait_demo_results() {
    assert_eq!(traits_are_sharable_interfaces(), ((-55, true), (-88, true), -987));
}

#[test]
fn invert_negates_in_place() {
    let mut z = num(true, 51);
    invert(&mut z);
    assert_eq!(fields(&z), (true, -51));
    invert(&mut z);
    assert_eq!(fields(&z), (true, 51));
    let mut m = num(false, i32::MAX);
    invert(&mut m);
    assert_eq!(fields(&m), (false, -i32::MAX));
}

#[test]
fn parity_words() {
    assert_eq!(parity_of(&num(true, 51)), "odd");
    assert_eq!(parity_of(&num(false, 52)), "even");
}

#[test]
fn marker_demo_shows_numbers_in_order() {
    let (d, shown) = trait_markers();
    assert_eq!(d, 15);
    let got: Vec<(bool, i32)> = shown.iter().map(fields).collect();
    assert_eq!(
        got,
        vec![(true, 51), (false, 52), (false, 52), (true, 51), (true, -51), (true, 51), (true, 151)]
    );
}
