use lang_tour::bindings::{
    let_variable_bindings, let_variable_bindings_2, type_annotation, type_annotation_2,
    type_inference, variable_shadowing,
};
use lang_tour::blocks::{
    block_scoping, blocks_are_expressions, expressions, fair_dice_roll,
    fair_dice_roll_conditional, fair_dice_roll_imp, multiple_statement_blocks,
    semi_colon_statements,
};
use lang_tour::records::{structures, Person};
use lang_tour::tuples::{tuple_destructuring, tuples, tuples_annotated};

#[test]
fn bindings_hold_forty_two() {
    assert_eq!(let_variable_bindings(), Some(42));
    assert_eq!(let_variable_bindings_2(), Some(42));
    assert_eq!(type_annotation(), Some(42));
    assert_eq!(type_annotation_2(), Some(42));
    assert_eq!(type_inference(), Some(42));
}

#[test]
fn shadowing_adds_three_to_thirteen() {
    assert_eq!(variable_shadowing(), Some(16));
}

#[test]
fn tuple_fields_and_destructuring() {
    assert_eq!(tuples(), ('a', 17));
    assert_eq!(tuples_annotated(), Some(('a', 17)));
    assert_eq!(tuple_destructuring(), Some(('a', 17)));
}

#[test]
fn shifted_sum_of_one_to_eight_is_sixty() {
    let (foo, total) = semi_colon_statements();
    assert_eq!(foo, "bar");
    assert_eq!(total, 60);
    let expected: i32 = (1..=8).map(|x| x + 3).sum();
    assert_eq!(total, expected);
}

#[test]
fn inner_block_hides_outer_binding() {
    assert_eq!(block_scoping(), ("inside", "out"));
}

#[test]
fn blocks_have_values() {
    assert_eq!(blocks_are_expressions(), (42, 42));
    assert_eq!(multiple_statement_blocks(), 3);
}

#[test]
fn dice_rolls_and_match_expression() {
    assert_eq!(fair_dice_roll(), 5);
    assert_eq!(fair_dice_roll_imp(), 5);
    assert_eq!(fair_dice_roll_conditional(), 7);
    assert_eq!(expressions(), 4);
}

#[test]
fn struct_update_keeps_the_first_person() {
    let (name, location) = structures();
    assert_eq!(name, "Bob");
    assert_eq!(location, "SF");
    let p = Person { name: String::from("Jane"), location: String::from("Portland") };
    let q = Person { ..p };
    assert_eq!(q.name, "Jane");
    assert_eq!(q.location, "Portland");
}
