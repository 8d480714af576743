//! Generic functions and generic structs.
use vstd::prelude::*;
use vstd::std_specs::cmp::PartialEqSpec;

verus! {

/// Accepts a value of any type and does nothing with it.
pub fn foobar<T>(_arg: T) {
}

/// Accepts two values of any two types and does nothing with them.
pub fn foobar2<T, U>(_left: T, _right: U) {
}

/// The symbol that relates two values: "==" when they are equal, "!="
/// otherwise. Equality is whatever `T`'s `PartialEq` says; where `T` states
/// its equality, the symbol follows that statement.
pub fn compare<T: PartialEq>(left: &T, right: &T) -> (r: &'static str)
    ensures
        r@ == "=="@ || r@ == "!="@,
        T::obeys_eq_spec() ==> (r@ == "=="@ <==> left.eq_spec(right)),
{
    proof {
        reveal_strlit("==");
        reveal_strlit("!=");
        assert("=="@[0] != "!="@[0]);
    }
    if left.eq(right) {
        "=="
    } else {
        "!="
    }
}

/// Relies on std's `PartialEq` for `str`: two string slices are equal exactly
/// when they hold the same characters.
pub assume_specification[ <str as core::cmp::PartialEq>::eq ](s: &str, other: &str) -> (r: bool)
    ensures
        r == (s@ == other@),
;

/// The symbol that relates two words: "==" when they hold the same characters,
/// "!=" otherwise.
pub fn compare_words(left: &str, right: &str) -> (r: &'static str)
    ensures
        r@ == (if left@ == right@ { "=="@ } else { "!="@ }),
{
    if left.eq(right) {
        "=="
    } else {
        "!="
    }
}

/// Compares "tea" with "coffee". Returns the two words and the symbol between
/// them, which is "!=" since the words differ.
pub fn generics() -> (r: (&'static str, &'static str, &'static str))
    ensures
        r.0@ == "tea"@,
        r.1@ == "coffee"@,
        r.2@ == (if r.0@ == r.1@ { "=="@ } else { "!="@ }),
        r.2@ == "!="@,
{
    let left = "tea";
    let right = "coffee";
    proof {
        reveal_strlit("tea");
        reveal_strlit("coffee");
        assert(left@.len() != right@.len());
    }
    let symbol = compare_words(left, right);
    (left, right, symbol)
}

/// Two values of one type.
pub struct Pair<T> {
    pub a: T,
    pub b: T,
}

/// One struct and one vector type, each filled with integers and with
/// booleans: pairs, vectors grown by `push`, and vectors written as literals.
pub fn structs_can_be_generic() -> (r: (Pair<i32>, Pair<bool>, Vec<i32>, Vec<bool>, Vec<i32>, Vec<bool>))
    ensures
        r.0.a == 3 && r.0.b == 9,
        r.1.a == true && r.1.b == false,
        r.2@ == seq![1i32],
        r.3@ == seq![false],
        r.4@ == seq![1i32, 2, 3],
        r.5@ == seq![true, false, true],
{
    let p1 = Pair { a: 3i32, b: 9i32 };
    let p2 = Pair { a: true, b: false };
    let mut v1: Vec<i32> = Vec::new();
    v1.push(1);
    let mut v2: Vec<bool> = Vec::new();
    v2.push(false);
    let v3: Vec<i32> = vec![1, 2, 3];
    let v4: Vec<bool> = vec![true, false, true];
    assert(v1@ =~= seq![1i32]);
    assert(v2@ =~= seq![false]);
    assert(v3@ =~= seq![1i32, 2, 3]);
    assert(v4@ =~= seq![true, false, true]);
    (p1, p2, v1, v2, v3, v4)
}

} // verus!
