//! Tuples: fixed-length groups of values of differing types.
use vstd::prelude::*;

verus! {

/// A pair of a character and an integer; its fields are `.0` and `.1`.
pub fn tuples() -> (r: (char, i32))
    ensures
        r == ('a', 17i32),
{
    let pair = ('a', 17i32);
    (pair.0, pair.1)
}

/// The same pair, with its type written out.
pub fn tuples_annotated() -> (r: Option<(char, i32)>)
    ensures
        r == Some(('a', 17i32)),
{
    let pair: (char, i32) = ('a', 17);
    Some(pair)
}

/// The pair taken apart into two bindings and put back together.
pub fn tuple_destructuring() -> (r: Option<(char, i32)>)
    ensures
        r == Some(('a', 17i32)),
{
    let pair: (char, i32) = ('a', 17);
    let (some_char, some_int) = pair;
    Some((some_char, some_int))
}

} // verus!
