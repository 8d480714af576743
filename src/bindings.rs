//! Variable bindings: declaration, annotation, inference and shadowing.
use vstd::prelude::*;

verus! {

/// A binding declared first and assigned afterwards.
pub fn let_variable_bindings() -> (r: Option<i32>)
    ensures
        r == Some(42i32),
{
    let x: i32;
    x = 42;
    Some(x)
}

/// A binding declared and initialised in one statement.
pub fn let_variable_bindings_2() -> (r: Option<i32>)
    ensures
        r == Some(42i32),
{
    let x: i32 = 42;
    Some(x)
}

/// A binding with an explicit type, assigned after its declaration.
pub fn type_annotation() -> (r: Option<i32>)
    ensures
        r == Some(42i32),
{
    let x: i32;
    x = 42;
    Some(x)
}

/// A binding with an explicit type, initialised on the same line.
pub fn type_annotation_2() -> (r: Option<i32>)
    ensures
        r == Some(42i32),
{
    let x: i32 = 42;
    Some(x)
}

/// A binding whose type comes from the value later assigned to it.
pub fn type_inference() -> (r: Option<i32>)
    ensures
        r == Some(42i32),
{
    let x: i32;
    x = 42;
    Some(x)
}

/// A second binding of the same name hides the first and may use it.
pub fn variable_shadowing() -> (r: Option<i32>)
    ensures
        r == Some(16i32),
{
    let x: i32 = 13;
    let x: i32 = x + 3;
    Some(x)
}

} // verus!
