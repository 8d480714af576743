//! References and their lifetimes.
use vstd::prelude::*;

verus! {

/// A number with nothing but its value.
pub struct Number {
    pub value: i32,
}

/// Borrows the value of `num` for as long as `num` itself is borrowed.
pub fn number_value<'a>(num: &'a Number) -> (r: &'a i32)
    ensures
        *r == num.value,
{
    &num.value
}

/// Holds a reference that may not outlive the integer it points to.
pub struct NumRef<'a> {
    pub x: &'a i32,
}

/// Reads values through references: one borrow in an inner scope, three
/// shared borrows at once, a borrow of a `mut` binding, a borrow of a field
/// through `number_value`, and a reference kept in a struct. Returns the
/// values read, in that order.
pub fn references_have_lifetimes() -> (r: (i32, (i32, i32, i32), i32, i32, i32, i32))
    ensures
        r == (42i32, (42i32, 42i32, 42i32), 42i32, 42i32, 47i32, 99i32),
{
    let scoped: i32 = {
        let x: i32 = 42;
        let x_ref = &x;
        *x_ref
    };

    let x: i32 = 42;
    let x_ref1 = &x;
    let x_ref2 = &x;
    let x_ref3 = &x;
    let shared = (*x_ref1, *x_ref2, *x_ref3);

    #[allow(unused_mut)]
    let mut x: i32 = 42;
    let x_ref = &x;
    let while_borrowed: i32 = *x_ref;

    #[allow(unused_mut)]
    let mut y: i32 = 42;
    let y_ref1 = &y;
    let y_read: i32 = *y_ref1;

    let n = Number { value: 47 };
    let v = number_value(&n);
    let v_read: i32 = *v;

    let z: i32 = 99;
    let z_ref = NumRef { x: &z };
    let z_read: i32 = *z_ref.x;

    (scoped, shared, while_borrowed, y_read, v_read, z_read)
}

} // verus!
