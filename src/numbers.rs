//! A number that knows whether it is odd, matched by patterns, extended by
//! traits and passed by value, by reference and by mutable reference.
use std::ops::Neg;
use vstd::prelude::*;

verus! {

/// An integer together with a flag that says whether it is odd.
#[derive(Clone, Copy)]
pub struct Number {
    pub odd: bool,
    pub value: i32,
}

/// The word that names a parity.
pub open spec fn parity_word(odd: bool) -> Seq<char> {
    if odd {
        "odd"@
    } else {
        "even"@
    }
}

/// The heading under which a number is shown: "Odd number" or "Even number".
pub open spec fn parity_heading(odd: bool) -> Seq<char> {
    if odd {
        "Odd number"@
    } else {
        "Even number"@
    }
}

/// Heading and value of `n`, told apart with `if let` patterns.
pub fn heading_by_if_let(n: Number) -> (r: (&'static str, i32))
    ensures
        r.0@ == parity_heading(n.odd),
        r.1 == n.value,
{
    if let Number { odd: true, value } = n {
        ("Odd number", value)
    } else {
        let Number { value, .. } = n;
        ("Even number", value)
    }
}

/// Heading and value of `n`, told apart by the arms of a `match`.
pub fn heading_by_match(n: Number) -> (r: (&'static str, i32))
    ensures
        r.0@ == parity_heading(n.odd),
        r.1 == n.value,
{
    match n {
        Number { odd: true, value } => ("Odd number", value),
        Number { odd: false, value } => ("Even number", value),
    }
}

/// Headings of one and two, found with `if let`.
pub fn let_patterns_if_expressions() -> (r: Vec<(&'static str, i32)>)
    ensures
        r@.len() == 2,
        r@[0].0@ == "Odd number"@,
        r@[0].1 == 1,
        r@[1].0@ == "Even number"@,
        r@[1].1 == 2,
{
    let one = Number { odd: true, value: 1 };
    let two = Number { odd: false, value: 2 };
    let mut shown: Vec<(&'static str, i32)> = Vec::new();
    shown.push(heading_by_if_let(one));
    shown.push(heading_by_if_let(two));
    shown
}

/// Headings of one and two, found with `match`.
pub fn match_arms_are_patterns() -> (r: Vec<(&'static str, i32)>)
    ensures
        r@.len() == 2,
        r@[0].0@ == "Odd number"@,
        r@[0].1 == 1,
        r@[1].0@ == "Even number"@,
        r@[1].1 == 2,
{
    let one = Number { odd: true, value: 1 };
    let two = Number { odd: false, value: 2 };
    let mut shown: Vec<(&'static str, i32)> = Vec::new();
    shown.push(heading_by_match(one));
    shown.push(heading_by_match(two));
    shown
}

/// The fields of a binding declared `mut` can be assigned: seventeen, odd,
/// becomes eighteen, even.
pub fn mutable_variable_bindings() -> (r: Number)
    ensures
        r == (Number { odd: false, value: 18 }),
{
    let mut n = Number { odd: true, value: 17 };
    n.value = 18;
    n.odd = false;
    n
}

/// Values that can tell whether they lie below zero.
pub trait Signed: Sized {
    /// The value as a mathematical integer.
    spec fn signed_value(self) -> int;

    /// Whether the value is below zero.
    fn is_strictly_negative(self) -> (r: bool)
        ensures
            r == (self.signed_value() < 0),
    ;
}

impl Signed for Number {
    open spec fn signed_value(self) -> int {
        self.value as int
    }

    fn is_strictly_negative(self) -> (r: bool) {
        self.value < 0
    }
}

impl Signed for i32 {
    open spec fn signed_value(self) -> int {
        self as int
    }

    fn is_strictly_negative(self) -> (r: bool) {
        self < 0
    }
}

impl Neg for Number {
    type Output = Number;

    fn neg(self) -> (r: Number) {
        Number { value: -self.value, odd: self.odd }
    }
}

impl vstd::std_specs::ops::NegSpecImpl for Number {
    open spec fn obeys_neg_spec() -> bool {
        true
    }

    open spec fn neg_req(self) -> bool {
        self.value != i32::MIN
    }

    open spec fn neg_spec(self) -> Number {
        Number { value: (-self.value) as i32, odd: self.odd }
    }
}

/// A trait of this library on a type of this library, the same trait on a
/// type of std, and a trait of std (unary minus) on a type of this library.
/// Returns minus fifty-five with its answer, minus eighty-eight with its
/// answer, and the value of the negated nine hundred eighty-seven.
pub fn traits_are_sharable_interfaces() -> (r: ((i32, bool), (i32, bool), i32))
    ensures
        r == ((-55i32, true), (-88i32, true), -987i32),
{
    let num = Number { odd: true, value: -55 };
    let num_value = num.value;
    let num_negative = num.is_strictly_negative();
    let num2: i32 = -88;
    let num2_negative = num2.is_strictly_negative();
    let m = Number { odd: true, value: 987 };
    let n = m.neg();
    ((num_value, num_negative), (num2, num2_negative), n.value)
}

/// The word for the parity of `x`, "odd" or "even".
pub fn parity_of(x: &Number) -> (r: &'static str)
    ensures
        r@ == parity_word(x.odd),
{
    if x.odd {
        "odd"
    } else {
        "even"
    }
}

/// Negates the value behind a mutable reference and keeps its parity.
pub fn invert(n: &mut Number)
    requires
        old(n).value != i32::MIN,
    ensures
        final(n).value == -old(n).value,
        final(n).odd == old(n).odd,
{
    n.value = -n.value;
}

/// What marker traits allow: an `i32` is copied where it is passed on; a
/// `Number` is moved into a call, lent to calls, lent mutably to `invert`, and,
/// once `Copy`, cloned and copied. Returns the integer that is copied and each
/// number in the order in which it is shown.
pub fn trait_markers() -> (r: (i32, Vec<Number>))
    ensures
        r.0 == 15,
        r.1@ == seq![
            Number { odd: true, value: 51 },
            Number { odd: false, value: 52 },
            Number { odd: false, value: 52 },
            Number { odd: true, value: 51 },
            Number { odd: true, value: -51i32 },
            Number { odd: true, value: 51 },
            Number { odd: true, value: 151 },
        ],
{
    let a: i32 = 15;
    let _b: i32 = a;
    let _c: i32 = a;
    let d: i32 = 15;
    let mut shown: Vec<Number> = Vec::new();

    let x = Number { odd: true, value: 51 };
    shown.push(x);

    let y = Number { odd: false, value: 52 };
    shown.push(y);
    shown.push(y);

    let mut z = Number { odd: true, value: 51 };
    shown.push(z);
    invert(&mut z);
    shown.push(z);

    let n = Number { odd: true, value: 51 };
    let mut m = n.clone();
    m.value = m.value + 100;
    shown.push(n);
    shown.push(m);

    let _e = n.clone();
    let _f = std::clone::Clone::clone(&n);
    let g = n.clone();
    let _h = g;
    assert(shown@ =~= seq![
        Number { odd: true, value: 51 },
        Number { odd: false, value: 52 },
        Number { odd: false, value: 52 },
        Number { odd: true, value: 51 },
        Number { odd: true, value: -51i32 },
        Number { odd: true, value: 51 },
        Number { odd: true, value: 151 },
    ]);
    (d, shown)
}

} // verus!
