//! Structs: construction, update syntax and destructuring.
use vstd::prelude::*;

verus! {

/// A person, known by name and by where they live.
pub struct Person {
    pub name: String,
    pub location: String,
}

/// Builds two people, makes a third from every field of the first with the
/// `..` update syntax, and takes that third apart again. Returns its name and
/// its location.
pub fn structures() -> (r: (String, String))
    ensures
        r.0@ == "Bob"@,
        r.1@ == "SF"@,
{
    let p1 = Person { name: "Bob".to_owned(), location: "SF".to_owned() };
    let _p2 = Person { name: "Jane".to_owned(), location: "Portland".to_owned() };
    let p3 = Person { ..p1 };
    let Person { name, location } = p3;
    (name, location)
}

} // verus!
