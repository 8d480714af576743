//! Optional values: std's `Option` and an enum of the same shape.
use vstd::prelude::*;

verus! {

/// Unwraps a present value: 128.
pub fn panics() -> (r: i32)
    ensures
        r == 128,
{
    let o1: Option<i32> = Some(128);
    let value = o1.unwrap();
    let _o2: Option<i32> = None;
    value
}

/// Either no value or one value of type `T`.
pub enum OptionX<T> {
    NoneX,
    SomeX(T),
}

impl<T> OptionX<T> {
    /// The value held; only a present value can be unwrapped.
    pub fn unwrap(self) -> (r: T)
        requires
            self is SomeX,
        ensures
            self == OptionX::SomeX(r),
    {
        match self {
            OptionX::SomeX(t) => t,
            OptionX::NoneX => unreached(),
        }
    }
}

/// Either a value of type `T` or an error of type `E`.
pub enum ResultX<T, E> {
    OkX(T),
    ErrX(E),
}

/// Unwraps a present value of `OptionX`: 128.
pub fn enums() -> (r: i32)
    ensures
        r == 128,
{
    let o1: OptionX<i32> = OptionX::SomeX(128);
    let value = o1.unwrap();
    let _o2: OptionX<i32> = OptionX::NoneX;
    value
}

} // verus!
