//! No-operation utilities: placeholders that perform no actual work.

use vstd::prelude::*;

verus! {

/// Performs no operation.
pub fn nop() {
}

/// Performs no operation but returns `Ok` with the provided value.
pub fn nop_ok<T, E>(value: T) -> (res: Result<T, E>)
    ensures
        res == Ok::<T, E>(value),
{
    Ok(value)
}

/// Performs no operation but returns `Err` with the provided error.
pub fn nop_err<T, E>(error: E) -> (res: Result<T, E>)
    ensures
        res == Err::<T, E>(error),
{
    Err(error)
}

/// Performs no operation but returns `Some` with the provided value.
pub fn nop_some<T>(value: T) -> (res: Option<T>)
    ensures
        res == Some(value),
{
    Some(value)
}

/// Performs no operation and returns `None`.
pub fn nop_none<T>() -> (res: Option<T>)
    ensures
        res == None::<T>,
{
    None
}

/// A struct that does nothing.
#[derive(Debug, Default, Clone, Copy, PartialEq, Eq, Structural)]
pub struct Nop;

impl Nop {
    /// Creates a new `Nop` instance.
    pub fn new() -> (res: Self)
        ensures
            res == Nop,
    {
        Nop
    }

    /// Does nothing.
    pub fn do_nothing(&self) {
    }

    /// Returns the provided value unchanged.
    pub fn identity<T>(value: T) -> (res: T)
        ensures
            res == value,
    {
        value
    }
}

} // verus!
