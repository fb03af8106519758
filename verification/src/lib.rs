//! `debug_unwrap`: an unwrap for `Option` and `Result` that states what it
//! needs and what it gives.
//!
//! The extension trait [`DebugUnwrap`] adds the method
//! [`debug_unwrap`](DebugUnwrap::debug_unwrap) to `Option<T>` and to
//! `Result<T, E>`, together with three shorter spellings of it: `out`, `o`
//! and `peel`. Each of them consumes the container and hands out the value
//! inside.
//!
//! A container without a value has nothing to hand out: on `None` and on
//! `Err(_)` the standard unwrap aborts with a diagnostic, and so would these
//! methods. Their precondition leaves those inputs out, so a verified caller
//! has shown, before the call, that the value is there. A caller that Verus
//! has not seen gets the behaviour of the standard unwrap on every input.
//!
//! The module [`laws`] states what holds across the methods.
use std::fmt::Debug;
use vstd::prelude::*;

pub mod laws;

verus! {

/// Extension trait for the `Option` and `Result` types.
///
/// A container is described by two specification functions: whether it holds
/// a value, and which value that is. Every method of the trait asks for the
/// first and returns the second.
pub trait DebugUnwrap: Sized {
    /// The type of the value that the container hands out.
    type Output;

    /// Whether the container holds a value that can be handed out.
    spec fn holds_value(self) -> bool;

    /// The value that the container holds. It says nothing of a container
    /// for which `holds_value` is false.
    spec fn held_value(self) -> Self::Output
        recommends
            self.holds_value(),
    ;

    /// Consumes the container and returns the value that it holds, as
    /// `Option::unwrap` and `Result::unwrap` do.
    fn debug_unwrap(self) -> (value: Self::Output)
        requires
            self.holds_value(),
        ensures
            value == self.held_value(),
    ;

    /// Alias for [`debug_unwrap`](DebugUnwrap::debug_unwrap).
    fn out(self) -> (value: Self::Output)
        requires
            self.holds_value(),
        ensures
            value == self.held_value(),
    {
        self.debug_unwrap()
    }

    /// Alias for [`debug_unwrap`](DebugUnwrap::debug_unwrap).
    fn o(self) -> (value: Self::Output)
        requires
            self.holds_value(),
        ensures
            value == self.held_value(),
    {
        self.debug_unwrap()
    }

    /// Alias for [`debug_unwrap`](DebugUnwrap::debug_unwrap).
    fn peel(self) -> (value: Self::Output)
        requires
            self.holds_value(),
        ensures
            value == self.held_value(),
    {
        self.debug_unwrap()
    }
}

impl<T> DebugUnwrap for Option<T> {
    type Output = T;

    /// An `Option` holds a value exactly when it is `Some`.
    open spec fn holds_value(self) -> bool {
        self is Some
    }

    /// The value inside `Some`.
    open spec fn held_value(self) -> T {
        self->Some_0
    }

    /// Returns `v` for `Some(v)`, unchanged.
    fn debug_unwrap(self) -> (value: T)
        ensures
            self == Some(value),
    {
        self.unwrap()
    }
}

/// The error has to be `Debug`, as `Result::unwrap` asks: its diagnostic shows
/// the error.
impl<T, E: Debug> DebugUnwrap for Result<T, E> {
    type Output = T;

    /// A `Result` holds a value exactly when it is `Ok`.
    open spec fn holds_value(self) -> bool {
        self is Ok
    }

    /// The value inside `Ok`.
    open spec fn held_value(self) -> T {
        self->Ok_0
    }

    /// Returns `v` for `Ok(v)`, unchanged.
    fn debug_unwrap(self) -> (value: T)
        ensures
            self == Ok::<T, E>(value),
    {
        self.unwrap()
    }
}

} // verus!
