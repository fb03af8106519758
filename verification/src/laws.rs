//! What holds across the methods of [`DebugUnwrap`].
//!
//! The laws speak of what a method can return: `call_ensures(f, (c,), r)`
//! reads "`r` is a value that `f` can return for the container `c`".
use std::fmt::Debug;
use vstd::prelude::*;
use crate::DebugUnwrap;

verus! {

/// The aliases are `debug_unwrap` under shorter names. On one and the same
/// container, a value that `out`, `o` or `peel` can return is the value that
/// `debug_unwrap` can return. This holds of every implementor of the trait,
/// `Option` and `Result` among them.
pub proof fn lemma_aliases_agree<C: DebugUnwrap>(container: C, direct: C::Output, aliased: C::Output)
    requires
        call_ensures(C::debug_unwrap, (container,), direct),
        call_ensures(C::out, (container,), aliased)
            || call_ensures(C::o, (container,), aliased)
            || call_ensures(C::peel, (container,), aliased),
    ensures
        aliased == direct,
{
}

/// An `Option` that holds `value` hands out `value` itself, by whichever of
/// the four methods it is asked.
pub proof fn lemma_option_hands_out_its_value<T>(value: T, handed: T)
    requires
        call_ensures(Option::<T>::debug_unwrap, (Some(value),), handed)
            || call_ensures(Option::<T>::out, (Some(value),), handed)
            || call_ensures(Option::<T>::o, (Some(value),), handed)
            || call_ensures(Option::<T>::peel, (Some(value),), handed),
    ensures
        handed == value,
{
}

/// A `Result` that holds `value` hands out `value` itself, by whichever of
/// the four methods it is asked.
pub proof fn lemma_result_hands_out_its_value<T, E: Debug>(value: T, handed: T)
    requires
        call_ensures(Result::<T, E>::debug_unwrap, (Ok::<T, E>(value),), handed)
            || call_ensures(Result::<T, E>::out, (Ok::<T, E>(value),), handed)
            || call_ensures(Result::<T, E>::o, (Ok::<T, E>(value),), handed)
            || call_ensures(Result::<T, E>::peel, (Ok::<T, E>(value),), handed),
    ensures
        handed == value,
{
}

} // verus!
