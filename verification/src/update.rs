//! The two-variant result of one step of a sequence, with fluent transformers.

use either::Either;
use vstd::prelude::*;

verus! {

/// Declaration of the outside type `either::Either` for the verifier.
/// Relies on the `either` crate's definition: a plain sum type with exactly
/// the two variants `Left(L)` and `Right(R)` and no further invariant.
#[verifier::external_type_specification]
#[verifier::reject_recursive_types(L)]
#[verifier::reject_recursive_types(R)]
#[verifier::ext_equal]
pub struct ExEither<L, R>(Either<L, R>);

/// The outcome of one step of a sequence: either a continuation state `S`
/// together with one item `I`, or a terminal value `T`.
#[derive(Debug)]
pub enum Update<S, I, T> {
    /// The sequence produced an item `I` and a continuation state `S`.
    Next(S, I),
    /// The sequence terminated with `T`.
    Terminate(T),
}

impl<S, I, T> Update<S, I, T> {
    /// Convert into an [`Either`], losslessly: `Next` becomes `Left`,
    /// `Terminate` becomes `Right`.
    pub fn either(self) -> (r: Either<(S, I), T>)
        ensures
            r == (match self {
                Update::Next(s, i) => Either::<(S, I), T>::Left((s, i)),
                Update::Terminate(t) => Either::<(S, I), T>::Right(t),
            }),
    {
        match self {
            Update::Next(s, i) => Either::Left((s, i)),
            Update::Terminate(t) => Either::Right(t),
        }
    }

    /// Convert back from an [`Either`], losslessly: `Left` becomes `Next`,
    /// `Right` becomes `Terminate`.
    pub fn from_either(e: Either<(S, I), T>) -> (u: Update<S, I, T>)
        ensures
            u == (match e {
                Either::Left((s, i)) => Update::Next(s, i),
                Either::Right(t) => Update::Terminate(t),
            }),
    {
        match e {
            Either::Left((s, i)) => Update::Next(s, i),
            Either::Right(t) => Update::Terminate(t),
        }
    }

    /// Map the continuation state, leaving the item or terminal unchanged.
    pub fn map_state<F, S2>(self, f: F) -> (u: Update<S2, I, T>)
        where F: FnOnce(S) -> S2
        requires
            (self matches Update::Next(s, _) ==> call_requires(f, (s,))),
        ensures
            (self matches Update::Terminate(t) ==> u == Update::<S2, I, T>::Terminate(t)),
            (self matches Update::Next(s, i) ==>
                (u matches Update::Next(s2, i2) && i2 == i && call_ensures(f, (s,), s2))),
    {
        match self {
            Update::Next(s, i) => Update::Next(f(s), i),
            Update::Terminate(t) => Update::Terminate(t),
        }
    }

    /// Map the item of a `Next`, leaving the state or terminal unchanged.
    pub fn map_item<F, I2>(self, f: F) -> (u: Update<S, I2, T>)
        where F: FnOnce(I) -> I2
        requires
            (self matches Update::Next(_, i) ==> call_requires(f, (i,))),
        ensures
            (self matches Update::Terminate(t) ==> u == Update::<S, I2, T>::Terminate(t)),
            (self matches Update::Next(s, i) ==>
                (u matches Update::Next(s2, i2) && s2 == s && call_ensures(f, (i,), i2))),
    {
        match self {
            Update::Next(s, i) => Update::Next(s, f(i)),
            Update::Terminate(t) => Update::Terminate(t),
        }
    }

    /// Map the terminal of a `Terminate`, leaving a `Next` unchanged.
    pub fn map_terminal<F, T2>(self, f: F) -> (u: Update<S, I, T2>)
        where F: FnOnce(T) -> T2
        requires
            (self matches Update::Terminate(t) ==> call_requires(f, (t,))),
        ensures
            (self matches Update::Next(s, i) ==> u == Update::<S, I, T2>::Next(s, i)),
            (self matches Update::Terminate(t) ==>
                (u matches Update::Terminate(t2) && call_ensures(f, (t,), t2))),
    {
        match self {
            Update::Next(s, i) => Update::Next(s, i),
            Update::Terminate(t) => Update::Terminate(f(t)),
        }
    }

    /// Transform the item of a `Next` into either a new item or a terminal.
    pub fn and_then<F, I2>(self, f: F) -> (u: Update<S, I2, T>)
        where F: FnOnce(I) -> Either<I2, T>
        requires
            (self matches Update::Next(_, i) ==> call_requires(f, (i,))),
        ensures
            (self matches Update::Terminate(t) ==> u == Update::<S, I2, T>::Terminate(t)),
            (self matches Update::Next(s, i) ==> (exists|e: Either<I2, T>|
                #[trigger] call_ensures(f, (i,), e) && u == (match e {
                    Either::Left(i2) => Update::<S, I2, T>::Next(s, i2),
                    Either::Right(t) => Update::<S, I2, T>::Terminate(t),
                }))),
    {
        match self {
            Update::Next(s, i) => match f(i) {
                Either::Left(i2) => Update::Next(s, i2),
                Either::Right(t) => Update::Terminate(t),
            },
            Update::Terminate(t) => Update::Terminate(t),
        }
    }
}

impl<S, I, T, E> Update<S, Result<I, E>, T> {
    /// Convert `Result` items to their `Ok` values on `Next`, terminating
    /// early with the `Err` value instead; a normal terminal is wrapped in
    /// `Ok`.
    pub fn terminate_on_err(self) -> (u: Update<S, I, Result<T, E>>)
        ensures
            u == (match self {
                Update::Next(s, Ok(i)) => Update::<S, I, Result<T, E>>::Next(s, i),
                Update::Next(_, Err(e)) => Update::<S, I, Result<T, E>>::Terminate(Err(e)),
                Update::Terminate(t) => Update::<S, I, Result<T, E>>::Terminate(Ok(t)),
            }),
    {
        match self {
            Update::Next(s, Ok(i)) => Update::Next(s, i),
            Update::Next(_, Err(e)) => Update::Terminate(Err(e)),
            Update::Terminate(t) => Update::Terminate(Ok(t)),
        }
    }
}

} // verus!
