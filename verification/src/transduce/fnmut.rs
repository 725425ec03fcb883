//! Lifting a stateful step-with-input object into a [`Transducer`].

use either::Either;
use vstd::prelude::*;

use crate::transduce::Transducer;
use crate::update::Update;

verus! {

/// A stateful step object consuming one input per call: each call produces
/// the next output, or a terminal together with the unconsumed input.
///
/// Implement it for ad hoc state and lift it with
/// [`from_fn_mut`](crate::transduce::from_fn_mut).
pub trait StepFnWith<I>: Sized {
    /// Each non-terminal call produces an `Output`.
    type Output;

    /// The last call produces a `Terminal`, handing its input back.
    type Terminal;

    /// Well-formedness; preserved by every call.
    open spec fn inv(self) -> bool {
        true
    }

    /// The model of one call on `input`: the state after the call and its
    /// result.
    spec fn spec_call(self, input: I) -> (Self, Either<Self::Output, (Self::Terminal, I)>);

    /// One step: the next output (`Left`), or the terminal with the
    /// unconsumed input (`Right`).
    fn call(&mut self, input: I) -> (r: Either<Self::Output, (Self::Terminal, I)>)
        requires
            old(self).inv(),
        ensures
            final(self).inv(),
            *final(self) == old(self).spec_call(input).0,
            r == old(self).spec_call(input).1,
    ;
}

/// Wraps a [`StepFnWith`], making it a [`Transducer`] with the same model.
pub struct SequentialFnMut<F>(pub F);

/// Wrap a step object which returns [`Transducer`] outputs or a terminal.
pub fn from_fn_mut<I, F>(f: F) -> (s: SequentialFnMut<F>)
    where F: StepFnWith<I>
    requires
        f.inv(),
    ensures
        s.inv(),
        s == SequentialFnMut(f),
{
    SequentialFnMut(f)
}

impl<I, F> Transducer<I> for SequentialFnMut<F> where F: StepFnWith<I> {
    type Output = <F as StepFnWith<I>>::Output;

    type Terminal = <F as StepFnWith<I>>::Terminal;

    open spec fn inv(self) -> bool {
        self.0.inv()
    }

    open spec fn spec_step(self, input: I) -> Update<Self, Self::Output, (Self::Terminal, I)> {
        match self.0.spec_call(input) {
            (f2, Either::Left(output)) => Update::Next(SequentialFnMut(f2), output),
            (_, Either::Right(done)) => Update::Terminate(done),
        }
    }

    fn into_next_with(self, input: I) -> (u: Update<Self, Self::Output, (Self::Terminal, I)>) {
        let SequentialFnMut(mut f) = self;
        match f.call(input) {
            Either::Left(output) => Update::Next(SequentialFnMut(f), output),
            Either::Right(done) => Update::Terminate(done),
        }
    }
}

} // verus!
