//! Transducer-style sequences: a generalization of [`Sequential`](crate::Sequential)
//! where each step consumes one external input value.

mod andthen;
mod fnmut;
mod pipe;
mod running;

pub use self::andthen::{AndThen, AndThenState};
pub use self::fnmut::{from_fn_mut, SequentialFnMut, StepFnWith};
pub use self::pipe::{lemma_pipe_downstream_terminates, lemma_pipe_run_upstream_first, lemma_pipe_upstream_precedence, Pipe, PipeTerminal};
pub use self::running::RunningSum;

use either::Either;
use vstd::prelude::*;

use crate::update::Update;

verus! {

/// A [`Transducer`] consumes one input per step, producing a sequence of
/// [`Output`](Transducer::Output) values and then a
/// [`Terminal`](Transducer::Terminal) paired with the unconsumed input.
///
/// Implementors provide a mathematical model of one step,
/// [`spec_step`](Transducer::spec_step), and the operation
/// [`into_next_with`](Transducer::into_next_with), which follows it exactly.
/// As with [`Sequential`](crate::Sequential), the step consumes the value, so
/// a terminated transducer cannot be stepped again.
pub trait Transducer<I>: Sized {
    /// Each non-terminal step of a sequence produces an `Output`.
    type Output;

    /// A `Terminal` is produced when a sequence terminates; the input handed
    /// to the terminating step comes back with it, unconsumed.
    type Terminal;

    /// Well-formedness of the value; constructors establish it and every step
    /// preserves it.
    open spec fn inv(self) -> bool {
        true
    }

    /// The model of one step on `input`: exactly what
    /// [`into_next_with`](Transducer::into_next_with) returns.
    spec fn spec_step(self, input: I) -> Update<Self, Self::Output, (Self::Terminal, I)>;

    /// Consume the [`Transducer`] and one input to produce either a
    /// continuation (type `Self`) with one output, or the terminal together
    /// with the input it did not consume.
    fn into_next_with(self, input: I) -> (u: Update<Self, Self::Output, (Self::Terminal, I)>)
        requires
            self.inv(),
        ensures
            u == self.spec_step(input),
            (u matches Update::Next(next, _) ==> next.inv()),
    ;
}

/// The outputs that feeding `inputs` to `s`, one per external step, produces
/// before `s` terminates or the inputs run out.
pub open spec fn run_outputs<I, S: Transducer<I>>(s: S, inputs: Seq<I>) -> Seq<S::Output>
    decreases inputs.len(),
{
    if inputs.len() == 0 {
        Seq::empty()
    } else {
        match s.spec_step(inputs.first()) {
            Update::Next(s2, out) => seq![out] + run_outputs(s2, inputs.drop_first()),
            Update::Terminate(_) => Seq::empty(),
        }
    }
}

/// The end of feeding `inputs` to `s`, one per external step: the state left
/// standing when the inputs ran out (`Left`), or the terminal with the
/// handed-back input and the index of the step that terminated (`Right`).
pub open spec fn run_end<I, S: Transducer<I>>(s: S, inputs: Seq<I>) -> Either<
    S,
    ((S::Terminal, I), int),
>
    decreases inputs.len(),
{
    if inputs.len() == 0 {
        Either::Left(s)
    } else {
        match s.spec_step(inputs.first()) {
            Update::Next(s2, _) => match run_end(s2, inputs.drop_first()) {
                Either::Left(s3) => Either::Left(s3),
                Either::Right((done, k)) => Either::Right((done, k + 1)),
            },
            Update::Terminate(done) => Either::Right((done, 0)),
        }
    }
}

} // verus!
