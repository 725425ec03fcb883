//! Concatenation of two [`Transducer`] values.

use vstd::prelude::*;

use crate::transduce::Transducer;
use crate::update::Update;

verus! {

/// Which member of an [`AndThen`] is processing inputs.
pub enum AndThenState<I, U, D> where U: Transducer<I> {
    /// The upstream still runs; its terminal is yet to come.
    UpReady(U, D),
    /// The upstream has terminated with the held terminal; downstream runs.
    DownReady(<U as Transducer<I>>::Terminal, D),
}

/// Compose a pair of [`Transducer`] values in sequence: the upstream processes
/// inputs until it terminates; then — beginning, within the same external
/// step, with the very input the upstream handed back — the downstream
/// processes the rest.  The upstream's terminal is held unmodified until the
/// whole [`AndThen`] terminates with both terminals.
pub struct AndThen<I, U, D>(pub AndThenState<I, U, D>) where U: Transducer<I>;

impl<I, U, D> AndThen<I, U, D> where U: Transducer<I> {
    /// Concatenate `upstream` and `downstream`.
    pub fn new(upstream: U, downstream: D) -> (r: AndThen<I, U, D>)
        ensures
            r == AndThen(AndThenState::<I, U, D>::UpReady(upstream, downstream)),
    {
        AndThen(AndThenState::UpReady(upstream, downstream))
    }
}

impl<I, U, D, O> Transducer<I> for AndThen<I, U, D> where
    U: Transducer<I, Output = O>,
    D: Transducer<I, Output = O>,
 {
    type Output = O;

    type Terminal = (<U as Transducer<I>>::Terminal, <D as Transducer<I>>::Terminal);

    open spec fn inv(self) -> bool {
        match self.0 {
            AndThenState::UpReady(up, down) => up.inv() && down.inv(),
            AndThenState::DownReady(_, down) => down.inv(),
        }
    }

    open spec fn spec_step(self, input: I) -> Update<Self, O, (Self::Terminal, I)> {
        match self.0 {
            AndThenState::UpReady(up, down) => match up.spec_step(input) {
                Update::Next(up2, out) => Update::Next(
                    AndThen(AndThenState::UpReady(up2, down)),
                    out,
                ),
                Update::Terminate((tu, handed)) => match down.spec_step(handed) {
                    Update::Next(down2, out) => Update::Next(
                        AndThen(AndThenState::DownReady(tu, down2)),
                        out,
                    ),
                    Update::Terminate((td, rest)) => Update::Terminate(((tu, td), rest)),
                },
            },
            AndThenState::DownReady(tu, down) => match down.spec_step(input) {
                Update::Next(down2, out) => Update::Next(
                    AndThen(AndThenState::DownReady(tu, down2)),
                    out,
                ),
                Update::Terminate((td, rest)) => Update::Terminate(((tu, td), rest)),
            },
        }
    }

    fn into_next_with(self, input: I) -> (u: Update<Self, O, (Self::Terminal, I)>) {
        match self.0 {
            AndThenState::UpReady(up, down) => match up.into_next_with(input) {
                Update::Next(up2, out) => Update::Next(
                    AndThen(AndThenState::UpReady(up2, down)),
                    out,
                ),
                // Upstream is exhausted: hand the returned input straight to
                // the downstream, still within this external step.
                Update::Terminate((tu, handed)) => match down.into_next_with(handed) {
                    Update::Next(down2, out) => Update::Next(
                        AndThen(AndThenState::DownReady(tu, down2)),
                        out,
                    ),
                    Update::Terminate((td, rest)) => Update::Terminate(((tu, td), rest)),
                },
            },
            AndThenState::DownReady(tu, down) => match down.into_next_with(input) {
                Update::Next(down2, out) => Update::Next(
                    AndThen(AndThenState::DownReady(tu, down2)),
                    out,
                ),
                Update::Terminate((td, rest)) => Update::Terminate(((tu, td), rest)),
            },
        }
    }
}

} // verus!
