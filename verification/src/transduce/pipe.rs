//! Piping one [`Transducer`]'s outputs into another.

use either::Either;
use vstd::prelude::*;
use vstd::std_specs::convert::FromSpec;

use crate::transduce::{run_end, run_outputs, Transducer};
use crate::update::Update;

verus! {

/// Process each input through an upstream `U` and feed the intermediate value
/// it produces to a downstream `D` within the same external step.
///
/// The pipe terminates as soon as either member terminates; the other member
/// has not terminated, so its full remaining state is preserved in the
/// [`PipeTerminal`].  Intermediate values must be convertible back into the
/// input type via `From`, since terminating hands back "unconsumed input": when
/// `D` terminates while an intermediate value is in flight, that partially
/// processed value is converted back, an accepted loss of the original input.
pub struct Pipe<U, D>(pub U, pub D);

/// The [`Terminal`](Transducer::Terminal) of a [`Pipe`], with full state.
///
/// Holds either upstream's terminal with downstream's complete unterminated
/// state (`Left`), or upstream's complete state with downstream's terminal
/// (`Right`) — never a pair of terminals.  [`PipeTerminal::unwrap`] recovers
/// the full state; [`PipeTerminal::child_terminal`] keeps only the terminal.
#[verifier::reject_recursive_types(U)]
#[verifier::reject_recursive_types(D)]
pub struct PipeTerminal<I, U, D>(
    pub Either<(<U as Transducer<I>>::Terminal, D), (U, <D as Transducer<<U as Transducer<I>>::Output>>::Terminal)>,
) where U: Transducer<I>, D: Transducer<<U as Transducer<I>>::Output>;

impl<U, D> Pipe<U, D> {
    /// Pipe `up`'s outputs into `down`.
    pub fn new<I>(up: U, down: D) -> (r: Pipe<U, D>)
        where
            I: From<<U as Transducer<I>>::Output>,
            U: Transducer<I>,
            D: Transducer<<U as Transducer<I>>::Output>,
        requires
            up.inv(),
            down.inv(),
            <I as FromSpec<<U as Transducer<I>>::Output>>::obeys_from_spec(),
        ensures
            r == Pipe(up, down),
            Transducer::<I>::inv(r),
    {
        Pipe(up, down)
    }
}

impl<I, U, D> Transducer<I> for Pipe<U, D> where
    I: From<<U as Transducer<I>>::Output>,
    U: Transducer<I>,
    D: Transducer<<U as Transducer<I>>::Output>,
 {
    type Output = <D as Transducer<<U as Transducer<I>>::Output>>::Output;

    type Terminal = PipeTerminal<I, U, D>;

    open spec fn inv(self) -> bool {
        &&& self.0.inv()
        &&& self.1.inv()
        &&& <I as FromSpec<<U as Transducer<I>>::Output>>::obeys_from_spec()
    }

    open spec fn spec_step(self, input: I) -> Update<Self, Self::Output, (Self::Terminal, I)> {
        match self.0.spec_step(input) {
            Update::Next(up2, mid) => match self.1.spec_step(mid) {
                Update::Next(down2, out) => Update::Next(Pipe(up2, down2), out),
                Update::Terminate((td, mid_rest)) => Update::Terminate(
                    (
                        PipeTerminal(Either::Right((up2, td))),
                        <I as FromSpec<<U as Transducer<I>>::Output>>::from_spec(mid_rest),
                    ),
                ),
            },
            Update::Terminate((tu, rest)) => Update::Terminate(
                (PipeTerminal(Either::Left((tu, self.1))), rest),
            ),
        }
    }

    fn into_next_with(self, input: I) -> (u: Update<Self, Self::Output, (Self::Terminal, I)>) {
        let Pipe(up, down) = self;
        match up.into_next_with(input) {
            Update::Next(up2, mid) => match down.into_next_with(mid) {
                Update::Next(down2, out) => Update::Next(Pipe(up2, down2), out),
                Update::Terminate((td, mid_rest)) => {
                    let back = I::from(mid_rest);
                    Update::Terminate((PipeTerminal(Either::Right((up2, td))), back))
                },
            },
            Update::Terminate((tu, rest)) => Update::Terminate(
                (PipeTerminal(Either::Left((tu, down))), rest),
            ),
        }
    }
}

impl<I, U, D> PipeTerminal<I, U, D> where
    U: Transducer<I>,
    D: Transducer<<U as Transducer<I>>::Output>,
 {
    /// Unwrap the full state of [`Pipe`] termination: one member's terminal
    /// and the other member's complete, unterminated state.
    pub fn unwrap(self) -> (r: Either<
        (<U as Transducer<I>>::Terminal, D),
        (U, <D as Transducer<<U as Transducer<I>>::Output>>::Terminal),
    >)
        ensures
            r == self.0,
    {
        self.0
    }

    /// Discard the pending unterminated state of one [`Pipe`] member and keep
    /// only the terminal of the member that terminated.
    pub fn child_terminal(self) -> (r: Either<
        <U as Transducer<I>>::Terminal,
        <D as Transducer<<U as Transducer<I>>::Output>>::Terminal,
    >)
        ensures
            r == (match self.0 {
                Either::Left((tu, _)) => Either::<
                    <U as Transducer<I>>::Terminal,
                    <D as Transducer<<U as Transducer<I>>::Output>>::Terminal,
                >::Left(tu),
                Either::Right((_, td)) => Either::<
                    <U as Transducer<I>>::Terminal,
                    <D as Transducer<<U as Transducer<I>>::Output>>::Terminal,
                >::Right(td),
            }),
    {
        match self.0 {
            Either::Left((tu, _)) => Either::Left(tu),
            Either::Right((_, td)) => Either::Right(td),
        }
    }
}

/// Pipe termination precedence: when the upstream terminates on an input, the
/// whole pipe terminates on that input, with upstream's terminal, the
/// downstream's state untouched, and the same input handed back — the
/// downstream never observes anything of the input the upstream consumed last.
pub proof fn lemma_pipe_upstream_precedence<I, U, D>(
    p: Pipe<U, D>,
    input: I,
    tu: <U as Transducer<I>>::Terminal,
    rest: I,
)
    where
        I: From<<U as Transducer<I>>::Output>,
        U: Transducer<I>,
        D: Transducer<<U as Transducer<I>>::Output>,
    requires
        p.0.spec_step(input) == Update::<U, <U as Transducer<I>>::Output, (<U as Transducer<
            I,
        >>::Terminal, I)>::Terminate((tu, rest)),
    ensures
        p.spec_step(input) == Update::<Pipe<U, D>, <Pipe<U, D> as Transducer<I>>::Output, (
            PipeTerminal<I, U, D>,
            I,
        )>::Terminate((PipeTerminal(Either::Left((tu, p.1))), rest)),
{
}

/// When the upstream produces an intermediate value and the downstream
/// terminates on it, the whole pipe terminates with downstream's terminal,
/// upstream's post-step state, and the in-flight intermediate value converted
/// back to an input.
pub proof fn lemma_pipe_downstream_terminates<I, U, D>(
    p: Pipe<U, D>,
    input: I,
    up2: U,
    mid: <U as Transducer<I>>::Output,
    td: <D as Transducer<<U as Transducer<I>>::Output>>::Terminal,
    mid_rest: <U as Transducer<I>>::Output,
)
    where
        I: From<<U as Transducer<I>>::Output>,
        U: Transducer<I>,
        D: Transducer<<U as Transducer<I>>::Output>,
    requires
        p.0.spec_step(input) == Update::<U, <U as Transducer<I>>::Output, (<U as Transducer<
            I,
        >>::Terminal, I)>::Next(up2, mid),
        p.1.spec_step(mid) == Update::<D, <D as Transducer<<U as Transducer<I>>::Output>>::Output, (
            <D as Transducer<<U as Transducer<I>>::Output>>::Terminal,
            <U as Transducer<I>>::Output,
        )>::Terminate((td, mid_rest)),
    ensures
        p.spec_step(input) == Update::<Pipe<U, D>, <Pipe<U, D> as Transducer<I>>::Output, (
            PipeTerminal<I, U, D>,
            I,
        )>::Terminate((
            PipeTerminal(Either::Right((up2, td))),
            <I as FromSpec<<U as Transducer<I>>::Output>>::from_spec(mid_rest),
        )),
{
}

/// Pipe termination precedence over a whole run: if, for a given input
/// sequence, the upstream terminates at step `k` while the downstream accepts
/// every intermediate value produced before that, then the pipe terminates at
/// step `k` with the upstream's terminal, the downstream's state as it stood
/// after the earlier intermediates, and the same handed-back input — and the
/// pipe's outputs are exactly the downstream's outputs over the upstream's.
pub proof fn lemma_pipe_run_upstream_first<I, U, D>(
    p: Pipe<U, D>,
    inputs: Seq<I>,
    tu: <U as Transducer<I>>::Terminal,
    rest: I,
    k: int,
    d_end: D,
)
    where
        I: From<<U as Transducer<I>>::Output>,
        U: Transducer<I>,
        D: Transducer<<U as Transducer<I>>::Output>,
    requires
        run_end(p.0, inputs) == Either::<U, ((<U as Transducer<I>>::Terminal, I), int)>::Right(
            ((tu, rest), k),
        ),
        run_end(p.1, run_outputs(p.0, inputs)) == Either::<D, ((<D as Transducer<<U as Transducer<
            I,
        >>::Output>>::Terminal, <U as Transducer<I>>::Output), int)>::Left(d_end),
    ensures
        run_end(p, inputs) == Either::<Pipe<U, D>, ((PipeTerminal<I, U, D>, I), int)>::Right(
            ((PipeTerminal(Either::Left((tu, d_end))), rest), k),
        ),
        run_outputs(p, inputs) == run_outputs(p.1, run_outputs(p.0, inputs)),
    decreases inputs.len(),
{
    let up_step = p.0.spec_step(inputs.first());
    match up_step {
        Update::Terminate(done) => {
            assert(run_outputs(p.0, inputs) =~= Seq::<<U as Transducer<I>>::Output>::empty());
            assert(run_outputs(p, inputs)
                =~= run_outputs(p.1, run_outputs(p.0, inputs)));
        },
        Update::Next(up2, mid) => {
            let ro = run_outputs(up2, inputs.drop_first());
            assert(run_outputs(p.0, inputs) == seq![mid] + ro);
            assert((seq![mid] + ro).drop_first() =~= ro);
            let down_step = p.1.spec_step(mid);
            match down_step {
                Update::Terminate(_) => {
                    // The downstream would terminate on the very first
                    // intermediate value, contradicting the hypothesis that
                    // the whole upstream output runs through it.
                    assert(false);
                },
                Update::Next(down2, out) => {
                    lemma_pipe_run_upstream_first(
                        Pipe(up2, down2),
                        inputs.drop_first(),
                        tu,
                        rest,
                        k - 1,
                        d_end,
                    );
                    assert(run_outputs(p, inputs)
                        =~= run_outputs(p.1, run_outputs(p.0, inputs)));
                },
            }
        },
    }
}

} // verus!
