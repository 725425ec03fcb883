use either::Either;
use sequential::transduce::{self, AndThen, Pipe, RunningSum, Transducer};
use sequential::Update;

fn next_of<I, S: Transducer<I>>(u: Update<S, S::Output, (S::Terminal, I)>) -> (S, S::Output) {
    match u {
        Update::Next(s, o) => (s, o),
        Update::Terminate(_) => panic!("expected Next"),
    }
}

fn terminal_of<I, S: Transducer<I>>(u: Update<S, S::Output, (S::Terminal, I)>) -> (S::Terminal, I) {
    match u {
        Update::Next(_, _) => panic!("expected Terminate"),
        Update::Terminate(done) => done,
    }
}

#[test]
fn from_fn_mut() {
    // A stateful step object adding each input to a running total bounded by
    // 10, lifted into a `Transducer`.
    let s0 = transduce::from_fn_mut(RunningSum::new(10));
    let (s1, n) = next_of(s0.into_next_with(1));
    assert_eq!(1, n);
    let (s2, n) = next_of(s1.into_next_with(2));
    assert_eq!(3, n);
    let (s3, n) = next_of(s2.into_next_with(3));
    assert_eq!(6, n);
    let (s4, n) = next_of(s3.into_next_with(4));
    assert_eq!(10, n);
    let (report, n_out) = terminal_of(s4.into_next_with(5));
    assert_eq!(5, n_out);
    assert_eq!("overflow: 15 > 10", report.message());
}

#[test]
fn pipe_upstream_termination_takes_precedence() {
    // When the upstream terminates on an input, the pipe terminates on that
    // step with the upstream's terminal; the downstream never observes the
    // input and its state is untouched.
    let up = transduce::from_fn_mut(RunningSum::new(5));
    let down = transduce::from_fn_mut(RunningSum::new(100));
    let p0 = Pipe::new(up, down);
    let (p1, out) = next_of(p0.into_next_with(3u32));
    assert_eq!(3, out);
    let (term, handed_back) = terminal_of(p1.into_next_with(4u32));
    assert_eq!(4, handed_back);
    match term.unwrap() {
        Either::Left((up_term, down_state)) => {
            assert_eq!(7, up_term.total);
            assert_eq!(5, up_term.bound);
            // The downstream still holds only the 3 it consumed earlier.
            let (_, out) = next_of(down_state.into_next_with(50u32));
            assert_eq!(53, out);
        },
        Either::Right(_) => panic!("expected upstream termination"),
    }
}

#[test]
fn pipe_downstream_termination_keeps_upstream_state() {
    let up = transduce::from_fn_mut(RunningSum::new(100));
    let down = transduce::from_fn_mut(RunningSum::new(5));
    let p0 = Pipe::new(up, down);
    let (p1, out) = next_of(p0.into_next_with(4u32));
    assert_eq!(4, out);
    // The upstream turns the input 2 into the intermediate total 6; the
    // downstream cannot take 6 and terminates; the in-flight 6 is converted
    // back into an input and handed back.
    let (term, handed_back) = terminal_of(p1.into_next_with(2u32));
    assert_eq!(6, handed_back);
    match term.unwrap() {
        Either::Left(_) => panic!("expected downstream termination"),
        Either::Right((up_state, down_term)) => {
            assert_eq!(10, down_term.total);
            assert_eq!(5, down_term.bound);
            // The upstream already consumed the 2: its total is 6.
            let (_, out) = next_of(up_state.into_next_with(1u32));
            assert_eq!(7, out);
        },
    }
}

#[test]
fn pipe_child_terminal_discards_leftover_state() {
    let up = transduce::from_fn_mut(RunningSum::new(5));
    let down = transduce::from_fn_mut(RunningSum::new(100));
    let p0 = Pipe::new(up, down);
    let (term, _) = terminal_of(p0.into_next_with(9u32));
    match term.child_terminal() {
        Either::Left(up_term) => {
            assert_eq!(9, up_term.total);
            assert_eq!(5, up_term.bound);
        },
        Either::Right(_) => panic!("expected upstream termination"),
    }
}

#[test]
fn and_then_with_input_hands_input_to_downstream() {
    // The very input on which the upstream terminates is processed by the
    // downstream within the same external step.
    let up = transduce::from_fn_mut(RunningSum::new(3));
    let down = transduce::from_fn_mut(RunningSum::new(100));
    let a0 = AndThen::new(up, down);
    let (a1, out) = next_of(a0.into_next_with(2u32));
    assert_eq!(2, out);
    // Upstream would reach 4 > 3 and terminates; downstream consumes the 2.
    let (a2, out) = next_of(a1.into_next_with(2u32));
    assert_eq!(2, out);
    let (a3, out) = next_of(a2.into_next_with(5u32));
    assert_eq!(7, out);
    let ((up_term, down_term), rest) = terminal_of(a3.into_next_with(200u32));
    assert_eq!(200, rest);
    assert_eq!(4, up_term.total);
    assert_eq!(3, up_term.bound);
    assert_eq!(207, down_term.total);
    assert_eq!(100, down_term.bound);
}
