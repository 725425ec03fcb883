use either::Either;
use sequential::{
    AndThen, BoundedCollector, MapTerminal, Sequential, Update, VecCollector, VecSequential,
};

fn next_of<S: Sequential>(u: Update<S, S::Item, S::Terminal>) -> (S, S::Item) {
    match u {
        Update::Next(s, i) => (s, i),
        Update::Terminate(_) => panic!("expected Next"),
    }
}

fn terminal_of<S: Sequential>(u: Update<S, S::Item, S::Terminal>) -> S::Terminal {
    match u {
        Update::Next(_, _) => panic!("expected Terminate"),
        Update::Terminate(t) => t,
    }
}

#[test]
fn vec_source_steps_in_order() {
    let s0 = VecSequential::new(vec![0u32, 1, 2]);
    let (s1, n0) = next_of(s0.into_next());
    let (s2, n1) = next_of(s1.into_next());
    let (s3, n2) = next_of(s2.into_next());
    let term = terminal_of(s3.into_next());
    assert_eq!([0, 1, 2], [n0, n1, n2]);
    assert_eq!((), term);
}

#[test]
fn empty_source_terminates_immediately() {
    let s = VecSequential::new(Vec::<u32>::new());
    assert_eq!((), terminal_of(s.into_next()));
}

#[test]
fn and_then_with_empty_upstream_starts_downstream_at_once() {
    let up = VecSequential::new(Vec::<u32>::new());
    let down = VecSequential::new(vec![9u32]);
    let s0 = AndThen::new(up, down);
    let (s1, item) = next_of(s0.into_next());
    assert_eq!(9, item);
    assert_eq!(((), ()), terminal_of(s1.into_next()));
}

#[test]
fn and_then_of_two_empties_pairs_terminals() {
    let up = MapTerminal::new(VecSequential::new(Vec::<u32>::new()), |_t: ()| 'A');
    let down = MapTerminal::new(VecSequential::new(Vec::<u32>::new()), |_t: ()| 'B');
    assert_eq!(('A', 'B'), terminal_of(AndThen::new(up, down).into_next()));
}

#[test]
fn and_then_yields_upstream_then_downstream() {
    // Concatenating a 2-item sequence (terminal 'A') with a 3-item sequence
    // (terminal 'B') yields exactly 5 items in upstream-then-downstream
    // order, then the pair of terminals.
    let up = MapTerminal::new(VecSequential::new(vec![10u32, 11]), |_t: ()| 'A');
    let down = MapTerminal::new(VecSequential::new(vec![20u32, 21, 22]), |_t: ()| 'B');
    let mut collector = VecCollector::new();
    let term = AndThen::new(up, down).for_each(&mut collector);
    assert_eq!(('A', 'B'), term);
    assert_eq!(vec![10, 11, 20, 21, 22], collector.into_vec());
}

#[test]
fn and_then_switch_is_invisible() {
    // The step that exhausts the upstream already delivers the downstream's
    // first item: no step of the composite goes without an item or terminal.
    let up = VecSequential::new(vec![1u32]);
    let down = VecSequential::new(vec![2u32]);
    let s0 = AndThen::new(up, down);
    let (s1, a) = next_of(s0.into_next());
    let (s2, b) = next_of(s1.into_next());
    assert_eq!([1, 2], [a, b]);
    assert_eq!(((), ()), terminal_of(s2.into_next()));
}

#[test]
fn for_each_consumes_everything() {
    let s = VecSequential::new(vec![4u32, 5, 6]);
    let mut collector = VecCollector::new();
    let term = s.for_each(&mut collector);
    assert_eq!((), term);
    assert_eq!(vec![4, 5, 6], collector.into_vec());
}

#[test]
fn for_each_ctl_breaks_and_resumes() {
    let s = VecSequential::new(vec![4u32, 5, 6]);
    let mut two = BoundedCollector::new(2);
    match s.for_each_ctl(&mut two) {
        Either::Left(rest) => {
            // Two items were consumed; the rest is unconsumed and resumable.
            assert_eq!(vec![4, 5], two.into_vec());
            let mut all = VecCollector::new();
            assert_eq!((), rest.for_each(&mut all));
            assert_eq!(vec![6], all.into_vec());
        },
        Either::Right(_) => panic!("expected a break"),
    }
}

#[test]
fn for_each_ctl_reaches_terminal_without_break() {
    let s = VecSequential::new(vec![4u32, 5]);
    let mut ten = BoundedCollector::new(10);
    match s.for_each_ctl(&mut ten) {
        Either::Left(_) => panic!("expected the terminal"),
        Either::Right(term) => assert_eq!((), term),
    }
    assert_eq!(vec![4, 5], ten.into_vec());
}

#[test]
fn terminate_drops_items() {
    let up = MapTerminal::new(VecSequential::new(vec![1u32, 2, 3]), |_t: ()| 'Z');
    assert_eq!('Z', up.terminate());
}
