use sequential::{
    terminate_on_error, MapItems, Sequential, TerminateOnErr, Update, VecSequential,
};

fn drain_to_vec<S: Sequential>(s: S) -> (Vec<S::Item>, S::Terminal) {
    let mut cur = s;
    let mut items = Vec::new();
    loop {
        match cur.into_next() {
            Update::Next(next, item) => {
                items.push(item);
                cur = next;
            },
            Update::Terminate(t) => {
                return (items, t);
            },
        }
    }
}

fn fail_on_four(x: u32) -> Result<u32, u32> {
    if x == 4 {
        Err(x)
    } else {
        Ok(x)
    }
}

#[test]
fn terminates_on_first_residual() {
    // A source yielding 1, 2, 3, 4, 5, wrapped to fail on the value 4, yields
    // the items 1, 2, 3 and then terminates with the failure derived from 4.
    let source = VecSequential::new(vec![1u32, 2, 3, 4, 5]);
    let wrapped = TerminateOnErr::from(MapItems::new(source, fail_on_four));
    let (items, term) = drain_to_vec(wrapped);
    assert_eq!(vec![1, 2, 3], items);
    assert_eq!(Err(4), term);
}

#[test]
fn passes_everything_without_residual() {
    // A source with no failing values yields all items, then terminates with
    // `Ok` of the original terminal.
    let source = VecSequential::new(vec![1u32, 2, 3, 5]);
    let wrapped = TerminateOnErr::from(MapItems::new(source, fail_on_four));
    let (items, term) = drain_to_vec(wrapped);
    assert_eq!(vec![1, 2, 3, 5], items);
    assert_eq!(Ok(()), term);
}

#[test]
fn residual_as_first_item_terminates_immediately() {
    let source = VecSequential::new(vec![4u32, 1]);
    let wrapped = TerminateOnErr::from(MapItems::new(source, fail_on_four));
    let (items, term) = drain_to_vec(wrapped);
    assert_eq!(Vec::<u32>::new(), items);
    assert_eq!(Err(4), term);
}

#[test]
fn early_termination_is_reproducible() {
    // Replaying a source with the same items reproduces the same prefix of
    // successful items and the same error.
    let build = || {
        TerminateOnErr::from(MapItems::new(
            VecSequential::new(vec![1u32, 2, 3, 4, 5]),
            fail_on_four,
        ))
    };
    let (items_a, term_a) = drain_to_vec(build());
    let (items_b, term_b) = drain_to_vec(build());
    assert_eq!(items_a, items_b);
    assert_eq!(term_a, term_b);
    assert_eq!(vec![1, 2, 3], items_b);
    assert_eq!(Err(4), term_b);
}

#[test]
fn residual_as_last_item_still_terminates_with_it() {
    let source = VecSequential::new(vec![1u32, 2, 4]);
    let wrapped = TerminateOnErr::from(MapItems::new(source, fail_on_four));
    let (items, term) = drain_to_vec(wrapped);
    assert_eq!(vec![1, 2], items);
    assert_eq!(Err(4), term);
}

#[test]
fn empty_source_terminates_with_ok() {
    let source = VecSequential::new(Vec::<u32>::new());
    let wrapped = TerminateOnErr::from(MapItems::new(source, fail_on_four));
    let (items, term) = drain_to_vec(wrapped);
    assert_eq!(Vec::<u32>::new(), items);
    assert_eq!(Ok(()), term);
}

#[test]
fn terminate_on_error_wraps_unit_terminal() {
    let source = VecSequential::new(vec![Ok(1u32), Ok(2), Err("boom"), Ok(3)]);
    let wrapped = terminate_on_error(source);
    let (items, term) = drain_to_vec(wrapped);
    assert_eq!(vec![1, 2], items);
    assert_eq!(Err("boom"), term);
}
