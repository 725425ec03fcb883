use either::Either;
use sequential::Update;

fn next_of<S, I, T>(u: Update<S, I, T>) -> (S, I) {
    match u {
        Update::Next(s, i) => (s, i),
        Update::Terminate(_) => panic!("expected Next"),
    }
}

fn terminal_of<S, I, T>(u: Update<S, I, T>) -> T {
    match u {
        Update::Next(_, _) => panic!("expected Terminate"),
        Update::Terminate(t) => t,
    }
}

#[test]
fn update_either_converts_next() {
    let u: Update<u32, u32, &str> = Update::Next(7, 8);
    assert_eq!(Either::Left((7, 8)), u.either());
}

#[test]
fn update_either_converts_terminate() {
    let u: Update<u32, u32, &str> = Update::Terminate("done");
    assert_eq!(Either::Right("done"), u.either());
}

#[test]
fn update_from_either_round_trips() {
    let u: Update<u32, u32, &str> = Update::Next(7, 8);
    let (s, i) = next_of(Update::from_either(u.either()));
    assert_eq!((7, 8), (s, i));
    let t: Update<u32, u32, &str> = Update::Terminate("done");
    assert_eq!("done", terminal_of(Update::from_either(t.either())));
}

#[test]
fn update_map_state_only_touches_next() {
    let u: Update<u32, u32, &str> = Update::Next(7, 8);
    let (s, i) = next_of(u.map_state(|s| s + 1));
    assert_eq!((8, 8), (s, i));
    let t: Update<u32, u32, &str> = Update::Terminate("done");
    assert_eq!("done", terminal_of(t.map_state(|s| s + 1)));
}

#[test]
fn update_map_item_only_touches_next() {
    let u: Update<u32, u32, &str> = Update::Next(7, 8);
    let (s, i) = next_of(u.map_item(|i| i * 2));
    assert_eq!((7, 16), (s, i));
    let t: Update<u32, u32, &str> = Update::Terminate("done");
    assert_eq!("done", terminal_of(t.map_item(|i| i * 2)));
}

#[test]
fn update_map_terminal_only_touches_terminate() {
    let u: Update<u32, u32, &str> = Update::Next(7, 8);
    let (s, i) = next_of(u.map_terminal(|t: &str| t.len()));
    assert_eq!((7, 8), (s, i));
    let t: Update<u32, u32, &str> = Update::Terminate("done");
    assert_eq!(4, terminal_of(t.map_terminal(|t: &str| t.len())));
}

#[test]
fn update_and_then_item_or_terminal() {
    let u: Update<u32, u32, &str> = Update::Next(7, 8);
    let (s, i) = next_of(u.and_then(|i| Either::<u32, &str>::Left(i + 1)));
    assert_eq!((7, 9), (s, i));
    let u: Update<u32, u32, &str> = Update::Next(7, 8);
    assert_eq!("cut", terminal_of(u.and_then(|_| Either::<u32, &str>::Right("cut"))));
    let t: Update<u32, u32, &str> = Update::Terminate("done");
    assert_eq!("done", terminal_of(t.and_then(|i| Either::<u32, &str>::Left(i))));
}

#[test]
fn update_terminate_on_err_converts_items() {
    let ok: Update<u32, Result<u32, &str>, char> = Update::Next(7, Ok(8));
    let (s, i) = next_of(ok.terminate_on_err());
    assert_eq!((7, 8), (s, i));

    let err: Update<u32, Result<u32, &str>, char> = Update::Next(7, Err("bad"));
    assert_eq!(Err("bad"), terminal_of(err.terminate_on_err()));

    let done: Update<u32, Result<u32, &str>, char> = Update::Terminate('z');
    assert_eq!(Ok('z'), terminal_of(done.terminate_on_err()));
}
