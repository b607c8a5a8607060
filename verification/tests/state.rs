use control_panel::state::SharedState;

#[test]
fn starts_on() {
    assert!(SharedState::new().get());
}

#[test]
fn toggle_inverts_and_returns_the_new_value() {
    let mut s = SharedState::new();
    assert_eq!(s.toggle(), false);
    assert_eq!(s.get(), false);
    assert_eq!(s.toggle(), true);
    assert_eq!(s.get(), true);
}

#[test]
fn toggle_parity_over_many_calls() {
    let mut s = SharedState::new();
    let initial = s.get();
    for _ in 0..10 {
        s.toggle();
    }
    assert_eq!(s.get(), initial);
    for _ in 0..7 {
        s.toggle();
    }
    assert_eq!(s.get(), !initial);
}

#[test]
fn set_overwrites() {
    let mut s = SharedState::new();
    s.set(false);
    assert!(!s.get());
    s.set(true);
    assert!(s.get());
}
