use control_panel::arena::{Arena, ArenaError};

#[test]
fn first_claim_wins_second_fails() {
    let mut a = Arena::new(3);
    assert_eq!(a.cells(), 3);
    assert!(a.claim(0).is_ok());
    assert_eq!(a.claim(0), Err(ArenaError::AlreadyClaimed));
}

#[test]
fn cells_claim_independently() {
    let mut a = Arena::new(2);
    assert!(a.claim(1).is_ok());
    assert!(a.claim(0).is_ok());
    assert_eq!(a.claim(1), Err(ArenaError::AlreadyClaimed));
    assert_eq!(a.claim(0), Err(ArenaError::AlreadyClaimed));
}
