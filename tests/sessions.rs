use mproxy::{DEFAULT_SESSION_LIMIT, SessionGate};

#[test]
fn gate_admits_up_to_its_limit() {
    let mut gate = SessionGate::new(2);
    assert_eq!(gate.limit(), 2);
    assert!(gate.try_admit());
    assert!(gate.try_admit());
    assert_eq!(gate.active(), 2);
    assert!(!gate.try_admit());
    assert_eq!(gate.active(), 2);
}

#[test]
fn released_sessions_make_room() {
    let mut gate = SessionGate::new(1);
    assert!(gate.try_admit());
    assert!(!gate.try_admit());
    gate.release();
    assert_eq!(gate.active(), 0);
    assert!(gate.try_admit());
}

#[test]
fn zero_limit_turns_everyone_away() {
    let mut gate = SessionGate::new(0);
    assert!(!gate.try_admit());
    assert_eq!(gate.active(), 0);
}

#[test]
fn default_limit_is_large() {
    let mut gate = SessionGate::new(DEFAULT_SESSION_LIMIT);
    for _ in 0..DEFAULT_SESSION_LIMIT {
        assert!(gate.try_admit());
    }
    assert!(!gate.try_admit());
}
