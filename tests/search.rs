use mproxy::{
    AttemptOutcome, INTERFACE_SEARCH_LIMIT, InterfaceSearch, Platform, SearchStatus,
    interface_candidates,
};

#[test]
fn candidates_count_up_from_zero() {
    let c = interface_candidates(Platform::Unix, INTERFACE_SEARCH_LIMIT);
    assert_eq!(c.len(), 32);
    assert_eq!(c, (0..32).collect::<Vec<u32>>());
    assert_eq!(interface_candidates(Platform::Windows, 3), vec![0, 1, 2]);
    assert_eq!(interface_candidates(Platform::Unix, 0), Vec::<u32>::new());
}

#[test]
fn macos_tries_its_fixed_interface() {
    assert_eq!(interface_candidates(Platform::MacOs, INTERFACE_SEARCH_LIMIT), vec![12]);
}

#[test]
fn address_in_use_moves_to_the_next_interface() {
    let mut s = InterfaceSearch::new(vec![0, 1, 2, 3]);
    assert_eq!(s.status(), SearchStatus::Searching);
    assert_eq!(s.current(), Some(0));
    s.report(AttemptOutcome::AddressInUse);
    assert_eq!(s.current(), Some(1));
    s.report(AttemptOutcome::AddressInUse);
    assert_eq!(s.current(), Some(2));
    s.report(AttemptOutcome::Bound);
    assert_eq!(s.status(), SearchStatus::Found(2));
    assert_eq!(s.current(), None);
}

#[test]
fn other_failures_end_the_search() {
    let mut s = InterfaceSearch::new(vec![5, 6]);
    s.report(AttemptOutcome::Failed);
    assert_eq!(s.status(), SearchStatus::Failed(5));
    assert_eq!(s.current(), None);
}

#[test]
fn search_is_bounded_by_its_candidates() {
    let mut s = InterfaceSearch::new(interface_candidates(Platform::Unix, INTERFACE_SEARCH_LIMIT));
    let mut tries = 0;
    while let Some(_) = s.current() {
        s.report(AttemptOutcome::AddressInUse);
        tries += 1;
    }
    assert_eq!(tries, 32);
    assert_eq!(s.status(), SearchStatus::Exhausted);
}

#[test]
fn no_candidates_is_exhausted_at_once() {
    let s = InterfaceSearch::new(vec![]);
    assert_eq!(s.status(), SearchStatus::Exhausted);
    assert_eq!(s.current(), None);
}
