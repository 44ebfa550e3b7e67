use camlet::persistence::{
    should_write_settings, PersistDecision, PersistenceDebounce, PERSISTENCE_DEBOUNCE_MILLIS,
};

#[test]
fn a_burst_of_changes_is_written_once_after_it_goes_quiet() {
    assert_eq!(PERSISTENCE_DEBOUNCE_MILLIS, 250);
    let mut debounce = PersistenceDebounce::new();
    assert_eq!(debounce.request(), Some(1));
    assert_eq!(debounce.request(), None);
    assert_eq!(debounce.request(), None);
    assert_eq!(debounce.ready(1), PersistDecision::Rearm(3));
    assert!(debounce.scheduled);
    assert_eq!(debounce.ready(3), PersistDecision::Write);
    assert!(!debounce.scheduled);
    assert_eq!(debounce.request(), Some(4));
}

#[test]
fn a_quiet_timer_writes_at_once() {
    let mut debounce = PersistenceDebounce::new();
    let generation = debounce.request().expect("the first change arms a timer");
    assert_eq!(debounce.ready(generation), PersistDecision::Write);
    assert_eq!(debounce.generation, 1);
}

#[test]
fn the_generation_saturates() {
    let mut debounce = PersistenceDebounce {
        generation: u64::MAX,
        scheduled: false,
    };
    assert_eq!(debounce.request(), Some(u64::MAX));
    assert_eq!(debounce.ready(u64::MAX), PersistDecision::Write);
}

#[test]
fn only_writable_profiles_with_a_path_are_written() {
    assert!(should_write_settings(true, true));
    assert!(!should_write_settings(false, true));
    assert!(!should_write_settings(true, false));
}
