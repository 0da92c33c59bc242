use modern_sync::counters::MemoryMutableCounters;

#[test]
fn unset_counter_is_none() {
    let c = MemoryMutableCounters::new();
    assert_eq!(c.get_counter("modern_sync"), None);
    assert!(c.get_all_counters().is_empty());
}

#[test]
fn set_and_get_counter() {
    let mut c = MemoryMutableCounters::new();
    assert!(c.set_counter("modern_sync", 5, None));
    assert_eq!(c.get_counter("modern_sync"), Some(5));
    assert_eq!(c.get_maybe_stale_counter("modern_sync"), Some(5));
    assert!(c.set_counter("modern_sync", 6, None));
    assert_eq!(c.get_counter("modern_sync"), Some(6));
}

#[test]
fn compare_and_set_needs_the_expected_value() {
    let mut c = MemoryMutableCounters::new();
    assert!(!c.set_counter("a", 1, Some(0)));
    assert_eq!(c.get_counter("a"), None);
    assert!(c.set_counter("a", 1, None));
    assert!(!c.set_counter("a", 2, Some(0)));
    assert_eq!(c.get_counter("a"), Some(1));
    assert!(c.set_counter("a", 2, Some(1)));
    assert_eq!(c.get_counter("a"), Some(2));
}

#[test]
fn all_counters_are_listed_once() {
    let mut c = MemoryMutableCounters::new();
    c.set_counter("b", 2, None);
    c.set_counter("a", 1, None);
    c.set_counter("b", 3, None);
    let mut all = c.get_all_counters();
    all.sort();
    assert_eq!(all, vec![("a".to_string(), 1), ("b".to_string(), 3)]);
}
