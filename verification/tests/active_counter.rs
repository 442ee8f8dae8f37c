use request_services::active_counter::{count_is_active, ActiveCounter};

#[test]
fn ut_active_counter_new_001() {
    let counter = ActiveCounter::new();
    assert!(!counter.is_active());
}

#[test]
fn ut_active_counter_increment_001() {
    let counter = ActiveCounter::new();
    counter.increment();
    assert!(counter.is_active());
}

#[test]
fn ut_active_counter_decrement_001() {
    let counter = ActiveCounter::new();
    counter.increment();
    counter.decrement();
    assert!(!counter.is_active());
}

#[test]
fn ut_active_counter_multiple_increments_001() {
    let counter = ActiveCounter::new();
    for _ in 0..5 {
        counter.increment();
    }
    assert!(counter.is_active());
}

#[test]
fn ut_active_counter_multiple_decrements_001() {
    let counter = ActiveCounter::new();
    for _ in 0..3 {
        counter.increment();
    }
    for _ in 0..3 {
        counter.decrement();
    }
    assert!(!counter.is_active());
}

#[test]
fn ut_active_counter_decrement_below_zero_001() {
    let counter = ActiveCounter::new();
    counter.decrement(); // wraps to u32::MAX
    assert!(counter.is_active());
}

#[test]
fn ut_active_counter_clone_behavior_001() {
    let counter1 = ActiveCounter::new();
    let counter2 = counter1.clone();

    counter1.increment();
    assert!(counter2.is_active());

    counter2.decrement();
    assert!(!counter1.is_active());
}

#[test]
fn ut_active_counter_large_count_001() {
    let counter = ActiveCounter::new();
    let large_count = 10000;

    for _ in 0..large_count {
        counter.increment();
    }
    assert!(counter.is_active());

    for _ in 0..large_count {
        counter.decrement();
    }
    assert!(!counter.is_active());
}

#[test]
fn count_is_active_reads_count() {
    assert!(!count_is_active(0));
    assert!(count_is_active(1));
    assert!(count_is_active(u32::MAX));
}
