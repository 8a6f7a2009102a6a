use hotload::{changed_since, FrameBudget, Timestamp};

#[test]
fn equal_timestamp_is_no_change() {
    let t = Timestamp::new(1_700_000_000, 500);
    assert_eq!(changed_since(Some(t), &t), None);
}

#[test]
fn older_timestamp_is_no_change() {
    let last = Timestamp::new(1_700_000_000, 500);
    assert_eq!(changed_since(Some(Timestamp::new(1_699_999_999, 999_999_999)), &last), None);
    assert_eq!(changed_since(Some(Timestamp::new(1_700_000_000, 499)), &last), None);
}

#[test]
fn strictly_newer_timestamp_is_a_change() {
    let last = Timestamp::new(1_700_000_000, 500);
    let newer = Timestamp::new(1_700_000_000, 501);
    assert_eq!(changed_since(Some(newer), &last), Some(newer));
    let much_newer = Timestamp::new(1_700_000_001, 0);
    assert_eq!(changed_since(Some(much_newer), &last), Some(much_newer));
}

#[test]
fn unreadable_metadata_is_no_change() {
    let last = Timestamp::new(0, 0);
    assert_eq!(changed_since(None, &last), None);
}

#[test]
fn is_after_compares_instants() {
    let a = Timestamp::new(5, 999_999_999);
    let b = Timestamp::new(6, 0);
    assert!(b.is_after(&a));
    assert!(!a.is_after(&b));
    assert!(!a.is_after(&a));
}

#[test]
fn sleep_is_rest_of_budget() {
    let budget = FrameBudget::new(50_000_000);
    assert_eq!(budget.sleep_time(0), 50_000_000);
    assert_eq!(budget.sleep_time(12_000_000), 38_000_000);
    assert_eq!(budget.sleep_time(49_999_999), 1);
}

#[test]
fn overrun_tick_sleeps_zero() {
    let budget = FrameBudget::new(50_000_000);
    assert_eq!(budget.sleep_time(50_000_000), 0);
    assert_eq!(budget.sleep_time(80_000_000), 0);
    assert_eq!(budget.sleep_time(u64::MAX), 0);
    // The tick after an overrun gets the whole budget again.
    assert_eq!(budget.sleep_time(10_000_000), 40_000_000);
}

#[test]
fn zero_budget_never_sleeps() {
    let budget = FrameBudget::new(0);
    assert_eq!(budget.sleep_time(0), 0);
    assert_eq!(budget.sleep_time(1), 0);
}
