use dvhost::metrics::{remaining_days, remaining_traffic, used_percent, user_metrics};

#[test]
fn remaining_days_counts_whole_days() {
    assert_eq!(remaining_days(3 * 86400 + 100, 100), 3);
    assert_eq!(remaining_days(3 * 86400 + 99, 100), 2);
}

#[test]
fn remaining_days_clamps_at_zero() {
    assert_eq!(remaining_days(100, 100 + 86400), 0);
    assert_eq!(remaining_days(0, 1_700_000_000), 0);
}

#[test]
fn remaining_days_handles_extreme_values() {
    assert_eq!(remaining_days(i64::MAX, i64::MIN), 213_503_982_334_601);
    assert_eq!(remaining_days(i64::MIN, i64::MAX), 0);
}

#[test]
fn remaining_traffic_subtracts() {
    assert_eq!(remaining_traffic(100, 30), 70);
    assert_eq!(remaining_traffic(100, 100), 0);
}

#[test]
fn remaining_traffic_clamps_at_zero() {
    assert_eq!(remaining_traffic(30, 100), 0);
}

#[test]
fn used_percent_rounds_to_nearest() {
    assert_eq!(used_percent(1, 3), 33);
    assert_eq!(used_percent(2, 3), 67);
    assert_eq!(used_percent(1, 2), 50);
    assert_eq!(used_percent(0, 7), 0);
    assert_eq!(used_percent(7, 7), 100);
    assert_eq!(used_percent(3, 2), 150);
}

#[test]
fn used_percent_rounds_ties_up() {
    assert_eq!(used_percent(1, 8), 13);
    assert_eq!(used_percent(3, 8), 38);
}

#[test]
fn used_percent_guards_zero_limit() {
    assert_eq!(used_percent(0, 0), 0);
    assert_eq!(used_percent(12345, 0), 0);
}

#[test]
fn used_percent_saturates() {
    assert_eq!(used_percent(u64::MAX, 1), u64::MAX);
}

#[test]
fn user_metrics_combines_all_three() {
    let now = 1_700_000_000;
    let (days, traffic, percent) = user_metrics(now + 2 * 86400 + 5, 1000, 250, now);
    assert_eq!(days, 2);
    assert_eq!(traffic, 750);
    assert_eq!(percent, 25);
}
