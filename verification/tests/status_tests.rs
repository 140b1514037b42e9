use xero::status::{determine_item_status, expires_by, ItemStatus};

const DAY: u64 = 86_400_000_000_000;

#[test]
fn out_of_stock_beats_expired() {
    let now = 100 * DAY;
    assert_eq!(determine_item_status(0, now - 1, now), ItemStatus::OutOfStock);
    assert_eq!(determine_item_status(0, now + 100 * DAY, now), ItemStatus::OutOfStock);
}

#[test]
fn low_stock_beats_expiring_soon() {
    let now = 100 * DAY;
    assert_eq!(determine_item_status(5, now + 2 * DAY, now), ItemStatus::LowStock);
    assert_eq!(determine_item_status(10, now - 1, now), ItemStatus::LowStock);
}

#[test]
fn freshness_rules_in_order() {
    let now = 100 * DAY;
    assert_eq!(determine_item_status(11, now, now), ItemStatus::Expired);
    assert_eq!(determine_item_status(11, now + 1, now), ItemStatus::ExpiringSoon);
    assert_eq!(determine_item_status(11, now + 7 * DAY, now), ItemStatus::ExpiringSoon);
    assert_eq!(determine_item_status(11, now + 7 * DAY + 1, now), ItemStatus::Active);
}

#[test]
fn window_saturates_at_the_end_of_time() {
    let now = u64::MAX - 5;
    assert_eq!(determine_item_status(11, u64::MAX, now), ItemStatus::ExpiringSoon);
    assert_eq!(determine_item_status(11, now, now), ItemStatus::Expired);
}

#[test]
fn expires_by_counts_whole_days() {
    let now = 10 * DAY;
    assert!(expires_by(now + 3 * DAY, now, 3));
    assert!(!expires_by(now + 3 * DAY + 1, now, 3));
    assert!(expires_by(5, now, 0));
    assert!(expires_by(u64::MAX, now, u64::MAX));
}
