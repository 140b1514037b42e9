//! Status and category of an item, and the rule that derives the status.

use vstd::prelude::*;

verus! {

/// At or below this quantity an item counts as low in stock.
pub const LOW_STOCK_THRESHOLD: u32 = 10;

/// Days before expiration from which an item counts as expiring soon.
pub const EXPIRING_SOON_DAYS: u64 = 7;

/// Nanoseconds in one day.
pub const NANOS_PER_DAY: u64 = 86_400_000_000_000;

/// Nanoseconds in the window of `EXPIRING_SOON_DAYS` days.
pub const EXPIRING_SOON_WINDOW: u64 = 604_800_000_000_000;

#[derive(Clone, Copy, Debug, PartialEq, Eq, Structural)]
pub enum ItemStatus {
    Active,
    ExpiringSoon,
    Expired,
    LowStock,
    OutOfStock,
}

#[derive(Clone, Copy, Debug, PartialEq, Eq, Structural)]
pub enum ItemCategory {
    Produce,
    Dairy,
    Meat,
    Bakery,
    Grocery,
    Other,
}

/// The status of an item with the given quantity and expiration at time `now`.
/// The first rule that applies wins: stock comes before freshness.
pub open spec fn derive_status(quantity: u32, expiration_date: u64, now: u64) -> ItemStatus {
    if quantity == 0 {
        ItemStatus::OutOfStock
    } else if quantity <= LOW_STOCK_THRESHOLD {
        ItemStatus::LowStock
    } else if expiration_date <= now {
        ItemStatus::Expired
    } else if expiration_date as int <= now as int + EXPIRING_SOON_WINDOW as int {
        ItemStatus::ExpiringSoon
    } else {
        ItemStatus::Active
    }
}

/// Whether an item expires at or before `days` whole days after `now`.
pub open spec fn expires_within(expiration_date: u64, now: u64, days: u64) -> bool {
    expiration_date as int <= now as int + days as int * NANOS_PER_DAY as int
}

pub fn determine_item_status(quantity: u32, expiration_date: u64, now: u64) -> (status: ItemStatus)
    ensures
        status == derive_status(quantity, expiration_date, now),
{
    if quantity == 0 {
        return ItemStatus::OutOfStock;
    }
    if quantity <= LOW_STOCK_THRESHOLD {
        return ItemStatus::LowStock;
    }
    let expiration_threshold: u64 = now.saturating_add(EXPIRING_SOON_WINDOW);
    if expiration_date <= now {
        ItemStatus::Expired
    } else if expiration_date <= expiration_threshold {
        ItemStatus::ExpiringSoon
    } else {
        ItemStatus::Active
    }
}

/// Exec form of [`expires_within`], computed without overflow.
pub fn expires_by(expiration_date: u64, now: u64, days: u64) -> (r: bool)
    ensures
        r == expires_within(expiration_date, now, days),
{
    assert(days as int * NANOS_PER_DAY as int <= 0xffff_ffff_ffff_ffff * 86_400_000_000_000)
        by (nonlinear_arith)
        requires
            0 <= days as int <= 0xffff_ffff_ffff_ffff,
            NANOS_PER_DAY as int == 86_400_000_000_000,
    ;
    let window: u128 = (days as u128) * (NANOS_PER_DAY as u128);
    let threshold: u128 = (now as u128) + window;
    (expiration_date as u128) <= threshold
}

/// An item that is out of stock reports `OutOfStock` whatever its expiration,
/// and one that is low in stock reports `LowStock` whatever its expiration.
pub proof fn law_stock_precedes_freshness(quantity: u32, expiration_date: u64, now: u64)
    ensures
        quantity == 0 ==> derive_status(quantity, expiration_date, now) == ItemStatus::OutOfStock,
        0 < quantity <= LOW_STOCK_THRESHOLD ==> derive_status(quantity, expiration_date, now)
            == ItemStatus::LowStock,
        quantity > LOW_STOCK_THRESHOLD ==> derive_status(quantity, expiration_date, now)
            != ItemStatus::OutOfStock && derive_status(quantity, expiration_date, now)
            != ItemStatus::LowStock,
{
}

} // verus!
