use xero::error::{Confirmation, Field, Reason, ValidationError};
use xero::item::InventoryItem;
use xero::status::{ItemCategory, ItemStatus};
use xero::store::{describe_change, InventoryStore};

const DAY: u64 = 86_400_000_000_000;
const NOW: u64 = 1_700_000_000_000_000_000;

fn s(text: &str) -> String {
    text.to_string()
}

fn bits(price: f64) -> u64 {
    price.to_bits()
}

fn add(
    store: &mut InventoryStore,
    id: &str,
    barcode: &str,
    name: &str,
    quantity: u32,
    price: f64,
) -> Result<Confirmation, ValidationError> {
    store.add_or_update_item(
        s(id),
        s(barcode),
        s(name),
        Some(ItemCategory::Grocery),
        quantity,
        NOW + 30 * DAY,
        bits(price),
        s("system"),
        NOW,
    )
}

fn five_items() -> InventoryStore {
    let mut store = InventoryStore::new();
    for i in 0..5u32 {
        let id = format!("I{}", i);
        let barcode = format!("B{}", i);
        let name = format!("Item {}", i);
        assert_eq!(add(&mut store, &id, &barcode, &name, 20 + i, 1.5), Ok(Confirmation::Created));
    }
    store
}

fn ids(items: &[InventoryItem]) -> Vec<String> {
    items.iter().map(|it| it.item_id.clone()).collect()
}

#[test]
fn new_store_is_empty() {
    let store = InventoryStore::new();
    assert_eq!(store.len(), 0);
    assert!(store.get_item(s("A1")).is_err());
    assert_eq!(store.get_all_items(None, None).total, 0);
}

#[test]
fn add_then_get_returns_the_inputs() {
    let mut store = InventoryStore::new();
    let r = store.add_or_update_item(
        s("A7"),
        s("4006381333931"),
        s("Rye bread"),
        Some(ItemCategory::Bakery),
        40,
        NOW + 3 * DAY,
        bits(2.25),
        s("alice"),
        NOW,
    );
    assert_eq!(r, Ok(Confirmation::Created));
    let item = store.get_item(s("A7")).unwrap();
    assert_eq!(item.item_id, "A7");
    assert_eq!(item.barcode, "4006381333931");
    assert_eq!(item.name, "Rye bread");
    assert_eq!(item.category, Some(ItemCategory::Bakery));
    assert_eq!(item.quantity, 40);
    assert_eq!(item.expiration_date, NOW + 3 * DAY);
    assert_eq!(f64::from_bits(item.price), 2.25);
    assert_eq!(item.last_updated, NOW);
    assert_eq!(item.status, ItemStatus::ExpiringSoon);
    assert_eq!(item.audit_trail.len(), 1);
    assert_eq!(item.audit_trail[0].timestamp, NOW);
    assert_eq!(item.audit_trail[0].action, "add_or_update");
    assert_eq!(item.audit_trail[0].actor, "alice");
}

#[test]
fn milk_is_low_in_stock_though_it_expires_soon() {
    let mut store = InventoryStore::new();
    let r = store.add_or_update_item(
        s("A1"),
        s("123"),
        s("Milk"),
        None,
        5,
        NOW + 2 * DAY,
        bits(3.5),
        s("system"),
        NOW,
    );
    assert_eq!(r, Ok(Confirmation::Created));
    let item = store.get_item(s("A1")).unwrap();
    assert_eq!(item.status, ItemStatus::LowStock);
    assert_eq!(item.quantity, 5);
    assert_eq!(f64::from_bits(item.price), 3.5);
}

#[test]
fn out_of_stock_and_expired_reports_out_of_stock() {
    let mut store = InventoryStore::new();
    let r = store.add_or_update_item(
        s("Z"),
        s("999"),
        s("Old yoghurt"),
        Some(ItemCategory::Dairy),
        0,
        NOW - DAY,
        bits(0.99),
        s("system"),
        NOW,
    );
    assert_eq!(r, Ok(Confirmation::Created));
    assert_eq!(store.get_item(s("Z")).unwrap().status, ItemStatus::OutOfStock);
}

#[test]
fn audit_details_name_quantity_and_price_bits() {
    let mut store = InventoryStore::new();
    add(&mut store, "A1", "123", "Milk", 5, 3.5).unwrap();
    let item = store.get_item(s("A1")).unwrap();
    assert_eq!(
        item.audit_trail[0].details,
        "Updated quantity: 5, price bits: 0x400c000000000000"
    );
    add(&mut store, "A1", "123", "Milk", 17, 1.0).unwrap();
    let item = store.get_item(s("A1")).unwrap();
    assert_eq!(
        item.audit_trail[1].details,
        "Updated quantity: 17, price bits: 0x3ff0000000000000"
    );
}

#[test]
fn a_change_is_worded_with_decimal_quantity_and_hexadecimal_bits() {
    for quantity in [0u32, 1, 9, 10, 99, 100, 4_294_967_295] {
        for price in [0.0f64, 0.01, 3.5, 1e300, f64::INFINITY, -2.0] {
            assert_eq!(
                describe_change(quantity, price.to_bits()),
                format!("Updated quantity: {}, price bits: {:#018x}", quantity, price.to_bits())
            );
        }
    }
}

#[test]
fn writing_twice_leaves_one_item_with_two_entries() {
    let mut store = InventoryStore::new();
    assert_eq!(add(&mut store, "A1", "123", "Milk", 5, 3.5), Ok(Confirmation::Created));
    assert_eq!(add(&mut store, "A1", "123", "Milk", 5, 3.5), Ok(Confirmation::Updated));
    assert_eq!(store.len(), 1);
    assert_eq!(store.get_all_items(None, None).total, 1);
    let item = store.get_item(s("A1")).unwrap();
    assert_eq!(item.audit_trail.len(), 2);
    assert_eq!(item.audit_trail[0].details, item.audit_trail[1].details);
}

#[test]
fn update_overwrites_fields_and_keeps_the_place() {
    let mut store = five_items();
    let r = store.add_or_update_item(
        s("I2"),
        s("B2"),
        s("Renamed"),
        Some(ItemCategory::Meat),
        3,
        NOW + 90 * DAY,
        bits(8.0),
        s("carol"),
        NOW + 5,
    );
    assert_eq!(r, Ok(Confirmation::Updated));
    assert_eq!(store.len(), 5);
    let item = store.get_item(s("I2")).unwrap();
    assert_eq!(item.name, "Renamed");
    assert_eq!(item.category, Some(ItemCategory::Meat));
    assert_eq!(item.quantity, 3);
    assert_eq!(item.status, ItemStatus::LowStock);
    assert_eq!(item.last_updated, NOW + 5);
    assert_eq!(item.audit_trail.len(), 2);
    assert_eq!(item.audit_trail[1].actor, "carol");
    let page = store.get_all_items(None, None);
    assert_eq!(ids(&page.items), vec!["I0", "I1", "I2", "I3", "I4"]);
    assert_eq!(store.get_item(s("I3")).unwrap().name, "Item 3");
}

#[test]
fn every_barcode_resolves_to_its_item() {
    let store = five_items();
    for i in 0..5 {
        let item = store.get_item_by_barcode(format!("B{}", i)).unwrap();
        assert_eq!(item.item_id, format!("I{}", i));
        assert_eq!(item.barcode, format!("B{}", i));
    }
    let miss = store.get_item_by_barcode(s("B9")).unwrap_err();
    assert_eq!(miss.key, "B9");
    assert_eq!(miss.barcode_message(), "Item with barcode 'B9' not found");
}

#[test]
fn a_changed_barcode_leaves_the_old_one_unresolved() {
    let mut store = five_items();
    assert_eq!(add(&mut store, "I1", "NEW", "Item 1", 21, 1.5), Ok(Confirmation::Updated));
    assert!(store.get_item_by_barcode(s("B1")).is_err());
    assert_eq!(store.get_item_by_barcode(s("NEW")).unwrap().item_id, "I1");
    assert_eq!(store.get_item(s("I1")).unwrap().barcode, "NEW");
    assert_eq!(add(&mut store, "I9", "B1", "Item 9", 21, 1.5), Ok(Confirmation::Created));
    assert_eq!(store.get_item_by_barcode(s("B1")).unwrap().item_id, "I9");
}

#[test]
fn a_barcode_of_another_item_is_refused() {
    let mut store = five_items();
    let before = store.snapshot();
    let r = add(&mut store, "I9", "B3", "Intruder", 30, 2.0);
    assert_eq!(
        r,
        Err(ValidationError { field: Field::Barcode, reason: Reason::AlreadyInUse })
    );
    let r = add(&mut store, "I0", "B3", "Item 0", 30, 2.0);
    assert_eq!(
        r,
        Err(ValidationError { field: Field::Barcode, reason: Reason::AlreadyInUse })
    );
    assert_eq!(store.len(), 5);
    assert!(store.get_item(s("I9")).is_err());
    assert_eq!(store.get_item_by_barcode(s("B3")).unwrap().item_id, "I3");
    assert_eq!(store.get_item(s("I0")).unwrap().barcode, "B0");
    assert_eq!(ids(&store.snapshot().items), ids(&before.items));
}

#[test]
fn blank_name_is_refused() {
    let mut store = InventoryStore::new();
    for name in ["", " ", "\t\n", "\u{a0}\u{2003}\u{3000}"] {
        let r = add(&mut store, "A1", "123", name, 5, 3.5);
        assert_eq!(r, Err(ValidationError { field: Field::Name, reason: Reason::Blank }));
        assert_eq!(r.unwrap_err().message(), "Item name cannot be empty.");
    }
    assert_eq!(store.len(), 0);
    assert!(store.get_item_by_barcode(s("123")).is_err());
}

#[test]
fn blank_barcode_is_refused() {
    let mut store = InventoryStore::new();
    for barcode in ["", "   ", "\r\n"] {
        let r = add(&mut store, "A1", barcode, "Milk", 5, 3.5);
        assert_eq!(r, Err(ValidationError { field: Field::Barcode, reason: Reason::Blank }));
        assert_eq!(r.unwrap_err().message(), "Barcode cannot be empty.");
    }
    assert_eq!(store.len(), 0);
}

#[test]
fn a_price_that_is_not_positive_is_refused() {
    let mut store = InventoryStore::new();
    for price in [0.0, -0.0, -1.0, f64::NEG_INFINITY, f64::NAN, -f64::NAN] {
        let r = add(&mut store, "A1", "123", "Milk", 5, price);
        assert_eq!(r, Err(ValidationError { field: Field::Price, reason: Reason::NotPositive }));
        assert_eq!(r.unwrap_err().message(), "Price must be greater than zero.");
    }
    assert_eq!(store.len(), 0);
    for price in [f64::MIN_POSITIVE, 5e-324, 0.01, 1e300, f64::MAX, f64::INFINITY] {
        assert!(add(&mut store, "A1", "123", "Milk", 5, price).is_ok());
    }
    assert_eq!(store.len(), 1);
}

#[test]
fn the_name_is_checked_first_then_the_barcode_then_the_price() {
    let mut store = InventoryStore::new();
    let r = add(&mut store, "A1", " ", " ", 5, 0.0);
    assert_eq!(r, Err(ValidationError { field: Field::Name, reason: Reason::Blank }));
    let r = add(&mut store, "A1", " ", "Milk", 5, 0.0);
    assert_eq!(r, Err(ValidationError { field: Field::Barcode, reason: Reason::Blank }));
    let r = add(&mut store, "A1", "123", "Milk", 5, 0.0);
    assert_eq!(r, Err(ValidationError { field: Field::Price, reason: Reason::NotPositive }));
}

#[test]
fn a_refused_update_changes_nothing() {
    let mut store = five_items();
    let r = add(&mut store, "I2", "B2", "  ", 1, 9.0);
    assert!(r.is_err());
    let item = store.get_item(s("I2")).unwrap();
    assert_eq!(item.name, "Item 2");
    assert_eq!(item.quantity, 22);
    assert_eq!(item.audit_trail.len(), 1);
}

#[test]
fn get_of_a_missing_id_names_the_key() {
    let store = five_items();
    let miss = store.get_item(s("nope")).unwrap_err();
    assert_eq!(miss.key, "nope");
    assert_eq!(miss.message(), "Item with ID 'nope' not found");
}

#[test]
fn removal_forgets_the_id_and_the_barcode() {
    let mut store = five_items();
    assert_eq!(store.remove_item(s("I1")).unwrap(), Confirmation::Removed);
    assert_eq!(store.get_item(s("I1")).unwrap_err().key, "I1");
    assert_eq!(store.get_item_by_barcode(s("B1")).unwrap_err().key, "B1");
    assert_eq!(store.len(), 4);
    let page = store.get_all_items(None, None);
    assert_eq!(ids(&page.items), vec!["I0", "I2", "I3", "I4"]);
    for i in [0, 2, 3, 4] {
        assert_eq!(store.get_item_by_barcode(format!("B{}", i)).unwrap().item_id, format!("I{}", i));
    }
    assert_eq!(add(&mut store, "I7", "B1", "Item 7", 30, 2.0), Ok(Confirmation::Created));
}

#[test]
fn removal_of_a_missing_id_fails_and_changes_nothing() {
    let mut store = five_items();
    let miss = store.remove_item(s("I9")).unwrap_err();
    assert_eq!(miss.key, "I9");
    assert_eq!(store.len(), 5);
    assert_eq!(store.remove_item(s("I0")).unwrap(), Confirmation::Removed);
    assert!(store.remove_item(s("I0")).is_err());
}

#[test]
fn removed_item_comes_back_with_a_fresh_trail() {
    let mut store = InventoryStore::new();
    add(&mut store, "A1", "123", "Milk", 5, 3.5).unwrap();
    add(&mut store, "A1", "123", "Milk", 6, 3.5).unwrap();
    store.remove_item(s("A1")).unwrap();
    assert_eq!(add(&mut store, "A1", "123", "Milk", 7, 3.5), Ok(Confirmation::Created));
    assert_eq!(store.get_item(s("A1")).unwrap().audit_trail.len(), 1);
}

#[test]
fn every_refusal_has_its_sentence() {
    let say = |field, reason| ValidationError { field, reason }.message();
    assert_eq!(say(Field::Name, Reason::Blank), "Item name cannot be empty.");
    assert_eq!(say(Field::Barcode, Reason::Blank), "Barcode cannot be empty.");
    assert_eq!(say(Field::Barcode, Reason::AlreadyInUse), "Barcode is already in use.");
    assert_eq!(say(Field::Price, Reason::NotPositive), "Price must be greater than zero.");
    assert_eq!(say(Field::Price, Reason::Blank), "Price must be greater than zero.");
    assert_eq!(say(Field::Name, Reason::AlreadyInUse), "Item name is not valid.");
    assert_eq!(say(Field::Barcode, Reason::NotPositive), "Barcode is not valid.");
}
