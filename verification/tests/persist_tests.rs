use xero::item::InventoryItem;
use xero::persist::{is_consistent, SerializedState};
use xero::query::SearchCriteria;
use xero::status::ItemCategory;
use xero::store::{IndexEntry, InventoryStore};

const DAY: u64 = 86_400_000_000_000;
const NOW: u64 = 1_700_000_000_000_000_000;

fn s(text: &str) -> String {
    text.to_string()
}

fn populated() -> InventoryStore {
    let mut store = InventoryStore::new();
    for i in 0..4u32 {
        for round in 0..=i {
            store
                .add_or_update_item(
                    format!("I{}", i),
                    format!("B{}", i),
                    format!("Item {}", i),
                    Some(ItemCategory::Produce),
                    5 * i + round,
                    NOW + (i as u64) * DAY,
                    (1.0 + i as f64).to_bits(),
                    format!("actor{}", round),
                    NOW + round as u64,
                )
                .unwrap();
        }
    }
    store
}

fn describe(item: &InventoryItem) -> String {
    format!("{:?}", item)
}

fn copy_of(state: &SerializedState) -> SerializedState {
    SerializedState { items: state.items.clone(), barcode_index: state.barcode_index.clone() }
}

#[test]
fn snapshot_holds_table_and_index() {
    let store = populated();
    let state = store.snapshot();
    assert_eq!(state.items.len(), 4);
    assert_eq!(state.barcode_index.len(), 4);
    for (i, entry) in state.barcode_index.iter().enumerate() {
        assert_eq!(entry.barcode, format!("B{}", i));
        assert_eq!(entry.item_id, format!("I{}", i));
        assert_eq!(state.items[i].item_id, format!("I{}", i));
        assert_eq!(state.items[i].audit_trail.len(), i + 1);
    }
    assert!(is_consistent(&state));
}

#[test]
fn restore_of_a_snapshot_gives_the_same_store() {
    let store = populated();
    let back = InventoryStore::restore(store.snapshot()).unwrap();
    assert_eq!(back.len(), store.len());
    for i in 0..4 {
        let id = format!("I{}", i);
        let a = store.get_item(id.clone()).unwrap();
        let b = back.get_item(id).unwrap();
        assert_eq!(describe(&a), describe(&b));
        assert_eq!(b.audit_trail.len(), i + 1);
        let by_code = back.get_item_by_barcode(format!("B{}", i)).unwrap();
        assert_eq!(describe(&by_code), describe(&a));
    }
    assert!(back.get_item(s("I4")).is_err());
    assert!(back.get_item_by_barcode(s("B4")).is_err());
    let all = SearchCriteria {
        keyword: Some(s("item")),
        category: None,
        status: None,
        min_quantity: Some(6),
        max_price: None,
    };
    let found_a: Vec<String> = store.search_inventory(&all).iter().map(describe).collect();
    let found_b: Vec<String> = back.search_inventory(&all).iter().map(describe).collect();
    assert_eq!(found_a, found_b);
    assert_eq!(found_a.len(), 3);
    let page_a: Vec<String> = store.get_all_items(Some(2), Some(3)).items.iter().map(describe).collect();
    let page_b: Vec<String> = back.get_all_items(Some(2), Some(3)).items.iter().map(describe).collect();
    assert_eq!(page_a, page_b);
    assert_eq!(page_a.len(), 1);
    assert_eq!(format!("{:?}", back.snapshot()), format!("{:?}", store.snapshot()));
}

#[test]
fn restore_of_the_empty_state_gives_the_empty_store() {
    let back = InventoryStore::restore(InventoryStore::new().snapshot()).unwrap();
    assert_eq!(back.len(), 0);
}

#[test]
fn a_restored_store_takes_writes() {
    let mut back = InventoryStore::restore(populated().snapshot()).unwrap();
    back.remove_item(s("I0")).unwrap();
    back.add_or_update_item(
        s("I9"),
        s("B0"),
        s("Item 9"),
        None,
        1,
        NOW,
        1.0f64.to_bits(),
        s("system"),
        NOW,
    )
    .unwrap();
    assert_eq!(back.get_item_by_barcode(s("B0")).unwrap().item_id, "I9");
    assert_eq!(back.get_item(s("I3")).unwrap().audit_trail.len(), 4);
}

#[test]
fn restore_refuses_an_index_with_a_wrong_id() {
    let mut state = populated().snapshot();
    state.barcode_index[2].item_id = s("I0");
    assert!(!is_consistent(&state));
    assert!(InventoryStore::restore(state).is_err());
}

#[test]
fn restore_refuses_an_index_with_a_wrong_barcode() {
    let mut state = populated().snapshot();
    state.barcode_index[1].barcode = s("other");
    assert!(InventoryStore::restore(state).is_err());
}

#[test]
fn restore_refuses_an_index_that_lacks_an_entry() {
    let mut state = populated().snapshot();
    state.barcode_index.pop();
    assert!(InventoryStore::restore(copy_of(&state)).is_err());
    state.barcode_index.clear();
    assert!(InventoryStore::restore(state).is_err());
}

#[test]
fn restore_refuses_an_index_with_an_entry_too_many() {
    let mut state = populated().snapshot();
    state.barcode_index.push(IndexEntry { barcode: s("B9"), item_id: s("I9") });
    assert!(InventoryStore::restore(state).is_err());
}

#[test]
fn restore_takes_an_index_in_another_order() {
    let store = populated();
    let mut state = store.snapshot();
    state.barcode_index.swap(0, 3);
    state.barcode_index.swap(1, 2);
    assert!(is_consistent(&state));
    let back = InventoryStore::restore(state).unwrap();
    assert_eq!(format!("{:?}", back.snapshot()), format!("{:?}", store.snapshot()));
    for i in 0..4 {
        assert_eq!(back.get_item_by_barcode(format!("B{}", i)).unwrap().item_id, format!("I{}", i));
    }
}

#[test]
fn restore_refuses_an_index_that_lists_a_barcode_twice() {
    let mut state = populated().snapshot();
    state.barcode_index[3] = IndexEntry { barcode: s("B0"), item_id: s("I0") };
    assert!(!is_consistent(&state));
    assert!(InventoryStore::restore(state).is_err());
}

#[test]
fn restore_refuses_entries_that_swap_their_ids() {
    let mut state = populated().snapshot();
    state.barcode_index[0].item_id = s("I1");
    state.barcode_index[1].item_id = s("I0");
    assert!(InventoryStore::restore(state).is_err());
}

#[test]
fn restore_refuses_two_items_with_one_id() {
    let mut state = populated().snapshot();
    state.items[3].item_id = s("I0");
    state.barcode_index[3].item_id = s("I0");
    assert!(InventoryStore::restore(state).is_err());
}

#[test]
fn restore_refuses_two_items_with_one_barcode() {
    let mut state = populated().snapshot();
    state.items[3].barcode = s("B1");
    state.barcode_index[3].barcode = s("B1");
    assert!(InventoryStore::restore(state).is_err());
}
