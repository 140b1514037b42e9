//! Saving the whole state of a store, and making a store of a saved state.

use vstd::prelude::*;
use vstd::string::*;
use crate::error::IntegrityError;
use crate::item::{items_view, InventoryItem, ItemView};
use crate::store::{index_view, IndexEntry, IndexEntryView, InventoryStore, StoreView};

verus! {

/// The whole state of a store as two ordered sequences: the item table, and
/// the barcode index.
#[derive(Debug)]
pub struct SerializedState {
    pub items: Vec<InventoryItem>,
    pub barcode_index: Vec<IndexEntry>,
}

impl View for SerializedState {
    type V = StoreView;

    open spec fn view(&self) -> StoreView {
        StoreView { items: items_view(self.items@), index: index_view(self.barcode_index@) }
    }
}

/// The index entry of an item.
pub open spec fn entry_of(item: ItemView) -> IndexEntryView {
    IndexEntryView { barcode: item.barcode, item_id: item.item_id }
}

/// The index of a table: the entry of each item, in table order.
pub open spec fn index_of(items: Seq<ItemView>) -> Seq<IndexEntryView> {
    items.map_values(|item: ItemView| entry_of(item))
}

/// Whether the item at `i` and the index entry at `k` belong together.
pub open spec fn paired(state: StoreView, i: int, k: int) -> bool {
    &&& 0 <= i < state.items.len()
    &&& 0 <= k < state.index.len()
    &&& state.index[k] == entry_of(state.items[i])
}

/// Whether the entry at `k` is that of an item.
pub open spec fn entry_is_paired(state: StoreView, k: int) -> bool {
    exists|i: int| paired(state, i, k)
}

/// Whether the item at `i` has its entry.
pub open spec fn item_is_paired(state: StoreView, i: int) -> bool {
    exists|k: int| paired(state, i, k)
}

/// Whether the index of a saved state matches its item table: no two items
/// share an id or a barcode, no barcode is listed twice, each entry is that
/// of an item, and each item has its entry. The order of the entries does
/// not count.
pub open spec fn matches_table(state: StoreView) -> bool {
    &&& state.index.len() == state.items.len()
    &&& forall|i: int, j: int|
        0 <= i < j < state.items.len() ==> (#[trigger] state.items[i]).item_id != (
        #[trigger] state.items[j]).item_id
    &&& forall|i: int, j: int|
        0 <= i < j < state.items.len() ==> (#[trigger] state.items[i]).barcode != (
        #[trigger] state.items[j]).barcode
    &&& forall|k: int, l: int|
        0 <= k < l < state.index.len() ==> (#[trigger] state.index[k]).barcode != (
        #[trigger] state.index[l]).barcode
    &&& forall|k: int| 0 <= k < state.index.len() ==> #[trigger] entry_is_paired(state, k)
    &&& forall|i: int| 0 <= i < state.items.len() ==> #[trigger] item_is_paired(state, i)
}

/// What restoring makes of a saved state: where the index matches the table,
/// the table as it is with its index in table order, and nothing otherwise.
pub open spec fn restored(state: StoreView) -> Option<StoreView> {
    if matches_table(state) {
        Some(StoreView { items: state.items, index: index_of(state.items) })
    } else {
        None
    }
}

/// A copy of a table, item by item.
fn clone_items(items: &Vec<InventoryItem>) -> (r: Vec<InventoryItem>)
    ensures
        items_view(r@) == items_view(items@),
{
    let mut out: Vec<InventoryItem> = Vec::new();
    let mut i: usize = 0;
    while i < items.len()
        invariant
            i <= items.len(),
            out.len() == i,
            forall|j: int| 0 <= j < i ==> out@[j]@ == items@[j]@,
        decreases items.len() - i,
    {
        out.push(items[i].clone());
        i += 1;
    }
    assert(items_view(out@) =~= items_view(items@));
    out
}

/// A copy of an index, entry by entry.
fn clone_index(index: &Vec<IndexEntry>) -> (r: Vec<IndexEntry>)
    ensures
        index_view(r@) == index_view(index@),
{
    let mut out: Vec<IndexEntry> = Vec::new();
    let mut i: usize = 0;
    while i < index.len()
        invariant
            i <= index.len(),
            out.len() == i,
            forall|j: int| 0 <= j < i ==> out@[j]@ == index@[j]@,
        decreases index.len() - i,
    {
        out.push(index[i].clone());
        i += 1;
    }
    assert(index_view(out@) =~= index_view(index@));
    out
}

/// Whether no two items of the table share an id or a barcode.
fn items_distinct(items: &Vec<InventoryItem>) -> (r: bool)
    ensures
        r == (forall|i: int, j: int|
            0 <= i < j < items@.len() ==> (#[trigger] items_view(items@)[i]).item_id != (
            #[trigger] items_view(items@)[j]).item_id && items_view(items@)[i].barcode
                != items_view(items@)[j].barcode),
{
    let ghost v = items_view(items@);
    let n: usize = items.len();
    let mut i: usize = 0;
    while i < n
        invariant
            i <= n,
            n == items.len(),
            v == items_view(items@),
            forall|a: int, b: int|
                0 <= a < b < n && a < i ==> (#[trigger] v[a]).item_id != (#[trigger] v[b]).item_id
                    && v[a].barcode != v[b].barcode,
        decreases n - i,
    {
        let mut j: usize = i + 1;
        while j < n
            invariant
                i < j <= n,
                n == items.len(),
                v == items_view(items@),
                forall|b: int|
                    i < b < j ==> v[i as int].item_id != (#[trigger] v[b]).item_id
                        && v[i as int].barcode != v[b].barcode,
            decreases n - j,
        {
            if items[i].item_id == items[j].item_id || items[i].barcode == items[j].barcode {
                assert(v[i as int].item_id == v[j as int].item_id || v[i as int].barcode
                    == v[j as int].barcode);
                return false;
            }
            j += 1;
        }
        i += 1;
    }
    true
}

/// Whether no barcode is listed twice.
fn listing_distinct(index: &Vec<IndexEntry>) -> (r: bool)
    ensures
        r == (forall|k: int, l: int|
            0 <= k < l < index@.len() ==> (#[trigger] index_view(index@)[k]).barcode != (
            #[trigger] index_view(index@)[l]).barcode),
{
    let ghost v = index_view(index@);
    let n: usize = index.len();
    let mut k: usize = 0;
    while k < n
        invariant
            k <= n,
            n == index.len(),
            v == index_view(index@),
            forall|a: int, b: int|
                0 <= a < b < n && a < k ==> (#[trigger] v[a]).barcode != (#[trigger] v[b]).barcode,
        decreases n - k,
    {
        let mut l: usize = k + 1;
        while l < n
            invariant
                k < l <= n,
                n == index.len(),
                v == index_view(index@),
                forall|b: int| k < b < l ==> v[k as int].barcode != (#[trigger] v[b]).barcode,
            decreases n - l,
        {
            if index[k].barcode == index[l].barcode {
                assert(v[k as int].barcode == v[l as int].barcode);
                return false;
            }
            l += 1;
        }
        k += 1;
    }
    true
}

/// Whether the entry at `k` is that of an item.
fn entry_has_item(state: &SerializedState, k: usize) -> (r: bool)
    requires
        k < state.barcode_index@.len(),
    ensures
        r == entry_is_paired(state@, k as int),
{
    let entry = &state.barcode_index[k];
    assert(state@.index[k as int] == entry@);
    let mut i: usize = 0;
    while i < state.items.len()
        invariant
            i <= state.items.len(),
            k < state.barcode_index@.len(),
            state@.index[k as int] == entry@,
            forall|a: int| 0 <= a < i ==> !paired(state@, a, k as int),
        decreases state.items.len() - i,
    {
        let item = &state.items[i];
        assert(state@.items[i as int] == item@);
        if entry.barcode == item.barcode && entry.item_id == item.item_id {
            assert(paired(state@, i as int, k as int));
            return true;
        }
        i += 1;
    }
    false
}

/// Whether the item at `i` has its entry.
fn item_has_entry(state: &SerializedState, i: usize) -> (r: bool)
    requires
        i < state.items@.len(),
    ensures
        r == item_is_paired(state@, i as int),
{
    let item = &state.items[i];
    assert(state@.items[i as int] == item@);
    let mut k: usize = 0;
    while k < state.barcode_index.len()
        invariant
            k <= state.barcode_index.len(),
            i < state.items@.len(),
            state@.items[i as int] == item@,
            forall|a: int| 0 <= a < k ==> !paired(state@, i as int, a),
        decreases state.barcode_index.len() - k,
    {
        let entry = &state.barcode_index[k];
        assert(state@.index[k as int] == entry@);
        if entry.barcode == item.barcode && entry.item_id == item.item_id {
            assert(paired(state@, i as int, k as int));
            return true;
        }
        k += 1;
    }
    false
}

/// Whether the index of a saved state matches its item table.
pub fn is_consistent(state: &SerializedState) -> (r: bool)
    ensures
        r == matches_table(state@),
{
    if state.barcode_index.len() != state.items.len() {
        return false;
    }
    if !items_distinct(&state.items) || !listing_distinct(&state.barcode_index) {
        return false;
    }
    let mut k: usize = 0;
    while k < state.barcode_index.len()
        invariant
            k <= state.barcode_index.len(),
            forall|a: int| 0 <= a < k ==> #[trigger] entry_is_paired(state@, a),
        decreases state.barcode_index.len() - k,
    {
        if !entry_has_item(state, k) {
            return false;
        }
        k += 1;
    }
    let mut i: usize = 0;
    while i < state.items.len()
        invariant
            i <= state.items.len(),
            forall|a: int| 0 <= a < i ==> #[trigger] item_is_paired(state@, a),
        decreases state.items.len() - i,
    {
        if !item_has_entry(state, i) {
            return false;
        }
        i += 1;
    }
    true
}

/// The index of a table, in table order.
fn build_index(items: &Vec<InventoryItem>) -> (r: Vec<IndexEntry>)
    ensures
        index_view(r@) == index_of(items_view(items@)),
{
    let mut out: Vec<IndexEntry> = Vec::new();
    let mut i: usize = 0;
    while i < items.len()
        invariant
            i <= items.len(),
            out.len() == i,
            forall|j: int| 0 <= j < i ==> out@[j]@ == entry_of(items@[j]@),
        decreases items.len() - i,
    {
        out.push(
            IndexEntry { barcode: items[i].barcode.clone(), item_id: items[i].item_id.clone() },
        );
        i += 1;
    }
    assert(index_view(out@) =~= index_of(items_view(items@)));
    out
}

impl InventoryStore {
    /// The whole state: the item table with every audit trail, and the
    /// barcode index.
    pub fn snapshot(&self) -> (state: SerializedState)
        ensures
            state@ == self@,
    {
        SerializedState {
            items: clone_items(self.table()),
            barcode_index: clone_index(self.index_entries()),
        }
    }

    /// A store with the saved table as it is. A state whose index does not
    /// match its table is refused, not mended.
    pub fn restore(state: SerializedState) -> (r: Result<InventoryStore, IntegrityError>)
        ensures
            match restored(state@) {
                Some(v) => r is Ok && r->Ok_0.wf() && r->Ok_0@ == v,
                None => r is Err,
            },
    {
        if is_consistent(&state) {
            let index = build_index(&state.items);
            proof {
                lemma_restored_coherent(state@);
            }
            Ok(InventoryStore::from_parts(state.items, index))
        } else {
            Err(IntegrityError {})
        }
    }
}

/// What restoring makes of a state that matches is a state of a store.
pub proof fn lemma_restored_coherent(state: StoreView)
    requires
        matches_table(state),
    ensures
        restored(state)->0.coherent(),
{
}

/// A state of a store matches, and its index is in table order.
pub proof fn lemma_coherent_matches(v: StoreView)
    requires
        v.coherent(),
    ensures
        matches_table(v),
        index_of(v.items) == v.index,
{
    assert(index_of(v.items) =~= v.index) by {
        assert forall|i: int| 0 <= i < v.items.len() implies index_of(v.items)[i] == v.index[i] by {
            assert(v.index[i].barcode == v.items[i].barcode);
        }
    }
    assert forall|k: int, l: int| 0 <= k < l < v.index.len() implies (#[trigger] v.index[k]).barcode
        != (#[trigger] v.index[l]).barcode by {
        assert(v.items[k].barcode != v.items[l].barcode);
    }
    assert forall|k: int| 0 <= k < v.index.len() implies #[trigger] entry_is_paired(v, k) by {
        assert(v.index[k].barcode == v.items[k].barcode);
        assert(paired(v, k, k));
    }
    assert forall|i: int| 0 <= i < v.items.len() implies #[trigger] item_is_paired(v, i) by {
        assert(v.index[i].barcode == v.items[i].barcode);
        assert(paired(v, i, i));
    }
}

/// Restoring what was saved of a store gives a store with the same view:
/// the same items in the same order with the same audit trails, and the same
/// index. Every lookup, search and page is a function of that view.
pub proof fn law_round_trip(store: &InventoryStore, state: &SerializedState)
    requires
        store.wf(),
        state@ == store@,
    ensures
        restored(state@) == Some(store@),
{
    lemma_coherent_matches(store@);
}

/// A saved state with the entries of its index in another order is restored
/// to the same store.
pub proof fn law_order_of_entries_does_not_count(a: StoreView, b: StoreView)
    requires
        a.items == b.items,
        matches_table(a),
        matches_table(b),
    ensures
        restored(a) == restored(b),
{
}

} // verus!
