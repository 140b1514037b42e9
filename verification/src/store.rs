//! The inventory store: the item table and the barcode index, written
//! together and read by id or by barcode.

use vstd::prelude::*;
use vstd::string::*;
use crate::error::{Confirmation, Field, NotFoundError, Reason, ValidationError};
use crate::item::{items_view, clone_trail, AuditEntry, AuditLog, InventoryItem, ItemView};
use crate::price::{is_positive, price_is_positive};
use crate::status::{derive_status, determine_item_status, ItemCategory};
use crate::text::{blank, decimal, decimal_text, hex, hex_text, is_blank};

verus! {

/// One entry of the barcode index: the barcode and the id of its item.
#[derive(Debug)]
pub struct IndexEntry {
    pub barcode: String,
    pub item_id: String,
}

/// What an `IndexEntry` says.
pub struct IndexEntryView {
    pub barcode: Seq<char>,
    pub item_id: Seq<char>,
}

impl View for IndexEntry {
    type V = IndexEntryView;

    open spec fn view(&self) -> IndexEntryView {
        IndexEntryView { barcode: self.barcode@, item_id: self.item_id@ }
    }
}

impl Clone for IndexEntry {
    fn clone(&self) -> (r: Self)
        ensures
            r@ == self@,
    {
        IndexEntry { barcode: self.barcode.clone(), item_id: self.item_id.clone() }
    }
}

/// The entries of an index, in order.
pub open spec fn index_view(index: Seq<IndexEntry>) -> Seq<IndexEntryView> {
    index.map_values(|e: IndexEntry| e@)
}

/// The state of a store: the item table in insertion order, and the barcode
/// index.
pub struct StoreView {
    pub items: Seq<ItemView>,
    pub index: Seq<IndexEntryView>,
}

/// The item that a write with these inputs leaves, but for its audit trail.
pub open spec fn drafted(
    item_id: Seq<char>,
    barcode: Seq<char>,
    name: Seq<char>,
    category: Option<ItemCategory>,
    quantity: u32,
    expiration_date: u64,
    price: u64,
    now: u64,
) -> ItemView {
    ItemView {
        item_id,
        barcode,
        name,
        category,
        quantity,
        expiration_date,
        price,
        last_updated: now,
        status: derive_status(quantity, expiration_date, now),
        audit_trail: Seq::empty(),
    }
}

/// The text that describes a write of this quantity and price: the quantity
/// in decimal digits, the bits of the price as sixteen hexadecimal digits.
pub open spec fn change_details(quantity: u32, price: u64) -> Seq<char> {
    "Updated quantity: "@ + decimal_text(quantity as nat) + ", price bits: 0x"@ + hex_text(
        price as nat,
        16,
    )
}

/// The audit entry that a write by `actor` at `now` leaves.
pub open spec fn write_entry(now: u64, actor: Seq<char>, quantity: u32, price: u64) -> AuditEntry {
    AuditEntry {
        timestamp: now,
        action: "add_or_update"@,
        details: change_details(quantity, price),
        actor,
    }
}

/// Words a write of this quantity and price for the audit trail.
pub fn describe_change(quantity: u32, price: u64) -> (r: String)
    ensures
        r@ == change_details(quantity, price),
{
    let head = String::from_str("Updated quantity: ");
    let with_quantity = head.concat(decimal(quantity as u64).as_str());
    let with_label = with_quantity.concat(", price bits: 0x");
    with_label.concat(hex(price, 16).as_str())
}

/// The item `draft` with the trail `trail`.
pub open spec fn with_trail(draft: ItemView, trail: Seq<AuditEntry>) -> ItemView {
    ItemView { audit_trail: trail, ..draft }
}

impl StoreView {
    /// The invariant of a store. No two items share an id or a barcode, and
    /// the index lists, in table order, each item's barcode with its id: one
    /// entry for each barcode that an item holds, and no other.
    pub open spec fn coherent(self) -> bool {
        &&& self.index.len() == self.items.len()
        &&& forall|i: int|
            0 <= i < self.items.len() ==> (#[trigger] self.index[i]).barcode
                == self.items[i].barcode && self.index[i].item_id == self.items[i].item_id
        &&& forall|i: int, j: int|
            0 <= i < j < self.items.len() ==> (#[trigger] self.items[i]).item_id != (
            #[trigger] self.items[j]).item_id
        &&& forall|i: int, j: int|
            0 <= i < j < self.items.len() ==> (#[trigger] self.items[i]).barcode != (
            #[trigger] self.items[j]).barcode
    }

    /// Whether the table holds the item at `i` under the id `id`.
    pub open spec fn holds_at(self, id: Seq<char>, i: int) -> bool {
        0 <= i < self.items.len() && self.items[i].item_id == id
    }

    /// Whether the table holds an item with the id `id`.
    pub open spec fn has_item(self, id: Seq<char>) -> bool {
        exists|i: int| self.holds_at(id, i)
    }

    /// The place of the item with the id `id`, where there is one.
    pub open spec fn position(self, id: Seq<char>) -> int {
        choose|i: int| self.holds_at(id, i)
    }

    /// The item with the id `id`.
    pub open spec fn item(self, id: Seq<char>) -> Option<ItemView> {
        if self.has_item(id) {
            Some(self.items[self.position(id)])
        } else {
            None
        }
    }

    /// Whether the index lists `barcode` at `k`.
    pub open spec fn listed_at(self, barcode: Seq<char>, k: int) -> bool {
        0 <= k < self.index.len() && self.index[k].barcode == barcode
    }

    /// The id that the index gives for `barcode`.
    pub open spec fn owner(self, barcode: Seq<char>) -> Option<Seq<char>> {
        if exists|k: int| self.listed_at(barcode, k) {
            Some(self.index[choose|k: int| self.listed_at(barcode, k)].item_id)
        } else {
            None
        }
    }

    /// The item that the index gives for `barcode`: the index decides, the
    /// table is not searched for the barcode.
    pub open spec fn item_by_barcode(self, barcode: Seq<char>) -> Option<ItemView> {
        match self.owner(barcode) {
            Some(id) => self.item(id),
            None => None,
        }
    }

    /// Whether an item other than `id` holds `barcode`.
    pub open spec fn barcode_taken(self, id: Seq<char>, barcode: Seq<char>) -> bool {
        exists|i: int|
            0 <= i < self.items.len() && (#[trigger] self.items[i]).barcode == barcode
                && self.items[i].item_id != id
    }

    /// Why a write is refused, if it is. The checks come in this order: the
    /// name, the barcode, the price, and that no other item holds the barcode.
    pub open spec fn refusal(
        self,
        id: Seq<char>,
        barcode: Seq<char>,
        name: Seq<char>,
        price: u64,
    ) -> Option<ValidationError> {
        if blank(name) {
            Some(ValidationError { field: Field::Name, reason: Reason::Blank })
        } else if blank(barcode) {
            Some(ValidationError { field: Field::Barcode, reason: Reason::Blank })
        } else if !is_positive(price) {
            Some(ValidationError { field: Field::Price, reason: Reason::NotPositive })
        } else if self.barcode_taken(id, barcode) {
            Some(ValidationError { field: Field::Barcode, reason: Reason::AlreadyInUse })
        } else {
            None
        }
    }

    /// The state after an accepted write of `draft` with the audit entry
    /// `entry`. An item with that id is replaced in its place and its trail
    /// grows by the entry; otherwise the item comes last with the entry as
    /// its whole trail. The index entry is written at the same place.
    pub open spec fn written(self, draft: ItemView, entry: AuditEntry) -> StoreView {
        let listing = IndexEntryView { barcode: draft.barcode, item_id: draft.item_id };
        if self.has_item(draft.item_id) {
            let i = self.position(draft.item_id);
            StoreView {
                items: self.items.update(
                    i,
                    with_trail(draft, self.items[i].audit_trail.push(entry)),
                ),
                index: self.index.update(i, listing),
            }
        } else {
            StoreView {
                items: self.items.push(with_trail(draft, seq![entry])),
                index: self.index.push(listing),
            }
        }
    }

    /// The state after the item with the id `id` has left, with its index
    /// entry.
    pub open spec fn removed(self, id: Seq<char>) -> StoreView {
        let i = self.position(id);
        StoreView { items: self.items.remove(i), index: self.index.remove(i) }
    }

    /// In a coherent state the place of an id is the one place where it is.
    pub proof fn lemma_position(self, id: Seq<char>, i: int)
        requires
            self.coherent(),
            self.holds_at(id, i),
        ensures
            self.has_item(id),
            self.position(id) == i,
            self.item(id) == Some(self.items[i]),
    {
        let p = self.position(id);
        assert(self.holds_at(id, p));
        if p < i {
            assert(self.items[p].item_id != self.items[i].item_id);
        } else if i < p {
            assert(self.items[i].item_id != self.items[p].item_id);
        }
    }

    /// In a coherent state the index gives, for the barcode at `k`, the item
    /// at `k`.
    pub proof fn lemma_owner(self, barcode: Seq<char>, k: int)
        requires
            self.coherent(),
            self.listed_at(barcode, k),
        ensures
            self.owner(barcode) == Some(self.items[k].item_id),
            self.item_by_barcode(barcode) == Some(self.items[k]),
    {
        let c = choose|c: int| self.listed_at(barcode, c);
        assert(self.listed_at(barcode, c));
        assert(self.index[c].barcode == self.items[c].barcode);
        assert(self.index[k].barcode == self.items[k].barcode);
        if c < k {
            assert(self.items[c].barcode != self.items[k].barcode);
        } else if k < c {
            assert(self.items[k].barcode != self.items[c].barcode);
        }
        assert(self.index[k].item_id == self.items[k].item_id);
        self.lemma_position(self.items[k].item_id, k);
    }
}

/// The item table and the barcode index. Both are written by the store alone,
/// and together.
pub struct InventoryStore {
    items: Vec<InventoryItem>,
    index: Vec<IndexEntry>,
}

impl View for InventoryStore {
    type V = StoreView;

    closed spec fn view(&self) -> StoreView {
        StoreView { items: items_view(self.items@), index: index_view(self.index@) }
    }
}

impl InventoryStore {
    /// The invariant that every operation keeps.
    pub open spec fn wf(&self) -> bool {
        self@.coherent()
    }

    /// An empty store.
    pub fn new() -> (s: Self)
        ensures
            s.wf(),
            s@.items.len() == 0,
            s@.index.len() == 0,
    {
        InventoryStore { items: Vec::new(), index: Vec::new() }
    }

    /// A store made of a table and an index that match.
    pub(crate) fn from_parts(items: Vec<InventoryItem>, index: Vec<IndexEntry>) -> (s: Self)
        requires
            (StoreView { items: items_view(items@), index: index_view(index@) }).coherent(),
        ensures
            s.wf(),
            s@ == (StoreView { items: items_view(items@), index: index_view(index@) }),
    {
        InventoryStore { items, index }
    }

    /// The item table, in insertion order.
    pub(crate) fn table(&self) -> (r: &Vec<InventoryItem>)
        ensures
            items_view(r@) == self@.items,
    {
        &self.items
    }

    /// The barcode index.
    pub(crate) fn index_entries(&self) -> (r: &Vec<IndexEntry>)
        ensures
            index_view(r@) == self@.index,
    {
        &self.index
    }

    /// The number of items.
    pub fn len(&self) -> (n: usize)
        ensures
            n == self@.items.len(),
    {
        self.items.len()
    }

    /// The place of the item with the id `id`.
    fn find_item(&self, id: &String) -> (r: Option<usize>)
        ensures
            match r {
                Some(i) => self@.holds_at(id@, i as int),
                None => !self@.has_item(id@),
            },
    {
        let mut i: usize = 0;
        while i < self.items.len()
            invariant
                i <= self.items.len(),
                forall|j: int| 0 <= j < i ==> !self@.holds_at(id@, j),
            decreases self.items.len() - i,
        {
            if self.items[i].item_id == *id {
                return Some(i);
            }
            i += 1;
        }
        None
    }

    /// The place at which the index lists `barcode`.
    fn find_barcode(&self, barcode: &String) -> (r: Option<usize>)
        ensures
            match r {
                Some(k) => self@.listed_at(barcode@, k as int),
                None => forall|k: int| !self@.listed_at(barcode@, k),
            },
    {
        let mut k: usize = 0;
        while k < self.index.len()
            invariant
                k <= self.index.len(),
                forall|j: int| 0 <= j < k ==> !self@.listed_at(barcode@, j),
            decreases self.index.len() - k,
        {
            if self.index[k].barcode == *barcode {
                return Some(k);
            }
            k += 1;
        }
        None
    }

    /// Whether an item other than `id` holds `barcode`, by the index.
    fn barcode_in_use(&self, id: &String, barcode: &String) -> (r: bool)
        requires
            self.wf(),
        ensures
            r == self@.barcode_taken(id@, barcode@),
    {
        match self.find_barcode(barcode) {
            Some(k) => {
                let other = !(self.index[k].item_id == *id);
                proof {
                    let v = self@;
                    assert(v.index[k as int].barcode == v.items[k as int].barcode);
                    assert(v.index[k as int].item_id == v.items[k as int].item_id);
                    if other {
                        assert(v.items[k as int].barcode == barcode@);
                    } else {
                        assert forall|i: int|
                            0 <= i < v.items.len() && (#[trigger] v.items[i]).barcode
                                == barcode@ implies v.items[i].item_id == id@ by {
                            if i < k {
                                assert(v.items[i].barcode != v.items[k as int].barcode);
                            } else if k < i {
                                assert(v.items[k as int].barcode != v.items[i].barcode);
                            }
                        }
                    }
                }
                other
            },
            None => {
                proof {
                    let v = self@;
                    assert forall|i: int| 0 <= i < v.items.len() implies (#[trigger] v.items[i]).barcode
                        != barcode@ by {
                        assert(!v.listed_at(barcode@, i));
                        assert(v.index[i].barcode == v.items[i].barcode);
                    }
                }
                false
            },
        }
    }

    /// Adds the item, or replaces the item with the same id, and appends
    /// `entry` to its audit trail. Refused input leaves the store as it was.
    fn write_item(
        &mut self,
        item_id: String,
        barcode: String,
        name: String,
        category: Option<ItemCategory>,
        quantity: u32,
        expiration_date: u64,
        price: u64,
        now: u64,
        entry: AuditLog,
    ) -> (r: Result<Confirmation, ValidationError>)
        requires
            old(self).wf(),
        ensures
            final(self).wf(),
            match old(self)@.refusal(item_id@, barcode@, name@, price) {
                Some(e) => r == Err::<Confirmation, ValidationError>(e) && final(self)@ == old(self)@,
                None => final(self)@ == old(self)@.written(
                    drafted(
                        item_id@,
                        barcode@,
                        name@,
                        category,
                        quantity,
                        expiration_date,
                        price,
                        now,
                    ),
                    entry@,
                ) && r == Ok::<Confirmation, ValidationError>(
                    if old(self)@.has_item(item_id@) {
                        Confirmation::Updated
                    } else {
                        Confirmation::Created
                    },
                ),
            },
    {
        if is_blank(name.as_str()) {
            return Err(ValidationError { field: Field::Name, reason: Reason::Blank });
        }
        if is_blank(barcode.as_str()) {
            return Err(ValidationError { field: Field::Barcode, reason: Reason::Blank });
        }
        if !price_is_positive(price) {
            return Err(ValidationError { field: Field::Price, reason: Reason::NotPositive });
        }
        if self.barcode_in_use(&item_id, &barcode) {
            return Err(ValidationError { field: Field::Barcode, reason: Reason::AlreadyInUse });
        }
        let status = determine_item_status(quantity, expiration_date, now);
        let ghost before = self@;
        let ghost draft = drafted(
            item_id@,
            barcode@,
            name@,
            category,
            quantity,
            expiration_date,
            price,
            now,
        );
        let listing = IndexEntry { barcode: barcode.clone(), item_id: item_id.clone() };
        match self.find_item(&item_id) {
            Some(i) => {
                let mut trail = clone_trail(&self.items[i].audit_trail);
                let ghost old_trail = before.items[i as int].audit_trail;
                assert(crate::item::trail_view(trail@) == old_trail);
                trail.push(entry);
                assert(crate::item::trail_view(trail@) =~= old_trail.push(entry@));
                let item = InventoryItem {
                    item_id,
                    barcode,
                    name,
                    category,
                    quantity,
                    expiration_date,
                    price,
                    last_updated: now,
                    status,
                    audit_trail: trail,
                };
                self.items.set(i, item);
                self.index.set(i, listing);
                proof {
                    before.lemma_position(draft.item_id, i as int);
                    let after = self@;
                    let goal = before.written(draft, entry@);
                    assert(after.items =~= goal.items);
                    assert(after.index =~= goal.index);
                    lemma_written_coherent(before, draft, entry@);
                }
                Ok(Confirmation::Updated)
            },
            None => {
                let mut trail: Vec<AuditLog> = Vec::new();
                trail.push(entry);
                assert(crate::item::trail_view(trail@) =~= seq![entry@]);
                let item = InventoryItem {
                    item_id,
                    barcode,
                    name,
                    category,
                    quantity,
                    expiration_date,
                    price,
                    last_updated: now,
                    status,
                    audit_trail: trail,
                };
                self.items.push(item);
                self.index.push(listing);
                proof {
                    let after = self@;
                    let goal = before.written(draft, entry@);
                    assert(after.items =~= goal.items);
                    assert(after.index =~= goal.index);
                    lemma_written_coherent(before, draft, entry@);
                }
                Ok(Confirmation::Created)
            },
        }
    }

    /// Validates the input, derives the status at `now`, and adds the item or
    /// replaces the item with the same id. Each accepted call appends one
    /// entry to the item's audit trail, on behalf of `actor`.
    pub fn add_or_update_item(
        &mut self,
        item_id: String,
        barcode: String,
        name: String,
        category: Option<ItemCategory>,
        quantity: u32,
        expiration_date: u64,
        price: u64,
        actor: String,
        now: u64,
    ) -> (r: Result<Confirmation, ValidationError>)
        requires
            old(self).wf(),
        ensures
            final(self).wf(),
            match old(self)@.refusal(item_id@, barcode@, name@, price) {
                Some(e) => r == Err::<Confirmation, ValidationError>(e) && final(self)@ == old(self)@,
                None => final(self)@ == old(self)@.written(
                    drafted(
                        item_id@,
                        barcode@,
                        name@,
                        category,
                        quantity,
                        expiration_date,
                        price,
                        now,
                    ),
                    write_entry(now, actor@, quantity, price),
                ) && r == Ok::<Confirmation, ValidationError>(
                    if old(self)@.has_item(item_id@) {
                        Confirmation::Updated
                    } else {
                        Confirmation::Created
                    },
                ),
            },
    {
        let entry = AuditLog {
            timestamp: now,
            action: String::from_str("add_or_update"),
            details: describe_change(quantity, price),
            actor,
        };
        self.write_item(
            item_id,
            barcode,
            name,
            category,
            quantity,
            expiration_date,
            price,
            now,
            entry,
        )
    }

    /// The item with the id `id`.
    pub fn get_item(&self, id: String) -> (r: Result<InventoryItem, NotFoundError>)
        requires
            self.wf(),
        ensures
            match self@.item(id@) {
                Some(found) => r is Ok && r->Ok_0@ == found,
                None => r is Err && r->Err_0.key@ == id@,
            },
    {
        match self.find_item(&id) {
            Some(i) => {
                proof {
                    self@.lemma_position(id@, i as int);
                }
                Ok(self.items[i].clone())
            },
            None => Err(NotFoundError { key: id }),
        }
    }

    /// The item that the index gives for `barcode`.
    pub fn get_item_by_barcode(&self, barcode: String) -> (r: Result<
        InventoryItem,
        NotFoundError,
    >)
        requires
            self.wf(),
        ensures
            match self@.item_by_barcode(barcode@) {
                Some(found) => r is Ok && r->Ok_0@ == found,
                None => r is Err && r->Err_0.key@ == barcode@ && self@.owner(barcode@) is None,
            },
    {
        match self.find_barcode(&barcode) {
            Some(k) => {
                proof {
                    self@.lemma_owner(barcode@, k as int);
                }
                self.get_item(self.index[k].item_id.clone())
            },
            None => Err(NotFoundError { key: barcode }),
        }
    }

    /// Removes the item with the id `id` and its index entry.
    pub fn remove_item(&mut self, id: String) -> (r: Result<Confirmation, NotFoundError>)
        requires
            old(self).wf(),
        ensures
            final(self).wf(),
            old(self)@.has_item(id@) ==> r is Ok && r->Ok_0 == Confirmation::Removed && final(self)@ == old(self)@.removed(id@),
            !old(self)@.has_item(id@) ==> r is Err && r->Err_0.key@ == id@ && final(self)@ == old(self)@,
    {
        let ghost before = self@;
        match self.find_item(&id) {
            Some(i) => {
                self.items.remove(i);
                self.index.remove(i);
                proof {
                    before.lemma_position(id@, i as int);
                    let goal = before.removed(id@);
                    assert(self@.items =~= goal.items);
                    assert(self@.index =~= goal.index);
                    lemma_removed_coherent(before, id@);
                }
                Ok(Confirmation::Removed)
            },
            None => Err(NotFoundError { key: id }),
        }
    }
}

/// An accepted write keeps the invariant.
pub proof fn lemma_written_coherent(v: StoreView, draft: ItemView, entry: AuditEntry)
    requires
        v.coherent(),
        !v.barcode_taken(draft.item_id, draft.barcode),
    ensures
        v.written(draft, entry).coherent(),
{
    let w = v.written(draft, entry);
    if v.has_item(draft.item_id) {
        let p = v.position(draft.item_id);
        assert(v.holds_at(draft.item_id, p));
        assert forall|i: int, j: int| 0 <= i < j < w.items.len() implies (#[trigger] w.items[i]).item_id
            != (#[trigger] w.items[j]).item_id by {
            assert(v.items[i].item_id != v.items[j].item_id);
        }
        assert forall|i: int, j: int| 0 <= i < j < w.items.len() implies (#[trigger] w.items[i]).barcode
            != (#[trigger] w.items[j]).barcode by {
            assert(v.items[i].barcode != v.items[j].barcode);
            if i == p {
                assert(v.items[j].item_id != v.items[p].item_id);
            } else if j == p {
                assert(v.items[i].item_id != v.items[p].item_id);
            }
        }
        assert forall|i: int| 0 <= i < w.items.len() implies (#[trigger] w.index[i]).barcode
            == w.items[i].barcode && w.index[i].item_id == w.items[i].item_id by {
            assert(v.index[i].barcode == v.items[i].barcode);
        }
    } else {
        let n = v.items.len() as int;
        assert forall|i: int, j: int| 0 <= i < j < w.items.len() implies (#[trigger] w.items[i]).item_id
            != (#[trigger] w.items[j]).item_id by {
            if j == n {
                assert(!v.holds_at(draft.item_id, i));
            } else {
                assert(v.items[i].item_id != v.items[j].item_id);
            }
        }
        assert forall|i: int, j: int| 0 <= i < j < w.items.len() implies (#[trigger] w.items[i]).barcode
            != (#[trigger] w.items[j]).barcode by {
            if j == n {
                assert(!v.holds_at(draft.item_id, i));
                assert(v.items[i].barcode != draft.barcode);
            } else {
                assert(v.items[i].barcode != v.items[j].barcode);
            }
        }
        assert forall|i: int| 0 <= i < w.items.len() implies (#[trigger] w.index[i]).barcode
            == w.items[i].barcode && w.index[i].item_id == w.items[i].item_id by {
            if i < n {
                assert(v.index[i].barcode == v.items[i].barcode);
            }
        }
    }
}

/// A removal keeps the invariant.
pub proof fn lemma_removed_coherent(v: StoreView, id: Seq<char>)
    requires
        v.coherent(),
        v.has_item(id),
    ensures
        v.removed(id).coherent(),
{
    let p = v.position(id);
    assert(v.holds_at(id, p));
    let w = v.removed(id);
    assert forall|i: int, j: int| 0 <= i < j < w.items.len() implies (#[trigger] w.items[i]).item_id
        != (#[trigger] w.items[j]).item_id && w.items[i].barcode != w.items[j].barcode by {
        let a = if i < p { i } else { i + 1 };
        let b = if j < p { j } else { j + 1 };
        assert(v.items[a].item_id != v.items[b].item_id);
        assert(v.items[a].barcode != v.items[b].barcode);
    }
    assert forall|i: int| 0 <= i < w.items.len() implies (#[trigger] w.index[i]).barcode
        == w.items[i].barcode && w.index[i].item_id == w.items[i].item_id by {
        let a = if i < p { i } else { i + 1 };
        assert(v.index[a].barcode == v.items[a].barcode);
    }
}

} // verus!
