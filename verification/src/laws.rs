//! What holds of the store across several operations, stated over the views
//! that the operations' contracts speak of.

use vstd::prelude::*;
use crate::item::{AuditEntry, ItemView};
use crate::price::is_positive;
use crate::status::{derive_status, ItemCategory};
use crate::store::{drafted, lemma_removed_coherent, lemma_written_coherent, StoreView};
use crate::text::blank;

verus! {

/// After an accepted write, a lookup by the item's id finds an item with
/// the fields that were written, the status derived from the quantity, the
/// expiration and the time of the write, and the write's entry last in its
/// audit trail.
pub proof fn law_write_then_get(
    v: StoreView,
    item_id: Seq<char>,
    barcode: Seq<char>,
    name: Seq<char>,
    category: Option<ItemCategory>,
    quantity: u32,
    expiration_date: u64,
    price: u64,
    now: u64,
    entry: AuditEntry,
)
    requires
        v.coherent(),
        v.refusal(item_id, barcode, name, price) is None,
    ensures
        ({
            let w = v.written(
                drafted(item_id, barcode, name, category, quantity, expiration_date, price, now),
                entry,
            );
            &&& w.coherent()
            &&& w.item(item_id) matches Some(found) && {
                &&& found.item_id == item_id
                &&& found.barcode == barcode
                &&& found.name == name
                &&& found.category == category
                &&& found.quantity == quantity
                &&& found.expiration_date == expiration_date
                &&& found.price == price
                &&& found.last_updated == now
                &&& found.status == derive_status(quantity, expiration_date, now)
                &&& found.audit_trail == match v.item(item_id) {
                    Some(earlier) => earlier.audit_trail.push(entry),
                    None => seq![entry],
                }
            }
            &&& w.item_by_barcode(barcode) == w.item(item_id)
        }),
{
    let draft = drafted(item_id, barcode, name, category, quantity, expiration_date, price, now);
    let w = v.written(draft, entry);
    lemma_written_coherent(v, draft, entry);
    let at = if v.has_item(item_id) {
        v.position(item_id)
    } else {
        v.items.len() as int
    };
    if v.has_item(item_id) {
        assert(v.holds_at(item_id, at));
    }
    assert(w.holds_at(item_id, at));
    w.lemma_position(item_id, at);
    assert(w.index[at].barcode == w.items[at].barcode);
    assert(w.listed_at(barcode, at));
    w.lemma_owner(barcode, at);
}

/// The barcode of every item resolves, through the index, to that item; a
/// barcode that no item holds resolves to nothing.
pub proof fn law_index_resolves(v: StoreView)
    requires
        v.coherent(),
    ensures
        forall|i: int|
            0 <= i < v.items.len() ==> v.item_by_barcode((#[trigger] v.items[i]).barcode) == Some(
                v.items[i],
            ),
        forall|barcode: Seq<char>|
            (forall|i: int| 0 <= i < v.items.len() ==> (#[trigger] v.items[i]).barcode != barcode)
                ==> #[trigger] v.item_by_barcode(barcode) is None,
{
    assert forall|i: int| 0 <= i < v.items.len() implies v.item_by_barcode(
        (#[trigger] v.items[i]).barcode,
    ) == Some(v.items[i]) by {
        assert(v.index[i].barcode == v.items[i].barcode);
        assert(v.listed_at(v.items[i].barcode, i));
        v.lemma_owner(v.items[i].barcode, i);
    }
    assert forall|barcode: Seq<char>|
        (forall|i: int|
            0 <= i < v.items.len() ==> (#[trigger] v.items[i]).barcode
                != barcode) implies #[trigger] v.item_by_barcode(barcode) is None by {
        if exists|k: int| v.listed_at(barcode, k) {
            let k = choose|k: int| v.listed_at(barcode, k);
            assert(v.index[k].barcode == v.items[k].barcode);
            assert(v.items[k].barcode != barcode);
        }
    }
}

/// Writing the same input twice leaves one item, not two: the second write
/// is accepted, the table is as long as after the first, and the item's
/// audit trail has grown by one entry with each write. Where the id was new,
/// the trail holds the two entries and nothing else.
pub proof fn law_write_twice(
    v: StoreView,
    item_id: Seq<char>,
    barcode: Seq<char>,
    name: Seq<char>,
    category: Option<ItemCategory>,
    quantity: u32,
    expiration_date: u64,
    price: u64,
    first_now: u64,
    second_now: u64,
    first_entry: AuditEntry,
    second_entry: AuditEntry,
)
    requires
        v.coherent(),
        v.refusal(item_id, barcode, name, price) is None,
    ensures
        ({
            let once = v.written(
                drafted(
                    item_id,
                    barcode,
                    name,
                    category,
                    quantity,
                    expiration_date,
                    price,
                    first_now,
                ),
                first_entry,
            );
            let twice = once.written(
                drafted(
                    item_id,
                    barcode,
                    name,
                    category,
                    quantity,
                    expiration_date,
                    price,
                    second_now,
                ),
                second_entry,
            );
            &&& once.refusal(item_id, barcode, name, price) is None
            &&& twice.coherent()
            &&& twice.items.len() == once.items.len()
            &&& once.items.len() == if v.has_item(item_id) {
                v.items.len()
            } else {
                v.items.len() + 1
            }
            &&& once.item(item_id) is Some
            &&& twice.item(item_id) is Some
            &&& twice.item(item_id)->0.audit_trail == once.item(item_id)->0.audit_trail.push(
                second_entry,
            )
            &&& !v.has_item(item_id) ==> twice.item(item_id)->0.audit_trail == seq![
                first_entry,
                second_entry,
            ]
        }),
{
    let first = drafted(
        item_id,
        barcode,
        name,
        category,
        quantity,
        expiration_date,
        price,
        first_now,
    );
    let second = drafted(
        item_id,
        barcode,
        name,
        category,
        quantity,
        expiration_date,
        price,
        second_now,
    );
    let once = v.written(first, first_entry);
    lemma_written_coherent(v, first, first_entry);
    let at = if v.has_item(item_id) {
        v.position(item_id)
    } else {
        v.items.len() as int
    };
    if v.has_item(item_id) {
        assert(v.holds_at(item_id, at));
    }
    assert(once.holds_at(item_id, at));
    once.lemma_position(item_id, at);
    assert(!once.barcode_taken(item_id, barcode)) by {
        assert forall|i: int|
            0 <= i < once.items.len() && (#[trigger] once.items[i]).barcode
                == barcode implies once.items[i].item_id == item_id by {
            if i != at {
                assert(once.items[i] == v.items[i]);
            }
        }
    }
    let twice = once.written(second, second_entry);
    lemma_written_coherent(once, second, second_entry);
    assert(twice.holds_at(item_id, at));
    twice.lemma_position(item_id, at);
    if !v.has_item(item_id) {
        assert(seq![first_entry].push(second_entry) =~= seq![first_entry, second_entry]);
    }
}

/// After a removal, neither the item's id nor its former barcode finds
/// anything, and every other item is still found under its id.
pub proof fn law_removed_is_gone(v: StoreView, id: Seq<char>)
    requires
        v.coherent(),
        v.has_item(id),
    ensures
        ({
            let w = v.removed(id);
            let gone = v.item(id)->0;
            &&& w.coherent()
            &&& w.items.len() + 1 == v.items.len()
            &&& w.item(id) is None
            &&& w.owner(gone.barcode) is None
            &&& w.item_by_barcode(gone.barcode) is None
            &&& forall|other: Seq<char>| other != id ==> #[trigger] w.item(other) == v.item(other)
        }),
{
    let w = v.removed(id);
    let p = v.position(id);
    assert(v.holds_at(id, p));
    let gone = v.items[p];
    lemma_removed_coherent(v, id);
    assert forall|i: int| 0 <= i < w.items.len() implies (#[trigger] w.items[i]).item_id != id
        && w.items[i].barcode != gone.barcode && w.index[i].barcode != gone.barcode by {
        let a = if i < p {
            i
        } else {
            i + 1
        };
        assert(w.items[i] == v.items[a]);
        assert(w.index[i] == v.index[a]);
        assert(v.index[a].barcode == v.items[a].barcode);
        if a < p {
            assert(v.items[a].item_id != v.items[p].item_id);
            assert(v.items[a].barcode != v.items[p].barcode);
        } else {
            assert(v.items[p].item_id != v.items[a].item_id);
            assert(v.items[p].barcode != v.items[a].barcode);
        }
    }
    assert(!w.has_item(id)) by {
        if w.has_item(id) {
            let i = choose|i: int| w.holds_at(id, i);
            assert(w.holds_at(id, i));
            assert(w.items[i].item_id != id);
        }
    }
    assert(w.owner(gone.barcode) is None) by {
        if exists|k: int| w.listed_at(gone.barcode, k) {
            let k = choose|k: int| w.listed_at(gone.barcode, k);
            assert(w.index[k].barcode != gone.barcode);
        }
    }
    assert forall|other: Seq<char>| other != id implies #[trigger] w.item(other) == v.item(
        other,
    ) by {
        if v.has_item(other) {
            let a = v.position(other);
            assert(v.holds_at(other, a));
            let i = if a < p {
                a
            } else {
                a - 1
            };
            assert(w.items[i] == v.items[a]);
            assert(w.holds_at(other, i));
            w.lemma_position(other, i);
        } else {
            if w.has_item(other) {
                let i = choose|i: int| w.holds_at(other, i);
                assert(w.holds_at(other, i));
                let a = if i < p {
                    i
                } else {
                    i + 1
                };
                assert(w.items[i] == v.items[a]);
                assert(v.holds_at(other, a));
            }
        }
    }
}

/// What every item that was written holds: a name and a barcode that are not
/// blank, a positive price, the status derived from its quantity and
/// expiration at the time of its last write, and a trail of at least one
/// entry.
pub open spec fn as_written(item: ItemView) -> bool {
    &&& !blank(item.name)
    &&& !blank(item.barcode)
    &&& is_positive(item.price)
    &&& item.status == derive_status(item.quantity, item.expiration_date, item.last_updated)
    &&& item.audit_trail.len() > 0
}

/// Whether every item of the table is as a write leaves it.
pub open spec fn all_as_written(v: StoreView) -> bool {
    forall|i: int| 0 <= i < v.items.len() ==> as_written(#[trigger] v.items[i])
}

/// The empty store holds only items as writes leave them.
pub proof fn law_empty_is_as_written(v: StoreView)
    requires
        v.items.len() == 0,
    ensures
        all_as_written(v),
{
}

/// A store that holds only items as writes leave them still does so after
/// an accepted write, and after a removal. So does every store that was made
/// of the empty one by writes and removals: the stored status is never stale
/// against the item's own last write.
pub proof fn law_items_stay_as_written(
    v: StoreView,
    item_id: Seq<char>,
    barcode: Seq<char>,
    name: Seq<char>,
    category: Option<ItemCategory>,
    quantity: u32,
    expiration_date: u64,
    price: u64,
    now: u64,
    entry: AuditEntry,
)
    requires
        v.coherent(),
        all_as_written(v),
    ensures
        v.refusal(item_id, barcode, name, price) is None ==> all_as_written(
            v.written(
                drafted(item_id, barcode, name, category, quantity, expiration_date, price, now),
                entry,
            ),
        ),
        v.has_item(item_id) ==> all_as_written(v.removed(item_id)),
{
    if v.refusal(item_id, barcode, name, price) is None {
        let draft = drafted(
            item_id,
            barcode,
            name,
            category,
            quantity,
            expiration_date,
            price,
            now,
        );
        let w = v.written(draft, entry);
        if v.has_item(item_id) {
            let p = v.position(item_id);
            assert(v.holds_at(item_id, p));
            assert forall|i: int| 0 <= i < w.items.len() implies as_written(
                #[trigger] w.items[i],
            ) by {
                if i != p {
                    assert(as_written(v.items[i]));
                }
            }
        } else {
            assert forall|i: int| 0 <= i < w.items.len() implies as_written(
                #[trigger] w.items[i],
            ) by {
                if i < v.items.len() {
                    assert(as_written(v.items[i]));
                }
            }
        }
    }
    if v.has_item(item_id) {
        let p = v.position(item_id);
        assert(v.holds_at(item_id, p));
        let w = v.removed(item_id);
        assert forall|i: int| 0 <= i < w.items.len() implies as_written(#[trigger] w.items[i]) by {
            let a = if i < p {
                i
            } else {
                i + 1
            };
            assert(as_written(v.items[a]));
        }
    }
}

/// A write leaves every other item as it was, findable under its id.
pub proof fn law_write_keeps_others(
    v: StoreView,
    draft: ItemView,
    entry: AuditEntry,
    other: Seq<char>,
)
    requires
        v.coherent(),
        !v.barcode_taken(draft.item_id, draft.barcode),
        other != draft.item_id,
    ensures
        v.written(draft, entry).item(other) == v.item(other),
{
    let w = v.written(draft, entry);
    lemma_written_coherent(v, draft, entry);
    if v.has_item(draft.item_id) {
        assert(v.holds_at(draft.item_id, v.position(draft.item_id)));
    }
    if v.has_item(other) {
        let a = v.position(other);
        assert(v.holds_at(other, a));
        assert(w.items[a] == v.items[a]);
        assert(w.holds_at(other, a));
        w.lemma_position(other, a);
    } else {
        if w.has_item(other) {
            let i = choose|i: int| w.holds_at(other, i);
            assert(w.holds_at(other, i));
            if i < v.items.len() {
                assert(w.items[i].item_id == v.items[i].item_id);
                assert(v.holds_at(other, i));
            }
        }
    }
}

} // verus!
