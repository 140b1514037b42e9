//! An inventory item, its audit trail, and their mathematical views.

use vstd::prelude::*;
use vstd::string::*;
use crate::status::{ItemCategory, ItemStatus};

verus! {

/// One entry of an item's audit trail.
#[derive(Debug)]
pub struct AuditLog {
    pub timestamp: u64,
    pub action: String,
    pub details: String,
    pub actor: String,
}

/// What an `AuditLog` says.
pub struct AuditEntry {
    pub timestamp: u64,
    pub action: Seq<char>,
    pub details: Seq<char>,
    pub actor: Seq<char>,
}

impl View for AuditLog {
    type V = AuditEntry;

    open spec fn view(&self) -> AuditEntry {
        AuditEntry {
            timestamp: self.timestamp,
            action: self.action@,
            details: self.details@,
            actor: self.actor@,
        }
    }
}

impl Clone for AuditLog {
    fn clone(&self) -> (r: Self)
        ensures
            r@ == self@,
    {
        AuditLog {
            timestamp: self.timestamp,
            action: self.action.clone(),
            details: self.details.clone(),
            actor: self.actor.clone(),
        }
    }
}

/// One inventory record. `price` is the bit pattern of a binary64 number,
/// `expiration_date` and `last_updated` are nanoseconds since the epoch, and
/// `status` is the status as derived at the last write.
#[derive(Debug)]
pub struct InventoryItem {
    pub item_id: String,
    pub barcode: String,
    pub name: String,
    pub category: Option<ItemCategory>,
    pub quantity: u32,
    pub expiration_date: u64,
    pub price: u64,
    pub last_updated: u64,
    pub status: ItemStatus,
    pub audit_trail: Vec<AuditLog>,
}

/// What an `InventoryItem` says.
pub struct ItemView {
    pub item_id: Seq<char>,
    pub barcode: Seq<char>,
    pub name: Seq<char>,
    pub category: Option<ItemCategory>,
    pub quantity: u32,
    pub expiration_date: u64,
    pub price: u64,
    pub last_updated: u64,
    pub status: ItemStatus,
    pub audit_trail: Seq<AuditEntry>,
}

/// The entries of a trail, in order.
pub open spec fn trail_view(trail: Seq<AuditLog>) -> Seq<AuditEntry> {
    trail.map_values(|e: AuditLog| e@)
}

/// The items of a list, in order.
pub open spec fn items_view(items: Seq<InventoryItem>) -> Seq<ItemView> {
    items.map_values(|it: InventoryItem| it@)
}

impl View for InventoryItem {
    type V = ItemView;

    open spec fn view(&self) -> ItemView {
        ItemView {
            item_id: self.item_id@,
            barcode: self.barcode@,
            name: self.name@,
            category: self.category,
            quantity: self.quantity,
            expiration_date: self.expiration_date,
            price: self.price,
            last_updated: self.last_updated,
            status: self.status,
            audit_trail: trail_view(self.audit_trail@),
        }
    }
}

/// A copy of a trail, entry by entry.
pub(crate) fn clone_trail(trail: &Vec<AuditLog>) -> (r: Vec<AuditLog>)
    ensures
        trail_view(r@) == trail_view(trail@),
{
    let mut out: Vec<AuditLog> = Vec::new();
    let mut i: usize = 0;
    while i < trail.len()
        invariant
            i <= trail.len(),
            out.len() == i,
            forall|j: int| 0 <= j < i ==> out@[j]@ == trail@[j]@,
        decreases trail.len() - i,
    {
        out.push(trail[i].clone());
        i += 1;
    }
    assert(trail_view(out@) =~= trail_view(trail@));
    out
}

impl Clone for InventoryItem {
    fn clone(&self) -> (r: Self)
        ensures
            r@ == self@,
    {
        InventoryItem {
            item_id: self.item_id.clone(),
            barcode: self.barcode.clone(),
            name: self.name.clone(),
            category: self.category,
            quantity: self.quantity,
            expiration_date: self.expiration_date,
            price: self.price,
            last_updated: self.last_updated,
            status: self.status,
            audit_trail: clone_trail(&self.audit_trail),
        }
    }
}

} // verus!
