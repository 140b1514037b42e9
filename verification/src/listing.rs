//! A page of the item table as text for people to read.

use vstd::prelude::*;
use vstd::string::*;
use crate::item::{items_view, InventoryItem, ItemView};
use crate::query::{page_count, pages, PaginatedResult};
use crate::status::{ItemCategory, ItemStatus};
use crate::text::{decimal, decimal_text};
use crate::timestamp::{format_timestamp, utc_text, NANOS_PER_SECOND};

verus! {

/// The name of a category.
pub open spec fn category_name(category: ItemCategory) -> Seq<char> {
    match category {
        ItemCategory::Produce => "Produce"@,
        ItemCategory::Dairy => "Dairy"@,
        ItemCategory::Meat => "Meat"@,
        ItemCategory::Bakery => "Bakery"@,
        ItemCategory::Grocery => "Grocery"@,
        ItemCategory::Other => "Other"@,
    }
}

/// The name of a status.
pub open spec fn status_name(status: ItemStatus) -> Seq<char> {
    match status {
        ItemStatus::Active => "Active"@,
        ItemStatus::ExpiringSoon => "ExpiringSoon"@,
        ItemStatus::Expired => "Expired"@,
        ItemStatus::LowStock => "LowStock"@,
        ItemStatus::OutOfStock => "OutOfStock"@,
    }
}

/// The category as the listing names it: "N/A" where there is none.
pub open spec fn category_text(category: Option<ItemCategory>) -> Seq<char> {
    match category {
        Some(c) => category_name(c),
        None => "N/A"@,
    }
}

/// The calendar text of a timestamp in nanoseconds.
pub open spec fn time_text(timestamp: u64) -> Seq<char> {
    utc_text((timestamp / NANOS_PER_SECOND) as i64)
}

/// One line: a label, a value, and the end of the line.
pub open spec fn line_text(label: Seq<char>, value: Seq<char>) -> Seq<char> {
    label + value + "\n"@
}

/// The lines of one item, closed by a rule. `price_text` is the price as the
/// listing shall show it.
pub open spec fn item_block(item: ItemView, price_text: Seq<char>) -> Seq<char> {
    line_text("Item ID: "@, item.item_id) + line_text("Name: "@, item.name) + line_text(
        "Barcode: "@,
        item.barcode,
    ) + line_text("Category: "@, category_text(item.category)) + line_text(
        "Quantity: "@,
        decimal_text(item.quantity as nat),
    ) + line_text("Price: $"@, price_text) + line_text("Status: "@, status_name(item.status))
        + line_text("Expiration: "@, time_text(item.expiration_date)) + line_text(
        "Last Updated: "@,
        time_text(item.last_updated),
    ) + "\n-------------------------------------\n\n"@
}

/// The blocks of the items, one after the other.
pub open spec fn blocks(items: Seq<ItemView>, price_texts: Seq<Seq<char>>) -> Seq<char>
    decreases items.len(),
{
    if items.len() == 0 {
        Seq::empty()
    } else {
        blocks(items.drop_last(), price_texts.drop_last()) + item_block(
            items.last(),
            price_texts.last(),
        )
    }
}

/// The head of a listing: which page of how many, and the page size.
pub open spec fn heading(page: nat, of: nat, per_page: nat) -> Seq<char> {
    "\nInventory Items (Page "@ + decimal_text(page) + " of "@ + decimal_text(of) + ", "@
        + decimal_text(per_page) + " items per page)\n"@
        + "=====================================\n\n"@
}

/// The texts of a list of strings, in order.
pub open spec fn texts_of(texts: Seq<String>) -> Seq<Seq<char>> {
    texts.map_values(|s: String| s@)
}

pub fn category_str(category: ItemCategory) -> (r: &'static str)
    ensures
        r@ == category_name(category),
{
    match category {
        ItemCategory::Produce => "Produce",
        ItemCategory::Dairy => "Dairy",
        ItemCategory::Meat => "Meat",
        ItemCategory::Bakery => "Bakery",
        ItemCategory::Grocery => "Grocery",
        ItemCategory::Other => "Other",
    }
}

pub fn status_str(status: ItemStatus) -> (r: &'static str)
    ensures
        r@ == status_name(status),
{
    match status {
        ItemStatus::Active => "Active",
        ItemStatus::ExpiringSoon => "ExpiringSoon",
        ItemStatus::Expired => "Expired",
        ItemStatus::LowStock => "LowStock",
        ItemStatus::OutOfStock => "OutOfStock",
    }
}

fn line(label: &str, value: &str) -> (r: String)
    ensures
        r@ == line_text(label@, value@),
{
    String::from_str(label).concat(value).concat("\n")
}

/// The lines of one item, with the price as `price_text` words it.
pub fn format_item(item: &InventoryItem, price_text: &str) -> (r: String)
    ensures
        r@ == item_block(item@, price_text@),
{
    let category: &str = match item.category {
        Some(c) => category_str(c),
        None => "N/A",
    };
    let mut out = line("Item ID: ", item.item_id.as_str());
    out.append(line("Name: ", item.name.as_str()).as_str());
    out.append(line("Barcode: ", item.barcode.as_str()).as_str());
    out.append(line("Category: ", category).as_str());
    out.append(line("Quantity: ", decimal(item.quantity as u64).as_str()).as_str());
    out.append(line("Price: $", price_text).as_str());
    out.append(line("Status: ", status_str(item.status)).as_str());
    out.append(line("Expiration: ", format_timestamp(item.expiration_date).as_str()).as_str());
    out.append(line("Last Updated: ", format_timestamp(item.last_updated).as_str()).as_str());
    out.append("\n-------------------------------------\n\n");
    out
}

/// The listing of a page: the heading, then the block of each item.
/// `price_texts` holds, for each item of the page, its price as the listing
/// shall show it.
pub fn format_page(result: &PaginatedResult, price_texts: &Vec<String>) -> (r: String)
    requires
        result.per_page > 0,
        price_texts@.len() == result.items@.len(),
    ensures
        r@ == heading(
            result.page as nat,
            pages(result.total as int, result.per_page as int) as nat,
            result.per_page as nat,
        ) + blocks(items_view(result.items@), texts_of(price_texts@)),
{
    let of: usize = page_count(result.total, result.per_page);
    let mut out = String::from_str("\nInventory Items (Page ");
    out.append(decimal(result.page as u64).as_str());
    out.append(" of ");
    out.append(decimal(of as u64).as_str());
    out.append(", ");
    out.append(decimal(result.per_page as u64).as_str());
    out.append(" items per page)\n");
    out.append("=====================================\n\n");
    let ghost head = out@;
    let ghost items = items_view(result.items@);
    let ghost prices = texts_of(price_texts@);
    let mut i: usize = 0;
    assert(items.subrange(0, 0) =~= Seq::<ItemView>::empty());
    assert(out@ =~= head + blocks(items.subrange(0, 0), prices.subrange(0, 0)));
    while i < result.items.len()
        invariant
            i <= result.items.len(),
            price_texts@.len() == result.items@.len(),
            items == items_view(result.items@),
            prices == texts_of(price_texts@),
            out@ == head + blocks(items.subrange(0, i as int), prices.subrange(0, i as int)),
        decreases result.items.len() - i,
    {
        let block = format_item(&result.items[i], price_texts[i].as_str());
        proof {
            let next_items = items.subrange(0, i + 1);
            let next_prices = prices.subrange(0, i + 1);
            assert(next_items.drop_last() =~= items.subrange(0, i as int));
            assert(next_prices.drop_last() =~= prices.subrange(0, i as int));
            assert(next_items.last() == result.items@[i as int]@);
            assert(next_prices.last() == price_texts@[i as int]@);
            assert(blocks(next_items, next_prices) == blocks(
                items.subrange(0, i as int),
                prices.subrange(0, i as int),
            ) + block@);
        }
        out.append(block.as_str());
        assert(out@ =~= head + blocks(items.subrange(0, i + 1), prices.subrange(0, i + 1)));
        i += 1;
    }
    assert(items.subrange(0, i as int) =~= items);
    assert(prices.subrange(0, i as int) =~= prices);
    out
}

} // verus!
