//! Queries over the item table: search by criteria, pages, and the lists of
//! items that expire soon or are low in stock. All keep the table's order.

use vstd::prelude::*;
use vstd::string::*;
use crate::item::{items_view, InventoryItem, ItemView};
use crate::price::{at_most, price_at_most};
use crate::status::{expires_by, expires_within, ItemCategory, ItemStatus, LOW_STOCK_THRESHOLD};
use crate::seqs::lemma_filter_push;
use crate::store::InventoryStore;
use crate::text::{contains_text, lowercase_text, str_contains};

verus! {

/// The page size where none is asked for.
pub const DEFAULT_PER_PAGE: usize = 50;

/// What a search asks for. A criterion that is `None` admits every item.
/// `max_price` is the bit pattern of a binary64 number.
#[derive(Debug)]
pub struct SearchCriteria {
    pub keyword: Option<String>,
    pub category: Option<ItemCategory>,
    pub status: Option<ItemStatus>,
    pub min_quantity: Option<u32>,
    pub max_price: Option<u64>,
}

/// What a `SearchCriteria` says.
pub struct CriteriaView {
    pub keyword: Option<Seq<char>>,
    pub category: Option<ItemCategory>,
    pub status: Option<ItemStatus>,
    pub min_quantity: Option<u32>,
    pub max_price: Option<u64>,
}

impl View for SearchCriteria {
    type V = CriteriaView;

    open spec fn view(&self) -> CriteriaView {
        CriteriaView {
            keyword: match self.keyword {
                Some(k) => Some(k@),
                None => None,
            },
            category: self.category,
            status: self.status,
            min_quantity: self.min_quantity,
            max_price: self.max_price,
        }
    }
}

/// A keyword hits an item when its lower-case form is part of the lower-case
/// name, or when the keyword as it stands is part of the barcode.
pub open spec fn keyword_hit(name: Seq<char>, barcode: Seq<char>, keyword: Seq<char>) -> bool {
    contains_text(lowercase_text(name), lowercase_text(keyword)) || contains_text(barcode, keyword)
}

impl CriteriaView {
    /// Whether the item meets every criterion that is present.
    pub open spec fn matches(self, item: ItemView) -> bool {
        &&& self.keyword matches Some(k) ==> keyword_hit(item.name, item.barcode, k)
        &&& self.category matches Some(c) ==> item.category == Some(c)
        &&& self.status matches Some(s) ==> item.status == s
        &&& self.min_quantity matches Some(min) ==> item.quantity >= min
        &&& self.max_price matches Some(max) ==> at_most(item.price, max)
    }
}

/// One page of the item table, with the numbers that it was cut by.
#[derive(Debug)]
pub struct PaginatedResult {
    pub items: Vec<InventoryItem>,
    pub total: usize,
    pub page: usize,
    pub per_page: usize,
}

/// Which items a list holds.
pub enum Selection {
    /// Those that meet the criteria.
    Criteria(CriteriaView),
    /// Those that expire at or before `days` days after `now`.
    ExpiringWithin { now: u64, days: u64 },
    /// Those at or below the low-stock threshold.
    LowStock,
}

impl Selection {
    pub open spec fn admits(self, item: ItemView) -> bool {
        match self {
            Selection::Criteria(c) => c.matches(item),
            Selection::ExpiringWithin { now, days } => expires_within(
                item.expiration_date,
                now,
                days,
            ),
            Selection::LowStock => item.quantity <= LOW_STOCK_THRESHOLD,
        }
    }

    /// The test that `Seq::filter` takes.
    pub open spec fn test(self) -> spec_fn(ItemView) -> bool {
        |item: ItemView| self.admits(item)
    }
}

/// The items of page `page`, counted from 1, of `per_page` items each: those
/// from place `(page - 1) * per_page` on, `per_page` of them or as many as are
/// left. A page past the end is empty.
pub open spec fn page_of(items: Seq<ItemView>, page: int, per_page: int) -> Seq<ItemView> {
    let start = (page - 1) * per_page;
    let end = start + per_page;
    if start >= items.len() {
        Seq::empty()
    } else if end >= items.len() {
        items.subrange(start, items.len() as int)
    } else {
        items.subrange(start, end)
    }
}

/// A page holds `per_page` items, or what is left of the table from its
/// first place on, or nothing; and its items are the table's, in order.
pub proof fn law_page_contents(items: Seq<ItemView>, page: int, per_page: int)
    requires
        page >= 1,
        per_page >= 0,
    ensures
        ({
            let start = (page - 1) * per_page;
            let shown = page_of(items, page, per_page);
            &&& start >= 0
            &&& shown.len() == if start >= items.len() {
                0
            } else if items.len() - start < per_page {
                items.len() - start
            } else {
                per_page
            }
            &&& forall|k: int| 0 <= k < shown.len() ==> shown[k] == items[start + k]
        }),
{
    assert((page - 1) * per_page >= 0) by (nonlinear_arith)
        requires
            page >= 1,
            per_page >= 0,
    ;
}

/// The number of pages that `total` items fill, `per_page` to a page.
pub open spec fn pages(total: int, per_page: int) -> int {
    (total + per_page - 1) / per_page
}

/// Exec form of [`pages`].
pub fn page_count(total: usize, per_page: usize) -> (r: usize)
    requires
        per_page > 0,
    ensures
        r == pages(total as int, per_page as int),
{
    let full: usize = total / per_page;
    let rest: usize = total % per_page;
    assert(pages(total as int, per_page as int) == if rest == 0 {
        full as int
    } else {
        full + 1
    }) by (nonlinear_arith)
        requires
            per_page > 0,
            full == total as int / per_page as int,
            rest == total as int % per_page as int,
    ;
    assert(rest != 0 ==> full < total) by (nonlinear_arith)
        requires
            per_page > 0,
            full == total as int / per_page as int,
            rest == total as int % per_page as int,
    ;
    if rest == 0 {
        full
    } else {
        full + 1
    }
}

/// The keyword test on texts that are in lower case already: `name_lower`
/// and `keyword_lower` are the lower-case forms of the name and the keyword.
pub fn keyword_matches(name_lower: &str, keyword_lower: &str, barcode: &str, keyword: &str) -> (r:
    bool)
    ensures
        r == (contains_text(name_lower@, keyword_lower@) || contains_text(barcode@, keyword@)),
{
    str_contains(name_lower, keyword_lower) || str_contains(barcode, keyword)
}

/// Whether the item meets every criterion that is present.
pub fn item_matches(criteria: &SearchCriteria, item: &InventoryItem) -> (r: bool)
    ensures
        r == criteria@.matches(item@),
{
    let keyword_match = match &criteria.keyword {
        Some(keyword) => {
            let name_lower = item.name.as_str().to_lowercase();
            let keyword_lower = keyword.as_str().to_lowercase();
            keyword_matches(
                name_lower.as_str(),
                keyword_lower.as_str(),
                item.barcode.as_str(),
                keyword.as_str(),
            )
        },
        None => true,
    };
    let category_match = match criteria.category {
        Some(wanted) => match item.category {
            Some(held) => held == wanted,
            None => false,
        },
        None => true,
    };
    let status_match = match criteria.status {
        Some(wanted) => item.status == wanted,
        None => true,
    };
    let quantity_match = match criteria.min_quantity {
        Some(min) => item.quantity >= min,
        None => true,
    };
    let price_match = match criteria.max_price {
        Some(max) => price_at_most(item.price, max),
        None => true,
    };
    keyword_match && category_match && status_match && quantity_match && price_match
}

/// What the store's lists are picked by.
enum Picker<'a> {
    Criteria(&'a SearchCriteria),
    ExpiringWithin { now: u64, days: u64 },
    LowStock,
}

impl<'a> Picker<'a> {
    spec fn selection(self) -> Selection {
        match self {
            Picker::Criteria(c) => Selection::Criteria(c@),
            Picker::ExpiringWithin { now, days } => Selection::ExpiringWithin { now, days },
            Picker::LowStock => Selection::LowStock,
        }
    }

    fn picks(&self, item: &InventoryItem) -> (r: bool)
        ensures
            r == self.selection().admits(item@),
    {
        match self {
            Picker::Criteria(c) => item_matches(c, item),
            Picker::ExpiringWithin { now, days } => expires_by(item.expiration_date, *now, *days),
            Picker::LowStock => item.quantity <= LOW_STOCK_THRESHOLD,
        }
    }
}

impl InventoryStore {
    /// Copies of the items that the picker admits, in table order.
    fn pick(&self, picker: &Picker) -> (r: Vec<InventoryItem>)
        ensures
            items_view(r@) == self@.items.filter(picker.selection().test()),
    {
        let table = self.table();
        let ghost all = self@.items;
        let ghost test = picker.selection().test();
        let mut out: Vec<InventoryItem> = Vec::new();
        let mut i: usize = 0;
        assert(all.subrange(0, 0) =~= Seq::<ItemView>::empty());
        assert(items_view(out@) =~= all.subrange(0, 0).filter(test)) by {
            reveal(Seq::filter);
        }
        while i < table.len()
            invariant
                i <= table.len(),
                items_view(table@) == all,
                test == picker.selection().test(),
                items_view(out@) == all.subrange(0, i as int).filter(test),
            decreases table.len() - i,
        {
            let item = &table[i];
            proof {
                assert(all[i as int] == item@);
                lemma_filter_push(all.subrange(0, i as int), item@, test);
                assert(all.subrange(0, i + 1) =~= all.subrange(0, i as int).push(item@));
            }
            if picker.picks(item) {
                let ghost before = out@;
                out.push(item.clone());
                assert(items_view(out@) =~= items_view(before).push(item@));
            }
            i += 1;
        }
        assert(all.subrange(0, i as int) =~= all);
        out
    }

    /// The items that meet every criterion that is present, in table order.
    pub fn search_inventory(&self, criteria: &SearchCriteria) -> (r: Vec<InventoryItem>)
        ensures
            items_view(r@) == self@.items.filter(Selection::Criteria(criteria@).test()),
    {
        self.pick(&Picker::Criteria(criteria))
    }

    /// The items that expire at or before `days_threshold` days after `now`,
    /// whatever their stored status, in table order.
    pub fn get_expiring_items(&self, days_threshold: u64, now: u64) -> (r: Vec<InventoryItem>)
        ensures
            items_view(r@) == self@.items.filter(
                (Selection::ExpiringWithin { now, days: days_threshold }).test(),
            ),
    {
        self.pick(&Picker::ExpiringWithin { now, days: days_threshold })
    }

    /// The items at or below the low-stock threshold, in table order.
    pub fn get_low_stock_items(&self) -> (r: Vec<InventoryItem>)
        ensures
            items_view(r@) == self@.items.filter(Selection::LowStock.test()),
    {
        self.pick(&Picker::LowStock)
    }

    /// One page of the table. `page` counts from 1 and is 1 where it is not
    /// given; `per_page` is `DEFAULT_PER_PAGE` where it is not given; `total`
    /// counts the whole table.
    pub fn get_all_items(&self, page: Option<usize>, per_page: Option<usize>) -> (r:
        PaginatedResult)
        requires
            page != Some(0usize),
        ensures
            r.total == self@.items.len(),
            r.page == page.unwrap_or(1),
            r.per_page == per_page.unwrap_or(DEFAULT_PER_PAGE),
            items_view(r.items@) == page_of(self@.items, r.page as int, r.per_page as int),
    {
        let table = self.table();
        let total: usize = table.len();
        let per_page: usize = match per_page {
            Some(n) => n,
            None => DEFAULT_PER_PAGE,
        };
        let page: usize = match page {
            Some(n) => n,
            None => 1,
        };
        let ghost all = self@.items;
        let mut items: Vec<InventoryItem> = Vec::new();
        let start: usize = match (page - 1).checked_mul(per_page) {
            Some(s) => s,
            None => {
                assert(items_view(items@) =~= page_of(all, page as int, per_page as int));
                return PaginatedResult { items, total, page, per_page };
            },
        };
        if start >= total {
            assert(items_view(items@) =~= page_of(all, page as int, per_page as int));
            return PaginatedResult { items, total, page, per_page };
        }
        let end: usize = if per_page >= total - start {
            total
        } else {
            start + per_page
        };
        let mut i: usize = start;
        assert(items_view(items@) =~= all.subrange(start as int, i as int));
        while i < end
            invariant
                start <= i <= end <= table.len(),
                items_view(table@) == all,
                items_view(items@) == all.subrange(start as int, i as int),
            decreases end - i,
        {
            let ghost before = items@;
            items.push(table[i].clone());
            assert(items_view(items@) =~= items_view(before).push(all[i as int]));
            assert(all.subrange(start as int, i + 1) =~= all.subrange(start as int, i as int).push(
                all[i as int],
            ));
            i += 1;
        }
        PaginatedResult { items, total, page, per_page }
    }
}

} // verus!
