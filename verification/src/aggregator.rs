//! Batches of incoming items: validation against named rules, and the
//! running statistics of what was processed.

use vstd::prelude::*;
use vstd::string::*;
use crate::price::{is_positive, price_is_positive};
use crate::text::{decimal, decimal_text};

verus! {

#[derive(Clone, Copy, Debug, PartialEq, Eq, Structural)]
pub enum ProcessingStatus {
    Pending,
    Processing,
    Completed,
    Failed,
}

#[derive(Clone, Copy, Debug, PartialEq, Eq, Structural)]
pub enum DataSource {
    Excel,
    CSV,
    API,
    Manual,
}

/// A rule on one field of an item, with the message for an item that breaks
/// it. The fields "name", "quantity" and "price" are known; a rule on any
/// other field holds of every item.
#[derive(Debug)]
pub struct ValidationRule {
    pub rule_id: String,
    pub field: String,
    pub condition: String,
    pub error_message: String,
}

/// What a `ValidationRule` says.
pub struct ValidationRuleView {
    pub rule_id: Seq<char>,
    pub field: Seq<char>,
    pub condition: Seq<char>,
    pub error_message: Seq<char>,
}

impl View for ValidationRule {
    type V = ValidationRuleView;

    open spec fn view(&self) -> ValidationRuleView {
        ValidationRuleView {
            rule_id: self.rule_id@,
            field: self.field@,
            condition: self.condition@,
            error_message: self.error_message@,
        }
    }
}

/// An incoming item. `price` is the bit pattern of a binary64 number.
#[derive(Debug)]
pub struct InventoryItem {
    pub item_id: String,
    pub barcode: String,
    pub name: String,
    pub category: Option<String>,
    pub quantity: u32,
    pub expiration_date: u64,
    pub price: u64,
}

/// What an incoming item says, as far as the rules read it.
pub struct IncomingView {
    pub item_id: Seq<char>,
    pub barcode: Seq<char>,
    pub name: Seq<char>,
    pub category: Option<Seq<char>>,
    pub quantity: u32,
    pub expiration_date: u64,
    pub price: u64,
}

impl View for InventoryItem {
    type V = IncomingView;

    open spec fn view(&self) -> IncomingView {
        IncomingView {
            item_id: self.item_id@,
            barcode: self.barcode@,
            name: self.name@,
            category: match self.category {
                Some(c) => Some(c@),
                None => None,
            },
            quantity: self.quantity,
            expiration_date: self.expiration_date,
            price: self.price,
        }
    }
}

impl Clone for ValidationRule {
    fn clone(&self) -> (r: Self)
        ensures
            r@ == self@,
    {
        ValidationRule {
            rule_id: self.rule_id.clone(),
            field: self.field.clone(),
            condition: self.condition.clone(),
            error_message: self.error_message.clone(),
        }
    }
}

impl Clone for InventoryItem {
    fn clone(&self) -> (r: Self)
        ensures
            r@ == self@,
    {
        InventoryItem {
            item_id: self.item_id.clone(),
            barcode: self.barcode.clone(),
            name: self.name.clone(),
            category: match &self.category {
                Some(c) => Some(c.clone()),
                None => None,
            },
            quantity: self.quantity,
            expiration_date: self.expiration_date,
            price: self.price,
        }
    }
}

/// A batch of incoming items.
#[derive(Debug)]
pub struct DataBatch {
    pub batch_id: String,
    pub data: Vec<InventoryItem>,
    pub status: ProcessingStatus,
    pub created_at: u64,
    pub processed_at: Option<u64>,
}

/// The report on a batch that was processed.
#[derive(Debug)]
pub struct ProcessedData {
    pub batch_id: String,
    pub source: DataSource,
    pub timestamp: u64,
    pub status: ProcessingStatus,
    pub records_count: u32,
    pub success_count: u32,
    pub error_count: u32,
    pub validation_errors: Vec<String>,
}

/// A copy of a list of incoming items.
fn clone_incoming(items: &Vec<InventoryItem>) -> (r: Vec<InventoryItem>)
    ensures
        incoming_view(r@) == incoming_view(items@),
{
    let mut out: Vec<InventoryItem> = Vec::new();
    let mut i: usize = 0;
    while i < items.len()
        invariant
            i <= items.len(),
            out.len() == i,
            forall|j: int| 0 <= j < i ==> out@[j]@ == items@[j]@,
        decreases items.len() - i,
    {
        out.push(items[i].clone());
        i += 1;
    }
    assert(incoming_view(out@) =~= incoming_view(items@));
    out
}

/// A copy of a list of texts.
fn clone_texts(texts: &Vec<String>) -> (r: Vec<String>)
    ensures
        texts_view(r@) == texts_view(texts@),
{
    let mut out: Vec<String> = Vec::new();
    let mut i: usize = 0;
    while i < texts.len()
        invariant
            i <= texts.len(),
            out.len() == i,
            forall|j: int| 0 <= j < i ==> out@[j]@ == texts@[j]@,
        decreases texts.len() - i,
    {
        out.push(texts[i].clone());
        i += 1;
    }
    assert(texts_view(out@) =~= texts_view(texts@));
    out
}

impl Clone for DataBatch {
    fn clone(&self) -> (r: Self)
        ensures
            r.batch_id@ == self.batch_id@,
            incoming_view(r.data@) == incoming_view(self.data@),
            r.status == self.status,
            r.created_at == self.created_at,
            r.processed_at == self.processed_at,
    {
        DataBatch {
            batch_id: self.batch_id.clone(),
            data: clone_incoming(&self.data),
            status: self.status,
            created_at: self.created_at,
            processed_at: self.processed_at,
        }
    }
}

impl Clone for ProcessedData {
    fn clone(&self) -> (r: Self)
        ensures
            r.batch_id@ == self.batch_id@,
            r.source == self.source,
            r.timestamp == self.timestamp,
            r.status == self.status,
            r.records_count == self.records_count,
            r.success_count == self.success_count,
            r.error_count == self.error_count,
            texts_view(r.validation_errors@) == texts_view(self.validation_errors@),
    {
        ProcessedData {
            batch_id: self.batch_id.clone(),
            source: self.source,
            timestamp: self.timestamp,
            status: self.status,
            records_count: self.records_count,
            success_count: self.success_count,
            error_count: self.error_count,
            validation_errors: clone_texts(&self.validation_errors),
        }
    }
}

/// Counts over all batches so far. The rate of success is the ratio of
/// `successful_batches` to `total_batches`.
#[derive(Clone, Copy, Debug, PartialEq, Eq, Structural)]
pub struct ProcessingStatistics {
    pub total_batches: u64,
    pub successful_batches: u64,
    pub failed_batches: u64,
    pub total_records: u64,
}

/// Why a batch was not processed.
#[derive(Debug)]
pub enum ProcessError {
    /// There is no such batch.
    BatchNotFound,
    /// Items broke rules: the messages, item by item.
    ValidationFailed(Vec<String>),
    /// The batch holds no item.
    NoItems,
    /// The upload holds no byte.
    EmptyInput,
}

/// The items of a batch, in order.
pub open spec fn incoming_view(items: Seq<InventoryItem>) -> Seq<IncomingView> {
    items.map_values(|it: InventoryItem| it@)
}

/// The rules of a list, in order.
pub open spec fn rules_view(rules: Seq<ValidationRule>) -> Seq<ValidationRuleView> {
    rules.map_values(|r: ValidationRule| r@)
}

/// The texts of a list of strings, in order.
pub open spec fn texts_view(texts: Seq<String>) -> Seq<Seq<char>> {
    texts.map_values(|s: String| s@)
}

/// Whether the item keeps the rule.
pub open spec fn rule_holds(item: IncomingView, rule: ValidationRuleView) -> bool {
    if rule.field == "name"@ {
        item.name.len() > 0
    } else if rule.field == "quantity"@ {
        item.quantity > 0
    } else if rule.field == "price"@ {
        is_positive(item.price)
    } else {
        true
    }
}

/// The messages of the rules that the item breaks, in the order of the rules.
pub open spec fn item_errors(item: IncomingView, rules: Seq<ValidationRuleView>) -> Seq<Seq<char>>
    decreases rules.len(),
{
    if rules.len() == 0 {
        Seq::empty()
    } else {
        let before = item_errors(item, rules.drop_last());
        if rule_holds(item, rules.last()) {
            before
        } else {
            before.push(rules.last().error_message)
        }
    }
}

/// The messages for a whole batch: those of the first item, then those of
/// the second, and so on.
pub open spec fn batch_errors(items: Seq<IncomingView>, rules: Seq<ValidationRuleView>) -> Seq<
    Seq<char>,
>
    decreases items.len(),
{
    if items.len() == 0 {
        Seq::empty()
    } else {
        batch_errors(items.drop_last(), rules) + item_errors(items.last(), rules)
    }
}

/// Whether `after` is `before` with one more batch of `record_count`
/// records counted, as a success or as a failure.
pub open spec fn counted(
    before: ProcessingStatistics,
    after: ProcessingStatistics,
    success: bool,
    record_count: int,
) -> bool {
    &&& after.total_batches == before.total_batches + 1
    &&& after.total_records == before.total_records + record_count
    &&& after.successful_batches == before.successful_batches + if success {
        1int
    } else {
        0int
    }
    &&& after.failed_batches == before.failed_batches + if success {
        0int
    } else {
        1int
    }
}

/// Whether the statistics can take one more batch of `record_count` records
/// without a counter running over.
pub open spec fn has_room(stats: ProcessingStatistics, record_count: int) -> bool {
    &&& stats.total_batches < u64::MAX
    &&& stats.successful_batches < u64::MAX
    &&& stats.failed_batches < u64::MAX
    &&& stats.total_records + record_count <= u64::MAX
}

impl ProcessingStatistics {
    /// Statistics of nothing.
    pub fn new() -> (r: Self)
        ensures
            r.total_batches == 0,
            r.successful_batches == 0,
            r.failed_batches == 0,
            r.total_records == 0,
    {
        ProcessingStatistics {
            total_batches: 0,
            successful_batches: 0,
            failed_batches: 0,
            total_records: 0,
        }
    }
}

pub fn validate_item(item: &InventoryItem, rule: &ValidationRule) -> (r: bool)
    ensures
        r == rule_holds(item@, rule@),
{
    if rule.field == String::from_str("name") {
        item.name.as_str().unicode_len() > 0
    } else if rule.field == String::from_str("quantity") {
        item.quantity > 0
    } else if rule.field == String::from_str("price") {
        price_is_positive(item.price)
    } else {
        true
    }
}

/// The messages of every rule that an item of the batch breaks.
pub fn validate_batch(batch: &DataBatch, rules: &Vec<ValidationRule>) -> (errors: Vec<String>)
    ensures
        texts_view(errors@) == batch_errors(incoming_view(batch.data@), rules_view(rules@)),
{
    let ghost items = incoming_view(batch.data@);
    let ghost all_rules = rules_view(rules@);
    let mut errors: Vec<String> = Vec::new();
    let mut i: usize = 0;
    assert(items.subrange(0, 0) =~= Seq::<IncomingView>::empty());
    assert(texts_view(errors@) =~= batch_errors(items.subrange(0, 0), all_rules));
    while i < batch.data.len()
        invariant
            i <= batch.data.len(),
            items == incoming_view(batch.data@),
            all_rules == rules_view(rules@),
            texts_view(errors@) == batch_errors(items.subrange(0, i as int), all_rules),
        decreases batch.data.len() - i,
    {
        let item = &batch.data[i];
        let ghost done = texts_view(errors@);
        let mut j: usize = 0;
        assert(all_rules.subrange(0, 0) =~= Seq::<ValidationRuleView>::empty());
        assert(texts_view(errors@) =~= done + item_errors(item@, all_rules.subrange(0, 0)));
        while j < rules.len()
            invariant
                j <= rules.len(),
                all_rules == rules_view(rules@),
                texts_view(errors@) == done + item_errors(item@, all_rules.subrange(0, j as int)),
            decreases rules.len() - j,
        {
            let rule = &rules[j];
            let ghost upto = all_rules.subrange(0, j + 1);
            proof {
                assert(upto.drop_last() =~= all_rules.subrange(0, j as int));
                assert(upto.last() == rule@);
            }
            if !validate_item(item, rule) {
                let ghost before = errors@;
                errors.push(rule.error_message.clone());
                assert(texts_view(errors@) =~= texts_view(before).push(rule@.error_message));
                assert(texts_view(errors@) =~= done + item_errors(item@, upto));
            }
            j += 1;
        }
        proof {
            assert(all_rules.subrange(0, rules.len() as int) =~= all_rules);
            let next = items.subrange(0, i + 1);
            assert(next.drop_last() =~= items.subrange(0, i as int));
            assert(next.last() == item@);
        }
        i += 1;
    }
    assert(items.subrange(0, i as int) =~= items);
    errors
}

/// Counts one more batch of `record_count` records.
pub fn update_processing_stats(stats: &mut ProcessingStatistics, success: bool, record_count: usize)
    requires
        has_room(*old(stats), record_count as int),
    ensures
        counted(*old(stats), *final(stats), success, record_count as int),
{
    stats.total_batches += 1;
    stats.total_records += record_count as u64;
    if success {
        stats.successful_batches += 1;
    } else {
        stats.failed_batches += 1;
    }
}

/// Whether `report` is the report on the batch `b`, processed at `now` with
/// every record accepted. The counts are the number of items as 32 bits hold
/// it.
pub open spec fn reports_success(report: ProcessedData, b: DataBatch, now: u64) -> bool {
    &&& report.batch_id@ == b.batch_id@
    &&& report.source == DataSource::Excel
    &&& report.timestamp == now
    &&& report.status == ProcessingStatus::Completed
    &&& report.records_count == b.data@.len() as u32
    &&& report.success_count == b.data@.len() as u32
    &&& report.error_count == 0
    &&& report.validation_errors@.len() == 0
}

/// What processing the batch `b` at `now` leaves: the statistics `after`
/// and the result `r`.
pub open spec fn processed(
    b: DataBatch,
    rules: Seq<ValidationRule>,
    before: ProcessingStatistics,
    after: ProcessingStatistics,
    now: u64,
    r: Result<ProcessedData, ProcessError>,
) -> bool {
    let errors = batch_errors(incoming_view(b.data@), rules_view(rules));
    let good = errors.len() == 0 && b.data@.len() > 0;
    &&& counted(before, after, good, b.data@.len() as int)
    &&& errors.len() > 0 ==> r is Err && r->Err_0 is ValidationFailed && texts_view(
        r->Err_0->ValidationFailed_0@,
    ) == errors
    &&& errors.len() == 0 && b.data@.len() == 0 ==> r is Err && r->Err_0 is NoItems
    &&& good ==> r is Ok && reports_success(r->Ok_0, b, now)
}

/// Whether a batch of this many items can go to the inventory: an empty one
/// cannot.
pub fn update_inventory(items_count: usize) -> (r: Result<(), ProcessError>)
    ensures
        items_count > 0 ==> r is Ok,
        items_count == 0 ==> r matches Err(ProcessError::NoItems),
{
    if items_count > 0 {
        Ok(())
    } else {
        Err(ProcessError::NoItems)
    }
}

/// Validates the batch and reports on it at `now`. The batch counts as a
/// success where no item breaks a rule and it holds an item; every other
/// batch that was found counts as a failure.
pub fn process_batch(
    batch: Option<&DataBatch>,
    rules: &Vec<ValidationRule>,
    stats: &mut ProcessingStatistics,
    now: u64,
) -> (r: Result<ProcessedData, ProcessError>)
    requires
        batch matches Some(b) ==> has_room(*old(stats), b.data@.len() as int),
    ensures
        match batch {
            None => r matches Err(ProcessError::BatchNotFound) && *final(stats) == *old(stats),
            Some(b) => processed(*b, rules@, *old(stats), *final(stats), now, r),
        },
{
    let batch = match batch {
        Some(b) => b,
        None => {
            return Err(ProcessError::BatchNotFound);
        },
    };
    let validation_results = validate_batch(batch, rules);
    let count: usize = batch.data.len();
    if validation_results.len() == 0 {
        match update_inventory(count) {
            Ok(_) => {
                let records: u32 = #[verifier::truncate]
                (count as u32);
                let report = ProcessedData {
                    batch_id: batch.batch_id.clone(),
                    source: DataSource::Excel,
                    timestamp: now,
                    status: ProcessingStatus::Completed,
                    records_count: records,
                    success_count: records,
                    error_count: 0,
                    validation_errors: Vec::new(),
                };
                update_processing_stats(stats, true, count);
                Ok(report)
            },
            Err(e) => {
                update_processing_stats(stats, false, count);
                Err(e)
            },
        }
    } else {
        update_processing_stats(stats, false, count);
        Err(ProcessError::ValidationFailed(validation_results))
    }
}

/// Bits of the price of the sample item, 9.99.
pub const SAMPLE_PRICE: u64 = 0x4023_fae1_47ae_147b;

/// How long after the upload the sample item expires.
pub const SAMPLE_SHELF_LIFE: u64 = 86_400_000;

/// The items that an upload at `now` is read as: the format is not decoded
/// yet, and every upload that holds a byte gives the same one sample item.
pub open spec fn sample_items(now: u64) -> Seq<IncomingView> {
    seq![
        IncomingView {
            item_id: "TEST_001"@,
            barcode: "123456789"@,
            name: "Test Item"@,
            category: Some("Test Category"@),
            quantity: 10,
            expiration_date: (now + SAMPLE_SHELF_LIFE) as u64,
            price: SAMPLE_PRICE,
        },
    ]
}

/// The id of the batch that is uploaded at `now`: the time in decimal
/// digits behind a fixed word.
pub open spec fn batch_id_text(now: u64) -> Seq<char> {
    "BATCH_"@ + decimal_text(now as nat)
}

/// The id of the batch that is uploaded at `now`.
pub fn generate_batch_id(now: u64) -> (r: String)
    ensures
        r@ == batch_id_text(now),
{
    String::from_str("BATCH_").concat(decimal(now).as_str())
}

/// Reads an upload as items. An upload without a byte is refused.
pub fn process_excel_data(excel_data: &Vec<u8>, now: u64) -> (r: Result<
    Vec<InventoryItem>,
    ProcessError,
>)
    requires
        now + SAMPLE_SHELF_LIFE <= u64::MAX,
    ensures
        excel_data@.len() == 0 ==> r is Err && r->Err_0 is EmptyInput,
        excel_data@.len() > 0 ==> r is Ok && incoming_view(r->Ok_0@) == sample_items(now),
{
    if excel_data.len() == 0 {
        return Err(ProcessError::EmptyInput);
    }
    let mut items: Vec<InventoryItem> = Vec::new();
    items.push(
        InventoryItem {
            item_id: String::from_str("TEST_001"),
            barcode: String::from_str("123456789"),
            name: String::from_str("Test Item"),
            category: Some(String::from_str("Test Category")),
            quantity: 10,
            expiration_date: now + SAMPLE_SHELF_LIFE,
            price: SAMPLE_PRICE,
        },
    );
    assert(incoming_view(items@) =~= sample_items(now));
    Ok(items)
}

/// What an upload leaves: the batch to keep, where one was made, and the
/// result of processing it.
#[derive(Debug)]
pub struct Upload {
    pub batch: Option<DataBatch>,
    pub outcome: Result<ProcessedData, ProcessError>,
}

/// Reads an upload at `now` as a pending batch and processes it.
pub fn upload_inventory_excel(
    data: &Vec<u8>,
    rules: &Vec<ValidationRule>,
    stats: &mut ProcessingStatistics,
    now: u64,
) -> (r: Upload)
    requires
        now + SAMPLE_SHELF_LIFE <= u64::MAX,
        has_room(*old(stats), 1),
    ensures
        data@.len() == 0 ==> r.batch is None && r.outcome is Err && r.outcome->Err_0 is EmptyInput
            && *final(stats) == *old(stats),
        data@.len() > 0 ==> r.batch is Some && {
            let b = r.batch->0;
            &&& b.batch_id@ == batch_id_text(now)
            &&& incoming_view(b.data@) == sample_items(now)
            &&& b.status == ProcessingStatus::Pending
            &&& b.created_at == now
            &&& b.processed_at is None
            &&& processed(b, rules@, *old(stats), *final(stats), now, r.outcome)
        },
{
    let batch_id = generate_batch_id(now);
    match process_excel_data(data, now) {
        Ok(items) => {
            assert(items@.len() == incoming_view(items@).len());
            let batch = DataBatch {
                batch_id,
                data: items,
                status: ProcessingStatus::Pending,
                created_at: now,
                processed_at: None,
            };
            let outcome = process_batch(Some(&batch), rules, stats, now);
            Upload { batch: Some(batch), outcome }
        },
        Err(e) => Upload { batch: None, outcome: Err(e) },
    }
}

} // verus!
