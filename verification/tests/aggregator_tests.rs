use xero::aggregator::{
    generate_batch_id, process_batch, process_excel_data, update_inventory, update_processing_stats,
    upload_inventory_excel, validate_batch, validate_item, DataBatch, DataSource, InventoryItem,
    ProcessError, ProcessingStatistics, ProcessingStatus, ValidationRule, SAMPLE_PRICE,
};

fn s(text: &str) -> String {
    text.to_string()
}

fn rule(field: &str, message: &str) -> ValidationRule {
    ValidationRule {
        rule_id: format!("r-{}", field),
        field: s(field),
        condition: s("present"),
        error_message: s(message),
    }
}

fn item(name: &str, quantity: u32, price: f64) -> InventoryItem {
    InventoryItem {
        item_id: s("X"),
        barcode: s("1"),
        name: s(name),
        category: None,
        quantity,
        expiration_date: 0,
        price: price.to_bits(),
    }
}

fn batch(items: Vec<InventoryItem>) -> DataBatch {
    DataBatch {
        batch_id: s("BATCH_7"),
        data: items,
        status: ProcessingStatus::Pending,
        created_at: 7,
        processed_at: None,
    }
}

fn rules() -> Vec<ValidationRule> {
    vec![
        rule("name", "name missing"),
        rule("quantity", "quantity missing"),
        rule("price", "price missing"),
        rule("colour", "colour missing"),
    ]
}

#[test]
fn a_rule_reads_its_field() {
    let good = item("Milk", 1, 0.5);
    let bad = item("", 0, 0.0);
    for r in rules() {
        assert!(validate_item(&good, &r));
    }
    assert!(!validate_item(&bad, &rule("name", "m")));
    assert!(!validate_item(&bad, &rule("quantity", "m")));
    assert!(!validate_item(&bad, &rule("price", "m")));
    assert!(!validate_item(&item("Milk", 1, f64::NAN), &rule("price", "m")));
    assert!(validate_item(&bad, &rule("colour", "m")));
    assert!(validate_item(&bad, &rule("Name", "m")));
    assert!(validate_item(&item(" ", 1, 1.0), &rule("name", "m")));
}

#[test]
fn messages_come_item_by_item_and_rule_by_rule() {
    let b = batch(vec![item("", 3, 0.0), item("Milk", 1, 1.0), item("Bread", 0, 2.0)]);
    let errors = validate_batch(&b, &rules());
    assert_eq!(errors, vec!["name missing", "price missing", "quantity missing"]);
    assert_eq!(validate_batch(&b, &vec![]), Vec::<String>::new());
    assert_eq!(validate_batch(&batch(vec![]), &rules()), Vec::<String>::new());
}

#[test]
fn statistics_count_batches_and_records() {
    let mut stats = ProcessingStatistics::new();
    update_processing_stats(&mut stats, true, 10);
    update_processing_stats(&mut stats, false, 5);
    update_processing_stats(&mut stats, true, 0);
    assert_eq!(
        stats,
        ProcessingStatistics {
            total_batches: 3,
            successful_batches: 2,
            failed_batches: 1,
            total_records: 15,
        }
    );
}

#[test]
fn an_empty_batch_cannot_update_the_inventory() {
    assert!(update_inventory(1).is_ok());
    assert!(matches!(update_inventory(0), Err(ProcessError::NoItems)));
}

#[test]
fn a_clean_batch_is_reported_as_completed() {
    let mut stats = ProcessingStatistics::new();
    let b = batch(vec![item("Milk", 1, 1.0), item("Bread", 2, 2.0)]);
    let report = process_batch(Some(&b), &rules(), &mut stats, 99).unwrap();
    assert_eq!(report.batch_id, "BATCH_7");
    assert_eq!(report.source, DataSource::Excel);
    assert_eq!(report.timestamp, 99);
    assert_eq!(report.status, ProcessingStatus::Completed);
    assert_eq!(report.records_count, 2);
    assert_eq!(report.success_count, 2);
    assert_eq!(report.error_count, 0);
    assert!(report.validation_errors.is_empty());
    assert_eq!(stats.total_batches, 1);
    assert_eq!(stats.successful_batches, 1);
    assert_eq!(stats.failed_batches, 0);
    assert_eq!(stats.total_records, 2);
}

#[test]
fn a_batch_with_broken_rules_fails_with_the_messages() {
    let mut stats = ProcessingStatistics::new();
    let b = batch(vec![item("Milk", 0, 1.0), item("", 2, 2.0)]);
    match process_batch(Some(&b), &rules(), &mut stats, 99) {
        Err(ProcessError::ValidationFailed(messages)) => {
            assert_eq!(messages, vec!["quantity missing", "name missing"]);
        },
        other => panic!("not a validation failure: {:?}", other),
    }
    assert_eq!(stats.total_batches, 1);
    assert_eq!(stats.successful_batches, 0);
    assert_eq!(stats.failed_batches, 1);
    assert_eq!(stats.total_records, 2);
}

#[test]
fn an_empty_batch_fails_and_counts() {
    let mut stats = ProcessingStatistics::new();
    let b = batch(vec![]);
    assert!(matches!(process_batch(Some(&b), &rules(), &mut stats, 99), Err(ProcessError::NoItems)));
    assert_eq!(stats.total_batches, 1);
    assert_eq!(stats.failed_batches, 1);
    assert_eq!(stats.total_records, 0);
}

#[test]
fn a_missing_batch_is_not_counted() {
    let mut stats = ProcessingStatistics::new();
    let r = process_batch(None, &rules(), &mut stats, 99);
    assert!(matches!(r, Err(ProcessError::BatchNotFound)));
    assert_eq!(stats, ProcessingStatistics::new());
}

#[test]
fn an_upload_without_bytes_is_refused() {
    assert!(matches!(process_excel_data(&vec![], 5), Err(ProcessError::EmptyInput)));
    let mut stats = ProcessingStatistics::new();
    let up = upload_inventory_excel(&vec![], &rules(), &mut stats, 5);
    assert!(up.batch.is_none());
    assert!(matches!(up.outcome, Err(ProcessError::EmptyInput)));
    assert_eq!(stats, ProcessingStatistics::new());
}

#[test]
fn an_upload_is_read_as_the_sample_item() {
    let items = process_excel_data(&vec![0u8], 1000).unwrap();
    assert_eq!(items.len(), 1);
    assert_eq!(items[0].item_id, "TEST_001");
    assert_eq!(items[0].barcode, "123456789");
    assert_eq!(items[0].name, "Test Item");
    assert_eq!(items[0].category, Some(s("Test Category")));
    assert_eq!(items[0].quantity, 10);
    assert_eq!(items[0].expiration_date, 1000 + 86_400_000);
    assert_eq!(f64::from_bits(items[0].price), 9.99);
    assert_eq!(SAMPLE_PRICE, 9.99f64.to_bits());
}

#[test]
fn an_upload_is_processed_under_an_id_made_of_the_time() {
    let mut stats = ProcessingStatistics::new();
    let up = upload_inventory_excel(&vec![1, 2, 3], &rules(), &mut stats, 1234);
    let b = up.batch.unwrap();
    assert_eq!(b.batch_id, "BATCH_1234");
    assert_eq!(b.status, ProcessingStatus::Pending);
    assert_eq!(b.created_at, 1234);
    assert_eq!(b.processed_at, None);
    assert_eq!(b.data.len(), 1);
    let report = up.outcome.unwrap();
    assert_eq!(report.batch_id, "BATCH_1234");
    assert_eq!(report.records_count, 1);
    assert_eq!(report.timestamp, 1234);
    assert_eq!(stats.total_batches, 1);
    assert_eq!(stats.successful_batches, 1);
    assert_eq!(stats.total_records, 1);
}

#[test]
fn batch_ids_are_made_of_the_time() {
    assert_eq!(generate_batch_id(0), "BATCH_0");
    assert_eq!(generate_batch_id(1_700_000_000_000_000_000), "BATCH_1700000000000000000");
    assert_eq!(generate_batch_id(u64::MAX), format!("BATCH_{}", u64::MAX));
}
