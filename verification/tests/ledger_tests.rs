use xero::ledger::{DuplicateIdError, Ledger};

fn s(text: &str) -> String {
    text.to_string()
}

fn record(ledger: &mut Ledger, id: &str, now: u64) -> Result<(), DuplicateIdError> {
    ledger.add_transaction(s(id), s("add_item"), format!("details of {}", id), s("alice"), now)
}

#[test]
fn new_ledger_is_empty() {
    let ledger = Ledger::new();
    assert_eq!(ledger.list_transactions().len(), 0);
    assert_eq!(ledger.get_transaction(s("t1")).unwrap_err().key, "t1");
}

#[test]
fn a_recorded_transaction_is_found() {
    let mut ledger = Ledger::new();
    assert_eq!(record(&mut ledger, "t1", 11), Ok(()));
    let t = ledger.get_transaction(s("t1")).unwrap();
    assert_eq!(t.transaction_id, "t1");
    assert_eq!(t.timestamp, 11);
    assert_eq!(t.action_type, "add_item");
    assert_eq!(t.details, "details of t1");
    assert_eq!(t.actor_id, "alice");
}

#[test]
fn a_second_use_of_an_id_is_refused() {
    let mut ledger = Ledger::new();
    assert_eq!(record(&mut ledger, "t1", 11), Ok(()));
    assert_eq!(record(&mut ledger, "t2", 12), Ok(()));
    assert_eq!(record(&mut ledger, "t1", 13), Err(DuplicateIdError {}));
    assert_eq!(ledger.list_transactions().len(), 2);
    assert_eq!(ledger.get_transaction(s("t1")).unwrap().timestamp, 11);
}

#[test]
fn transactions_are_listed_in_append_order() {
    let mut ledger = Ledger::new();
    for (i, id) in ["c", "a", "b", "d"].iter().enumerate() {
        record(&mut ledger, id, i as u64).unwrap();
    }
    let all = ledger.list_transactions();
    let ids: Vec<&str> = all.iter().map(|t| t.transaction_id.as_str()).collect();
    assert_eq!(ids, vec!["c", "a", "b", "d"]);
    let times: Vec<u64> = all.iter().map(|t| t.timestamp).collect();
    assert_eq!(times, vec![0, 1, 2, 3]);
    assert!(ledger.get_transaction(s("e")).is_err());
}
