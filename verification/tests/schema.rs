use page_harness::schema::{AccountsTable, SchemaController, TableError};

#[test]
fn reset_leaves_an_existing_empty_table() {
    let mut ctl = SchemaController::new();
    assert!(!ctl.table_exists());
    ctl.reset_table();
    assert!(ctl.table_exists());
    match &ctl.table {
        Some(t) => assert_eq!(t.row_count(), 0),
        None => panic!("table missing after reset"),
    }
}

#[test]
fn reset_discards_previous_rows() {
    let mut ctl = SchemaController::new();
    ctl.reset_table();
    match &mut ctl.table {
        Some(t) => {
            t.upsert_placeholder(String::from("2y"));
            assert_eq!(t.row_count(), 1);
        },
        None => panic!("table missing after reset"),
    }
    ctl.reset_table();
    match &ctl.table {
        Some(t) => assert_eq!(t.row_count(), 0),
        None => panic!("table missing after reset"),
    }
}

#[test]
fn drop_removes_the_table() {
    let mut ctl = SchemaController::new();
    ctl.reset_table();
    ctl.drop_table();
    assert!(!ctl.table_exists());
}

#[test]
fn upsert_twice_returns_same_id_and_one_row() {
    let mut t = AccountsTable::new();
    let id1 = t.upsert_placeholder(String::from("2y"));
    let id2 = t.upsert_placeholder(String::from("2y"));
    assert_eq!(id1, id2);
    assert_eq!(t.row_count(), 1);
}

#[test]
fn upsert_assigns_sequential_ids() {
    let mut t = AccountsTable::new();
    assert_eq!(t.upsert_placeholder(String::from("2y")), 1);
    assert_eq!(t.upsert_placeholder(String::from("3z")), 2);
    assert_eq!(t.upsert_placeholder(String::from("2y")), 1);
    assert_eq!(t.row_count(), 2);
}

#[test]
fn upsert_starts_with_zero_balance() {
    let mut t = AccountsTable::new();
    let id = t.upsert_placeholder(String::from("2y"));
    assert_eq!(t.get_balance(id), Some(0));
}

#[test]
fn set_balance_overwrites_only_that_row() {
    let mut t = AccountsTable::new();
    let a = t.upsert_placeholder(String::from("2y"));
    let b = t.upsert_placeholder(String::from("3z"));
    assert!(t.set_balance(a, 15).is_ok());
    assert_eq!(t.get_balance(a), Some(15));
    assert_eq!(t.get_balance(b), Some(0));
}

#[test]
fn set_balance_of_missing_row_reports_no_such_record() {
    let mut t = AccountsTable::new();
    t.upsert_placeholder(String::from("2y"));
    let r = t.set_balance(55, 1);
    assert!(matches!(r, Err(TableError::NoSuchRecord)));
    assert_eq!(t.get_balance(55), None);
}

#[test]
fn repeated_updates_keep_one_row() {
    let mut t = AccountsTable::new();
    let id = t.upsert_placeholder(String::from("2y"));
    for balance in 1..=15 {
        assert!(t.set_balance(id, balance).is_ok());
    }
    assert_eq!(t.row_count(), 1);
    assert_eq!(t.get_balance(id), Some(15));
}
