use page_harness::inspect::{count_tuples_by_lpflag, HeapPageItem, StatusCounts};

fn item(flag: i32) -> HeapPageItem {
    HeapPageItem { lp_flags: flag, t_xmin: Some(String::from("812")), t_xmax: None }
}

fn items(flags: &[i32]) -> Vec<HeapPageItem> {
    flags.iter().map(|f| item(*f)).collect()
}

#[test]
fn classify_empty_returns_empty_mapping() {
    let counts: StatusCounts = count_tuples_by_lpflag(Vec::new());
    assert_eq!(counts.len(), 0);
    assert_eq!(counts.get(0), None);
    assert_eq!(counts.get(1), None);
}

#[test]
fn classify_uniform_returns_single_entry() {
    let counts = count_tuples_by_lpflag(items(&[1; 16]));
    assert_eq!(counts.len(), 1);
    assert_eq!(counts.get(1), Some(16));
    assert_eq!(counts.get(0), None);
    assert_eq!(counts.get(2), None);
}

#[test]
fn classify_mixed_counts_each_flag() {
    let counts = count_tuples_by_lpflag(items(&[2, 0, 1, 0, 3, 0, 1]));
    assert_eq!(counts.len(), 4);
    assert_eq!(counts.get(0), Some(3));
    assert_eq!(counts.get(1), Some(2));
    assert_eq!(counts.get(2), Some(1));
    assert_eq!(counts.get(3), Some(1));
    assert_eq!(counts.get(4), None);
}

#[test]
fn classify_orders_entries_ascending_by_flag() {
    let counts = count_tuples_by_lpflag(items(&[3, 1, 2, 1, 0, 2]));
    let flags: Vec<i32> = counts.entries.iter().map(|e| e.0).collect();
    assert_eq!(flags, vec![0, 1, 2, 3]);
}

#[test]
fn classify_is_order_independent() {
    let a = count_tuples_by_lpflag(items(&[0, 0, 1, 2, 1, 0]));
    let b = count_tuples_by_lpflag(items(&[1, 0, 2, 0, 1, 0]));
    for f in -1..5 {
        assert_eq!(a.get(f), b.get(f));
    }
    assert_eq!(a.len(), b.len());
}

#[test]
fn classify_pruned_page_counts() {
    // The mapping expected right after an opportunistic prune of a filled
    // page: thirteen unused, two normal, one redirecting line pointer.
    let mut flags: Vec<i32> = vec![2];
    flags.extend([0; 13]);
    flags.extend([1; 2]);
    let counts = count_tuples_by_lpflag(items(&flags));
    assert_eq!(counts.get(0), Some(13));
    assert_eq!(counts.get(1), Some(2));
    assert_eq!(counts.get(2), Some(1));
    assert_eq!(counts.len(), 3);
}

#[test]
fn classify_handles_negative_flags() {
    let counts = count_tuples_by_lpflag(items(&[-7, 3, -7]));
    assert_eq!(counts.get(-7), Some(2));
    assert_eq!(counts.get(3), Some(1));
    let flags: Vec<i32> = counts.entries.iter().map(|e| e.0).collect();
    assert_eq!(flags, vec![-7, 3]);
}

#[test]
fn diagnostic_records_carry_transaction_stamps_as_text() {
    let rec = HeapPageItem {
        lp_flags: 1,
        t_xmin: Some(String::from("3000000000")),
        t_xmax: Some(String::from("3000000001")),
    };
    let counts = count_tuples_by_lpflag(vec![rec]);
    assert_eq!(counts.get(1), Some(1));
}
