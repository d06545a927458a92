use page_harness::experiment::{
    page_all_normal, page_pruned, ConcurrentPhase, ConcurrentTxExperiment, DbAction, DbEvent,
    HeapPruneExperiment, IndexReadExperiment, IndexReadPhase, PrunePhase, SnapshotRelation,
};
use page_harness::inspect::HeapPageItem;

fn page(flags: &[i32]) -> Vec<HeapPageItem> {
    flags
        .iter()
        .map(|f| HeapPageItem { lp_flags: *f, t_xmin: Some(String::from("901")), t_xmax: None })
        .collect()
}

/// A page as scenario A expects it: sixteen line pointers, all normal.
fn full_hot_chain() -> Vec<HeapPageItem> {
    page(&[1; 16])
}

/// A page as scenario B expects it after the prune: sixteen line pointers
/// with counts {unused: 13, normal: 2, redirect: 1}.
fn pruned_after_overflow() -> Vec<HeapPageItem> {
    let mut flags: Vec<i32> = vec![2, 1];
    flags.extend([0; 13]);
    flags.push(1);
    page(&flags)
}

/// A page as scenario C expects it after commit and re-read: seventeen line
/// pointers with counts {unused: 15, normal: 1, redirect: 1}.
fn pruned_after_commit() -> Vec<HeapPageItem> {
    let mut flags: Vec<i32> = vec![2];
    flags.extend([0; 15]);
    flags.push(1);
    page(&flags)
}

/// Drive a heap-prune experiment through scenario A: reset, upsert, fifteen
/// balance updates with values 1..=15, then a page read that must show
/// sixteen all-normal line pointers.
fn drive_scenario_a(m: &mut HeapPruneExperiment) {
    assert_eq!(m.next(DbEvent::Start), DbAction::ResetAccounts);
    assert_eq!(m.next(DbEvent::Done), DbAction::UpsertProbeAccount);
    assert_eq!(
        m.next(DbEvent::UpsertedId(1)),
        DbAction::SetBalance { a_id: 1, balance: 1 }
    );
    for balance in 2..=15 {
        assert_eq!(
            m.next(DbEvent::Done),
            DbAction::SetBalance { a_id: 1, balance }
        );
    }
    assert_eq!(m.next(DbEvent::Done), DbAction::ReadHeapPage { blkno: 0 });
    // The observation matches: the experiment moves on to the overflow
    // update instead of failing.
    assert_eq!(
        m.next(DbEvent::PageItems(full_hot_chain())),
        DbAction::SetBalance { a_id: 1, balance: 17 }
    );
}

#[test]
fn scenario_a_full_page_is_all_normal() {
    let mut m = HeapPruneExperiment::new(17);
    drive_scenario_a(&mut m);
    assert!(matches!(m.phase, PrunePhase::Overflowing));
}

#[test]
fn scenario_a_rejects_a_short_chain() {
    let mut m = HeapPruneExperiment::new(17);
    assert_eq!(m.next(DbEvent::Start), DbAction::ResetAccounts);
    assert_eq!(m.next(DbEvent::Done), DbAction::UpsertProbeAccount);
    assert_eq!(
        m.next(DbEvent::UpsertedId(1)),
        DbAction::SetBalance { a_id: 1, balance: 1 }
    );
    for balance in 2..=15 {
        assert_eq!(
            m.next(DbEvent::Done),
            DbAction::SetBalance { a_id: 1, balance }
        );
    }
    assert_eq!(m.next(DbEvent::Done), DbAction::ReadHeapPage { blkno: 0 });
    assert_eq!(
        m.next(DbEvent::PageItems(page(&[1; 15]))),
        DbAction::Finished { ok: false }
    );
    assert!(matches!(m.phase, PrunePhase::Complete { ok: false }));
}

#[test]
fn scenario_b_one_more_update_prunes_the_page() {
    let mut m = HeapPruneExperiment::new(17);
    drive_scenario_a(&mut m);
    assert_eq!(m.next(DbEvent::Done), DbAction::ReadHeapPage { blkno: 0 });
    assert_eq!(
        m.next(DbEvent::PageItems(pruned_after_overflow())),
        DbAction::Finished { ok: true }
    );
    assert!(matches!(m.phase, PrunePhase::Complete { ok: true }));
}

#[test]
fn scenario_b_rejects_an_unpruned_page() {
    let mut m = HeapPruneExperiment::new(17);
    drive_scenario_a(&mut m);
    assert_eq!(m.next(DbEvent::Done), DbAction::ReadHeapPage { blkno: 0 });
    assert_eq!(
        m.next(DbEvent::PageItems(full_hot_chain())),
        DbAction::Finished { ok: false }
    );
    assert!(matches!(m.phase, PrunePhase::Complete { ok: false }));
}

/// Drive a concurrent-transaction experiment up to the inspection that must
/// still show the unpruned page.
fn drive_scenario_c_to_second_inspect(m: &mut ConcurrentTxExperiment) {
    assert_eq!(m.next(DbEvent::Start), DbAction::ResetAccounts);
    assert_eq!(m.next(DbEvent::Done), DbAction::UpsertProbeAccount);
    assert_eq!(
        m.next(DbEvent::UpsertedId(1)),
        DbAction::BeginSnapshotTx { relation: SnapshotRelation::Accounts }
    );
    assert_eq!(
        m.next(DbEvent::Done),
        DbAction::SetBalance { a_id: 1, balance: 1 }
    );
    for balance in 2..=15 {
        assert_eq!(
            m.next(DbEvent::Done),
            DbAction::SetBalance { a_id: 1, balance }
        );
    }
    assert_eq!(m.next(DbEvent::Done), DbAction::ReadHeapPage { blkno: 0 });
    assert_eq!(
        m.next(DbEvent::PageItems(full_hot_chain())),
        DbAction::SetBalance { a_id: 1, balance: 157 }
    );
    assert_eq!(m.next(DbEvent::Done), DbAction::ReadHeapPage { blkno: 0 });
}

#[test]
fn scenario_c_open_transaction_suppresses_the_prune() {
    let mut m = ConcurrentTxExperiment::new(17, 157, SnapshotRelation::Accounts);
    drive_scenario_c_to_second_inspect(&mut m);
    // Seventeen live tuples, none pruned, while the transaction is open.
    assert_eq!(
        m.next(DbEvent::PageItems(page(&[1; 17]))),
        DbAction::CommitSnapshotTx
    );
    assert_eq!(m.next(DbEvent::Done), DbAction::TouchAccounts);
    assert_eq!(m.next(DbEvent::Done), DbAction::ReadHeapPage { blkno: 0 });
    // Pruned down to {unused: 15, normal: 1, redirect: 1} only after the
    // commit and a subsequent read.
    assert_eq!(
        m.next(DbEvent::PageItems(pruned_after_commit())),
        DbAction::Finished { ok: true }
    );
    assert!(matches!(m.phase, ConcurrentPhase::Complete { ok: true }));
}

#[test]
fn scenario_c_rejects_an_early_prune() {
    let mut m = ConcurrentTxExperiment::new(17, 157, SnapshotRelation::Accounts);
    drive_scenario_c_to_second_inspect(&mut m);
    // A page already pruned while the transaction is open fails the run.
    assert_eq!(
        m.next(DbEvent::PageItems(pruned_after_commit())),
        DbAction::Finished { ok: false }
    );
    assert!(matches!(m.phase, ConcurrentPhase::Complete { ok: false }));
}

#[test]
fn unrelated_relation_is_prepared_first() {
    let mut m = ConcurrentTxExperiment::new(17, 157, SnapshotRelation::UnrelatedRockets);
    assert_eq!(m.next(DbEvent::Start), DbAction::PrepareUnrelatedTable);
    assert_eq!(m.next(DbEvent::Done), DbAction::ResetAccounts);
    assert_eq!(m.next(DbEvent::Done), DbAction::UpsertProbeAccount);
    assert_eq!(
        m.next(DbEvent::UpsertedId(1)),
        DbAction::BeginSnapshotTx { relation: SnapshotRelation::UnrelatedRockets }
    );
}

#[test]
fn unexpected_event_fails_the_run() {
    let mut m = HeapPruneExperiment::new(17);
    assert_eq!(m.next(DbEvent::Start), DbAction::ResetAccounts);
    assert_eq!(
        m.next(DbEvent::Counter(3)),
        DbAction::Finished { ok: false }
    );
    assert!(matches!(m.phase, PrunePhase::Complete { ok: false }));
}

#[test]
fn index_read_experiment_happy_path() {
    let mut m = IndexReadExperiment::new(157);
    assert_eq!(m.next(DbEvent::Start), DbAction::ResetAccounts);
    assert_eq!(m.next(DbEvent::Done), DbAction::DisableSeqScan);
    assert_eq!(m.next(DbEvent::Done), DbAction::UpsertProbeAccount);
    assert_eq!(
        m.next(DbEvent::UpsertedId(1)),
        DbAction::BeginSnapshotTx { relation: SnapshotRelation::Accounts }
    );
    assert_eq!(
        m.next(DbEvent::Done),
        DbAction::SetBalance { a_id: 1, balance: 1 }
    );
    for balance in 2..=156 {
        assert_eq!(
            m.next(DbEvent::Done),
            DbAction::SetBalance { a_id: 1, balance }
        );
    }
    assert_eq!(m.next(DbEvent::Done), DbAction::ReadIndexTupReads);
    // The fill cost one index-tuple read per update.
    assert_eq!(
        m.next(DbEvent::Counter(156)),
        DbAction::SelectProbeById { a_id: 1 }
    );
    assert_eq!(m.next(DbEvent::Done), DbAction::ReadIndexTupReads);
    // One point select through the index costs one more read.
    assert_eq!(m.next(DbEvent::Counter(157)), DbAction::ReadPageCount);
    assert_eq!(
        m.next(DbEvent::Pages(1)),
        DbAction::SetBalance { a_id: 1, balance: 158 }
    );
    assert_eq!(m.next(DbEvent::Done), DbAction::ReadPageCount);
    // The overflow update forced a second page and one more read.
    assert_eq!(m.next(DbEvent::Pages(2)), DbAction::ReadIndexTupReads);
    assert_eq!(
        m.next(DbEvent::Counter(158)),
        DbAction::SelectProbeById { a_id: 1 }
    );
    assert_eq!(m.next(DbEvent::Done), DbAction::ReadIndexTupReads);
    // With two pages the same select costs two index-tuple reads.
    assert_eq!(m.next(DbEvent::Counter(160)), DbAction::CommitSnapshotTx);
    assert_eq!(m.next(DbEvent::Done), DbAction::Finished { ok: true });
    assert!(matches!(m.phase, IndexReadPhase::Complete { ok: true }));
}

#[test]
fn index_read_experiment_rejects_a_wrong_counter() {
    let mut m = IndexReadExperiment::new(157);
    assert_eq!(m.next(DbEvent::Start), DbAction::ResetAccounts);
    assert_eq!(m.next(DbEvent::Done), DbAction::DisableSeqScan);
    assert_eq!(m.next(DbEvent::Done), DbAction::UpsertProbeAccount);
    assert_eq!(
        m.next(DbEvent::UpsertedId(1)),
        DbAction::BeginSnapshotTx { relation: SnapshotRelation::Accounts }
    );
    assert_eq!(
        m.next(DbEvent::Done),
        DbAction::SetBalance { a_id: 1, balance: 1 }
    );
    for balance in 2..=156 {
        assert_eq!(
            m.next(DbEvent::Done),
            DbAction::SetBalance { a_id: 1, balance }
        );
    }
    assert_eq!(m.next(DbEvent::Done), DbAction::ReadIndexTupReads);
    assert_eq!(
        m.next(DbEvent::Counter(155)),
        DbAction::Finished { ok: false }
    );
    assert!(matches!(m.phase, IndexReadPhase::Complete { ok: false }));
}

#[test]
fn page_checks_classify_and_compare() {
    assert!(page_all_normal(full_hot_chain(), 16));
    assert!(!page_all_normal(full_hot_chain(), 17));
    assert!(!page_all_normal(pruned_after_overflow(), 16));
    assert!(page_pruned(pruned_after_overflow(), 16, 13, 2, 1));
    assert!(!page_pruned(full_hot_chain(), 16, 13, 2, 1));
    assert!(page_pruned(pruned_after_commit(), 17, 15, 1, 1));
}
