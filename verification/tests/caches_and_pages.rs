use business_core_postgres::cache::{
    IdxModelCache, IndexKey, KeyedStore, MainModelCache, TransactionAwareIdxModelCache,
    TransactionAwareMainModelCache,
};
use business_core_postgres::models::risk_summary::RiskSummaryIdxModel;
use business_core_postgres::pagination::{paginate, Page, PageRequest};

fn row(id: u128, person_id: u128) -> RiskSummaryIdxModel {
    RiskSummaryIdxModel { id, person_id }
}

#[test]
fn keyed_store_last_write_wins() {
    let mut s: KeyedStore<RiskSummaryIdxModel> = KeyedStore::new();
    s.insert(row(1, 10));
    s.insert(row(2, 20));
    s.insert(row(1, 11));
    assert_eq!(s.len(), 2);
    assert_eq!(s.get(1), Some(row(1, 11)));
    s.remove(1);
    assert!(!s.contains(1));
    assert!(s.contains(2));
    s.remove(99);
    assert_eq!(s.len(), 1);
    let from = KeyedStore::from_rows(&vec![row(5, 1), row(6, 1), row(5, 2)]);
    assert_eq!(from.len(), 2);
    assert_eq!(from.get(5), Some(row(5, 2)));
}

#[test]
fn idx_cache_lookups_by_column() {
    let mut c = IdxModelCache::from_rows(vec![row(1, 7), row(2, 8), row(3, 7)]);
    let mut by7: Vec<u128> = c.get_by_uuid_index(IndexKey::PersonId, 7).iter().map(|r| r.id).collect();
    by7.sort();
    assert_eq!(by7, vec![1, 3]);
    assert!(c.get_by_uuid_index(IndexKey::PersonId, 9).is_empty());
    // A column the row does not have matches nothing.
    assert!(c.get_by_i64_index(IndexKey::CustomerAccountCodeHash, 7).is_empty());
    c.add(row(3, 8));
    assert_eq!(c.get_by_uuid_index(IndexKey::PersonId, 8).len(), 2);
    c.remove(2);
    assert!(!c.contains_primary(2));
    assert_eq!(c.get_by_primary(3), Some(row(3, 8)));
}

#[test]
fn transaction_aware_idx_cache_commit_and_rollback() {
    let shared = IdxModelCache::from_rows(vec![row(1, 1)]);
    let mut tx = TransactionAwareIdxModelCache::new(shared);
    tx.add(row(2, 2));
    tx.remove(1);
    assert!(tx.contains_primary(2));
    assert!(!tx.contains_primary(1));
    assert!(tx.committed().contains_primary(1));
    tx.on_rollback();
    assert!(tx.contains_primary(1));
    assert!(!tx.contains_primary(2));
    tx.add_all(vec![row(3, 3), row(4, 4)]);
    tx.on_commit();
    assert!(tx.committed().contains_primary(3));
    tx.remove_all(&[3, 4, 99]);
    assert!(!tx.contains_primary(3) && !tx.contains_primary(4));
    assert!(tx.committed().contains_primary(4));
    tx.on_rollback();
    assert!(tx.contains_primary(4));
}

#[test]
fn transaction_aware_main_cache_commit_and_rollback() {
    let mut shared = MainModelCache::new();
    shared.insert(row(1, 1));
    let mut tx = TransactionAwareMainModelCache::new(shared.duplicate());
    tx.insert(row(1, 5));
    tx.insert_all(&vec![row(2, 2)]);
    assert_eq!(tx.get(1), Some(row(1, 5)));
    assert_eq!(tx.committed().get(1), Some(row(1, 1)));
    tx.on_commit();
    assert_eq!(tx.committed().get(1), Some(row(1, 5)));
    tx.remove(2);
    assert!(tx.get(2).is_none());
    tx.on_rollback();
    assert_eq!(tx.get(2), Some(row(2, 2)));
    assert!(shared.contains(1));
}

#[test]
fn page_numbers_of_five_results_by_two() {
    let all: Vec<RiskSummaryIdxModel> = (0..5).map(|i| row(i, 0)).collect();
    let p1 = paginate(&all, PageRequest::new(2, 0));
    let p2 = paginate(&all, PageRequest::new(2, 2));
    let p3 = paginate(&all, PageRequest::new(2, 4));
    assert_eq!((p1.items.len(), p2.items.len(), p3.items.len()), (2, 2, 1));
    assert_eq!((p1.page_number(), p2.page_number(), p3.page_number()), (1, 2, 3));
    assert_eq!(p1.total_pages(), 3);
    assert_eq!((p1.has_more(), p2.has_more(), p3.has_more()), (true, true, false));
    assert_eq!(p3.items[0].id, 4);
}

#[test]
fn page_edge_cases() {
    let four: Vec<RiskSummaryIdxModel> = (0..4).map(|i| row(i, 0)).collect();
    let p = paginate(&four, PageRequest::new(2, 2));
    assert_eq!(p.total_pages(), 2);
    assert!(!p.has_more());
    let none: Vec<RiskSummaryIdxModel> = Vec::new();
    let e = paginate(&none, PageRequest::new(10, 0));
    assert_eq!(e.total, 0);
    assert_eq!(e.page_number(), 1);
    assert_eq!(e.total_pages(), 0);
    assert!(!e.has_more());
    let past = paginate(&four, PageRequest::new(3, 10));
    assert!(past.items.is_empty());
    assert_eq!(past.total, 4);
    let zero = Page::new(Vec::<u8>::new(), 4, 0, 0);
    assert_eq!(zero.page_number(), 1);
    assert_eq!(zero.total_pages(), 0);
    assert!(zero.has_more());
}
