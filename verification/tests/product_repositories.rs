use business_core_postgres::audit::{check_sealed, RepositoryError};
use business_core_postgres::cache::Indexed;
use business_core_postgres::models::person::PersonIdxModel;
use business_core_postgres::pagination::PageRequest;
use business_core_postgres::repository::person::person_repository::PersonRepositoryImpl;
use business_core_postgres::repository::person::test_utils::create_test_person;
use business_core_postgres::repository::person::test_utils::create_test_audit_log;
use business_core_postgres::cache::{IdxModelCache, MainModelCache};
use business_core_postgres::hashing::hash_text;
use business_core_postgres::ids::new_random_id;
use business_core_postgres::models::account_gl_mapping::{
    AccountGlMappingIdxModel, AccountGlMappingModel,
};
use business_core_postgres::models::enums::{FeeType, RiskRating};
use business_core_postgres::models::fee_type_gl_mapping::FeeTypeGlMappingModel;
use business_core_postgres::models::interest_rate_tier::InterestRateTierModel;
use business_core_postgres::models::risk_summary::{RiskSummaryIdxModel, RiskSummaryModel};
use business_core_postgres::repository::person::risk_summary_repository::RiskSummaryRepositoryImpl;
use business_core_postgres::repository::product::account_gl_mapping_repository::{
    resolve_audit_log_id, AccountGlMappingRepositoryImpl,
};
use business_core_postgres::repository::product::factory::ProductRepoFactory;
use business_core_postgres::repository::product::fee_type_gl_mapping_repository::FeeTypeGlMappingRepositoryImpl;
use business_core_postgres::repository::product::interest_rate_tier_repository::InterestRateTierRepositoryImpl;
use business_core_postgres::repository::product::product_repository::ProductRepositoryImpl;
use business_core_postgres::repository::product::test_utils::{
    create_test_account_gl_mapping, create_test_account_gl_mapping_with_overdraft,
    create_test_fee_type_gl_mapping, create_test_interest_rate_tier, create_test_product,
};
use business_core_postgres::values::{decimal_new, Timestamp};

fn agl_repo() -> AccountGlMappingRepositoryImpl {
    AccountGlMappingRepositoryImpl::new(
        IdxModelCache::<AccountGlMappingIdxModel>::new(),
        MainModelCache::<AccountGlMappingModel>::new(),
    )
}

fn risk_summary(person_id: u128) -> RiskSummaryModel {
    RiskSummaryModel {
        id: new_random_id(),
        person_id,
        current_rating: RiskRating::Low,
        last_assessment_date: Timestamp { micros: 1_700_000_000_000_000 },
        flags_01: String::new(),
        flags_02: String::new(),
        flags_03: String::new(),
        flags_04: String::new(),
        flags_05: String::new(),
    }
}

fn rs_repo() -> RiskSummaryRepositoryImpl {
    RiskSummaryRepositoryImpl::new(IdxModelCache::<RiskSummaryIdxModel>::new())
}

#[test]
fn test_create_batch_updates_caches_and_audit() {
    let mut repo = agl_repo();
    let audit = new_random_id();
    let saved = repo.prepare_create_batch(&vec![create_test_account_gl_mapping("12345")], audit);
    repo.finish_create_batch(&saved);
    let id = saved[0].id;
    let cached = repo.account_gl_mapping_cache.get(id);
    assert!(cached.is_some(), "Entity should be in main cache");
    let cached = cached.unwrap();
    assert!(cached.hash != 0, "Entity should have computed hash");
    assert!(cached.audit_log_id.is_some(), "Entity should have audit_log_id");
}

#[test]
fn test_account_gl_mapping_insert_triggers_cache_notifications() {
    let mut repo = agl_repo();
    let saved = repo.prepare_create_batch(&vec![create_test_account_gl_mapping("12345")], new_random_id());
    repo.finish_create_batch(&saved);
    repo.on_commit();
    let id = saved[0].id;
    assert!(repo.account_gl_mapping_idx_cache.contains_primary(id), "AccountGlMapping should be in index cache after insert");
    assert!(repo.account_gl_mapping_cache.get(id).is_some(), "AccountGlMapping should be in main cache after insert");
    let (loaded, _) = repo.load_batch_from_cache(&[id]);
    let (_, _, count) = repo.delete_batch_internal(&[id], &loaded, Some(new_random_id())).unwrap();
    assert_eq!(count, 1);
    repo.on_commit();
    assert!(!repo.account_gl_mapping_idx_cache.contains_primary(id), "AccountGlMapping should be removed from index cache after delete");
}

#[test]
fn test_load_batch_uses_cache() {
    let mut repo = agl_repo();
    let saved = repo.prepare_create_batch(&vec![create_test_account_gl_mapping("12345")], new_random_id());
    repo.finish_create_batch(&saved);
    let ids = vec![saved[0].id];
    let (partial, missing) = repo.load_batch_from_cache(&ids);
    assert!(missing.is_empty(), "Should have cache hits on second load");
    assert_eq!(partial[0].as_ref(), Some(&saved[0]));
}

#[test]
fn account_gl_mapping_load_fills_misses_from_rows() {
    let mut repo = agl_repo();
    let audit = new_random_id();
    let rows = repo.prepare_create_batch(
        &vec![create_test_account_gl_mapping("A1"), create_test_account_gl_mapping("A2")],
        audit,
    );
    let absent = new_random_id();
    let ids = vec![rows[0].id, absent, rows[1].id, rows[0].id];
    let (partial, missing) = repo.load_batch_from_cache(&ids);
    assert_eq!(missing, ids);
    let out = repo.load_batch_from_rows(&ids, partial, &rows);
    assert_eq!(out.len(), 4);
    assert_eq!(out[0].as_ref(), Some(&rows[0]));
    assert!(out[1].is_none());
    assert_eq!(out[2].as_ref(), Some(&rows[1]));
    // A row fetched once fills only the first open position asking for it.
    assert!(out[3].is_none());
    // The rows fetched are now cached.
    let (again, still_missing) = repo.load_batch_from_cache(&ids);
    assert_eq!(still_missing, vec![absent]);
    assert_eq!(again[3].as_ref(), Some(&rows[0]));
}

#[test]
fn delete_batch_test_delete_batch() {
    let mut repo = agl_repo();
    let audit_log = create_test_audit_log();
    let mut items = Vec::new();
    for i in 0..5 {
        items.push(create_test_account_gl_mapping_with_overdraft(&format!("CUST{}", i), &format!("OD{}", i)));
    }
    let saved = repo.prepare_create_batch(&items, audit_log.id);
    repo.finish_create_batch(&saved);
    let ids: Vec<u128> = saved.iter().map(|m| m.id).collect();

    let delete_audit_log = create_test_audit_log();
    let (loaded, missing) = repo.load_batch_from_cache(&ids);
    assert!(missing.is_empty());
    let (used, finals, deleted_count) =
        repo.delete_batch_internal(&ids, &loaded, Some(delete_audit_log.id)).unwrap();
    assert_eq!(used, delete_audit_log.id);
    for (f, s) in finals.iter().zip(saved.iter()) {
        let f = f.as_ref().unwrap();
        assert_eq!(f.antecedent_hash, s.hash);
        assert_eq!(f.antecedent_audit_log_id, audit_log.id);
        assert_eq!(f.audit_log_id, Some(delete_audit_log.id));
    }
    assert_eq!(deleted_count, 5);

    // Loading after the delete: nothing is cached any more, and the table
    // holds none of the ids, so no row comes back.
    let (partial, missing) = repo.load_batch_from_cache(&ids);
    assert_eq!(missing, ids);
    let loaded_items: Vec<AccountGlMappingModel> =
        repo.load_batch_from_rows(&ids, partial, &Vec::new()).into_iter().flatten().collect();
    assert_eq!(loaded_items.len(), 0);
    for id in &ids {
        assert!(!repo.account_gl_mapping_idx_cache.contains_primary(*id));
    }
}

#[test]
fn account_gl_mapping_delete_with_random_audit_log() {
    let mut repo = agl_repo();
    let saved = repo.prepare_create_batch(&vec![create_test_account_gl_mapping("R1")], new_random_id());
    repo.finish_create_batch(&saved);
    let (loaded, _) = repo.load_batch_from_cache(&[saved[0].id]);
    let (used, finals, count) = repo.delete_batch_internal(&[saved[0].id], &loaded, None).unwrap();
    assert_eq!((used >> 76) & 0xf, 4);
    assert_eq!(finals[0].as_ref().unwrap().audit_log_id, Some(used));
    assert_eq!(count, 1);
    assert!(repo.account_gl_mapping_cache.get(saved[0].id).is_none());
}

#[test]
fn product_index_follows_updated_record() {
    let mut repo = ProductRepositoryImpl::new(IdxModelCache::new());
    let product = create_test_product(new_random_id(), new_random_id(), new_random_id());
    let saved = repo.prepare_create_batch(&vec![product], Some(1)).unwrap();
    repo.finish_create_batch(&saved);
    assert_eq!(repo.product_idx_cache.get_by_primary(saved[0].id), Some(saved[0].to_index()));
    let mut changed = saved[0].copy();
    changed.dormancy_threshold_days = 90;
    let steps = repo.prepare_update_batch(&vec![changed], Some(2)).unwrap();
    repo.finish_update_batch(&steps);
    let updated = steps[0].record();
    assert_eq!(repo.product_idx_cache.get_by_primary(updated.id), Some(updated.to_index()));
    assert_eq!(repo.product_idx_cache.get_by_primary(updated.id).unwrap().dormancy_threshold_days, 90);
}

#[test]
fn account_gl_mapping_update_batch_internal() {
    let mut repo = agl_repo();
    let audit = new_random_id();
    let saved = repo.prepare_create_batch(&vec![create_test_account_gl_mapping("CUST0")], audit);
    repo.finish_create_batch(&saved);
    let mut changed = saved[0].copy();
    changed.customer_account_code = "UPDATED".to_string();
    let (a, steps) = repo.update_batch_internal(&vec![changed], Some(77)).unwrap();
    assert_eq!(a, 77);
    assert!(steps[0].is_changed());
    assert_eq!(steps[0].record().customer_account_code, "UPDATED");
    repo.finish_update_batch(&steps);
    let found = repo.find_by_customer_account_code_hash(hash_text("UPDATED"));
    assert_eq!(found.len(), 1);
    assert_eq!(found[0].id, saved[0].id);
    assert!(repo.find_by_customer_account_code_hash(hash_text("CUST0")).is_empty());
    let never_written = vec![create_test_account_gl_mapping("N")];
    assert!(matches!(
        repo.update_batch_internal(&never_written, Some(1)),
        Err(RepositoryError::EntityWithoutAuditLogId)
    ));
}

#[test]
fn resolve_audit_log_id_prefers_given() {
    assert_eq!(resolve_audit_log_id(Some(42)), 42);
    let fresh = resolve_audit_log_id(None);
    assert_eq!((fresh >> 76) & 0xf, 4);
}

#[test]
fn account_gl_mapping_rollback_restores_committed_caches() {
    let mut repo = agl_repo();
    let saved = repo.prepare_create_batch(&vec![create_test_account_gl_mapping("R")], 9);
    repo.finish_create_batch(&saved);
    repo.on_rollback();
    assert!(!repo.account_gl_mapping_idx_cache.contains_primary(saved[0].id));
    assert!(repo.account_gl_mapping_cache.get(saved[0].id).is_none());
}

#[test]
fn fee_type_gl_mapping_create_and_load() {
    let mut repo = FeeTypeGlMappingRepositoryImpl::new(IdxModelCache::new());
    let mut items = Vec::new();
    for i in 0..3 {
        items.push(create_test_fee_type_gl_mapping(FeeType::MaintenanceFee, &format!("GL{i}")));
    }
    let saved = repo.prepare_create_batch(&items, Some(5)).unwrap();
    assert_eq!(saved.len(), 3);
    for s in &saved {
        assert!(check_sealed(s));
        assert_eq!(s.audit_log_id, Some(5));
    }
    repo.finish_create_batch(&saved);
    assert!(repo.fee_type_gl_mapping_idx_cache.contains_primary(saved[1].id));
    let ids = vec![saved[2].id, saved[0].id, new_random_id()];
    let loaded = FeeTypeGlMappingRepositoryImpl::assemble_load_batch(&ids, &saved);
    assert_eq!(loaded[0].as_ref().map(|m| m.id), Some(saved[2].id));
    assert_eq!(loaded[1].as_ref().map(|m| m.gl_code.clone()), Some("GL0".to_string()));
    assert!(loaded[2].is_none());
    assert!(repo.prepare_create_batch(&items, None).is_err());
}

#[test]
fn fee_type_gl_mapping_delete_with_non_existing() {
    let mut repo = FeeTypeGlMappingRepositoryImpl::new(IdxModelCache::new());
    let saved = repo.prepare_create_batch(&vec![create_test_fee_type_gl_mapping(FeeType::Other, "DEL1")], Some(1)).unwrap();
    repo.finish_create_batch(&saved);
    let loaded: Vec<Option<FeeTypeGlMappingModel>> = vec![Some(saved[0].copy()), None];
    let finals = repo.prepare_delete_batch(&loaded, Some(2)).unwrap();
    assert!(finals[0].is_some() && finals[1].is_none());
    repo.finish_delete_batch(&[saved[0].id, new_random_id()]);
    assert!(!repo.fee_type_gl_mapping_idx_cache.contains_primary(saved[0].id));
}

#[test]
fn interest_rate_tier_exist_by_ids() {
    let mut repo = InterestRateTierRepositoryImpl::new(IdxModelCache::new());
    let saved = repo.prepare_create_batch(&vec![create_test_interest_rate_tier()], Some(3)).unwrap();
    repo.finish_create_batch(&saved);
    let in_table = new_random_id();
    let absent = new_random_id();
    let ids = vec![absent, saved[0].id, in_table];
    let (hits, missing) = repo.exist_by_ids_from_cache(&ids);
    assert_eq!(hits, vec![(saved[0].id, true)]);
    assert_eq!(missing, vec![absent, in_table]);
    let answer = InterestRateTierRepositoryImpl::exist_by_ids_from_rows(hits, &missing, &vec![in_table]);
    assert_eq!(answer, vec![(saved[0].id, true), (absent, false), (in_table, true)]);
}

#[test]
fn interest_rate_tier_load_shares_rows_and_delete_removes_found() {
    let mut repo = InterestRateTierRepositoryImpl::new(IdxModelCache::new());
    let saved = repo.prepare_create_batch(&vec![create_test_interest_rate_tier()], Some(3)).unwrap();
    assert_eq!(saved[0].minimum_balance, decimal_new(100, 2));
    repo.finish_create_batch(&saved);
    let ids = vec![saved[0].id, saved[0].id];
    let loaded = InterestRateTierRepositoryImpl::assemble_load_batch(&ids, &saved);
    assert!(loaded[0].is_some(), "loaded entity should not be None");
    assert!(loaded[1].is_some(), "loaded entity should not be None");
    let with_gap: Vec<Option<InterestRateTierModel>> = vec![Some(saved[0].copy()), None];
    repo.finish_delete_batch(&with_gap);
    assert!(!repo.interest_rate_tier_idx_cache.contains_primary(saved[0].id));
}

#[test]
fn product_create_update_and_commit_through_factory() {
    let mut factory = ProductRepoFactory::new();
    let mut repos = factory.build_all_repos();
    let product = create_test_product(new_random_id(), new_random_id(), new_random_id());
    let saved = repos.product_repository.prepare_create_batch(&vec![product], Some(10)).unwrap();
    repos.product_repository.finish_create_batch(&saved);
    let mut changed = saved[0].copy();
    changed.dormancy_threshold_days = 500;
    let steps = repos.product_repository.prepare_update_batch(&vec![changed], Some(11)).unwrap();
    assert!(steps[0].is_changed());
    assert_eq!(steps[0].record().antecedent_audit_log_id, 10);
    repos.product_repository.finish_update_batch(&steps);
    repos.product_repository.on_commit();
    factory.publish(&repos);
    let next = factory.build_product_repo();
    assert!(next.product_idx_cache.contains_primary(saved[0].id));
    let ids = vec![saved[0].id];
    let loaded = ProductRepositoryImpl::assemble_load_batch(&ids, &saved);
    assert_eq!(loaded[0].as_ref().map(|p| p.id), Some(saved[0].id));
}

#[test]
fn uncommitted_work_is_not_published() {
    let mut factory = ProductRepoFactory::new();
    let mut repos = factory.build_all_repos();
    let saved = repos.fee_type_gl_mapping_repository
        .prepare_create_batch(&vec![create_test_fee_type_gl_mapping(FeeType::ClosureFee, "GLX")], Some(1))
        .unwrap();
    repos.fee_type_gl_mapping_repository.finish_create_batch(&saved);
    factory.publish(&repos);
    let next = factory.build_fee_type_gl_mapping_repo();
    assert!(!next.fee_type_gl_mapping_idx_cache.contains_primary(saved[0].id));
}

#[test]
fn test_exist_by_ids_risk_summary() {
    let mut repo = rs_repo();
    let person = new_random_id();
    let a = risk_summary(person);
    let b = risk_summary(person);
    let (ida, idb) = (a.id, b.id);
    repo.finish_create_batch(&vec![a, b]);
    let absent = new_random_id();
    let answer = repo.exist_by_ids(&[ida, absent, idb]);
    assert_eq!(answer.len(), 3);
    assert_eq!(answer[0], (ida, true));
    assert_eq!(answer[1], (absent, false));
    assert_eq!(answer[2], (idb, true));
}

#[test]
fn test_find_by_person_id() {
    let mut repo = rs_repo();
    let person = new_random_id();
    let other = new_random_id();
    let a = risk_summary(person);
    let ida = a.id;
    repo.finish_create_batch(&vec![a, risk_summary(other)]);
    let found = repo.find_by_person_id(person);
    assert_eq!(found.len(), 1);
    assert_eq!(found[0].id, ida);
    assert_eq!(found[0].person_id, person);
}

#[test]
fn test_find_by_person_id_non_existing() {
    let repo = rs_repo();
    assert!(repo.find_by_person_id(new_random_id()).is_empty());
}

#[test]
fn test_delete_batch_with_non_existing_risk_summaries() {
    let mut repo = rs_repo();
    let a = risk_summary(new_random_id());
    let ida = a.id;
    repo.finish_create_batch(&vec![a]);
    repo.finish_delete_batch(&[new_random_id(), ida]);
    assert!(!repo.exist_by_ids(&[ida])[0].1);
}

#[test]
fn load_batch_test_load_batch() {
    let rows = vec![risk_summary(new_random_id()), risk_summary(new_random_id())];
    let ids = vec![rows[1].id, rows[0].id];
    let out = RiskSummaryRepositoryImpl::assemble_load_batch(&ids, &rows);
    assert_eq!(out.len(), 2);
    assert_eq!(out[0].as_ref(), Some(&rows[1]));
    assert_eq!(out[1].as_ref(), Some(&rows[0]));
}

#[test]
fn load_batch_test_load_batch_with_non_existing() {
    let rows = vec![risk_summary(new_random_id())];
    let missing = new_random_id();
    let ids = vec![rows[0].id, missing, rows[0].id];
    let out = RiskSummaryRepositoryImpl::assemble_load_batch(&ids, &rows);
    assert_eq!(out.len(), 3);
    assert!(out[0].is_some());
    assert!(out[1].is_none());
    assert!(out[2].is_none());
}

#[test]
fn risk_summary_update_replaces_index_row() {
    let mut repo = rs_repo();
    let a = risk_summary(new_random_id());
    let id = a.id;
    repo.finish_create_batch(&vec![a.copy()]);
    let new_person = new_random_id();
    let mut moved = a.copy();
    moved.person_id = new_person;
    repo.finish_update_batch(&vec![moved]);
    let found = repo.find_by_person_id(new_person);
    assert_eq!(found.len(), 1);
    assert_eq!(found[0].id, id);
    assert!(repo.find_by_person_id(a.person_id).is_empty());
}

#[test]
fn created_mapping_found_by_account_code_hash() {
    let mut repo = agl_repo();
    let saved = repo.prepare_create_batch(
        &vec![create_test_account_gl_mapping("CUST1"), create_test_account_gl_mapping("CUST2")],
        new_random_id(),
    );
    repo.finish_create_batch(&saved);
    let found = repo.find_by_customer_account_code_hash(hash_text("CUST2"));
    assert_eq!(found.len(), 1);
    assert_eq!(found[0].id, saved[1].id);
    assert_eq!(found[0].customer_account_code_hash, hash_text("CUST2"));
}

#[test]
fn account_gl_mapping_refused_delete_keeps_caches() {
    let mut repo = agl_repo();
    let saved = repo.prepare_create_batch(&vec![create_test_account_gl_mapping("K1")], new_random_id());
    repo.finish_create_batch(&saved);
    let unwritten = vec![Some(create_test_account_gl_mapping("N"))];
    let r = repo.delete_batch_internal(&[saved[0].id], &unwritten, Some(3));
    assert!(matches!(r, Err(RepositoryError::EntityWithoutAuditLogId)));
    assert!(repo.account_gl_mapping_cache.get(saved[0].id).is_some());
    assert!(repo.account_gl_mapping_idx_cache.contains_primary(saved[0].id));
}

#[test]
fn person_pages_of_one_lookup_do_not_overlap() {
    let mut repo = PersonRepositoryImpl::new(IdxModelCache::<PersonIdxModel>::new());
    let org = new_random_id();
    let mut persons = Vec::new();
    for i in 0..7 {
        let mut p = create_test_person(&format!("member-{i}"));
        p.organization_person_id = Some(org);
        persons.push(p);
    }
    let saved = repo.prepare_create_batch(&persons, Some(1)).unwrap();
    repo.finish_create_batch(&saved);
    let mut seen: Vec<u128> = Vec::new();
    for k in 0..4 {
        let page = repo.find_by_organization_person_id(org, PageRequest::new(2, 2 * k));
        for idx in &page.items {
            assert!(!seen.contains(&idx.id));
            seen.push(idx.id);
        }
    }
    assert_eq!(seen.len(), 7);
    let whole = repo.find_by_organization_person_id(org, PageRequest::new(4, 0));
    let first: Vec<u128> = repo.find_by_organization_person_id(org, PageRequest::new(2, 0)).items.iter().map(|i| i.id).collect();
    let second: Vec<u128> = repo.find_by_organization_person_id(org, PageRequest::new(2, 2)).items.iter().map(|i| i.id).collect();
    let joined: Vec<u128> = first.into_iter().chain(second).collect();
    assert_eq!(joined, whole.items.iter().map(|i| i.id).collect::<Vec<u128>>());
}
