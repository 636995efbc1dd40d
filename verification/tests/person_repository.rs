use business_core_postgres::audit::{RepositoryError, UpdateStep};
use business_core_postgres::cache::IdxModelCache;
use business_core_postgres::hashing::hash_text;
use business_core_postgres::models::enums::PersonType;
use business_core_postgres::models::person::{PersonIdxModel, PersonModel};
use business_core_postgres::pagination::PageRequest;
use business_core_postgres::repository::person::person_repository::PersonRepositoryImpl;
use business_core_postgres::repository::person::test_utils::{
    create_test_audit_log, create_test_country, create_test_country_subdivision,
    create_test_entity_reference, create_test_locality, create_test_location, create_test_person,
};

fn fresh_repo() -> PersonRepositoryImpl {
    PersonRepositoryImpl::new(IdxModelCache::<PersonIdxModel>::new())
}

/// Runs a create batch as the database round trip would: prepare what is
/// written, then record it in the caches of the unit of work.
fn create_batch(
    repo: &mut PersonRepositoryImpl,
    persons: Vec<PersonModel>,
    audit_log_id: Option<u128>,
) -> Vec<PersonModel> {
    let saved = repo.prepare_create_batch(&persons, audit_log_id).expect("create batch refused");
    repo.finish_create_batch(&saved);
    saved
}

fn create_test_person_with_external_id(name: &str, external_id: &str) -> PersonModel {
    let mut p = create_test_person(name);
    p.external_identifier = Some(external_id.to_string());
    p
}

#[test]
fn create_batch_test_create_batch() {
    let mut repo = fresh_repo();
    let audit_log = create_test_audit_log();
    let mut persons = Vec::new();
    for i in 0..5 {
        persons.push(create_test_person(&format!("Person {}", i)));
    }
    let saved = create_batch(&mut repo, persons, Some(audit_log.id));
    assert_eq!(saved.len(), 5);
    for (i, saved_person) in saved.iter().enumerate() {
        assert_eq!(saved_person.display_name.as_str(), format!("Person {}", i));
        assert_eq!(saved_person.person_type, PersonType::Natural);
        assert!(saved_person.audit_log_id.is_some());
        assert_eq!(saved_person.audit_log_id.unwrap(), audit_log.id);
    }
}

#[test]
fn create_batch_test_create_batch_empty() {
    let mut repo = fresh_repo();
    let audit_log = create_test_audit_log();
    let saved = create_batch(&mut repo, Vec::new(), Some(audit_log.id));
    assert_eq!(saved.len(), 0);
}

#[test]
fn test_create_batch_with_external_identifier() {
    let mut repo = fresh_repo();
    let audit_log = create_test_audit_log();
    let mut persons = Vec::new();
    for i in 0..3 {
        persons.push(create_test_person_with_external_id(
            &format!("Employee {}", i),
            &format!("EMP{:03}", i),
        ));
    }
    let saved = create_batch(&mut repo, persons, Some(audit_log.id));
    assert_eq!(saved.len(), 3);
    for (i, saved_person) in saved.iter().enumerate() {
        assert!(saved_person.external_identifier.is_some());
        assert_eq!(
            saved_person.external_identifier.as_ref().unwrap().as_str(),
            format!("EMP{:03}", i)
        );
    }
}

#[test]
fn test_person_insert_triggers_cache_notification() {
    let mut repo = fresh_repo();
    let audit_log = create_test_audit_log();
    let person = create_test_person("someone");
    let id = person.id;
    let saved = create_batch(&mut repo, vec![person], Some(audit_log.id));
    repo.on_commit();
    assert!(repo.person_idx_cache.contains_primary(id), "Person should be in cache after insert");
    let cached = repo.person_idx_cache.get_by_primary(id);
    assert!(cached.is_some(), "Person should be retrievable from cache");
    assert_eq!(cached.unwrap().id, saved[0].id);
    repo.finish_delete_batch(&[id]);
    repo.on_commit();
    assert!(!repo.person_idx_cache.contains_primary(id), "Person should be removed from cache after delete");
}

#[test]
fn test_find_by_duplicate_of_person_id() {
    let mut repo = fresh_repo();
    let audit_log = create_test_audit_log();
    let primary = create_test_person("original-person");
    let primary_id = primary.id;
    create_batch(&mut repo, vec![primary], Some(audit_log.id));
    let mut duplicates = Vec::new();
    for i in 0..3 {
        let mut p = create_test_person(&format!("duplicate-{}", i));
        p.duplicate_of_person_id = Some(primary_id);
        duplicates.push(p);
    }
    let saved = create_batch(&mut repo, duplicates, Some(audit_log.id));
    let found = repo.find_by_duplicate_of_person_id(primary_id);
    assert_eq!(found.len(), 3);
    for s in &saved {
        assert!(found.iter().any(|idx| idx.id == s.id));
    }
    assert!(found.iter().all(|idx| idx.duplicate_of_person_id == Some(primary_id)));
}

#[test]
fn test_find_by_duplicate_of_person_id_non_existing() {
    let repo = fresh_repo();
    let found = repo.find_by_duplicate_of_person_id(0x1234_5678);
    assert!(found.is_empty());
}

#[test]
fn test_find_by_duplicate_of_person_id_multiple_originals() {
    let mut repo = fresh_repo();
    let audit_log = create_test_audit_log();
    let o1 = create_test_person("original-person-1");
    let o2 = create_test_person("original-person-2");
    let (id1, id2) = (o1.id, o2.id);
    create_batch(&mut repo, vec![o1, o2], Some(audit_log.id));
    let mut batch = Vec::new();
    for i in 0..2 {
        let mut p = create_test_person(&format!("duplicate-of-1-{}", i));
        p.duplicate_of_person_id = Some(id1);
        batch.push(p);
    }
    for i in 0..3 {
        let mut p = create_test_person(&format!("duplicate-of-2-{}", i));
        p.duplicate_of_person_id = Some(id2);
        batch.push(p);
    }
    create_batch(&mut repo, batch, Some(audit_log.id));
    let f1 = repo.find_by_duplicate_of_person_id(id1);
    let f2 = repo.find_by_duplicate_of_person_id(id2);
    assert_eq!(f1.len(), 2);
    assert_eq!(f2.len(), 3);
    assert!(f1.iter().all(|idx| idx.duplicate_of_person_id == Some(id1)));
    assert!(f2.iter().all(|idx| idx.duplicate_of_person_id == Some(id2)));
}

#[test]
fn test_find_by_duplicate_of_person_id_with_none_values() {
    let mut repo = fresh_repo();
    let audit_log = create_test_audit_log();
    let primary = create_test_person("original-person");
    let primary_id = primary.id;
    create_batch(&mut repo, vec![primary], Some(audit_log.id));
    let mut batch = Vec::new();
    for i in 0..2 {
        batch.push(create_test_person(&format!("unique-person-{}", i)));
    }
    for i in 0..2 {
        let mut p = create_test_person(&format!("duplicate-person-{}", i));
        p.duplicate_of_person_id = Some(primary_id);
        batch.push(p);
    }
    create_batch(&mut repo, batch, Some(audit_log.id));
    let found = repo.find_by_duplicate_of_person_id(primary_id);
    assert_eq!(found.len(), 2);
    assert!(found.iter().all(|idx| idx.duplicate_of_person_id == Some(primary_id)));
}

#[test]
fn test_find_by_external_identifier_hash() {
    let mut repo = fresh_repo();
    let audit_log = create_test_audit_log();
    let external_id = "EMP-7";
    let mut persons = Vec::new();
    for i in 0..3 {
        persons.push(create_test_person_with_external_id(&format!("person-{i}"), external_id));
    }
    let saved = create_batch(&mut repo, persons, Some(audit_log.id));
    let found = repo.find_by_external_identifier_hash(hash_text(external_id));
    assert_eq!(found.len(), 3);
    for s in &saved {
        assert!(found.iter().any(|idx| idx.id == s.id));
    }
    assert!(found.iter().all(|idx| idx.external_identifier_hash == Some(hash_text(external_id))));
}

#[test]
fn test_find_by_external_identifier_hash_non_existing() {
    let repo = fresh_repo();
    let found = repo.find_by_external_identifier_hash(hash_text("non-existent-id"));
    assert!(found.is_empty());
}

#[test]
fn test_find_by_external_identifier_hash_multiple_identifiers() {
    let mut repo = fresh_repo();
    let audit_log = create_test_audit_log();
    let (e1, e2) = ("EMP-1", "EMP-2");
    let mut batch = Vec::new();
    for i in 0..2 {
        batch.push(create_test_person_with_external_id(&format!("person-id1-{i}"), e1));
    }
    for i in 0..3 {
        batch.push(create_test_person_with_external_id(&format!("person-id2-{i}"), e2));
    }
    create_batch(&mut repo, batch, Some(audit_log.id));
    let f1 = repo.find_by_external_identifier_hash(hash_text(e1));
    let f2 = repo.find_by_external_identifier_hash(hash_text(e2));
    assert_eq!(f1.len(), 2);
    assert_eq!(f2.len(), 3);
    assert!(f1.iter().all(|idx| idx.external_identifier_hash == Some(hash_text(e1))));
    assert!(f2.iter().all(|idx| idx.external_identifier_hash == Some(hash_text(e2))));
}

#[test]
fn test_find_by_external_identifier_hash_with_none_values() {
    let mut repo = fresh_repo();
    let audit_log = create_test_audit_log();
    let external_id = "EMP-9";
    let mut batch = Vec::new();
    for i in 0..2 {
        batch.push(create_test_person(&format!("person-no-id-{i}")));
    }
    for i in 0..2 {
        batch.push(create_test_person_with_external_id(&format!("person-with-id-{i}"), external_id));
    }
    create_batch(&mut repo, batch, Some(audit_log.id));
    let found = repo.find_by_external_identifier_hash(hash_text(external_id));
    assert_eq!(found.len(), 2);
    assert!(found.iter().all(|idx| idx.external_identifier_hash.is_some()));
}

#[test]
fn test_find_by_organization_person_id() {
    let mut repo = fresh_repo();
    let audit_log = create_test_audit_log();
    let org = create_test_person("organization-person");
    let org_id = org.id;
    create_batch(&mut repo, vec![org], Some(audit_log.id));
    let mut persons = Vec::new();
    for i in 0..3 {
        let mut p = create_test_person(&format!("employee-{i}"));
        p.organization_person_id = Some(org_id);
        persons.push(p);
    }
    let saved = create_batch(&mut repo, persons, Some(audit_log.id));
    let page = repo.find_by_organization_person_id(org_id, PageRequest::new(10, 0));
    assert_eq!(page.total, 3);
    assert_eq!(page.items.len(), 3);
    for s in &saved {
        assert!(page.items.iter().any(|idx| idx.id == s.id));
        assert!(page.items.iter().all(|idx| idx.organization_person_id == Some(org_id)));
    }
}

#[test]
fn test_find_by_organization_person_id_non_existing() {
    let repo = fresh_repo();
    let page = repo.find_by_organization_person_id(0xdead_beef, PageRequest::new(10, 0));
    assert_eq!(page.total, 0);
    assert!(page.items.is_empty());
}

#[test]
fn test_find_by_organization_person_id_multiple_organizations() {
    let mut repo = fresh_repo();
    let audit_log = create_test_audit_log();
    let o1 = create_test_person("organization-1");
    let o2 = create_test_person("organization-2");
    let (id1, id2) = (o1.id, o2.id);
    create_batch(&mut repo, vec![o1, o2], Some(audit_log.id));
    let mut e1 = Vec::new();
    for i in 0..2 {
        let mut p = create_test_person(&format!("org1-employee-{i}"));
        p.organization_person_id = Some(id1);
        e1.push(p);
    }
    create_batch(&mut repo, e1, Some(audit_log.id));
    let mut e2 = Vec::new();
    for i in 0..3 {
        let mut p = create_test_person(&format!("org2-employee-{i}"));
        p.organization_person_id = Some(id2);
        e2.push(p);
    }
    create_batch(&mut repo, e2, Some(audit_log.id));
    let page_1 = repo.find_by_organization_person_id(id1, PageRequest::new(10, 0));
    assert_eq!(page_1.total, 2);
    assert_eq!(page_1.items.len(), 2);
    assert!(page_1.items.iter().all(|idx| idx.organization_person_id == Some(id1)));
    let page_2 = repo.find_by_organization_person_id(id2, PageRequest::new(10, 0));
    assert_eq!(page_2.total, 3);
    assert_eq!(page_2.items.len(), 3);
    assert!(page_2.items.iter().all(|idx| idx.organization_person_id == Some(id2)));
}

#[test]
fn test_find_by_organization_person_id_with_none_values() {
    let mut repo = fresh_repo();
    let audit_log = create_test_audit_log();
    let org = create_test_person("organization-person");
    let org_id = org.id;
    create_batch(&mut repo, vec![org], Some(audit_log.id));
    let mut without = Vec::new();
    for i in 0..2 {
        let mut p = create_test_person(&format!("independent-person-{i}"));
        p.organization_person_id = None;
        without.push(p);
    }
    create_batch(&mut repo, without, Some(audit_log.id));
    let mut with = Vec::new();
    for i in 0..3 {
        let mut p = create_test_person(&format!("org-employee-{i}"));
        p.organization_person_id = Some(org_id);
        with.push(p);
    }
    create_batch(&mut repo, with, Some(audit_log.id));
    let page = repo.find_by_organization_person_id(org_id, PageRequest::new(10, 0));
    assert_eq!(page.total, 3);
    assert_eq!(page.items.len(), 3);
    assert!(page.items.iter().all(|idx| idx.organization_person_id == Some(org_id)));
}

#[test]
fn test_find_by_organization_person_id_pagination() {
    let mut repo = fresh_repo();
    let audit_log = create_test_audit_log();
    let org = create_test_person("organization-person");
    let org_id = org.id;
    create_batch(&mut repo, vec![org], Some(audit_log.id));
    let mut persons = Vec::new();
    for i in 0..5 {
        let mut p = create_test_person(&format!("employee-{i}"));
        p.organization_person_id = Some(org_id);
        persons.push(p);
    }
    create_batch(&mut repo, persons, Some(audit_log.id));

    let page1 = repo.find_by_organization_person_id(org_id, PageRequest::new(2, 0));
    assert_eq!(page1.total, 5);
    assert_eq!(page1.items.len(), 2);
    assert_eq!(page1.page_number(), 1);
    assert_eq!(page1.total_pages(), 3);
    assert!(page1.has_more());

    let page2 = repo.find_by_organization_person_id(org_id, PageRequest::new(2, 2));
    assert_eq!(page2.total, 5);
    assert_eq!(page2.items.len(), 2);
    assert_eq!(page2.page_number(), 2);
    assert!(page2.has_more());

    let page3 = repo.find_by_organization_person_id(org_id, PageRequest::new(2, 4));
    assert_eq!(page3.total, 5);
    assert_eq!(page3.items.len(), 1);
    assert_eq!(page3.page_number(), 3);
    assert!(!page3.has_more());
}

#[test]
fn update_batch_test_update_batch() {
    let mut repo = fresh_repo();
    let audit_log = create_test_audit_log();
    let mut persons = Vec::new();
    for i in 0..3 {
        persons.push(create_test_person(&format!("Original Person {i}")));
    }
    let saved = create_batch(&mut repo, persons, Some(audit_log.id));
    let update_log = create_test_audit_log();
    let mut changed = Vec::new();
    for p in &saved {
        let mut c = p.copy();
        c.display_name = "Updated Person".to_string();
        changed.push(c);
    }
    let steps = repo.prepare_update_batch(&changed, Some(update_log.id)).unwrap();
    assert_eq!(steps.len(), 3);
    for (step, before) in steps.iter().zip(saved.iter()) {
        assert!(step.is_changed());
        let rec = step.record();
        assert_eq!(rec.display_name.as_str(), "Updated Person");
        assert_eq!(rec.audit_log_id, Some(update_log.id));
        assert_eq!(rec.antecedent_hash, before.hash);
        assert_eq!(rec.antecedent_audit_log_id, audit_log.id);
    }
    repo.finish_update_batch(&steps);
}

#[test]
fn update_batch_test_update_batch_empty() {
    let repo = fresh_repo();
    let audit_log = create_test_audit_log();
    let steps = repo.prepare_update_batch(&Vec::new(), Some(audit_log.id)).unwrap();
    assert_eq!(steps.len(), 0);
}

#[test]
fn person_update_of_unchanged_record_writes_nothing() {
    let mut repo = fresh_repo();
    let audit_log = create_test_audit_log();
    let saved = create_batch(&mut repo, vec![create_test_person("same")], Some(audit_log.id));
    let steps = repo.prepare_update_batch(&saved, Some(create_test_audit_log().id)).unwrap();
    assert_eq!(steps.len(), 1);
    match &steps[0] {
        UpdateStep::Unchanged(p) => assert_eq!(p, &saved[0]),
        UpdateStep::Changed { .. } => panic!("an unchanged person must not be rewritten"),
    }
}

#[test]
fn person_batches_refused_without_audit_log() {
    let repo = fresh_repo();
    let persons = vec![create_test_person("x")];
    assert_eq!(repo.prepare_create_batch(&persons, None).err(), Some(RepositoryError::MissingAuditLogId));
    assert!(matches!(repo.prepare_update_batch(&persons, None), Err(RepositoryError::MissingAuditLogId)));
    let loaded = vec![Some(create_test_person("y"))];
    assert!(matches!(repo.prepare_delete_batch(&loaded, None), Err(RepositoryError::MissingAuditLogId)));
    // A person never written carries no audit log entry.
    assert!(matches!(
        repo.prepare_update_batch(&persons, Some(7)),
        Err(RepositoryError::EntityWithoutAuditLogId)
    ));
    assert!(matches!(
        repo.prepare_delete_batch(&loaded, Some(7)),
        Err(RepositoryError::EntityWithoutAuditLogId)
    ));
}

#[test]
fn person_delete_batch_chains_final_version() {
    let mut repo = fresh_repo();
    let audit_log = create_test_audit_log();
    let saved = create_batch(&mut repo, vec![create_test_person("leaving")], Some(audit_log.id));
    let delete_log = create_test_audit_log();
    let loaded = vec![Some(saved[0].copy()), None];
    let out = repo.prepare_delete_batch(&loaded, Some(delete_log.id)).unwrap();
    assert_eq!(out.len(), 2);
    assert!(out[1].is_none());
    let last = out[0].as_ref().unwrap();
    assert_eq!(last.id, saved[0].id);
    assert_eq!(last.antecedent_hash, saved[0].hash);
    assert_eq!(last.antecedent_audit_log_id, audit_log.id);
    assert_eq!(last.audit_log_id, Some(delete_log.id));
    repo.finish_delete_batch(&[saved[0].id]);
    assert!(!repo.person_idx_cache.contains_primary(saved[0].id));
}

#[test]
fn person_rollback_discards_unit_of_work() {
    let mut repo = fresh_repo();
    let audit_log = create_test_audit_log();
    let first = create_batch(&mut repo, vec![create_test_person("kept")], Some(audit_log.id));
    repo.on_commit();
    let second = create_batch(&mut repo, vec![create_test_person("discarded")], Some(audit_log.id));
    assert!(repo.person_idx_cache.contains_primary(second[0].id));
    repo.on_rollback();
    assert!(repo.person_idx_cache.contains_primary(first[0].id));
    assert!(!repo.person_idx_cache.contains_primary(second[0].id));
}

#[test]
fn reference_data_helpers_link_their_parents() {
    let country = create_test_country("CM", "Cameroon");
    assert_eq!(country.iso2, "CM");
    assert_eq!(country.name_l1, "Cameroon");
    let region = create_test_country_subdivision(country.id, "CE", "Centre");
    assert_eq!(region.country_id, country.id);
    let town = create_test_locality(region.id, "YDE", "Yaounde");
    assert_eq!(town.country_subdivision_id, region.id);
    let location = create_test_location(town.id, "1 Main Street");
    assert_eq!(location.locality_id, town.id);
    assert_eq!(location.audit_log_id, None);
    let person = create_test_person("referenced");
    let reference = create_test_entity_reference(person.id, "EXT-1");
    assert_eq!(reference.person_id, person.id);
    assert_eq!(reference.reference_external_id, "EXT-1");
    assert_eq!(person.id_number, "TEST123456");
}

#[test]
fn updated_person_found_by_new_identifier_only() {
    let mut repo = fresh_repo();
    let audit_log = create_test_audit_log();
    let saved = create_batch(&mut repo, vec![create_test_person_with_external_id("moving", "EMP-OLD")], Some(audit_log.id));
    let mut changed = saved[0].copy();
    changed.external_identifier = Some("EMP-NEW".to_string());
    let steps = repo.prepare_update_batch(&vec![changed], Some(create_test_audit_log().id)).unwrap();
    repo.finish_update_batch(&steps);
    let found_new = repo.find_by_external_identifier_hash(hash_text("EMP-NEW"));
    assert!(found_new.iter().any(|idx| idx.id == saved[0].id));
    let found_old = repo.find_by_external_identifier_hash(hash_text("EMP-OLD"));
    assert!(found_old.iter().all(|idx| idx.id != saved[0].id));
}
