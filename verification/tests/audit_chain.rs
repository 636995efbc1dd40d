use business_core_postgres::audit::{
    check_sealed, check_update_applied, prepare_create, prepare_delete, prepare_update,
    seal_record, update_one, AuditedModel, RepositoryError, UpdateStep,
};
use business_core_postgres::hashing::{hash_text, hash_words, push_text, push_u128};
use business_core_postgres::ids::{new_random_id, Keyed, NIL_ID};
use business_core_postgres::models::account_gl_mapping::AccountGlMappingModel;
use business_core_postgres::repository::person::test_utils::{
    create_test_location, create_test_portfolio,
};
use business_core_postgres::repository::product::test_utils::{
    create_test_account_gl_mapping, create_test_account_gl_mapping_with_overdraft,
    create_test_interest_rate_tier,
};
use business_core_postgres::values::{
    date_from_ymd, decimal_from_int, decimal_new, now_utc, CalendarDate, DecimalValue,
};

#[test]
fn hash_of_no_words_is_offset_basis() {
    assert_eq!(hash_words(&Vec::new()), -3750763034362895579);
}

#[test]
fn hash_of_words_exact_values() {
    assert_eq!(hash_words(&vec![1, 2, 3]), -3410805910829992533);
    assert_eq!(hash_words(&vec![0]), -5808590958014384161);
    // "ab": its byte count, then each byte.
    assert_eq!(hash_text("ab"), -1571751766855246198);
    assert_eq!(hash_words(&vec![2, 97, 98]), hash_text("ab"));
}

#[test]
fn hash_is_order_sensitive_and_deterministic() {
    assert_ne!(hash_words(&vec![1, 2]), hash_words(&vec![2, 1]));
    assert_eq!(hash_text("EMP-001"), hash_text("EMP-001"));
    assert_ne!(hash_text("EMP-001"), hash_text("EMP-002"));
}

#[test]
fn text_encoding_counts_utf8_bytes() {
    let mut w = Vec::new();
    push_text(&mut w, "é");
    assert_eq!(w, vec![2, 0xc3, 0xa9]);
    let mut u = Vec::new();
    push_u128(&mut u, (7u128 << 64) | 9);
    assert_eq!(u, vec![7, 9]);
}

#[test]
fn decimal_new_keeps_mantissa_and_scale() {
    assert_eq!(decimal_new(12345, 2), DecimalValue { mantissa: 12345, scale: 2 });
    assert_eq!(decimal_new(-5, 28), DecimalValue { mantissa: -5, scale: 28 });
    assert_eq!(decimal_from_int(10000), DecimalValue { mantissa: 10000, scale: 0 });
}

#[test]
fn date_from_ymd_accepts_only_real_dates() {
    assert_eq!(date_from_ymd(2024, 1, 1), Some(CalendarDate { year: 2024, month: 1, day: 1 }));
    assert_eq!(date_from_ymd(2024, 2, 29), Some(CalendarDate { year: 2024, month: 2, day: 29 }));
    assert_eq!(date_from_ymd(2023, 2, 29), None);
    assert_eq!(date_from_ymd(1900, 2, 29), None);
    assert_eq!(date_from_ymd(2000, 2, 29), Some(CalendarDate { year: 2000, month: 2, day: 29 }));
    assert_eq!(date_from_ymd(2024, 13, 1), None);
    assert_eq!(date_from_ymd(2024, 4, 31), None);
    assert_eq!(date_from_ymd(2024, 1, 0), None);
    assert_eq!(date_from_ymd(262143, 1, 1), None);
}

#[test]
fn random_ids_are_version_four() {
    for _ in 0..20 {
        let id = new_random_id();
        assert_eq!((id >> 76) & 0xf, 4);
        assert_eq!((id >> 62) & 0x3, 2);
    }
    assert_ne!(new_random_id(), new_random_id());
}

#[test]
fn clock_reading_is_after_2020() {
    assert!(now_utc().micros > 1_577_836_800_000_000);
}

#[test]
fn sealed_record_checks_and_carries_audit_fields() {
    let m = create_test_account_gl_mapping("12345");
    assert!(!check_sealed(&m));
    let s = seal_record(m.copy(), 11, 22, Some(33));
    assert!(check_sealed(&s));
    assert_eq!(s.id, m.id);
    assert_eq!(s.antecedent_hash, 11);
    assert_eq!(s.antecedent_audit_log_id, 22);
    assert_eq!(s.audit_log_id, Some(33));
    assert_ne!(s.hash, 0);
    let mut tampered = s.copy();
    tampered.customer_account_code = "54321".to_string();
    assert!(!check_sealed(&tampered));
}

#[test]
fn create_seals_each_record_under_the_audit_log() {
    let audit = new_random_id();
    let items = vec![
        create_test_account_gl_mapping("CUST1"),
        create_test_account_gl_mapping_with_overdraft("CUST2", "OD2"),
    ];
    let out = prepare_create(&items, Some(audit)).unwrap();
    assert_eq!(out.len(), 2);
    for (o, i) in out.iter().zip(items.iter()) {
        assert!(check_sealed(o));
        assert_eq!(o.id, i.id);
        assert_eq!(o.customer_account_code, i.customer_account_code);
        assert_eq!(o.overdraft_code, i.overdraft_code);
        assert_eq!(o.audit_log_id, Some(audit));
        assert_eq!(o.antecedent_hash, 0);
        assert_eq!(o.antecedent_audit_log_id, NIL_ID);
    }
    assert_ne!(out[0].hash, out[1].hash);
}

#[test]
fn create_without_audit_log_is_refused() {
    let items = vec![create_test_account_gl_mapping("X")];
    assert_eq!(prepare_create(&items, None).err(), Some(RepositoryError::MissingAuditLogId));
}

#[test]
fn update_after_create_is_unchanged() {
    let created = prepare_create(&vec![create_test_interest_rate_tier()], Some(5)).unwrap();
    let step = update_one(created[0].copy(), 6);
    assert!(!step.is_changed());
    assert_eq!(step.record(), &created[0]);
}

#[test]
fn update_of_changed_record_chains_to_previous_version() {
    let created = prepare_create(&vec![create_test_portfolio()], Some(100)).unwrap();
    let mut changed = created[0].copy();
    changed.total_accounts = 4;
    changed.total_balance = decimal_from_int(5000);
    let steps = prepare_update(&vec![changed.copy()], Some(200)).unwrap();
    match &steps[0] {
        UpdateStep::Changed { record, previous_hash, previous_audit_log_id } => {
            assert_eq!(*previous_hash, created[0].hash);
            assert_eq!(*previous_audit_log_id, 100);
            assert_eq!(record.antecedent_hash, created[0].hash);
            assert_eq!(record.antecedent_audit_log_id, 100);
            assert_eq!(record.audit_log_id, Some(200));
            assert_eq!(record.total_accounts, 4);
            assert!(check_sealed(record));
            // Updating the new version again is a no-op.
            let again = update_one(record.copy(), 300);
            assert!(!again.is_changed());
        }
        UpdateStep::Unchanged(_) => panic!("a changed record must be rewritten"),
    }
}

#[test]
fn update_refusals() {
    let never_written = create_test_location(1, "Main street 1");
    assert!(matches!(
        prepare_update(&vec![never_written.copy()], Some(1)),
        Err(RepositoryError::EntityWithoutAuditLogId)
    ));
    assert!(matches!(
        prepare_update(&vec![never_written.copy()], None),
        Err(RepositoryError::MissingAuditLogId)
    ));
}

#[test]
fn delete_writes_successor_of_each_found_record() {
    let created = prepare_create(&vec![create_test_account_gl_mapping("DEL")], Some(1)).unwrap();
    let loaded: Vec<Option<AccountGlMappingModel>> = vec![None, Some(created[0].copy())];
    let out = prepare_delete(&loaded, Some(2)).unwrap();
    assert!(out[0].is_none());
    let last = out[1].as_ref().unwrap();
    assert_eq!(last.antecedent_hash, created[0].hash);
    assert_eq!(last.antecedent_audit_log_id, 1);
    assert_eq!(last.audit_log_id, Some(2));
    assert!(check_sealed(last));
    let unwritten: Vec<Option<AccountGlMappingModel>> = vec![Some(create_test_account_gl_mapping("N"))];
    assert!(matches!(prepare_delete(&unwritten, Some(2)), Err(RepositoryError::EntityWithoutAuditLogId)));
    assert!(matches!(prepare_delete(&loaded, None), Err(RepositoryError::MissingAuditLogId)));
}

#[test]
fn guarded_update_row_count() {
    assert_eq!(check_update_applied(0), Err(RepositoryError::ConcurrentUpdate));
    assert_eq!(check_update_applied(1), Ok(()));
    assert_eq!(check_update_applied(3), Ok(()));
}

#[test]
fn trait_accessors_read_fields() {
    let s = seal_record(create_test_account_gl_mapping("A"), 1, 2, Some(3));
    assert_eq!(s.id(), s.id);
    assert_eq!(AuditedModel::hash(&s), s.hash);
    assert_eq!(s.antecedent_hash(), 1);
    assert_eq!(AuditedModel::audit_log_id(&s), Some(3));
    assert_eq!(s.duplicate(), s);
}
