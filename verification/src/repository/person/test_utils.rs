//! Sample records for exercising the person repositories.

use vstd::prelude::*;
use crate::ids::{is_random_uuid, new_random_id, NIL_ID};
use crate::models::audit_log::AuditLogModel;
use crate::models::enums::{
    IdentityType, LocationType, PersonStatus, PersonType, RelationshipRole, RiskRating,
};
use crate::models::person::PersonModel;
use crate::models::portfolio::PortfolioModel;
use crate::models::reference::{
    CountryModel, CountrySubdivisionModel, EntityReferenceModel, LocalityModel, LocationModel,
};
use crate::values::{decimal_from_int, decimal_new, now_utc, DecimalValue};

verus! {

/// A fresh audit log entry: a random id, the current time, and a random
/// person as its author.
pub fn create_test_audit_log() -> (r: AuditLogModel)
    ensures
        is_random_uuid(r.id),
        is_random_uuid(r.updated_by_person_id),
{
    let id = new_random_id();
    let updated_at = now_utc();
    let updated_by_person_id = new_random_id();
    AuditLogModel { id, updated_at, updated_by_person_id }
}

pub fn create_test_country(iso2: &str, name: &str) -> (r: CountryModel)
    ensures
        is_random_uuid(r.id),
        r.iso2@ == iso2@,
        r.name_l1@ == name@,
        r.name_l2 is None,
        r.name_l3 is None,
{
    CountryModel {
        id: new_random_id(),
        iso2: iso2.to_owned(),
        name_l1: name.to_owned(),
        name_l2: None,
        name_l3: None,
    }
}

pub fn create_test_country_subdivision(country_id: u128, code: &str, name: &str) -> (r:
    CountrySubdivisionModel)
    ensures
        is_random_uuid(r.id),
        r.country_id == country_id,
        r.code@ == code@,
        r.name_l1@ == name@,
        r.name_l2 is None,
        r.name_l3 is None,
{
    CountrySubdivisionModel {
        id: new_random_id(),
        country_id,
        code: code.to_owned(),
        name_l1: name.to_owned(),
        name_l2: None,
        name_l3: None,
    }
}

pub fn create_test_locality(country_subdivision_id: u128, code: &str, name: &str) -> (r:
    LocalityModel)
    ensures
        is_random_uuid(r.id),
        r.country_subdivision_id == country_subdivision_id,
        r.code@ == code@,
        r.name_l1@ == name@,
        r.name_l2 is None,
        r.name_l3 is None,
{
    LocalityModel {
        id: new_random_id(),
        country_subdivision_id,
        code: code.to_owned(),
        name_l1: name.to_owned(),
        name_l2: None,
        name_l3: None,
    }
}

/// A residential location on the given street line, not yet written.
pub fn create_test_location(locality_id: u128, street_line1: &str) -> (r: LocationModel)
    ensures
        is_random_uuid(r.id),
        r.locality_id == locality_id,
        r.street_line1@ == street_line1@,
        r.street_line2 is None && r.street_line3 is None && r.street_line4 is None,
        r.postal_code is None,
        r.latitude is None && r.longitude is None && r.accuracy_meters is None,
        r.location_type == LocationType::Residential,
        r.antecedent_hash == 0,
        r.antecedent_audit_log_id == NIL_ID,
        r.hash == 0,
        r.audit_log_id is None,
{
    LocationModel {
        id: new_random_id(),
        street_line1: street_line1.to_owned(),
        street_line2: None,
        street_line3: None,
        street_line4: None,
        locality_id,
        postal_code: None,
        latitude: None,
        longitude: None,
        accuracy_meters: None,
        location_type: LocationType::Residential,
        antecedent_hash: 0,
        antecedent_audit_log_id: NIL_ID,
        hash: 0,
        audit_log_id: None,
    }
}

/// A natural person of low risk, active, identified by a national id,
/// not yet written.
pub fn create_test_person(display_name: &str) -> (r: PersonModel)
    ensures
        is_random_uuid(r.id),
        r.person_type == PersonType::Natural,
        r.risk_rating == RiskRating::Low,
        r.status == PersonStatus::Active,
        r.display_name@ == display_name@,
        r.external_identifier is None,
        r.id_type == IdentityType::NationalId,
        r.id_number@ == "TEST123456"@,
        r.entity_reference_count == 0,
        r.organization_person_id is None,
        r.messaging_info1 is None && r.messaging_info2 is None && r.messaging_info3 is None
            && r.messaging_info4 is None && r.messaging_info5 is None,
        r.department is None,
        r.location_id is None,
        r.duplicate_of_person_id is None,
        r.last_activity_log is None && r.last_compliance_status is None && r.last_document is None
            && r.last_portfolio is None,
        r.antecedent_hash == 0,
        r.antecedent_audit_log_id == NIL_ID,
        r.hash == 0,
        r.audit_log_id is None,
{
    PersonModel {
        id: new_random_id(),
        person_type: PersonType::Natural,
        risk_rating: RiskRating::Low,
        status: PersonStatus::Active,
        display_name: display_name.to_owned(),
        external_identifier: None,
        id_type: IdentityType::NationalId,
        id_number: "TEST123456".to_owned(),
        entity_reference_count: 0,
        organization_person_id: None,
        messaging_info1: None,
        messaging_info2: None,
        messaging_info3: None,
        messaging_info4: None,
        messaging_info5: None,
        department: None,
        location_id: None,
        duplicate_of_person_id: None,
        last_activity_log: None,
        last_compliance_status: None,
        last_document: None,
        last_portfolio: None,
        antecedent_hash: 0,
        antecedent_audit_log_id: NIL_ID,
        hash: 0,
        audit_log_id: None,
    }
}

/// A customer reference from `person_id`, not yet written.
pub fn create_test_entity_reference(person_id: u128, reference_external_id: &str) -> (r:
    EntityReferenceModel)
    ensures
        is_random_uuid(r.id),
        r.person_id == person_id,
        r.entity_role == RelationshipRole::Customer,
        r.reference_external_id@ == reference_external_id@,
        r.reference_details_l1 is None && r.reference_details_l2 is None
            && r.reference_details_l3 is None,
        r.antecedent_hash == 0,
        r.antecedent_audit_log_id == NIL_ID,
        r.hash == 0,
        r.audit_log_id is None,
{
    EntityReferenceModel {
        id: new_random_id(),
        person_id,
        entity_role: RelationshipRole::Customer,
        reference_external_id: reference_external_id.to_owned(),
        reference_details_l1: None,
        reference_details_l2: None,
        reference_details_l3: None,
        antecedent_hash: 0,
        antecedent_audit_log_id: NIL_ID,
        hash: 0,
        audit_log_id: None,
    }
}

/// A portfolio of three accounts holding 10000, with loans of 5000 and 2000
/// and a risk score of 7.50, not yet written.
pub fn create_test_portfolio() -> (r: PortfolioModel)
    ensures
        is_random_uuid(r.id),
        is_random_uuid(r.person_id),
        r.total_accounts == 3,
        r.total_balance == (DecimalValue { mantissa: 10000, scale: 0 }),
        r.total_loan_outstanding_main == Some(DecimalValue { mantissa: 5000, scale: 0 }),
        r.total_loan_outstanding_grantor == Some(DecimalValue { mantissa: 2000, scale: 0 }),
        r.risk_score == Some(DecimalValue { mantissa: 750, scale: 2 }),
        is_random_uuid(r.compliance_status),
        r.predecessor_1 is None && r.predecessor_2 is None && r.predecessor_3 is None,
        r.antecedent_hash == 0,
        r.antecedent_audit_log_id == NIL_ID,
        r.hash == 0,
        r.audit_log_id is None,
{
    PortfolioModel {
        id: new_random_id(),
        person_id: new_random_id(),
        total_accounts: 3,
        total_balance: decimal_from_int(10000),
        total_loan_outstanding_main: Some(decimal_from_int(5000)),
        total_loan_outstanding_grantor: Some(decimal_from_int(2000)),
        risk_score: Some(decimal_new(750, 2)),
        compliance_status: new_random_id(),
        predecessor_1: None,
        predecessor_2: None,
        predecessor_3: None,
        antecedent_hash: 0,
        antecedent_audit_log_id: NIL_ID,
        hash: 0,
        audit_log_id: None,
    }
}

} // verus!
