//! Audit log entries and the links from them to the records they wrote.

use vstd::prelude::*;
use crate::values::Timestamp;

verus! {

/// One audit log entry: who changed data, and when.
#[derive(Clone, Copy, Debug, PartialEq, Eq, Structural)]
pub struct AuditLogModel {
    pub id: u128,
    pub updated_at: Timestamp,
    pub updated_by_person_id: u128,
}

/// Kind of record an audit link points at.
#[derive(Clone, Copy, Debug, PartialEq, Eq, Structural)]
pub enum EntityType {
    Person,
    Portfolio,
    AccountGlMapping,
    FeeTypeGlMapping,
    InterestRateTier,
    Product,
    Location,
    EntityReference,
}

/// Records that an audit log entry wrote a version of a record.
#[derive(Clone, Copy, Debug, PartialEq, Eq, Structural)]
pub struct AuditLinkModel {
    pub audit_log_id: u128,
    pub entity_id: u128,
    pub entity_type: EntityType,
}

} // verus!
