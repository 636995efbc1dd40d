//! The records the repositories store, and the index rows kept for them.

pub mod enums;
pub mod person;
pub mod risk_summary;
pub mod portfolio;
pub mod account_gl_mapping;
pub mod fee_type_gl_mapping;
pub mod interest_rate_tier;
pub mod product;
pub mod reference;
pub mod audit_log;
