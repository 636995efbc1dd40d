//! Repositories of the product module.

pub mod account_gl_mapping_repository;
pub mod fee_type_gl_mapping_repository;
pub mod interest_rate_tier_repository;
pub mod product_repository;
pub mod factory;
pub mod test_utils;
