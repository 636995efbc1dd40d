//! Repositories of the person module.

pub mod person_repository;
pub mod risk_summary_repository;
pub mod portfolio_repository;
pub mod test_utils;
