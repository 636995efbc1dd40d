#![allow(unused_imports)]

//! Verified core of the business-core Postgres repositories: the audit hash
//! chain that every audited write follows, the transaction-aware index caches
//! that answer the finder queries, batch assembly and pagination.
//!
//! The SQL round trips themselves are performed by the caller; every decision
//! taken around them (what is written, what is cached, what is answered) is
//! computed and proved here.

pub mod hashing;
pub mod ids;
pub mod values;
pub mod audit;
pub mod cache;
pub mod batch;
pub mod pagination;
pub mod models;
pub mod repository;
