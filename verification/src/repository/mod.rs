//! The repositories: what each batch operation writes, and how it keeps the
//! caches of the unit of work in step with what it wrote.

pub mod common;
pub mod person;
pub mod product;
