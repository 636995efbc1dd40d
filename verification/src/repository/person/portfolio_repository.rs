//! The portfolio repository: audited updates and deletions of portfolios.

use vstd::prelude::*;
use crate::audit::{
    all_have_audit_log, all_present_have_audit_log, prepare_delete, prepare_update, successor,
    update_step, RepositoryError, UpdateStep,
};
use crate::models::portfolio::PortfolioModel;

verus! {

/// Portfolio writes within one unit of work; portfolios keep no cache.
pub struct PortfolioRepositoryImpl {}

impl PortfolioRepositoryImpl {
    pub fn new() -> (r: Self) {
        PortfolioRepositoryImpl {  }
    }

    /// The steps of an update batch: portfolios unchanged since they were
    /// written are handed back as they are; the others are chained to their
    /// stored version and sealed under the audit log entry. Refused when no
    /// audit log entry is given, or when a portfolio carries none.
    pub fn prepare_update_batch(&self, items: &Vec<PortfolioModel>, audit_log_id: Option<u128>) -> (r:
        Result<Vec<UpdateStep<PortfolioModel>>, RepositoryError>)
        ensures
            r is Err <==> (audit_log_id is None || !all_have_audit_log(items@)),
            audit_log_id is None ==> r == Err::<Vec<UpdateStep<PortfolioModel>>, _>(
                RepositoryError::MissingAuditLogId,
            ),
            audit_log_id is Some && !all_have_audit_log(items@) ==> r == Err::<
                Vec<UpdateStep<PortfolioModel>>,
                _,
            >(RepositoryError::EntityWithoutAuditLogId),
            r matches Ok(steps) ==> {
                &&& steps@.len() == items@.len()
                &&& forall|i: int|
                    0 <= i < items@.len() ==> steps@[i] == update_step(items@[i], audit_log_id->0)
            },
    {
        prepare_update(items, audit_log_id)
    }

    /// The final versions a delete batch writes to the audit table, aligned
    /// with the portfolios loaded for the ids. Refused when no audit log entry
    /// is given, or when a portfolio found carries none.
    pub fn prepare_delete_batch(
        &self,
        loaded: &Vec<Option<PortfolioModel>>,
        audit_log_id: Option<u128>,
    ) -> (r: Result<Vec<Option<PortfolioModel>>, RepositoryError>)
        ensures
            r is Err <==> (audit_log_id is None || !all_present_have_audit_log(loaded@)),
            audit_log_id is None ==> r == Err::<Vec<Option<PortfolioModel>>, _>(
                RepositoryError::MissingAuditLogId,
            ),
            audit_log_id is Some && !all_present_have_audit_log(loaded@) ==> r == Err::<
                Vec<Option<PortfolioModel>>,
                _,
            >(RepositoryError::EntityWithoutAuditLogId),
            r matches Ok(out) ==> {
                &&& out@.len() == loaded@.len()
                &&& forall|i: int|
                    0 <= i < loaded@.len() ==> (#[trigger] out@[i] is Some <==> loaded@[i] is Some)
                &&& forall|i: int|
                    0 <= i < loaded@.len() && loaded@[i] is Some ==> #[trigger] out@[i] == Some(
                        successor(loaded@[i]->0, audit_log_id->0),
                    )
            },
    {
        prepare_delete(loaded, audit_log_id)
    }
}

} // verus!
