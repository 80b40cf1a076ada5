//! Identification of orphan file paths: content identifiers, deduplicated
//! insert batches, reconciliation of inserted rows onto path records, and the
//! paging state of the identification job.

pub mod batch;
pub mod cas;
pub mod job;
pub mod laws;
pub mod reconcile;
