//! The failures that the pipeline's collaborators report.

use vstd::prelude::*;

verus! {

/// The catalog could not be queried. The scheduler skips the tick and asks
/// again at the next one.
#[derive(Clone, Debug, PartialEq, Eq)]
pub struct CatalogError {
    /// What the catalog said of the failure.
    pub message: String,
}

/// The network lookup failed: a timeout, a broken connection or a protocol
/// error. It ends the auditor.
#[derive(Clone, Debug, PartialEq, Eq)]
pub struct NetworkError {
    /// What the network client said of the failure.
    pub message: String,
}

/// The audit store could not persist a record. It ends the auditor.
#[derive(Clone, Debug, PartialEq, Eq)]
pub struct StoreError {
    /// What the store said of the failure.
    pub message: String,
}

/// Why the auditor gave up.
#[derive(Clone, Debug, PartialEq, Eq)]
pub enum AuditError {
    /// A lookup against the network failed.
    Network(NetworkError),
    /// A record could not be written.
    Store(StoreError),
}

} // verus!
