//! Decision logic of a content audit pipeline.
//!
//! A scheduler periodically asks a catalog for its most recent content keys
//! and hands a lookup key for each to a bounded queue; an auditor takes the
//! keys off the queue one by one, fetches the content from the network and
//! records whether the lookup passed. Timers, database access, the network
//! round trip and the queue itself are the caller's business: this crate
//! holds the two state machines that decide what is to be done next, the
//! derivation of lookup keys and the pass/fail rule, each with a proved
//! contract. It also reads the content identifiers that the dashboard is
//! asked for.

pub mod auditor;
pub mod content_id;
pub mod content_key;
pub mod error;
pub mod scheduler;
