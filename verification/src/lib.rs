//! Failure vocabularies of a payment platform and the rules that carry a
//! failure from one layer to the next.
//!
//! Three flat vocabularies describe what went wrong at the storage layer, on
//! the wire to a connector, and inside a connector integration. Total
//! functions translate between them and towards the coarse outcome that the
//! public interface reports. One narrow rule turns a storage failure into a
//! success: an update that had nothing to change yields the entity it was
//! given.

pub mod errors;
pub mod outcome;
pub mod render;
pub mod storage;
