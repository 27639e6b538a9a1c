//! Shared PostgreSQL enums.
use vstd::prelude::*;

verus! {

/// Transaction isolation requested through the legacy, driver-facing API.
///
/// `ReadCommitted` keeps the historical behaviour of leaving the isolation
/// level to the server.
#[derive(Debug, Clone, Copy, PartialEq, Eq, Structural)]
pub enum PostgresTransactionType {
    /// `READ UNCOMMITTED`.
    ReadUncommitted,
    /// `READ COMMITTED` (server default behaviour).
    ReadCommitted,
    /// `REPEATABLE READ`.
    RepeatableRead,
    /// `SERIALIZABLE`.
    Serializable,
}

} // verus!
