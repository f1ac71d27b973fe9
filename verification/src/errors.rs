//! Tagged error kinds for the migration run, so that callers can tell
//! fatal failures from per-record ones instead of receiving one opaque
//! error value.
use vstd::prelude::*;

verus! {

/// Every way a migration run can fail, tagged by stage.
#[derive(Clone, Copy, PartialEq, Eq, Structural, Debug)]
pub enum MigrationError {
    /// The store connection could not be established or failed its liveness
    /// probe; nothing was read or written.
    Connection,
    /// The find or aggregate could not be issued; no documents will be
    /// processed in this invocation.
    QueryIssuance,
    /// The read stream failed while paging; it terminates early, but records
    /// already emitted continue through the writer.
    MidStreamRead,
    /// One document lacked the required `_id`; that document is skipped and
    /// counted, and the run continues.
    Extraction,
    /// One insert failed (for example a duplicate key); that record is
    /// counted as failed, and sibling writes continue.
    Write,
}

impl MigrationError {
    /// Whether the error aborts the whole run. Per-record failures
    /// (extraction, write) are recovered locally and never propagate past
    /// the record boundary; a mid-stream read failure ends the read stage
    /// early but does not cancel in-flight writes.
    pub open spec fn spec_is_fatal(self) -> bool {
        self == MigrationError::Connection || self == MigrationError::QueryIssuance
    }

    /// Classifies the error: `true` exactly for the kinds that abort the run
    /// before or at query issuance.
    pub fn is_fatal(&self) -> (r: bool)
        ensures
            r == self.spec_is_fatal(),
    {
        match self {
            MigrationError::Connection => true,
            MigrationError::QueryIssuance => true,
            _ => false,
        }
    }
}

} // verus!
