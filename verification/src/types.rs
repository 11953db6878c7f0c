//! Plain value types spoken at the bridge boundary: entity status values,
//! the bridge's error taxonomy, and the outcome of an undo request.

use vstd::prelude::*;

verus! {

/// The status values an entity may carry at the bridge boundary.
#[derive(Clone, Copy, PartialEq, Eq, Structural, Debug)]
pub enum EntityStatus {
    Pending,
    Completed,
    Deleted,
}

impl EntityStatus {
    /// The field value the store records for this status.
    pub open spec fn field_text(self) -> Seq<char> {
        match self {
            EntityStatus::Pending => "pending"@,
            EntityStatus::Completed => "completed"@,
            EntityStatus::Deleted => "deleted"@,
        }
    }
}

/// Which status a boundary string denotes, if any.
pub open spec fn spec_parse_status(s: Seq<char>) -> Option<EntityStatus> {
    if s == "pending"@ {
        Some(EntityStatus::Pending)
    } else if s == "completed"@ {
        Some(EntityStatus::Completed)
    } else if s == "deleted"@ {
        Some(EntityStatus::Deleted)
    } else {
        None
    }
}

/// Parse a boundary status string; anything but the three recognized words
/// is rejected.
pub fn parse_status(s: &String) -> (r: Option<EntityStatus>)
    ensures
        r == spec_parse_status(s@),
{
    let pending = "pending".to_owned();
    let completed = "completed".to_owned();
    let deleted = "deleted".to_owned();
    if *s == pending {
        Some(EntityStatus::Pending)
    } else if *s == completed {
        Some(EntityStatus::Completed)
    } else if *s == deleted {
        Some(EntityStatus::Deleted)
    } else {
        None
    }
}

/// The bridge's error taxonomy.  Every failure crossing the boundary is one
/// of these; none propagates as an abnormal termination.
#[derive(Clone, Copy, PartialEq, Eq, Structural, Debug)]
pub enum BridgeError {
    /// A malformed entity id, an unrecognized status, an invalid tag, or a
    /// malformed configuration document.
    InvalidInput,
    /// An unregistered handle, an absent entity, or an out-of-range position.
    NotFound,
    /// An undo blocked by intervening changes.
    Conflict,
    /// The store could not be opened; at the boundary this surfaces as the
    /// zero handle sentinel.
    Unavailable,
    /// A synchronization transport or authentication failure; at the
    /// boundary this surfaces as an "ERROR: "-prefixed message.
    RemoteFailure,
    /// A failure inside the store layer while executing a batch.
    InternalFault,
}

/// Which step of a remote synchronization failed, with the failure's
/// rendered detail text.  The boundary message is composed from this by
/// verified code.
pub enum SyncFailure {
    /// The remote endpoint could not be constructed from its description.
    ServerSetup(String),
    /// The synchronization call itself failed.
    Transport(String),
}

/// Outcome of an undo request that did not fail.
#[derive(Clone, Copy, PartialEq, Eq, Structural, Debug)]
pub enum UndoOutcome {
    /// The operations since the last undo point were reversed.
    Undone,
    /// There was nothing to undo; the store is unchanged.
    NothingToUndo,
}

} // verus!
