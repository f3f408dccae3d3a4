//! Error taxonomy of the session store and the orchestrator.

use vstd::prelude::*;

verus! {

/// Failures of the persistence layer.
#[derive(Clone, Copy, Debug, PartialEq, Eq, Structural)]
pub enum StoreError {
    /// The persistence medium cannot be reached; the failed operation did
    /// not persist anything, so the caller may retry it.
    Unavailable,
    /// A stored payload cannot be read back as its expected type; fatal
    /// for the session it belongs to.
    Corrupt,
}

/// Errors returned to the caller of a round operation.
#[derive(Clone, Copy, Debug, PartialEq, Eq, Structural)]
pub enum ProtocolError {
    /// The owner or session identifier is empty or contains the scheme's
    /// reserved delimiter; no store access is made.
    InvalidIdentifier,
    /// The round was requested before the artifact it consumes exists.
    SessionNotFound,
    /// The engine rejected an inbound proof; the session is aborted and
    /// no artifact is persisted for the failing round.
    ProofInvalid,
    /// Finalize was invoked while a required artifact of the key-generation
    /// or chain-code sub-protocol is still missing.
    IncompletePrerequisites,
    /// The session already holds its terminal master-key artifact; a
    /// retried round must not overwrite the earlier artifacts, so every
    /// mutating operation of a finalized session is refused.
    SessionFinalized,
    /// The session store failed.
    Store(StoreError),
}

} // verus!
