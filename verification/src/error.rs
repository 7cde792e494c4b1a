//! What can go wrong, and where.

use vstd::prelude::*;

verus! {

/// One of the three record domains.
#[derive(Clone, Copy, Debug, PartialEq, Eq)]
pub enum Domain {
    OilToken,
    Tokenization,
    Comment,
}

/// The identity of a deterministic program: eight 32-bit words.
#[derive(Clone, Copy, Debug, PartialEq, Eq)]
pub struct ProgramId {
    pub words: [u32; 8],
}

/// A failure of the engine, with what a caller needs to decide on recovery.
#[derive(Clone, Debug, PartialEq, Eq)]
pub enum EngineError {
    /// A row of the domain has a field that holds the separator of a leaf, so that its
    /// leaf can be that of another row. For information only: no function of the engine
    /// gives this back.
    EncodingAmbiguity { domain: Domain },
    /// A domain state whose count of leaves is not the count of its digests.
    StateInconsistency { domain: Domain },
    /// No receipt could be produced for the program.
    ProvingFailure { program: ProgramId, reason: String },
    /// A receipt did not verify against the program.
    VerificationFailure { program: ProgramId, reason: String },
    /// The anchor store could not be used: no credentials, or out of reach.
    AnchorUnavailable { reason: String },
    /// The anchor store answered with an error.
    AnchorRejected { reason: String },
}

} // verus!
