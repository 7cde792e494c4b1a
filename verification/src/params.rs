//! What the deterministic programs read and what the signature check commits.

use vstd::prelude::*;
use crate::digest::Digest;

verus! {

/// A signed message to check.
#[derive(Clone, Debug, PartialEq, Eq)]
pub struct VerifyParams {
    pub message: String,
    pub signature_bytes: String,
    pub expected_addr: String,
    pub timestamp: i64,
    pub username: String,
}

/// The outcome of a signature check.
#[derive(Clone, Debug, PartialEq, Eq)]
pub struct VerifyCommit {
    pub verified: bool,
    pub address: String,
    pub timestamp: i64,
    pub username: String,
}

impl VerifyCommit {
    /// The commit for a request: it carries the request's address, time and user, and
    /// counts as verified.
    pub fn accept(params: VerifyParams) -> (commit: VerifyCommit)
        ensures
            commit == (VerifyCommit {
                verified: true,
                address: params.expected_addr,
                timestamp: params.timestamp,
                username: params.username,
            }),
    {
        VerifyCommit {
            verified: true,
            address: params.expected_addr,
            timestamp: params.timestamp,
            username: params.username,
        }
    }
}

/// The input of the composite program: the leaves of the three domains.
#[derive(Clone, Debug, PartialEq, Eq)]
pub struct OverallParams {
    pub oil_token_leaves: Vec<String>,
    pub tokenization_leaves: Vec<String>,
    pub comment_leaves: Vec<String>,
}

/// The three aggregates and their root, as bare digests.
#[derive(Clone, Copy, Debug, PartialEq, Eq)]
pub struct OilTokenizationState {
    pub oil_token_state: Digest,
    pub tokenization_state: Digest,
    pub comment_state: Digest,
    pub overall: Digest,
}

impl OilTokenizationState {
    /// Does nothing.
    pub fn init() {
    }

    /// Does nothing.
    pub fn process() {
    }

    /// Does nothing.
    pub fn sync() {
    }
}

} // verus!
