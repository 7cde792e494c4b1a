//! Proof envelopes: a committed state with the receipt that attests it and the cost of
//! producing that receipt. A committed state is to be trusted only once its receipt has
//! verified against the program that is expected to have produced it.

use vstd::prelude::*;
use crate::error::{EngineError, ProgramId};
use crate::overall::OverallState;
use crate::state::{CommentState, OilTokenState, TokenizationState};

verus! {

#[verifier::external_type_specification]
#[verifier::external_body]
pub struct ExReceipt(risc0_zkvm::Receipt);

/// What producing a receipt cost.
#[derive(Clone, Copy, Debug, PartialEq, Eq)]
pub struct SessionStats {
    /// Count of segments in the proof request.
    pub segments: usize,
    /// Total cycles run.
    pub total_cycles: u64,
    /// Cycles of the program itself.
    pub user_cycles: u64,
    /// Cycles spent paging.
    pub paging_cycles: u64,
    /// Cycles held in reserve.
    pub reserved_cycles: u64,
}

/// What is to be returned once proving has ended: the envelope, or a proving failure that
/// names the program and keeps the prover's reason.
pub fn after_proving<T>(program: ProgramId, outcome: Result<T, String>) -> (result: Result<
    T,
    EngineError,
>)
    ensures
        match outcome {
            Ok(envelope) => result == Ok::<T, EngineError>(envelope),
            Err(reason) => result == Err::<T, EngineError>(
                EngineError::ProvingFailure { program, reason },
            ),
        },
{
    match outcome {
        Ok(envelope) => Ok(envelope),
        Err(reason) => Err(EngineError::ProvingFailure { program, reason }),
    }
}

/// `risc0_zkvm::Receipt::verify` with the program's identity as the image: `Ok` where the
/// receipt verified, else the error in words. Which of the two comes back is not stated: it
/// also depends on whether the process runs in development mode.
#[verifier::external_body]
fn receipt_verdict(receipt: &risc0_zkvm::Receipt, program: &ProgramId) -> (verdict: Result<
    (),
    String,
>) {
    match receipt.verify(program.words) {
        Ok(()) => Ok(()),
        Err(error) => Err(error.to_string()),
    }
}

/// What the outcome of decoding a receipt's public output comes to for a caller that
/// cannot go on without the state: an output that does not decode counts as a corrupted
/// receipt, and the failure names the program and keeps the reason.
pub open spec fn decoded_or_failure<T>(program: ProgramId, decoded: Result<T, String>) -> Result<
    T,
    EngineError,
> {
    match decoded {
        Ok(state) => Ok(state),
        Err(reason) => Err(EngineError::VerificationFailure { program, reason }),
    }
}

/// Turns the outcome of decoding into what the caller gets.
pub fn finish_decoding<T>(program: &ProgramId, decoded: Result<T, String>) -> (result: Result<
    T,
    EngineError,
>)
    ensures
        result == decoded_or_failure(*program, decoded),
{
    match decoded {
        Ok(state) => Ok(state),
        Err(reason) => Err(EngineError::VerificationFailure { program: *program, reason }),
    }
}

/// What a verdict on a receipt lets out, for a receipt whose public output is yet to be
/// decoded. On a failed verdict the result is a verification failure that names the
/// program and keeps the verifier's reason, and `decode` is not called. On a passing
/// verdict `decode` is called once, and the result is what its outcome comes to.
pub fn decode_on_verdict<T, F: FnOnce() -> Result<T, String>>(
    program: &ProgramId,
    verdict: Result<(), String>,
    decode: F,
) -> (result: Result<T, EngineError>)
    requires
        verdict is Ok ==> decode.requires(()),
    ensures
        match verdict {
            Ok(_) => exists|decoded: Result<T, String>| #[trigger]
                decode.ensures((), decoded) && result == decoded_or_failure(*program, decoded),
            Err(reason) => result == Err::<T, EngineError>(
                EngineError::VerificationFailure { program: *program, reason },
            ),
        },
{
    match verdict {
        Ok(_) => finish_decoding(program, decode()),
        Err(reason) => Err(EngineError::VerificationFailure { program: *program, reason }),
    }
}

/// Asks the verifier whether the receipt attests a run of the expected program, and has
/// the receipt's public output decoded only once the verifier has agreed. A state comes
/// out only as what `decode` gave; a failure is a verification failure that names the
/// expected program.
pub fn verify_then_decode<T, F: FnOnce() -> Result<T, String>>(
    receipt: &risc0_zkvm::Receipt,
    expected_program: &ProgramId,
    decode: F,
) -> (result: Result<T, EngineError>)
    requires
        decode.requires(()),
    ensures
        match result {
            Ok(state) => decode.ensures((), Ok::<T, String>(state)),
            Err(error) => error is VerificationFailure && error->VerificationFailure_program
                == *expected_program,
        },
{
    let verdict = receipt_verdict(receipt, expected_program);
    decode_on_verdict(expected_program, verdict, decode)
}

/// The state of the asset domain with its receipt. The committed state is what the
/// receipt's public output decodes to, or why it does not decode.
pub struct OilTokenCommit {
    pub committed_state: Result<OilTokenState, String>,
    pub receipt: risc0_zkvm::Receipt,
    pub stats: SessionStats,
}

impl OilTokenCommit {
    /// The committed state, unchecked: to be used only where the receipt is trusted
    /// already. Where the public output does not decode, the reason.
    pub fn get_commit(&self) -> (result: Result<OilTokenState, String>)
        ensures
            match self.committed_state {
                Ok(state) => result is Ok && result->Ok_0@ == state@,
                Err(reason) => result == Err::<OilTokenState, String>(reason),
            },
    {
        match &self.committed_state {
            Ok(state) => Ok(state.duplicate()),
            Err(reason) => Err(reason.clone()),
        }
    }

    /// The committed state for a caller that cannot go on without it: where the public
    /// output does not decode, the receipt counts as corrupted, and the failure names
    /// the program and keeps the reason why the output does not decode.
    pub fn committed_or_failure(&self, program: &ProgramId) -> (result: Result<
        OilTokenState,
        EngineError,
    >)
        ensures
            match self.committed_state {
                Ok(state) => result is Ok && result->Ok_0@ == state@,
                Err(reason) => result == Err::<OilTokenState, EngineError>(
                    EngineError::VerificationFailure { program: *program, reason },
                ),
            },
    {
        match self.get_commit() {
            Ok(state) => Ok(state),
            Err(reason) => Err(EngineError::VerificationFailure { program: *program, reason }),
        }
    }

    /// What a verdict on the receipt lets out: the committed state where the receipt
    /// verified, else a verification failure that names the program and keeps the
    /// verifier's reason. No state passes on a failed verdict. A verified receipt whose
    /// public output does not decode fails too, with the reason why it does not.
    pub fn commit_on_verdict(&self, program: &ProgramId, verdict: Result<(), String>) -> (result:
        Result<OilTokenState, EngineError>)
        ensures
            match (verdict, self.committed_state) {
                (Ok(_), Ok(state)) => result is Ok && result->Ok_0@ == state@,
                (Ok(_), Err(reason)) => result == Err::<OilTokenState, EngineError>(
                    EngineError::VerificationFailure { program: *program, reason },
                ),
                (Err(reason), _) => result == Err::<OilTokenState, EngineError>(
                    EngineError::VerificationFailure { program: *program, reason },
                ),
            },
    {
        match verdict {
            Ok(_) => self.committed_or_failure(program),
            Err(reason) => Err(EngineError::VerificationFailure { program: *program, reason }),
        }
    }

    /// The committed state, once the receipt has verified against the expected program;
    /// else a verification failure that names that program.
    pub fn verify_and_get_commit(&self, expected_program: &ProgramId) -> (result: Result<
        OilTokenState,
        EngineError,
    >)
        ensures
            match result {
                Ok(state) => self.committed_state is Ok && state@
                    == self.committed_state->Ok_0@,
                Err(error) => error is VerificationFailure
                    && error->VerificationFailure_program == *expected_program,
            },
    {
        let verdict = receipt_verdict(&self.receipt, expected_program);
        self.commit_on_verdict(expected_program, verdict)
    }
}

/// The state of the transfer domain with its receipt. The committed state is what the
/// receipt's public output decodes to, or why it does not decode.
pub struct TokenizationCommit {
    pub committed_state: Result<TokenizationState, String>,
    pub receipt: risc0_zkvm::Receipt,
    pub stats: SessionStats,
}

impl TokenizationCommit {
    /// The committed state, unchecked: to be used only where the receipt is trusted
    /// already. Where the public output does not decode, the reason.
    pub fn get_commit(&self) -> (result: Result<TokenizationState, String>)
        ensures
            match self.committed_state {
                Ok(state) => result is Ok && result->Ok_0@ == state@,
                Err(reason) => result == Err::<TokenizationState, String>(reason),
            },
    {
        match &self.committed_state {
            Ok(state) => Ok(state.duplicate()),
            Err(reason) => Err(reason.clone()),
        }
    }

    /// The committed state for a caller that cannot go on without it: where the public
    /// output does not decode, the receipt counts as corrupted, and the failure names
    /// the program and keeps the reason why the output does not decode.
    pub fn committed_or_failure(&self, program: &ProgramId) -> (result: Result<
        TokenizationState,
        EngineError,
    >)
        ensures
            match self.committed_state {
                Ok(state) => result is Ok && result->Ok_0@ == state@,
                Err(reason) => result == Err::<TokenizationState, EngineError>(
                    EngineError::VerificationFailure { program: *program, reason },
                ),
            },
    {
        match self.get_commit() {
            Ok(state) => Ok(state),
            Err(reason) => Err(EngineError::VerificationFailure { program: *program, reason }),
        }
    }

    /// What a verdict on the receipt lets out: the committed state where the receipt
    /// verified, else a verification failure that names the program and keeps the
    /// verifier's reason. No state passes on a failed verdict. A verified receipt whose
    /// public output does not decode fails too, with the reason why it does not.
    pub fn commit_on_verdict(&self, program: &ProgramId, verdict: Result<(), String>) -> (result:
        Result<TokenizationState, EngineError>)
        ensures
            match (verdict, self.committed_state) {
                (Ok(_), Ok(state)) => result is Ok && result->Ok_0@ == state@,
                (Ok(_), Err(reason)) => result == Err::<TokenizationState, EngineError>(
                    EngineError::VerificationFailure { program: *program, reason },
                ),
                (Err(reason), _) => result == Err::<TokenizationState, EngineError>(
                    EngineError::VerificationFailure { program: *program, reason },
                ),
            },
    {
        match verdict {
            Ok(_) => self.committed_or_failure(program),
            Err(reason) => Err(EngineError::VerificationFailure { program: *program, reason }),
        }
    }

    /// The committed state, once the receipt has verified against the expected program;
    /// else a verification failure that names that program.
    pub fn verify_and_get_commit(&self, expected_program: &ProgramId) -> (result: Result<
        TokenizationState,
        EngineError,
    >)
        ensures
            match result {
                Ok(state) => self.committed_state is Ok && state@
                    == self.committed_state->Ok_0@,
                Err(error) => error is VerificationFailure
                    && error->VerificationFailure_program == *expected_program,
            },
    {
        let verdict = receipt_verdict(&self.receipt, expected_program);
        self.commit_on_verdict(expected_program, verdict)
    }
}

/// The state of the annotation domain with its receipt. The committed state is what the
/// receipt's public output decodes to, or why it does not decode.
pub struct CommentCommit {
    pub committed_state: Result<CommentState, String>,
    pub receipt: risc0_zkvm::Receipt,
    pub stats: SessionStats,
}

impl CommentCommit {
    /// The committed state, unchecked: to be used only where the receipt is trusted
    /// already. Where the public output does not decode, the reason.
    pub fn get_commit(&self) -> (result: Result<CommentState, String>)
        ensures
            match self.committed_state {
                Ok(state) => result is Ok && result->Ok_0@ == state@,
                Err(reason) => result == Err::<CommentState, String>(reason),
            },
    {
        match &self.committed_state {
            Ok(state) => Ok(state.duplicate()),
            Err(reason) => Err(reason.clone()),
        }
    }

    /// The committed state for a caller that cannot go on without it: where the public
    /// output does not decode, the receipt counts as corrupted, and the failure names
    /// the program and keeps the reason why the output does not decode.
    pub fn committed_or_failure(&self, program: &ProgramId) -> (result: Result<
        CommentState,
        EngineError,
    >)
        ensures
            match self.committed_state {
                Ok(state) => result is Ok && result->Ok_0@ == state@,
                Err(reason) => result == Err::<CommentState, EngineError>(
                    EngineError::VerificationFailure { program: *program, reason },
                ),
            },
    {
        match self.get_commit() {
            Ok(state) => Ok(state),
            Err(reason) => Err(EngineError::VerificationFailure { program: *program, reason }),
        }
    }

    /// What a verdict on the receipt lets out: the committed state where the receipt
    /// verified, else a verification failure that names the program and keeps the
    /// verifier's reason. No state passes on a failed verdict. A verified receipt whose
    /// public output does not decode fails too, with the reason why it does not.
    pub fn commit_on_verdict(&self, program: &ProgramId, verdict: Result<(), String>) -> (result:
        Result<CommentState, EngineError>)
        ensures
            match (verdict, self.committed_state) {
                (Ok(_), Ok(state)) => result is Ok && result->Ok_0@ == state@,
                (Ok(_), Err(reason)) => result == Err::<CommentState, EngineError>(
                    EngineError::VerificationFailure { program: *program, reason },
                ),
                (Err(reason), _) => result == Err::<CommentState, EngineError>(
                    EngineError::VerificationFailure { program: *program, reason },
                ),
            },
    {
        match verdict {
            Ok(_) => self.committed_or_failure(program),
            Err(reason) => Err(EngineError::VerificationFailure { program: *program, reason }),
        }
    }

    /// The committed state, once the receipt has verified against the expected program;
    /// else a verification failure that names that program.
    pub fn verify_and_get_commit(&self, expected_program: &ProgramId) -> (result: Result<
        CommentState,
        EngineError,
    >)
        ensures
            match result {
                Ok(state) => self.committed_state is Ok && state@
                    == self.committed_state->Ok_0@,
                Err(error) => error is VerificationFailure
                    && error->VerificationFailure_program == *expected_program,
            },
    {
        let verdict = receipt_verdict(&self.receipt, expected_program);
        self.commit_on_verdict(expected_program, verdict)
    }
}

/// An overall state with its receipt. The committed state is what the receipt's public output
/// decodes to, or why it does not decode.
pub struct OverallCommit {
    pub committed_state: Result<OverallState, String>,
    pub receipt: risc0_zkvm::Receipt,
    pub stats: SessionStats,
}

impl OverallCommit {
    /// The committed state, unchecked: to be used only where the receipt is trusted
    /// already. Where the public output does not decode, the reason.
    pub fn get_commit(&self) -> (result: Result<OverallState, String>)
        ensures
            match self.committed_state {
                Ok(state) => result is Ok && result->Ok_0@ == state@,
                Err(reason) => result == Err::<OverallState, String>(reason),
            },
    {
        match &self.committed_state {
            Ok(state) => Ok(state.duplicate()),
            Err(reason) => Err(reason.clone()),
        }
    }

    /// The committed state for a caller that cannot go on without it: where the public
    /// output does not decode, the receipt counts as corrupted, and the failure names
    /// the program and keeps the reason why the output does not decode.
    pub fn committed_or_failure(&self, program: &ProgramId) -> (result: Result<
        OverallState,
        EngineError,
    >)
        ensures
            match self.committed_state {
                Ok(state) => result is Ok && result->Ok_0@ == state@,
                Err(reason) => result == Err::<OverallState, EngineError>(
                    EngineError::VerificationFailure { program: *program, reason },
                ),
            },
    {
        match self.get_commit() {
            Ok(state) => Ok(state),
            Err(reason) => Err(EngineError::VerificationFailure { program: *program, reason }),
        }
    }

    /// What a verdict on the receipt lets out: the committed state where the receipt
    /// verified, else a verification failure that names the program and keeps the
    /// verifier's reason. No state passes on a failed verdict. A verified receipt whose
    /// public output does not decode fails too, with the reason why it does not.
    pub fn commit_on_verdict(&self, program: &ProgramId, verdict: Result<(), String>) -> (result:
        Result<OverallState, EngineError>)
        ensures
            match (verdict, self.committed_state) {
                (Ok(_), Ok(state)) => result is Ok && result->Ok_0@ == state@,
                (Ok(_), Err(reason)) => result == Err::<OverallState, EngineError>(
                    EngineError::VerificationFailure { program: *program, reason },
                ),
                (Err(reason), _) => result == Err::<OverallState, EngineError>(
                    EngineError::VerificationFailure { program: *program, reason },
                ),
            },
    {
        match verdict {
            Ok(_) => self.committed_or_failure(program),
            Err(reason) => Err(EngineError::VerificationFailure { program: *program, reason }),
        }
    }

    /// The committed state, once the receipt has verified against the expected program;
    /// else a verification failure that names that program.
    pub fn verify_and_get_commit(&self, expected_program: &ProgramId) -> (result: Result<
        OverallState,
        EngineError,
    >)
        ensures
            match result {
                Ok(state) => self.committed_state is Ok && state@
                    == self.committed_state->Ok_0@,
                Err(error) => error is VerificationFailure
                    && error->VerificationFailure_program == *expected_program,
            },
    {
        let verdict = receipt_verdict(&self.receipt, expected_program);
        self.commit_on_verdict(expected_program, verdict)
    }
}

} // verus!
