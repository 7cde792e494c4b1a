use oil_tokenization_core::envelope::{
    after_proving, decode_on_verdict, finish_decoding, verify_then_decode, CommentCommit,
    OilTokenCommit, OverallCommit, SessionStats, TokenizationCommit,
};
use oil_tokenization_core::error::{Domain, EngineError, ProgramId};
use oil_tokenization_core::overall::OverallState;
use oil_tokenization_core::params::{OilTokenizationState, OverallParams, VerifyCommit, VerifyParams};
use oil_tokenization_core::digest::hash_bytes;
use oil_tokenization_core::state::{CommentState, OilTokenState, TokenizationState};
use risc0_zkvm::{FakeReceipt, InnerReceipt, Receipt, ReceiptClaim};

const PROGRAM: ProgramId = ProgramId { words: [1, 2, 3, 4, 5, 6, 7, 8] };
const OTHER_PROGRAM: ProgramId = ProgramId { words: [8, 7, 6, 5, 4, 3, 2, 1] };

fn leaves(items: &[&str]) -> Vec<String> {
    items.iter().map(|s| s.to_string()).collect()
}

fn stats() -> SessionStats {
    SessionStats {
        segments: 1,
        total_cycles: 65536,
        user_cycles: 40000,
        paging_cycles: 20000,
        reserved_cycles: 5536,
    }
}

fn unproven_receipt(program: &ProgramId) -> Receipt {
    let journal = vec![1u8, 2, 3, 4];
    let claim = ReceiptClaim::ok(program.words, journal.clone());
    Receipt::new(InnerReceipt::Fake(FakeReceipt::new(claim)), journal)
}

fn overall_state() -> OverallState {
    OverallState::init_at(leaves(&["1:x:10"]), Vec::new(), Vec::new(), "t".to_string())
}

fn overall_envelope() -> OverallCommit {
    OverallCommit {
        committed_state: Ok(overall_state()),
        receipt: unproven_receipt(&PROGRAM),
        stats: stats(),
    }
}

#[test]
fn get_commit_gives_the_committed_state() {
    let envelope = overall_envelope();
    assert_eq!(envelope.get_commit(), Ok(overall_state()));
    let domain = OilTokenCommit {
        committed_state: Ok(OilTokenState::init(leaves(&["1:x:10"]))),
        receipt: unproven_receipt(&PROGRAM),
        stats: stats(),
    };
    assert_eq!(domain.get_commit(), Ok(OilTokenState::init(leaves(&["1:x:10"]))));
}

#[test]
fn a_passing_verdict_lets_the_state_out() {
    let envelope = overall_envelope();
    assert_eq!(envelope.commit_on_verdict(&PROGRAM, Ok(())), Ok(overall_state()));
}

#[test]
fn a_failing_verdict_lets_nothing_out() {
    let envelope = overall_envelope();
    assert_eq!(
        envelope.commit_on_verdict(&PROGRAM, Err("invalid proof".to_string())),
        Err(EngineError::VerificationFailure {
            program: PROGRAM,
            reason: "invalid proof".to_string()
        })
    );
}

#[test]
fn verdicts_on_domain_envelopes() {
    let tokenization = TokenizationCommit {
        committed_state: Ok(TokenizationState::init(leaves(&["7:t:1"]))),
        receipt: unproven_receipt(&PROGRAM),
        stats: stats(),
    };
    assert_eq!(
        tokenization.commit_on_verdict(&PROGRAM, Ok(())),
        Ok(TokenizationState::init(leaves(&["7:t:1"])))
    );
    let comment = CommentCommit {
        committed_state: Ok(CommentState::init(Vec::new())),
        receipt: unproven_receipt(&PROGRAM),
        stats: stats(),
    };
    assert_eq!(
        comment.commit_on_verdict(&OTHER_PROGRAM, Err("no".to_string())),
        Err(EngineError::VerificationFailure { program: OTHER_PROGRAM, reason: "no".to_string() })
    );
    let oil = OilTokenCommit {
        committed_state: Ok(OilTokenState::init(Vec::new())),
        receipt: unproven_receipt(&PROGRAM),
        stats: stats(),
    };
    assert_eq!(oil.commit_on_verdict(&PROGRAM, Ok(())), Ok(OilTokenState::init(Vec::new())));
}

#[test]
fn a_receipt_for_another_program_fails_verification() {
    let envelope = overall_envelope();
    match envelope.verify_and_get_commit(&OTHER_PROGRAM) {
        Err(EngineError::VerificationFailure { program, reason }) => {
            assert_eq!(program, OTHER_PROGRAM);
            assert!(!reason.is_empty());
        }
        other => panic!("expected a verification failure, got {:?}", other),
    }
}

#[test]
fn receipts_of_domain_envelopes_for_another_program_fail_verification() {
    let oil = OilTokenCommit {
        committed_state: Ok(OilTokenState::init(leaves(&["1:x:10"]))),
        receipt: unproven_receipt(&PROGRAM),
        stats: stats(),
    };
    assert!(matches!(
        oil.verify_and_get_commit(&OTHER_PROGRAM),
        Err(EngineError::VerificationFailure { program: OTHER_PROGRAM, .. })
    ));
    let tokenization = TokenizationCommit {
        committed_state: Ok(TokenizationState::init(leaves(&["7:t:1"]))),
        receipt: unproven_receipt(&PROGRAM),
        stats: stats(),
    };
    assert!(matches!(
        tokenization.verify_and_get_commit(&OTHER_PROGRAM),
        Err(EngineError::VerificationFailure { program: OTHER_PROGRAM, .. })
    ));
    let comment = CommentCommit {
        committed_state: Ok(CommentState::init(Vec::new())),
        receipt: unproven_receipt(&PROGRAM),
        stats: stats(),
    };
    assert!(matches!(
        comment.verify_and_get_commit(&OTHER_PROGRAM),
        Err(EngineError::VerificationFailure { program: OTHER_PROGRAM, .. })
    ));
}

#[test]
fn a_proving_failure_names_the_program() {
    let failed: Result<u8, String> = Err("out of memory".to_string());
    assert_eq!(
        after_proving(PROGRAM, failed),
        Err(EngineError::ProvingFailure { program: PROGRAM, reason: "out of memory".to_string() })
    );
}

#[test]
fn a_finished_proof_is_handed_on() {
    let envelope = overall_envelope();
    let result = after_proving(PROGRAM, Ok(envelope)).unwrap();
    assert_eq!(result.committed_state, Ok(overall_state()));
    assert_eq!(result.stats, stats());
}

#[test]
fn accepted_signature_check_carries_the_request() {
    let params = VerifyParams {
        message: "hello".to_string(),
        signature_bytes: "0xdead".to_string(),
        expected_addr: "0xabc".to_string(),
        timestamp: 1704067200,
        username: "ada".to_string(),
    };
    assert_eq!(
        VerifyCommit::accept(params),
        VerifyCommit {
            verified: true,
            address: "0xabc".to_string(),
            timestamp: 1704067200,
            username: "ada".to_string(),
        }
    );
}

#[test]
fn composite_input_feeds_init() {
    let params = OverallParams {
        oil_token_leaves: leaves(&["1:x:10"]),
        tokenization_leaves: Vec::new(),
        comment_leaves: Vec::new(),
    };
    let state = OverallState::init_at(
        params.oil_token_leaves.clone(),
        params.tokenization_leaves.clone(),
        params.comment_leaves.clone(),
        "t".to_string(),
    );
    assert_eq!(Ok(state), overall_envelope().committed_state);
}

#[test]
fn bare_state_holds_four_digests() {
    let digest = hash_bytes(b"");
    let state = OilTokenizationState {
        oil_token_state: digest,
        tokenization_state: digest,
        comment_state: digest,
        overall: hash_bytes(b"x"),
    };
    OilTokenizationState::init();
    OilTokenizationState::process();
    OilTokenizationState::sync();
    assert_ne!(state.overall, state.oil_token_state);
}

#[test]
fn an_output_that_does_not_decode_is_reported() {
    let envelope = CommentCommit {
        committed_state: Err("unexpected end of input".to_string()),
        receipt: unproven_receipt(&PROGRAM),
        stats: stats(),
    };
    assert_eq!(envelope.get_commit(), Err("unexpected end of input".to_string()));
    assert_eq!(
        envelope.commit_on_verdict(&PROGRAM, Ok(())),
        Err(EngineError::VerificationFailure {
            program: PROGRAM,
            reason: "unexpected end of input".to_string()
        })
    );
    assert_eq!(
        envelope.commit_on_verdict(&PROGRAM, Err("invalid proof".to_string())),
        Err(EngineError::VerificationFailure {
            program: PROGRAM,
            reason: "invalid proof".to_string()
        })
    );
}

#[test]
fn an_unproven_receipt_fails_verification_for_its_own_program() {
    let envelope = overall_envelope();
    let result = envelope.verify_and_get_commit(&PROGRAM);
    match result {
        Err(EngineError::VerificationFailure { program, .. }) => assert_eq!(program, PROGRAM),
        Ok(state) => assert_eq!(state, overall_state()),
        other => panic!("no other failure is possible here, got {:?}", other),
    }
}

#[test]
fn a_failed_verdict_lets_nothing_be_decoded() {
    let mut asked = false;
    let result: Result<OverallState, EngineError> =
        decode_on_verdict(&OTHER_PROGRAM, Err("claim digest mismatch".to_string()), || {
            asked = true;
            Ok(overall_state())
        });
    assert_eq!(
        result,
        Err(EngineError::VerificationFailure {
            program: OTHER_PROGRAM,
            reason: "claim digest mismatch".to_string()
        })
    );
    assert!(!asked);
}

#[test]
fn a_passing_verdict_has_the_output_decoded_once() {
    let mut asked = 0;
    let result = decode_on_verdict(&PROGRAM, Ok(()), || {
        asked += 1;
        Ok(overall_state())
    });
    assert_eq!(result, Ok(overall_state()));
    assert_eq!(asked, 1);
    let undecodable: Result<OverallState, EngineError> =
        decode_on_verdict(&PROGRAM, Ok(()), || Err("invalid length".to_string()));
    assert_eq!(
        undecodable,
        Err(EngineError::VerificationFailure {
            program: PROGRAM,
            reason: "invalid length".to_string()
        })
    );
}

#[test]
fn the_outcome_of_decoding_is_handed_on_or_counts_as_a_failure() {
    assert_eq!(finish_decoding(&PROGRAM, Ok(7u8)), Ok(7u8));
    let failed: Result<u8, String> = Err("unexpected end of input".to_string());
    assert_eq!(
        finish_decoding(&OTHER_PROGRAM, failed),
        Err(EngineError::VerificationFailure {
            program: OTHER_PROGRAM,
            reason: "unexpected end of input".to_string()
        })
    );
}

#[test]
fn a_receipt_for_another_program_is_refused_before_anything_is_decoded() {
    let receipt = unproven_receipt(&PROGRAM);
    let mut asked = false;
    let result: Result<OverallState, EngineError> =
        verify_then_decode(&receipt, &OTHER_PROGRAM, || {
            asked = true;
            Ok(overall_state())
        });
    match result {
        Err(EngineError::VerificationFailure { program, reason }) => {
            assert_eq!(program, OTHER_PROGRAM);
            assert!(!reason.is_empty());
        }
        other => panic!("expected a verification failure, got {:?}", other),
    }
    assert!(!asked);
}

#[test]
fn an_ambiguous_encoding_is_a_failure_of_its_own() {
    let first = EngineError::EncodingAmbiguity { domain: Domain::Comment };
    let second = EngineError::EncodingAmbiguity { domain: Domain::OilToken };
    assert_ne!(first, second);
    assert_ne!(first, EngineError::StateInconsistency { domain: Domain::Comment });
    assert_eq!(first.clone(), first);
}

#[test]
fn a_committed_state_or_the_failure_it_counts_as() {
    let envelope = overall_envelope();
    assert_eq!(envelope.committed_or_failure(&PROGRAM), Ok(overall_state()));
    let broken = OilTokenCommit {
        committed_state: Err("invalid length".to_string()),
        receipt: unproven_receipt(&PROGRAM),
        stats: stats(),
    };
    assert_eq!(
        broken.committed_or_failure(&OTHER_PROGRAM),
        Err(EngineError::VerificationFailure {
            program: OTHER_PROGRAM,
            reason: "invalid length".to_string()
        })
    );
    let transfers = TokenizationCommit {
        committed_state: Ok(TokenizationState::init(leaves(&["7:t:1"]))),
        receipt: unproven_receipt(&PROGRAM),
        stats: stats(),
    };
    assert_eq!(
        transfers.committed_or_failure(&PROGRAM),
        Ok(TokenizationState::init(leaves(&["7:t:1"])))
    );
    let comments = CommentCommit {
        committed_state: Err("no".to_string()),
        receipt: unproven_receipt(&PROGRAM),
        stats: stats(),
    };
    assert_eq!(
        comments.committed_or_failure(&PROGRAM),
        Err(EngineError::VerificationFailure { program: PROGRAM, reason: "no".to_string() })
    );
}
