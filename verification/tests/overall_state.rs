use oil_tokenization_core::decimal::DecimalValue;
use oil_tokenization_core::digest::{hash_bytes, Digest};
use oil_tokenization_core::error::{Domain, EngineError};
use oil_tokenization_core::overall::{compose, OverallState};
use oil_tokenization_core::rows::{CommentModel, TokenizationModel};
use oil_tokenization_core::state::{CommentState, OilTokenState, TokenizationState};

fn hex(digest: &Digest) -> String {
    digest.bytes.iter().map(|b| format!("{:02x}", b)).collect()
}

fn leaves(items: &[&str]) -> Vec<String> {
    items.iter().map(|s| s.to_string()).collect()
}

fn domains() -> (OilTokenState, TokenizationState, CommentState) {
    (
        OilTokenState::init(leaves(&["1:x:10", "2:y:20"])),
        TokenizationState::init(leaves(&["7:t:1"])),
        CommentState::init(Vec::new()),
    )
}

const ROOT: &str = "907e2589d19bacc988b3fa3053108225010e276028132876fbf86aef6e3c233b";
const ROOT_EXCHANGED: &str = "d10bba37967f712e958e46a4bbd4366bc7dabcaeabe53173851e72c02b0d7cae";
const ROOT_OF_NOTHING: &str = "89e3413612cb421e7d4adf9137b67f6c2d240e04823caa80e8b0a0f3d3f6f576";

#[test]
fn compose_hashes_the_three_aggregates_in_order() {
    let (oil, tok, com) = domains();
    let root = compose(&oil, &tok, &com);
    assert_eq!(hex(&root), ROOT);
    let mut preimage = Vec::new();
    preimage.extend_from_slice(&oil.overall.bytes);
    preimage.extend_from_slice(&tok.overall.bytes);
    preimage.extend_from_slice(&com.overall.bytes);
    assert_eq!(preimage.len(), 96);
    assert_eq!(root, hash_bytes(&preimage));
}

#[test]
fn compose_with_two_aggregates_exchanged_differs() {
    let (oil, tok, com) = domains();
    let mut oil_as_tok = TokenizationState::init(Vec::new());
    oil_as_tok.overall = oil.overall;
    let mut tok_as_oil = OilTokenState::init(Vec::new());
    tok_as_oil.overall = tok.overall;
    let exchanged = compose(&tok_as_oil, &oil_as_tok, &com);
    assert_eq!(hex(&exchanged), ROOT_EXCHANGED);
    assert_ne!(exchanged, compose(&oil, &tok, &com));
}

#[test]
fn compose_reads_the_aggregates_only() {
    let (oil, tok, com) = domains();
    let mut other = OilTokenState::init(leaves(&["something else"]));
    other.overall = oil.overall;
    assert_eq!(compose(&other, &tok, &com), compose(&oil, &tok, &com));
}

#[test]
fn init_at_builds_domains_and_root() {
    let state = OverallState::init_at(
        leaves(&["1:x:10", "2:y:20"]),
        leaves(&["7:t:1"]),
        Vec::new(),
        "2024-01-01T00:00:00+00:00".to_string(),
    );
    let (oil, tok, com) = domains();
    assert_eq!(state.oil_token_state, oil);
    assert_eq!(state.tokenization_state, tok);
    assert_eq!(state.comment_state, com);
    assert_eq!(hex(&state.new_state), ROOT);
    assert_eq!(state.old_state, state.new_state);
    assert_eq!(state.updated_at, "2024-01-01T00:00:00+00:00");
}

#[test]
fn init_of_no_leaves_at_all() {
    let state = OverallState::init_at(Vec::new(), Vec::new(), Vec::new(), String::new());
    assert_eq!(hex(&state.new_state), ROOT_OF_NOTHING);
    assert_eq!(state.oil_token_state.leaves, 0);
    assert_eq!(state.tokenization_state.leaves, 0);
    assert_eq!(state.comment_state.leaves, 0);
}

#[test]
fn init_stamps_a_time() {
    let state = OverallState::init(leaves(&["1:x:10", "2:y:20"]), leaves(&["7:t:1"]), Vec::new());
    assert_eq!(hex(&state.new_state), ROOT);
    assert_eq!(state.old_state, state.new_state);
    assert!(state.updated_at.len() >= 20);
    assert!(state.updated_at.contains('T'));
}

#[test]
fn new_is_the_first_state_over_nothing() {
    let state = OverallState::new();
    assert_eq!(hex(&state.new_state), ROOT_OF_NOTHING);
    assert_eq!(state.old_state, state.new_state);
    assert_eq!(state.oil_token_state, OilTokenState::init(Vec::new()));
    assert_eq!(state.tokenization_state, TokenizationState::init(Vec::new()));
    assert_eq!(state.comment_state, CommentState::init(Vec::new()));
    assert_eq!(
        state.new_state,
        compose(&state.oil_token_state, &state.tokenization_state, &state.comment_state)
    );
    assert!(!state.updated_at.is_empty());
}

#[test]
fn new_at_keeps_the_time() {
    let state = OverallState::new_at("then".to_string());
    assert_eq!(state.updated_at, "then");
    assert_eq!(hex(&state.new_state), ROOT_OF_NOTHING);
    assert_eq!(hex(&state.old_state), ROOT_OF_NOTHING);
    assert_eq!(
        state,
        OverallState::init_at(Vec::new(), Vec::new(), Vec::new(), "then".to_string())
    );
}

#[test]
fn sync_chains_to_the_previous_root() {
    let current = OverallState::init_at(Vec::new(), Vec::new(), Vec::new(), "t0".to_string());
    let (oil, tok, com) = domains();
    let next = current.sync_at(&oil, &tok, &com, "t1".to_string()).unwrap();
    assert_eq!(next.old_state, current.new_state);
    assert_eq!(hex(&next.old_state), ROOT_OF_NOTHING);
    assert_eq!(hex(&next.new_state), ROOT);
    assert_eq!(next.oil_token_state, oil);
    assert_eq!(next.tokenization_state, tok);
    assert_eq!(next.comment_state, com);
    assert_eq!(next.updated_at, "t1");
}

#[test]
fn sync_twice_keeps_one_link() {
    let first = OverallState::new_at("t0".to_string());
    let (oil, tok, com) = domains();
    let second = first.sync_at(&oil, &tok, &com, "t1".to_string()).unwrap();
    let empty = CommentState::init(leaves(&["9:c"]));
    let third = second.sync_at(&oil, &tok, &empty, "t2".to_string()).unwrap();
    assert_eq!(second.old_state, first.new_state);
    assert_eq!(third.old_state, second.new_state);
    assert_ne!(third.new_state, second.new_state);
}

#[test]
fn sync_with_the_current_time() {
    let current = OverallState::new();
    let (oil, tok, com) = domains();
    let next = current.sync(&oil, &tok, &com).unwrap();
    assert_eq!(next.old_state, current.new_state);
    assert_eq!(hex(&next.new_state), ROOT);
    assert!(!next.updated_at.is_empty());
}

#[test]
fn sync_refuses_a_malformed_asset_state() {
    let current = OverallState::new_at(String::new());
    let (mut oil, tok, com) = domains();
    oil.leaves = 3;
    assert_eq!(
        current.sync_at(&oil, &tok, &com, String::new()),
        Err(EngineError::StateInconsistency { domain: Domain::OilToken })
    );
    assert_eq!(
        current.sync(&oil, &tok, &com),
        Err(EngineError::StateInconsistency { domain: Domain::OilToken })
    );
}

#[test]
fn sync_refuses_a_malformed_transfer_state() {
    let current = OverallState::new_at(String::new());
    let (oil, mut tok, com) = domains();
    tok.new_state.push(hash_bytes(b"extra"));
    assert_eq!(
        current.sync_at(&oil, &tok, &com, String::new()),
        Err(EngineError::StateInconsistency { domain: Domain::Tokenization })
    );
}

#[test]
fn sync_refuses_a_malformed_annotation_state() {
    let current = OverallState::new_at(String::new());
    let (oil, tok, mut com) = domains();
    com.leaves = 1;
    assert_eq!(
        current.sync_at(&oil, &tok, &com, String::new()),
        Err(EngineError::StateInconsistency { domain: Domain::Comment })
    );
}

#[test]
fn sync_names_the_first_malformed_domain() {
    let current = OverallState::new_at(String::new());
    let (mut oil, mut tok, mut com) = domains();
    oil.leaves = 9;
    tok.leaves = 9;
    com.leaves = 9;
    assert_eq!(
        current.sync_at(&oil, &tok, &com, String::new()),
        Err(EngineError::StateInconsistency { domain: Domain::OilToken })
    );
    oil.leaves = 2;
    assert_eq!(
        current.sync_at(&oil, &tok, &com, String::new()),
        Err(EngineError::StateInconsistency { domain: Domain::Tokenization })
    );
}

#[test]
fn fresh_init_then_update_gives_a_state_that_sync_takes() {
    let current = OverallState::new_at(String::new());
    let (mut oil, tok, com) = domains();
    let bigger = OilTokenState::init(leaves(&["1:x:10", "2:y:20", "3:z:30"]));
    let before = oil.new_state.clone();
    oil.update(bigger.new_state.clone(), bigger.overall);
    assert_eq!(oil.leaves, 3);
    assert_eq!(oil.old_state, before);
    let next = current.sync_at(&oil, &tok, &com, "t".to_string()).unwrap();
    assert_eq!(next.old_state, current.new_state);
    assert_eq!(next.oil_token_state, oil);
    assert_eq!(next.new_state, compose(&bigger, &tok, &com));
}

#[test]
fn states_that_differ_in_time_only_are_different() {
    let first = OverallState::init_at(leaves(&["a"]), Vec::new(), Vec::new(), "t1".to_string());
    let second = OverallState::init_at(leaves(&["a"]), Vec::new(), Vec::new(), "t2".to_string());
    assert_eq!(first.new_state, second.new_state);
    assert_ne!(first, second);
}

#[test]
fn duplicate_of_an_overall_state_is_equal() {
    let state = OverallState::init_at(leaves(&["a"]), leaves(&["b"]), leaves(&["c"]), "t".to_string());
    assert_eq!(state.duplicate(), state);
}

#[test]
fn init_from_rows_encodes_then_commits() {
    let transfers = vec![TokenizationModel {
        id: 3,
        oil_token_id: 4,
        tokenizer_id: "0x1234".to_string(),
        amount: DecimalValue::new(75000, 0).unwrap(),
        created_at: 1704067200,
        updated_at: 1704067201,
    }];
    let comments = vec![
        CommentModel {
            id: 1,
            oil_token_id: 2,
            user: "0xabc".to_string(),
            content: "nice".to_string(),
            created_at: 1704103200,
            updated_at: 1704103200,
        },
        CommentModel {
            id: 2,
            oil_token_id: 2,
            user: "0xdef".to_string(),
            content: "fine".to_string(),
            created_at: 1704103201,
            updated_at: 1704103202,
        },
    ];
    let state = OverallState::init_from_rows_at(&Vec::new(), &transfers, &comments, "t".to_string());
    let expected = OverallState::init_at(
        Vec::new(),
        leaves(&["3:4:0x1234:75000:1704067200:1704067201"]),
        leaves(&[
            "1:2:0xabc:nice:1704103200:1704103200",
            "2:2:0xdef:fine:1704103201:1704103202",
        ]),
        "t".to_string(),
    );
    assert_eq!(state, expected);
    assert_eq!(
        hex(&state.comment_state.new_state[0]),
        "7f125657a2c521cbb1c584d07d1eb18c2cc958fc00f109c81eed088e8bd8b52b"
    );
    let stamped = OverallState::init_from_rows(&Vec::new(), &transfers, &comments);
    assert_eq!(stamped.new_state, expected.new_state);
}

#[test]
fn leaves_are_hashed_as_utf8() {
    let state = CommentState::init(leaves(&["héllo"]));
    assert_eq!(
        hex(&state.new_state[0]),
        "b163e4b6ab590984c8a084bb24adf25960a6ffeda33d188ecac36d12552bf3e0"
    );
    assert_eq!(state.overall, state.new_state[0]);
}
