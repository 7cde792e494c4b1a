//! The overall state: the three domain states under one root digest, chained to the root
//! before it.

use vstd::prelude::*;
use crate::commitment::leaf_texts;
use crate::digest::{absorbed, hasher_finalize, hasher_new, hasher_update, keccak256, Digest};
use crate::error::{Domain, EngineError};
use crate::leaf::{
    comment_leaves, get_comment_leaves, get_oil_token_leaves, get_tokenization_leaves,
    oil_token_leaves, tokenization_leaves,
};
use crate::rows::{CommentModel, OilTokenModel, TokenizationModel};
use crate::state::{
    initial_domain, CommentAction, CommentState, DomainView, OilTokenAction, OilTokenState,
    TokenizationAction, TokenizationState,
};

verus! {

/// What is hashed into a root: the three aggregates, assets first, then transfers, then
/// annotations, with nothing between them.
pub open spec fn root_preimage(oil_token: Seq<u8>, tokenization: Seq<u8>, comment: Seq<u8>) -> Seq<
    u8,
> {
    oil_token + tokenization + comment
}

/// The root digest over three aggregates.
pub open spec fn root_digest(oil_token: Seq<u8>, tokenization: Seq<u8>, comment: Seq<u8>) -> Seq<
    u8,
> {
    keccak256(root_preimage(oil_token, tokenization, comment))
}

/// What an overall state holds.
pub struct OverallView {
    pub oil_token: DomainView<OilTokenAction>,
    pub tokenization: DomainView<TokenizationAction>,
    pub comment: DomainView<CommentAction>,
    pub old_root: Seq<u8>,
    pub new_root: Seq<u8>,
    pub updated_at: Seq<char>,
}

impl OverallView {
    /// The root is the digest over the three aggregates.
    pub open spec fn root_matches(self) -> bool {
        self.new_root == root_digest(
            self.oil_token.aggregate,
            self.tokenization.aggregate,
            self.comment.aggregate,
        )
    }

    /// Each domain state is well formed and the root matches them.
    pub open spec fn well_formed(self) -> bool {
        &&& self.oil_token.well_formed()
        &&& self.tokenization.well_formed()
        &&& self.comment.well_formed()
        &&& self.root_matches()
    }
}

/// The first overall state over the leaves of the three domains: its root stands for the
/// root before it too.
pub open spec fn initial_overall(
    oil_token_leaves: Seq<Seq<char>>,
    tokenization_leaves: Seq<Seq<char>>,
    comment_leaves: Seq<Seq<char>>,
    updated_at: Seq<char>,
) -> OverallView {
    let oil_token = initial_domain(oil_token_leaves, OilTokenAction::INIT);
    let tokenization = initial_domain(tokenization_leaves, TokenizationAction::INIT);
    let comment = initial_domain(comment_leaves, CommentAction::INIT);
    let root = root_digest(oil_token.aggregate, tokenization.aggregate, comment.aggregate);
    OverallView { oil_token, tokenization, comment, old_root: root, new_root: root, updated_at }
}

/// The overall state that follows `previous` with three domain states: the new root is
/// computed from them, the old root is the root of `previous`.
pub open spec fn successor(
    previous: OverallView,
    oil_token: DomainView<OilTokenAction>,
    tokenization: DomainView<TokenizationAction>,
    comment: DomainView<CommentAction>,
    updated_at: Seq<char>,
) -> OverallView {
    OverallView {
        oil_token,
        tokenization,
        comment,
        old_root: previous.new_root,
        new_root: root_digest(oil_token.aggregate, tokenization.aggregate, comment.aggregate),
        updated_at,
    }
}

/// The first domain, in the fixed order, whose count of leaves is not the count of its
/// digests.
pub open spec fn first_malformed(
    oil_token: DomainView<OilTokenAction>,
    tokenization: DomainView<TokenizationAction>,
    comment: DomainView<CommentAction>,
) -> Option<Domain> {
    if !oil_token.well_formed() {
        Some(Domain::OilToken)
    } else if !tokenization.well_formed() {
        Some(Domain::Tokenization)
    } else if !comment.well_formed() {
        Some(Domain::Comment)
    } else {
        None
    }
}

/// The root digest over the aggregates of three domain states.
pub fn compose(
    oil_token: &OilTokenState,
    tokenization: &TokenizationState,
    comment: &CommentState,
) -> (root: Digest)
    ensures
        root@ == root_digest(oil_token@.aggregate, tokenization@.aggregate, comment@.aggregate),
{
    let mut hasher = hasher_new();
    hasher_update(&mut hasher, oil_token.overall.bytes.as_slice());
    hasher_update(&mut hasher, tokenization.overall.bytes.as_slice());
    hasher_update(&mut hasher, comment.overall.bytes.as_slice());
    assert(absorbed(hasher) =~= root_preimage(
        oil_token.overall@,
        tokenization.overall@,
        comment.overall@,
    ));
    hasher_finalize(hasher)
}

/// The three domain states, their root, and the root before it.
#[derive(Clone, Debug, PartialEq, Eq)]
pub struct OverallState {
    pub oil_token_state: OilTokenState,
    pub tokenization_state: TokenizationState,
    pub comment_state: CommentState,
    pub old_state: Digest,
    pub new_state: Digest,
    pub updated_at: String,
}

impl View for OverallState {
    type V = OverallView;

    open spec fn view(&self) -> OverallView {
        OverallView {
            oil_token: self.oil_token_state@,
            tokenization: self.tokenization_state@,
            comment: self.comment_state@,
            old_root: self.old_state@,
            new_root: self.new_state@,
            updated_at: self.updated_at@,
        }
    }
}

impl OverallState {
    /// A copy of this state.
    pub fn duplicate(&self) -> (copy: Self)
        ensures
            copy@ == self@,
    {
        OverallState {
            oil_token_state: self.oil_token_state.duplicate(),
            tokenization_state: self.tokenization_state.duplicate(),
            comment_state: self.comment_state.duplicate(),
            old_state: self.old_state,
            new_state: self.new_state,
            updated_at: self.updated_at.clone(),
        }
    }

    /// The state before any row: the first overall state over no leaves at all, stamped
    /// with the given time.
    pub fn new_at(updated_at: String) -> (state: Self)
        ensures
            state@ == initial_overall(
                Seq::<Seq<char>>::empty(),
                Seq::<Seq<char>>::empty(),
                Seq::<Seq<char>>::empty(),
                updated_at@,
            ),
    {
        assert(leaf_texts(Seq::<String>::empty()) =~= Seq::<Seq<char>>::empty());
        Self::init_at(Vec::new(), Vec::new(), Vec::new(), updated_at)
    }

    /// The state before any row, stamped with the current time.
    pub fn new() -> (state: Self)
        ensures
            state@ == initial_overall(
                Seq::<Seq<char>>::empty(),
                Seq::<Seq<char>>::empty(),
                Seq::<Seq<char>>::empty(),
                state@.updated_at,
            ),
    {
        Self::new_at(current_time_text())
    }

    /// The first overall state over three sequences of leaves, stamped with the given time.
    pub fn init_at(
        oil_token_leaves: Vec<String>,
        tokenization_leaves: Vec<String>,
        comment_leaves: Vec<String>,
        updated_at: String,
    ) -> (state: Self)
        ensures
            state@ == initial_overall(
                leaf_texts(oil_token_leaves@),
                leaf_texts(tokenization_leaves@),
                leaf_texts(comment_leaves@),
                updated_at@,
            ),
    {
        let oil_token_state = OilTokenState::init(oil_token_leaves);
        let tokenization_state = TokenizationState::init(tokenization_leaves);
        let comment_state = CommentState::init(comment_leaves);
        let root = compose(&oil_token_state, &tokenization_state, &comment_state);
        OverallState {
            oil_token_state,
            tokenization_state,
            comment_state,
            old_state: root,
            new_state: root,
            updated_at,
        }
    }

    /// The first overall state over three sequences of leaves, stamped with the current
    /// time.
    pub fn init(
        oil_token_leaves: Vec<String>,
        tokenization_leaves: Vec<String>,
        comment_leaves: Vec<String>,
    ) -> (state: Self)
        ensures
            state@ == initial_overall(
                leaf_texts(oil_token_leaves@),
                leaf_texts(tokenization_leaves@),
                leaf_texts(comment_leaves@),
                state@.updated_at,
            ),
    {
        Self::init_at(oil_token_leaves, tokenization_leaves, comment_leaves, current_time_text())
    }

    /// The first overall state over snapshots of the three tables, each in the order of
    /// its rows, stamped with the given time.
    pub fn init_from_rows_at(
        oil_tokens: &Vec<OilTokenModel>,
        tokenizations: &Vec<TokenizationModel>,
        comments: &Vec<CommentModel>,
        updated_at: String,
    ) -> (state: Self)
        ensures
            state@ == initial_overall(
                oil_token_leaves(oil_tokens@),
                tokenization_leaves(tokenizations@),
                comment_leaves(comments@),
                updated_at@,
            ),
    {
        Self::init_at(
            get_oil_token_leaves(oil_tokens),
            get_tokenization_leaves(tokenizations),
            get_comment_leaves(comments),
            updated_at,
        )
    }

    /// The first overall state over snapshots of the three tables, each in the order of
    /// its rows, stamped with the current time.
    pub fn init_from_rows(
        oil_tokens: &Vec<OilTokenModel>,
        tokenizations: &Vec<TokenizationModel>,
        comments: &Vec<CommentModel>,
    ) -> (state: Self)
        ensures
            state@ == initial_overall(
                oil_token_leaves(oil_tokens@),
                tokenization_leaves(tokenizations@),
                comment_leaves(comments@),
                state@.updated_at,
            ),
    {
        Self::init_from_rows_at(oil_tokens, tokenizations, comments, current_time_text())
    }

    /// The state that follows this one with freshly computed domain states, stamped with
    /// the given time; where a domain state is malformed, an error that names the first
    /// such domain, and nothing is composed.
    pub fn sync_at(
        &self,
        oil_token: &OilTokenState,
        tokenization: &TokenizationState,
        comment: &CommentState,
        updated_at: String,
    ) -> (result: Result<Self, EngineError>)
        ensures
            match first_malformed(oil_token@, tokenization@, comment@) {
                Some(domain) => result == Err::<Self, EngineError>(
                    EngineError::StateInconsistency { domain },
                ),
                None => result is Ok && result->Ok_0@ == successor(
                    self@,
                    oil_token@,
                    tokenization@,
                    comment@,
                    updated_at@,
                ),
            },
    {
        if oil_token.leaves != oil_token.new_state.len() {
            return Err(EngineError::StateInconsistency { domain: Domain::OilToken });
        }
        if tokenization.leaves != tokenization.new_state.len() {
            return Err(EngineError::StateInconsistency { domain: Domain::Tokenization });
        }
        if comment.leaves != comment.new_state.len() {
            return Err(EngineError::StateInconsistency { domain: Domain::Comment });
        }
        let root = compose(oil_token, tokenization, comment);
        Ok(
            OverallState {
                oil_token_state: oil_token.duplicate(),
                tokenization_state: tokenization.duplicate(),
                comment_state: comment.duplicate(),
                old_state: self.new_state,
                new_state: root,
                updated_at,
            },
        )
    }

    /// The state that follows this one with freshly computed domain states, stamped with
    /// the current time; where a domain state is malformed, an error that names the first
    /// such domain, and nothing is composed.
    pub fn sync(
        &self,
        oil_token: &OilTokenState,
        tokenization: &TokenizationState,
        comment: &CommentState,
    ) -> (result: Result<Self, EngineError>)
        ensures
            match first_malformed(oil_token@, tokenization@, comment@) {
                Some(domain) => result == Err::<Self, EngineError>(
                    EngineError::StateInconsistency { domain },
                ),
                None => result is Ok && result->Ok_0@ == successor(
                    self@,
                    oil_token@,
                    tokenization@,
                    comment@,
                    result->Ok_0@.updated_at,
                ),
            },
    {
        self.sync_at(oil_token, tokenization, comment, current_time_text())
    }
}

/// `chrono::Local::now` followed by `DateTime::to_rfc3339`: the local time of the call as
/// text. Nothing is claimed of it: two calls may differ. It takes no argument, so no
/// condition on a caller keeps it from panicking: it does so on a machine whose clock
/// stands before 1970, and where the machine's time zone cannot be looked up for the
/// current instant.
#[verifier::external_body]
fn current_time_text() -> (text: String) {
    chrono::Local::now().to_rfc3339()
}

} // verus!
