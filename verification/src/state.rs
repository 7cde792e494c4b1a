//! Domain states: the digests of one domain's leaves, with the tag of who issued them and
//! the digests they replaced.

use vstd::prelude::*;
use crate::commitment::{aggregate_digest, commit_leaves, digest_bytes, leaf_digests, leaf_texts};
use crate::digest::Digest;

verus! {

/// Who issued a state.
#[derive(Clone, Copy, Debug, PartialEq, Eq)]
pub enum Actor {
    ADMIN,
    SYSTEM,
}

/// What was done to the assets.
#[derive(Clone, Copy, Debug, PartialEq, Eq)]
pub enum OilTokenAction {
    INIT,
    CREATE,
    UPDATE,
    BUY,
    SELL,
}

/// What was done to the transfers.
#[derive(Clone, Copy, Debug, PartialEq, Eq)]
pub enum TokenizationAction {
    INIT,
    CREATE,
    UPDATE,
    DELETE,
}

/// What was done to the annotations.
#[derive(Clone, Copy, Debug, PartialEq, Eq)]
pub enum CommentAction {
    INIT,
    CREATE,
    UPDATE,
    DELETE,
}

/// What a domain state holds: two generations of digests, the aggregate over the current
/// leaves, their count, and the tag. `A` is the domain's kind of action.
pub struct DomainView<A> {
    pub old_digests: Seq<Seq<u8>>,
    pub new_digests: Seq<Seq<u8>>,
    pub aggregate: Seq<u8>,
    pub leaf_count: nat,
    pub action: A,
    pub actor: Actor,
}

impl<A> DomainView<A> {
    /// The count of leaves is the count of current digests.
    pub open spec fn well_formed(self) -> bool {
        self.leaf_count == self.new_digests.len()
    }

    /// This state after new digests and a new aggregate were installed: the current
    /// digests have become the old ones, the count of leaves is the count of the installed
    /// digests, and the tag is as it was.
    pub open spec fn shifted(self, new_digests: Seq<Seq<u8>>, aggregate: Seq<u8>) -> DomainView<
        A,
    > {
        DomainView {
            old_digests: self.new_digests,
            new_digests,
            aggregate,
            leaf_count: new_digests.len(),
            action: self.action,
            actor: self.actor,
        }
    }
}

/// The first state of a domain over its leaves: each leaf's digest, twice; the hash of all
/// leaves together; their count; issued by the system.
pub open spec fn initial_domain<A>(leaves: Seq<Seq<char>>, action: A) -> DomainView<A> {
    DomainView {
        old_digests: leaf_digests(leaves),
        new_digests: leaf_digests(leaves),
        aggregate: aggregate_digest(leaves),
        leaf_count: leaves.len(),
        action,
        actor: Actor::SYSTEM,
    }
}

/// A copy of a list of digests.
pub fn copy_digests(digests: &Vec<Digest>) -> (copy: Vec<Digest>)
    ensures
        copy@ == digests@,
{
    let mut copy: Vec<Digest> = Vec::new();
    let mut i: usize = 0;
    while i < digests.len()
        invariant
            i <= digests@.len(),
            copy@ == digests@.take(i as int),
        decreases digests@.len() - i,
    {
        copy.push(digests[i]);
        i += 1;
    }
    copy
}

/// The state of the asset domain.
#[derive(Clone, Debug, PartialEq, Eq)]
pub struct OilTokenState {
    pub old_state: Vec<Digest>,
    pub new_state: Vec<Digest>,
    pub overall: Digest,
    pub leaves: usize,
    pub action: OilTokenAction,
    pub actor: Actor,
}

impl View for OilTokenState {
    type V = DomainView<OilTokenAction>;

    open spec fn view(&self) -> DomainView<OilTokenAction> {
        DomainView {
            old_digests: digest_bytes(self.old_state@),
            new_digests: digest_bytes(self.new_state@),
            aggregate: self.overall@,
            leaf_count: self.leaves as nat,
            action: self.action,
            actor: self.actor,
        }
    }
}

impl OilTokenState {
    /// The first state of the domain, from all its leaves in order.
    pub fn init(db: Vec<String>) -> (state: Self)
        ensures
            state@ == initial_domain(leaf_texts(db@), OilTokenAction::INIT),
    {
        let (digests, aggregate) = commit_leaves(&db);
        OilTokenState {
            old_state: copy_digests(&digests),
            new_state: digests,
            overall: aggregate,
            leaves: db.len(),
            action: OilTokenAction::INIT,
            actor: Actor::SYSTEM,
        }
    }

    /// Installs new digests and a new aggregate; the current digests become the old ones
    /// and the count of leaves becomes the count of the installed digests. No digest is
    /// recomputed.
    pub fn update(&mut self, new_state: Vec<Digest>, overall: Digest)
        ensures
            final(self)@ == old(self)@.shifted(digest_bytes(new_state@), overall@),
    {
        self.old_state = copy_digests(&self.new_state);
        self.leaves = new_state.len();
        self.new_state = new_state;
        self.overall = overall;
    }

    /// Does nothing, whatever the action: a state changes by recomputing it from all rows.
    pub fn process(action: OilTokenAction) {
    }

    /// Does nothing.
    pub fn sync() {
    }

    /// A copy of this state.
    pub fn duplicate(&self) -> (copy: Self)
        ensures
            copy@ == self@,
    {
        OilTokenState {
            old_state: copy_digests(&self.old_state),
            new_state: copy_digests(&self.new_state),
            overall: self.overall,
            leaves: self.leaves,
            action: self.action,
            actor: self.actor,
        }
    }
}

/// The state of the transfer domain.
#[derive(Clone, Debug, PartialEq, Eq)]
pub struct TokenizationState {
    pub old_state: Vec<Digest>,
    pub new_state: Vec<Digest>,
    pub overall: Digest,
    pub leaves: usize,
    pub action: TokenizationAction,
    pub actor: Actor,
}

impl View for TokenizationState {
    type V = DomainView<TokenizationAction>;

    open spec fn view(&self) -> DomainView<TokenizationAction> {
        DomainView {
            old_digests: digest_bytes(self.old_state@),
            new_digests: digest_bytes(self.new_state@),
            aggregate: self.overall@,
            leaf_count: self.leaves as nat,
            action: self.action,
            actor: self.actor,
        }
    }
}

impl TokenizationState {
    /// The first state of the domain, from all its leaves in order.
    pub fn init(db: Vec<String>) -> (state: Self)
        ensures
            state@ == initial_domain(leaf_texts(db@), TokenizationAction::INIT),
    {
        let (digests, aggregate) = commit_leaves(&db);
        TokenizationState {
            old_state: copy_digests(&digests),
            new_state: digests,
            overall: aggregate,
            leaves: db.len(),
            action: TokenizationAction::INIT,
            actor: Actor::SYSTEM,
        }
    }

    /// Installs new digests and a new aggregate; the current digests become the old ones
    /// and the count of leaves becomes the count of the installed digests. No digest is
    /// recomputed.
    pub fn update(&mut self, new_state: Vec<Digest>, overall: Digest)
        ensures
            final(self)@ == old(self)@.shifted(digest_bytes(new_state@), overall@),
    {
        self.old_state = copy_digests(&self.new_state);
        self.leaves = new_state.len();
        self.new_state = new_state;
        self.overall = overall;
    }

    /// Does nothing, whatever the action: a state changes by recomputing it from all rows.
    pub fn process(action: TokenizationAction) {
    }

    /// Does nothing.
    pub fn sync() {
    }

    /// A copy of this state.
    pub fn duplicate(&self) -> (copy: Self)
        ensures
            copy@ == self@,
    {
        TokenizationState {
            old_state: copy_digests(&self.old_state),
            new_state: copy_digests(&self.new_state),
            overall: self.overall,
            leaves: self.leaves,
            action: self.action,
            actor: self.actor,
        }
    }
}

/// The state of the annotation domain.
#[derive(Clone, Debug, PartialEq, Eq)]
pub struct CommentState {
    pub old_state: Vec<Digest>,
    pub new_state: Vec<Digest>,
    pub overall: Digest,
    pub leaves: usize,
    pub action: CommentAction,
    pub actor: Actor,
}

impl View for CommentState {
    type V = DomainView<CommentAction>;

    open spec fn view(&self) -> DomainView<CommentAction> {
        DomainView {
            old_digests: digest_bytes(self.old_state@),
            new_digests: digest_bytes(self.new_state@),
            aggregate: self.overall@,
            leaf_count: self.leaves as nat,
            action: self.action,
            actor: self.actor,
        }
    }
}

impl CommentState {
    /// The first state of the domain, from all its leaves in order.
    pub fn init(db: Vec<String>) -> (state: Self)
        ensures
            state@ == initial_domain(leaf_texts(db@), CommentAction::INIT),
    {
        let (digests, aggregate) = commit_leaves(&db);
        CommentState {
            old_state: copy_digests(&digests),
            new_state: digests,
            overall: aggregate,
            leaves: db.len(),
            action: CommentAction::INIT,
            actor: Actor::SYSTEM,
        }
    }

    /// Installs new digests and a new aggregate; the current digests become the old ones
    /// and the count of leaves becomes the count of the installed digests. No digest is
    /// recomputed.
    pub fn update(&mut self, new_state: Vec<Digest>, overall: Digest)
        ensures
            final(self)@ == old(self)@.shifted(digest_bytes(new_state@), overall@),
    {
        self.old_state = copy_digests(&self.new_state);
        self.leaves = new_state.len();
        self.new_state = new_state;
        self.overall = overall;
    }

    /// Does nothing, whatever the action: a state changes by recomputing it from all rows.
    pub fn process(action: CommentAction) {
    }

    /// Does nothing.
    pub fn sync() {
    }

    /// A copy of this state.
    pub fn duplicate(&self) -> (copy: Self)
        ensures
            copy@ == self@,
    {
        CommentState {
            old_state: copy_digests(&self.old_state),
            new_state: copy_digests(&self.new_state),
            overall: self.overall,
            leaves: self.leaves,
            action: self.action,
            actor: self.actor,
        }
    }
}

} // verus!
