//! What holds of every commitment, stated over the models that the contracts use.

use vstd::prelude::*;
use vstd::utf8::encode_utf8;
use crate::commitment::{aggregate_digest, concat_leaves};
use crate::digest::{keccak256, Digest};
use crate::overall::{initial_overall, root_preimage, successor, OverallView};
use crate::state::{initial_domain, CommentAction, DomainView, OilTokenAction, TokenizationAction};

verus! {

/// The first state of a domain counts its leaves and holds, at each index, the hash of the
/// leaf at that index.
pub proof fn lemma_initial_digest_per_leaf<A>(leaves: Seq<Seq<char>>, action: A, i: int)
    requires
        0 <= i < leaves.len(),
    ensures
        initial_domain(leaves, action).leaf_count == leaves.len(),
        initial_domain(leaves, action).new_digests.len() == leaves.len(),
        initial_domain(leaves, action).new_digests[i] == keccak256(encode_utf8(leaves[i])),
        initial_domain(leaves, action).old_digests == initial_domain(leaves, action).new_digests,
{
}

/// The first state of a domain is well formed.
pub proof fn lemma_initial_domain_well_formed<A>(leaves: Seq<Seq<char>>, action: A)
    ensures
        initial_domain(leaves, action).well_formed(),
{
}

/// The aggregate of the first state is the hash of the leaves' bytes, one after the other.
pub proof fn lemma_initial_aggregate<A>(leaves: Seq<Seq<char>>, action: A)
    ensures
        initial_domain(leaves, action).aggregate == keccak256(concat_leaves(leaves)),
{
}

/// Over no leaves, the first state counts none, holds no digest, and its aggregate is the
/// hash of the empty byte string.
pub proof fn lemma_initial_domain_of_nothing<A>(action: A)
    ensures
        initial_domain(Seq::<Seq<char>>::empty(), action).leaf_count == 0,
        initial_domain(Seq::<Seq<char>>::empty(), action).new_digests.len() == 0,
        initial_domain(Seq::<Seq<char>>::empty(), action).aggregate == keccak256(
            Seq::<u8>::empty(),
        ),
{
}

/// The bytes of two runs of leaves, one after the other, are the bytes of the first run
/// followed by those of the second.
pub proof fn lemma_concat_leaves_append(first: Seq<Seq<char>>, second: Seq<Seq<char>>)
    ensures
        concat_leaves(first + second) == concat_leaves(first) + concat_leaves(second),
    decreases second.len(),
{
    if second.len() > 0 {
        lemma_concat_leaves_append(first, second.drop_last());
        assert((first + second).drop_last() =~= first + second.drop_last());
    }
}

/// The bytes of a single leaf are its UTF-8 encoding.
pub proof fn lemma_concat_single_leaf(leaf: Seq<char>)
    ensures
        concat_leaves(seq![leaf]) == encode_utf8(leaf),
{
    assert(concat_leaves(seq![leaf].drop_last()) =~= Seq::<u8>::empty());
}

/// The aggregate depends on the leaves through their concatenation alone: where two
/// sequences of leaves have the same bytes one after the other, however they are cut into
/// leaves and whatever their order, their aggregates are the same.
pub proof fn lemma_aggregate_follows_concatenation(first: Seq<Seq<char>>, second: Seq<Seq<char>>)
    requires
        concat_leaves(first) == concat_leaves(second),
    ensures
        aggregate_digest(first) == aggregate_digest(second),
{
}

/// Swapping two leaves leaves the aggregate as it was wherever the two orders give the
/// same bytes.
pub proof fn lemma_swap_with_same_bytes_keeps_aggregate(a: Seq<char>, b: Seq<char>)
    requires
        encode_utf8(a) + encode_utf8(b) == encode_utf8(b) + encode_utf8(a),
    ensures
        aggregate_digest(seq![a, b]) == aggregate_digest(seq![b, a]),
{
    lemma_concat_single_leaf(a);
    lemma_concat_single_leaf(b);
    lemma_concat_leaves_append(seq![a], seq![b]);
    lemma_concat_leaves_append(seq![b], seq![a]);
    assert(seq![a] + seq![b] =~= seq![a, b]);
    assert(seq![b] + seq![a] =~= seq![b, a]);
}

/// The root is the hash of the three aggregates in their fixed order, whatever else the
/// three domain states hold.
pub proof fn lemma_root_depends_on_aggregates_alone(
    previous: OverallView,
    oil_token: DomainView<OilTokenAction>,
    tokenization: DomainView<TokenizationAction>,
    comment: DomainView<CommentAction>,
    other_oil_token: DomainView<OilTokenAction>,
    other_tokenization: DomainView<TokenizationAction>,
    other_comment: DomainView<CommentAction>,
    updated_at: Seq<char>,
)
    requires
        oil_token.aggregate == other_oil_token.aggregate,
        tokenization.aggregate == other_tokenization.aggregate,
        comment.aggregate == other_comment.aggregate,
    ensures
        successor(previous, oil_token, tokenization, comment, updated_at).new_root == keccak256(
            oil_token.aggregate + tokenization.aggregate + comment.aggregate,
        ),
        successor(previous, oil_token, tokenization, comment, updated_at).new_root == successor(
            previous,
            other_oil_token,
            other_tokenization,
            other_comment,
            updated_at,
        ).new_root,
{
}

/// What is hashed into a root determines the three aggregates: digests have one width, so
/// two triples with the same bytes one after the other are the same triple.
pub proof fn lemma_root_preimage_determines_aggregates(
    a: Digest,
    b: Digest,
    c: Digest,
    x: Digest,
    y: Digest,
    z: Digest,
)
    requires
        root_preimage(a@, b@, c@) == root_preimage(x@, y@, z@),
    ensures
        a@ == x@,
        b@ == y@,
        c@ == z@,
{
    let left = root_preimage(a@, b@, c@);
    let right = root_preimage(x@, y@, z@);
    assert(a@ =~= left.subrange(0, 32) && x@ =~= right.subrange(0, 32));
    assert(b@ =~= left.subrange(32, 64) && y@ =~= right.subrange(32, 64));
    assert(c@ =~= left.subrange(64, 96) && z@ =~= right.subrange(64, 96));
}

/// Exchanging the first two aggregates changes what is hashed into the root, unless the
/// two are the same.
pub proof fn lemma_root_preimage_is_order_sensitive(a: Digest, b: Digest, c: Digest)
    requires
        a@ != b@,
    ensures
        root_preimage(a@, b@, c@) != root_preimage(b@, a@, c@),
{
    if root_preimage(a@, b@, c@) == root_preimage(b@, a@, c@) {
        lemma_root_preimage_determines_aggregates(a, b, c, b, a, c);
    }
}

/// The first overall state is well formed, and its old root is its new root.
pub proof fn lemma_initial_overall_well_formed(
    oil_token_leaves: Seq<Seq<char>>,
    tokenization_leaves: Seq<Seq<char>>,
    comment_leaves: Seq<Seq<char>>,
    updated_at: Seq<char>,
)
    ensures
        initial_overall(
            oil_token_leaves,
            tokenization_leaves,
            comment_leaves,
            updated_at,
        ).well_formed(),
        initial_overall(oil_token_leaves, tokenization_leaves, comment_leaves, updated_at).old_root
            == initial_overall(
            oil_token_leaves,
            tokenization_leaves,
            comment_leaves,
            updated_at,
        ).new_root,
        initial_overall(oil_token_leaves, tokenization_leaves, comment_leaves, updated_at).new_root
            == keccak256(
            aggregate_digest(oil_token_leaves) + aggregate_digest(tokenization_leaves)
                + aggregate_digest(comment_leaves),
        ),
{
}

/// A state that follows another holds that other's root as its old root, whatever the
/// domain states and the time.
pub proof fn lemma_successor_keeps_previous_root(
    previous: OverallView,
    oil_token: DomainView<OilTokenAction>,
    tokenization: DomainView<TokenizationAction>,
    comment: DomainView<CommentAction>,
    updated_at: Seq<char>,
)
    ensures
        successor(previous, oil_token, tokenization, comment, updated_at).old_root
            == previous.new_root,
        successor(previous, oil_token, tokenization, comment, updated_at).root_matches(),
{
}

/// A state that follows another over well-formed domain states is well formed.
pub proof fn lemma_successor_well_formed(
    previous: OverallView,
    oil_token: DomainView<OilTokenAction>,
    tokenization: DomainView<TokenizationAction>,
    comment: DomainView<CommentAction>,
    updated_at: Seq<char>,
)
    requires
        oil_token.well_formed(),
        tokenization.well_formed(),
        comment.well_formed(),
    ensures
        successor(previous, oil_token, tokenization, comment, updated_at).well_formed(),
{
}

/// Two states that follow the same state share their old root: the chain does not keep
/// two writers apart.
pub proof fn lemma_successors_of_one_state_share_old_root(
    previous: OverallView,
    first: OverallView,
    second: OverallView,
)
    requires
        first == successor(
            previous,
            first.oil_token,
            first.tokenization,
            first.comment,
            first.updated_at,
        ),
        second == successor(
            previous,
            second.oil_token,
            second.tokenization,
            second.comment,
            second.updated_at,
        ),
    ensures
        first.old_root == second.old_root,
{
}

/// Two overall states that differ in their time are different states, though their roots
/// may be the same.
pub proof fn lemma_time_tells_states_apart(first: OverallView, second: OverallView)
    requires
        first.updated_at != second.updated_at,
    ensures
        first != second,
{
}

/// Installing digests leaves a well-formed state, whatever was installed and whatever the
/// state was before: the count of leaves follows the installed digests, and the digests
/// that were current are the old ones.
pub proof fn lemma_shifted_is_well_formed<A>(
    state: DomainView<A>,
    new_digests: Seq<Seq<u8>>,
    aggregate: Seq<u8>,
)
    ensures
        state.shifted(new_digests, aggregate).well_formed(),
        state.shifted(new_digests, aggregate).leaf_count == new_digests.len(),
        state.shifted(new_digests, aggregate).old_digests == state.new_digests,
        state.shifted(new_digests, aggregate).aggregate == aggregate,
{
}

/// Installing what a fresh first state holds gives a state with that first state's current
/// digests, aggregate and count: recomputing from all rows and installing the outcome is
/// the supported way to move a domain on.
pub proof fn lemma_shift_to_fresh_state<A>(state: DomainView<A>, leaves: Seq<Seq<char>>, action: A)
    ensures
        state.shifted(
            initial_domain(leaves, action).new_digests,
            initial_domain(leaves, action).aggregate,
        ).new_digests == initial_domain(leaves, action).new_digests,
        state.shifted(
            initial_domain(leaves, action).new_digests,
            initial_domain(leaves, action).aggregate,
        ).aggregate == initial_domain(leaves, action).aggregate,
        state.shifted(
            initial_domain(leaves, action).new_digests,
            initial_domain(leaves, action).aggregate,
        ).leaf_count == leaves.len(),
{
}

/// The state before any row is the first overall state over no leaves: it is well formed,
/// and its root is the hash over the three aggregates of nothing.
pub proof fn lemma_state_before_any_row_is_well_formed(updated_at: Seq<char>)
    ensures
        initial_overall(
            Seq::<Seq<char>>::empty(),
            Seq::<Seq<char>>::empty(),
            Seq::<Seq<char>>::empty(),
            updated_at,
        ).well_formed(),
        initial_overall(
            Seq::<Seq<char>>::empty(),
            Seq::<Seq<char>>::empty(),
            Seq::<Seq<char>>::empty(),
            updated_at,
        ).new_root == keccak256(
            keccak256(Seq::<u8>::empty()) + keccak256(Seq::<u8>::empty()) + keccak256(
                Seq::<u8>::empty(),
            ),
        ),
{
}

} // verus!
