//! Digests of a sequence of leaves: one per leaf, and one over all of them.

use vstd::prelude::*;
use vstd::utf8::encode_utf8;
use crate::digest::{
    absorbed, hasher_finalize, hasher_new, hasher_update, keccak256, security_bits, Digest,
};

verus! {

/// The texts of a sequence of leaves.
pub open spec fn leaf_texts(leaves: Seq<String>) -> Seq<Seq<char>> {
    Seq::new(leaves.len(), |i: int| leaves[i]@)
}

/// The bytes of the digests of a sequence.
pub open spec fn digest_bytes(digests: Seq<Digest>) -> Seq<Seq<u8>> {
    Seq::new(digests.len(), |i: int| digests[i]@)
}

/// The digest of one leaf: the hash of its UTF-8 bytes.
pub open spec fn leaf_digest(leaf: Seq<char>) -> Seq<u8> {
    keccak256(encode_utf8(leaf))
}

/// The digest of each leaf, in order.
pub open spec fn leaf_digests(leaves: Seq<Seq<char>>) -> Seq<Seq<u8>> {
    Seq::new(leaves.len(), |i: int| leaf_digest(leaves[i]))
}

/// The bytes of all leaves, one after the other, with nothing between them.
pub open spec fn concat_leaves(leaves: Seq<Seq<char>>) -> Seq<u8>
    decreases leaves.len(),
{
    if leaves.len() == 0 {
        Seq::<u8>::empty()
    } else {
        concat_leaves(leaves.drop_last()) + encode_utf8(leaves.last())
    }
}

/// The aggregate digest of a sequence of leaves: one hash over their concatenation.
pub open spec fn aggregate_digest(leaves: Seq<Seq<char>>) -> Seq<u8> {
    keccak256(concat_leaves(leaves))
}

/// Hashes each leaf on its own and all of them together.
pub fn commit_leaves(leaves: &Vec<String>) -> (commitment: (Vec<Digest>, Digest))
    ensures
        digest_bytes(commitment.0@) == leaf_digests(leaf_texts(leaves@)),
        commitment.1@ == aggregate_digest(leaf_texts(leaves@)),
{
    let ghost texts = leaf_texts(leaves@);
    let mut digests: Vec<Digest> = Vec::new();
    let mut running = hasher_new();
    let mut i: usize = 0;
    while i < leaves.len()
        invariant
            i <= leaves@.len(),
            texts == leaf_texts(leaves@),
            digests@.len() == i,
            forall|j: int| 0 <= j < i ==> (#[trigger] digests@[j])@ == leaf_digest(texts[j]),
            absorbed(running) == concat_leaves(texts.take(i as int)),
            security_bits(running) == 256,
        decreases leaves@.len() - i,
    {
        let bytes = leaves[i].as_str().as_bytes();
        let mut single = hasher_new();
        hasher_update(&mut single, bytes);
        assert(absorbed(single) =~= encode_utf8(texts[i as int]));
        digests.push(hasher_finalize(single));
        hasher_update(&mut running, bytes);
        proof {
            let next = texts.take(i + 1);
            assert(next.drop_last() =~= texts.take(i as int));
        }
        i += 1;
    }
    assert(texts.take(i as int) =~= texts);
    let aggregate = hasher_finalize(running);
    (digests, aggregate)
}

} // verus!
