//! Fixed-width digests and the Keccak-256 hasher they come from.

use vstd::prelude::*;

verus! {

/// A 32-byte hash value.
#[derive(Clone, Copy, Debug, PartialEq, Eq)]
pub struct Digest {
    pub bytes: [u8; 32],
}

impl View for Digest {
    type V = Seq<u8>;

    open spec fn view(&self) -> Seq<u8> {
        self.bytes@
    }
}

/// The Keccak-256 hash of a byte string.
pub uninterp spec fn keccak256(data: Seq<u8>) -> Seq<u8>;

/// The bytes a hasher has absorbed since it was created.
pub uninterp spec fn absorbed(hasher: tiny_keccak::Keccak) -> Seq<u8>;

/// The security level, in bits, that a hasher was created with.
pub uninterp spec fn security_bits(hasher: tiny_keccak::Keccak) -> nat;

#[verifier::external_type_specification]
#[verifier::external_body]
pub struct ExKeccak(tiny_keccak::Keccak);

/// `tiny_keccak::Keccak::v256`: a fresh hasher with a security level of 256 bits, which has
/// absorbed nothing.
#[verifier::external_body]
pub(crate) fn hasher_new() -> (hasher: tiny_keccak::Keccak)
    ensures
        absorbed(hasher) == Seq::<u8>::empty(),
        security_bits(hasher) == 256,
{
    tiny_keccak::Keccak::v256()
}

/// `tiny_keccak::Hasher::update` on a `Keccak`: the input is appended to what was absorbed,
/// and the security level stays what the hasher was created with.
#[verifier::external_body]
pub(crate) fn hasher_update(hasher: &mut tiny_keccak::Keccak, input: &[u8])
    ensures
        absorbed(*final(hasher)) == absorbed(*old(hasher)) + input@,
        security_bits(*final(hasher)) == security_bits(*old(hasher)),
{
    tiny_keccak::Hasher::update(hasher, input)
}

/// `tiny_keccak::Hasher::finalize` on a `Keccak` with a security level of 256 bits, into a
/// 32-byte output: the output is the Keccak-256 hash of everything absorbed.
#[verifier::external_body]
pub(crate) fn hasher_finalize(hasher: tiny_keccak::Keccak) -> (digest: Digest)
    requires
        security_bits(hasher) == 256,
    ensures
        digest@ == keccak256(absorbed(hasher)),
{
    let mut bytes = [0u8; 32];
    tiny_keccak::Hasher::finalize(hasher, &mut bytes);
    Digest { bytes }
}

/// Hashes one byte string.
pub fn hash_bytes(data: &[u8]) -> (digest: Digest)
    ensures
        digest@ == keccak256(data@),
{
    let mut hasher = hasher_new();
    hasher_update(&mut hasher, data);
    assert(absorbed(hasher) =~= data@);
    hasher_finalize(hasher)
}

} // verus!
