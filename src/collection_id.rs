//! Derivation of the local identifier of an NFT collection.
use vstd::prelude::*;
use vstd::utf8::encode_utf8;

verus! {

/// The SHA-256 digest of a byte sequence.
pub uninterp spec fn sha256_of(data: Seq<u8>) -> Seq<u8>;

/// The bytes fed to the digest: the owner identity, then the UTF-8 bytes of
/// the externally declared collection id.
pub open spec fn collection_preimage(owner: Seq<u8>, external_id: Seq<char>) -> Seq<u8> {
    owner + encode_utf8(external_id)
}

/// The local collection identifier of `(owner, external_id)`.
pub open spec fn collection_id_of(owner: Seq<u8>, external_id: Seq<char>) -> Seq<u8> {
    sha256_of(collection_preimage(owner, external_id))
}

/// Relies on chia_sha2::Sha256 (`new`, `update`, `finalize`): two `update`
/// calls hash the concatenation of their inputs, and `finalize` returns the
/// 32-byte SHA-256 digest.
#[verifier::external_body]
fn sha256_concat(prefix: &[u8; 32], rest: &[u8]) -> (r: [u8; 32])
    ensures
        r@ == sha256_of(prefix@ + rest@),
{
    let mut hasher = chia_sha2::Sha256::new();
    hasher.update(prefix);
    hasher.update(rest);
    hasher.finalize()
}

/// The local identifier of the collection that `owner` curates under the
/// author-chosen id `external_id`.
pub fn calculate_collection_id(owner: [u8; 32], external_id: &str) -> (r: [u8; 32])
    ensures
        r@ == collection_id_of(owner@, external_id@),
{
    let bytes = external_id.as_bytes();
    sha256_concat(&owner, bytes)
}

/// Equal inputs give the equal identifier, so re-resolving the same metadata
/// never yields a second collection.
pub proof fn lemma_collection_id_deterministic(
    owner_a: [u8; 32],
    id_a: Seq<char>,
    owner_b: [u8; 32],
    id_b: Seq<char>,
)
    requires
        owner_a@ == owner_b@,
        id_a == id_b,
    ensures
        collection_id_of(owner_a@, id_a) == collection_id_of(owner_b@, id_b),
{
}

/// Two distinct owners that pick the same external id feed distinct inputs
/// to the digest. (That the digests differ too rests on the digest's
/// collision resistance, which no proof here can show.)
pub proof fn lemma_preimage_scoped_by_owner(owner_a: [u8; 32], owner_b: [u8; 32], id: Seq<char>)
    requires
        owner_a@ != owner_b@,
    ensures
        collection_preimage(owner_a@, id) != collection_preimage(owner_b@, id),
{
    let pa = collection_preimage(owner_a@, id);
    let pb = collection_preimage(owner_b@, id);
    assert(owner_a@.len() == 32 && owner_b@.len() == 32);
    assert(pa.subrange(0, 32) =~= owner_a@);
    assert(pb.subrange(0, 32) =~= owner_b@);
}

} // verus!
