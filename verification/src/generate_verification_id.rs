//! The verification id of a registered file.

use vstd::prelude::*;
use std::collections::hash_map::DefaultHasher;
use std::hash::Hash;
use std::hash::Hasher;
use vstd::std_specs::hash::DefaultHasherAdditionalSpecFns;

verus! {

/// The writes by which `Hash::hash` of a 32-byte array feeds a hasher.
pub uninterp spec fn digest_writes(file_hash: Seq<u8>) -> Seq<Seq<u8>>;

/// The writes by which `Hash::hash` of an `i64` feeds a hasher.
pub uninterp spec fn timestamp_writes(timestamp: i64) -> Seq<Seq<u8>>;

/// Calls `<[u8; 32] as Hash>::hash` on a `DefaultHasher`. Trusted: what the
/// call writes to the hasher depends on the bytes of the array alone, and is
/// appended to what the hasher was fed before.
#[verifier::external_body]
fn hash_digest(file_hash: &[u8; 32], state: &mut DefaultHasher)
    ensures
        final(state)@ == old(state)@ + digest_writes(file_hash@),
{
    file_hash.hash(state)
}

/// Calls `<i64 as Hash>::hash` on a `DefaultHasher`. Trusted: what the call
/// writes to the hasher depends on the number alone, and is appended to what
/// the hasher was fed before.
#[verifier::external_body]
fn hash_timestamp(timestamp: &i64, state: &mut DefaultHasher)
    ensures
        final(state)@ == old(state)@ + timestamp_writes(*timestamp),
{
    timestamp.hash(state)
}

/// The id of a file with this content hash, registered at this time: the
/// digest of a fresh standard hasher that was fed the hash and then the time.
pub open spec fn spec_verification_id(file_hash: Seq<u8>, timestamp: i64) -> u64 {
    DefaultHasher::spec_finish(digest_writes(file_hash) + timestamp_writes(timestamp))
}

/// Derives the verification id from the content hash and the registration
/// time. The same hash and time always give the same id; the id correlates
/// records and is no secret.
pub fn generate_verification_id(file_hash: &[u8; 32], timestamp: &i64) -> (id: u64)
    ensures
        id == spec_verification_id(file_hash@, *timestamp),
{
    let mut hasher = DefaultHasher::new();
    hash_digest(file_hash, &mut hasher);
    hash_timestamp(timestamp, &mut hasher);
    assert(hasher@ =~= digest_writes(file_hash@) + timestamp_writes(*timestamp));
    hasher.finish()
}

} // verus!
