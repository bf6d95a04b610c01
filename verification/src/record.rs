//! The stored record: a checksum followed by the payload it covers.
//!
//! ```text
//! offset 0 .. 16     checksum of the payload
//! offset 16 .. end   payload
//! ```

use crate::checksum::{
    checksum, checksum_of, hash_bytes, hash_to_bytes, lemma_hash_bytes_len, xxh3_128_hash,
    HASH_BYTE_LENGTH,
};
use crate::error::ConfigError;
use vstd::prelude::*;
use vstd::slice::slice_subrange;

verus! {

/// A payload framed under a given hash: the bytes of `hash`, then `payload`.
pub open spec fn frame_of(hash: u128, payload: Seq<u8>) -> Seq<u8> {
    hash_bytes(hash) + payload
}

/// The record that stores `payload`: `payload` framed under its own hash.
pub open spec fn record_of(payload: Seq<u8>) -> Seq<u8> {
    frame_of(xxh3_128_hash(payload), payload)
}

/// Whether `raw` is long enough to hold a checksum region.
pub open spec fn has_checksum(raw: Seq<u8>) -> bool {
    raw.len() >= HASH_BYTE_LENGTH
}

/// The checksum region of a record: its first `HASH_BYTE_LENGTH` bytes.
pub open spec fn stored_checksum(raw: Seq<u8>) -> Seq<u8>
    recommends
        has_checksum(raw),
{
    raw.subrange(0, HASH_BYTE_LENGTH as int)
}

/// The payload region of a record: all that follows the checksum region.
pub open spec fn stored_payload(raw: Seq<u8>) -> Seq<u8>
    recommends
        has_checksum(raw),
{
    raw.subrange(HASH_BYTE_LENGTH as int, raw.len() as int)
}

/// Whether the checksum region of `raw` holds the bytes of `hash`.
pub open spec fn carries_hash(raw: Seq<u8>, hash: u128) -> bool {
    has_checksum(raw) && stored_checksum(raw) == hash_bytes(hash)
}

/// Whether `raw` is a record whose stored checksum is the checksum of its
/// payload.
pub open spec fn is_intact(raw: Seq<u8>) -> bool {
    carries_hash(raw, xxh3_128_hash(stored_payload(raw)))
}

/// Taking a frame apart gives back the hash and the payload it was made
/// from.
pub proof fn lemma_frame_parts(hash: u128, payload: Seq<u8>)
    ensures
        frame_of(hash, payload).len() == HASH_BYTE_LENGTH + payload.len(),
        stored_checksum(frame_of(hash, payload)) == hash_bytes(hash),
        stored_payload(frame_of(hash, payload)) == payload,
        carries_hash(frame_of(hash, payload), hash),
{
    lemma_hash_bytes_len(hash);
    assert(stored_checksum(frame_of(hash, payload)) =~= hash_bytes(hash));
    assert(stored_payload(frame_of(hash, payload)) =~= payload);
}

/// The record of a payload is intact, and its payload region is that
/// payload.
pub proof fn lemma_record_parts(payload: Seq<u8>)
    ensures
        record_of(payload).len() == HASH_BYTE_LENGTH + payload.len(),
        stored_checksum(record_of(payload)) == checksum_of(payload),
        stored_payload(record_of(payload)) == payload,
        is_intact(record_of(payload)),
{
    lemma_frame_parts(xxh3_128_hash(payload), payload);
}

/// A file is intact exactly if it is the record of its own payload region.
pub proof fn lemma_intact_is_record(raw: Seq<u8>)
    ensures
        is_intact(raw) <==> has_checksum(raw) && raw == record_of(stored_payload(raw)),
{
    if has_checksum(raw) {
        let payload = stored_payload(raw);
        assert(raw =~= stored_checksum(raw) + payload);
        lemma_record_parts(payload);
    }
}

/// Whether two byte strings are the same.
pub(crate) fn bytes_equal(left: &[u8], right: &[u8]) -> (same: bool)
    ensures
        same <==> left@ == right@,
{
    if left.len() != right.len() {
        return false;
    }
    let mut index: usize = 0;
    while index < left.len()
        invariant
            left@.len() == right@.len(),
            index <= left@.len(),
            forall|i: int| 0 <= i < index ==> left@[i] == right@[i],
        decreases left@.len() - index,
    {
        if left[index] != right[index] {
            return false;
        }
        index += 1;
    }
    assert(left@ =~= right@);
    true
}

/// Frames `payload` under `hash`: the result is the sixteen bytes of `hash`,
/// least significant first, followed by `payload`.
pub fn frame(hash: u128, payload: &[u8]) -> (framed: Vec<u8>)
    ensures
        framed@ == frame_of(hash, payload@),
        framed@.len() == HASH_BYTE_LENGTH + payload@.len(),
{
    let mut framed = hash_to_bytes(hash);
    framed.extend_from_slice(payload);
    assert(framed@ =~= frame_of(hash, payload@));
    framed
}

/// Frames a serialized value for storage under its own checksum. The result
/// is ready to be written as it is.
pub fn prepare_serialized_data(payload: &[u8]) -> (full_data: Vec<u8>)
    ensures
        full_data@ == record_of(payload@),
        full_data@.len() == HASH_BYTE_LENGTH + payload@.len(),
{
    frame(xxhash_rust::xxh3::xxh3_128(payload), payload)
}

/// Takes a stored record apart into its checksum region and its payload
/// region, without judging either.
///
/// A record of fewer than `HASH_BYTE_LENGTH` bytes holds no checksum and is
/// refused as `CorruptedHashSector`; a record of exactly that length has an
/// empty payload.
pub fn split(raw: &[u8]) -> (parts: Result<(&[u8], &[u8]), ConfigError>)
    ensures
        match parts {
            Ok((digest, payload)) => has_checksum(raw@) && digest@ == stored_checksum(raw@)
                && payload@ == stored_payload(raw@),
            Err(error) => !has_checksum(raw@) && error == ConfigError::CorruptedHashSector,
        },
{
    if raw.len() < HASH_BYTE_LENGTH {
        return Err(ConfigError::CorruptedHashSector);
    }
    let digest = slice_subrange(raw, 0, HASH_BYTE_LENGTH);
    let payload = slice_subrange(raw, HASH_BYTE_LENGTH, raw.len());
    Ok((digest, payload))
}

/// Returns the checksum that a record carries and the checksum that its
/// payload has. The record is intact exactly if the two are the same.
pub fn get_hash_from_file_and_data(data: &[u8]) -> (hashes: (&[u8], Vec<u8>))
    requires
        has_checksum(data@),
    ensures
        hashes.0@ == stored_checksum(data@),
        hashes.1@ == checksum_of(stored_payload(data@)),
        hashes.0@ == hashes.1@ <==> is_intact(data@),
{
    let binary_hash_from_file = slice_subrange(data, 0, HASH_BYTE_LENGTH);
    let binary_data_without_hash = slice_subrange(data, HASH_BYTE_LENGTH, data.len());
    let binary_hash_from_data = checksum(binary_data_without_hash);
    (binary_hash_from_file, binary_hash_from_data)
}

} // verus!
