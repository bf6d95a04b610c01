//! What holds of whole loads and stores.
//!
//! The functions of [`crate::binary_conf`] are single steps: the caller reads
//! the file, decodes a payload and writes a record between them. This module
//! says what a caller who follows the steps gets, and what the file holds
//! afterwards, for every decoder, and proves what the format promises.

use crate::binary_conf::{load_plan, recover, settle, LoadStep, Loaded};
use crate::checksum::{checksum_of, lemma_hash_bytes_differ, xxh3_128_hash, HASH_BYTE_LENGTH};
use crate::error::ConfigError;
use crate::record::{
    has_checksum, is_intact, lemma_intact_is_record, lemma_record_parts, record_of,
    stored_checksum, stored_payload,
};
use vstd::prelude::*;

verus! {

/// Why a load failed: the record was refused, or the decoder refused the
/// payload.
pub enum LoadFailure<E> {
    /// The record is too short or fails the checksum test.
    Record(ConfigError),
    /// The payload did not decode; this is the decoder's error.
    Decoder(E),
}

/// Whether a load of `file` ends by storing the default value: there is no
/// file, or the record or its payload is refused and `reset_conf_on_err` is
/// set.
pub open spec fn load_resets<V, E>(
    file: Option<Seq<u8>>,
    reset_conf_on_err: bool,
    skip_hash_check: bool,
    decode: spec_fn(Seq<u8>) -> Result<V, E>,
) -> bool {
    match load_plan(file, reset_conf_on_err, skip_hash_check) {
        Ok(LoadStep::WriteDefault) => true,
        Ok(LoadStep::Decode(payload)) => settle(decode(payload), reset_conf_on_err) == Ok::<
            Loaded<V>,
            E,
        >(Loaded::WriteDefault),
        Err(_) => false,
    }
}

/// What a load of `file` returns to a caller whose decoder is `decode` and
/// whose default value is `default`.
pub open spec fn load_result<V, E>(
    file: Option<Seq<u8>>,
    reset_conf_on_err: bool,
    skip_hash_check: bool,
    decode: spec_fn(Seq<u8>) -> Result<V, E>,
    default: V,
) -> Result<V, LoadFailure<E>> {
    match load_plan(file, reset_conf_on_err, skip_hash_check) {
        Ok(LoadStep::WriteDefault) => Ok(default),
        Ok(LoadStep::Decode(payload)) => match settle(decode(payload), reset_conf_on_err) {
            Ok(Loaded::Value(value)) => Ok(value),
            Ok(Loaded::WriteDefault) => Ok(default),
            Err(error) => Err(LoadFailure::Decoder(error)),
        },
        Err(error) => Err(LoadFailure::Record(error)),
    }
}

/// What the file holds after a load: the record of the default value where the
/// load stored it, and what it held before in every other case.
/// `default_payload` is the serialized default value.
pub open spec fn file_after_load<V, E>(
    file: Option<Seq<u8>>,
    reset_conf_on_err: bool,
    skip_hash_check: bool,
    decode: spec_fn(Seq<u8>) -> Result<V, E>,
    default_payload: Seq<u8>,
) -> Option<Seq<u8>> {
    if load_resets(file, reset_conf_on_err, skip_hash_check, decode) {
        Some(record_of(default_payload))
    } else {
        file
    }
}

/// What the file holds after `payload` has been stored over `file`.
pub open spec fn file_after_store(file: Option<Seq<u8>>, payload: Seq<u8>) -> Option<Seq<u8>> {
    Some(record_of(payload))
}

/// A record in which one byte of the payload region has been replaced.
pub open spec fn with_payload_byte(raw: Seq<u8>, index: int, byte: u8) -> Seq<u8>
    recommends
        0 <= index < raw.len() - HASH_BYTE_LENGTH,
{
    raw.update(HASH_BYTE_LENGTH + index, byte)
}

/// Storing a value and loading it again returns that value and leaves the
/// file as the store wrote it, with either policy and with or without the
/// checksum test, provided that the decoder undoes the encoder on that value.
pub proof fn store_then_load_returns_the_value<V, E>(
    file: Option<Seq<u8>>,
    value: V,
    encode: spec_fn(V) -> Seq<u8>,
    decode: spec_fn(Seq<u8>) -> Result<V, E>,
    default: V,
    reset_conf_on_err: bool,
    skip_hash_check: bool,
)
    requires
        decode(encode(value)) == Ok::<V, E>(value),
    ensures
        load_plan(file_after_store(file, encode(value)), reset_conf_on_err, skip_hash_check) == Ok::<
            LoadStep<Seq<u8>>,
            ConfigError,
        >(LoadStep::Decode(encode(value))),
        load_result(
            file_after_store(file, encode(value)),
            reset_conf_on_err,
            skip_hash_check,
            decode,
            default,
        ) == Ok::<V, LoadFailure<E>>(value),
        file_after_load(
            file_after_store(file, encode(value)),
            reset_conf_on_err,
            skip_hash_check,
            decode,
            encode(default),
        ) == file_after_store(file, encode(value)),
{
    lemma_record_parts(encode(value));
}

/// A load where there is no file returns the default value and leaves the
/// record of the default value behind. That record is intact, and a second
/// load decodes it without a reset and returns the default value again,
/// provided that the decoder undoes the encoder on the default value.
pub proof fn first_load_stores_the_default<V, E>(
    encode: spec_fn(V) -> Seq<u8>,
    decode: spec_fn(Seq<u8>) -> Result<V, E>,
    default: V,
    reset_conf_on_err: bool,
    skip_hash_check: bool,
)
    requires
        decode(encode(default)) == Ok::<V, E>(default),
    ensures
        load_result(None, reset_conf_on_err, skip_hash_check, decode, default) == Ok::<
            V,
            LoadFailure<E>,
        >(default),
        file_after_load(None, reset_conf_on_err, skip_hash_check, decode, encode(default)) == Some(
            record_of(encode(default)),
        ),
        is_intact(record_of(encode(default))),
        !load_resets(
            Some(record_of(encode(default))),
            reset_conf_on_err,
            skip_hash_check,
            decode,
        ),
        load_result(
            Some(record_of(encode(default))),
            reset_conf_on_err,
            skip_hash_check,
            decode,
            default,
        ) == Ok::<V, LoadFailure<E>>(default),
        file_after_load(
            Some(record_of(encode(default))),
            reset_conf_on_err,
            skip_hash_check,
            decode,
            encode(default),
        ) == Some(record_of(encode(default))),
{
    lemma_record_parts(encode(default));
}

/// Replacing one byte in the payload region of an intact record by another
/// is found out, unless the changed payload happens to have the hash of the
/// first: without a reset the load fails with `HashMismatch` and the file
/// stays as it is; with a reset the load returns the default value and the
/// file holds the record of the default value.
pub proof fn changed_payload_byte_is_detected<V, E>(
    payload: Seq<u8>,
    index: int,
    byte: u8,
    decode: spec_fn(Seq<u8>) -> Result<V, E>,
    default: V,
    default_payload: Seq<u8>,
)
    requires
        0 <= index < payload.len(),
        byte != payload[index],
        xxh3_128_hash(payload.update(index, byte)) != xxh3_128_hash(payload),
    ensures
        ({
            let damaged = with_payload_byte(record_of(payload), index, byte);
            &&& stored_payload(damaged) == payload.update(index, byte)
            &&& stored_checksum(damaged) == checksum_of(payload)
            &&& load_result(Some(damaged), false, false, decode, default) == Err::<
                V,
                LoadFailure<E>,
            >(LoadFailure::Record(ConfigError::HashMismatch))
            &&& file_after_load(Some(damaged), false, false, decode, default_payload) == Some(
                damaged,
            )
            &&& load_result(Some(damaged), true, false, decode, default) == Ok::<
                V,
                LoadFailure<E>,
            >(default)
            &&& file_after_load(Some(damaged), true, false, decode, default_payload) == Some(
                record_of(default_payload),
            )
        }),
{
    lemma_record_parts(payload);
    lemma_hash_bytes_differ(xxh3_128_hash(payload.update(index, byte)), xxh3_128_hash(payload));
    let damaged = with_payload_byte(record_of(payload), index, byte);
    assert(stored_payload(damaged) =~= payload.update(index, byte));
    assert(stored_checksum(damaged) =~= checksum_of(payload));
}

/// A load with the checksum test hands a payload to the decoder for exactly
/// those files that are the record of their own payload region. Every other
/// file is answered by the recovery policy: with `CorruptedHashSector` where
/// it is too short to hold a checksum, with `HashMismatch` where it is not.
pub proof fn checked_load_accepts_records_only(raw: Seq<u8>, reset_conf_on_err: bool)
    ensures
        is_intact(raw) <==> has_checksum(raw) && raw == record_of(stored_payload(raw)),
        is_intact(raw) ==> load_plan(Some(raw), reset_conf_on_err, false) == Ok::<
            LoadStep<Seq<u8>>,
            ConfigError,
        >(LoadStep::Decode(stored_payload(raw))),
        !is_intact(raw) && has_checksum(raw) ==> load_plan(Some(raw), reset_conf_on_err, false)
            == recover::<Seq<u8>, ConfigError>(reset_conf_on_err, ConfigError::HashMismatch),
        !has_checksum(raw) ==> load_plan(Some(raw), reset_conf_on_err, false) == recover::<
            Seq<u8>,
            ConfigError,
        >(reset_conf_on_err, ConfigError::CorruptedHashSector),
{
    lemma_intact_is_record(raw);
}

/// A file of fewer than `HASH_BYTE_LENGTH` bytes is refused whatever it
/// holds, with or without the checksum test: without a reset the load fails
/// with `CorruptedHashSector` and the file stays as it is; with a reset the
/// load returns the default value and the file holds the record of the
/// default value.
pub proof fn short_file_is_refused<V, E>(
    raw: Seq<u8>,
    decode: spec_fn(Seq<u8>) -> Result<V, E>,
    default: V,
    default_payload: Seq<u8>,
    skip_hash_check: bool,
)
    requires
        raw.len() < HASH_BYTE_LENGTH,
    ensures
        load_result(Some(raw), false, skip_hash_check, decode, default) == Err::<
            V,
            LoadFailure<E>,
        >(LoadFailure::Record(ConfigError::CorruptedHashSector)),
        file_after_load(Some(raw), false, skip_hash_check, decode, default_payload) == Some(raw),
        load_result(Some(raw), true, skip_hash_check, decode, default) == Ok::<V, LoadFailure<E>>(
            default,
        ),
        file_after_load(Some(raw), true, skip_hash_check, decode, default_payload) == Some(
            record_of(default_payload),
        ),
{
}

/// A load without the checksum test hands the payload region of any file
/// that is long enough to the decoder, whatever the checksum region holds.
/// Where the payload decodes, the load returns the decoded value and the file
/// stays as it is.
pub proof fn load_without_check_reads_the_payload<V, E>(
    raw: Seq<u8>,
    value: V,
    decode: spec_fn(Seq<u8>) -> Result<V, E>,
    default: V,
    default_payload: Seq<u8>,
    reset_conf_on_err: bool,
)
    requires
        has_checksum(raw),
        decode(stored_payload(raw)) == Ok::<V, E>(value),
    ensures
        load_plan(Some(raw), reset_conf_on_err, true) == Ok::<LoadStep<Seq<u8>>, ConfigError>(
            LoadStep::Decode(stored_payload(raw)),
        ),
        load_result(Some(raw), reset_conf_on_err, true, decode, default) == Ok::<
            V,
            LoadFailure<E>,
        >(value),
        file_after_load(Some(raw), reset_conf_on_err, true, decode, default_payload) == Some(raw),
{
}

/// A store replaces what the file held. After two stores the file is the
/// record of the second payload alone, as long as a checksum and that
/// payload, and a load hands exactly the second payload to the decoder.
pub proof fn second_store_replaces_the_first(
    file: Option<Seq<u8>>,
    first: Seq<u8>,
    second: Seq<u8>,
    reset_conf_on_err: bool,
    skip_hash_check: bool,
)
    ensures
        file_after_store(file_after_store(file, first), second) == Some(record_of(second)),
        record_of(second).len() == HASH_BYTE_LENGTH + second.len(),
        load_plan(
            file_after_store(file_after_store(file, first), second),
            reset_conf_on_err,
            skip_hash_check,
        ) == Ok::<LoadStep<Seq<u8>>, ConfigError>(LoadStep::Decode(second)),
{
    lemma_record_parts(second);
}

/// A payload that does not decode never comes back as a value: without a
/// reset the load fails with the decoder's error and the file stays as it is;
/// with a reset the load returns the default value and the file holds the
/// record of the default value.
pub proof fn undecodable_payload_is_refused<V, E>(
    payload: Seq<u8>,
    error: E,
    decode: spec_fn(Seq<u8>) -> Result<V, E>,
    default: V,
    default_payload: Seq<u8>,
    skip_hash_check: bool,
)
    requires
        decode(payload) == Err::<V, E>(error),
    ensures
        load_result(Some(record_of(payload)), false, skip_hash_check, decode, default) == Err::<
            V,
            LoadFailure<E>,
        >(LoadFailure::Decoder(error)),
        file_after_load(
            Some(record_of(payload)),
            false,
            skip_hash_check,
            decode,
            default_payload,
        ) == Some(record_of(payload)),
        load_result(Some(record_of(payload)), true, skip_hash_check, decode, default) == Ok::<
            V,
            LoadFailure<E>,
        >(default),
        file_after_load(
            Some(record_of(payload)),
            true,
            skip_hash_check,
            decode,
            default_payload,
        ) == Some(record_of(default_payload)),
{
    lemma_record_parts(payload);
}

} // verus!
