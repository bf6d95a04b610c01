//! Loading and storing a configuration in binary form, behind a checksum.
//!
//! A load is made in two steps, with the caller's decoder between them.
//! [`load_bin`] looks at what the file holds and says what to do with it;
//! where that is to decode a payload, [`finish_load`] takes what the decoder
//! made of it and says how the load ends.

use crate::checksum::{checksum_of, HASH_BYTE_LENGTH};
use crate::error::ConfigError;
use crate::record::{
    bytes_equal, get_hash_from_file_and_data, has_checksum, prepare_serialized_data, record_of,
    split, stored_checksum, stored_payload,
};
use vstd::prelude::*;

verus! {

/// What a load asks of its caller once the stored record has been looked at.
/// `P` is the form in which a payload is handed over.
#[derive(Debug, PartialEq, Eq)]
pub enum LoadStep<P> {
    /// Decode this payload and hand the result to [`finish_load`].
    Decode(P),
    /// There is no usable record: store the default value and return it.
    WriteDefault,
}

/// How a load ends once the decoder has been heard.
#[derive(Debug, PartialEq, Eq)]
pub enum Loaded<T> {
    /// The stored value.
    Value(T),
    /// The payload did not decode: store the default value and return it.
    WriteDefault,
}

/// What a file holds, for contracts: its bytes, or `None` where there is no
/// file.
pub open spec fn file_view(file: Option<&[u8]>) -> Option<Seq<u8>> {
    match file {
        Some(raw) => Some(raw@),
        None => None,
    }
}

/// What the first step of a load returns, for contracts.
pub open spec fn step_view(step: Result<LoadStep<&[u8]>, ConfigError>) -> Result<
    LoadStep<Seq<u8>>,
    ConfigError,
> {
    match step {
        Ok(LoadStep::Decode(payload)) => Ok(LoadStep::Decode(payload@)),
        Ok(LoadStep::WriteDefault) => Ok(LoadStep::WriteDefault),
        Err(error) => Err(error),
    }
}

/// The answer to a record that cannot be used: with `reset_conf_on_err` the
/// default takes its place, without it the load fails with `error`.
pub open spec fn recover<X, E>(reset_conf_on_err: bool, error: E) -> Result<LoadStep<X>, E> {
    if reset_conf_on_err {
        Ok(LoadStep::WriteDefault)
    } else {
        Err(error)
    }
}

/// What a load with the checksum test decides about a file, given the
/// checksum `computed` of its payload region.
///
/// - A file too short to hold a checksum is answered as [`recover`] says,
///   with `CorruptedHashSector`.
/// - A file whose checksum region is not `computed` is answered as
///   [`recover`] says, with `HashMismatch`.
/// - In every other case the payload region is to be decoded.
pub open spec fn checked_plan(raw: Seq<u8>, computed: Seq<u8>, reset_conf_on_err: bool) -> Result<
    LoadStep<Seq<u8>>,
    ConfigError,
> {
    if !has_checksum(raw) {
        recover(reset_conf_on_err, ConfigError::CorruptedHashSector)
    } else if stored_checksum(raw) != computed {
        recover(reset_conf_on_err, ConfigError::HashMismatch)
    } else {
        Ok(LoadStep::Decode(stored_payload(raw)))
    }
}

/// What a load without the checksum test decides about a file: a file too
/// short to hold a checksum is answered as [`recover`] says, with
/// `CorruptedHashSector`, and the payload region of any other file is to be
/// decoded.
pub open spec fn unchecked_plan(raw: Seq<u8>, reset_conf_on_err: bool) -> Result<
    LoadStep<Seq<u8>>,
    ConfigError,
> {
    if !has_checksum(raw) {
        recover(reset_conf_on_err, ConfigError::CorruptedHashSector)
    } else {
        Ok(LoadStep::Decode(stored_payload(raw)))
    }
}

/// What the first step of a load decides.
///
/// Where there is no file, the default is stored. A file that exists is
/// judged by [`unchecked_plan`] if `skip_hash_check` is set, and else by
/// [`checked_plan`], against the checksum of its payload region.
pub open spec fn load_plan(
    file: Option<Seq<u8>>,
    reset_conf_on_err: bool,
    skip_hash_check: bool,
) -> Result<LoadStep<Seq<u8>>, ConfigError> {
    match file {
        None => Ok(LoadStep::WriteDefault),
        Some(raw) => if skip_hash_check {
            unchecked_plan(raw, reset_conf_on_err)
        } else {
            checked_plan(raw, checksum_of(stored_payload(raw)), reset_conf_on_err)
        },
    }
}

/// How a load ends, given what the decoder made of the payload: the decoded
/// value; or, where the payload did not decode, the default with
/// `reset_conf_on_err` and the decoder's error without it.
pub open spec fn settle<T, E>(decoded: Result<T, E>, reset_conf_on_err: bool) -> Result<
    Loaded<T>,
    E,
> {
    match decoded {
        Ok(value) => Ok(Loaded::Value(value)),
        Err(error) => if reset_conf_on_err {
            Ok(Loaded::WriteDefault)
        } else {
            Err(error)
        },
    }
}

/// Judges a file against the checksum `computed` that its payload region is
/// found to have. The result is what [`checked_plan`] decides.
pub fn verify_record<'a>(data: &'a [u8], computed: &[u8], reset_conf_on_err: bool) -> (step:
    Result<LoadStep<&'a [u8]>, ConfigError>)
    ensures
        step_view(step) == checked_plan(data@, computed@, reset_conf_on_err),
{
    match split(data) {
        Ok((binary_hash_from_file, binary_data_without_hash)) => {
            if bytes_equal(binary_hash_from_file, computed) {
                Ok(LoadStep::Decode(binary_data_without_hash))
            } else if reset_conf_on_err {
                Ok(LoadStep::WriteDefault)
            } else {
                Err(ConfigError::HashMismatch)
            }
        },
        Err(error) => {
            if reset_conf_on_err {
                Ok(LoadStep::WriteDefault)
            } else {
                Err(error)
            }
        },
    }
}

/// First step of a load, with or without the checksum test.
///
/// `file` is what the configuration file holds, `None` where it does not
/// exist. The result is what [`load_plan`] decides; the payload it hands out
/// is a part of `file`, and nothing is changed.
pub fn load_bin_internal<'a>(
    file: Option<&'a [u8]>,
    reset_conf_on_err: bool,
    skip_hash_check: bool,
) -> (step: Result<LoadStep<&'a [u8]>, ConfigError>)
    ensures
        step_view(step) == load_plan(file_view(file), reset_conf_on_err, skip_hash_check),
{
    let data = match file {
        None => { return Ok(LoadStep::WriteDefault); },
        Some(data) => data,
    };
    let binary_data_without_hash = match split(data) {
        Ok((_, payload)) => payload,
        Err(error) => {
            if reset_conf_on_err {
                return Ok(LoadStep::WriteDefault);
            }
            return Err(error);
        },
    };
    if skip_hash_check {
        return Ok(LoadStep::Decode(binary_data_without_hash));
    }
    let (_, binary_hash_from_data) = get_hash_from_file_and_data(data);
    verify_record(data, binary_hash_from_data.as_slice(), reset_conf_on_err)
}

/// First step of a load that tests the checksum.
///
/// `file` is what the configuration file holds, `None` where it does not
/// exist. See [`load_plan`] for what is decided.
pub fn load_bin<'a>(file: Option<&'a [u8]>, reset_conf_on_err: bool) -> (step: Result<
    LoadStep<&'a [u8]>,
    ConfigError,
>)
    ensures
        step_view(step) == load_plan(file_view(file), reset_conf_on_err, false),
{
    load_bin_internal(file, reset_conf_on_err, false)
}

/// First step of a load that does not test the checksum.
///
/// This is the way back to a value after [`load_bin`] has failed with
/// `HashMismatch`: the payload region is handed out whatever the checksum
/// region holds. A file too short to hold a checksum is still refused.
pub fn load_bin_skip_check<'a>(file: Option<&'a [u8]>, reset_conf_on_err: bool) -> (step: Result<
    LoadStep<&'a [u8]>,
    ConfigError,
>)
    ensures
        step_view(step) == load_plan(file_view(file), reset_conf_on_err, true),
{
    load_bin_internal(file, reset_conf_on_err, true)
}

/// Second step of a load: `decoded` is what the decoder made of the payload.
pub fn finish_load<T, E>(decoded: Result<T, E>, reset_conf_on_err: bool) -> (end: Result<
    Loaded<T>,
    E,
>)
    ensures
        end == settle(decoded, reset_conf_on_err),
{
    match decoded {
        Ok(config) => Ok(Loaded::Value(config)),
        Err(error) => {
            if reset_conf_on_err {
                Ok(Loaded::WriteDefault)
            } else {
                Err(error)
            }
        },
    }
}

/// Returns what the configuration file holds once `payload` has been stored:
/// the record of `payload` and nothing else, whatever the file held before.
pub fn store_bin(payload: &[u8]) -> (file: Vec<u8>)
    ensures
        file@ == record_of(payload@),
        file@.len() == HASH_BYTE_LENGTH + payload@.len(),
{
    prepare_serialized_data(payload)
}

} // verus!
