//! Integrity-checked persistence of one configuration value.
//!
//! The crate is the pure core of a configuration store: it frames a serialized
//! value behind a checksum, takes a stored record apart again, and decides what
//! a load has to do with what it finds. Reading and writing files, and turning
//! values into bytes, is left to the caller.
//!
//! # Storing
//!
//! Serialize the value and write what [`store_bin`] makes of the bytes, in
//! place of whatever the file held.
//!
//! # Loading
//!
//! 1. Read the file, and call [`load_bin`] with its bytes, or with `None` if
//!    there is no file.
//! 2. On [`LoadStep::Decode`], decode the payload and call [`finish_load`]
//!    with the outcome.
//! 3. On [`Loaded::Value`], that is the configuration. On
//!    [`LoadStep::WriteDefault`] or [`Loaded::WriteDefault`], store the default
//!    value as above and return it. An error ends the load and leaves the
//!    file alone.
//!
//! [`load_bin_skip_check`] takes the place of [`load_bin`] to read a record
//! whose checksum does not match. The module [`guarantees`] proves what these
//! steps add up to.
//!
//! # Paths
//!
//! [`get_configuration_path`] puts the path of a configuration file together
//! from the base directory of a [`ConfigLocation`], the name of the
//! application and the name or the [`ConfigType`] of the file.

pub mod binary_conf;
pub mod checksum;
pub mod error;
pub mod guarantees;
pub mod location;
pub mod record;
pub mod text_conf;

pub use binary_conf::{
    finish_load, load_bin, load_bin_internal, load_bin_skip_check, store_bin, verify_record,
    LoadStep, Loaded,
};
pub use checksum::{checksum, hash_to_bytes, HASH_BYTE_LENGTH};
pub use error::ConfigError;
pub use location::{
    config_location, get_configuration_path, ConfigLocation, ConfigPaths, ConfigType,
};
pub use record::{frame, get_hash_from_file_and_data, prepare_serialized_data, split};
pub use text_conf::load_text;
