//! The error type of the crate.

use vstd::prelude::*;
use vstd::string::StringExecFns;

verus! {

/// Everything that can go wrong while a configuration is resolved, loaded or
/// stored.
///
/// Failures that arise outside this crate (in the file system or in a
/// serializer) are carried as the text of their message.
#[derive(Debug, PartialEq, Eq)]
pub enum ConfigError {
    /// A directory or file could not be found, created, read or written.
    Io(String),
    /// A value could not be written as TOML.
    TomlSer(String),
    /// A file did not hold the expected TOML.
    TomlDe(String),
    /// A value could not be written as JSON, or a file did not hold the
    /// expected JSON.
    Json(String),
    /// A value could not be written as YAML, or a file did not hold the
    /// expected YAML.
    Yaml(String),
    /// A value could not be written as RON.
    RonSer(String),
    /// A file did not hold the expected RON.
    RonDe(String),
    /// A value could not be written in binary form, or a payload did not
    /// decode.
    Bincode(String),
    /// The stored checksum is not the checksum of the stored payload.
    HashMismatch,
    /// The record is too short to hold a checksum.
    CorruptedHashSector,
}

impl ConfigError {
    /// The text that describes this error.
    pub open spec fn message_text(self) -> Seq<char> {
        match self {
            ConfigError::Io(text) => text@,
            ConfigError::TomlSer(text) => text@,
            ConfigError::TomlDe(text) => text@,
            ConfigError::Json(text) => text@,
            ConfigError::Yaml(text) => text@,
            ConfigError::RonSer(text) => text@,
            ConfigError::RonDe(text) => text@,
            ConfigError::Bincode(text) => text@,
            ConfigError::HashMismatch => "Hash mismatch"@,
            ConfigError::CorruptedHashSector => "Corrupted hash sector"@,
        }
    }

    /// Describes the error in words: the carried message, or the fixed text of
    /// the two checksum failures.
    pub fn message(&self) -> (text: String)
        ensures
            text@ == self.message_text(),
    {
        match self {
            ConfigError::Io(text) => text.clone(),
            ConfigError::TomlSer(text) => text.clone(),
            ConfigError::TomlDe(text) => text.clone(),
            ConfigError::Json(text) => text.clone(),
            ConfigError::Yaml(text) => text.clone(),
            ConfigError::RonSer(text) => text.clone(),
            ConfigError::RonDe(text) => text.clone(),
            ConfigError::Bincode(text) => text.clone(),
            ConfigError::HashMismatch => String::from_str("Hash mismatch"),
            ConfigError::CorruptedHashSector => String::from_str("Corrupted hash sector"),
        }
    }
}

} // verus!
