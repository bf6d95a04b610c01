//! Where a configuration file lives: the kind of file, the base directory it
//! is kept under, and the path that results.

use crate::error::ConfigError;
use vstd::prelude::*;
use vstd::string::{StrSliceExecFns, StringExecFns};

verus! {

/// The format of a configuration file.
#[derive(Debug, Clone, Copy, PartialEq, Eq, Structural)]
pub enum ConfigType {
    Toml,
    Json,
    Yaml,
    Ron,
    Bin,
}

impl ConfigType {
    /// The file extension of the format, without a dot.
    pub open spec fn extension(self) -> Seq<char> {
        match self {
            ConfigType::Toml => "toml"@,
            ConfigType::Json => "json"@,
            ConfigType::Yaml => "yml"@,
            ConfigType::Ron => "ron"@,
            ConfigType::Bin => "bin"@,
        }
    }

    /// Returns the file extension of the format, without a dot.
    pub fn as_str(&self) -> (extension: &'static str)
        ensures
            extension@ == self.extension(),
    {
        match self {
            ConfigType::Toml => "toml",
            ConfigType::Json => "json",
            ConfigType::Yaml => "yml",
            ConfigType::Ron => "ron",
            ConfigType::Bin => "bin",
        }
    }
}

impl AsRef<ConfigType> for ConfigType {
    fn as_ref(&self) -> (kind: &ConfigType)
        ensures
            *kind == *self,
    {
        self
    }
}

/// The base directory that a configuration is kept under.
#[derive(Debug, Clone, Copy, PartialEq, Eq, Structural)]
pub enum ConfigLocation {
    /// The configuration directory of the current user.
    Config,
    /// The cache directory of the current user.
    Cache,
    /// The local data directory of the current user.
    LocalData,
    /// The current working directory.
    Cwd,
}

impl ConfigLocation {
    /// The message of the error that is raised when the platform knows no
    /// directory for this location.
    pub open spec fn missing_text(self) -> Seq<char> {
        match self {
            ConfigLocation::Config => "Config directory not found"@,
            ConfigLocation::Cache => "Cache directory not found"@,
            ConfigLocation::LocalData => "Local data directory not found"@,
            ConfigLocation::Cwd => "Current directory not found"@,
        }
    }

    /// Returns the message of the error that is raised when the platform knows
    /// no directory for this location.
    pub fn missing_message(&self) -> (text: &'static str)
        ensures
            text@ == self.missing_text(),
    {
        match self {
            ConfigLocation::Config => "Config directory not found",
            ConfigLocation::Cache => "Cache directory not found",
            ConfigLocation::LocalData => "Local data directory not found",
            ConfigLocation::Cwd => "Current directory not found",
        }
    }
}

impl AsRef<ConfigLocation> for ConfigLocation {
    fn as_ref(&self) -> (location: &ConfigLocation)
        ensures
            *location == *self,
    {
        self
    }
}

/// The directory of an application and the configuration file inside it.
#[derive(Debug, PartialEq, Eq)]
pub struct ConfigPaths {
    /// The directory that holds the application's files.
    pub directory: String,
    /// The configuration file, inside `directory` unless its name is absolute.
    pub file: String,
}

/// `base` extended by `part`. Components are separated by one `/`; a `part`
/// that starts at the root replaces `base`.
pub open spec fn join_path(base: Seq<char>, part: Seq<char>) -> Seq<char> {
    if part.len() > 0 && part[0] == '/' {
        part
    } else if base.len() == 0 || base.last() == '/' {
        base + part
    } else {
        base + seq!['/'] + part
    }
}

/// The name of the configuration file: the given name, or else the name of
/// the application, a dot and the extension.
pub open spec fn file_name(
    app_name: Seq<char>,
    config_name: Option<Seq<char>>,
    extension: Seq<char>,
) -> Seq<char> {
    match config_name {
        Some(name) => name,
        None => app_name + seq!['.'] + extension,
    }
}

/// The directory of the application `app_name` under `base`.
pub open spec fn directory_path(base: Seq<char>, app_name: Seq<char>) -> Seq<char> {
    join_path(base, app_name)
}

/// The path of the configuration file of `app_name` under `base`.
pub open spec fn configuration_path(
    base: Seq<char>,
    app_name: Seq<char>,
    config_name: Option<Seq<char>>,
    extension: Seq<char>,
) -> Seq<char> {
    join_path(directory_path(base, app_name), file_name(app_name, config_name, extension))
}

/// What an optional name stands for in contracts.
pub open spec fn name_view(name: Option<&str>) -> Option<Seq<char>> {
    match name {
        Some(text) => Some(text@),
        None => None,
    }
}

fn join(base: &str, part: &str) -> (joined: String)
    ensures
        joined@ == join_path(base@, part@),
{
    let part_len: usize = part.unicode_len();
    if part_len > 0 && part.get_char(0) == '/' {
        return String::from_str(part);
    }
    let base_len: usize = base.unicode_len();
    let mut joined = String::from_str(base);
    if base_len > 0 && base.get_char(base_len - 1) != '/' {
        proof {
            reveal_strlit("/");
            assert("/"@ =~= seq!['/']);
        }
        joined.append("/");
    }
    joined.append(part);
    joined
}

fn default_file_name(app_name: &str, extension: &str) -> (name: String)
    ensures
        name@ == file_name(app_name@, None, extension@),
{
    let mut name = String::from_str(app_name);
    proof {
        reveal_strlit(".");
        assert("."@ =~= seq!['.']);
    }
    name.append(".");
    name.append(extension);
    name
}

/// Works out where the configuration of `app_name` is kept.
///
/// `base_dir` is the directory that the platform reports for `location`, and
/// `None` where it reports none. The file is named `config_name`, or, where
/// that is `None`, after the application with `extension` behind a dot.
/// Nothing is said about whether the directory or the file exists.
pub fn config_location(
    app_name: &str,
    config_name: Option<&str>,
    extension: &str,
    location: &ConfigLocation,
    base_dir: Option<&str>,
) -> (paths: Result<ConfigPaths, ConfigError>)
    ensures
        match base_dir {
            Some(base) => paths matches Ok(found) && found.directory@ == directory_path(
                base@,
                app_name@,
            ) && found.file@ == configuration_path(
                base@,
                app_name@,
                name_view(config_name),
                extension@,
            ),
            None => paths matches Err(ConfigError::Io(text)) && text@ == location.missing_text(),
        },
{
    match base_dir {
        None => Err(ConfigError::Io(String::from_str(location.missing_message()))),
        Some(base) => {
            let directory = join(base, app_name);
            let file = match config_name {
                Some(name) => join(directory.as_str(), name),
                None => {
                    let name = default_file_name(app_name, extension);
                    join(directory.as_str(), name.as_str())
                },
            };
            Ok(ConfigPaths { directory, file })
        },
    }
}

/// Returns the path of the configuration file that loading and storing use.
///
/// `base_dir` is the directory that the platform reports for `location`, and
/// `None` where it reports none; that case is the one error. The path is
/// `base_dir`, the directory `app_name` and the file name, which is
/// `config_name` or, by default, `app_name` with the extension of
/// `config_extension`. Nothing is said about whether the file exists.
pub fn get_configuration_path(
    app_name: &str,
    config_name: Option<&str>,
    config_extension: &ConfigType,
    location: &ConfigLocation,
    base_dir: Option<&str>,
) -> (path: Result<String, ConfigError>)
    ensures
        match base_dir {
            Some(base) => path matches Ok(file) && file@ == configuration_path(
                base@,
                app_name@,
                name_view(config_name),
                config_extension.extension(),
            ),
            None => path matches Err(ConfigError::Io(text)) && text@ == location.missing_text(),
        },
{
    match config_location(app_name, config_name, config_extension.as_str(), location, base_dir) {
        Ok(paths) => Ok(paths.file),
        Err(error) => Err(error),
    }
}

} // verus!
