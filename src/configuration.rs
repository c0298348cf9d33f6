//! The modes the application runs in and the environment each reports.

use vstd::prelude::*;

verus! {

/// Where and how the application runs.
#[derive(Clone, Copy, Debug, PartialEq, Eq, Structural)]
pub enum ConfigurationMode {
    Development,
    Desktop,
    Test,
    _IOs,
}

/// The environment that error reports are filed under.
#[derive(Clone, Copy, Debug, PartialEq, Eq, Structural)]
pub enum Environment {
    Development,
    Production,
    Testing,
}

/// The environment of a mode: development for development, production for
/// the desktop, testing for any other.
pub open spec fn environment_of(mode: ConfigurationMode) -> Environment {
    match mode {
        ConfigurationMode::Development => Environment::Development,
        ConfigurationMode::Desktop => Environment::Production,
        _ => Environment::Testing,
    }
}

impl Environment {
    /// The environment of `mode`; every mode has one.
    pub fn try_from(mode: ConfigurationMode) -> (r: Result<Environment, ()>)
        ensures
            r == Ok::<Environment, ()>(environment_of(mode)),
    {
        match mode {
            ConfigurationMode::Development => Ok(Environment::Development),
            ConfigurationMode::Desktop => Ok(Environment::Production),
            _ => Ok(Environment::Testing),
        }
    }

    /// The name of the environment.
    pub open spec fn name(self) -> Seq<char> {
        match self {
            Environment::Development => "Development"@,
            Environment::Production => "Production"@,
            Environment::Testing => "Testing"@,
        }
    }

    /// The name of the environment.
    pub fn to_string(&self) -> (r: String)
        ensures
            r@ == self.name(),
    {
        match self {
            Environment::Development => "Development".to_owned(),
            Environment::Production => "Production".to_owned(),
            Environment::Testing => "Testing".to_owned(),
        }
    }
}

/// Where a mode keeps its configuration file and its database: file names,
/// relative to the working directory or, for the desktop, to the user's
/// home directory.
#[derive(Clone, Debug)]
pub struct StorageLocation {
    pub configuration_file: String,
    pub database_file: String,
    pub in_home_directory: bool,
}

/// The files of a mode, as `(configuration, database, in home directory)`;
/// `None` for a mode that has no storage.
pub open spec fn storage_files(mode: ConfigurationMode) -> Option<(Seq<char>, Seq<char>, bool)> {
    match mode {
        ConfigurationMode::Development => Some((".config.toml"@, "file.db"@, false)),
        ConfigurationMode::Test => Some((".test-config.toml"@, "test-file.db"@, false)),
        ConfigurationMode::Desktop => Some(
            (".config/.my-tasks/config.toml"@, ".config/.my-tasks/db.sqlite"@, true),
        ),
        ConfigurationMode::_IOs => None,
    }
}

/// Where `mode` keeps its files.
pub fn storage_location(mode: ConfigurationMode) -> (r: Option<StorageLocation>)
    ensures
        match storage_files(mode) {
            Some(f) => r matches Some(l) && l.configuration_file@ == f.0 && l.database_file@ == f.1
                && l.in_home_directory == f.2,
            None => r is None,
        },
{
    match mode {
        ConfigurationMode::Development => Some(
            StorageLocation {
                configuration_file: ".config.toml".to_owned(),
                database_file: "file.db".to_owned(),
                in_home_directory: false,
            },
        ),
        ConfigurationMode::Test => Some(
            StorageLocation {
                configuration_file: ".test-config.toml".to_owned(),
                database_file: "test-file.db".to_owned(),
                in_home_directory: false,
            },
        ),
        ConfigurationMode::Desktop => Some(
            StorageLocation {
                configuration_file: ".config/.my-tasks/config.toml".to_owned(),
                database_file: ".config/.my-tasks/db.sqlite".to_owned(),
                in_home_directory: true,
            },
        ),
        ConfigurationMode::_IOs => None,
    }
}

} // verus!
