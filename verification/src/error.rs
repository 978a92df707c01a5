//! The errors that loading and storing a configuration can end in.

use vstd::prelude::*;
use vstd::string::*;

verus! {

/// `std::io::Error`: the system's own error, carried along unopened as the
/// cause of a failure to create a directory.
#[verifier::external_type_specification]
#[verifier::external_body]
pub struct ExIoError(std::io::Error);

/// Errors that `load` and `store` can result in.
#[derive(Debug)]
pub enum FondantError {
    /// The home directory is not accessible, so no directory can be computed
    /// at all. Callers should treat this as fatal.
    InvalidHomeDir,
    /// Invalid toml/yaml/json configuration.
    ConfigParseError,
    /// The configuration directory could not be created; carries the
    /// underlying system error.
    DirCreateErr(std::io::Error),
    /// The configuration file exists but could not be opened for reading.
    LoadError,
    /// The encoded configuration could not be written out.
    FileWriteError,
    /// The configuration file was opened but its contents could not be read.
    FileReadError,
    /// The configuration file could not be opened or created for writing.
    FileOpenError,
}

/// The hint that closes the messages of the three file errors.
pub open spec fn suggestion_text() -> Seq<char> {
    "HELP: You might have insufficient permissions to perform this action."@
}

impl FondantError {
    /// The human-readable message of each kind of error.
    pub open spec fn message_text(self) -> Seq<char> {
        match self {
            FondantError::InvalidHomeDir => "Failed to find home directory!"@,
            FondantError::ConfigParseError => "Invalid configuration file!"@,
            FondantError::DirCreateErr(_) => "Failed to write to configuration directory!"@,
            FondantError::LoadError => "Failed to load configuration file!"@,
            FondantError::FileWriteError => "Failed to write configuration file! "@
                + suggestion_text(),
            FondantError::FileReadError => "Failed to read configuration file! "@
                + suggestion_text(),
            FondantError::FileOpenError => "Failed to open configuration file! "@
                + suggestion_text(),
        }
    }

    /// Renders the error for a human reader.
    pub fn message(&self) -> (text: String)
        ensures
            text@ == self.message_text(),
    {
        let suggestion = "HELP: You might have insufficient permissions to perform this action.";
        match self {
            FondantError::InvalidHomeDir => String::from_str("Failed to find home directory!"),
            FondantError::ConfigParseError => String::from_str("Invalid configuration file!"),
            FondantError::DirCreateErr(_) => String::from_str(
                "Failed to write to configuration directory!",
            ),
            FondantError::LoadError => String::from_str("Failed to load configuration file!"),
            FondantError::FileWriteError => String::from_str(
                "Failed to write configuration file! ",
            ).concat(suggestion),
            FondantError::FileReadError => String::from_str(
                "Failed to read configuration file! ",
            ).concat(suggestion),
            FondantError::FileOpenError => String::from_str(
                "Failed to open configuration file! ",
            ).concat(suggestion),
        }
    }
}

} // verus!
