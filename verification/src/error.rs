//! Errors surfaced by command dispatch and session bootstrap.

use vstd::prelude::*;
use vstd::string::StringExecFns;

verus! {

/// The kind of a dispatch failure, stripped of its context. Two errors of
/// the same kind compare equal here even when their wrapped causes differ.
#[derive(Clone, Copy, Debug, PartialEq, Eq, Structural)]
pub enum ErrorKind {
    /// No configuration path was supplied where one is mandatory.
    ConfigRequired,
    /// The supplied path does not reference an existing file.
    ConfigNotFound,
    /// Structural or semantic validation of the configuration failed.
    ConfigInvalid,
    /// The blockchain client could not be constructed.
    ClientInitFailed,
    /// The derived address failed identity validation.
    InvalidIdentity,
    /// The persistence handle could not be opened.
    PersistenceInitFailed,
    /// The command variant has been retired.
    RemovedFeature,
}

/// The stage that demanded a configuration path: ordinary validator
/// operation, or the rental command family, which allows no implicit
/// default.
#[derive(Clone, Copy, Debug, PartialEq, Eq, Structural)]
pub enum ConfigNeed {
    ValidatorOperation,
    RentalCommands,
}

/// A failure of command dispatch or of the session bootstrap chain, carrying
/// enough context to be directly user-visible.
#[derive(Debug)]
pub enum HandlerError {
    ConfigRequired { needed_for: ConfigNeed },
    ConfigNotFound { path: String },
    ConfigInvalid { cause: String },
    ClientInitFailed { cause: String },
    InvalidIdentity { cause: String },
    PersistenceInitFailed { cause: String },
    RemovedFeature { message: String },
}

impl HandlerError {
    pub open spec fn kind_spec(&self) -> ErrorKind {
        match self {
            HandlerError::ConfigRequired { .. } => ErrorKind::ConfigRequired,
            HandlerError::ConfigNotFound { .. } => ErrorKind::ConfigNotFound,
            HandlerError::ConfigInvalid { .. } => ErrorKind::ConfigInvalid,
            HandlerError::ClientInitFailed { .. } => ErrorKind::ClientInitFailed,
            HandlerError::InvalidIdentity { .. } => ErrorKind::InvalidIdentity,
            HandlerError::PersistenceInitFailed { .. } => ErrorKind::PersistenceInitFailed,
            HandlerError::RemovedFeature { .. } => ErrorKind::RemovedFeature,
        }
    }

    /// The kind of this error, for callers that route on it.
    pub fn kind(&self) -> (k: ErrorKind)
        ensures
            k == self.kind_spec(),
    {
        match self {
            HandlerError::ConfigRequired { .. } => ErrorKind::ConfigRequired,
            HandlerError::ConfigNotFound { .. } => ErrorKind::ConfigNotFound,
            HandlerError::ConfigInvalid { .. } => ErrorKind::ConfigInvalid,
            HandlerError::ClientInitFailed { .. } => ErrorKind::ClientInitFailed,
            HandlerError::InvalidIdentity { .. } => ErrorKind::InvalidIdentity,
            HandlerError::PersistenceInitFailed { .. } => ErrorKind::PersistenceInitFailed,
            HandlerError::RemovedFeature { .. } => ErrorKind::RemovedFeature,
        }
    }

    /// The user-visible text of this error: a fixed description of the stage
    /// that failed, followed by the wrapped cause where one exists.
    pub open spec fn message_spec(&self) -> Seq<char> {
        match self {
            HandlerError::ConfigRequired { needed_for } => match needed_for {
                ConfigNeed::ValidatorOperation => "Configuration file path is required for validator operation"@,
                ConfigNeed::RentalCommands => "Configuration required for rental commands"@,
            },
            HandlerError::ConfigNotFound { path } => "Configuration file not found: "@ + path@,
            HandlerError::ConfigInvalid { cause } => "Configuration validation failed: "@ + cause@,
            HandlerError::ClientInitFailed { cause } => "Failed to create blockchain client: "@
                + cause@,
            HandlerError::InvalidIdentity { cause } => "Failed to create hotkey: "@ + cause@,
            HandlerError::PersistenceInitFailed { cause } => "Failed to open persistence: "@
                + cause@,
            HandlerError::RemovedFeature { message } => message@,
        }
    }

    /// Renders the user-visible text of this error.
    pub fn message(&self) -> (m: String)
        ensures
            m@ == self.message_spec(),
    {
        match self {
            HandlerError::ConfigRequired { needed_for } => match needed_for {
                ConfigNeed::ValidatorOperation => String::from_str(
                    "Configuration file path is required for validator operation",
                ),
                ConfigNeed::RentalCommands => String::from_str(
                    "Configuration required for rental commands",
                ),
            },
            HandlerError::ConfigNotFound { path } => String::from_str(
                "Configuration file not found: ",
            ).concat(path.as_str()),
            HandlerError::ConfigInvalid { cause } => String::from_str(
                "Configuration validation failed: ",
            ).concat(cause.as_str()),
            HandlerError::ClientInitFailed { cause } => String::from_str(
                "Failed to create blockchain client: ",
            ).concat(cause.as_str()),
            HandlerError::InvalidIdentity { cause } => String::from_str(
                "Failed to create hotkey: ",
            ).concat(cause.as_str()),
            HandlerError::PersistenceInitFailed { cause } => String::from_str(
                "Failed to open persistence: ",
            ).concat(cause.as_str()),
            HandlerError::RemovedFeature { message } => message.clone(),
        }
    }
}

} // verus!
