//! The crate's error taxonomy.
//!
//! Failures coming from outside collaborators (the database driver, the
//! operating system) are carried as their rendered text, so that every
//! variant is plain data with an exact contract.

use vstd::prelude::*;
use vstd::string::*;

verus! {

#[derive(Debug, PartialEq, Eq)]
pub enum LiaCoreError {
    /// The database reported an error.
    DatabaseError(String),
    /// No stored command has the given name.
    CommandNotFoundError(String),
    /// The database container could not be started.
    DatabaseContainerError(String),
    /// The caller's input was rejected before any side effect.
    InvalidInputError(String),
    /// A command ran and ended unsuccessfully.
    CommandExecutionError(String),
    /// An operating-system I/O operation failed.
    IoError(String),
    /// The configuration could not be used.
    ConfigError(String),
    /// Applying database migrations failed.
    MigrationError(String),
}

impl LiaCoreError {
    /// The rendered form of the error, one prefix per variant.
    pub open spec fn message_spec(self) -> Seq<char> {
        match self {
            LiaCoreError::DatabaseError(m) => "Database error: "@ + m@,
            LiaCoreError::CommandNotFoundError(m) => "Command not found: "@ + m@,
            LiaCoreError::DatabaseContainerError(m) => "Failed to start the database container: "@
                + m@,
            LiaCoreError::InvalidInputError(m) => "Invalid input: "@ + m@,
            LiaCoreError::CommandExecutionError(m) => "Command execution error: "@ + m@,
            LiaCoreError::IoError(m) => "IO error: "@ + m@,
            LiaCoreError::ConfigError(m) => "Configuration error: "@ + m@,
            LiaCoreError::MigrationError(m) => "Failed to run migrations: "@ + m@,
        }
    }

    /// Renders the error as text.
    pub fn message(&self) -> (r: String)
        ensures
            r@ == self.message_spec(),
    {
        let mut s = String::new();
        match self {
            LiaCoreError::DatabaseError(m) => {
                s.append("Database error: ");
                s.append(m.as_str());
            },
            LiaCoreError::CommandNotFoundError(m) => {
                s.append("Command not found: ");
                s.append(m.as_str());
            },
            LiaCoreError::DatabaseContainerError(m) => {
                s.append("Failed to start the database container: ");
                s.append(m.as_str());
            },
            LiaCoreError::InvalidInputError(m) => {
                s.append("Invalid input: ");
                s.append(m.as_str());
            },
            LiaCoreError::CommandExecutionError(m) => {
                s.append("Command execution error: ");
                s.append(m.as_str());
            },
            LiaCoreError::IoError(m) => {
                s.append("IO error: ");
                s.append(m.as_str());
            },
            LiaCoreError::ConfigError(m) => {
                s.append("Configuration error: ");
                s.append(m.as_str());
            },
            LiaCoreError::MigrationError(m) => {
                s.append("Failed to run migrations: ");
                s.append(m.as_str());
            },
        }
        s
    }
}

} // verus!
