//! Error taxonomy of the resolution engine.
//!
//! Every fallible step returns a typed error up to the caller.  Each
//! variant carries the context it was raised with as plain strings, so
//! callers can render them however they like.

use vstd::prelude::*;

verus! {

/// Failure of an external process invocation.
#[derive(Debug, Clone, PartialEq, Eq)]
pub enum ProcessError {
    /// The process output could not be decoded as UTF-8; carries a
    /// description of which stream failed.
    Decode(String),
    /// Running the process itself failed; carries a description.
    IO(String),
}

/// Failure of a Git operation.
#[derive(Debug, Clone, PartialEq, Eq)]
pub enum GitError {
    /// Git ran but did not succeed, or its output could not be used;
    /// carries the captured output or a description.
    Failed(String),
    /// The Git process could not be run at all.
    IO(ProcessError),
}

/// Failure to derive an address name from a URL or path.
#[derive(Debug, Clone, PartialEq, Eq)]
pub enum AddressError {
    /// The URL or path has no usable final segment; carries the input.
    RepoParse(String),
}

/// What went wrong while loading one configuration file.
#[derive(Debug, Clone, PartialEq, Eq)]
pub enum ConfigErrorKind {
    /// The file could not be read.
    IO(String),
    /// The file is TOML and failed to parse.
    TomlDecode(String),
    /// The file is JSON and failed to parse.
    JsonDecode(String),
    /// The file parsed but a field has the wrong shape; carries the
    /// offending field.
    BadValue(String),
}

/// A configuration loading failure together with its context message.
#[derive(Debug, Clone, PartialEq, Eq)]
pub struct ConfigError {
    pub msg: String,
    pub kind: ConfigErrorKind,
}

/// Failure while getting or setting a secret.
#[derive(Debug, Clone, PartialEq, Eq)]
pub enum SecretError {
    /// Prompting for the secret failed; carries a description.
    Prompt(String),
    /// No secret is saved under the key carried here.
    NoPassword(String),
    /// The credential store itself failed; carries its report.
    Keyring(String),
}

/// The causes a state-resolution failure can have.
#[derive(Debug, Clone, PartialEq, Eq)]
pub enum StateErrorKind {
    IO(String),
    /// A resolved path has no usable final segment; carries the path.
    InvalidRoot(String),
    Secret(SecretError),
    Git(GitError),
    Config(ConfigError),
    Address(AddressError),
    /// Convergence did not reach a fixed point within the hop bound.
    TooManyRedirects,
}

/// A state-resolution failure together with its context message.
#[derive(Debug, Clone, PartialEq, Eq)]
pub struct StateError {
    pub msg: String,
    pub kind: StateErrorKind,
}

} // verus!
