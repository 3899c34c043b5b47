//! Error types for every component of the client.

use vstd::prelude::*;

verus! {

/// Failure of the template substitution engine.
#[derive(Debug, Clone, PartialEq, Eq)]
pub enum TemplateError {
    /// A `$` was not followed by at least one placeholder-name character.
    MissingVariableName,
    /// The named placeholder has no binding in the variable set.
    UnboundVariable(String),
}

/// Failure of the endpoint template registry.
#[derive(Debug, Clone, PartialEq, Eq)]
pub enum ConfigError {
    /// The repository identity is not present in the registry.
    UnknownRepository,
}

/// Failure of the credential resolver.
#[derive(Debug, Clone, PartialEq, Eq)]
pub enum CredentialError {
    /// The supplied value named a credential file, but its content could
    /// not be read.
    FileUnreadable,
    /// The credential file is not valid JSON.
    MalformedJson,
    /// The credential file has no entry for the requested repository.
    MissingEntry,
    /// The entry for the repository has no string `token` field.
    MalformedEntry,
}

/// Failure to derive the delete-path variables from an artifact path.
#[derive(Debug, Clone, PartialEq, Eq)]
pub enum PathError {
    /// The path has no file-name component.
    NoFileName,
    /// The path has no named parent directory.
    NoParent,
}

/// Any failure of a combined operation.
#[derive(Debug, Clone, PartialEq, Eq)]
pub enum ApiError {
    Template(TemplateError),
    Config(ConfigError),
    Path(PathError),
}

} // verus!
