//! The endpoint template registry: a static table, per repository
//! identity, of the templates for each operation.

use vstd::prelude::*;
use crate::errors::ConfigError;
use crate::strutil::str_eq;

verus! {

/// The kind of operation to perform against the repository.
#[derive(Clone, Copy, Debug, PartialEq, Eq, Structural)]
pub enum Operation {
    Upload,
    Delete,
}

/// The registered endpoint template for a repository and operation, if the
/// repository is known.
pub open spec fn spec_endpoint(repo: Seq<char>, op: Operation) -> Option<Seq<char>> {
    if repo == "repo.prefix.dev"@ {
        match op {
            Operation::Upload => Some("https://prefix.dev/api/v1/upload/$channel"@),
            Operation::Delete => Some("https://prefix.dev/api/v1/delete/$channel/$subdir/$pkg"@),
        }
    } else {
        None
    }
}

/// Returns the endpoint template registered for `repo` and `op`, or an
/// error for an unknown repository.
pub fn endpoint_template(repo: &str, op: Operation) -> (r: Result<&'static str, ConfigError>)
    ensures
        (match spec_endpoint(repo@, op) {
            Some(t) => r matches Ok(s) && s@ == t,
            None => r matches Err(ConfigError::UnknownRepository),
        }),
{
    if str_eq(repo, "repo.prefix.dev") {
        match op {
            Operation::Upload => Ok("https://prefix.dev/api/v1/upload/$channel"),
            Operation::Delete => Ok("https://prefix.dev/api/v1/delete/$channel/$subdir/$pkg"),
        }
    } else {
        Err(ConfigError::UnknownRepository)
    }
}

} // verus!
