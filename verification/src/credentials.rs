//! The credential resolver: a supplied value that names a credential file
//! is looked up in that file's JSON content; any other value is used as
//! the bearer token itself.

use vstd::prelude::*;
use crate::errors::CredentialError;
use crate::strutil::{ends_with, spec_ends_with};

verus! {

/// Whether a string is valid JSON; a function of the string alone.
pub uninterp spec fn json_parses(s: Seq<char>) -> bool;

/// Whether the JSON value of the credential text has a member under the
/// key `repo`; a function of the text and the key alone.
pub uninterp spec fn json_entry_present(text: Seq<char>, repo: Seq<char>) -> bool;

/// The string `token` field of the credential entry under the key `repo`:
/// `Some` exactly when the text parses, the entry exists, and its `token`
/// field is a string; a function of the text and the key alone.
pub uninterp spec fn json_entry_token(text: Seq<char>, repo: Seq<char>) -> Option<Seq<char>>;

/// Relies on serde_json::from_str::<serde_json::Value>, serde_json::Value::get
/// and serde_json::Value::as_str: parses the credential text as JSON and takes
/// the string `token` field of the entry under `repo`. Parsing, member lookup
/// and string extraction are each a function of the text and the key alone.
#[verifier::external_body]
fn json_lookup_token(text: &str, repo: &str) -> (r: Result<String, CredentialError>)
    ensures
        r is Ok <==> (json_parses(text@) && json_entry_token(text@, repo@) is Some),
        r is Ok ==> r->Ok_0@ == json_entry_token(text@, repo@)->Some_0,
        (r matches Err(CredentialError::MalformedJson)) <==> !json_parses(text@),
        (r matches Err(CredentialError::MissingEntry)) <==> (json_parses(text@) && !json_entry_present(text@, repo@)),
        (r matches Err(CredentialError::MalformedEntry)) <==> (json_parses(text@) && json_entry_present(text@, repo@) && json_entry_token(text@, repo@) is None),
{
    let parsed: serde_json::Value = match serde_json::from_str(text) {
        Ok(v) => v,
        Err(_) => return Err(CredentialError::MalformedJson),
    };
    let entry = match parsed.get(repo) {
        Some(e) => e,
        None => return Err(CredentialError::MissingEntry),
    };
    match entry.get("token").and_then(serde_json::Value::as_str) {
        Some(tok) => Ok(tok.to_owned()),
        None => Err(CredentialError::MalformedEntry),
    }
}

/// What a credential lookup on `text` under the key `repo` returns: the
/// entry's token on success, and each error exactly on the inputs that
/// cause it.
pub open spec fn spec_credential_lookup(
    text: Seq<char>,
    repo: Seq<char>,
    r: Result<String, CredentialError>,
) -> bool {
    &&& (r is Ok <==> json_parses(text) && json_entry_token(text, repo) is Some)
    &&& (r is Ok ==> r->Ok_0@ == json_entry_token(text, repo)->Some_0)
    &&& ((r matches Err(CredentialError::MalformedJson)) <==> !json_parses(text))
    &&& ((r matches Err(CredentialError::MissingEntry)) <==> (json_parses(text)
        && !json_entry_present(text, repo)))
    &&& ((r matches Err(CredentialError::MalformedEntry)) <==> (json_parses(text)
        && json_entry_present(text, repo) && json_entry_token(text, repo) is None))
}

/// Holds when a supplied token value names a credential file rather than
/// being a raw token.
pub open spec fn spec_is_credential_path(s: Seq<char>) -> bool {
    spec_ends_with(s, ".json"@)
}

/// Decides whether the supplied token value names a credential file.
pub fn token_is_credential_path(supplied: &str) -> (r: bool)
    ensures
        r == spec_is_credential_path(supplied@),
{
    ends_with(supplied, ".json")
}

/// Extracts the token of the entry keyed by `repo` from the text of a
/// credential file: a JSON object mapping each repository identity to an
/// entry with a string `token` field.
pub fn lookup_credential(json_text: &str, repo: &str) -> (r: Result<String, CredentialError>)
    ensures
        spec_credential_lookup(json_text@, repo@, r),
        !(r matches Err(CredentialError::FileUnreadable)),
{
    json_lookup_token(json_text, repo)
}

/// Resolves the bearer token. A supplied value that names a credential
/// file (after the caller read that file into `credential_json`) is looked
/// up under `repo`; any other supplied value is itself the token.
pub fn resolve_token(supplied: &str, repo: &str, credential_json: Option<&str>) -> (r: Result<
    String,
    CredentialError,
>)
    ensures
        !spec_is_credential_path(supplied@) ==> (r matches Ok(tk) && tk@ == supplied@),
        spec_is_credential_path(supplied@) && credential_json is None ==> (r matches Err(
            CredentialError::FileUnreadable,
        )),
        spec_is_credential_path(supplied@) && credential_json is Some
            ==> spec_credential_lookup(credential_json->Some_0@, repo@, r),
{
    if !token_is_credential_path(supplied) {
        Ok(supplied.to_owned())
    } else {
        match credential_json {
            Some(text) => lookup_credential(text, repo),
            None => Err(CredentialError::FileUnreadable),
        }
    }
}

} // verus!
