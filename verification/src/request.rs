//! Construction of the two requests that the client dispatches: an upload
//! with integrity metadata and a delete of a resolved artifact location.
//! The caller performs the actual network transport.

use vstd::prelude::*;
use crate::artifact::{spec_delete_vars, derive_delete_vars, MAX_PKG_SIZE};
use crate::errors::{ApiError, TemplateError};
use crate::registry::{spec_endpoint, endpoint_template, Operation};
use crate::template::{spec_substitute, substitute, SubstFault};
use crate::vars::VarSet;

verus! {

/// The SHA-256 digest of a byte string, written as hexadecimal characters.
pub uninterp spec fn sha256_hex_of(bytes: Seq<u8>) -> Seq<char>;

/// Relies on sha256::digest: the SHA-256 digest of the bytes, written as
/// 64 lowercase hexadecimal characters; a function of the bytes alone.
#[verifier::external_body]
fn sha256_hex(bytes: &Vec<u8>) -> (r: String)
    ensures
        r@ == sha256_hex_of(bytes@),
        r@.len() == 64,
{
    sha256::digest(bytes)
}

/// An upload request: `POST` to `url` with bearer authentication, the
/// metadata fields as headers, and the file bytes as body.
#[derive(Debug)]
pub struct UploadRequest {
    pub url: String,
    pub bearer_token: String,
    pub content_length: usize,
    pub content_type: String,
    pub file_name: String,
    pub sha256_hex: String,
    pub body: Vec<u8>,
}

/// A delete request: `DELETE` of `url` with bearer authentication and no
/// body.
#[derive(Debug)]
pub struct DeleteRequest {
    pub url: String,
    pub bearer_token: String,
}

/// Builds the upload request for an artifact within the size limit: the
/// digest field is the SHA-256 digest of exactly the bytes sent as body.
pub fn build_upload_request(url: &str, token: &str, file_name: &str, body: Vec<u8>) -> (r:
    UploadRequest)
    requires
        body@.len() <= MAX_PKG_SIZE,
    ensures
        r.url@ == url@,
        r.bearer_token@ == token@,
        r.content_length == body@.len(),
        r.content_type@ == "application/octet-stream"@,
        r.file_name@ == file_name@,
        r.sha256_hex@ == sha256_hex_of(body@),
        r.body@ == body@,
{
    let content_length = body.len();
    let digest = sha256_hex(&body);
    UploadRequest {
        url: url.to_owned(),
        bearer_token: token.to_owned(),
        content_length,
        content_type: "application/octet-stream".to_owned(),
        file_name: file_name.to_owned(),
        sha256_hex: digest,
        body,
    }
}

/// Plans and builds the upload of an artifact in one step: an artifact
/// over the size limit yields no request at all; the caller then only
/// logs a warning.
pub fn prepare_upload(url: &str, token: &str, file_name: &str, body: Vec<u8>) -> (r: Option<
    UploadRequest,
>)
    ensures
        body@.len() > MAX_PKG_SIZE <==> r is None,
        r matches Some(q) ==> q.url@ == url@ && q.bearer_token@ == token@ && q.content_length
            == body@.len() && q.content_type@ == "application/octet-stream"@ && q.file_name@
            == file_name@ && q.sha256_hex@ == sha256_hex_of(body@) && q.body@ == body@,
{
    if body.len() as u64 <= MAX_PKG_SIZE {
        Some(build_upload_request(url, token, file_name, body))
    } else {
        None
    }
}

/// Resolves the concrete URL of an operation: the registered template of
/// `repo` and `op`, substituted with `vars`.
pub fn operation_url(repo: &str, op: Operation, vars: &VarSet) -> (r: Result<String, ApiError>)
    ensures
        (match spec_endpoint(repo@, op) {
            None => r matches Err(e) && e == ApiError::Config(
                crate::errors::ConfigError::UnknownRepository,
            ),
            Some(t) => match spec_substitute(t, vars@) {
                Ok(u) => r matches Ok(s) && s@ == u,
                Err(SubstFault::MissingName) => r matches Err(e) && e == ApiError::Template(
                    TemplateError::MissingVariableName,
                ),
                Err(SubstFault::Unbound(nm)) => r matches Err(e) && (e matches ApiError::Template(
                    te,
                ) && te matches TemplateError::UnboundVariable(u2) && u2@ == nm),
            },
        }),
{
    match endpoint_template(repo, op) {
        Err(e) => Err(ApiError::Config(e)),
        Ok(template) => match substitute(template, vars) {
            Ok(url) => Ok(url),
            Err(e) => Err(ApiError::Template(e)),
        },
    }
}

/// Prepares the delete of the artifact at `path`: derives `subdir` and
/// `pkg`, merges them into a copy of the base variables (which are not
/// changed), substitutes the delete template, and builds the request.
pub fn prepare_delete(delete_template: &str, base_vars: &VarSet, path: &str, token: &str) -> (r:
    Result<DeleteRequest, ApiError>)
    ensures
        (match spec_delete_vars(path@) {
            Err(pe) => r matches Err(e) && e == ApiError::Path(pe),
            Ok(sv) => (match spec_substitute(
                delete_template@,
                base_vars@.push(("subdir"@, sv.0)).push(("pkg"@, sv.1)),
            ) {
                Ok(u) => r matches Ok(d) && d.url@ == u && d.bearer_token@ == token@,
                Err(SubstFault::MissingName) => r matches Err(e) && e == ApiError::Template(
                    TemplateError::MissingVariableName,
                ),
                Err(SubstFault::Unbound(nm)) => r matches Err(e) && (e matches ApiError::Template(
                    te,
                ) && te matches TemplateError::UnboundVariable(u2) && u2@ == nm),
            }),
        }),
{
    match derive_delete_vars(path) {
        Err(pe) => Err(ApiError::Path(pe)),
        Ok((subdir, pkg)) => {
            let mut vars = base_vars.duplicate();
            vars.insert("subdir", subdir.as_str());
            vars.insert("pkg", pkg.as_str());
            match substitute(delete_template, &vars) {
                Ok(url) => Ok(DeleteRequest { url, bearer_token: token.to_owned() }),
                Err(e) => Err(ApiError::Template(e)),
            }
        },
    }
}

} // verus!
