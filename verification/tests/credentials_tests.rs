use prefix_api::credentials::{lookup_credential, resolve_token, token_is_credential_path};
use prefix_api::errors::CredentialError;

#[test]
fn raw_token_is_returned_unchanged() {
    let r = resolve_token("rawtoken123", "any_repo", None);
    assert_eq!(r.unwrap(), "rawtoken123");
}

#[test]
fn path_detection_goes_by_the_json_extension() {
    assert!(token_is_credential_path("~/.mamba/auth/authentication.json"));
    assert!(token_is_credential_path("creds.json"));
    assert!(!token_is_credential_path("rawtoken123"));
    assert!(!token_is_credential_path("authentication.json.bak"));
}

#[test]
fn token_is_read_from_credential_file_content() {
    let content = r#"{"repo.prefix.dev":{"token":"abc","type":"bearer"}}"#;
    let supplied = "~/.mamba/auth/authentication.json";
    assert!(token_is_credential_path(supplied));
    let r = resolve_token(supplied, "repo.prefix.dev", Some(content));
    assert_eq!(r.unwrap(), "abc");
}

#[test]
fn unreadable_credential_file_is_an_error() {
    let r = resolve_token("missing.json", "repo.prefix.dev", None);
    assert_eq!(r.unwrap_err(), CredentialError::FileUnreadable);
}

#[test]
fn malformed_credential_file_is_an_error() {
    let r = lookup_credential("not json at all", "repo.prefix.dev");
    assert_eq!(r.unwrap_err(), CredentialError::MalformedJson);
}

#[test]
fn missing_repository_entry_is_an_error() {
    let content = r#"{"other.host":{"token":"abc","type":"bearer"}}"#;
    let r = lookup_credential(content, "repo.prefix.dev");
    assert_eq!(r.unwrap_err(), CredentialError::MissingEntry);
}

#[test]
fn entry_without_string_token_is_an_error() {
    let no_token = r#"{"repo.prefix.dev":{"type":"bearer"}}"#;
    let r = lookup_credential(no_token, "repo.prefix.dev");
    assert_eq!(r.unwrap_err(), CredentialError::MalformedEntry);
    let numeric_token = r#"{"repo.prefix.dev":{"token":7,"type":"bearer"}}"#;
    let r = lookup_credential(numeric_token, "repo.prefix.dev");
    assert_eq!(r.unwrap_err(), CredentialError::MalformedEntry);
}
