use prefix_api::errors::{ApiError, ConfigError, PathError, TemplateError};
use prefix_api::registry::{endpoint_template, Operation};
use prefix_api::request::{build_upload_request, operation_url, prepare_delete, prepare_upload};
use prefix_api::vars::{base_vars as lib_base_vars, VarSet};

fn base_vars() -> VarSet {
    lib_base_vars("repo.prefix.dev", "tok", "stable")
}

#[test]
fn registry_knows_both_operations() {
    let up = endpoint_template("repo.prefix.dev", Operation::Upload).unwrap();
    assert_eq!(up, "https://prefix.dev/api/v1/upload/$channel");
    let del = endpoint_template("repo.prefix.dev", Operation::Delete).unwrap();
    assert_eq!(del, "https://prefix.dev/api/v1/delete/$channel/$subdir/$pkg");
}

#[test]
fn registered_templates_are_wellformed() {
    let up = endpoint_template("repo.prefix.dev", Operation::Upload).unwrap();
    let del = endpoint_template("repo.prefix.dev", Operation::Delete).unwrap();
    assert!(prefix_api::template::template_is_wellformed(up));
    assert!(prefix_api::template::template_is_wellformed(del));
}

#[test]
fn registry_rejects_unknown_repository() {
    let r = endpoint_template("other.example.org", Operation::Upload);
    assert_eq!(r.unwrap_err(), ConfigError::UnknownRepository);
}

#[test]
fn upload_url_is_resolved_from_registry_and_vars() {
    let url = operation_url("repo.prefix.dev", Operation::Upload, &base_vars()).unwrap();
    assert_eq!(url, "https://prefix.dev/api/v1/upload/stable");
}

#[test]
fn operation_url_reports_unknown_repository() {
    let r = operation_url("other.example.org", Operation::Upload, &base_vars());
    assert_eq!(r.unwrap_err(), ApiError::Config(ConfigError::UnknownRepository));
}

#[test]
fn upload_request_carries_integrity_metadata() {
    let body = b"hello".to_vec();
    let r = build_upload_request("https://x/up", "tok", "foo-1.0.tar.bz2", body.clone());
    assert_eq!(r.url, "https://x/up");
    assert_eq!(r.bearer_token, "tok");
    assert_eq!(r.content_length, 5);
    assert_eq!(r.content_type, "application/octet-stream");
    assert_eq!(r.file_name, "foo-1.0.tar.bz2");
    assert_eq!(r.body, body);
    assert_eq!(
        r.sha256_hex,
        "2cf24dba5fb0a30e26e83b2ac5b9e29e1b161e5c1fa7425e73043362938b9824"
    );
    assert_eq!(r.sha256_hex, sha256::digest(&body));
}

#[test]
fn upload_digest_matches_the_exact_body_bytes() {
    let body = vec![0u8, 1, 2, 255, 254];
    let r = build_upload_request("https://x/up", "tok", "blob.bin", body.clone());
    assert_eq!(r.sha256_hex, sha256::digest(&body));
    assert_eq!(r.content_length, body.len());
    assert_eq!(r.body, body);
}

#[test]
fn upload_within_the_limit_yields_a_request() {
    let body = b"small".to_vec();
    let r = prepare_upload("https://x/up", "tok", "a.conda", body.clone()).unwrap();
    assert_eq!(r.sha256_hex, sha256::digest(&body));
    assert_eq!(r.content_length, 5);
}

#[test]
fn oversized_upload_yields_no_request() {
    let body = vec![0u8; 104_857_601];
    let r = prepare_upload("https://x/up", "tok", "big.conda", body);
    assert!(r.is_none());
}

#[test]
fn end_to_end_delete_url() {
    let mut vars = VarSet::new();
    vars.insert("channel", "stable");
    let r = prepare_delete(
        "https://x/$channel/$subdir/$pkg",
        &vars,
        "/pkgs/linux-64/foo-1.0.tar.bz2",
        "tok",
    )
    .unwrap();
    assert_eq!(r.url, "https://x/stable/linux-64/foo-1.0.tar.bz2");
    assert_eq!(r.bearer_token, "tok");
}

#[test]
fn delete_of_registered_template() {
    let del = endpoint_template("repo.prefix.dev", Operation::Delete).unwrap();
    let r = prepare_delete(del, &base_vars(), "/pkgs/noarch/pkg-2.conda", "tok").unwrap();
    assert_eq!(r.url, "https://prefix.dev/api/v1/delete/stable/noarch/pkg-2.conda");
}

#[test]
fn delete_with_bad_path_reports_the_path_error() {
    let r = prepare_delete("https://x/$channel/$subdir/$pkg", &base_vars(), "lonely", "tok");
    assert_eq!(r.unwrap_err(), ApiError::Path(PathError::NoParent));
}

#[test]
fn delete_with_unbound_variable_reports_the_template_error() {
    let vars = VarSet::new();
    let r = prepare_delete("https://x/$channel/$subdir/$pkg", &vars, "/pkgs/noarch/p.conda", "tok");
    assert_eq!(
        r.unwrap_err(),
        ApiError::Template(TemplateError::UnboundVariable("channel".to_string()))
    );
}

#[test]
fn delete_does_not_change_the_base_vars() {
    let vars = base_vars();
    let _ = prepare_delete("https://x/$channel/$subdir/$pkg", &vars, "/pkgs/noarch/p.conda", "tok");
    assert_eq!(vars.lookup("subdir"), None);
    assert_eq!(vars.lookup("pkg"), None);
    assert_eq!(vars.lookup("channel").unwrap().as_str(), "stable");
}
