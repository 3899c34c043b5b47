use prefix_api::artifact::{
    derive_delete_vars, plan_upload, upload_size_ok, UploadPlan, MAX_PKG_SIZE,
};
use prefix_api::errors::PathError;

#[test]
fn delete_vars_of_a_package_path() {
    let (subdir, pkg) = derive_delete_vars("/pkgs/linux-64/foo-1.0.tar.bz2").unwrap();
    assert_eq!(subdir, "linux-64");
    assert_eq!(pkg, "foo-1.0.tar.bz2");
}

#[test]
fn delete_vars_of_a_relative_path() {
    let (subdir, pkg) = derive_delete_vars("noarch/pkg-2.tar.bz2").unwrap();
    assert_eq!(subdir, "noarch");
    assert_eq!(pkg, "pkg-2.tar.bz2");
}

#[test]
fn path_without_parent_is_an_error() {
    assert_eq!(derive_delete_vars("foo-1.0.tar.bz2").unwrap_err(), PathError::NoParent);
    assert_eq!(derive_delete_vars("/foo-1.0.tar.bz2").unwrap_err(), PathError::NoParent);
}

#[test]
fn dot_or_dot_dot_parent_is_an_error() {
    assert_eq!(derive_delete_vars("./foo-1.0.tar.bz2").unwrap_err(), PathError::NoParent);
    assert_eq!(derive_delete_vars("a/../foo-1.0.tar.bz2").unwrap_err(), PathError::NoParent);
    assert_eq!(derive_delete_vars("/pkgs/./foo-1.0.tar.bz2").unwrap_err(), PathError::NoParent);
    assert_eq!(derive_delete_vars("../foo-1.0.tar.bz2").unwrap_err(), PathError::NoParent);
}

#[test]
fn path_without_file_name_is_an_error() {
    assert_eq!(derive_delete_vars("/pkgs/linux-64/").unwrap_err(), PathError::NoFileName);
}

#[test]
fn size_limit_is_one_hundred_mebibytes() {
    assert_eq!(MAX_PKG_SIZE, 104_857_600);
    assert!(upload_size_ok(MAX_PKG_SIZE));
    assert!(upload_size_ok(0));
    assert!(!upload_size_ok(MAX_PKG_SIZE + 1));
}

#[test]
fn oversized_artifact_is_skipped() {
    assert_eq!(plan_upload(MAX_PKG_SIZE + 1), UploadPlan::Skip);
    assert_eq!(plan_upload(MAX_PKG_SIZE), UploadPlan::Proceed);
    assert_eq!(plan_upload(1), UploadPlan::Proceed);
}
