use prefix_api::vars::{base_vars, VarSet};

#[test]
fn lookup_finds_inserted_bindings() {
    let mut v = VarSet::new();
    assert_eq!(v.lookup("repo"), None);
    v.insert("repo", "repo.prefix.dev");
    v.insert("channel", "stable");
    assert_eq!(v.lookup("repo").unwrap().as_str(), "repo.prefix.dev");
    assert_eq!(v.lookup("channel").unwrap().as_str(), "stable");
    assert_eq!(v.lookup("token"), None);
}

#[test]
fn later_insert_shadows_earlier() {
    let mut v = VarSet::new();
    v.insert("a", "one");
    v.insert("a", "two");
    assert_eq!(v.lookup("a").unwrap().as_str(), "two");
}

#[test]
fn duplicate_is_an_independent_copy() {
    let mut v = base_vars("repo.prefix.dev", "tok", "stable");
    let mut copy = v.duplicate();
    copy.insert("subdir", "linux-64");
    assert_eq!(v.lookup("subdir"), None);
    assert_eq!(copy.lookup("subdir").unwrap().as_str(), "linux-64");
    v.insert("pkg", "p.conda");
    assert_eq!(copy.lookup("pkg"), None);
}

#[test]
fn base_vars_hold_the_three_operation_variables() {
    let v = base_vars("repo.prefix.dev", "tok", "stable");
    assert_eq!(v.lookup("repo").unwrap().as_str(), "repo.prefix.dev");
    assert_eq!(v.lookup("token").unwrap().as_str(), "tok");
    assert_eq!(v.lookup("channel").unwrap().as_str(), "stable");
}
