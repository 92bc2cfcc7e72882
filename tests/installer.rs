use zed_angular::installer::{AngularExtension, InstallAction, InstallStatus};

const P: &str = "P";

fn some(v: &str) -> Option<String> {
    Some(v.to_string())
}

fn is_ok_finish(a: &InstallAction) -> bool {
    matches!(a, InstallAction::Finish(Ok(())))
}

#[test]
fn new_session_verifies_nothing() {
    let ext = AngularExtension::new();
    assert!(!ext.is_verified(P));
    assert!(!ext.is_verified(""));
}

#[test]
fn fast_path_after_success() {
    let mut ext = AngularExtension::new();
    let installed = Ok(some("1.0.0"));
    assert!(matches!(ext.on_installed_version(P, &installed), InstallAction::QueryLatest));
    let a = ext.on_latest_version(P, &some("1.0.0"), &Ok("1.0.0".to_string()));
    assert!(is_ok_finish(&a));
    assert!(ext.is_verified(P));
    // A second call stops after the installed-version query.
    let a = ext.on_installed_version(P, &Ok(some("1.0.0")));
    assert!(is_ok_finish(&a));
    assert_eq!(a.status(), None);
}

#[test]
fn fast_path_needs_an_installed_version() {
    let mut ext = AngularExtension::new();
    let a = ext.on_latest_version(P, &some("1.1.0"), &Ok("1.1.0".to_string()));
    assert!(is_ok_finish(&a));
    assert!(matches!(ext.on_installed_version(P, &Ok(None)), InstallAction::QueryLatest));
}

#[test]
fn upgrade_needed_path() {
    let mut ext = AngularExtension::new();
    let installed = some("1.0.0");
    let a = ext.on_installed_version(P, &Ok(installed.clone()));
    assert!(matches!(a, InstallAction::QueryLatest));
    assert_eq!(a.status(), Some(InstallStatus::CheckingForUpdate));
    let a = ext.on_latest_version(P, &installed, &Ok("1.1.0".to_string()));
    match &a {
        InstallAction::Install(v) => assert_eq!(v, "1.1.0"),
        other => panic!("expected an install, got {:?}", other),
    }
    assert_eq!(a.status(), Some(InstallStatus::Downloading));
    assert!(!ext.is_verified(P));
    let a = ext.on_install_result(P, &installed, &Ok(()));
    assert!(is_ok_finish(&a));
    assert!(ext.is_verified(P));
}

#[test]
fn no_op_when_current() {
    let mut ext = AngularExtension::new();
    let installed = some("1.1.0");
    assert!(matches!(ext.on_installed_version(P, &Ok(installed.clone())), InstallAction::QueryLatest));
    let a = ext.on_latest_version(P, &installed, &Ok("1.1.0".to_string()));
    assert!(is_ok_finish(&a));
    assert!(ext.is_verified(P));
}

#[test]
fn graceful_degrade() {
    let mut ext = AngularExtension::new();
    let installed = some("1.0.0");
    let a = ext.on_latest_version(P, &installed, &Ok("1.1.0".to_string()));
    assert!(matches!(a, InstallAction::Install(ref v) if v == "1.1.0"));
    let a = ext.on_install_result(P, &installed, &Err("network down".to_string()));
    assert!(is_ok_finish(&a));
    assert!(ext.is_verified(P));
}

#[test]
fn mandatory_install_failure() {
    let mut ext = AngularExtension::new();
    assert!(matches!(ext.on_installed_version(P, &Ok(None)), InstallAction::QueryLatest));
    let a = ext.on_latest_version(P, &None, &Ok("1.1.0".to_string()));
    assert!(matches!(a, InstallAction::Install(ref v) if v == "1.1.0"));
    let a = ext.on_install_result(P, &None, &Err("install failed".to_string()));
    match a {
        InstallAction::Finish(Err(e)) => assert_eq!(e, "install failed"),
        other => panic!("expected the install error, got {:?}", other),
    }
    assert!(!ext.is_verified(P));
}

#[test]
fn latest_query_failure_with_stale_copy() {
    let mut ext = AngularExtension::new();
    let installed = some("1.0.0");
    assert!(matches!(ext.on_installed_version(P, &Ok(installed.clone())), InstallAction::QueryLatest));
    let a = ext.on_latest_version(P, &installed, &Err("registry unreachable".to_string()));
    match a {
        InstallAction::Finish(Err(e)) => assert_eq!(e, "registry unreachable"),
        other => panic!("expected the query error, got {:?}", other),
    }
    assert!(!ext.is_verified(P));
}

#[test]
fn installed_query_failure_propagates() {
    let mut ext = AngularExtension::new();
    ext.on_latest_version(P, &some("1.0.0"), &Ok("1.0.0".to_string()));
    let a = ext.on_installed_version(P, &Err("bad environment".to_string()));
    match a {
        InstallAction::Finish(Err(e)) => assert_eq!(e, "bad environment"),
        other => panic!("expected the query error, got {:?}", other),
    }
}

#[test]
fn sessions_are_independent() {
    let mut first = AngularExtension::new();
    let second = AngularExtension::new();
    first.on_install_result(P, &None, &Ok(()));
    assert!(first.is_verified(P));
    assert!(!second.is_verified(P));
    assert!(!first.is_verified("Q"));
}

#[test]
fn verifying_twice_keeps_package() {
    let mut ext = AngularExtension::new();
    ext.on_install_result(P, &None, &Ok(()));
    ext.on_install_result("Q", &some("2.0.0"), &Err("x".to_string()));
    ext.on_install_result(P, &None, &Ok(()));
    assert!(ext.is_verified(P));
    assert!(ext.is_verified("Q"));
}
