use dioxus_support::fullstack::{push_feature, FullstackServerEnvGuard, FullstackWebEnvGuard};

#[test]
fn feature_added_to_missing_list() {
    let mut features = None;
    push_feature(&mut features, "web".to_string());
    assert_eq!(features, Some(vec!["web".to_string()]));
}

#[test]
fn feature_appended_to_list() {
    let mut features = Some(vec!["a".to_string()]);
    push_feature(&mut features, "server".to_string());
    assert_eq!(features, Some(vec!["a".to_string(), "server".to_string()]));
}

#[test]
fn web_guard_debug_build() {
    let (mut guard, set) = FullstackWebEnvGuard::new(false, false, Some("-Dwarnings".to_string()));
    assert_eq!(set.as_deref(), Some("-Dwarnings -C debuginfo=none -C strip=debuginfo -C debug-assertions"));
    assert_eq!(guard.restore().as_deref(), Some("-Dwarnings"));
    assert_eq!(guard.restore(), None);
}

#[test]
fn web_guard_release_unset() {
    let (mut guard, set) = FullstackWebEnvGuard::new(false, true, None);
    assert_eq!(set.as_deref(), Some(" -C debuginfo=none -C strip=debuginfo"));
    assert_eq!(guard.restore().as_deref(), Some(""));
}

#[test]
fn web_guard_forced_debug() {
    let (mut guard, set) = FullstackWebEnvGuard::new(true, false, Some("x".to_string()));
    assert_eq!(set, None);
    assert_eq!(guard.restore(), None);
}

#[test]
fn server_guard_flags() {
    let (mut guard, set) = FullstackServerEnvGuard::new(false, false, Some("x".to_string()));
    assert_eq!(set.as_deref(), Some("x -C opt-level=2  -C debug-assertions"));
    assert_eq!(guard.restore().as_deref(), Some("x"));
    let (_, set) = FullstackServerEnvGuard::new(false, true, Some("x".to_string()));
    assert_eq!(set.as_deref(), Some("x -C opt-level=2 "));
    let (mut guard, set) = FullstackServerEnvGuard::new(true, true, None);
    assert_eq!(set, None);
    assert_eq!(guard.restore(), None);
}

#[test]
fn guard_flags_match_formatting() {
    for release in [false, true] {
        let old = "-C target-cpu=native";
        let debug_assertions = if release { "" } else { " -C debug-assertions" };
        let (_, web) = FullstackWebEnvGuard::new(false, release, Some(old.to_string()));
        assert_eq!(web, Some(format!("{old} -C debuginfo=none -C strip=debuginfo{debug_assertions}")));
        let (_, server) = FullstackServerEnvGuard::new(false, release, Some(old.to_string()));
        assert_eq!(server, Some(format!("{old} -C opt-level=2 {debug_assertions}")));
    }
}
