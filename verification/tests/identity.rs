use duck_robot::{camera_stats_path, identity_path, join_path, release_from_path, BuildInfo, Identity};

#[test]
fn a_release_path_names_its_version() {
    assert_eq!(
        release_from_path("/opt/robot/daemon/releases/0.4.0/bin/btd"),
        Some(semver::Version::parse("0.4.0").unwrap())
    );
}

#[test]
fn a_dev_release_keeps_the_suffix_that_distinguishes_it() {
    let version = release_from_path("/opt/robot/daemon/releases/0.4.0-dev.271.7610e6e/bin/btd");
    assert_eq!(
        version,
        Some(semver::Version::parse("0.4.0-dev.271.7610e6e").unwrap())
    );
    assert!(version.unwrap() < semver::Version::parse("0.4.0").unwrap());
}

#[test]
fn a_deleted_binary_still_names_its_release() {
    assert_eq!(
        release_from_path("/opt/robot/daemon/releases/0.3.0/bin/padd (deleted)"),
        Some(semver::Version::parse("0.3.0").unwrap())
    );
}

#[test]
fn a_binary_outside_the_layout_has_no_release() {
    assert_eq!(
        release_from_path("/home/pierre/duck/target/debug/btd"),
        None
    );
    // A `releases` component whose child is not a version is not a release either.
    assert_eq!(release_from_path("/srv/releases/nightly/bin/btd"), None);
}

#[test]
fn a_failed_candidate_leaves_the_next_releases_in_play() {
    // A `releases` whose follower is not a version is passed over, and the follower may itself
    // open a `releases/<version>/`.
    assert_eq!(
        release_from_path("/a/releases/releases/1.0.0/bin"),
        Some(semver::Version::parse("1.0.0").unwrap())
    );
    assert_eq!(
        release_from_path("/releases/releases/1.0.0/bin"),
        Some(semver::Version::parse("1.0.0").unwrap())
    );
    assert_eq!(
        release_from_path("/a/releases/x/releases/1.2.3/bin"),
        Some(semver::Version::parse("1.2.3").unwrap())
    );
    assert_eq!(release_from_path("releases"), None);
    assert_eq!(release_from_path(""), None);
}

#[test]
fn build_info_is_explicit_about_an_unknown_revision() {
    let local = BuildInfo {
        version: "0.2.0",
        revision: None,
        built_at: None,
    };
    assert_eq!(local.to_string(), "0.2.0 (rev unknown, not a CI build)");

    let released = BuildInfo {
        version: "0.2.0",
        revision: Some("abc1234"),
        built_at: Some("2026-07-28T12:00:00Z"),
    };
    assert_eq!(
        released.to_string(),
        "0.2.0 (rev abc1234, built 2026-07-28T12:00:00Z)"
    );
}

#[test]
fn paths_join_as_the_filesystem_does() {
    assert_eq!(join_path("/run", "btd"), "/run/btd");
    assert_eq!(join_path("/run/", "btd"), "/run/btd");
    assert_eq!(join_path("", "btd"), "btd");
    assert_eq!(join_path("/run", "/abs"), "/abs");
    assert_eq!(identity_path("/run", "btd"), "/run/btd/identity.json");
    assert_eq!(identity_path("/tmp/x/", "padd"), "/tmp/x/padd/identity.json");
    assert_eq!(camera_stats_path(), "/run/mediad/camera.json");
}

#[test]
fn an_identity_names_its_release_through_its_exe() {
    let build = BuildInfo {
        version: "0.4.0",
        revision: Some("7610e6e"),
        built_at: None,
    };
    let identity = Identity::describe(
        "btd",
        build,
        Some("/opt/robot/daemon/releases/0.4.0/bin/btd".to_owned()),
        4242,
    );
    assert_eq!(identity.service, "btd");
    assert_eq!(identity.version, "0.4.0");
    assert_eq!(identity.revision.as_deref(), Some("7610e6e"));
    assert_eq!(identity.built_at, None);
    assert_eq!(identity.pid, 4242);
    assert_eq!(identity.release(), Some(semver::Version::parse("0.4.0").unwrap()));

    let hand_built = Identity { exe: None, ..identity.clone() };
    assert_eq!(hand_built.release(), None);
}
