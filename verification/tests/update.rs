use random_test_cli::update::{
    github_repo_path, installer_file_name, installer_url, latest_tag_name, next_update_step,
    release_api_url, tag_from_member, UpdateError, UpdateStep,
};

#[test]
fn extracts_github_repo_path() {
    assert_eq!(
        github_repo_path("https://github.com/manabeai/random-test-cli").unwrap(),
        "manabeai/random-test-cli"
    );
    assert_eq!(
        github_repo_path("https://github.com/manabeai/random-test-cli.git").unwrap(),
        "manabeai/random-test-cli"
    );
}

#[test]
fn reads_latest_release_tag() {
    assert_eq!(
        latest_tag_name(br#"{"tag_name":"v1.2.3"}"#).unwrap(),
        "v1.2.3"
    );
}

#[test]
fn repo_path_accepts_http_slashes_and_repeated_git() {
    assert_eq!(github_repo_path("http://github.com/a/b").unwrap(), "a/b");
    assert_eq!(github_repo_path("https://github.com//a/b///").unwrap(), "a/b");
    assert_eq!(github_repo_path("https://github.com/a/b.git.git").unwrap(), "a/b");
    assert_eq!(github_repo_path("https://github.com/a/b/tree/main").unwrap(), "a/b");
}

#[test]
fn repo_path_rejects_other_hosts_and_missing_parts() {
    for url in [
        "https://gitlab.com/a/b",
        "https://github.com/a",
        "https://github.com/",
        "https://github.com//b",
        "",
    ] {
        match github_repo_path(url) {
            Err(UpdateError::UnsupportedRepository(s)) => assert_eq!(s, url),
            other => panic!("unexpected {:?} for {}", other, url),
        }
    }
}

#[test]
fn git_suffix_law_on_examples() {
    for url in ["https://github.com/o/r", "https://github.com/o", "http://github.com/o/r/"] {
        let with_git = format!("{}.git", url);
        assert_eq!(
            github_repo_path(url).ok(),
            github_repo_path(&with_git).ok()
        );
    }
}

#[test]
fn release_reply_errors() {
    assert!(matches!(latest_tag_name(b"not json"), Err(UpdateError::ReleaseJson(_))));
    assert!(matches!(latest_tag_name(br#"{"name":"x"}"#), Err(UpdateError::MissingTagName)));
    assert!(matches!(latest_tag_name(br#"{"tag_name":5}"#), Err(UpdateError::MissingTagName)));
    assert!(matches!(latest_tag_name(b"[1,2]"), Err(UpdateError::MissingTagName)));
}

#[test]
fn tag_from_member_cases() {
    assert_eq!(tag_from_member(Ok(Some("v2".to_string()))).unwrap(), "v2");
    assert!(matches!(tag_from_member(Ok(None)), Err(UpdateError::MissingTagName)));
    let err = serde_json::from_str::<serde_json::Value>("{").unwrap_err();
    assert!(matches!(tag_from_member(Err(err)), Err(UpdateError::ReleaseJson(_))));
}

#[test]
fn update_addresses() {
    assert_eq!(
        release_api_url("o/r"),
        "https://api.github.com/repos/o/r/releases/latest"
    );
    assert_eq!(
        installer_url("o/r", "v1.0.0", "rt"),
        "https://github.com/o/r/releases/download/v1.0.0/rt-installer.sh"
    );
    assert_eq!(installer_file_name("rt", 0), "rt-installer-0.sh");
    assert_eq!(installer_file_name("rt", 4096), "rt-installer-4096.sh");
    assert_eq!(installer_file_name("x", u32::MAX), "x-installer-4294967295.sh");
}

#[test]
fn update_steps() {
    match next_update_step("o/r", "rt", "0.1.0", br#"{"tag_name":"v0.1.0"}"#).unwrap() {
        UpdateStep::UpToDate { message } => {
            assert_eq!(message, "rt is already up to date (0.1.0).")
        }
        other => panic!("unexpected {:?}", other),
    }
    match next_update_step("o/r", "rt", "0.1.0", br#"{"tag_name":"v0.2.0"}"#).unwrap() {
        UpdateStep::Install { message, installer_url } => {
            assert_eq!(message, "updating rt 0.1.0 -> v0.2.0");
            assert_eq!(
                installer_url,
                "https://github.com/o/r/releases/download/v0.2.0/rt-installer.sh"
            );
        }
        other => panic!("unexpected {:?}", other),
    }
    assert!(matches!(
        next_update_step("o/r", "rt", "0.1.0", b"{}"),
        Err(UpdateError::MissingTagName)
    ));
}
