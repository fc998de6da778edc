use ushadow_launcher::setup::{
    check_brew_installed, check_docker, check_git, check_prerequisites, check_project_dir,
    check_python, check_tailscale, get_brew_path, mock_docker_status, mock_git_status,
    mock_python_status, mock_tailscale_status, stash_had_changes, update_repo_result,
};

#[test]
fn docker_status_from_shell_probe() {
    let (installed, running, version) =
        check_docker(&Some("Docker version 24.0.0\n".to_string()), &Vec::new(), true);
    assert!(installed);
    assert!(running);
    assert_eq!(version.as_deref(), Some("Docker version 24.0.0"));
}

#[test]
fn docker_status_from_first_known_path() {
    let paths = vec![None, Some("Docker version 25.0.1".to_string()), None];
    let (installed, running, version) = check_docker(&None, &paths, false);
    assert!(installed);
    assert!(!running);
    assert_eq!(version.as_deref(), Some("Docker version 25.0.1"));
}

#[test]
fn docker_status_absent() {
    let (installed, running, version) = check_docker(&None, &vec![None, None, None], true);
    assert!(!installed);
    assert!(!running);
    assert_eq!(version, None);
}

#[test]
fn git_status_from_probe() {
    let (installed, version) = check_git(&Some(" git version 2.44.0 \n".to_string()));
    assert!(installed);
    assert_eq!(version.as_deref(), Some("git version 2.44.0"));
    assert_eq!(check_git(&None), (false, None));
}

#[test]
fn tailscale_status_takes_first_line() {
    let out = "1.56.0\n  tailscale commit: abc\n".to_string();
    let (installed, connected, version) = check_tailscale(&Some(out), true);
    assert!(installed);
    assert!(connected);
    assert_eq!(version.as_deref(), Some("1.56.0"));
}

#[test]
fn tailscale_status_absent() {
    assert_eq!(check_tailscale(&None, true), (false, false, None));
}

#[test]
fn python_status_prefers_modern_probe() {
    let (installed, version) = check_python(&Some("Python 3.11.0".to_string()), &None);
    assert!(installed);
    assert_eq!(version.as_deref(), Some("Python 3.11.0"));
}

#[test]
fn python_fallback_rejects_old_major_version() {
    assert_eq!(check_python(&None, &Some("Python 2.7.18".to_string())), (false, None));
    let (installed, version) = check_python(&None, &Some("Python 3.9.1\n".to_string()));
    assert!(installed);
    assert_eq!(version.as_deref(), Some("Python 3.9.1"));
}

#[test]
fn mock_statuses_report_fixed_versions() {
    let (i, r, v) = mock_docker_status(true, false);
    assert!(i && !r);
    assert_eq!(v.as_deref(), Some("Docker version 24.0.0 (MOCKED)"));
    assert_eq!(mock_docker_status(false, false).2, None);
    assert_eq!(mock_git_status(true).1.as_deref(), Some("git version 2.40.0 (MOCKED)"));
    let (ti, tc, tv) = mock_tailscale_status(true);
    assert!(ti && tc);
    assert_eq!(tv.as_deref(), Some("1.56.0 (MOCKED)"));
    assert_eq!(mock_tailscale_status(false), (false, false, None));
    assert_eq!(mock_python_status(true).1.as_deref(), Some("Python 3.11.0 (MOCKED)"));
}

#[test]
fn prerequisites_combine_statuses() {
    let status = check_prerequisites(
        (true, true, Some("Docker version 24.0.0".to_string())),
        (true, false, Some("1.56.0".to_string())),
        (true, Some("git version 2.44.0".to_string())),
    );
    assert!(status.docker_installed);
    assert!(status.docker_running);
    assert!(status.tailscale_installed);
    assert!(!status.tailscale_connected);
    assert!(status.git_installed);
    assert_eq!(status.docker_version.as_deref(), Some("Docker version 24.0.0"));
    assert_eq!(status.tailscale_version.as_deref(), Some("1.56.0"));
    assert_eq!(status.git_version.as_deref(), Some("git version 2.44.0"));
}

#[test]
fn brew_detection_prefers_shell() {
    let known = vec![false, false];
    assert!(check_brew_installed(true, &None, false, &known));
    assert_eq!(get_brew_path(true, &None, false, &known), "brew");
}

#[test]
fn brew_detection_uses_lookup_path() {
    let known = vec![false, false];
    let which = Some(" /usr/local/bin/brew \n".to_string());
    assert!(check_brew_installed(false, &which, true, &known));
    assert_eq!(get_brew_path(false, &which, true, &known), "/usr/local/bin/brew");
    assert!(!check_brew_installed(false, &which, false, &known));
    assert!(!check_brew_installed(false, &Some("  ".to_string()), true, &known));
}

#[test]
fn brew_detection_falls_back_to_known_paths() {
    assert!(check_brew_installed(false, &None, false, &vec![true, false]));
    assert_eq!(
        get_brew_path(false, &None, false, &vec![true, false]),
        "/opt/homebrew/bin/brew"
    );
    assert_eq!(
        get_brew_path(false, &None, false, &vec![false, true]),
        "/usr/local/bin/brew"
    );
    assert!(!check_brew_installed(false, &None, false, &vec![false, false]));
    assert_eq!(get_brew_path(false, &None, false, &vec![false, false]), "brew");
}

#[test]
fn project_dir_report() {
    let status = check_project_dir("/srv/project".to_string(), true, true, true, true);
    assert_eq!(status.path.as_deref(), Some("/srv/project"));
    assert!(status.exists);
    assert!(status.is_valid_repo);

    let missing = check_project_dir("/nowhere".to_string(), false, true, true, true);
    assert!(!missing.exists);
    assert!(!missing.is_valid_repo);

    let incomplete = check_project_dir("/srv/other".to_string(), true, true, false, true);
    assert!(incomplete.exists);
    assert!(!incomplete.is_valid_repo);
}

#[test]
fn stash_detection() {
    assert!(stash_had_changes(true, "Saved working directory"));
    assert!(!stash_had_changes(true, "No local changes to save"));
    assert!(!stash_had_changes(false, "anything"));
}

#[test]
fn update_results() {
    assert_eq!(
        update_repo_result(false, false, "", "conflict", false, "").unwrap_err(),
        "Git pull failed: conflict"
    );
    assert_eq!(
        update_repo_result(true, true, "Already up to date.\n", "", false, "pop conflict")
            .unwrap_err(),
        "Update pulled but failed to restore local changes: pop conflict. Your changes are in git stash."
    );
    assert_eq!(
        update_repo_result(true, true, "Fast-forward\n", "", true, "").unwrap(),
        "Updated and restored local changes. Fast-forward"
    );
    assert_eq!(
        update_repo_result(false, true, "Already up to date.\n", "", true, "").unwrap(),
        "Updated: Already up to date."
    );
}
