use ushadow_launcher::lifecycle::{
    backend_health_ok, container_status_from_lines, create_env_plan, create_failure_message,
    create_success_message, empty_container_status, env_filter_matches, filter_env_containers,
    infra_down_plan, infra_restart_result, infra_start_result, infra_stop_result, infra_up_plan,
    mode_flag, plan_start, plan_stop, port_offset_of, start_result, stop_result, webui_health_ok,
    AppState, GroupPlan,
};

fn strings(items: &[&str]) -> Vec<String> {
    items.iter().map(|s| s.to_string()).collect()
}

#[test]
fn test_app_state_creation() {
    let state = AppState::new();
    let root = state.project_root;
    assert!(root.is_none());
}

#[test]
fn set_project_root_stores_path() {
    let mut state = AppState::new();
    state.set_project_root("/tmp/project".to_string());
    assert_eq!(state.project_root.as_deref(), Some("/tmp/project"));
    assert_eq!(state.require_root().unwrap(), "/tmp/project");
}

#[test]
fn require_root_reports_missing_configuration() {
    let state = AppState::new();
    assert_eq!(state.require_root().unwrap_err(), "Project root not set");
}

#[test]
fn default_filter_matches_role_set() {
    assert!(env_filter_matches("default", "app-backend"));
    assert!(env_filter_matches("default", "app-webui"));
    assert!(env_filter_matches("default", "app-frontend"));
    assert!(env_filter_matches("default", "app-worker"));
    assert!(env_filter_matches("default", "app-mesh-agent"));
    assert!(env_filter_matches("default", "app-backend-2"));
}

#[test]
fn default_filter_rejects_named_environments() {
    assert!(!env_filter_matches("default", "app-foo-backend"));
    assert!(!env_filter_matches("default", "redis"));
    assert!(!env_filter_matches("default", "app-other"));
}

#[test]
fn named_filter_matches_prefix() {
    assert!(env_filter_matches("foo", "app-foo-backend"));
    assert!(env_filter_matches("foo", "app-foo-webui"));
    assert!(!env_filter_matches("foo", "app-foobar-backend"));
    assert!(!env_filter_matches("foo", "app-backend"));
}

#[test]
fn filter_keeps_listing_order() {
    let names = strings(&["app-foo-webui", "redis", "app-foo-backend"]);
    let kept = filter_env_containers("foo", &names);
    assert_eq!(kept, strings(&["app-foo-webui", "app-foo-backend"]));
}

#[test]
fn start_with_no_matches_is_not_an_error() {
    let plan = plan_start("default", &strings(&[]));
    match plan {
        GroupPlan::Nothing { message } => {
            assert_eq!(message, "No stopped containers found for environment 'default'");
        }
        GroupPlan::Operate { .. } => panic!("expected a nothing-to-start outcome"),
    }
}

#[test]
fn start_plans_matched_containers() {
    let stopped = strings(&["app-foo-backend", "other", "app-foo-webui"]);
    match plan_start("foo", &stopped) {
        GroupPlan::Operate { containers } => {
            assert_eq!(containers, strings(&["app-foo-backend", "app-foo-webui"]));
        }
        GroupPlan::Nothing { .. } => panic!("expected containers to start"),
    }
}

#[test]
fn stop_with_no_matches_is_not_an_error() {
    let plan = plan_stop("bar", &strings(&["app-foo-backend"]));
    match plan {
        GroupPlan::Nothing { message } => {
            assert_eq!(message, "No containers found for environment 'bar'");
        }
        GroupPlan::Operate { .. } => panic!("expected a nothing-to-stop outcome"),
    }
}

#[test]
fn start_result_messages() {
    assert_eq!(
        start_result("foo", 3, true, "").unwrap(),
        "Environment 'foo' started (3 containers)"
    );
    assert_eq!(
        start_result("foo", 3, false, "boom").unwrap_err(),
        "Start failed: boom"
    );
}

#[test]
fn stop_result_messages() {
    assert_eq!(
        stop_result("default", 5, true, "").unwrap(),
        "Environment 'default' stopped (5 containers)"
    );
    assert_eq!(
        stop_result("default", 5, false, "nope").unwrap_err(),
        "Stop failed: nope"
    );
}

#[test]
fn infra_plans_use_compose() {
    let up = infra_up_plan("/srv/project");
    assert_eq!(up.program, "docker");
    assert_eq!(
        up.args,
        strings(&[
            "compose",
            "-f",
            "compose/docker-compose.infra.yml",
            "-p",
            "infra",
            "--profile",
            "infra",
            "up",
            "-d",
        ])
    );
    assert_eq!(up.dir.as_deref(), Some("/srv/project"));
    assert!(up.envs.is_empty());

    let down = infra_down_plan("/srv/project");
    assert_eq!(down.program, "docker");
    assert_eq!(down.args, strings(&["compose", "-p", "infra", "down"]));
}

#[test]
fn infra_results() {
    assert_eq!(infra_start_result(true, "").unwrap(), "Infrastructure started");
    assert_eq!(
        infra_start_result(false, "no daemon").unwrap_err(),
        "Infrastructure failed: no daemon"
    );
    assert_eq!(infra_stop_result(true, "").unwrap(), "Infrastructure stopped");
    assert_eq!(infra_stop_result(false, "x").unwrap_err(), "Stop failed: x");
    assert_eq!(infra_restart_result(true, "").unwrap(), "Infrastructure restarted");
    assert_eq!(infra_restart_result(false, "y").unwrap_err(), "Restart failed: y");
}

#[test]
fn mode_flag_choices() {
    assert_eq!(mode_flag(&Some("prod".to_string())), "--prod");
    assert_eq!(mode_flag(&Some("dev".to_string())), "--dev");
    assert_eq!(mode_flag(&None), "--dev");
}

#[test]
fn port_offset_from_allocated_port() {
    assert_eq!(port_offset_of(8000), 0);
    assert_eq!(port_offset_of(8010), 10);
}

#[test]
fn create_plan_carries_environment_variables() {
    let plan = create_env_plan("/srv/project", "foo", &None, 10);
    assert_eq!(plan.program, "bash");
    assert_eq!(plan.args, strings(&["start-dev.sh", "--quick", "--dev"]));
    assert_eq!(plan.dir.as_deref(), Some("/srv/project"));
    assert_eq!(plan.envs.len(), 3);
    assert_eq!(plan.envs[0].name, "ENV_NAME");
    assert_eq!(plan.envs[0].value, "foo");
    assert_eq!(plan.envs[1].name, "PORT_OFFSET");
    assert_eq!(plan.envs[1].value, "10");
    assert_eq!(plan.envs[2].name, "USHADOW_NO_BROWSER");
    assert_eq!(plan.envs[2].value, "1");
}

#[test]
fn create_plan_prod_mode() {
    let plan = create_env_plan("/srv", "x", &Some("prod".to_string()), 0);
    assert_eq!(plan.args, strings(&["start-dev.sh", "--quick", "--prod"]));
}

#[test]
fn create_failure_takes_last_nonempty_line() {
    assert_eq!(
        create_failure_message("first\nsecond error\n\n", ""),
        "Failed to start environment: second error"
    );
    assert_eq!(
        create_failure_message("", "out line\n"),
        "Failed to start environment: out line"
    );
}

#[test]
fn create_success_names_moved_ports() {
    assert_eq!(
        create_success_message("foo", 10, 8010, 3010),
        "Environment 'foo' started (ports: backend=8010, webui=3010)"
    );
    assert_eq!(create_success_message("foo", 0, 8000, 3000), "Environment 'foo' started");
}

#[test]
fn container_status_summary() {
    let lines = strings(&[
        "proj-backend-1\tUp 2 hours\t8000/tcp",
        "proj-frontend-1\tExited (0)",
        "short",
    ]);
    let status = container_status_from_lines(&lines);
    assert_eq!(status.services.len(), 2);
    assert!(status.running);
    assert!(status.backend_healthy);
    assert!(!status.frontend_healthy);
    assert_eq!(status.services[0].name, "proj-backend-1");
    assert_eq!(status.services[0].ports.as_deref(), Some("8000/tcp"));
    assert_eq!(status.services[1].ports, None);
}

#[test]
fn container_status_empty() {
    let status = empty_container_status();
    assert!(!status.running);
    assert!(!status.backend_healthy);
    assert!(!status.frontend_healthy);
    assert!(status.services.is_empty());

    let none_up = container_status_from_lines(&strings(&["a\tExited"]));
    assert!(!none_up.running);
}

#[test]
fn health_probe_codes() {
    assert!(backend_health_ok("200"));
    assert!(backend_health_ok(" 200\n"));
    assert!(!backend_health_ok("404"));
    assert!(!backend_health_ok(""));
    assert!(webui_health_ok("200"));
    assert!(webui_health_ok("301"));
    assert!(!webui_health_ok("500"));
    assert!(!webui_health_ok(""));
}
