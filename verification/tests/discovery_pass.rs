use ushadow_launcher::classify::{env_name_of, is_env_backend_name};
use ushadow_launcher::discovery::{
    assemble_environment, assemble_environments, classify_containers, discover_environments,
    discovery_result, empty_discovery, leader_info_url, localhost_url, mesh_url_from_body,
    parse_container_line, parse_container_lines,
};
use ushadow_launcher::models::EnvBackend;

fn strings(items: &[&str]) -> Vec<String> {
    items.iter().map(|s| s.to_string()).collect()
}

#[test]
fn env_name_of_bare_backend_is_default() {
    assert_eq!(env_name_of("app-backend"), "default");
}

#[test]
fn env_name_of_named_backend() {
    assert_eq!(env_name_of("app-foo-backend"), "foo");
}

#[test]
fn backend_rule_accepts_prefixed_backend() {
    assert!(is_env_backend_name("app-backend"));
    assert!(is_env_backend_name("app-foo-backend"));
}

#[test]
fn backend_rule_rejects_foreign_names() {
    assert!(!is_env_backend_name("redis"));
    assert!(!is_env_backend_name("other-backend"));
    assert!(!is_env_backend_name("app-webui"));
}

#[test]
fn backend_rule_excludes_bundled_subproduct() {
    assert!(!is_env_backend_name("app-chronicle-backend"));
}

#[test]
fn env_name_of_strips_repeated_affixes() {
    assert_eq!(env_name_of("app-app-foo-backend"), "foo");
    assert_eq!(env_name_of("app-backend-2"), "backend-2");
}

#[test]
fn parse_line_splits_and_trims_fields() {
    let rec = parse_container_line(" app-backend | Up 3 hours | 0.0.0.0:8000->8000/tcp ").unwrap();
    assert_eq!(rec.name, "app-backend");
    assert!(rec.running);
    assert_eq!(rec.ports.as_deref(), Some("0.0.0.0:8000->8000/tcp"));
}

#[test]
fn parse_line_without_ports_field() {
    let rec = parse_container_line("redis|Exited (0) 2 days ago").unwrap();
    assert_eq!(rec.name, "redis");
    assert!(!rec.running);
    assert_eq!(rec.ports, None);
}

#[test]
fn parse_line_drops_malformed_lines() {
    assert!(parse_container_line("").is_none());
    assert!(parse_container_line("   ").is_none());
    assert!(parse_container_line("no delimiter here").is_none());
}

#[test]
fn parse_line_ignores_extra_fields() {
    let rec = parse_container_line("a|Up|p|extra|more").unwrap();
    assert_eq!(rec.name, "a");
    assert_eq!(rec.ports.as_deref(), Some("p"));
}

#[test]
fn parse_lines_keeps_listing_order() {
    let lines = strings(&["a|Up", "", "b|Exited"]);
    let records = parse_container_lines(&lines);
    assert_eq!(records.len(), 2);
    assert_eq!(records[0].name, "a");
    assert_eq!(records[1].name, "b");
}

#[test]
fn infra_dedup_first_match_wins() {
    let lines = strings(&["infra-redis-1|Up 2 hours|6379/tcp", "redis|Exited (0)"]);
    let records = parse_container_lines(&lines);
    let (infra, envs) = classify_containers(&records);
    assert_eq!(infra.len(), 1);
    assert_eq!(infra[0].name, "redis");
    assert_eq!(infra[0].display_name, "Redis");
    assert!(infra[0].running);
    assert_eq!(infra[0].ports.as_deref(), Some("6379/tcp"));
    assert!(envs.is_empty());
}

#[test]
fn infra_recognizes_all_suffix_forms() {
    let lines = strings(&[
        "mongo|Up|27017/tcp",
        "stack-neo4j|Up|7687/tcp",
        "stack-qdrant-1|Up|6333/tcp",
    ]);
    let (infra, _) = classify_containers(&parse_container_lines(&lines));
    let names: Vec<&str> = infra.iter().map(|s| s.name.as_str()).collect();
    assert_eq!(names, vec!["mongo", "neo4j", "qdrant"]);
}

#[test]
fn running_backend_with_port_becomes_environment() {
    let lines = strings(&["app-foo-backend|Up 10 minutes|0.0.0.0:8050->8000/tcp"]);
    let (_, envs) = classify_containers(&parse_container_lines(&lines));
    assert_eq!(envs.len(), 1);
    assert_eq!(envs[0].name, "foo");
    assert_eq!(envs[0].port, 8050);
}

#[test]
fn stopped_backend_is_invisible_to_discovery() {
    let lines = strings(&["app-foo-backend|Exited (1)|0.0.0.0:8050->8000/tcp"]);
    let (_, envs) = classify_containers(&parse_container_lines(&lines));
    assert!(envs.is_empty());
}

#[test]
fn backend_without_decodable_port_is_skipped() {
    let lines = strings(&["app-foo-backend|Up|no mappings here", "app-bar-backend|Up"]);
    let (_, envs) = classify_containers(&parse_container_lines(&lines));
    assert!(envs.is_empty());
}

#[test]
fn mesh_url_extracted_from_body() {
    let body = "{\"node\":\"n1\",\"ushadow_api_url\":\"https://node.example.ts.net:8050\",\"x\":1}";
    assert_eq!(
        mesh_url_from_body(body).as_deref(),
        Some("https://node.example.ts.net:8050")
    );
}

#[test]
fn mesh_url_absent_without_field() {
    assert_eq!(mesh_url_from_body("{\"other\":\"https://x\"}"), None);
    assert_eq!(mesh_url_from_body(""), None);
}

#[test]
fn mesh_url_needs_scheme_and_closing_quote() {
    assert_eq!(mesh_url_from_body("\"ushadow_api_url\":\"http://insecure\""), None);
    assert_eq!(mesh_url_from_body("\"ushadow_api_url\":https://unquoted"), None);
}

#[test]
fn localhost_url_names_backend_port() {
    assert_eq!(localhost_url(8050), "http://localhost:8050");
}

#[test]
fn leader_info_url_shape() {
    assert_eq!(leader_info_url(8050), "http://localhost:8050/api/unodes/leader/info");
}

#[test]
fn assembled_environment_fields() {
    let e = assemble_environment("foo", 8050, Some("https://node.ts.net".to_string()));
    assert_eq!(e.name, "foo");
    assert_eq!(e.color, "foo");
    assert_eq!(e.localhost_url, "http://localhost:8050");
    assert_eq!(e.tailscale_url.as_deref(), Some("https://node.ts.net"));
    assert_eq!(e.backend_port, 8050);
    assert_eq!(e.webui_port, Some(3050));
    assert!(e.running);
    assert!(e.tailscale_active);
}

#[test]
fn assembled_environment_without_mesh() {
    let e = assemble_environment("default", 500, None);
    assert_eq!(e.webui_port, None);
    assert_eq!(e.localhost_url, "http://localhost:500");
    assert_eq!(e.tailscale_url, None);
    assert!(!e.tailscale_active);
}

#[test]
fn assemble_environments_aligns_backends_and_meshes() {
    let backends = vec![
        EnvBackend { name: "default".to_string(), port: 8000 },
        EnvBackend { name: "foo".to_string(), port: 8050 },
    ];
    let meshes = vec![None, Some("https://node.ts.net".to_string())];
    let envs = assemble_environments(&backends, &meshes);
    assert_eq!(envs.len(), 2);
    assert_eq!(envs[0].name, "default");
    assert!(!envs[0].tailscale_active);
    assert_eq!(envs[1].name, "foo");
    assert_eq!(envs[1].tailscale_url.as_deref(), Some("https://node.ts.net"));
}

#[test]
fn empty_discovery_reports_runtime_down() {
    let r = empty_discovery(true);
    assert!(r.infrastructure.is_empty());
    assert!(r.environments.is_empty());
    assert!(!r.docker_ok);
    assert!(r.tailscale_ok);
}

#[test]
fn discovery_result_carries_flags() {
    let r = discovery_result(Vec::new(), Vec::new(), true, false);
    assert!(r.docker_ok);
    assert!(!r.tailscale_ok);
}

#[test]
fn full_discovery_pass() {
    let lines = strings(&[
        "infra-redis-1|Up 2 hours|6379/tcp",
        "app-foo-backend|Up 10 minutes|0.0.0.0:8050->8000/tcp",
        "unrelated",
    ]);
    let meshes = vec![Some("https://node.ts.net".to_string())];
    let r = discover_environments(&lines, &meshes, true, true);
    assert!(r.docker_ok);
    assert!(r.tailscale_ok);
    assert_eq!(r.infrastructure.len(), 1);
    assert_eq!(r.infrastructure[0].name, "redis");
    assert_eq!(r.environments.len(), 1);
    assert_eq!(r.environments[0].name, "foo");
    assert_eq!(r.environments[0].backend_port, 8050);
    assert_eq!(r.environments[0].webui_port, Some(3050));
    assert_eq!(r.environments[0].tailscale_url.as_deref(), Some("https://node.ts.net"));
    assert!(r.environments[0].tailscale_active);
}

#[test]
fn full_discovery_degrades_when_runtime_down() {
    let r = discover_environments(&Vec::new(), &Vec::new(), false, false);
    assert!(r.infrastructure.is_empty());
    assert!(r.environments.is_empty());
    assert!(!r.docker_ok);
    assert!(!r.tailscale_ok);
}
