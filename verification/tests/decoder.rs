use ushadow_launcher::ports::{check_ports, extract_port, find_available_ports, webui_port_for};

#[test]
fn test_extract_port_simple() {
    let ports = "0.0.0.0:8000->8000/tcp";
    assert_eq!(extract_port(ports), Some(8000));
}

#[test]
fn test_extract_port_mapped() {
    let ports = "0.0.0.0:8050->8000/tcp";
    assert_eq!(extract_port(ports), Some(8050));
}

#[test]
fn test_extract_port_multiple() {
    let ports = "0.0.0.0:3000->80/tcp, [::]:3000->80/tcp";
    assert_eq!(extract_port(ports), Some(3000));
}

#[test]
fn test_extract_port_empty() {
    assert_eq!(extract_port(""), None);
}

#[test]
fn test_extract_port_no_mapping() {
    assert_eq!(extract_port("some random text"), None);
}

#[test]
fn extract_port_first_segment_wins_over_garbage() {
    assert_eq!(extract_port("0.0.0.0:3000->80/tcp, garbage, more garbage"), Some(3000));
}

#[test]
fn extract_port_skips_unparsable_first_segment() {
    assert_eq!(extract_port("garbage, [::]:8050->8000/tcp"), Some(8050));
}

#[test]
fn extract_port_ipv6_host() {
    assert_eq!(extract_port("[::]:3000->80/tcp"), Some(3000));
}

#[test]
fn extract_port_out_of_range() {
    assert_eq!(extract_port("0.0.0.0:70000->80/tcp"), None);
}

#[test]
fn extract_port_largest_value() {
    assert_eq!(extract_port("0.0.0.0:65535->80/tcp"), Some(65535));
    assert_eq!(extract_port("0.0.0.0:65536->80/tcp"), None);
}

#[test]
fn extract_port_whitespace_around_port() {
    assert_eq!(extract_port(" 0.0.0.0: 8050 ->8000/tcp"), Some(8050));
}

#[test]
fn webui_port_from_high_backend_port() {
    assert_eq!(webui_port_for(8050), Some(3050));
}

#[test]
fn webui_port_absent_below_threshold() {
    assert_eq!(webui_port_for(500), None);
}

#[test]
fn webui_port_at_threshold() {
    assert_eq!(webui_port_for(8000), Some(3000));
}

#[test]
fn allocator_returns_defaults_when_free() {
    let pair_free = vec![true; 101];
    assert_eq!(find_available_ports(8000, 3000, &pair_free), (8000, 3000));
}

#[test]
fn allocator_moves_to_first_free_offset() {
    let mut pair_free = vec![false; 101];
    pair_free[1] = true;
    assert_eq!(find_available_ports(8000, 3000, &pair_free), (8010, 3010));
}

#[test]
fn allocator_gives_up_on_defaults() {
    let pair_free = vec![false; 101];
    assert_eq!(find_available_ports(8000, 3000, &pair_free), (8000, 3000));
}

#[test]
fn check_ports_defaults_free() {
    let pair_free = vec![false; 100];
    assert_eq!(check_ports(true, true, &pair_free), (true, true, 0));
}

#[test]
fn check_ports_offset_ten() {
    let mut pair_free = vec![false; 100];
    pair_free[0] = true;
    assert_eq!(check_ports(false, false, &pair_free), (false, false, 10));
}

#[test]
fn check_ports_no_offset_found() {
    let pair_free = vec![false; 100];
    assert_eq!(check_ports(false, true, &pair_free), (false, true, 0));
}
