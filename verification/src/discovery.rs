//! The discovery pass: parsing the runtime's tabular listing output into
//! container records, folding the records into infrastructure services and
//! environment backends, extracting a mesh-reachable URL from a leader-info
//! response body, and assembling full environment descriptors.

use vstd::prelude::*;
use vstd::string::*;
use crate::classify::{
    classify_infra, env_name_of, env_name_spec, infra_displays, infra_key_index, infra_keys,
    is_env_backend, is_env_backend_name,
};
use crate::models::{
    ContainerRecord, ContainerRecordView, DiscoveryResult, EnvBackend, EnvBackendView,
    InfraService, InfraServiceView, UshadowEnvironment, UshadowEnvironmentView,
};
use crate::ports::{extract_port, extract_port_spec};
use crate::text::{
    contains_seq, contains_sub, dec_spec, find_char, find_char_from, find_seq_from, find_sub_from,
    lemma_find_char_from, lemma_find_seq_from, push_u16, str_eq, trim, trim_spec,
};

verus! {

/// The parsed record of one listing line: the line is trimmed and split on
/// the column delimiter; a line with fewer than two fields is dropped; each
/// field is trimmed; the record counts as running exactly when its status
/// field mentions `Up`; the third field, when present, is the raw
/// port-mapping text.
pub open spec fn record_of_line(l: Seq<char>) -> Option<ContainerRecordView> {
    let t = trim_spec(l);
    match find_char_from(t, '|', 0) {
        None => None,
        Some(i) => {
            let name = trim_spec(t.subrange(0, i as int));
            let status = match find_char_from(t, '|', (i + 1) as nat) {
                None => trim_spec(t.subrange(i + 1 as int, t.len() as int)),
                Some(j) => trim_spec(t.subrange(i + 1 as int, j as int)),
            };
            let ports = match find_char_from(t, '|', (i + 1) as nat) {
                None => None,
                Some(j) => Some(
                    trim_spec(
                        match find_char_from(t, '|', (j + 1) as nat) {
                            None => t.subrange(j + 1 as int, t.len() as int),
                            Some(k) => t.subrange(j + 1 as int, k as int),
                        },
                    ),
                ),
            };
            Some(
                ContainerRecordView {
                    name: name,
                    running: contains_seq(status, "Up"@),
                    ports: ports,
                },
            )
        },
    }
}

/// Parse one line of the runtime's listing output.
pub fn parse_container_line(line: &str) -> (r: Option<ContainerRecord>)
    ensures
        match r {
            Some(rec) => record_of_line(line@) == Some(rec@),
            None => record_of_line(line@) is None,
        },
{
    let t = trim(line);
    let tlen = t.unicode_len();
    match find_char(t, '|', 0) {
        None => None,
        Some(i) => {
            proof {
                lemma_find_char_from(t@, '|', 0);
            }
            let name = String::from_str(trim(t.substring_char(0, i)));
            let second = find_char(t, '|', i + 1);
            proof {
                lemma_find_char_from(t@, '|', (i + 1) as nat);
            }
            let status = match second {
                None => String::from_str(trim(t.substring_char(i + 1, tlen))),
                Some(j) => String::from_str(trim(t.substring_char(i + 1, j))),
            };
            let ports = match second {
                None => None,
                Some(j) => {
                    proof {
                        lemma_find_char_from(t@, '|', (j + 1) as nat);
                    }
                    let third = match find_char(t, '|', j + 1) {
                        None => t.substring_char(j + 1, tlen),
                        Some(k) => t.substring_char(j + 1, k),
                    };
                    Some(String::from_str(trim(third)))
                },
            };
            let running = contains_sub(status.as_str(), "Up");
            Some(ContainerRecord { name, running, ports })
        },
    }
}

/// The records of a whole listing, in order, with unparsable lines
/// dropped.
pub open spec fn records_of_lines(ls: Seq<Seq<char>>) -> Seq<ContainerRecordView>
    decreases ls.len(),
{
    if ls.len() == 0 {
        Seq::empty()
    } else {
        match record_of_line(ls.last()) {
            Some(rec) => records_of_lines(ls.drop_last()).push(rec),
            None => records_of_lines(ls.drop_last()),
        }
    }
}

/// Parse every line of the runtime's listing output, dropping lines that
/// do not form a record.
pub fn parse_container_lines(lines: &Vec<String>) -> (r: Vec<ContainerRecord>)
    ensures
        r.deep_view() == records_of_lines(lines.deep_view()),
{
    let mut out: Vec<ContainerRecord> = Vec::new();
    let mut idx: usize = 0;
    proof {
        assert(lines.deep_view().take(0) =~= Seq::<Seq<char>>::empty());
    }
    while idx < lines.len()
        invariant
            0 <= idx <= lines@.len(),
            out.deep_view() == records_of_lines(lines.deep_view().take(idx as int)),
        decreases lines@.len() - idx,
    {
        let ghost prefix = lines.deep_view().take(idx as int);
        let ghost next_prefix = lines.deep_view().take(idx + 1);
        proof {
            assert(next_prefix.drop_last() =~= prefix);
            assert(next_prefix.last() == lines.deep_view()[idx as int]);
        }
        match parse_container_line(lines[idx].as_str()) {
            Some(rec) => {
                out.push(rec);
                proof {
                    assert(out.deep_view() =~= records_of_lines(next_prefix));
                }
            },
            None => {},
        }
        idx += 1;
    }
    proof {
        assert(lines.deep_view().take(lines@.len() as int) =~= lines.deep_view());
    }
    out
}

/// Whether the accumulated services already hold an entry for `key`.
pub open spec fn has_infra_key(s: Seq<InfraServiceView>, key: Seq<char>) -> bool {
    exists|j: int| 0 <= j < s.len() && s[j].name == key
}

/// The service entry built from the table row `k` and the record `r`.
pub open spec fn infra_entry(k: int, r: ContainerRecordView) -> InfraServiceView {
    InfraServiceView {
        name: infra_keys()[k],
        display_name: infra_displays()[k],
        running: r.running,
        ports: r.ports,
    }
}

/// The infrastructure services found in one pass over the records: each
/// record contributes its first matching key, deduplicated so that the
/// first record seen for a key wins.
pub open spec fn infra_pass(rs: Seq<ContainerRecordView>) -> Seq<InfraServiceView>
    decreases rs.len(),
{
    if rs.len() == 0 {
        Seq::empty()
    } else {
        let prev = infra_pass(rs.drop_last());
        let r = rs.last();
        match infra_key_index(r.name) {
            Some(k) => if !has_infra_key(prev, infra_keys()[k]) {
                prev.push(infra_entry(k, r))
            } else {
                prev
            },
            None => prev,
        }
    }
}

/// The running environment backends found in one pass over the records: a
/// record contributes when the backend naming rule accepts it, it is
/// running, and a port can be decoded from its port-mapping text.
pub open spec fn env_pass(rs: Seq<ContainerRecordView>) -> Seq<EnvBackendView>
    decreases rs.len(),
{
    if rs.len() == 0 {
        Seq::empty()
    } else {
        let prev = env_pass(rs.drop_last());
        let r = rs.last();
        if is_env_backend(r.name) && r.ports is Some && extract_port_spec(r.ports->0) is Some
            && r.running {
            prev.push(
                EnvBackendView {
                    name: env_name_spec(r.name),
                    port: extract_port_spec(r.ports->0)->Some_0,
                },
            )
        } else {
            prev
        }
    }
}

/// Whether the accumulated services already hold an entry for `key`.
fn has_infra_key_exec(s: &Vec<InfraService>, key: &str) -> (r: bool)
    ensures
        r == has_infra_key(s.deep_view(), key@),
{
    let mut j: usize = 0;
    while j < s.len()
        invariant
            0 <= j <= s@.len(),
            forall|i: int| 0 <= i < j ==> s.deep_view()[i].name != key@,
        decreases s@.len() - j,
    {
        if str_eq(s[j].name.as_str(), key) {
            proof {
                assert(s.deep_view()[j as int] == s@[j as int].deep_view());
            }
            return true;
        }
        proof {
            assert(s.deep_view()[j as int] == s@[j as int].deep_view());
        }
        j += 1;
    }
    false
}

/// A copy of an optional string.
fn copy_opt_string(o: &Option<String>) -> (r: Option<String>)
    ensures
        r.deep_view() == o.deep_view(),
{
    match o {
        Some(s) => Some(String::from_str(s.as_str())),
        None => None,
    }
}

/// One pass over the parsed records: the infrastructure services,
/// deduplicated by key with the first match winning, and the running
/// environment backends with their decoded ports, in listing order.
pub fn classify_containers(records: &Vec<ContainerRecord>) -> (r: (
    Vec<InfraService>,
    Vec<EnvBackend>,
))
    ensures
        r.0.deep_view() == infra_pass(records.deep_view()),
        r.1.deep_view() == env_pass(records.deep_view()),
{
    let mut infra: Vec<InfraService> = Vec::new();
    let mut envs: Vec<EnvBackend> = Vec::new();
    let mut idx: usize = 0;
    proof {
        assert(records.deep_view().take(0) =~= Seq::<ContainerRecordView>::empty());
    }
    while idx < records.len()
        invariant
            0 <= idx <= records@.len(),
            infra.deep_view() == infra_pass(records.deep_view().take(idx as int)),
            envs.deep_view() == env_pass(records.deep_view().take(idx as int)),
        decreases records@.len() - idx,
    {
        let ghost prefix = records.deep_view().take(idx as int);
        let ghost next_prefix = records.deep_view().take(idx + 1);
        proof {
            assert(next_prefix.drop_last() =~= prefix);
            assert(next_prefix.last() == records.deep_view()[idx as int]);
        }
        let rec = &records[idx];
        match classify_infra(rec.name.as_str()) {
            Some(kd) => {
                if !has_infra_key_exec(&infra, kd.0) {
                    let entry = InfraService {
                        name: String::from_str(kd.0),
                        display_name: String::from_str(kd.1),
                        running: rec.running,
                        ports: copy_opt_string(&rec.ports),
                    };
                    infra.push(entry);
                    proof {
                        let k = infra_key_index(rec@.name)->Some_0;
                        assert(infra.deep_view() =~= infra_pass(prefix).push(infra_entry(k, rec@)));
                    }
                }
            },
            None => {},
        }
        if is_env_backend_name(rec.name.as_str()) && rec.running {
            match &rec.ports {
                Some(ports_str) => {
                    match extract_port(ports_str.as_str()) {
                        Some(port) => {
                            let backend = EnvBackend { name: env_name_of(rec.name.as_str()), port };
                            envs.push(backend);
                            proof {
                                assert(envs.deep_view() =~= env_pass(prefix).push(
                                    EnvBackendView {
                                        name: env_name_spec(rec@.name),
                                        port: extract_port_spec(rec@.ports->0)->Some_0,
                                    },
                                ));
                            }
                        },
                        None => {},
                    }
                },
                None => {},
            }
        }
        proof {
            assert(infra.deep_view() == infra_pass(next_prefix));
            assert(envs.deep_view() == env_pass(next_prefix));
        }
        idx += 1;
    }
    proof {
        assert(records.deep_view().take(records@.len() as int) =~= records.deep_view());
    }
    (infra, envs)
}

/// The JSON field whose value carries the mesh-reachable URL.
pub open spec fn mesh_field() -> Seq<char> {
    "ushadow_api_url"@
}

/// The scheme prefix every mesh URL starts with.
pub open spec fn https_prefix() -> Seq<char> {
    "https://"@
}

/// The mesh URL found in one comma-segment of the response body: when the
/// segment mentions the field, the text from the first `https://` up to
/// the next double quote.
pub open spec fn segment_mesh_url(seg: Seq<char>) -> Option<Seq<char>> {
    if contains_seq(seg, mesh_field()) {
        match find_seq_from(seg, https_prefix(), 0) {
            Some(h) => {
                let rest = seg.subrange(h as int, seg.len() as int);
                match find_char_from(rest, '"', 0) {
                    Some(e) => Some(rest.subrange(0, e as int)),
                    None => None,
                }
            },
            None => None,
        }
    } else {
        None
    }
}

/// The mesh URL found in a leader-info response body, scanned as raw text:
/// the first comma-segment that yields a URL wins.
pub open spec fn mesh_url_spec(s: Seq<char>) -> Option<Seq<char>>
    decreases s.len(),
{
    match find_char_from(s, ',', 0) {
        None => segment_mesh_url(s),
        Some(i) => if i < s.len() {
            match segment_mesh_url(s.subrange(0, i as int)) {
                Some(u) => Some(u),
                None => mesh_url_spec(s.subrange(i + 1 as int, s.len() as int)),
            }
        } else {
            segment_mesh_url(s)
        },
    }
}

/// The mesh URL of one comma-segment.
fn segment_mesh_url_exec(seg: &str) -> (r: Option<String>)
    ensures
        r.deep_view() == segment_mesh_url(seg@),
{
    if !contains_sub(seg, "ushadow_api_url") {
        return None;
    }
    match find_sub_from(seg, "https://", 0) {
        Some(h) => {
            proof {
                lemma_find_seq_from(seg@, "https://"@, 0);
            }
            let slen = seg.unicode_len();
            let rest = seg.substring_char(h, slen);
            match find_char(rest, '"', 0) {
                Some(e) => {
                    proof {
                        lemma_find_char_from(rest@, '"', 0);
                    }
                    Some(String::from_str(rest.substring_char(0, e)))
                },
                None => None,
            }
        },
        None => None,
    }
}

/// Extract the mesh-reachable URL from a leader-info response body.
/// Returns `None` when the body does not carry one; absence is an unmet
/// precondition, not an error.
pub fn mesh_url_from_body(body: &str) -> (r: Option<String>)
    ensures
        r.deep_view() == mesh_url_spec(body@),
    decreases body@.len(),
{
    match find_char(body, ',', 0) {
        None => segment_mesh_url_exec(body),
        Some(i) => {
            proof {
                lemma_find_char_from(body@, ',', 0);
            }
            let len = body.unicode_len();
            let seg = body.substring_char(0, i);
            match segment_mesh_url_exec(seg) {
                Some(u) => Some(u),
                None => mesh_url_from_body(body.substring_char(i + 1, len)),
            }
        },
    }
}

/// The local URL of an environment's backend port.
pub open spec fn localhost_url_spec(port: u16) -> Seq<char> {
    "http://localhost:"@ + dec_spec(port as nat)
}

/// The URL of the well-known leader-info path on a local backend port.
pub open spec fn leader_info_url_spec(port: u16) -> Seq<char> {
    "http://localhost:"@ + dec_spec(port as nat) + "/api/unodes/leader/info"@
}

/// The local URL of a backend port.
pub fn localhost_url(port: u16) -> (r: String)
    ensures
        r@ == localhost_url_spec(port),
{
    let mut s = String::from_str("http://localhost:");
    push_u16(&mut s, port);
    s
}

/// The URL the mesh endpoint resolver probes for a backend port.
pub fn leader_info_url(port: u16) -> (r: String)
    ensures
        r@ == leader_info_url_spec(port),
{
    let mut s = String::from_str("http://localhost:");
    push_u16(&mut s, port);
    s.append("/api/unodes/leader/info");
    s
}

/// The environment descriptor assembled from a backend and the outcome of
/// its mesh probe: the local URL addresses the backend port, the companion
/// web port sits five thousand below a backend port of at least eight
/// thousand, and the mesh is active exactly when a mesh URL was resolved.
pub open spec fn env_view_of(name: Seq<char>, port: u16, mesh: Option<Seq<char>>)
    -> UshadowEnvironmentView {
    UshadowEnvironmentView {
        name: name,
        color: name,
        localhost_url: localhost_url_spec(port),
        tailscale_url: mesh,
        backend_port: port,
        webui_port: if port >= 8000 {
            Some((port - 5000) as u16)
        } else {
            None
        },
        running: true,
        tailscale_active: mesh is Some,
    }
}

/// Assemble one environment descriptor.
pub fn assemble_environment(name: &str, port: u16, mesh: Option<String>) -> (e: UshadowEnvironment)
    ensures
        e@ == env_view_of(name@, port, mesh.deep_view()),
{
    let active = mesh.is_some();
    let webui_port = if port >= 8000 {
        Some(port - 5000)
    } else {
        None
    };
    UshadowEnvironment {
        name: String::from_str(name),
        color: String::from_str(name),
        localhost_url: localhost_url(port),
        tailscale_url: mesh,
        backend_port: port,
        webui_port,
        running: true,
        tailscale_active: active,
    }
}

/// The environments assembled from the backends and the aligned outcomes
/// of their mesh probes.
pub open spec fn assemble_spec(backends: Seq<EnvBackendView>, meshes: Seq<Option<Seq<char>>>)
    -> Seq<UshadowEnvironmentView> {
    Seq::new(backends.len(), |i: int| env_view_of(backends[i].name, backends[i].port, meshes[i]))
}

/// Assemble the environment list from the discovered backends and the
/// outcomes of their mesh probes, in listing order.
pub fn assemble_environments(backends: &Vec<EnvBackend>, meshes: &Vec<Option<String>>) -> (r: Vec<
    UshadowEnvironment,
>)
    requires
        backends@.len() == meshes@.len(),
    ensures
        r.deep_view() == assemble_spec(backends.deep_view(), meshes.deep_view()),
{
    let mut out: Vec<UshadowEnvironment> = Vec::new();
    let mut idx: usize = 0;
    while idx < backends.len()
        invariant
            0 <= idx <= backends@.len(),
            backends@.len() == meshes@.len(),
            out.deep_view().len() == idx,
            forall|i: int| 0 <= i < idx ==> out.deep_view()[i] == env_view_of(
                backends.deep_view()[i].name,
                backends.deep_view()[i].port,
                meshes.deep_view()[i],
            ),
        decreases backends@.len() - idx,
    {
        let b = &backends[idx];
        let mesh = copy_opt_string(&meshes[idx]);
        let e = assemble_environment(b.name.as_str(), b.port, mesh);
        proof {
            assert(backends.deep_view()[idx as int] == backends@[idx as int].deep_view());
            assert(meshes.deep_view()[idx as int] == meshes@[idx as int].deep_view());
        }
        let ghost pre_elems = out@;
        let ghost pre_dv = out.deep_view();
        out.push(e);
        proof {
            assert(out.deep_view()[idx as int] == e@);
            assert(b.name@ == backends.deep_view()[idx as int].name);
            assert(b.port == backends.deep_view()[idx as int].port);
            assert(out.deep_view()[idx as int] == env_view_of(
                backends.deep_view()[idx as int].name,
                backends.deep_view()[idx as int].port,
                meshes.deep_view()[idx as int],
            ));
            assert forall|i: int| 0 <= i < idx + 1 implies out.deep_view()[i] == env_view_of(
                backends.deep_view()[i].name,
                backends.deep_view()[i].port,
                meshes.deep_view()[i],
            ) by {
                if i < idx {
                    assert(out@[i] == pre_elems[i]);
                    assert(out.deep_view()[i] == out@[i].deep_view());
                    assert(pre_dv[i] == pre_elems[i].deep_view());
                    assert(out.deep_view()[i] == pre_dv[i]);
                }
            }
        }
        idx += 1;
    }
    proof {
        assert(out.deep_view() =~= assemble_spec(backends.deep_view(), meshes.deep_view()));
    }
    out
}

/// The degraded snapshot returned when the runtime is unreachable: no
/// services, no environments, the runtime flag down.
pub fn empty_discovery(tailscale_ok: bool) -> (r: DiscoveryResult)
    ensures
        r@.infrastructure.len() == 0,
        r@.environments.len() == 0,
        r@.docker_ok == false,
        r@.tailscale_ok == tailscale_ok,
{
    DiscoveryResult {
        infrastructure: Vec::new(),
        environments: Vec::new(),
        docker_ok: false,
        tailscale_ok,
    }
}

/// The snapshot of a completed discovery pass.
pub fn discovery_result(
    infrastructure: Vec<InfraService>,
    environments: Vec<UshadowEnvironment>,
    docker_ok: bool,
    tailscale_ok: bool,
) -> (r: DiscoveryResult)
    ensures
        r@.infrastructure == infrastructure.deep_view(),
        r@.environments == environments.deep_view(),
        r@.docker_ok == docker_ok,
        r@.tailscale_ok == tailscale_ok,
{
    DiscoveryResult { infrastructure, environments, docker_ok, tailscale_ok }
}

/// One whole discovery pass over the observed state: when the runtime is
/// reachable, parse its listing, classify the records, and assemble the
/// environments from the backends and the aligned outcomes of their mesh
/// probes; when it is not, degrade to the empty snapshot with the flag
/// down rather than fail.
pub fn discover_environments(
    lines: &Vec<String>,
    meshes: &Vec<Option<String>>,
    docker_ok: bool,
    tailscale_ok: bool,
) -> (r: DiscoveryResult)
    requires
        docker_ok ==> meshes@.len() == env_pass(records_of_lines(lines.deep_view())).len(),
    ensures
        docker_ok ==> r@.infrastructure == infra_pass(records_of_lines(lines.deep_view())),
        docker_ok ==> r@.environments == assemble_spec(
            env_pass(records_of_lines(lines.deep_view())),
            meshes.deep_view(),
        ),
        !docker_ok ==> r@.infrastructure.len() == 0 && r@.environments.len() == 0,
        r@.docker_ok == docker_ok,
        r@.tailscale_ok == tailscale_ok,
{
    if !docker_ok {
        return empty_discovery(tailscale_ok);
    }
    let records = parse_container_lines(lines);
    let (infrastructure, backends) = classify_containers(&records);
    let environments = assemble_environments(&backends, meshes);
    discovery_result(infrastructure, environments, docker_ok, tailscale_ok)
}

/// Law: within one pass the infrastructure keys are unique.  However many
/// containers designate the same service, the pass keeps exactly one entry
/// per key — the first container seen wins and later ones are ignored.
pub proof fn lemma_infra_keys_unique(rs: Seq<ContainerRecordView>)
    ensures
        forall|i: int, j: int|
            0 <= i < j < infra_pass(rs).len() ==> infra_pass(rs)[i].name != infra_pass(rs)[j].name,
    decreases rs.len(),
{
    if rs.len() == 0 {
    } else {
        lemma_infra_keys_unique(rs.drop_last());
        let prev = infra_pass(rs.drop_last());
        let whole = infra_pass(rs);
        assert forall|i: int, j: int| 0 <= i < j < whole.len() implies whole[i].name
            != whole[j].name by {
            if j < prev.len() {
                assert(whole[i] == prev[i]);
                assert(whole[j] == prev[j]);
            } else {
                match infra_key_index(rs.last().name) {
                    Some(k) => {
                        if !has_infra_key(prev, infra_keys()[k]) {
                            assert(whole[i] == prev[i]);
                            assert(whole[j].name == infra_keys()[k]);
                            assert(!(0 <= i < prev.len() && prev[i].name == infra_keys()[k]));
                        }
                    },
                    None => {},
                }
            }
        }
    }
}

} // verus!
