//! The lifecycle orchestrator: the injected configuration context, the
//! name filter that groups containers by environment, the plans for the
//! runtime commands a grouped operation issues, and the mapping from each
//! command's observed outcome to the result reported to the caller.
//!
//! The orchestrator holds no state of its own: which containers exist and
//! whether they run is inferred fresh on every call from the runtime's own
//! listing, which the unverified shell passes in as plain values.

use vstd::prelude::*;
use vstd::string::*;
use crate::models::ContainerStatus;
use crate::models::ServiceInfo;
use crate::models::ServiceInfoView;
use crate::text::{
    concat2, concat3, contains_seq, contains_sub, dec_spec, find_char_from,
    last_nonempty_line, last_nonempty_line_spec, push_u16, push_u64, starts_with,
    starts_with_seq, str_eq, trim, trim_spec,
};

verus! {

/// The injected configuration context: the configured project root and the
/// last observed running flag.  Passed explicitly into every orchestrator
/// call instead of living as ambient global state.
pub struct AppState {
    pub project_root: Option<String>,
    pub containers_running: bool,
}

impl AppState {
    /// A fresh context: no project root configured, nothing known to run.
    pub fn new() -> (s: Self)
        ensures
            s.project_root is None,
            s.containers_running == false,
    {
        AppState { project_root: None, containers_running: false }
    }

    /// Configure the project root directory.
    pub fn set_project_root(&mut self, path: String)
        ensures
            final(self).project_root.deep_view() == Some(path@),
            final(self).containers_running == old(self).containers_running,
    {
        self.project_root = Some(path);
    }

    /// The configured project root, or the distinct error that tells the
    /// caller configuration is missing rather than that a command failed.
    pub fn require_root(&self) -> (r: Result<String, String>)
        ensures
            match r {
                Ok(root) => self.project_root.deep_view() == Some(root@),
                Err(e) => self.project_root is None && e@ == "Project root not set"@,
            },
    {
        match &self.project_root {
            Some(root) => Ok(String::from_str(root.as_str())),
            None => Err(String::from_str("Project root not set")),
        }
    }
}

/// The full container names of the fixed role set of the default
/// environment.
pub open spec fn role_names() -> Seq<Seq<char>> {
    seq![
        "app-backend"@,
        "app-webui"@,
        "app-frontend"@,
        "app-worker"@,
        "app-mesh-agent"@,
    ]
}

/// A container belongs to a role when its name is exactly the role's full
/// name or that name with a suffix after a further dash (the numbered
/// variants).
pub open spec fn role_match(name: Seq<char>, role_full: Seq<char>) -> bool {
    name == role_full || starts_with_seq(name, role_full + seq!['-'])
}

/// The filter of the default environment: an application-prefixed name
/// matching one of the fixed roles.
pub open spec fn default_env_matches(name: Seq<char>) -> bool {
    starts_with_seq(name, "app-"@) && (role_match(name, role_names()[0]) || role_match(
        name,
        role_names()[1],
    ) || role_match(name, role_names()[2]) || role_match(name, role_names()[3]) || role_match(
        name,
        role_names()[4],
    ))
}

/// The name-to-filter mapping of a grouped operation: the default
/// environment matches the fixed role set; any other environment matches
/// the containers whose names start with `app-<name>-`.
pub open spec fn env_filter_spec(env: Seq<char>, name: Seq<char>) -> bool {
    if env == "default"@ {
        default_env_matches(name)
    } else {
        starts_with_seq(name, "app-"@ + env + seq!['-'])
    }
}

/// Whether one role of the default environment claims `container`.
fn role_match_exec(container: &str, exact: &str, dashed: &str) -> (r: bool)
    requires
        dashed@ == exact@ + seq!['-'],
    ensures
        r == role_match(container@, exact@),
{
    str_eq(container, exact) || starts_with(container, dashed)
}

/// Whether the filter of environment `env_name` matches `container`.
pub fn env_filter_matches(env_name: &str, container: &str) -> (r: bool)
    ensures
        r == env_filter_spec(env_name@, container@),
{
    proof {
        reveal_strlit("app-backend");
        reveal_strlit("app-backend-");
        reveal_strlit("app-webui");
        reveal_strlit("app-webui-");
        reveal_strlit("app-frontend");
        reveal_strlit("app-frontend-");
        reveal_strlit("app-worker");
        reveal_strlit("app-worker-");
        reveal_strlit("app-mesh-agent");
        reveal_strlit("app-mesh-agent-");
        reveal_strlit("-");
        assert("app-backend-"@ =~= "app-backend"@ + seq!['-']);
        assert("app-webui-"@ =~= "app-webui"@ + seq!['-']);
        assert("app-frontend-"@ =~= "app-frontend"@ + seq!['-']);
        assert("app-worker-"@ =~= "app-worker"@ + seq!['-']);
        assert("app-mesh-agent-"@ =~= "app-mesh-agent"@ + seq!['-']);
        assert("-"@ =~= seq!['-']);
    }
    if str_eq(env_name, "default") {
        starts_with(container, "app-") && (role_match_exec(container, "app-backend", "app-backend-")
            || role_match_exec(container, "app-webui", "app-webui-") || role_match_exec(
            container,
            "app-frontend",
            "app-frontend-",
        ) || role_match_exec(container, "app-worker", "app-worker-") || role_match_exec(
            container,
            "app-mesh-agent",
            "app-mesh-agent-",
        ))
    } else {
        let pattern = concat3("app-", env_name, "-");
        starts_with(container, pattern.as_str())
    }
}

/// The container names that the filter of environment `env` keeps, in
/// listing order.
pub open spec fn filtered_names(env: Seq<char>, names: Seq<Seq<char>>) -> Seq<Seq<char>>
    decreases names.len(),
{
    if names.len() == 0 {
        Seq::empty()
    } else {
        let prev = filtered_names(env, names.drop_last());
        if env_filter_spec(env, names.last()) {
            prev.push(names.last())
        } else {
            prev
        }
    }
}

/// Keep the container names that belong to environment `env_name`.
pub fn filter_env_containers(env_name: &str, names: &Vec<String>) -> (r: Vec<String>)
    ensures
        r.deep_view() == filtered_names(env_name@, names.deep_view()),
{
    let mut out: Vec<String> = Vec::new();
    let mut idx: usize = 0;
    proof {
        assert(names.deep_view().take(0) =~= Seq::<Seq<char>>::empty());
    }
    while idx < names.len()
        invariant
            0 <= idx <= names@.len(),
            out.deep_view() == filtered_names(env_name@, names.deep_view().take(idx as int)),
        decreases names@.len() - idx,
    {
        let ghost next_prefix = names.deep_view().take(idx + 1);
        proof {
            assert(next_prefix.drop_last() =~= names.deep_view().take(idx as int));
            assert(next_prefix.last() == names.deep_view()[idx as int]);
        }
        if env_filter_matches(env_name, names[idx].as_str()) {
            out.push(String::from_str(names[idx].as_str()));
            proof {
                assert(out.deep_view() =~= filtered_names(env_name@, next_prefix));
            }
        }
        idx += 1;
    }
    proof {
        assert(names.deep_view().take(names@.len() as int) =~= names.deep_view());
    }
    out
}

/// What a grouped operation should do: nothing, with the message to
/// report, or run the runtime command on the matched container names.
pub enum GroupPlan {
    Nothing { message: String },
    Operate { containers: Vec<String> },
}

/// Plan a grouped start: filter the stopped containers by the
/// environment's name pattern; an empty match is a normal outcome with a
/// success-shaped message, not an error, since a not-yet-created
/// environment is a normal state.
pub fn plan_start(env_name: &str, stopped: &Vec<String>) -> (r: GroupPlan)
    ensures
        match r {
            GroupPlan::Nothing { message } => filtered_names(env_name@, stopped.deep_view()).len()
                == 0 && message@ == "No stopped containers found for environment '"@ + env_name@
                + "'"@,
            GroupPlan::Operate { containers } => containers.deep_view() == filtered_names(
                env_name@,
                stopped.deep_view(),
            ) && containers.deep_view().len() > 0,
        },
{
    let containers = filter_env_containers(env_name, stopped);
    if containers.len() == 0 {
        let message = concat3("No stopped containers found for environment '", env_name, "'");
        GroupPlan::Nothing { message }
    } else {
        GroupPlan::Operate { containers }
    }
}

/// Plan a grouped stop over the full container listing, with the same
/// filter and the same empty-match handling as a grouped start.
pub fn plan_stop(env_name: &str, all_containers: &Vec<String>) -> (r: GroupPlan)
    ensures
        match r {
            GroupPlan::Nothing { message } => filtered_names(
                env_name@,
                all_containers.deep_view(),
            ).len() == 0 && message@ == "No containers found for environment '"@ + env_name@
                + "'"@,
            GroupPlan::Operate { containers } => containers.deep_view() == filtered_names(
                env_name@,
                all_containers.deep_view(),
            ) && containers.deep_view().len() > 0,
        },
{
    let containers = filter_env_containers(env_name, all_containers);
    if containers.len() == 0 {
        let message = concat3("No containers found for environment '", env_name, "'");
        GroupPlan::Nothing { message }
    } else {
        GroupPlan::Operate { containers }
    }
}

/// The result reported for a grouped start that ran: the environment and
/// container count on success, the runtime's own error text on failure.
pub fn start_result(env_name: &str, count: usize, success: bool, stderr: &str) -> (r: Result<
    String,
    String,
>)
    ensures
        match r {
            Ok(m) => success && m@ == "Environment '"@ + env_name@ + "' started ("@ + dec_spec(
                count as nat,
            ) + " containers)"@,
            Err(e) => !success && e@ == "Start failed: "@ + stderr@,
        },
{
    if success {
        let mut m = concat2("Environment '", env_name);
        m.append("' started (");
        push_u64(&mut m, count as u64);
        m.append(" containers)");
        Ok(m)
    } else {
        Err(concat2("Start failed: ", stderr))
    }
}

/// The result reported for a grouped stop that ran.
pub fn stop_result(env_name: &str, count: usize, success: bool, stderr: &str) -> (r: Result<
    String,
    String,
>)
    ensures
        match r {
            Ok(m) => success && m@ == "Environment '"@ + env_name@ + "' stopped ("@ + dec_spec(
                count as nat,
            ) + " containers)"@,
            Err(e) => !success && e@ == "Stop failed: "@ + stderr@,
        },
{
    if success {
        let mut m = concat2("Environment '", env_name);
        m.append("' stopped (");
        push_u64(&mut m, count as u64);
        m.append(" containers)");
        Ok(m)
    } else {
        Err(concat2("Stop failed: ", stderr))
    }
}

/// One process environment variable handed to external tooling.
pub struct EnvVar {
    pub name: String,
    pub value: String,
}

/// Abstract value of an environment variable.
pub ghost struct EnvVarView {
    pub name: Seq<char>,
    pub value: Seq<char>,
}

impl View for EnvVar {
    type V = EnvVarView;

    open spec fn view(&self) -> EnvVarView {
        EnvVarView { name: self.name@, value: self.value@ }
    }
}

impl DeepView for EnvVar {
    type V = EnvVarView;

    open spec fn deep_view(&self) -> EnvVarView {
        self@
    }
}

/// Abstract value of a planned external command.
pub ghost struct CommandPlanView {
    pub program: Seq<char>,
    pub args: Seq<Seq<char>>,
    pub dir: Option<Seq<char>>,
    pub envs: Seq<EnvVarView>,
}

/// A planned external command: the program, its arguments, the working
/// directory, and the extra process environment, all as plain values for
/// the unverified shell to run.
pub struct CommandPlan {
    pub program: String,
    pub args: Vec<String>,
    pub dir: Option<String>,
    pub envs: Vec<EnvVar>,
}

impl View for CommandPlan {
    type V = CommandPlanView;

    open spec fn view(&self) -> CommandPlanView {
        CommandPlanView {
            program: self.program@,
            args: self.args.deep_view(),
            dir: self.dir.deep_view(),
            envs: self.envs.deep_view(),
        }
    }
}

/// The fixed arguments that bring the shared infrastructure group up.
pub open spec fn infra_up_args() -> Seq<Seq<char>> {
    seq![
        "compose"@,
        "-f"@,
        "compose/docker-compose.infra.yml"@,
        "-p"@,
        "infra"@,
        "--profile"@,
        "infra"@,
        "up"@,
        "-d"@,
    ]
}

/// The fixed arguments that take the shared infrastructure group down.
pub open spec fn infra_down_args() -> Seq<Seq<char>> {
    seq!["compose"@, "-p"@, "infra"@, "down"@]
}

/// The command that starts the shared infrastructure group in the project
/// root.
pub fn infra_up_plan(root: &str) -> (p: CommandPlan)
    ensures
        p@.program == "docker"@,
        p@.args == infra_up_args(),
        p@.dir == Some(root@),
        p@.envs.len() == 0,
{
    let args: Vec<String> = vec![
        String::from_str("compose"),
        String::from_str("-f"),
        String::from_str("compose/docker-compose.infra.yml"),
        String::from_str("-p"),
        String::from_str("infra"),
        String::from_str("--profile"),
        String::from_str("infra"),
        String::from_str("up"),
        String::from_str("-d"),
    ];
    proof {
        assert(args.deep_view() =~= infra_up_args());
    }
    CommandPlan {
        program: String::from_str("docker"),
        args,
        dir: Some(String::from_str(root)),
        envs: Vec::new(),
    }
}

/// The command that stops the shared infrastructure group in the project
/// root.
pub fn infra_down_plan(root: &str) -> (p: CommandPlan)
    ensures
        p@.program == "docker"@,
        p@.args == infra_down_args(),
        p@.dir == Some(root@),
        p@.envs.len() == 0,
{
    let args: Vec<String> = vec![
        String::from_str("compose"),
        String::from_str("-p"),
        String::from_str("infra"),
        String::from_str("down"),
    ];
    proof {
        assert(args.deep_view() =~= infra_down_args());
    }
    CommandPlan {
        program: String::from_str("docker"),
        args,
        dir: Some(String::from_str(root)),
        envs: Vec::new(),
    }
}

/// The result reported for starting the infrastructure group.
pub fn infra_start_result(success: bool, stderr: &str) -> (r: Result<String, String>)
    ensures
        match r {
            Ok(m) => success && m@ == "Infrastructure started"@,
            Err(e) => !success && e@ == "Infrastructure failed: "@ + stderr@,
        },
{
    if success {
        Ok(String::from_str("Infrastructure started"))
    } else {
        Err(concat2("Infrastructure failed: ", stderr))
    }
}

/// The result reported for stopping the infrastructure group.
pub fn infra_stop_result(success: bool, stderr: &str) -> (r: Result<String, String>)
    ensures
        match r {
            Ok(m) => success && m@ == "Infrastructure stopped"@,
            Err(e) => !success && e@ == "Stop failed: "@ + stderr@,
        },
{
    if success {
        Ok(String::from_str("Infrastructure stopped"))
    } else {
        Err(concat2("Stop failed: ", stderr))
    }
}

/// The result reported for restarting the infrastructure group: the stop
/// step is best-effort and ignored, only the second step's outcome
/// surfaces.
pub fn infra_restart_result(up_success: bool, up_stderr: &str) -> (r: Result<String, String>)
    ensures
        match r {
            Ok(m) => up_success && m@ == "Infrastructure restarted"@,
            Err(e) => !up_success && e@ == "Restart failed: "@ + up_stderr@,
        },
{
    if up_success {
        Ok(String::from_str("Infrastructure restarted"))
    } else {
        Err(concat2("Restart failed: ", up_stderr))
    }
}

/// The parsed record of one compose status line: split on tabs, at least
/// two fields, fields taken verbatim.
pub open spec fn service_of_line(l: Seq<char>) -> Option<ServiceInfoView> {
    match find_char_from(l, '\t', 0) {
        None => None,
        Some(i) => {
            let name = l.subrange(0, i as int);
            let status = match find_char_from(l, '\t', (i + 1) as nat) {
                None => l.subrange(i + 1 as int, l.len() as int),
                Some(j) => l.subrange(i + 1 as int, j as int),
            };
            let ports = match find_char_from(l, '\t', (i + 1) as nat) {
                None => None,
                Some(j) => Some(
                    match find_char_from(l, '\t', (j + 1) as nat) {
                        None => l.subrange(j + 1 as int, l.len() as int),
                        Some(k) => l.subrange(j + 1 as int, k as int),
                    },
                ),
            };
            Some(ServiceInfoView { name: name, status: status, ports: ports })
        },
    }
}

/// The service rows of a whole status listing, in order.
pub open spec fn services_of_lines(ls: Seq<Seq<char>>) -> Seq<ServiceInfoView>
    decreases ls.len(),
{
    if ls.len() == 0 {
        Seq::empty()
    } else {
        match service_of_line(ls.last()) {
            Some(s) => services_of_lines(ls.drop_last()).push(s),
            None => services_of_lines(ls.drop_last()),
        }
    }
}

/// Some service's name mentions `backend` and its status mentions `Up`.
pub open spec fn any_backend_up(ss: Seq<ServiceInfoView>) -> bool {
    exists|i: int|
        0 <= i < ss.len() && contains_seq(ss[i].name, "backend"@) && contains_seq(
            ss[i].status,
            "Up"@,
        )
}

/// Some service's name mentions `frontend` and its status mentions `Up`.
pub open spec fn any_frontend_up(ss: Seq<ServiceInfoView>) -> bool {
    exists|i: int|
        0 <= i < ss.len() && contains_seq(ss[i].name, "frontend"@) && contains_seq(
            ss[i].status,
            "Up"@,
        )
}

/// Some service's status mentions `Up`.
pub open spec fn any_up(ss: Seq<ServiceInfoView>) -> bool {
    exists|i: int| 0 <= i < ss.len() && contains_seq(ss[i].status, "Up"@)
}

/// Parse one compose status line.
fn parse_service_line(line: &str) -> (r: Option<ServiceInfo>)
    ensures
        match r {
            Some(s) => service_of_line(line@) == Some(s@),
            None => service_of_line(line@) is None,
        },
{
    let len = line.unicode_len();
    match crate::text::find_char(line, '\t', 0) {
        None => None,
        Some(i) => {
            proof {
                crate::text::lemma_find_char_from(line@, '\t', 0);
            }
            let name = String::from_str(line.substring_char(0, i));
            let second = crate::text::find_char(line, '\t', i + 1);
            proof {
                crate::text::lemma_find_char_from(line@, '\t', (i + 1) as nat);
            }
            let status = match second {
                None => String::from_str(line.substring_char(i + 1, len)),
                Some(j) => String::from_str(line.substring_char(i + 1, j)),
            };
            let ports = match second {
                None => None,
                Some(j) => {
                    proof {
                        crate::text::lemma_find_char_from(line@, '\t', (j + 1) as nat);
                    }
                    let third = match crate::text::find_char(line, '\t', j + 1) {
                        None => line.substring_char(j + 1, len),
                        Some(k) => line.substring_char(j + 1, k),
                    };
                    Some(String::from_str(third))
                },
            };
            Some(ServiceInfo { name, status, ports })
        },
    }
}

/// Summarise a compose status listing: every parsed row, and whether a
/// backend row, a frontend row, and any row at all report themselves up.
pub fn container_status_from_lines(lines: &Vec<String>) -> (r: ContainerStatus)
    ensures
        r@.services == services_of_lines(lines.deep_view()),
        r@.backend_healthy == any_backend_up(services_of_lines(lines.deep_view())),
        r@.frontend_healthy == any_frontend_up(services_of_lines(lines.deep_view())),
        r@.running == (services_of_lines(lines.deep_view()).len() > 0 && any_up(
            services_of_lines(lines.deep_view()),
        )),
{
    let mut services: Vec<ServiceInfo> = Vec::new();
    let mut backend_healthy = false;
    let mut frontend_healthy = false;
    let mut some_up = false;
    let mut idx: usize = 0;
    proof {
        assert(lines.deep_view().take(0) =~= Seq::<Seq<char>>::empty());
    }
    while idx < lines.len()
        invariant
            0 <= idx <= lines@.len(),
            services.deep_view() == services_of_lines(lines.deep_view().take(idx as int)),
            backend_healthy == any_backend_up(services.deep_view()),
            frontend_healthy == any_frontend_up(services.deep_view()),
            some_up == any_up(services.deep_view()),
        decreases lines@.len() - idx,
    {
        let ghost next_prefix = lines.deep_view().take(idx + 1);
        let ghost pre_services = services.deep_view();
        proof {
            assert(next_prefix.drop_last() =~= lines.deep_view().take(idx as int));
            assert(next_prefix.last() == lines.deep_view()[idx as int]);
        }
        match parse_service_line(lines[idx].as_str()) {
            Some(s) => {
                let s_backend = contains_sub(s.name.as_str(), "backend") && contains_sub(
                    s.status.as_str(),
                    "Up",
                );
                let s_frontend = contains_sub(s.name.as_str(), "frontend") && contains_sub(
                    s.status.as_str(),
                    "Up",
                );
                let s_up = contains_sub(s.status.as_str(), "Up");
                let ghost sv = s@;
                services.push(s);
                proof {
                    assert(services.deep_view() =~= pre_services.push(sv));
                    assert(services.deep_view() == services_of_lines(next_prefix));
                    let n = pre_services.len() as int;
                    assert(services.deep_view()[n] == sv);
                    assert(any_backend_up(services.deep_view()) == (any_backend_up(pre_services)
                        || (contains_seq(sv.name, "backend"@) && contains_seq(sv.status, "Up"@))))
                        by {
                        if any_backend_up(pre_services) {
                            let w = choose|i: int|
                                0 <= i < pre_services.len() && contains_seq(
                                    pre_services[i].name,
                                    "backend"@,
                                ) && contains_seq(pre_services[i].status, "Up"@);
                            assert(services.deep_view()[w] == pre_services[w]);
                        }
                        if any_backend_up(services.deep_view()) {
                            let w = choose|i: int|
                                0 <= i < services.deep_view().len() && contains_seq(
                                    services.deep_view()[i].name,
                                    "backend"@,
                                ) && contains_seq(services.deep_view()[i].status, "Up"@);
                            if w < n {
                                assert(pre_services[w] == services.deep_view()[w]);
                            }
                        }
                    }
                    assert(any_frontend_up(services.deep_view()) == (any_frontend_up(pre_services)
                        || (contains_seq(sv.name, "frontend"@) && contains_seq(sv.status, "Up"@))))
                        by {
                        if any_frontend_up(pre_services) {
                            let w = choose|i: int|
                                0 <= i < pre_services.len() && contains_seq(
                                    pre_services[i].name,
                                    "frontend"@,
                                ) && contains_seq(pre_services[i].status, "Up"@);
                            assert(services.deep_view()[w] == pre_services[w]);
                        }
                        if any_frontend_up(services.deep_view()) {
                            let w = choose|i: int|
                                0 <= i < services.deep_view().len() && contains_seq(
                                    services.deep_view()[i].name,
                                    "frontend"@,
                                ) && contains_seq(services.deep_view()[i].status, "Up"@);
                            if w < n {
                                assert(pre_services[w] == services.deep_view()[w]);
                            }
                        }
                    }
                    assert(any_up(services.deep_view()) == (any_up(pre_services) || contains_seq(
                        sv.status,
                        "Up"@,
                    ))) by {
                        if any_up(pre_services) {
                            let w = choose|i: int|
                                0 <= i < pre_services.len() && contains_seq(
                                    pre_services[i].status,
                                    "Up"@,
                                );
                            assert(services.deep_view()[w] == pre_services[w]);
                        }
                        if any_up(services.deep_view()) {
                            let w = choose|i: int|
                                0 <= i < services.deep_view().len() && contains_seq(
                                    services.deep_view()[i].status,
                                    "Up"@,
                                );
                            if w < n {
                                assert(pre_services[w] == services.deep_view()[w]);
                            }
                        }
                    }
                }
                backend_healthy = backend_healthy || s_backend;
                frontend_healthy = frontend_healthy || s_frontend;
                some_up = some_up || s_up;
            },
            None => {},
        }
        idx += 1;
    }
    proof {
        assert(lines.deep_view().take(lines@.len() as int) =~= lines.deep_view());
    }
    let running = services.len() > 0 && some_up;
    ContainerStatus { running, backend_healthy, frontend_healthy, services }
}

/// The empty status reported when no project root is configured.
pub fn empty_container_status() -> (r: ContainerStatus)
    ensures
        r@.running == false,
        r@.backend_healthy == false,
        r@.frontend_healthy == false,
        r@.services.len() == 0,
{
    ContainerStatus {
        running: false,
        backend_healthy: false,
        frontend_healthy: false,
        services: Vec::new(),
    }
}

/// The mode flag handed to the creation tooling: `--prod` for a production
/// build, `--dev` (hot reload) for anything else.
pub fn mode_flag(mode: &Option<String>) -> (r: &'static str)
    ensures
        mode.deep_view() == Some("prod"@) ==> r@ == "--prod"@,
        mode.deep_view() != Some("prod"@) ==> r@ == "--dev"@,
{
    match mode {
        Some(m) => if str_eq(m.as_str(), "prod") {
            "--prod"
        } else {
            "--dev"
        },
        None => "--dev",
    }
}

/// The error reported when the creation script is missing from the
/// configured project root: a distinct, explicitly named precondition
/// failure, so the caller can guide the user to configuration.
pub fn script_missing_message(root: &str) -> (r: String)
    ensures
        r@ == "start-dev.sh not found in "@ + root@
            + ". Make sure you're pointing to a valid Ushadow repository."@,
{
    concat3(
        "start-dev.sh not found in ",
        root,
        ". Make sure you're pointing to a valid Ushadow repository.",
    )
}

/// The port offset an allocated backend port encodes relative to the
/// default.
pub fn port_offset_of(backend_port: u16) -> (r: u16)
    requires
        backend_port >= 8000,
    ensures
        r == backend_port - 8000,
{
    backend_port - 8000
}

/// The command that creates a new environment: the creation script in
/// quick mode with the chosen mode flag, handed the environment name, the
/// computed port offset, and the flag that suppresses the automatic
/// browser open, as process environment variables.
pub fn create_env_plan(root: &str, name: &str, mode: &Option<String>, port_offset: u16) -> (p:
    CommandPlan)
    ensures
        p@.program == "bash"@,
        p@.args.len() == 3,
        p@.args[0] == "start-dev.sh"@,
        p@.args[1] == "--quick"@,
        mode.deep_view() == Some("prod"@) ==> p@.args[2] == "--prod"@,
        mode.deep_view() != Some("prod"@) ==> p@.args[2] == "--dev"@,
        p@.dir == Some(root@),
        p@.envs.len() == 3,
        p@.envs[0] == (EnvVarView { name: "ENV_NAME"@, value: name@ }),
        p@.envs[1] == (EnvVarView { name: "PORT_OFFSET"@, value: dec_spec(port_offset as nat) }),
        p@.envs[2] == (EnvVarView { name: "USHADOW_NO_BROWSER"@, value: "1"@ }),
{
    let flag = mode_flag(mode);
    let args: Vec<String> = vec![
        String::from_str("start-dev.sh"),
        String::from_str("--quick"),
        String::from_str(flag),
    ];
    let mut offset_text = String::new();
    push_u16(&mut offset_text, port_offset);
    proof {
        assert(Seq::<char>::empty() + dec_spec(port_offset as nat) =~= dec_spec(
            port_offset as nat,
        ));
    }
    let envs: Vec<EnvVar> = vec![
        EnvVar { name: String::from_str("ENV_NAME"), value: String::from_str(name) },
        EnvVar { name: String::from_str("PORT_OFFSET"), value: offset_text },
        EnvVar { name: String::from_str("USHADOW_NO_BROWSER"), value: String::from_str("1") },
    ];
    CommandPlan {
        program: String::from_str("bash"),
        args,
        dir: Some(String::from_str(root)),
        envs,
    }
}

/// The error detail of a failed creation run: the last non-empty line of
/// the combined output, preferring the error stream when it said anything,
/// since the full logs are too noisy for the caller.
pub fn create_failure_message(stderr: &str, stdout: &str) -> (r: String)
    ensures
        stderr@.len() > 0 ==> r@ == "Failed to start environment: "@ + last_nonempty_line_spec(
            stderr@,
        ),
        stderr@.len() == 0 ==> r@ == "Failed to start environment: "@ + last_nonempty_line_spec(
            stdout@,
        ),
{
    let combined = if stderr.unicode_len() > 0 {
        stderr
    } else {
        stdout
    };
    concat2("Failed to start environment: ", last_nonempty_line(combined))
}

/// The message reported for a successful creation run, naming the
/// allocated ports when they were moved off the defaults.
pub fn create_success_message(name: &str, port_offset: u16, backend_port: u16, webui_port: u16)
    -> (r: String)
    ensures
        port_offset > 0 ==> r@ == "Environment '"@ + name@ + "' started"@ + " (ports: backend="@
            + dec_spec(backend_port as nat) + ", webui="@ + dec_spec(webui_port as nat) + ")"@,
        port_offset == 0 ==> r@ == "Environment '"@ + name@ + "' started"@,
{
    let mut m = concat2("Environment '", name);
    m.append("' started");
    if port_offset > 0 {
        m.append(" (ports: backend=");
        push_u16(&mut m, backend_port);
        m.append(", webui=");
        push_u16(&mut m, webui_port);
        m.append(")");
        proof {
            assert(m@ =~= "Environment '"@ + name@ + "' started"@ + " (ports: backend="@
                + dec_spec(backend_port as nat) + ", webui="@ + dec_spec(webui_port as nat)
                + ")"@);
        }
    }
    m
}

/// Whether a backend health probe's status code text reports healthy: the
/// trimmed code is exactly `200`.
pub fn backend_health_ok(code: &str) -> (r: bool)
    ensures
        r == (trim_spec(code@) == "200"@),
{
    str_eq(trim(code), "200")
}

/// Whether a web interface health probe's status code text reports the
/// interface serving: the trimmed code starts with `2` or `3`.
pub fn webui_health_ok(code: &str) -> (r: bool)
    ensures
        r == (trim_spec(code@).len() > 0 && (trim_spec(code@)[0] == '2' || trim_spec(code@)[0]
            == '3')),
{
    let t = trim(code);
    let len = t.unicode_len();
    if len == 0 {
        return false;
    }
    let c = t.get_char(0);
    c == '2' || c == '3'
}

} // verus!
