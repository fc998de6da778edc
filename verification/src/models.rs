//! The data model of a discovery pass: container records, infrastructure
//! services, environments, and the aggregate snapshot, together with their
//! abstract views.

use vstd::prelude::*;

verus! {

/// Abstract value of a parsed container listing record.
pub ghost struct ContainerRecordView {
    pub name: Seq<char>,
    pub running: bool,
    pub ports: Option<Seq<char>>,
}

/// One container as reported by the runtime's listing output: its name,
/// whether its status marks it as up, and its raw port-mapping text.
/// Reconstructed fresh on every discovery pass, never persisted.
pub struct ContainerRecord {
    pub name: String,
    pub running: bool,
    pub ports: Option<String>,
}

impl View for ContainerRecord {
    type V = ContainerRecordView;

    open spec fn view(&self) -> ContainerRecordView {
        ContainerRecordView {
            name: self.name@,
            running: self.running,
            ports: self.ports.deep_view(),
        }
    }
}

impl DeepView for ContainerRecord {
    type V = ContainerRecordView;

    open spec fn deep_view(&self) -> ContainerRecordView {
        self@
    }
}

/// Abstract value of an infrastructure service entry.
pub ghost struct InfraServiceView {
    pub name: Seq<char>,
    pub display_name: Seq<char>,
    pub running: bool,
    pub ports: Option<Seq<char>>,
}

/// A shared infrastructure service found among the containers of one pass,
/// identified by its fixed key.
pub struct InfraService {
    pub name: String,
    pub display_name: String,
    pub running: bool,
    pub ports: Option<String>,
}

impl View for InfraService {
    type V = InfraServiceView;

    open spec fn view(&self) -> InfraServiceView {
        InfraServiceView {
            name: self.name@,
            display_name: self.display_name@,
            running: self.running,
            ports: self.ports.deep_view(),
        }
    }
}

impl DeepView for InfraService {
    type V = InfraServiceView;

    open spec fn deep_view(&self) -> InfraServiceView {
        self@
    }
}

/// Abstract value of a backend container that anchors an environment.
pub ghost struct EnvBackendView {
    pub name: Seq<char>,
    pub port: u16,
}

/// A running environment backend: the environment name derived from the
/// container name, and the decoded externally published port.
pub struct EnvBackend {
    pub name: String,
    pub port: u16,
}

impl View for EnvBackend {
    type V = EnvBackendView;

    open spec fn view(&self) -> EnvBackendView {
        EnvBackendView { name: self.name@, port: self.port }
    }
}

impl DeepView for EnvBackend {
    type V = EnvBackendView;

    open spec fn deep_view(&self) -> EnvBackendView {
        self@
    }
}

/// Abstract value of a discovered environment.
pub ghost struct UshadowEnvironmentView {
    pub name: Seq<char>,
    pub color: Seq<char>,
    pub localhost_url: Seq<char>,
    pub tailscale_url: Option<Seq<char>>,
    pub backend_port: u16,
    pub webui_port: Option<u16>,
    pub running: bool,
    pub tailscale_active: bool,
}

/// A discovered environment: a point-in-time snapshot reconstructed on
/// every call, with no identity across calls beyond its name.
pub struct UshadowEnvironment {
    pub name: String,
    pub color: String,
    pub localhost_url: String,
    pub tailscale_url: Option<String>,
    pub backend_port: u16,
    pub webui_port: Option<u16>,
    pub running: bool,
    pub tailscale_active: bool,
}

impl View for UshadowEnvironment {
    type V = UshadowEnvironmentView;

    open spec fn view(&self) -> UshadowEnvironmentView {
        UshadowEnvironmentView {
            name: self.name@,
            color: self.color@,
            localhost_url: self.localhost_url@,
            tailscale_url: self.tailscale_url.deep_view(),
            backend_port: self.backend_port,
            webui_port: self.webui_port,
            running: self.running,
            tailscale_active: self.tailscale_active,
        }
    }
}

impl DeepView for UshadowEnvironment {
    type V = UshadowEnvironmentView;

    open spec fn deep_view(&self) -> UshadowEnvironmentView {
        self@
    }
}

/// Abstract value of a discovery snapshot.
pub ghost struct DiscoveryResultView {
    pub infrastructure: Seq<InfraServiceView>,
    pub environments: Seq<UshadowEnvironmentView>,
    pub docker_ok: bool,
    pub tailscale_ok: bool,
}

/// The sole externally visible result of a discovery pass.
pub struct DiscoveryResult {
    pub infrastructure: Vec<InfraService>,
    pub environments: Vec<UshadowEnvironment>,
    pub docker_ok: bool,
    pub tailscale_ok: bool,
}

impl View for DiscoveryResult {
    type V = DiscoveryResultView;

    open spec fn view(&self) -> DiscoveryResultView {
        DiscoveryResultView {
            infrastructure: self.infrastructure.deep_view(),
            environments: self.environments.deep_view(),
            docker_ok: self.docker_ok,
            tailscale_ok: self.tailscale_ok,
        }
    }
}

/// Abstract value of one service row of a compose status listing.
pub ghost struct ServiceInfoView {
    pub name: Seq<char>,
    pub status: Seq<char>,
    pub ports: Option<Seq<char>>,
}

/// One service row of the compose status listing.
pub struct ServiceInfo {
    pub name: String,
    pub status: String,
    pub ports: Option<String>,
}

impl View for ServiceInfo {
    type V = ServiceInfoView;

    open spec fn view(&self) -> ServiceInfoView {
        ServiceInfoView {
            name: self.name@,
            status: self.status@,
            ports: self.ports.deep_view(),
        }
    }
}

impl DeepView for ServiceInfo {
    type V = ServiceInfoView;

    open spec fn deep_view(&self) -> ServiceInfoView {
        self@
    }
}

/// Abstract value of a container status summary.
pub ghost struct ContainerStatusView {
    pub running: bool,
    pub backend_healthy: bool,
    pub frontend_healthy: bool,
    pub services: Seq<ServiceInfoView>,
}

/// Summary of the compose status listing of the configured project.
pub struct ContainerStatus {
    pub running: bool,
    pub backend_healthy: bool,
    pub frontend_healthy: bool,
    pub services: Vec<ServiceInfo>,
}

impl View for ContainerStatus {
    type V = ContainerStatusView;

    open spec fn view(&self) -> ContainerStatusView {
        ContainerStatusView {
            running: self.running,
            backend_healthy: self.backend_healthy,
            frontend_healthy: self.frontend_healthy,
            services: self.services.deep_view(),
        }
    }
}

/// Result of the prerequisite checks for the external tools the engine
/// drives.
pub struct PrerequisiteStatus {
    pub docker_installed: bool,
    pub docker_running: bool,
    pub tailscale_installed: bool,
    pub tailscale_connected: bool,
    pub git_installed: bool,
    pub docker_version: Option<String>,
    pub tailscale_version: Option<String>,
    pub git_version: Option<String>,
}

/// Whether a configured project location exists and looks like a valid
/// project checkout.
pub struct ProjectStatus {
    pub path: Option<String>,
    pub exists: bool,
    pub is_valid_repo: bool,
}

} // verus!
