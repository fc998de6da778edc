//! Decision logic behind the tool probes: which probe outcome counts as
//! installed, running or connected, which discovered path to prefer, and
//! how the outcomes combine into the reported statuses.  The probes
//! themselves — spawning the tools, checking the filesystem, reading the
//! process environment — live in the unverified shell, which hands their
//! observed outputs in as plain values.

use vstd::prelude::*;
use vstd::string::*;
use crate::models::{PrerequisiteStatus, ProjectStatus};
use crate::text::{
    concat2, concat3, contains_seq, first_line, first_line_spec, starts_with, trim, trim_spec,
};

verus! {

/// The index of the first present value in `s` at or after `from`.
pub open spec fn first_some(s: Seq<Option<Seq<char>>>, from: nat) -> Option<nat>
    decreases s.len() - from,
{
    if from >= s.len() {
        None
    } else if s[from as int] is Some {
        Some(from)
    } else {
        first_some(s, (from + 1) as nat)
    }
}

/// The known filesystem locations of the container runtime binary, probed
/// when the login shell does not find it.
pub fn docker_known_paths() -> (r: Vec<&'static str>)
    ensures
        r.deep_view() =~= seq![
            "/usr/local/bin/docker"@,
            "/opt/homebrew/bin/docker"@,
            "/Applications/Docker.app/Contents/Resources/bin/docker"@,
        ],
{
    let r: Vec<&'static str> = vec![
        "/usr/local/bin/docker",
        "/opt/homebrew/bin/docker",
        "/Applications/Docker.app/Contents/Resources/bin/docker",
    ];
    r
}

/// Decide the container runtime's status from the probe outcomes: whether
/// it is installed, whether its daemon answers, and its version text.
///
/// `shell_version` holds the version probe's output when the login shell
/// found the binary; `path_versions`, aligned with `docker_known_paths`,
/// holds the output of each direct path probe that existed and ran;
/// `daemon_ok` reports the daemon info probe.  The shell result wins, the
/// first answering known path is the fallback, and without either the
/// runtime counts as absent and not running.
pub fn check_docker(
    shell_version: &Option<String>,
    path_versions: &Vec<Option<String>>,
    daemon_ok: bool,
) -> (r: (bool, bool, Option<String>))
    ensures
        match shell_version {
            Some(v) => r.0 && r.1 == daemon_ok && r.2.deep_view() == Some(trim_spec(v@)),
            None => match first_some(path_versions.deep_view(), 0) {
                Some(k) => r.0 && r.1 == daemon_ok && r.2.deep_view() == Some(
                    trim_spec(path_versions.deep_view()[k as int]->Some_0),
                ),
                None => !r.0 && !r.1 && r.2 is None,
            },
        },
{
    match shell_version {
        Some(v) => (true, daemon_ok, Some(String::from_str(trim(v.as_str())))),
        None => {
            let mut k: usize = 0;
            while k < path_versions.len()
                invariant
                    0 <= k <= path_versions@.len(),
                    first_some(path_versions.deep_view(), 0) == first_some(
                        path_versions.deep_view(),
                        k as nat,
                    ),
                decreases path_versions@.len() - k,
            {
                proof {
                    assert(path_versions.deep_view()[k as int] == path_versions@[
                        k as int
                    ].deep_view());
                }
                match &path_versions[k] {
                    Some(v) => {
                        return (true, daemon_ok, Some(String::from_str(trim(v.as_str()))));
                    },
                    None => {},
                }
                k += 1;
            }
            (false, false, None)
        },
    }
}

/// Decide the version-control tool's status from its version probe.
pub fn check_git(version_out: &Option<String>) -> (r: (bool, Option<String>))
    ensures
        match version_out {
            Some(v) => r.0 && r.1.deep_view() == Some(trim_spec(v@)),
            None => !r.0 && r.1 is None,
        },
{
    match version_out {
        Some(v) => (true, Some(String::from_str(trim(v.as_str())))),
        None => (false, None),
    }
}

/// Decide the mesh client's status from its probes: installed when the
/// version probe answered, connected when the status probe succeeded, the
/// version taken from the first line of the version output.
pub fn check_tailscale(version_out: &Option<String>, status_ok: bool) -> (r: (
    bool,
    bool,
    Option<String>,
))
    ensures
        match version_out {
            Some(v) => r.0 && r.1 == status_ok && r.2.deep_view() == Some(
                trim_spec(first_line_spec(v@)),
            ),
            None => !r.0 && !r.1 && r.2 is None,
        },
{
    match version_out {
        Some(v) => (true, status_ok, Some(String::from_str(trim(first_line(v.as_str()))))),
        None => (false, false, None),
    }
}

/// Decide the script interpreter's status: the modern probe wins; the
/// fallback probe counts only when its trimmed version names the major
/// version line this project needs.
pub fn check_python(python3_out: &Option<String>, python_out: &Option<String>) -> (r: (
    bool,
    Option<String>,
))
    ensures
        match python3_out {
            Some(v) => r.0 && r.1.deep_view() == Some(trim_spec(v@)),
            None => match python_out {
                Some(v) => if crate::text::starts_with_seq(trim_spec(v@), "Python 3"@) {
                    r.0 && r.1.deep_view() == Some(trim_spec(v@))
                } else {
                    !r.0 && r.1 is None
                },
                None => !r.0 && r.1 is None,
            },
        },
{
    match python3_out {
        Some(v) => (true, Some(String::from_str(trim(v.as_str())))),
        None => match python_out {
            Some(v) => {
                let version = trim(v.as_str());
                if starts_with(version, "Python 3") {
                    (true, Some(String::from_str(version)))
                } else {
                    (false, None)
                }
            },
            None => (false, None),
        },
    }
}

/// The mocked container runtime status used when probes are bypassed for
/// testing.
pub fn mock_docker_status(installed: bool, running: bool) -> (r: (bool, bool, Option<String>))
    ensures
        r.0 == installed,
        r.1 == running,
        installed ==> r.2.deep_view() == Some("Docker version 24.0.0 (MOCKED)"@),
        !installed ==> r.2 is None,
{
    let version = if installed {
        Some(String::from_str("Docker version 24.0.0 (MOCKED)"))
    } else {
        None
    };
    (installed, running, version)
}

/// The mocked version-control status used when probes are bypassed for
/// testing.
pub fn mock_git_status(installed: bool) -> (r: (bool, Option<String>))
    ensures
        r.0 == installed,
        installed ==> r.1.deep_view() == Some("git version 2.40.0 (MOCKED)"@),
        !installed ==> r.1 is None,
{
    let version = if installed {
        Some(String::from_str("git version 2.40.0 (MOCKED)"))
    } else {
        None
    };
    (installed, version)
}

/// The mocked mesh client status used when probes are bypassed for
/// testing: an installed client counts as connected.
pub fn mock_tailscale_status(installed: bool) -> (r: (bool, bool, Option<String>))
    ensures
        r.0 == installed,
        r.1 == installed,
        installed ==> r.2.deep_view() == Some("1.56.0 (MOCKED)"@),
        !installed ==> r.2 is None,
{
    let version = if installed {
        Some(String::from_str("1.56.0 (MOCKED)"))
    } else {
        None
    };
    (installed, installed, version)
}

/// The mocked script interpreter status used when probes are bypassed for
/// testing.
pub fn mock_python_status(installed: bool) -> (r: (bool, Option<String>))
    ensures
        r.0 == installed,
        installed ==> r.1.deep_view() == Some("Python 3.11.0 (MOCKED)"@),
        !installed ==> r.1 is None,
{
    let version = if installed {
        Some(String::from_str("Python 3.11.0 (MOCKED)"))
    } else {
        None
    };
    (installed, version)
}

/// Combine the individual tool statuses into the full prerequisite
/// report.
pub fn check_prerequisites(
    docker: (bool, bool, Option<String>),
    tailscale: (bool, bool, Option<String>),
    git: (bool, Option<String>),
) -> (r: PrerequisiteStatus)
    ensures
        r.docker_installed == docker.0,
        r.docker_running == docker.1,
        r.docker_version.deep_view() == docker.2.deep_view(),
        r.tailscale_installed == tailscale.0,
        r.tailscale_connected == tailscale.1,
        r.tailscale_version.deep_view() == tailscale.2.deep_view(),
        r.git_installed == git.0,
        r.git_version.deep_view() == git.1.deep_view(),
{
    PrerequisiteStatus {
        docker_installed: docker.0,
        docker_running: docker.1,
        tailscale_installed: tailscale.0,
        tailscale_connected: tailscale.1,
        git_installed: git.0,
        docker_version: docker.2,
        tailscale_version: tailscale.2,
        git_version: git.1,
    }
}

/// The known filesystem locations of the package manager binary.
pub fn brew_known_paths() -> (r: Vec<&'static str>)
    ensures
        r.deep_view() =~= seq!["/opt/homebrew/bin/brew"@, "/usr/local/bin/brew"@],
{
    let r: Vec<&'static str> = vec!["/opt/homebrew/bin/brew", "/usr/local/bin/brew"];
    r
}

/// A discovered location of the package manager is usable when the lookup
/// answered, its trimmed answer is not empty, and the binary there ran.
pub open spec fn which_usable(which_out: Option<Seq<char>>, which_runs: bool) -> bool {
    which_out is Some && trim_spec(which_out->Some_0).len() > 0 && which_runs
}

/// Decide whether the package manager is installed from the probe
/// outcomes: the login shell found it, or the path lookup found a usable
/// binary, or one of the known locations ran.
///
/// `which_out` holds the path lookup's output when the lookup succeeded;
/// `which_runs` reports whether the binary at the trimmed path existed
/// and ran; `known_runs`, aligned with `brew_known_paths`, reports each
/// known location.
pub fn check_brew_installed(
    shell_ok: bool,
    which_out: &Option<String>,
    which_runs: bool,
    known_runs: &Vec<bool>,
) -> (r: bool)
    requires
        known_runs@.len() == 2,
    ensures
        r == (shell_ok || which_usable(which_out.deep_view(), which_runs) || known_runs@[0]
            || known_runs@[1]),
{
    if shell_ok {
        return true;
    }
    match which_out {
        Some(out) => {
            let path = trim(out.as_str());
            if path.unicode_len() > 0 && which_runs {
                return true;
            }
        },
        None => {},
    }
    known_runs[0] || known_runs[1]
}

/// Decide which path to run the package manager by, from the same probe
/// outcomes as `check_brew_installed`: the bare name when the login shell
/// finds it, else the looked-up path, else the first answering known
/// location, else the bare name as a last resort.
pub fn get_brew_path(
    shell_ok: bool,
    which_out: &Option<String>,
    which_runs: bool,
    known_runs: &Vec<bool>,
) -> (r: String)
    requires
        known_runs@.len() == 2,
    ensures
        shell_ok ==> r@ == "brew"@,
        !shell_ok && which_usable(which_out.deep_view(), which_runs) ==> r@ == trim_spec(
            which_out.deep_view()->Some_0,
        ),
        !shell_ok && !which_usable(which_out.deep_view(), which_runs) && known_runs@[0] ==> r@
            == "/opt/homebrew/bin/brew"@,
        !shell_ok && !which_usable(which_out.deep_view(), which_runs) && !known_runs@[0]
            && known_runs@[1] ==> r@ == "/usr/local/bin/brew"@,
        !shell_ok && !which_usable(which_out.deep_view(), which_runs) && !known_runs@[0]
            && !known_runs@[1] ==> r@ == "brew"@,
{
    if shell_ok {
        return String::from_str("brew");
    }
    match which_out {
        Some(out) => {
            let path = trim(out.as_str());
            if path.unicode_len() > 0 && which_runs {
                return String::from_str(path);
            }
        },
        None => {},
    }
    if known_runs[0] {
        String::from_str("/opt/homebrew/bin/brew")
    } else if known_runs[1] {
        String::from_str("/usr/local/bin/brew")
    } else {
        String::from_str("brew")
    }
}

/// Build the project-location report from the filesystem observations:
/// the location is a valid checkout when it exists and holds the launch
/// script, the compose directory, and the version-control metadata.
pub fn check_project_dir(
    path: String,
    dir_exists: bool,
    has_script: bool,
    has_compose_dir: bool,
    has_git_dir: bool,
) -> (r: ProjectStatus)
    ensures
        r.path.deep_view() == Some(path@),
        r.exists == dir_exists,
        r.is_valid_repo == (dir_exists && has_script && has_compose_dir && has_git_dir),
{
    let is_valid_repo = dir_exists && has_script && has_compose_dir && has_git_dir;
    ProjectStatus { path: Some(path), exists: dir_exists, is_valid_repo }
}

/// Whether the stash step of a repository update actually saved local
/// changes: it succeeded and did not report that there was nothing to
/// save.
pub fn stash_had_changes(stash_success: bool, stash_stdout: &str) -> (r: bool)
    ensures
        r == (stash_success && !contains_seq(stash_stdout@, "No local changes to save"@)),
{
    stash_success && !crate::text::contains_sub(stash_stdout, "No local changes to save")
}

/// The result reported for a repository update, from the outcomes of its
/// pull step and, when changes had been stashed, its restore step.
pub fn update_repo_result(
    had_changes: bool,
    pull_success: bool,
    pull_stdout: &str,
    pull_stderr: &str,
    pop_success: bool,
    pop_stderr: &str,
) -> (r: Result<String, String>)
    ensures
        !pull_success ==> r is Err && r->Err_0@ == "Git pull failed: "@ + pull_stderr@,
        pull_success && had_changes && !pop_success ==> r is Err && r->Err_0@
            == "Update pulled but failed to restore local changes: "@ + pop_stderr@
            + ". Your changes are in git stash."@,
        pull_success && had_changes && pop_success ==> r is Ok && r->Ok_0@
            == "Updated and restored local changes. "@ + trim_spec(pull_stdout@),
        pull_success && !had_changes ==> r is Ok && r->Ok_0@ == "Updated: "@ + trim_spec(
            pull_stdout@,
        ),
{
    if !pull_success {
        return Err(concat2("Git pull failed: ", pull_stderr));
    }
    let pull_result = trim(pull_stdout);
    if had_changes {
        if !pop_success {
            Err(
                concat3(
                    "Update pulled but failed to restore local changes: ",
                    pop_stderr,
                    ". Your changes are in git stash.",
                ),
            )
        } else {
            Ok(concat2("Updated and restored local changes. ", pull_result))
        }
    } else {
        Ok(concat2("Updated: ", pull_result))
    }
}

} // verus!
