//! What a spawned worker gets: its environment and the directories that must
//! exist first.
use vstd::prelude::*;
use crate::launch::{backend_log_path, opt_view, or_else, LaunchPlan, LaunchPlanView};
use crate::supervisor::DirectoryRole;
use crate::text::{join_path, joined, str_eq};

verus! {

/// The inherited environment values that the worker's environment depends on.
#[derive(Debug)]
pub struct InheritedEnv {
    pub python_utf8: Option<String>,
    pub python_io_encoding: Option<String>,
    /// A dashboard host is already configured, under either of its names.
    pub dashboard_host_set: bool,
    /// A dashboard port is already configured, under either of its names.
    pub dashboard_port_set: bool,
}

pub open spec fn pairs_view(v: Seq<(String, String)>) -> Seq<(Seq<char>, Seq<char>)> {
    v.map_values(|p: (String, String)| (p.0@, p.1@))
}

/// Unbuffered UTF-8 text I/O, keeping inherited choices.
pub open spec fn text_io_vars(inherited: InheritedEnv) -> Seq<(Seq<char>, Seq<char>)> {
    seq![
        ("PYTHONUNBUFFERED"@, "1"@),
        ("PYTHONUTF8"@, or_else(opt_view(inherited.python_utf8), Some("1"@))->Some_0),
        ("PYTHONIOENCODING"@, or_else(opt_view(inherited.python_io_encoding), Some("utf-8"@))->Some_0),
    ]
}

/// The marker and default bind address of a packaged launch.
pub open spec fn packaged_vars(inherited: InheritedEnv) -> Seq<(Seq<char>, Seq<char>)> {
    seq![("ASTRBOT_ELECTRON_CLIENT"@, "1"@)]
        + (if inherited.dashboard_host_set {
            Seq::empty()
        } else {
            seq![("DASHBOARD_HOST"@, "127.0.0.1"@)]
        })
        + (if inherited.dashboard_port_set {
            Seq::empty()
        } else {
            seq![("DASHBOARD_PORT"@, "6185"@)]
        })
}

pub open spec fn dir_vars(plan: LaunchPlanView) -> Seq<(Seq<char>, Seq<char>)> {
    (match plan.root_dir {
        Some(r) => seq![("ASTRBOT_ROOT"@, r)],
        None => Seq::empty(),
    }) + (match plan.webui_dir {
        Some(w) => seq![("ASTRBOT_WEBUI_DIR"@, w)],
        None => Seq::empty(),
    })
}

/// The variables set for the worker, in the order they are applied.
pub open spec fn child_env(plan: LaunchPlanView, inherited: InheritedEnv) -> Seq<(Seq<char>, Seq<char>)> {
    text_io_vars(inherited) + (if plan.packaged_mode {
        packaged_vars(inherited)
    } else {
        Seq::empty()
    }) + dir_vars(plan)
}

fn push_var(out: &mut Vec<(String, String)>, key: &str, value: String)
    ensures
        pairs_view(final(out)@) == pairs_view(old(out)@).push((key@, value@)),
{
    out.push((key.to_owned(), value));
    assert(pairs_view(final(out)@) =~= pairs_view(old(out)@).push((key@, value@)));
}

fn value_or(v: &Option<String>, fallback: &str) -> (r: String)
    ensures
        r@ == or_else(opt_view(*v), Some(fallback@))->Some_0,
{
    match v {
        Some(s) => s.clone(),
        None => fallback.to_owned(),
    }
}

/// The environment variables to set on the worker: unbuffered UTF-8 text I/O
/// under the inherited choices; for a packaged launch a marker and, unless
/// configured already, the default bind host and port; then the plan's root
/// and static-assets directories.
pub fn child_environment(plan: &LaunchPlan, inherited: &InheritedEnv) -> (r: Vec<(String, String)>)
    ensures
        pairs_view(r@) == child_env(plan@, *inherited),
{
    let mut out: Vec<(String, String)> = Vec::new();
    push_var(&mut out, "PYTHONUNBUFFERED", "1".to_owned());
    push_var(&mut out, "PYTHONUTF8", value_or(&inherited.python_utf8, "1"));
    push_var(&mut out, "PYTHONIOENCODING", value_or(&inherited.python_io_encoding, "utf-8"));
    assert(pairs_view(out@) =~= text_io_vars(*inherited));
    let ghost base = pairs_view(out@);
    if plan.packaged_mode {
        push_var(&mut out, "ASTRBOT_ELECTRON_CLIENT", "1".to_owned());
        if !inherited.dashboard_host_set {
            push_var(&mut out, "DASHBOARD_HOST", "127.0.0.1".to_owned());
        }
        if !inherited.dashboard_port_set {
            push_var(&mut out, "DASHBOARD_PORT", "6185".to_owned());
        }
        assert(pairs_view(out@) =~= base + packaged_vars(*inherited));
    } else {
        assert(pairs_view(out@) =~= base + Seq::empty());
    }
    let ghost mid = pairs_view(out@);
    match &plan.root_dir {
        Some(root) => push_var(&mut out, "ASTRBOT_ROOT", root.clone()),
        None => {},
    }
    match &plan.webui_dir {
        Some(webui) => push_var(&mut out, "ASTRBOT_WEBUI_DIR", webui.clone()),
        None => {},
    }
    assert(pairs_view(out@) =~= mid + dir_vars(plan@));
    out
}

/// A directory that must exist before the worker is spawned.
#[derive(Debug)]
pub struct StartupDir {
    pub role: DirectoryRole,
    pub path: String,
}

pub open spec fn dirs_view(v: Seq<StartupDir>) -> Seq<(DirectoryRole, Seq<char>)> {
    v.map_values(|d: StartupDir| (d.role, d.path@))
}

/// The directories to create before spawning, where absent: the working
/// directory, then the root directory and its log directory.
pub open spec fn startup_dirs(plan: LaunchPlanView) -> Seq<(DirectoryRole, Seq<char>)> {
    seq![(DirectoryRole::WorkingDir, plan.cwd)] + match plan.root_dir {
        Some(r) => seq![(DirectoryRole::RootDir, r), (DirectoryRole::LogDir, joined(r, "logs"@))],
        None => Seq::empty(),
    }
}

/// Lists the directories that must exist before the worker is spawned.
pub fn startup_directories(plan: &LaunchPlan) -> (r: Vec<StartupDir>)
    ensures
        dirs_view(r@) == startup_dirs(plan@),
{
    let mut out: Vec<StartupDir> = Vec::new();
    out.push(StartupDir { role: DirectoryRole::WorkingDir, path: plan.cwd.clone() });
    match &plan.root_dir {
        Some(root) => {
            out.push(StartupDir { role: DirectoryRole::RootDir, path: root.clone() });
            out.push(StartupDir { role: DirectoryRole::LogDir, path: join_path(root.as_str(), "logs") });
        },
        None => {},
    }
    assert(dirs_view(out@) =~= startup_dirs(plan@));
    out
}

/// Where the worker's output goes: appended to the log file under the root
/// directory, or discarded when no root directory is known.
pub fn output_log_path(plan: &LaunchPlan) -> (r: Option<String>)
    ensures
        match plan.root_dir {
            Some(root) => r matches Some(p) && p@ == joined(root@, "logs/backend.log"@),
            None => r.is_none(),
        },
{
    match &plan.root_dir {
        Some(root) => backend_log_path(Some(root.as_str())),
        None => backend_log_path(None),
    }
}

/// What `ensure ready` does before any launch work.
#[derive(PartialEq, Eq, Structural, Clone, Copy, Debug)]
pub enum EnsureDecision {
    /// The endpoint already answers: nothing to launch.
    AlreadyReachable,
    /// Automatic start is switched off: fail.
    AutoStartDisabled,
    /// Resolve a plan, start the worker and wait for it.
    Launch,
}

/// Decides how to make the worker ready, given whether its endpoint already
/// answers and the configured auto-start switch, which only `0` turns off.
pub fn decide_ensure_ready(reachable: bool, auto_start: Option<&str>) -> (r: EnsureDecision)
    ensures
        r == if reachable {
            EnsureDecision::AlreadyReachable
        } else if auto_start matches Some(v) && v@ == "0"@ {
            EnsureDecision::AutoStartDisabled
        } else {
            EnsureDecision::Launch
        },
{
    if reachable {
        return EnsureDecision::AlreadyReachable;
    }
    match auto_start {
        Some(v) => if str_eq(v, "0") {
            EnsureDecision::AutoStartDisabled
        } else {
            EnsureDecision::Launch
        },
        None => EnsureDecision::Launch,
    }
}

} // verus!
