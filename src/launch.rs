//! Deciding how the worker is invoked: an explicit override command, a packaged
//! runtime described by a manifest, or a development source tree.
use vstd::prelude::*;
use crate::text::{join_path, joined, trim, trimmed};

verus! {

/// The value of an optional string, as a sequence of characters.
pub open spec fn opt_view(o: Option<String>) -> Option<Seq<char>> {
    match o {
        Some(s) => Some(s@),
        None => None,
    }
}

/// The values of a list of strings.
pub open spec fn words_view(v: Seq<String>) -> Seq<Seq<char>> {
    v.map_values(|w: String| w@)
}

/// The first of two optional values that is present.
pub open spec fn or_else(a: Option<Seq<char>>, b: Option<Seq<char>>) -> Option<Seq<char>> {
    match a {
        Some(x) => Some(x),
        None => b,
    }
}

fn clone_opt(o: &Option<String>) -> (r: Option<String>)
    ensures
        opt_view(r) == opt_view(*o),
{
    match o {
        Some(s) => Some(s.clone()),
        None => None,
    }
}

fn first_present(a: &Option<String>, b: &Option<String>) -> (r: Option<String>)
    ensures
        opt_view(r) == or_else(opt_view(*a), opt_view(*b)),
{
    match a {
        Some(s) => Some(s.clone()),
        None => clone_opt(b),
    }
}

/// Everything needed to spawn the worker once. A plan is built for one launch
/// attempt and never kept across restarts.
#[derive(Debug)]
pub struct LaunchPlan {
    pub cmd: String,
    pub args: Vec<String>,
    pub cwd: String,
    pub root_dir: Option<String>,
    pub webui_dir: Option<String>,
    pub packaged_mode: bool,
}

pub ghost struct LaunchPlanView {
    pub cmd: Seq<char>,
    pub args: Seq<Seq<char>>,
    pub cwd: Seq<char>,
    pub root_dir: Option<Seq<char>>,
    pub webui_dir: Option<Seq<char>>,
    pub packaged_mode: bool,
}

impl View for LaunchPlan {
    type V = LaunchPlanView;

    open spec fn view(&self) -> LaunchPlanView {
        LaunchPlanView {
            cmd: self.cmd@,
            args: words_view(self.args@),
            cwd: self.cwd@,
            root_dir: opt_view(self.root_dir),
            webui_dir: opt_view(self.webui_dir),
            packaged_mode: self.packaged_mode,
        }
    }
}

/// The configuration overrides that launch resolution reads.
#[derive(Debug)]
pub struct LaunchEnv {
    /// An explicit command line for the worker.
    pub backend_cmd: Option<String>,
    /// An explicit working directory.
    pub backend_cwd: Option<String>,
    /// An explicit root data directory.
    pub root_dir: Option<String>,
    /// An explicit static-assets directory.
    pub webui_dir: Option<String>,
}

/// Why no launch plan could be produced.
#[derive(Debug)]
pub enum LaunchError {
    /// The override command could not be split into words.
    InvalidOverrideCommand(String),
    /// The override command holds no word.
    EmptyOverrideCommand,
    /// The packaged interpreter is not a file.
    MissingPackagedRuntime(String),
    /// The packaged entry point is not a file.
    MissingEntryPoint(String),
    /// No development source tree qualifies.
    SourceDirectoryNotFound,
    /// The packaged runtime manifest has no directory around it.
    InvalidManifestPath(String),
    /// The packaged runtime manifest could not be read.
    UnreadableManifest { path: String, reason: String },
    /// The packaged runtime manifest could not be parsed.
    MalformedManifest { path: String, reason: String },
}

/// The text of a resolution error.
pub open spec fn launch_error_text(e: LaunchError) -> Seq<char> {
    match e {
        LaunchError::InvalidOverrideCommand(c) => "Invalid ASTRBOT_BACKEND_CMD: "@ + c@,
        LaunchError::EmptyOverrideCommand => "ASTRBOT_BACKEND_CMD is empty."@,
        LaunchError::MissingPackagedRuntime(p) => "Packaged runtime python executable is missing: "@
            + p@,
        LaunchError::MissingEntryPoint(p) => "Packaged backend launch script is missing: "@ + p@,
        LaunchError::SourceDirectoryNotFound => SOURCE_NOT_FOUND_TEXT@,
        LaunchError::InvalidManifestPath(p) => "Invalid backend manifest path: "@ + p@,
        LaunchError::UnreadableManifest { path, reason } => "Failed to read packaged backend manifest "@
            + path@ + ": "@ + reason@,
        LaunchError::MalformedManifest { path, reason } => "Failed to parse packaged backend manifest "@
            + path@ + ": "@ + reason@,
    }
}

pub const SOURCE_NOT_FOUND_TEXT: &'static str = "Cannot locate AstrBot source directory. Set ASTRBOT_SOURCE_DIR, or configure ASTRBOT_SOURCE_GIT_URL/ASTRBOT_SOURCE_GIT_REF and run resource prepare.";

impl LaunchError {
    /// The message shown to the user, naming what to configure.
    pub fn message(&self) -> (r: String)
        ensures
            r@ == launch_error_text(*self),
    {
        match self {
            LaunchError::InvalidOverrideCommand(c) => {
                let mut s = "Invalid ASTRBOT_BACKEND_CMD: ".to_owned();
                s.append(c.as_str());
                s
            },
            LaunchError::EmptyOverrideCommand => "ASTRBOT_BACKEND_CMD is empty.".to_owned(),
            LaunchError::MissingPackagedRuntime(p) => {
                let mut s = "Packaged runtime python executable is missing: ".to_owned();
                s.append(p.as_str());
                s
            },
            LaunchError::MissingEntryPoint(p) => {
                let mut s = "Packaged backend launch script is missing: ".to_owned();
                s.append(p.as_str());
                s
            },
            LaunchError::SourceDirectoryNotFound => SOURCE_NOT_FOUND_TEXT.to_owned(),
            LaunchError::InvalidManifestPath(p) => {
                let mut s = "Invalid backend manifest path: ".to_owned();
                s.append(p.as_str());
                s
            },
            LaunchError::UnreadableManifest { path, reason } => {
                let mut s = "Failed to read packaged backend manifest ".to_owned();
                s.append(path.as_str());
                s.append(": ");
                s.append(reason.as_str());
                s
            },
            LaunchError::MalformedManifest { path, reason } => {
                let mut s = "Failed to parse packaged backend manifest ".to_owned();
                s.append(path.as_str());
                s.append(": ");
                s.append(reason.as_str());
                s
            },
        }
    }
}

/// The three ways of invoking the worker, in priority order.
#[derive(PartialEq, Eq, Structural, Clone, Copy, Debug)]
pub enum LaunchStrategy {
    Override,
    Packaged,
    Development,
}

/// The override command, trimmed, when one is configured and not blank.
pub open spec fn override_command(cmd: Option<Seq<char>>) -> Option<Seq<char>> {
    match cmd {
        Some(c) => if trimmed(c).len() > 0 {
            Some(trimmed(c))
        } else {
            None
        },
        None => None,
    }
}

/// The strategy that applies: the first of override, packaged, development.
pub open spec fn strategy_for(cmd: Option<Seq<char>>, manifest_present: bool) -> LaunchStrategy {
    if override_command(cmd).is_some() {
        LaunchStrategy::Override
    } else if manifest_present {
        LaunchStrategy::Packaged
    } else {
        LaunchStrategy::Development
    }
}

/// Exactly one strategy applies to every configuration, by a fixed priority:
/// the override whenever a non-blank command is configured, the packaged
/// runtime only without one and with its manifest present, the development
/// tree only when neither holds.
pub proof fn lemma_strategy_priority(cmd: Option<Seq<char>>, manifest_present: bool)
    ensures
        (strategy_for(cmd, manifest_present) == LaunchStrategy::Override) <==> override_command(
            cmd,
        ).is_some(),
        (strategy_for(cmd, manifest_present) == LaunchStrategy::Packaged) <==> (override_command(
            cmd,
        ).is_none() && manifest_present),
        (strategy_for(cmd, manifest_present) == LaunchStrategy::Development) <==> (
        override_command(cmd).is_none() && !manifest_present),
{
}

/// The trimmed override command, if one is configured and not blank.
pub fn override_command_of(env: &LaunchEnv) -> (r: Option<String>)
    ensures
        opt_view(r) == override_command(opt_view(env.backend_cmd)),
{
    match &env.backend_cmd {
        Some(c) => {
            let t = trim(c.as_str());
            if t.unicode_len() > 0 {
                Some(t.to_owned())
            } else {
                None
            }
        },
        None => None,
    }
}

/// Picks the launch strategy: an override command wins, then a packaged
/// runtime whose manifest is present, then the development source tree.
pub fn select_launch_strategy(env: &LaunchEnv, manifest_present: bool) -> (r: LaunchStrategy)
    ensures
        r == strategy_for(opt_view(env.backend_cmd), manifest_present),
{
    if override_command_of(env).is_some() {
        LaunchStrategy::Override
    } else if manifest_present {
        LaunchStrategy::Packaged
    } else {
        LaunchStrategy::Development
    }
}

/// The words of a command line as a POSIX shell would split them, or `None`
/// where it cannot be split.
pub uninterp spec fn shell_words(s: Seq<char>) -> Option<Seq<Seq<char>>>;

/// Relies on `shlex::split`: the POSIX-shell words of the input, `None` where a
/// quote is left open or the input ends in an escape.
#[verifier::external_body]
fn split_command(s: &str) -> (r: Option<Vec<String>>)
    ensures
        match r {
            Some(v) => shell_words(s@) == Some(words_view(v@)),
            None => shell_words(s@).is_none(),
        },
{
    shlex::split(s)
}

/// The plan of the override strategy, given the words of the command.
pub open spec fn override_plan(
    words: Seq<Seq<char>>,
    env_cwd: Option<Seq<char>>,
    env_root: Option<Seq<char>>,
    env_webui: Option<Seq<char>>,
    detected_source_root: Option<Seq<char>>,
    workspace_root: Seq<char>,
) -> LaunchPlanView {
    LaunchPlanView {
        cmd: words[0],
        args: words.drop_first(),
        cwd: or_else(or_else(env_cwd, detected_source_root), Some(workspace_root))->Some_0,
        root_dir: env_root,
        webui_dir: env_webui,
        packaged_mode: false,
    }
}

/// Builds the override plan from the already split words of `command`: the
/// first word is the program, the rest its arguments. The working directory is
/// the configured one, else the detected source tree, else the workspace root.
pub fn plan_from_command_words(
    command: &str,
    words: Option<Vec<String>>,
    env: &LaunchEnv,
    detected_source_root: Option<String>,
    workspace_root: &str,
) -> (r: Result<LaunchPlan, LaunchError>)
    ensures
        match words {
            None => r matches Err(LaunchError::InvalidOverrideCommand(c)) && c@ == command@,
            Some(w) => if w@.len() == 0 {
                r matches Err(LaunchError::EmptyOverrideCommand)
            } else {
                r matches Ok(p) && p@ == override_plan(
                    words_view(w@),
                    opt_view(env.backend_cwd),
                    opt_view(env.root_dir),
                    opt_view(env.webui_dir),
                    opt_view(detected_source_root),
                    workspace_root@,
                )
            },
        },
{
    match words {
        None => Err(LaunchError::InvalidOverrideCommand(command.to_owned())),
        Some(w) => {
            if w.len() == 0 {
                return Err(LaunchError::EmptyOverrideCommand);
            }
            let ghost before = w@;
            let mut args = w;
            let cmd = args.remove(0);
            assert(words_view(args@) =~= words_view(before).drop_first());
            let cwd = match &env.backend_cwd {
                Some(c) => c.clone(),
                None => match detected_source_root {
                    Some(d) => d,
                    None => workspace_root.to_owned(),
                },
            };
            Ok(
                LaunchPlan {
                    cmd,
                    args,
                    cwd,
                    root_dir: clone_opt(&env.root_dir),
                    webui_dir: clone_opt(&env.webui_dir),
                    packaged_mode: false,
                },
            )
        },
    }
}

/// What the override strategy returns for `command`.
pub open spec fn custom_launch_result(
    command: Seq<char>,
    env: LaunchEnv,
    detected_source_root: Option<Seq<char>>,
    workspace_root: Seq<char>,
    r: Result<LaunchPlan, LaunchError>,
) -> bool {
    match shell_words(command) {
        None => r matches Err(LaunchError::InvalidOverrideCommand(c)) && c@ == command,
        Some(w) => if w.len() == 0 {
            r matches Err(LaunchError::EmptyOverrideCommand)
        } else {
            r matches Ok(p) && p@ == override_plan(
                w,
                opt_view(env.backend_cwd),
                opt_view(env.root_dir),
                opt_view(env.webui_dir),
                detected_source_root,
                workspace_root,
            )
        },
    }
}

/// The override strategy: splits `command` as a shell would and builds the plan
/// from its words.
pub fn resolve_custom_launch(
    command: &str,
    env: &LaunchEnv,
    detected_source_root: Option<String>,
    workspace_root: &str,
) -> (r: Result<LaunchPlan, LaunchError>)
    ensures
        custom_launch_result(command@, *env, opt_view(detected_source_root), workspace_root@, r),
{
    let words = split_command(command);
    assert(words matches Some(v) ==> words_view(v@).len() == v@.len());
    plan_from_command_words(command, words, env, detected_source_root, workspace_root)
}

/// The two optional fields of the packaged runtime manifest, each a path
/// relative to the manifest's own directory.
#[derive(Debug)]
pub struct RuntimeManifest {
    pub python: Option<String>,
    pub entrypoint: Option<String>,
}

/// The interpreter path used when the manifest names none.
pub open spec fn default_python_relative(windows: bool) -> Seq<char> {
    if windows {
        "python\\Scripts\\python.exe"@
    } else {
        "python/bin/python3"@
    }
}

/// The interpreter and entry-point paths of a packaged runtime whose manifest
/// lies in `backend_dir`.
pub fn packaged_runtime_paths(backend_dir: &str, manifest: &RuntimeManifest, windows: bool) -> (r: (
    String,
    String,
))
    ensures
        r.0@ == joined(
            backend_dir@,
            or_else(opt_view(manifest.python), Some(default_python_relative(windows)))->Some_0,
        ),
        r.1@ == joined(
            backend_dir@,
            or_else(opt_view(manifest.entrypoint), Some("launch_backend.py"@))->Some_0,
        ),
{
    let python = match &manifest.python {
        Some(p) => join_path(backend_dir, p.as_str()),
        None => if windows {
            join_path(backend_dir, "python\\Scripts\\python.exe")
        } else {
            join_path(backend_dir, "python/bin/python3")
        },
    };
    let script = match &manifest.entrypoint {
        Some(e) => join_path(backend_dir, e.as_str()),
        None => join_path(backend_dir, "launch_backend.py"),
    };
    (python, script)
}

/// What the filesystem showed about a packaged runtime.
#[derive(Debug)]
pub struct PackagedLayout {
    /// The directory that holds the manifest.
    pub backend_dir: String,
    pub python_path: String,
    pub python_is_file: bool,
    pub script_path: String,
    pub script_is_file: bool,
    /// The directory of the bundled static assets, if they are bundled.
    pub bundled_webui_dir: Option<String>,
}

/// The plan of the packaged strategy.
pub open spec fn packaged_plan(
    layout: PackagedLayout,
    env_cwd: Option<Seq<char>>,
    env_root: Option<Seq<char>>,
    env_webui: Option<Seq<char>>,
    default_root: Option<Seq<char>>,
) -> LaunchPlanView {
    let root = or_else(env_root, default_root);
    LaunchPlanView {
        cmd: layout.python_path@,
        args: seq![layout.script_path@],
        cwd: or_else(or_else(env_cwd, root), Some(layout.backend_dir@))->Some_0,
        root_dir: root,
        webui_dir: or_else(env_webui, opt_view(layout.bundled_webui_dir)),
        packaged_mode: true,
    }
}

/// What the packaged strategy returns for a runtime whose manifest was read.
pub open spec fn packaged_launch_result(
    layout: PackagedLayout,
    env: LaunchEnv,
    default_root: Option<Seq<char>>,
    r: Result<LaunchPlan, LaunchError>,
) -> bool {
    if !layout.python_is_file {
        r matches Err(LaunchError::MissingPackagedRuntime(p)) && p@ == layout.python_path@
    } else if !layout.script_is_file {
        r matches Err(LaunchError::MissingEntryPoint(p)) && p@ == layout.script_path@
    } else {
        r matches Ok(p) && p@ == packaged_plan(
            layout,
            opt_view(env.backend_cwd),
            opt_view(env.root_dir),
            opt_view(env.webui_dir),
            default_root,
        )
    }
}

/// A present plan as a plan.
pub open spec fn present_plan(r: Result<Option<LaunchPlan>, LaunchError>) -> Result<
    LaunchPlan,
    LaunchError,
> {
    match r {
        Ok(Some(p)) => Ok(p),
        Ok(None) => Err(LaunchError::SourceDirectoryNotFound),
        Err(e) => Err(e),
    }
}

/// The packaged strategy. Without a manifest (`None`) it does not apply and
/// returns `Ok(None)`, which is no error. With one, both the interpreter and
/// the entry point must be files. The root directory is the configured one,
/// else `default_root`; the working directory the configured one, else the
/// root, else the manifest's directory.
pub fn resolve_packaged_launch(
    layout: Option<PackagedLayout>,
    env: &LaunchEnv,
    default_root: Option<String>,
) -> (r: Result<Option<LaunchPlan>, LaunchError>)
    ensures
        layout is None ==> r matches Ok(None),
        layout matches Some(l) ==> !(r matches Ok(None)) && packaged_launch_result(
            l,
            *env,
            opt_view(default_root),
            present_plan(r),
        ),
{
    match layout {
        None => Ok(None),
        Some(l) => match packaged_plan_of(l, env, default_root) {
            Ok(p) => Ok(Some(p)),
            Err(e) => Err(e),
        },
    }
}

fn packaged_plan_of(
    layout: PackagedLayout,
    env: &LaunchEnv,
    default_root: Option<String>,
) -> (r: Result<LaunchPlan, LaunchError>)
    ensures
        packaged_launch_result(layout, *env, opt_view(default_root), r),
{
    let ghost l = layout;
    if !layout.python_is_file {
        return Err(LaunchError::MissingPackagedRuntime(layout.python_path));
    }
    if !layout.script_is_file {
        return Err(LaunchError::MissingEntryPoint(layout.script_path));
    }
    let root_dir = first_present(&env.root_dir, &default_root);
    let cwd = match &env.backend_cwd {
        Some(c) => c.clone(),
        None => match &root_dir {
            Some(root) => root.clone(),
            None => layout.backend_dir,
        },
    };
    let webui_dir = first_present(&env.webui_dir, &layout.bundled_webui_dir);
    let mut args: Vec<String> = Vec::new();
    args.push(layout.script_path);
    assert(words_view(args@) =~= seq![l.script_path@]);
    Ok(
        LaunchPlan {
            cmd: layout.python_path,
            args,
            cwd,
            root_dir,
            webui_dir,
            packaged_mode: true,
        },
    )
}

/// A directory that may hold the worker's source tree.
#[derive(Debug)]
pub struct SourceCandidate {
    pub path: String,
    /// It holds the entry-point file.
    pub has_entry_file: bool,
    /// It holds the source package directory.
    pub has_package_dir: bool,
}

pub open spec fn qualifies(c: SourceCandidate) -> bool {
    c.has_entry_file && c.has_package_dir
}

/// The first candidate, in the order given, that holds both the entry-point
/// file and the source package directory.
pub fn first_source_root(candidates: &Vec<SourceCandidate>) -> (r: Option<String>)
    ensures
        match r {
            Some(p) => exists|i: int|
                0 <= i < candidates@.len() && qualifies(#[trigger] candidates@[i]) && p@
                    == candidates@[i].path@ && forall|j: int|
                    0 <= j < i ==> !qualifies(#[trigger] candidates@[j]),
            None => forall|i: int|
                0 <= i < candidates@.len() ==> !qualifies(#[trigger] candidates@[i]),
        },
{
    let mut i: usize = 0;
    while i < candidates.len()
        invariant
            i <= candidates@.len(),
            forall|j: int| 0 <= j < i ==> !qualifies(#[trigger] candidates@[j]),
        decreases candidates@.len() - i,
    {
        let c = &candidates[i];
        if c.has_entry_file && c.has_package_dir {
            return Some(c.path.clone());
        }
        i = i + 1;
    }
    None
}

/// The arguments of a development launch.
pub open spec fn dev_args(webui: Option<Seq<char>>) -> Seq<Seq<char>> {
    match webui {
        Some(w) => seq!["run"@, "main.py"@, "--webui-dir"@, w],
        None => seq!["run"@, "main.py"@],
    }
}

/// The plan of the development strategy for the source tree `source_root`.
pub open spec fn dev_plan(
    source_root: Seq<char>,
    env_cwd: Option<Seq<char>>,
    env_root: Option<Seq<char>>,
    env_webui: Option<Seq<char>>,
    built_webui_dir: Option<Seq<char>>,
) -> LaunchPlanView {
    let webui = or_else(env_webui, built_webui_dir);
    LaunchPlanView {
        cmd: "uv"@,
        args: dev_args(webui),
        cwd: or_else(env_cwd, Some(source_root))->Some_0,
        root_dir: env_root,
        webui_dir: webui,
        packaged_mode: false,
    }
}

/// What the development strategy returns.
pub open spec fn dev_launch_result(
    source_root: Option<Seq<char>>,
    env: LaunchEnv,
    built_webui_dir: Option<Seq<char>>,
    r: Result<LaunchPlan, LaunchError>,
) -> bool {
    match source_root {
        None => r matches Err(LaunchError::SourceDirectoryNotFound),
        Some(s) => r matches Ok(p) && p@ == dev_plan(
            s,
            opt_view(env.backend_cwd),
            opt_view(env.root_dir),
            opt_view(env.webui_dir),
            built_webui_dir,
        ),
    }
}

/// The development strategy: runs the entry point of the detected source tree
/// through `uv`, handing it the static-assets directory where one is known.
pub fn resolve_dev_launch(
    source_root: Option<String>,
    env: &LaunchEnv,
    built_webui_dir: Option<String>,
) -> (r: Result<LaunchPlan, LaunchError>)
    ensures
        dev_launch_result(opt_view(source_root), *env, opt_view(built_webui_dir), r),
{
    let source = match source_root {
        Some(s) => s,
        None => return Err(LaunchError::SourceDirectoryNotFound),
    };
    let webui_dir = first_present(&env.webui_dir, &built_webui_dir);
    let mut args: Vec<String> = Vec::new();
    args.push("run".to_owned());
    args.push("main.py".to_owned());
    match &webui_dir {
        Some(w) => {
            args.push("--webui-dir".to_owned());
            args.push(w.clone());
        },
        None => {},
    }
    assert(words_view(args@) =~= dev_args(opt_view(webui_dir)));
    let cwd = match &env.backend_cwd {
        Some(c) => c.clone(),
        None => source,
    };
    Ok(
        LaunchPlan {
            cmd: "uv".to_owned(),
            args,
            cwd,
            root_dir: clone_opt(&env.root_dir),
            webui_dir,
            packaged_mode: false,
        },
    )
}

/// What launch resolution reads from the filesystem.
pub struct LaunchInputs {
    /// The first qualifying development source tree, if any.
    pub source_root: Option<String>,
    /// The computed default workspace directory.
    pub workspace_root: String,
    /// The packaged runtime: `None` where no manifest is present, an error
    /// where the manifest could not be read.
    pub packaged: Option<Result<PackagedLayout, LaunchError>>,
    /// The default root directory of a packaged launch.
    pub default_root: Option<String>,
    /// The built static assets of the source tree, if they exist.
    pub built_webui_dir: Option<String>,
}

/// Resolves the launch plan: the first strategy that applies wins. A
/// non-blank override command selects the override strategy; otherwise a
/// present manifest selects the packaged strategy; otherwise the development
/// tree is used. Later strategies are not consulted.
pub fn resolve_launch_plan(env: &LaunchEnv, inputs: LaunchInputs) -> (r: Result<
    LaunchPlan,
    LaunchError,
>)
    ensures
        match override_command(opt_view(env.backend_cmd)) {
            Some(c) => custom_launch_result(
                c,
                *env,
                opt_view(inputs.source_root),
                inputs.workspace_root@,
                r,
            ),
            None => match inputs.packaged {
                Some(Err(e)) => r == Err::<LaunchPlan, LaunchError>(e),
                Some(Ok(layout)) => packaged_launch_result(
                    layout,
                    *env,
                    opt_view(inputs.default_root),
                    r,
                ),
                None => dev_launch_result(
                    opt_view(inputs.source_root),
                    *env,
                    opt_view(inputs.built_webui_dir),
                    r,
                ),
            },
        },
{
    match override_command_of(env) {
        Some(c) => resolve_custom_launch(
            c.as_str(),
            env,
            inputs.source_root,
            inputs.workspace_root.as_str(),
        ),
        None => match inputs.packaged {
            Some(Err(e)) => Err(e),
            packaged => {
                let layout = match packaged {
                    Some(Ok(l)) => Some(l),
                    _ => None,
                };
                match resolve_packaged_launch(layout, env, inputs.default_root) {
                    Ok(Some(p)) => Ok(p),
                    Err(e) => Err(e),
                    Ok(None) => resolve_dev_launch(inputs.source_root, env, inputs.built_webui_dir),
                }
            },
        },
    }
}

/// The worker's log file under the root directory, if one is known.
pub fn backend_log_path(root_dir: Option<&str>) -> (r: Option<String>)
    ensures
        match root_dir {
            Some(root) => r matches Some(p) && p@ == joined(root@, "logs/backend.log"@),
            None => r.is_none(),
        },
{
    match root_dir {
        Some(root) => Some(join_path(root, "logs/backend.log")),
        None => None,
    }
}

/// The full command line of a plan: the program followed by its arguments.
pub fn build_debug_command(plan: &LaunchPlan) -> (r: Vec<String>)
    ensures
        words_view(r@) == seq![plan.cmd@] + words_view(plan.args@),
{
    let mut parts: Vec<String> = Vec::new();
    parts.push(plan.cmd.clone());
    let mut i: usize = 0;
    while i < plan.args.len()
        invariant
            i <= plan.args@.len(),
            words_view(parts@) == seq![plan.cmd@] + words_view(plan.args@.subrange(0, i as int)),
        decreases plan.args@.len() - i,
    {
        let ghost before = parts@;
        parts.push(plan.args[i].clone());
        assert(words_view(plan.args@.subrange(0, i + 1)) =~= words_view(
            plan.args@.subrange(0, i as int),
        ).push(plan.args@[i as int]@));
        assert(words_view(parts@) =~= words_view(before).push(plan.args@[i as int]@));
        i = i + 1;
    }
    assert(plan.args@.subrange(0, plan.args@.len() as int) =~= plan.args@);
    parts
}

} // verus!
