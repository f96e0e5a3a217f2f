use astrbot_desktop::endpoint::{
    normalize_backend_url, parse_openable_url, probe_target, probe_timeout_ms, OpenUrlError,
    DEFAULT_BACKEND_URL,
};
use astrbot_desktop::launch::{
    backend_log_path, build_debug_command, first_source_root, override_command_of,
    packaged_runtime_paths, plan_from_command_words, resolve_custom_launch, resolve_dev_launch,
    resolve_launch_plan, resolve_packaged_launch, select_launch_strategy, LaunchEnv, LaunchError,
    LaunchInputs, LaunchPlan, LaunchStrategy, PackagedLayout, RuntimeManifest, SourceCandidate,
};
use astrbot_desktop::readiness::{parse_u64, resolve_backend_timeout_ms};
use astrbot_desktop::spawn::{
    child_environment, decide_ensure_ready, output_log_path, startup_directories, EnsureDecision,
    InheritedEnv,
};
use astrbot_desktop::supervisor::DirectoryRole;
use astrbot_desktop::text::{join_path, str_eq, trim};

fn empty_env() -> LaunchEnv {
    LaunchEnv { backend_cmd: None, backend_cwd: None, root_dir: None, webui_dir: None }
}

fn strings(items: &[&str]) -> Vec<String> {
    items.iter().map(|s| s.to_string()).collect()
}

#[test]
fn launch_plan_follows_strategy_priority() {
    let mut env = empty_env();
    let plan = resolve_launch_plan(&env, inputs(Some("/ws"), Some(Ok(layout(true, true)))))
        .ok()
        .unwrap();
    assert!(plan.packaged_mode);
    let unreadable = LaunchError::UnreadableManifest {
        path: "/app/backend/m.json".to_string(),
        reason: "denied".to_string(),
    };
    assert!(matches!(
        resolve_launch_plan(&env, inputs(Some("/ws"), Some(Err(unreadable)))),
        Err(LaunchError::UnreadableManifest { .. })
    ));
    env.backend_cmd = Some("echo hi".to_string());
    let plan = resolve_launch_plan(&env, inputs(None, Some(Ok(layout(true, true))))).ok().unwrap();
    assert_eq!(plan.cmd, "echo");
    assert_eq!(plan.cwd, "/work/space");
    assert!(!plan.packaged_mode);
}

#[test]
fn override_command_without_cwd_or_source_tree_uses_workspace_root() {
    let mut env = empty_env();
    env.backend_cmd = Some("echo hi".to_string());
    assert_eq!(select_launch_strategy(&env, true), LaunchStrategy::Override);
    let command = override_command_of(&env).unwrap();
    let plan = resolve_custom_launch(&command, &env, None, "/work/space").ok().unwrap();
    assert_eq!(plan.cmd, "echo");
    assert_eq!(plan.args, strings(&["hi"]));
    assert_eq!(plan.cwd, "/work/space");
    assert!(!plan.packaged_mode);
    assert_eq!(plan.root_dir, None);
}

#[test]
fn override_command_prefers_configured_cwd_then_source_tree() {
    let mut env = empty_env();
    env.backend_cmd = Some("  python 'my script.py' --flag  ".to_string());
    env.root_dir = Some("/data".to_string());
    let command = override_command_of(&env).unwrap();
    assert_eq!(command, "python 'my script.py' --flag");
    let plan = resolve_custom_launch(&command, &env, Some("/src/AstrBot".to_string()), "/ws")
        .ok()
        .unwrap();
    assert_eq!(plan.args, strings(&["my script.py", "--flag"]));
    assert_eq!(plan.cwd, "/src/AstrBot");
    assert_eq!(plan.root_dir, Some("/data".to_string()));
    env.backend_cwd = Some("/run/here".to_string());
    let plan = resolve_custom_launch(&command, &env, Some("/src/AstrBot".to_string()), "/ws")
        .ok()
        .unwrap();
    assert_eq!(plan.cwd, "/run/here");
}

#[test]
fn override_command_errors() {
    let env = empty_env();
    assert!(matches!(
        resolve_custom_launch("echo 'open", &env, None, "/ws"),
        Err(LaunchError::InvalidOverrideCommand(c)) if c == "echo 'open"
    ));
    assert!(matches!(
        plan_from_command_words("", Some(Vec::new()), &env, None, "/ws"),
        Err(LaunchError::EmptyOverrideCommand)
    ));
}

#[test]
fn blank_override_command_is_no_override() {
    let mut env = empty_env();
    env.backend_cmd = Some("   ".to_string());
    assert!(override_command_of(&env).is_none());
    assert_eq!(select_launch_strategy(&env, true), LaunchStrategy::Packaged);
}

fn inputs(source_root: Option<&str>, packaged: Option<Result<PackagedLayout, LaunchError>>) -> LaunchInputs {
    LaunchInputs {
        source_root: source_root.map(str::to_string),
        workspace_root: "/work/space".to_string(),
        packaged,
        default_root: Some("/home/u/.astrbot".to_string()),
        built_webui_dir: None,
    }
}

#[test]
fn absent_manifest_falls_through_to_development() {
    let env = empty_env();
    assert_eq!(select_launch_strategy(&env, false), LaunchStrategy::Development);
    assert!(matches!(resolve_packaged_launch(None, &env, None), Ok(None)));
    let plan = resolve_launch_plan(&env, inputs(Some("/ws/AstrBot"), None)).ok().unwrap();
    assert_eq!(plan.cmd, "uv");
    assert!(!plan.packaged_mode);
    assert!(matches!(
        resolve_launch_plan(&env, inputs(None, None)),
        Err(LaunchError::SourceDirectoryNotFound)
    ));
    let candidates = vec![
        SourceCandidate { path: "/ws/vendor/AstrBot".to_string(), has_entry_file: true, has_package_dir: false },
        SourceCandidate { path: "/ws/AstrBot".to_string(), has_entry_file: true, has_package_dir: true },
        SourceCandidate { path: "/ws".to_string(), has_entry_file: true, has_package_dir: true },
    ];
    let root = first_source_root(&candidates);
    assert_eq!(root, Some("/ws/AstrBot".to_string()));
    let plan = resolve_dev_launch(root, &env, None).ok().unwrap();
    assert_eq!(plan.cmd, "uv");
    assert_eq!(plan.args, strings(&["run", "main.py"]));
    assert_eq!(plan.cwd, "/ws/AstrBot");
    assert!(!plan.packaged_mode);
}

#[test]
fn development_launch_passes_built_assets() {
    let env = empty_env();
    let plan = resolve_dev_launch(
        Some("/ws".to_string()),
        &env,
        Some("/ws/dashboard/dist".to_string()),
    )
    .ok()
    .unwrap();
    assert_eq!(plan.args, strings(&["run", "main.py", "--webui-dir", "/ws/dashboard/dist"]));
    assert_eq!(plan.webui_dir, Some("/ws/dashboard/dist".to_string()));
}

#[test]
fn development_launch_without_source_tree_fails() {
    let env = empty_env();
    let none: Vec<SourceCandidate> = vec![SourceCandidate {
        path: "/ws".to_string(),
        has_entry_file: false,
        has_package_dir: true,
    }];
    assert_eq!(first_source_root(&none), None);
    assert!(matches!(
        resolve_dev_launch(None, &env, None),
        Err(LaunchError::SourceDirectoryNotFound)
    ));
}

#[test]
fn packaged_paths_use_manifest_or_defaults() {
    let manifest = RuntimeManifest { python: None, entrypoint: None };
    let (python, script) = packaged_runtime_paths("/app/backend", &manifest, false);
    assert_eq!(python, "/app/backend/python/bin/python3");
    assert_eq!(script, "/app/backend/launch_backend.py");
    let manifest = RuntimeManifest {
        python: Some("rt/py".to_string()),
        entrypoint: Some("start.py".to_string()),
    };
    let (python, script) = packaged_runtime_paths("/app/backend/", &manifest, false);
    assert_eq!(python, "/app/backend/rt/py");
    assert_eq!(script, "/app/backend/start.py");
    let (python, _) =
        packaged_runtime_paths("C:\\app", &RuntimeManifest { python: None, entrypoint: None }, true);
    assert_eq!(python, "C:\\app/python\\Scripts\\python.exe");
}

fn layout(python_is_file: bool, script_is_file: bool) -> PackagedLayout {
    PackagedLayout {
        backend_dir: "/app/backend".to_string(),
        python_path: "/app/backend/python/bin/python3".to_string(),
        python_is_file,
        script_path: "/app/backend/launch_backend.py".to_string(),
        script_is_file,
        bundled_webui_dir: Some("/app/webui".to_string()),
    }
}

#[test]
fn packaged_launch_checks_both_files() {
    let env = empty_env();
    assert!(matches!(
        resolve_packaged_launch(Some(layout(false, true)), &env, None),
        Err(LaunchError::MissingPackagedRuntime(p)) if p == "/app/backend/python/bin/python3"
    ));
    assert!(matches!(
        resolve_packaged_launch(Some(layout(true, false)), &env, None),
        Err(LaunchError::MissingEntryPoint(p)) if p == "/app/backend/launch_backend.py"
    ));
}

#[test]
fn packaged_launch_directories() {
    let env = empty_env();
    let plan = resolve_packaged_launch(Some(layout(true, true)), &env, Some("/home/u/.astrbot".to_string()))
        .ok()
        .flatten()
        .unwrap();
    assert!(plan.packaged_mode);
    assert_eq!(plan.cmd, "/app/backend/python/bin/python3");
    assert_eq!(plan.args, strings(&["/app/backend/launch_backend.py"]));
    assert_eq!(plan.cwd, "/home/u/.astrbot");
    assert_eq!(plan.root_dir, Some("/home/u/.astrbot".to_string()));
    assert_eq!(plan.webui_dir, Some("/app/webui".to_string()));
    let plan = resolve_packaged_launch(Some(layout(true, true)), &env, None).ok().flatten().unwrap();
    assert_eq!(plan.cwd, "/app/backend");
    let mut env = empty_env();
    env.webui_dir = Some("/custom/webui".to_string());
    env.backend_cwd = Some("/custom/cwd".to_string());
    let plan = resolve_packaged_launch(Some(layout(true, true)), &env, None).ok().flatten().unwrap();
    assert_eq!(plan.cwd, "/custom/cwd");
    assert_eq!(plan.webui_dir, Some("/custom/webui".to_string()));
}

#[test]
fn timeout_policy() {
    assert_eq!(resolve_backend_timeout_ms(true, None), 300000);
    assert_eq!(resolve_backend_timeout_ms(false, None), 20000);
    assert_eq!(resolve_backend_timeout_ms(true, Some(" 1500 ")), 1500);
    assert_eq!(resolve_backend_timeout_ms(false, Some("1500")), 1500);
    assert_eq!(resolve_backend_timeout_ms(false, Some("0")), 20000);
    assert_eq!(resolve_backend_timeout_ms(true, Some("0")), 300000);
    assert_eq!(resolve_backend_timeout_ms(false, Some("soon")), 20000);
}

#[test]
fn parse_u64_edges() {
    assert_eq!(parse_u64("18446744073709551615"), Some(u64::MAX));
    assert_eq!(parse_u64("18446744073709551616"), None);
    assert_eq!(parse_u64("+42"), Some(42));
    assert_eq!(parse_u64("+"), None);
    assert_eq!(parse_u64(""), None);
    assert_eq!(parse_u64("-1"), None);
    assert_eq!(parse_u64("12a"), None);
    assert_eq!(parse_u64("007"), Some(7));
}

#[test]
fn unparsable_endpoint_is_unreachable() {
    assert!(probe_target("not a url").is_none());
}

#[test]
fn probe_target_reads_host_and_port() {
    let t = probe_target("http://127.0.0.1:6185/").unwrap();
    assert_eq!(t.host, "127.0.0.1");
    assert_eq!(t.port, 6185);
    let t = probe_target("https://example.com").unwrap();
    assert_eq!(t.port, 443);
    let t = probe_target("foo://example.com").unwrap();
    assert_eq!(t.port, 80);
    assert!(probe_target("unix:/run/foo.socket").is_none());
    assert_eq!(probe_timeout_ms(10), 50);
    assert_eq!(probe_timeout_ms(800), 800);
}

#[test]
fn normalize_backend_url_cases() {
    assert_eq!(normalize_backend_url("   "), DEFAULT_BACKEND_URL);
    assert_eq!(normalize_backend_url("not a url"), DEFAULT_BACKEND_URL);
    assert_eq!(normalize_backend_url(" http://localhost:8000 "), "http://localhost:8000/");
    assert_eq!(normalize_backend_url("foo://host"), "foo://host/");
    assert_eq!(normalize_backend_url("http://h/a?b=1"), "http://h/a?b=1");
}

#[test]
fn openable_urls() {
    assert_eq!(parse_openable_url(" https://example.com ").ok(), Some("https://example.com/".to_string()));
    assert!(matches!(parse_openable_url("  "), Err(OpenUrlError::Missing)));
    assert_eq!(parse_openable_url("  ").err().unwrap().message(), "Missing external URL.");
    assert_eq!(
        parse_openable_url("ftp://host/").err().unwrap().message(),
        "Unsupported URL scheme 'ftp', only http/https are allowed."
    );
    assert!(parse_openable_url("::nope").err().unwrap().message().starts_with("Invalid URL: "));
    assert!(matches!(parse_openable_url("::nope"), Err(OpenUrlError::Invalid(_))));
    assert!(matches!(
        parse_openable_url("file:///etc/passwd"),
        Err(OpenUrlError::UnsupportedScheme(s)) if s == "file"
    ));
}

#[test]
fn child_environment_for_packaged_plan() {
    let plan = LaunchPlan {
        cmd: "py".to_string(),
        args: Vec::new(),
        cwd: "/c".to_string(),
        root_dir: Some("/r".to_string()),
        webui_dir: None,
        packaged_mode: true,
    };
    let inherited = InheritedEnv {
        python_utf8: None,
        python_io_encoding: Some("latin-1".to_string()),
        dashboard_host_set: true,
        dashboard_port_set: false,
    };
    let env = child_environment(&plan, &inherited);
    let expected: Vec<(String, String)> = [
        ("PYTHONUNBUFFERED", "1"),
        ("PYTHONUTF8", "1"),
        ("PYTHONIOENCODING", "latin-1"),
        ("ASTRBOT_ELECTRON_CLIENT", "1"),
        ("DASHBOARD_PORT", "6185"),
        ("ASTRBOT_ROOT", "/r"),
    ]
    .iter()
    .map(|(k, v)| (k.to_string(), v.to_string()))
    .collect();
    assert_eq!(env, expected);
    let dirs: Vec<(DirectoryRole, String)> =
        startup_directories(&plan).into_iter().map(|d| (d.role, d.path)).collect();
    assert_eq!(
        dirs,
        vec![
            (DirectoryRole::WorkingDir, "/c".to_string()),
            (DirectoryRole::RootDir, "/r".to_string()),
            (DirectoryRole::LogDir, "/r/logs".to_string()),
        ]
    );
    assert_eq!(output_log_path(&plan), Some("/r/logs/backend.log".to_string()));
}

#[test]
fn child_environment_for_development_plan() {
    let plan = LaunchPlan {
        cmd: "uv".to_string(),
        args: Vec::new(),
        cwd: "/c".to_string(),
        root_dir: None,
        webui_dir: Some("/w".to_string()),
        packaged_mode: false,
    };
    let inherited = InheritedEnv {
        python_utf8: None,
        python_io_encoding: None,
        dashboard_host_set: false,
        dashboard_port_set: false,
    };
    let env = child_environment(&plan, &inherited);
    assert_eq!(env.len(), 4);
    assert_eq!(env[2], ("PYTHONIOENCODING".to_string(), "utf-8".to_string()));
    assert_eq!(env[3], ("ASTRBOT_WEBUI_DIR".to_string(), "/w".to_string()));
    assert_eq!(output_log_path(&plan), None);
    assert_eq!(startup_directories(&plan).len(), 1);
}

#[test]
fn log_path_and_debug_command() {
    assert_eq!(backend_log_path(Some("/root")), Some("/root/logs/backend.log".to_string()));
    assert_eq!(backend_log_path(None), None);
    let plan = LaunchPlan {
        cmd: "uv".to_string(),
        args: strings(&["run", "main.py"]),
        cwd: "/c".to_string(),
        root_dir: None,
        webui_dir: None,
        packaged_mode: false,
    };
    assert_eq!(build_debug_command(&plan), strings(&["uv", "run", "main.py"]));
}

#[test]
fn ensure_ready_decisions() {
    assert_eq!(decide_ensure_ready(true, Some("0")), EnsureDecision::AlreadyReachable);
    assert_eq!(decide_ensure_ready(false, Some("0")), EnsureDecision::AutoStartDisabled);
    assert_eq!(decide_ensure_ready(false, Some("1")), EnsureDecision::Launch);
    assert_eq!(decide_ensure_ready(false, None), EnsureDecision::Launch);
}

#[test]
fn text_helpers() {
    assert_eq!(trim("\u{3000} a b \t\n"), "a b");
    assert_eq!(trim(""), "");
    assert!(str_eq("abc", "abc"));
    assert!(!str_eq("abc", "abd"));
    assert_eq!(join_path("", "x"), "x");
    assert_eq!(join_path("/a", "/abs"), "/abs");
    assert_eq!(join_path("/a", "b"), "/a/b");
}
