use dsh_desktop::frontend::{
    choose_frontend_dir, frontend_dir_candidates, package_manager_candidates,
    package_manager_path, runtime_program_candidates, runtime_root_candidates, runtime_search_path, PathProbe,
};
use dsh_desktop::http::http_response_is_success;
use dsh_desktop::keychain::api_key_from;
use dsh_desktop::process::next_port_candidate;
use dsh_desktop::profile::{normalize_profile_manifest, profile_manifest_accepted, JsonValue};
use dsh_desktop::startup::{
    approve_next, corepack_install_dir_parts, corepack_outcome, first_approve_stage, first_start_stage,
    pnpm_add_outcome, pnpm_preparation, readiness_step, readiness_timeout_message, start_next,
    window_closed_message, ApproveAction, ApproveStage, CorepackPlan, ReadinessAction, StartAction, StartStage,
};

fn parts(items: &[&str]) -> Vec<String> {
    items.iter().map(|s| s.to_string()).collect()
}

fn probe(path: &str, present: bool) -> PathProbe {
    PathProbe { path: path.to_string(), present }
}

#[test]
fn environment_key_wins_when_well_formed() {
    assert_eq!(api_key_from(Some("sk-env".to_string())), Some("sk-env".to_string()));
}

#[test]
fn malformed_environment_key_is_not_used() {
    let key = api_key_from(Some("sk env".to_string()));
    assert_ne!(key, Some("sk env".to_string()));
    let key = api_key_from(Some(String::new()));
    assert_ne!(key, Some(String::new()));
}

#[test]
fn ports_are_searched_upward_from_the_default() {
    assert_eq!(next_port_candidate(None), Some(3080));
    assert_eq!(next_port_candidate(Some(3080)), Some(3081));
    assert_eq!(next_port_candidate(Some(3179)), Some(3180));
    assert_eq!(next_port_candidate(Some(3180)), None);
    assert_eq!(next_port_candidate(Some(80)), None);
}

#[test]
fn port_search_visits_every_port_once() {
    let mut seen = Vec::new();
    let mut port = next_port_candidate(None);
    while let Some(p) = port {
        seen.push(p);
        port = next_port_candidate(Some(p));
    }
    assert_eq!(seen.len(), 101);
    assert_eq!(seen.first(), Some(&3080));
    assert_eq!(seen.last(), Some(&3180));
}

#[test]
fn pnpm_candidates_on_unix() {
    let roots = parts(&["/r1", "/r2"]);
    let dirs = parts(&["/usr/bin", "/bin"]);
    let got = package_manager_candidates(&roots, &dirs, false);
    let want: Vec<Vec<String>> = vec![
        parts(&["/r1", "pnpm"]),
        parts(&["/r1", "bin", "pnpm"]),
        parts(&["/r2", "pnpm"]),
        parts(&["/r2", "bin", "pnpm"]),
        parts(&["/usr/bin", "pnpm"]),
        parts(&["/bin", "pnpm"]),
    ];
    assert_eq!(got, want);
}

#[test]
fn pnpm_candidates_on_windows() {
    let roots = parts(&["C:\\rt"]);
    let dirs = parts(&["C:\\a", "C:\\b"]);
    let got = package_manager_candidates(&roots, &dirs, true);
    let want: Vec<Vec<String>> = vec![
        parts(&["C:\\rt", "pnpm.cmd"]),
        parts(&["C:\\rt", "pnpm.exe"]),
        parts(&["C:\\rt", "pnpm"]),
        parts(&["C:\\a", "pnpm.cmd"]),
        parts(&["C:\\b", "pnpm.cmd"]),
        parts(&["C:\\a", "pnpm.exe"]),
        parts(&["C:\\b", "pnpm.exe"]),
        parts(&["C:\\a", "pnpm"]),
        parts(&["C:\\b", "pnpm"]),
    ];
    assert_eq!(got, want);
}

#[test]
fn package_manager_is_the_first_present_candidate() {
    let probes = vec![probe("/r1/pnpm", false), probe("/r1/bin/pnpm", true), probe("/usr/bin/pnpm", true)];
    assert_eq!(package_manager_path(&probes), Some("/r1/bin/pnpm".to_string()));
    assert_eq!(package_manager_path(&[probe("/x", false)]), None);
    assert_eq!(package_manager_path(&[]), None);
}

#[test]
fn frontend_candidates_in_order() {
    let got = frontend_dir_candidates(Some("/opt/app"), Some("/home/u"));
    let want: Vec<Vec<String>> = vec![
        parts(&["/opt/app", "frontend", "dsh-web-ui"]),
        parts(&["/opt/app", "Resources", "frontend", "dsh-web-ui"]),
        parts(&["/home/u", "frontend", "dsh-web-ui"]),
    ];
    assert_eq!(got, want);
    assert_eq!(frontend_dir_candidates(None, None), Vec::<Vec<String>>::new());
    assert_eq!(
        frontend_dir_candidates(None, Some("/w")),
        vec![parts(&["/w", "frontend", "dsh-web-ui"])]
    );
}

#[test]
fn frontend_dir_choice() {
    let probes = vec![probe("/opt/app/frontend/dsh-web-ui", false), probe("/w/frontend/dsh-web-ui", true)];
    assert_eq!(choose_frontend_dir(Some("/conf".to_string()), &probes), "/conf");
    assert_eq!(choose_frontend_dir(None, &probes), "/w/frontend/dsh-web-ui");
    assert_eq!(choose_frontend_dir(None, &[probe("/a", false)]), "frontend/dsh-web-ui");
}

fn text(s: &str) -> JsonValue {
    JsonValue::Text(s.to_string())
}

fn object(members: Vec<(&str, JsonValue)>) -> JsonValue {
    JsonValue::Object(members.into_iter().map(|(k, v)| (k.to_string(), v)).collect())
}

#[test]
fn normalizing_twice_changes_nothing() {
    let doc = object(vec![
        ("version", JsonValue::Number("2".to_string())),
        ("dsh", JsonValue::Null),
    ]);
    let once = normalize_profile_manifest(doc);
    assert!(profile_manifest_accepted(&once));
    let copy = format!("{:?}", once);
    let twice = normalize_profile_manifest(once);
    assert_eq!(format!("{:?}", twice), copy);
    let empty = normalize_profile_manifest(JsonValue::Null);
    assert_eq!(
        empty,
        object(vec![
            ("name", text("dsh-profile-web")),
            ("private", JsonValue::Bool(true)),
            (
                "dsh",
                object(vec![(
                    "profile",
                    object(vec![(
                        "bundles",
                        JsonValue::Array(vec![
                            text("@deepseek-ai/dsh-base"),
                            text("@deepseek-ai/dsh-web-app"),
                            text("@linxin666/dsh-web-ui-all"),
                        ]),
                    )]),
                )]),
            ),
        ])
    );
}

#[test]
fn api_key_entry_is_named_for_the_shell() {
    assert_eq!(dsh_desktop::keychain::api_key_entry_names(), ("dsh-desktop", "deepseek-api-key"));
}

#[test]
fn readiness_waits_two_minutes_in_quarter_seconds() {
    assert_eq!(readiness_step(Some(0), None), ReadinessAction::Probe);
    assert_eq!(readiness_step(Some(119_999), None), ReadinessAction::Probe);
    assert_eq!(readiness_step(Some(120_000), None), ReadinessAction::TimedOut);
    assert_eq!(readiness_step(None, None), ReadinessAction::TimedOut);
    assert_eq!(readiness_step(Some(5), Some(b"HTTP/1.1 200 OK\r\n")), ReadinessAction::Ready);
    assert_eq!(readiness_step(Some(5), Some(b"HTTP/1.1 503 Service Unavailable\r\n")), ReadinessAction::Pause(250));
    assert_eq!(readiness_step(Some(5), Some(b"")), ReadinessAction::Pause(250));
}

#[test]
fn startup_messages() {
    assert_eq!(readiness_timeout_message(), "DSH 服务启动超时。点击重试，或查看日志定位 Node.js / 网络问题");
    assert_eq!(window_closed_message(), "桌面窗口已关闭");
}

#[test]
fn corepack_installs_into_bin_except_on_windows() {
    assert_eq!(corepack_install_dir_parts("/rt", false), parts(&["/rt", "bin"]));
    assert_eq!(corepack_install_dir_parts("C:\\rt", true), parts(&["C:\\rt"]));
}

#[test]
fn setup_outcomes() {
    assert_eq!(corepack_outcome(true, true), Ok(()));
    assert_eq!(
        corepack_outcome(true, false),
        Err("无法自动准备 pnpm。请检查网络或设置 DSH_NPM_REGISTRY 后重试".to_string())
    );
    assert!(corepack_outcome(false, true).is_err());
    assert_eq!(pnpm_add_outcome(true), Ok(()));
    assert_eq!(
        pnpm_add_outcome(false),
        Err("内置 Web UI 组件接入失败。请检查 Node.js、pnpm 或镜像配置".to_string())
    );
}

#[test]
fn start_sequence_runs_in_order() {
    let mut stage = first_start_stage();
    let mut seen = vec![stage];
    loop {
        let installed = false;
        match start_next(stage, Ok(installed)) {
            StartAction::Run(next) => {
                stage = next;
                seen.push(next);
            }
            StartAction::Finish(result) => {
                assert_eq!(result, Ok(()));
                break;
            }
        }
    }
    assert_eq!(
        seen,
        vec![
            StartStage::CheckInputs,
            StartStage::PrepareDataDir,
            StartStage::FindRunner,
            StartStage::ChooseRegistry,
            StartStage::CheckFrontend,
            StartStage::InstallFrontend,
            StartStage::RecordFrontend,
            StartStage::NormalizeProfile,
            StartStage::ChoosePort,
            StartStage::Launch,
            StartStage::AwaitReady,
        ]
    );
    assert_eq!(start_next(StartStage::CheckFrontend, Ok(true)), StartAction::Run(StartStage::NormalizeProfile));
    assert_eq!(
        start_next(StartStage::ChoosePort, Err("没有可用的本地端口".to_string())),
        StartAction::Finish(Err("没有可用的本地端口".to_string()))
    );
}

#[test]
fn runtime_roots_in_order() {
    assert_eq!(
        runtime_root_candidates(Some("/n/bin"), Some("/opt/app"), Some("/w")),
        vec![
            parts(&["/n/bin"]),
            parts(&["/opt/app", "runtime", "node"]),
            parts(&["/opt/app", "Resources", "runtime", "node"]),
            parts(&["/w", "runtime", "node"]),
        ]
    );
    assert_eq!(runtime_root_candidates(None, None, Some("/w")), vec![parts(&["/w", "runtime", "node"])]);
    assert_eq!(runtime_root_candidates(None, None, None), Vec::<Vec<String>>::new());
}

#[test]
fn runtime_programs_root_by_root() {
    let roots = parts(&["/a", "/b"]);
    assert_eq!(
        runtime_program_candidates(&roots, "npx", false),
        vec![parts(&["/a", "bin", "npx"]), parts(&["/b", "bin", "npx"])]
    );
    assert_eq!(
        runtime_program_candidates(&roots, "corepack", true),
        vec![
            parts(&["/a", "corepack.cmd"]),
            parts(&["/a", "corepack"]),
            parts(&["/b", "corepack.cmd"]),
            parts(&["/b", "corepack"]),
        ]
    );
}

#[test]
fn runtime_search_path_order() {
    let roots = parts(&["/a", "/b"]);
    let dirs = parts(&["/usr/bin"]);
    assert_eq!(
        runtime_search_path(&roots, &dirs, false),
        vec![parts(&["/a"]), parts(&["/b"]), parts(&["/a", "bin"]), parts(&["/b", "bin"]), parts(&["/usr/bin"])]
    );
    assert_eq!(runtime_search_path(&roots, &dirs, true), vec![parts(&["/a"]), parts(&["/b"]), parts(&["/usr/bin"])]);
}

#[test]
fn pnpm_preparation_steps() {
    let roots = vec![probe("/r1", false), probe("/r2", true)];
    assert_eq!(pnpm_preparation(true, None, &roots, false), Ok(None));
    assert_eq!(
        pnpm_preparation(false, None, &roots, false),
        Err("内置 Node.js 未包含 Corepack，无法自动准备 pnpm".to_string())
    );
    assert_eq!(
        pnpm_preparation(false, Some("/r2/bin/corepack".to_string()), &[probe("/r1", false)], false),
        Err("无法定位内置 Node.js 目录".to_string())
    );
    assert_eq!(
        pnpm_preparation(false, Some("/r2/bin/corepack".to_string()), &roots, false),
        Ok(Some(CorepackPlan { program: "/r2/bin/corepack".to_string(), install_dir: parts(&["/r2", "bin"]) }))
    );
    assert_eq!(
        pnpm_preparation(false, Some("C:\\r2\\corepack.cmd".to_string()), &roots, true),
        Ok(Some(CorepackPlan { program: "C:\\r2\\corepack.cmd".to_string(), install_dir: parts(&["/r2"]) }))
    );
}

#[test]
fn approval_reports_the_approval() {
    let mut stage = first_approve_stage();
    let mut seen = vec![stage];
    let result = loop {
        match approve_next(stage, true) {
            ApproveAction::Run(next) => {
                stage = next;
                seen.push(next);
            }
            ApproveAction::Finish(done) => break done,
        }
    };
    assert!(result);
    assert_eq!(seen.len(), 6);
    assert_eq!(approve_next(ApproveStage::CreateProfileDir, false), ApproveAction::Finish(false));
    assert_eq!(approve_next(ApproveStage::Approve, false), ApproveAction::Finish(false));
    assert_eq!(approve_next(ApproveStage::FindPnpmAgain, false), ApproveAction::Finish(true));
    assert_eq!(approve_next(ApproveStage::Rebuild, false), ApproveAction::Finish(true));
}

#[test]
fn only_the_status_line_decides() {
    assert!(http_response_is_success(b"HTTP/1.1 200 OK\r\n\xff\xfe garbage 500"));
    assert!(!http_response_is_success(b"HTTP/1.1 503 Busy\r\nHTTP/1.1 200 OK\r\n"));
    let prefix = b"HTTP/1.1 204 No Content\n";
    for suffix in [&b""[..], b"x", b"\x80\x80", b"HTTP/1.1 404\n"] {
        let mut all = prefix.to_vec();
        all.extend_from_slice(suffix);
        assert_eq!(http_response_is_success(&all), http_response_is_success(prefix));
    }
}

#[test]
fn normalizing_sets_members_in_place() {
    let doc = object(vec![
        ("a", JsonValue::Bool(false)),
        ("name", text("old")),
        ("name", text("second")),
        ("z", JsonValue::Null),
    ]);
    let r = normalize_profile_manifest(doc);
    match r {
        JsonValue::Object(members) => {
            let names: Vec<&str> = members.iter().map(|(k, _)| k.as_str()).collect();
            assert_eq!(names, vec!["a", "name", "name", "z", "private", "dsh"]);
            assert_eq!(members[1].1, text("dsh-profile-web"));
            assert_eq!(members[2].1, text("second"));
        }
        _ => panic!("not an object"),
    }
}
