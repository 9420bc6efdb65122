use dsh_desktop::frontend::{
    approve_builds_args, bundled_corepack, bundled_runtime_path, local_frontend_is_installed,
    local_frontend_package_dirs, local_ui_package_paths, package_manager_names, pnpm_add_args,
    rebuild_args, runtime_entry_candidates, PackageProbe, PathProbe,
};
use dsh_desktop::icon::{app_icon_image, icon_from_frame, IconImage, PngColor};
use dsh_desktop::keychain::delete_outcome;
use dsh_desktop::paths::{choose_workspace, profile_dir_parts};
use dsh_desktop::process::{
    corepack_enable_args, parse_port, port_unavailable_message, requested_port,
    terminate_process_tree, DEFAULT_PORT, PORT_SEARCH_SPAN,
};
use dsh_desktop::profile::{normalize_profile_manifest, profile_manifest_accepted, JsonValue};
use dsh_desktop::runtime::{
    dsh_candidates, npx_program, package_manager_environment, registry_environment,
    resolve_runner, runtime_command, runtime_environment, service_url, ProcessCommand, Runner,
};
use dsh_desktop::settings::{
    accept_api_key, choose_model, choose_registry, model_record, parse_pet_hidden,
    pet_hidden_text,
};

fn strings(v: &[&str]) -> Vec<String> {
    v.iter().map(|s| s.to_string()).collect()
}

fn pairs(v: &[(&str, &str)]) -> Vec<(String, String)> {
    v.iter().map(|(a, b)| (a.to_string(), b.to_string())).collect()
}

#[test]
fn pet_visibility_reads_back_what_was_written() {
    for hidden in [true, false] {
        assert_eq!(parse_pet_hidden(&pet_hidden_text(hidden)), hidden);
    }
    assert!(parse_pet_hidden(" true\n"));
    assert!(parse_pet_hidden("1"));
    assert!(!parse_pet_hidden("TRUE"));
    assert!(!parse_pet_hidden("yes"));
    assert!(!parse_pet_hidden(""));
}

#[test]
fn stored_keys_are_kept_only_when_well_formed() {
    assert_eq!(accept_api_key(Some("sk-1".to_string())), Some("sk-1".to_string()));
    assert_eq!(accept_api_key(Some("sk 1".to_string())), None);
    assert_eq!(accept_api_key(None), None);
}

#[test]
fn model_comes_from_environment_file_or_default() {
    assert_eq!(choose_model(Some(" env-model "), Some("file-model")), "env-model");
    assert_eq!(choose_model(Some("bad model"), Some(" file-model\n")), "file-model");
    assert_eq!(choose_model(None, Some("   ")), "deepseek-v4-pro");
    assert_eq!(choose_model(None, None), "deepseek-v4-pro");
    assert_eq!(choose_model(None, Some(&model_record("  custom  "))), "custom");
}

#[test]
fn registry_comes_from_environment_file_or_default() {
    assert_eq!(choose_registry(Some(" https://r.example "), Some("https://file")), "https://r.example");
    assert_eq!(choose_registry(Some("  "), Some("https://file")), "https://registry.npmmirror.com");
    assert_eq!(choose_registry(None, Some("https://file\n")), "https://file");
    assert_eq!(choose_registry(None, None), "https://registry.npmmirror.com");
}

#[test]
fn runner_preference_order() {
    let npx_args = strings(&["--yes", "@deepseek-ai/dsh@latest"]);
    assert_eq!(
        resolve_runner(Some("/opt/dsh"), Some("dsh"), Some("/b/npx"), Some("npx")).unwrap(),
        Runner { program: "/opt/dsh".to_string(), base_args: vec![] }
    );
    assert_eq!(
        resolve_runner(Some("  "), Some("dsh.cmd"), Some("/b/npx"), Some("npx")).unwrap(),
        Runner { program: "dsh.cmd".to_string(), base_args: vec![] }
    );
    assert_eq!(
        resolve_runner(None, None, Some("/b/npx"), Some("npx")).unwrap(),
        Runner { program: "/b/npx".to_string(), base_args: npx_args.clone() }
    );
    assert_eq!(
        resolve_runner(None, None, None, Some("npx")).unwrap(),
        Runner { program: "npx".to_string(), base_args: npx_args }
    );
    assert_eq!(
        resolve_runner(None, None, None, None).unwrap_err(),
        "内置运行时未就绪。请重新运行安装器，或设置 DSH_DESKTOP_DSH_BIN"
    );
    assert_eq!(dsh_candidates(true), strings(&["dsh.cmd", "dsh.exe", "dsh"]));
    assert_eq!(dsh_candidates(false), strings(&["dsh"]));
    assert_eq!(npx_program(true), "npx.cmd");
    assert_eq!(npx_program(false), "npx");
}

#[test]
fn the_service_listens_on_loopback_only() {
    let runner = Runner { program: "npx".to_string(), base_args: strings(&["--yes", "@deepseek-ai/dsh@latest"]) };
    assert_eq!(
        runtime_command(&runner, 3081),
        ProcessCommand {
            program: "npx".to_string(),
            args: strings(&["--yes", "@deepseek-ai/dsh@latest", "web", "--host", "127.0.0.1", "--port", "3081"]),
        }
    );
    assert_eq!(service_url(3080), "http://127.0.0.1:3080/");
}

#[test]
fn the_key_travels_in_the_environment() {
    assert_eq!(
        runtime_environment("sk-1", "m", None, Some("https://r")),
        pairs(&[
            ("DEEPSEEK_API_KEY", "sk-1"),
            ("DEEPSEEK_BASE_URL", "https://api.deepseek.com"),
            ("DEEPSEEK_MODEL", "m"),
            ("NPM_CONFIG_REGISTRY", "https://r"),
            ("npm_config_registry", "https://r"),
        ])
    );
    assert_eq!(
        runtime_environment("k", "m", Some("https://proxy"), None),
        pairs(&[("DEEPSEEK_API_KEY", "k"), ("DEEPSEEK_BASE_URL", "https://proxy"), ("DEEPSEEK_MODEL", "m")])
    );
    assert_eq!(
        package_manager_environment(Some("https://r")),
        pairs(&[
            ("npm_config_minimum_release_age", "0"),
            ("NPM_CONFIG_MINIMUM_RELEASE_AGE", "0"),
            ("pnpm_config_minimum_release_age", "0"),
            ("NPM_CONFIG_REGISTRY", "https://r"),
            ("npm_config_registry", "https://r"),
        ])
    );
    assert_eq!(registry_environment(None), vec![]);
}

#[test]
fn pnpm_arguments() {
    let args = pnpm_add_args(&strings(&["/ui/a", "/ui/b"]));
    assert_eq!(args.len(), 3 + 12 + 2);
    assert_eq!(&args[..3], &strings(&["--config.minimumReleaseAge=0", "add", "--save-prod"])[..]);
    assert_eq!(args[3], "@xterm/addon-fit@^0.11.0");
    assert_eq!(args[14], "zod@^4.4.3");
    assert_eq!(&args[15..], &strings(&["link:/ui/a", "link:/ui/b"])[..]);
    assert_eq!(
        approve_builds_args(),
        strings(&["--config.minimumReleaseAge=0", "approve-builds", "cpu-features", "node-pty", "ssh2"])
    );
    assert_eq!(
        rebuild_args(),
        strings(&["--config.minimumReleaseAge=0", "rebuild", "cpu-features", "node-pty", "ssh2"])
    );
    assert_eq!(corepack_enable_args("/rt/bin"), strings(&["enable", "--install-directory", "/rt/bin"]));
}

fn probe(path: &str, manifest: bool, entry: bool, patch: bool) -> PackageProbe {
    PackageProbe { path: path.to_string(), has_manifest: manifest, has_runtime_entry: entry, has_bundle_patch: patch }
}

#[test]
fn the_bundled_front_end_must_be_complete() {
    let paths = local_ui_package_paths();
    assert_eq!(paths.len(), 15);
    assert_eq!(paths[0], "packages/dsh-aionui-panel");
    assert_eq!(paths[14], "packages/dsh-web-ui-all");
    let ok = vec![probe("/f/a", true, true, false), probe("/f/b", true, false, true)];
    assert_eq!(local_frontend_package_dirs(&ok).unwrap(), strings(&["/f/a", "/f/b"]));
    let missing = vec![probe("/f/a", true, true, false), probe("/f/b", true, false, false), probe("/f/c", false, true, true)];
    assert_eq!(
        local_frontend_package_dirs(&missing).unwrap_err(),
        "内置 Web UI 不完整：缺少 /f/b（发布包必须包含 frontend/dsh-web-ui）"
    );
    assert!(local_frontend_is_installed(Some("/f\n"), "/f"));
    assert!(!local_frontend_is_installed(Some("/g"), "/f"));
    assert!(!local_frontend_is_installed(None, "/f"));
}

#[test]
fn bundled_tools_are_found_in_order() {
    let probes = vec![
        PathProbe { path: "/a/npx".to_string(), present: false },
        PathProbe { path: "/b/npx".to_string(), present: true },
        PathProbe { path: "/c/npx".to_string(), present: true },
    ];
    assert_eq!(bundled_runtime_path(&probes), Some("/b/npx".to_string()));
    assert_eq!(bundled_corepack(&probes[..1]), None);
    assert_eq!(runtime_entry_candidates("npx", true), vec![strings(&["npx.cmd"]), strings(&["npx"])]);
    assert_eq!(runtime_entry_candidates("corepack", false), vec![strings(&["bin", "corepack"])]);
    assert_eq!(package_manager_names(true), strings(&["pnpm.cmd", "pnpm.exe", "pnpm"]));
    assert_eq!(package_manager_names(false), strings(&["pnpm"]));
}

#[test]
fn ports_parse_as_u16_from_str() {
    for text in ["0", "80", "+8080", "65535", "0003080", "+0"] {
        assert_eq!(parse_port(text), text.parse::<u16>().ok(), "{text:?}");
    }
    for text in ["", "+", "-1", "65536", " 80", "80 ", "8o", "99999999999999999999"] {
        assert_eq!(parse_port(text), None, "{text:?}");
        assert!(text.parse::<u16>().is_err());
    }
    for port in [1u16, 80, 3080, 65535] {
        assert_eq!(parse_port(&port.to_string()), Some(port));
    }
    assert_eq!(requested_port("8080"), Ok(8080));
    assert_eq!(requested_port("http").unwrap_err(), "DSH_DESKTOP_PORT 不是有效端口");
    assert_eq!(requested_port("0").unwrap_err(), "端口 0 不可用");
    assert_eq!(port_unavailable_message(3080), "端口 3080 不可用");
    assert_eq!(DEFAULT_PORT, 3080);
    assert_eq!(PORT_SEARCH_SPAN, 100);
}

#[test]
fn process_trees_end_with_taskkill_on_windows() {
    assert_eq!(
        terminate_process_tree(4242, true),
        Some(ProcessCommand { program: "taskkill.exe".to_string(), args: strings(&["/PID", "4242", "/T", "/F"]) })
    );
    assert_eq!(terminate_process_tree(4242, false), None);
}

#[test]
fn deleting_a_missing_key_is_no_failure() {
    assert_eq!(delete_outcome(Ok(())), Ok(()));
    assert_eq!(delete_outcome(Err("Credential NOT FOUND".to_string())), Ok(()));
    assert_eq!(
        delete_outcome(Err("No matching entry found in secure storage".to_string())),
        Err("No matching entry found in secure storage".to_string())
    );
    assert_eq!(delete_outcome(Err("locked".to_string())), Err("locked".to_string()));
}

#[test]
fn profile_directory_precedence() {
    assert_eq!(profile_dir_parts(Some("/p"), Some("/u"), Some("/h")), Some(strings(&["/p"])));
    assert_eq!(profile_dir_parts(None, Some("/u"), Some("/h")), Some(strings(&["/u", ".dsh", "profiles", "web"])));
    assert_eq!(profile_dir_parts(None, None, Some("/h")), Some(strings(&["/h", ".dsh", "profiles", "web"])));
    assert_eq!(profile_dir_parts(None, None, None), None);
    assert_eq!(choose_workspace(Some("/w".to_string()), true, Some("/c".to_string()), "/d".to_string()), "/w");
    assert_eq!(choose_workspace(Some("/w".to_string()), false, Some("/c".to_string()), "/d".to_string()), "/c");
    assert_eq!(choose_workspace(None, false, None, "/d".to_string()), "/d");
}

fn text(s: &str) -> JsonValue {
    JsonValue::Text(s.to_string())
}

fn object(members: Vec<(&str, JsonValue)>) -> JsonValue {
    JsonValue::Object(members.into_iter().map(|(k, v)| (k.to_string(), v)).collect())
}

#[test]
fn profile_manifest_is_normalized() {
    let bundles = JsonValue::Array(vec![
        text("@deepseek-ai/dsh-base"),
        text("@deepseek-ai/dsh-web-app"),
        text("@linxin666/dsh-web-ui-all"),
    ]);
    let doc = object(vec![
        ("name", text("old")),
        ("version", JsonValue::Number("1".to_string())),
        ("dsh", object(vec![("other", JsonValue::Bool(false))])),
    ]);
    assert!(profile_manifest_accepted(&doc));
    assert_eq!(
        normalize_profile_manifest(doc),
        object(vec![
            ("name", text("dsh-profile-web")),
            ("version", JsonValue::Number("1".to_string())),
            (
                "dsh",
                object(vec![("other", JsonValue::Bool(false)), ("profile", object(vec![("bundles", bundles)]))]),
            ),
            ("private", JsonValue::Bool(true)),
        ])
    );
    assert!(profile_manifest_accepted(&JsonValue::Null));
    assert!(!profile_manifest_accepted(&JsonValue::Array(vec![])));
    assert!(!profile_manifest_accepted(&object(vec![("dsh", text("x"))])));
    assert!(!profile_manifest_accepted(&object(vec![("dsh", object(vec![("profile", JsonValue::Bool(true))]))])));
}

#[test]
fn icon_frames_must_be_rgba() {
    assert_eq!(
        icon_from_frame(&[1, 2, 3, 4, 9, 9], 4, PngColor::Rgba, 1, 1),
        Some(IconImage { rgba: vec![1, 2, 3, 4], width: 1, height: 1 })
    );
    assert_eq!(icon_from_frame(&[1, 2, 3], 3, PngColor::Rgb, 1, 1), None);
    assert_eq!(icon_from_frame(&[1, 2], 2, PngColor::GrayscaleAlpha, 1, 1), None);
    assert_eq!(icon_from_frame(&[1, 2, 3], 4, PngColor::Rgba, 1, 1), None);
}

fn encode_png(color: png::ColorType, pixels: &[u8], width: u32, height: u32) -> Vec<u8> {
    let mut out = Vec::new();
    {
        let mut encoder = png::Encoder::new(&mut out, width, height);
        encoder.set_color(color);
        encoder.set_depth(png::BitDepth::Eight);
        let mut writer = encoder.write_header().unwrap();
        writer.write_image_data(pixels).unwrap();
    }
    out
}

#[test]
fn icon_is_decoded_from_png() {
    let rgba = [10u8, 20, 30, 255, 40, 50, 60, 128];
    let data = encode_png(png::ColorType::Rgba, &rgba, 2, 1);
    assert_eq!(app_icon_image(&data), Some(IconImage { rgba: rgba.to_vec(), width: 2, height: 1 }));
    let rgb = encode_png(png::ColorType::Rgb, &[1, 2, 3], 1, 1);
    assert_eq!(app_icon_image(&rgb), None);
    assert_eq!(app_icon_image(b"not a png"), None);
}
