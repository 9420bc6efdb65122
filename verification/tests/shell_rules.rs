use base64::Engine as _;
use dsh_desktop::ipc::{api_key_docs_url, ipc_request, IpcMessage, IpcRequest};
use dsh_desktop::script::{
    default_model_script, json_literal, pet_mode_script, pet_mode_script_with,
    runtime_error_script, status_script,
};
use dsh_desktop::session::{Action, Session, SessionEvent};

fn msg(kind: &str, key: Option<&str>, model: Option<&str>, hidden: Option<bool>) -> IpcMessage {
    IpcMessage {
        kind: kind.to_string(),
        key: key.map(|s| s.to_string()),
        model: model.map(|s| s.to_string()),
        hidden,
    }
}

#[test]
fn page_messages_map_to_requests() {
    assert_eq!(
        ipc_request(msg("save_key", Some("sk-1"), Some("m"), None)),
        Some(IpcRequest::SaveApiKey { key: "sk-1".to_string(), model: "m".to_string() })
    );
    assert_eq!(
        ipc_request(msg("save_key", Some("sk-1"), None, None)),
        Some(IpcRequest::SaveApiKey { key: "sk-1".to_string(), model: String::new() })
    );
    assert_eq!(ipc_request(msg("save_key", None, Some("m"), None)), None);
    assert_eq!(ipc_request(msg("reset_key", None, None, None)), Some(IpcRequest::ResetApiKey));
    assert_eq!(ipc_request(msg("retry", None, None, None)), Some(IpcRequest::RetryRuntime));
    assert_eq!(
        ipc_request(msg("pet_visibility", None, None, Some(true))),
        Some(IpcRequest::SetPetVisibility(true))
    );
    assert_eq!(ipc_request(msg("pet_visibility", None, None, None)), None);
    assert_eq!(ipc_request(msg("window_minimize", None, None, None)), Some(IpcRequest::WindowMinimize));
    assert_eq!(ipc_request(msg("window_maximize", None, None, None)), Some(IpcRequest::WindowMaximize));
    assert_eq!(ipc_request(msg("window_close", None, None, None)), Some(IpcRequest::WindowClose));
    assert_eq!(ipc_request(msg("window_drag", None, None, None)), Some(IpcRequest::WindowDrag));
    assert_eq!(ipc_request(msg("open_docs", None, None, None)), Some(IpcRequest::OpenDocs));
    assert_eq!(ipc_request(msg("Save_Key", Some("k"), None, None)), None);
    assert_eq!(ipc_request(msg("", None, None, None)), None);
    assert_eq!(api_key_docs_url(), "https://platform.deepseek.com/api_keys");
}

#[test]
fn scripts_quote_their_texts_as_json() {
    assert_eq!(
        status_script("a\"b", "line\nbreak"),
        "window.__dshSetStatus && window.__dshSetStatus(\"a\\\"b\", \"line\\nbreak\");"
    );
    assert_eq!(default_model_script("deepseek-v4-pro"), "window.__dshDefaultModel = \"deepseek-v4-pro\";");
    assert_eq!(json_literal("x"), "\"x\"");
    let panel = runtime_error_script("boom </script>");
    assert!(panel.starts_with("\n(() => {\n  const message = \"boom </script>\";\n  const id = 'dsh-desktop-runtime-error';"));
    assert!(panel.ends_with("  panel.querySelector('[data-message]').textContent = message;\n})();\n"));
    assert!(panel.contains("工作台没有启动"));
    assert!(panel.contains("JSON.stringify({type:'retry'})"));
}

#[test]
fn pet_script_fills_both_placeholders() {
    let template = "hidden=__DSH_PET_HIDDEN__; src='__DSH_PET_SPRITE__'; again=__DSH_PET_HIDDEN__";
    assert_eq!(
        pet_mode_script(template, true, b"abc"),
        "hidden=true; src='data:image/png;base64,YWJj'; again=true"
    );
    assert_eq!(
        pet_mode_script(template, false, b"ab"),
        "hidden=false; src='data:image/png;base64,YWI='; again=false"
    );
    assert_eq!(pet_mode_script_with("__DSH_PET_SPRITE__", false, "Zg=="), "data:image/png;base64,Zg==");
}

fn spawned(actions: &[Action]) -> Vec<(String, String)> {
    actions
        .iter()
        .filter_map(|a| match a {
            Action::SpawnRuntime { key, model } => Some((key.clone(), model.clone())),
            _ => None,
        })
        .collect()
}

#[test]
fn launch_with_stored_key_starts_the_runtime_once() {
    let mut s = Session::new(false);
    let acts = s.handle(SessionEvent::Launch {
        stored_key: Some("sk-stored".to_string()),
        stored_model: "deepseek-v4-flash".to_string(),
    });
    assert_eq!(acts.len(), 2);
    assert_eq!(
        acts[0],
        Action::RunScript(status_script("正在准备 DeepSeek 环境…", "正在加载本机前端与官方 Harness"))
    );
    assert_eq!(spawned(&acts), vec![("sk-stored".to_string(), "deepseek-v4-flash".to_string())]);
    assert!(s.started);
    let again = s.handle(SessionEvent::RetryRuntime {
        stored_key: Some("sk-stored".to_string()),
        stored_model: "deepseek-v4-flash".to_string(),
    });
    assert!(again.is_empty());
}

#[test]
fn launch_without_usable_key_waits_for_the_user() {
    let mut s = Session::new(true);
    assert!(s.handle(SessionEvent::Launch { stored_key: None, stored_model: "m".to_string() }).is_empty());
    assert!(s
        .handle(SessionEvent::Launch { stored_key: Some("bad key".to_string()), stored_model: "m".to_string() })
        .is_empty());
    assert!(!s.started);
    assert!(s.pet_hidden);
}

#[test]
fn saving_a_key_trims_it_stores_it_then_starts() {
    let mut s = Session::new(false);
    let acts = s.handle(SessionEvent::SaveApiKey {
        key: "  sk-new \n".to_string(),
        model: "   ".to_string(),
        stored_model: "deepseek-v4-pro".to_string(),
    });
    assert_eq!(
        acts,
        vec![Action::StoreCredentials { key: "sk-new".to_string(), model: "deepseek-v4-pro".to_string() }]
    );
    assert!(!s.started);
    let acts = s.handle(SessionEvent::CredentialsStored);
    assert_eq!(spawned(&acts), vec![("sk-new".to_string(), "deepseek-v4-pro".to_string())]);
    assert!(s.pending.is_none());
    assert!(s.handle(SessionEvent::CredentialsStored).is_empty());
}

#[test]
fn a_submitted_model_is_trimmed() {
    let mut s = Session::new(false);
    let acts = s.handle(SessionEvent::SaveApiKey {
        key: "sk-1".to_string(),
        model: " custom-model ".to_string(),
        stored_model: "deepseek-v4-pro".to_string(),
    });
    assert_eq!(
        acts,
        vec![Action::StoreCredentials { key: "sk-1".to_string(), model: "custom-model".to_string() }]
    );
}

#[test]
fn invalid_submissions_show_the_error() {
    let mut s = Session::new(false);
    let acts = s.handle(SessionEvent::SaveApiKey {
        key: "   ".to_string(),
        model: "m".to_string(),
        stored_model: "m".to_string(),
    });
    assert_eq!(
        acts,
        vec![
            Action::RunScript(status_script("启动失败", "API Key 不能为空")),
            Action::RunScript(runtime_error_script("API Key 不能为空")),
        ]
    );
    let acts = s.handle(SessionEvent::SaveApiKey {
        key: "sk-1".to_string(),
        model: "bad model".to_string(),
        stored_model: "m".to_string(),
    });
    assert_eq!(acts[1], Action::RunScript(runtime_error_script("模型名称格式异常")));
    assert!(spawned(&acts).is_empty());
}

#[test]
fn storage_failures_are_reported_with_their_cause() {
    let mut s = Session::new(false);
    s.handle(SessionEvent::SaveApiKey {
        key: "sk-1".to_string(),
        model: "m".to_string(),
        stored_model: "m".to_string(),
    });
    let acts = s.handle(SessionEvent::KeyStoreFailed("locked".to_string()));
    assert_eq!(acts[1], Action::RunScript(runtime_error_script("无法保存 API Key：locked")));
    assert!(s.pending.is_none());
    s.handle(SessionEvent::SaveApiKey {
        key: "sk-1".to_string(),
        model: "m".to_string(),
        stored_model: "m".to_string(),
    });
    let acts = s.handle(SessionEvent::ModelStoreFailed("disk full".to_string()));
    assert_eq!(acts[1], Action::RunScript(runtime_error_script("无法保存模型选择：disk full")));
}

#[test]
fn service_lifecycle_runs_through_the_session() {
    let mut s = Session::new(false);
    s.handle(SessionEvent::Launch { stored_key: Some("sk-1".to_string()), stored_model: "m".to_string() });
    let acts = s.handle(SessionEvent::ProcessStarted);
    assert_eq!(acts, vec![Action::RunScript(status_script("正在启动 DSH", "首次启动会准备依赖，可能需要几分钟"))]);
    assert!(s.has_child);
    let acts = s.handle(SessionEvent::ServiceReady("http://127.0.0.1:3080/".to_string()));
    assert_eq!(acts[1], Action::LoadUrl("http://127.0.0.1:3080/".to_string()));
    assert_eq!(s.current_url.as_deref(), Some("http://127.0.0.1:3080/"));
    let acts = s.handle(SessionEvent::ServiceExited("exit status: 1".to_string()));
    assert_eq!(acts[0], Action::ReleaseChild);
    assert_eq!(acts[2], Action::RunScript(runtime_error_script("DSH 服务已退出（状态码：exit status: 1）")));
    assert!(!s.started && !s.has_child && s.current_url.is_none());
    let acts = s.handle(SessionEvent::RetryRuntime { stored_key: None, stored_model: "m".to_string() });
    assert_eq!(acts, vec![Action::ShowStartPage]);
}

#[test]
fn failures_stop_the_service_process() {
    let mut s = Session::new(false);
    s.handle(SessionEvent::Launch { stored_key: Some("sk-1".to_string()), stored_model: "m".to_string() });
    s.handle(SessionEvent::ProcessStarted);
    let acts = s.handle(SessionEvent::StartupFailed("timeout".to_string()));
    assert_eq!(acts[0], Action::StopChild);
    assert_eq!(acts.len(), 3);
    let acts = s.handle(SessionEvent::PageLoadFailed("x".to_string()));
    assert_eq!(acts.len(), 2);
    assert_eq!(acts[1], Action::RunScript(runtime_error_script("载入工作台失败：x")));
}

#[test]
fn reset_and_window_events() {
    let mut s = Session::new(false);
    s.handle(SessionEvent::Launch { stored_key: Some("sk-1".to_string()), stored_model: "m".to_string() });
    s.handle(SessionEvent::ProcessStarted);
    let acts = s.handle(SessionEvent::ResetApiKey);
    assert_eq!(acts, vec![Action::DeleteStoredKey, Action::StopChild, Action::ShowStartPage]);
    assert!(!s.started);
    assert_eq!(s.handle(SessionEvent::SetPetVisibility(true)), vec![Action::StorePetHidden(true)]);
    assert!(s.pet_hidden);
    assert_eq!(s.handle(SessionEvent::WindowMinimize), vec![Action::Minimize]);
    assert_eq!(s.handle(SessionEvent::WindowMaximize), vec![Action::ToggleMaximize]);
    assert_eq!(s.handle(SessionEvent::WindowDrag), vec![Action::Drag]);
    assert_eq!(s.handle(SessionEvent::WindowClose), vec![Action::Exit]);
}

#[test]
fn json_literals_match_serde_json() {
    let samples = [
        "", "plain", "quote\" and \\ backslash", "\u{0}\u{1}\u{8}\t\n\u{b}\u{c}\r\u{1f}", "\u{7f}\u{80}",
        "中文：启动失败", "</script>", "emoji \u{1f600}",
    ];
    for text in samples {
        assert_eq!(json_literal(text), serde_json::to_string(text).unwrap(), "{text:?}");
    }
    assert_eq!(json_literal("\u{1}"), "\"\\u0001\"");
    assert_eq!(json_literal("\u{1b}"), "\"\\u001b\"");
}

#[test]
fn sprites_are_standard_base64() {
    let data: Vec<u8> = (0u8..=255).collect();
    for len in [0usize, 1, 2, 3, 4, 5, 6, 7, 255, 256] {
        let slice = &data[..len];
        let expected = format!(
            "data:image/png;base64,{}",
            base64::engine::general_purpose::STANDARD.encode(slice)
        );
        assert_eq!(pet_mode_script("__DSH_PET_SPRITE__", false, slice), expected);
    }
}
