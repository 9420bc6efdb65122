use dsh_desktop::http::{readiness_request, status_line_is_success, http_response_is_success};
use dsh_desktop::redact::{log_line, redact_log_bytes, redact_secret};
use dsh_desktop::settings::choose_model;
use dsh_desktop::text::{chars_of, contains_text, decimal_text, replace_all, same_text, string_of};
use dsh_desktop::validation::{validate_api_key, validate_model};

#[test]
fn whitespace_and_control_classes_match_unicode() {
    for c in [' ', '\t', '\n', '\r', '\u{b}', '\u{c}', '\u{85}', '\u{a0}', '\u{1680}', '\u{2000}', '\u{200a}', '\u{2028}', '\u{2029}', '\u{202f}', '\u{205f}', '\u{3000}'] {
        assert!(c.is_whitespace());
        assert!(validate_api_key(&format!("sk{c}x")).is_err(), "{:?}", c);
    }
    for c in ['a', '\u{180e}', '\u{200b}', '\u{feff}', '*', '键'] {
        assert!(!c.is_whitespace() && !c.is_control());
        assert!(validate_api_key(&format!("sk{c}x")).is_ok(), "{:?}", c);
    }
    for c in ['\u{0}', '\u{1f}', '\u{7f}', '\u{9f}'] {
        assert!(c.is_control());
        assert!(validate_api_key(&format!("sk{c}x")).is_err(), "{:?}", c);
    }
}

#[test]
fn trim_drops_unicode_whitespace_at_both_ends() {
    assert_eq!(choose_model(Some("\u{3000} model \n"), None), "model");
    assert_eq!(choose_model(Some("\u{2028}m\u{a0}"), None), "m");
    assert!(validate_model("\u{3000}\u{85}").is_err());
}

#[test]
fn chars_round_trip_through_strings() {
    let v = chars_of("héllo");
    assert_eq!(v, vec!['h', 'é', 'l', 'l', 'o']);
    assert_eq!(string_of(&v), "héllo");
    assert!(same_text("abc", "abc"));
    assert!(!same_text("abc", "abd"));
    assert!(!same_text("abc", "ab"));
}

#[test]
fn decimal_numerals_match_to_string() {
    for n in [0u64, 7, 10, 3080, 65535, u64::MAX] {
        assert_eq!(decimal_text(n), n.to_string());
    }
}

#[test]
fn replace_all_agrees_with_str_replace() {
    let cases = [
        ("hello sk-secret", "sk-secret", "***"),
        ("aaaa", "aa", "b"),
        ("abc", "", "x"),
        ("", "", "x"),
        ("", "a", "x"),
        ("sk-sk-secretsecret", "sk-secret", "***"),
        ("ünïcödé ü", "ü", "u"),
        ("no match here", "zzz", "***"),
    ];
    for (text, from, to) in cases {
        assert_eq!(replace_all(text, from, to), text.replace(from, to), "{text:?} {from:?}");
    }
}

#[test]
fn contains_text_finds_substrings() {
    assert!(contains_text("no matching entry found", "entry"));
    assert!(contains_text("abc", ""));
    assert!(!contains_text("no matching entry found in secure storage", "not found"));
    assert!(contains_text("credential not found", "not found"));
    assert!(!contains_text("ab", "abc"));
}

#[test]
fn api_key_checks_length_and_characters() {
    assert_eq!(validate_api_key("").unwrap_err(), "API Key 不能为空");
    assert_eq!(validate_api_key("a\tb").unwrap_err(), "API Key 格式异常：请粘贴平台生成的完整 Key");
    assert!(validate_api_key("ctl\u{7}").is_err());
    assert!(validate_api_key(&"k".repeat(512)).is_ok());
    assert!(validate_api_key(&"k".repeat(513)).is_err());
    // 171 three-byte characters are 513 bytes.
    assert!(validate_api_key(&"键".repeat(170)).is_ok());
    assert!(validate_api_key(&"键".repeat(171)).is_err());
    // the key is not trimmed
    assert!(validate_api_key(" sk-x").is_err());
    assert!(validate_api_key("*").is_ok());
}

#[test]
fn model_checks_after_trimming() {
    assert!(validate_model("  deepseek-v4-pro  ").is_ok());
    assert_eq!(validate_model("   ").unwrap_err(), "请选择 DeepSeek 模型");
    assert_eq!(validate_model("deep seek").unwrap_err(), "模型名称格式异常");
    assert!(validate_model(&"m".repeat(128)).is_ok());
    assert!(validate_model(&format!(" {} ", "m".repeat(128))).is_ok());
    assert!(validate_model(&"m".repeat(129)).is_err());
    assert!(validate_model("x\u{0}").is_err());
}

#[test]
fn status_line_takes_second_token_of_first_line() {
    assert!(status_line_is_success("HTTP/1.1 200 OK"));
    assert!(status_line_is_success("  HTTP/1.0\t299"));
    assert!(!status_line_is_success("HTTP/1.1"));
    assert!(!status_line_is_success(""));
    assert!(!status_line_is_success("HTTP/1.1\n200 OK"));
    assert!(status_line_is_success("X 2\r\nY 500"));
    assert!(!status_line_is_success("HTTP/1.1 302 Found\r\n\r\n200"));
    assert!(status_line_is_success("HTTP/1.1\u{3000}201 Created"));
}

#[test]
fn http_probe_decodes_lossily() {
    assert!(http_response_is_success(b"HTTP/1.1 200 OK\r\nContent-Length: 0\r\n\r\n"));
    assert!(!http_response_is_success(b""));
    assert!(!http_response_is_success(b"HTTP/1.1 \xff200 OK\r\n"));
    assert!(http_response_is_success(b"\xffHTTP 2xx"));
    assert!(!http_response_is_success(b"HTTP/1.1 500 Internal Server Error"));
}

#[test]
fn readiness_request_is_a_plain_get() {
    assert_eq!(readiness_request(), "GET / HTTP/1.1\r\nHost: 127.0.0.1\r\nConnection: close\r\n\r\n");
}

#[test]
fn redaction_masks_every_occurrence() {
    let key = "sk-abc";
    let out = redact_secret("sk-abc sk-abcsk-abc end sk-ab", key);
    assert_eq!(out, "*** ****** end sk-ab");
    assert!(!out.contains(key));
    assert_eq!(redact_secret("nothing to hide", key), "nothing to hide");
}

#[test]
fn redaction_of_captured_bytes() {
    let out = redact_log_bytes(b"token=sk-live\xff!", "sk-live");
    assert_eq!(out, "token=***\u{fffd}!");
}

#[test]
fn log_entries_carry_timestamp_and_stream() {
    assert_eq!(log_line(1700000000, "stdout", "ready"), "[1700000000] [stdout] ready\n");
    assert_eq!(log_line(0, "stderr", ""), "[0] [stderr] \n");
}
