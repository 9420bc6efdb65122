use vstd::prelude::*;
use base64::Engine as _;
use crate::text::{owned, replace_all, replaced};

verus! {

broadcast use vstd::string::group_string_axioms;

/// The error type of `serde_json`.
#[verifier::external_type_specification]
#[verifier::external_body]
pub struct ExJsonError(serde_json::Error);

/// The lowercase hexadecimal digit of `d < 16`.
pub open spec fn hex_digit(d: nat) -> char {
    if d < 10 {
        (48 + d) as char
    } else {
        (97 + d - 10) as char
    }
}

/// How `serde_json` writes one character inside a JSON string: `"` and `\`
/// escaped by a backslash, the control characters with short escapes as
/// `\b`, `\t`, `\n`, `\f`, `\r`, the other characters up to U+001F as
/// `\u00XX` (lowercase hexadecimal), every other character as it is.
pub open spec fn json_escape(c: char) -> Seq<char> {
    if c == '"' {
        seq!['\\', '"']
    } else if c == '\\' {
        seq!['\\', '\\']
    } else if c == '\u{8}' {
        seq!['\\', 'b']
    } else if c == '\t' {
        seq!['\\', 't']
    } else if c == '\n' {
        seq!['\\', 'n']
    } else if c == '\u{c}' {
        seq!['\\', 'f']
    } else if c == '\r' {
        seq!['\\', 'r']
    } else if c <= '\u{1f}' {
        seq!['\\', 'u', '0', '0', hex_digit((c as nat) / 16), hex_digit((c as nat) % 16)]
    } else {
        seq![c]
    }
}

/// The characters of a text, each written as `json_escape` writes it.
pub open spec fn json_escaped(text: Seq<char>) -> Seq<char>
    decreases text.len(),
{
    if text.len() == 0 {
        Seq::empty()
    } else {
        json_escape(text[0]) + json_escaped(text.drop_first())
    }
}

/// The JSON string literal of a text: its escaped characters in quotes.
pub open spec fn json_string_literal(text: Seq<char>) -> Seq<char> {
    seq!['"'] + json_escaped(text) + seq!['"']
}

/// The base64 digit of `v < 64` in the standard alphabet.
pub open spec fn base64_digit(v: nat) -> char {
    if v < 26 {
        (65 + v) as char
    } else if v < 52 {
        (97 + v - 26) as char
    } else if v < 62 {
        (48 + v - 52) as char
    } else if v == 62 {
        '+'
    } else {
        '/'
    }
}

/// The standard, padded base64 encoding of `data` (RFC 4648): each group
/// of three bytes as four digits; a last group of two bytes as three digits
/// and `=`, of one byte as two digits and `==`.
pub open spec fn base64_standard(data: Seq<u8>) -> Seq<char>
    decreases data.len(),
{
    if data.len() == 0 {
        Seq::empty()
    } else if data.len() == 1 {
        let a = data[0] as nat;
        seq![base64_digit(a / 4), base64_digit((a % 4) * 16), '=', '=']
    } else if data.len() == 2 {
        let a = data[0] as nat;
        let b = data[1] as nat;
        seq![base64_digit(a / 4), base64_digit((a % 4) * 16 + b / 16), base64_digit((b % 16) * 4), '=']
    } else {
        let a = data[0] as nat;
        let b = data[1] as nat;
        let c = data[2] as nat;
        seq![
            base64_digit(a / 4),
            base64_digit((a % 4) * 16 + b / 16),
            base64_digit((b % 16) * 4 + c / 64),
            base64_digit(c % 64),
        ] + base64_standard(data.skip(3))
    }
}

/// `serde_json::to_string` on a string slice: the JSON string literal of the
/// text. Its source (`format_escaped_str` and the `ESCAPE` table of
/// `ser.rs`) writes exactly `json_string_literal`, into a `Vec` that cannot
/// fail, so the result is always `Ok`.
#[verifier::external_body]
fn json_quote(text: &str) -> (r: Result<String, serde_json::Error>)
    ensures
        match r {
            Ok(q) => q@ == json_string_literal(text@),
            Err(_) => false,
        },
{
    serde_json::to_string(text)
}

/// `base64::engine::general_purpose::STANDARD.encode`: the padded standard
/// base64 text of `data`. It panics when the length of the output overflows
/// `usize`, which the bound on `data` rules out.
#[verifier::external_body]
fn encode_base64(data: &[u8]) -> (r: String)
    requires
        data@.len() <= usize::MAX / 2,
    ensures
        r@ == base64_standard(data@),
{
    base64::engine::general_purpose::STANDARD.encode(data)
}

/// The JSON string literal of a text.
pub fn json_literal(text: &str) -> (r: String)
    ensures
        r@ == json_string_literal(text@),
{
    match json_quote(text) {
        Ok(q) => q,
        Err(_) => {
            assert(false);
            String::new()
        },
    }
}

// ---------------------------------------------------------------------------
// Status line of the start page
// ---------------------------------------------------------------------------

/// The script that shows a status on the start page, given the JSON
/// literals of its title and detail.
pub open spec fn status_script_text(title_json: Seq<char>, detail_json: Seq<char>) -> Seq<char> {
    "window.__dshSetStatus && window.__dshSetStatus("@ + title_json + ", "@ + detail_json + ");"@
}

/// Builds the status script from the JSON literals of title and detail.
pub fn status_script_with(title_json: &str, detail_json: &str) -> (r: String)
    ensures
        r@ == status_script_text(title_json@, detail_json@),
{
    let mut s = owned("window.__dshSetStatus && window.__dshSetStatus(");
    s.append(title_json);
    s.append(", ");
    s.append(detail_json);
    s.append(");");
    s
}

/// The script that shows a status on the start page, its texts written as
/// JSON string literals.
pub fn status_script(title: &str, detail: &str) -> (r: String)
    ensures
        r@ == status_script_text(json_string_literal(title@), json_string_literal(detail@)),
{
    let t = json_literal(title);
    let d = json_literal(detail);
    status_script_with(t.as_str(), d.as_str())
}

// ---------------------------------------------------------------------------
// Error panel over the workbench
// ---------------------------------------------------------------------------

/// The script that raises the error panel, given the JSON literal of its
/// message.
pub open spec fn runtime_error_script_text(message_json: Seq<char>) -> Seq<char> {
    "\n(() => {\n  const message = "@ + message_json + ";\n  const id = 'dsh-desktop-runtime-error';\n  let panel = document.getElementById(id);\n  if (!panel) {\n    panel = document.createElement('div');\n    panel.id = id;\n    panel.style.cssText = 'position:fixed;inset:0;z-index:2147483647;display:grid;place-items:center;padding:24px;background:rgba(8,11,18,.82);font-family:Inter,-apple-system,BlinkMacSystemFont,\"Segoe UI\",sans-serif;color:#f7f8fb;';\n    panel.innerHTML = '<div data-card style=\"width:min(560px,100%);padding:32px;border:1px solid rgba(255,255,255,.12);border-radius:24px;background:#111723;box-shadow:0 24px 80px rgba(0,0,0,.45)\"><div style=\"font-size:22px;font-weight:750\">工作台没有启动</div><div data-message style=\"margin-top:12px;color:#aab5c8;line-height:1.7;word-break:break-word\"></div><div style=\"display:flex;gap:10px;margin-top:24px\"><button data-retry style=\"border:0;border-radius:12px;padding:12px 18px;color:#071116;background:#8af6e0;font:inherit;font-weight:750;cursor:pointer\">重新连接</button><button data-settings style=\"border:0;border-radius:12px;padding:12px 18px;color:#dce5f4;background:#ffffff12;font:inherit;font-weight:650;cursor:pointer\">返回设置</button></div></div>';\n    (document.body || document.documentElement).appendChild(panel);\n    panel.querySelector('[data-retry]').onclick = () => window.ipc && window.ipc.postMessage(JSON.stringify({type:'retry'}));\n    panel.querySelector('[data-settings]').onclick = () => window.ipc && window.ipc.postMessage(JSON.stringify({type:'reset_key'}));\n  }\n  panel.querySelector('[data-message]').textContent = message;\n})();\n"@
}

/// Builds the error panel script from the JSON literal of its message.
pub fn runtime_error_script_with(message_json: &str) -> (r: String)
    ensures
        r@ == runtime_error_script_text(message_json@),
{
    let mut s = owned("\n(() => {\n  const message = ");
    s.append(message_json);
    s.append(";\n  const id = 'dsh-desktop-runtime-error';\n  let panel = document.getElementById(id);\n  if (!panel) {\n    panel = document.createElement('div');\n    panel.id = id;\n    panel.style.cssText = 'position:fixed;inset:0;z-index:2147483647;display:grid;place-items:center;padding:24px;background:rgba(8,11,18,.82);font-family:Inter,-apple-system,BlinkMacSystemFont,\"Segoe UI\",sans-serif;color:#f7f8fb;';\n    panel.innerHTML = '<div data-card style=\"width:min(560px,100%);padding:32px;border:1px solid rgba(255,255,255,.12);border-radius:24px;background:#111723;box-shadow:0 24px 80px rgba(0,0,0,.45)\"><div style=\"font-size:22px;font-weight:750\">工作台没有启动</div><div data-message style=\"margin-top:12px;color:#aab5c8;line-height:1.7;word-break:break-word\"></div><div style=\"display:flex;gap:10px;margin-top:24px\"><button data-retry style=\"border:0;border-radius:12px;padding:12px 18px;color:#071116;background:#8af6e0;font:inherit;font-weight:750;cursor:pointer\">重新连接</button><button data-settings style=\"border:0;border-radius:12px;padding:12px 18px;color:#dce5f4;background:#ffffff12;font:inherit;font-weight:650;cursor:pointer\">返回设置</button></div></div>';\n    (document.body || document.documentElement).appendChild(panel);\n    panel.querySelector('[data-retry]').onclick = () => window.ipc && window.ipc.postMessage(JSON.stringify({type:'retry'}));\n    panel.querySelector('[data-settings]').onclick = () => window.ipc && window.ipc.postMessage(JSON.stringify({type:'reset_key'}));\n  }\n  panel.querySelector('[data-message]').textContent = message;\n})();\n");
    s
}

/// The script that raises the error panel with its retry and settings
/// buttons, its message written as a JSON string literal.
pub fn runtime_error_script(message: &str) -> (r: String)
    ensures
        r@ == runtime_error_script_text(json_string_literal(message@)),
{
    let m = json_literal(message);
    runtime_error_script_with(m.as_str())
}

// ---------------------------------------------------------------------------
// Start-up scripts of the web view
// ---------------------------------------------------------------------------

/// The script that hands the page its default model, given its JSON
/// literal.
pub open spec fn default_model_script_text(model_json: Seq<char>) -> Seq<char> {
    "window.__dshDefaultModel = "@ + model_json + ";"@
}

/// Builds the default-model script from the model's JSON literal.
pub fn default_model_script_with(model_json: &str) -> (r: String)
    ensures
        r@ == default_model_script_text(model_json@),
{
    let mut s = owned("window.__dshDefaultModel = ");
    s.append(model_json);
    s.append(";");
    s
}

/// The script that hands the page its default model, written as a JSON
/// string literal.
pub fn default_model_script(model: &str) -> (r: String)
    ensures
        r@ == default_model_script_text(json_string_literal(model@)),
{
    let m = json_literal(model);
    default_model_script_with(m.as_str())
}

/// The literal that stands for the pet's hidden flag in its script.
pub open spec fn flag_literal(hidden: bool) -> Seq<char> {
    if hidden { "true"@ } else { "false"@ }
}

/// The pet script: the template with its hidden-flag placeholder, then its
/// sprite placeholder, replaced, the sprite given as base64 text.
pub open spec fn pet_script_text(template: Seq<char>, hidden: bool, sprite_base64: Seq<char>) -> Seq<
    char,
> {
    replaced(
        replaced(template, "__DSH_PET_HIDDEN__"@, flag_literal(hidden)),
        "__DSH_PET_SPRITE__"@,
        "data:image/png;base64,"@ + sprite_base64,
    )
}

/// Fills the pet script template, the sprite given as base64 text.
pub fn pet_mode_script_with(template: &str, hidden: bool, sprite_base64: &str) -> (r: String)
    ensures
        r@ == pet_script_text(template@, hidden, sprite_base64@),
{
    let flag = if hidden { owned("true") } else { owned("false") };
    let first = replace_all(template, "__DSH_PET_HIDDEN__", flag.as_str());
    let mut url = owned("data:image/png;base64,");
    url.append(sprite_base64);
    replace_all(first.as_str(), "__DSH_PET_SPRITE__", url.as_str())
}

/// Fills the pet script template with the hidden flag and the sprite, the
/// sprite embedded as a base64 `data:` URL.
pub fn pet_mode_script(template: &str, hidden: bool, sprite: &[u8]) -> (r: String)
    requires
        sprite@.len() <= usize::MAX / 2,
    ensures
        r@ == pet_script_text(template@, hidden, base64_standard(sprite@)),
{
    let encoded = encode_base64(sprite);
    pet_mode_script_with(template, hidden, encoded.as_str())
}

} // verus!
