use vstd::prelude::*;
use vstd::utf8::encode_utf8;
use crate::text::{chars_of, char_is_control, char_is_whitespace, is_control_code, is_white_space, owned, trim_text, trimmed};

verus! {

broadcast use vstd::string::group_string_axioms;

/// Longest accepted API key, in UTF-8 bytes.
pub const MAX_KEY_BYTES: usize = 512;

/// Longest accepted model name, in UTF-8 bytes.
pub const MAX_MODEL_BYTES: usize = 128;

/// A unit result with its message taken by its view.
pub open spec fn outcome(r: Result<(), String>) -> Result<(), Seq<char>> {
    match r {
        Ok(_) => Ok(()),
        Err(e) => Err(e@),
    }
}

/// The verdict on an API key: the empty key, then a key that is too long or
/// holds a refused character, are refused with their messages.
pub open spec fn key_verdict(s: Seq<char>) -> Result<(), Seq<char>> {
    if s.len() == 0 {
        Err(empty_key_message())
    } else if !api_key_ok(s) {
        Err(malformed_key_message())
    } else {
        Ok(())
    }
}

/// The verdict on a model name, judged after trimming.
pub open spec fn model_verdict(s: Seq<char>) -> Result<(), Seq<char>> {
    if trimmed(s).len() == 0 {
        Err(empty_model_message())
    } else if !model_ok(s) {
        Err(malformed_model_message())
    } else {
        Ok(())
    }
}

/// Whether a character is refused inside a key or a model name.
pub open spec fn is_refused_char(c: char) -> bool {
    is_control_code(c) || is_white_space(c)
}

/// Whether `s` holds a refused character.
pub open spec fn has_refused_char(s: Seq<char>) -> bool {
    exists|i: int| 0 <= i < s.len() && is_refused_char(#[trigger] s[i])
}

/// Whether `s` is a well-formed API key: non-empty, at most 512 bytes in
/// UTF-8, and free of control and whitespace characters. No prefix is
/// required.
pub open spec fn api_key_ok(s: Seq<char>) -> bool {
    &&& s.len() > 0
    &&& encode_utf8(s).len() <= MAX_KEY_BYTES
    &&& !has_refused_char(s)
}

/// Whether `s`, once trimmed, is a well-formed model name: non-empty, at most
/// 128 bytes in UTF-8, and free of control and whitespace characters.
pub open spec fn model_ok(s: Seq<char>) -> bool {
    let t = trimmed(s);
    &&& t.len() > 0
    &&& encode_utf8(t).len() <= MAX_MODEL_BYTES
    &&& !has_refused_char(t)
}

/// The refusal of an empty key.
pub open spec fn empty_key_message() -> Seq<char> {
    "API Key 不能为空"@
}

/// The refusal of a malformed key.
pub open spec fn malformed_key_message() -> Seq<char> {
    "API Key 格式异常：请粘贴平台生成的完整 Key"@
}

/// The refusal of an empty model name.
pub open spec fn empty_model_message() -> Seq<char> {
    "请选择 DeepSeek 模型"@
}

/// The refusal of a malformed model name.
pub open spec fn malformed_model_message() -> Seq<char> {
    "模型名称格式异常"@
}

/// Whether `s` holds a control or whitespace character.
pub fn any_refused_char(s: &str) -> (r: bool)
    ensures
        r == has_refused_char(s@),
{
    let v = chars_of(s);
    let mut i: usize = 0;
    while i < v.len()
        invariant
            v@ == s@,
            i <= v.len(),
            forall|j: int| 0 <= j < i ==> !is_refused_char(v@[j]),
        decreases v.len() - i,
    {
        let c = v[i];
        if char_is_control(c) || char_is_whitespace(c) {
            assert(is_refused_char(s@[i as int]));
            return true;
        }
        i = i + 1;
    }
    false
}

/// Checks the shape of an API key, without trimming it.
pub fn validate_api_key(key: &str) -> (r: Result<(), String>)
    ensures
        outcome(r) == key_verdict(key@),
        r is Ok <==> api_key_ok(key@),
{
    if key.is_empty() {
        return Err(owned("API Key 不能为空"));
    }
    if key.as_bytes().len() > MAX_KEY_BYTES || any_refused_char(key) {
        return Err(owned("API Key 格式异常：请粘贴平台生成的完整 Key"));
    }
    Ok(())
}

/// Checks the shape of a model name, after trimming it.
pub fn validate_model(model: &str) -> (r: Result<(), String>)
    ensures
        outcome(r) == model_verdict(model@),
        r is Ok <==> model_ok(model@),
{
    let model = trim_text(model);
    if model.is_empty() {
        return Err(owned("请选择 DeepSeek 模型"));
    }
    if model.as_bytes().len() > MAX_MODEL_BYTES || any_refused_char(model) {
        return Err(owned("模型名称格式异常"));
    }
    Ok(())
}

} // verus!
