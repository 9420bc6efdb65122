use vstd::prelude::*;
use vstd::utf8::{is_ascii_chars, is_ascii_chars_encode_utf8};
use crate::text::{
    lemma_trim_start_shape,
    is_control_code, is_white_space, owned, same_text, trim_end_spec, trim_start_spec, trim_text,
    trimmed,
};
use crate::validation::{api_key_ok, model_ok, validate_api_key, validate_model};

verus! {

broadcast use vstd::string::group_string_axioms;

// ---------------------------------------------------------------------------
// Trimming twice
// ---------------------------------------------------------------------------

proof fn lemma_trim_end_prefix(s: Seq<char>)
    ensures
        trim_end_spec(s).len() <= s.len(),
        trim_end_spec(s) == s.take(trim_end_spec(s).len() as int),
        trim_end_spec(s).len() > 0 ==> !is_white_space(trim_end_spec(s).last()),
    decreases s.len(),
{
    if s.len() > 0 && is_white_space(s.last()) {
        lemma_trim_end_prefix(s.drop_last());
        let t = trim_end_spec(s.drop_last());
        assert(s.drop_last().take(t.len() as int) =~= s.take(t.len() as int));
    } else {
        assert(s.take(s.len() as int) =~= s);
    }
}

/// Trimming an already trimmed text changes nothing.
pub proof fn lemma_trimmed_idempotent(s: Seq<char>)
    ensures
        trimmed(trimmed(s)) == trimmed(s),
{
    let a = trim_start_spec(s);
    let t = trim_end_spec(a);
    lemma_trim_start_shape(s);
    lemma_trim_end_prefix(a);
    if t.len() > 0 {
        assert(t[0] == a[0]);
        assert(trim_start_spec(t) == t);
        lemma_trim_end_prefix(t);
        assert(trim_end_spec(t) == t);
    } else {
        assert(trim_start_spec(t) == t);
        assert(trim_end_spec(t) == t);
    }
}

/// Printable ASCII other than the space.
pub open spec fn is_graphic_ascii(c: char) -> bool {
    '!' <= c <= '~'
}

/// A text of printable, non-space ASCII characters is a well-formed model
/// name when it is not empty and at most 128 characters long.
pub proof fn lemma_graphic_ascii_model_ok(s: Seq<char>)
    requires
        0 < s.len() <= 128,
        forall|i: int| 0 <= i < s.len() ==> is_graphic_ascii(#[trigger] s[i]),
    ensures
        model_ok(s),
        trimmed(s) == s,
{
    assert(!is_white_space(s[0]));
    assert(trim_start_spec(s) == s);
    assert(!is_white_space(s.last()));
    assert(trim_end_spec(s) == s);
    assert(is_ascii_chars(s));
    is_ascii_chars_encode_utf8(s);
    assert forall|i: int| 0 <= i < s.len() implies !(is_control_code(#[trigger] s[i])
        || is_white_space(s[i])) by {
        assert(is_graphic_ascii(s[i]));
    }
}

// ---------------------------------------------------------------------------
// Pet visibility
// ---------------------------------------------------------------------------

/// Whether the settings text of the pet says it is hidden: `1` or `true`
/// once trimmed.
pub open spec fn pet_hidden_from(text: Seq<char>) -> bool {
    trimmed(text) == "1"@ || trimmed(text) == "true"@
}

/// The settings text that records the pet's visibility.
pub open spec fn pet_hidden_record(hidden: bool) -> Seq<char> {
    if hidden { "1"@ } else { "0"@ }
}

/// Reads the pet's visibility from its settings text.
pub fn parse_pet_hidden(text: &str) -> (r: bool)
    ensures
        r == pet_hidden_from(text@),
{
    let t = trim_text(text);
    same_text(t, "1") || same_text(t, "true")
}

/// The settings text that records the pet's visibility.
pub fn pet_hidden_text(hidden: bool) -> (r: String)
    ensures
        r@ == pet_hidden_record(hidden),
{
    if hidden { owned("1") } else { owned("0") }
}

/// Round-trip law: the visibility written to the settings is the one read
/// back from them.
pub proof fn law_pet_visibility_round_trip(hidden: bool)
    ensures
        pet_hidden_from(pet_hidden_record(hidden)) == hidden,
{
    reveal_strlit("1");
    reveal_strlit("0");
    reveal_strlit("true");
    let r = pet_hidden_record(hidden);
    assert(!is_white_space(r[0]));
    assert(trim_start_spec(r) == r);
    assert(trim_end_spec(r) == r);
    assert(trimmed(r) == r);
    if !hidden {
        assert(r[0] != "1"@[0]);
        assert(r.len() != "true"@.len());
    }
}

// ---------------------------------------------------------------------------
// Stored key and model
// ---------------------------------------------------------------------------

/// A stored key, kept only when it is well formed.
pub fn accept_api_key(candidate: Option<String>) -> (r: Option<String>)
    ensures
        match candidate {
            Some(k) => if api_key_ok(k@) {
                r matches Some(x) && x@ == k@
            } else {
                r is None
            },
            None => r is None,
        },
{
    match candidate {
        Some(k) => if validate_api_key(k.as_str()).is_ok() {
            Some(k)
        } else {
            None
        },
        None => None,
    }
}

/// The model used when none is configured.
pub open spec fn default_model() -> Seq<char> {
    "deepseek-v4-pro"@
}

/// The model of the settings: the one from the environment when it is
/// well formed, else the one from the settings file when it is, else the
/// default; trimmed.
pub open spec fn chosen_model(env_model: Option<Seq<char>>, file_model: Option<Seq<char>>) -> Seq<
    char,
> {
    match env_model {
        Some(m) if model_ok(m) => trimmed(m),
        _ => match file_model {
            Some(f) if model_ok(trimmed(f)) => trimmed(f),
            _ => default_model(),
        },
    }
}

/// Picks the model: from the environment, else from the settings file,
/// else the default.
pub fn choose_model(env_model: Option<&str>, file_model: Option<&str>) -> (r: String)
    ensures
        r@ == chosen_model(
            match env_model {
                Some(m) => Some(m@),
                None => None,
            },
            match file_model {
                Some(f) => Some(f@),
                None => None,
            },
        ),
        model_ok(r@),
{
    if let Some(m) = env_model {
        if validate_model(m).is_ok() {
            proof {
                lemma_trimmed_idempotent(m@);
            }
            return owned(trim_text(m));
        }
    }
    if let Some(f) = file_model {
        let t = trim_text(f);
        if validate_model(t).is_ok() {
            return owned(t);
        }
    }
    proof {
        reveal_strlit("deepseek-v4-pro");
        let d = default_model();
        assert forall|i: int| 0 <= i < d.len() implies is_graphic_ascii(#[trigger] d[i]) by {}
        lemma_graphic_ascii_model_ok(d);
    }
    owned("deepseek-v4-pro")
}

/// The settings text that records a model: the model trimmed.
pub fn model_record(model: &str) -> (r: String)
    ensures
        r@ == trimmed(model@),
{
    owned(trim_text(model))
}

/// Round-trip law: a well-formed model written to the settings file is the
/// model read back from it, trimmed, when the environment names none.
pub proof fn law_model_round_trip(model: Seq<char>)
    requires
        model_ok(model),
    ensures
        chosen_model(None, Some(trimmed(model))) == trimmed(model),
{
    lemma_trimmed_idempotent(model);
}

// ---------------------------------------------------------------------------
// npm registry
// ---------------------------------------------------------------------------

/// The registry used when none is configured.
pub open spec fn default_registry() -> Seq<char> {
    "https://registry.npmmirror.com"@
}

/// The npm registry: the one from the environment if it is set, else the
/// one from the settings file; trimmed; the default when that is blank or
/// neither is there.
pub open spec fn chosen_registry(env: Option<Seq<char>>, file: Option<Seq<char>>) -> Seq<char> {
    let source = match env {
        Some(e) => Some(e),
        None => file,
    };
    match source {
        Some(v) if trimmed(v).len() > 0 => trimmed(v),
        _ => default_registry(),
    }
}

/// Picks the npm registry.
pub fn choose_registry(env: Option<&str>, file: Option<&str>) -> (r: String)
    ensures
        r@ == chosen_registry(
            match env {
                Some(e) => Some(e@),
                None => None,
            },
            match file {
                Some(f) => Some(f@),
                None => None,
            },
        ),
        r@.len() > 0,
{
    let source = match env {
        Some(e) => Some(e),
        None => file,
    };
    if let Some(v) = source {
        let t = trim_text(v);
        if !t.is_empty() {
            return owned(t);
        }
    }
    proof {
        reveal_strlit("https://registry.npmmirror.com");
    }
    owned("https://registry.npmmirror.com")
}

/// Registry law: a registry set in the environment, once trimmed, is the
/// one used whenever it is not blank, whatever the settings file holds or
/// whether there is one; without it in the environment, the file's
/// registry, trimmed, when not blank; `https://registry.npmmirror.com`
/// otherwise (a blank registry in the environment included).
pub proof fn law_registry_choice(env: Option<Seq<char>>, file: Option<Seq<char>>)
    ensures
        env is Some && trimmed(env->0).len() > 0 ==> chosen_registry(env, file) == trimmed(env->0),
        env is None && file is Some && trimmed(file->0).len() > 0 ==> chosen_registry(env, file)
            == trimmed(file->0),
        (env is Some && trimmed(env->0).len() == 0) || (env is None && (file is None || trimmed(
            file->0,
        ).len() == 0)) ==> chosen_registry(env, file) == "https://registry.npmmirror.com"@,
{
}

} // verus!
