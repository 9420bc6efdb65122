use vstd::prelude::*;
use crate::text::{decimal, decimal_text, owned, trim_text, trimmed};

verus! {

broadcast use vstd::string::group_string_axioms;

/// The views of a list of strings.
pub open spec fn texts(v: Seq<String>) -> Seq<Seq<char>> {
    v.map_values(|s: String| s@)
}

/// The views of a list of name/value pairs.
pub open spec fn pairs(v: Seq<(String, String)>) -> Seq<(Seq<char>, Seq<char>)> {
    v.map_values(|p: (String, String)| (p.0@, p.1@))
}

/// Appends a copy of a text to a list of strings.
pub(crate) fn push_text(v: &mut Vec<String>, s: &str)
    ensures
        texts(final(v)@) == texts(old(v)@).push(s@),
{
    v.push(owned(s));
    assert(texts(v@) =~= texts(old(v)@).push(s@));
}

fn push_pair(v: &mut Vec<(String, String)>, name: &str, value: &str)
    ensures
        pairs(final(v)@) == pairs(old(v)@).push((name@, value@)),
{
    v.push((owned(name), owned(value)));
    assert(pairs(v@) =~= pairs(old(v)@).push((name@, value@)));
}

/// A program and its arguments.
#[derive(Debug, PartialEq, Eq)]
pub struct ProcessCommand {
    pub program: String,
    pub args: Vec<String>,
}

// ---------------------------------------------------------------------------
// The harness runner
// ---------------------------------------------------------------------------

/// The package that `npx` runs.
pub open spec fn harness_package() -> Seq<char> {
    "@deepseek-ai/dsh@latest"@
}

/// How the harness is run: a program and the arguments that come before
/// those of each command.
#[derive(Debug, PartialEq, Eq)]
pub struct Runner {
    pub program: String,
    pub base_args: Vec<String>,
}

/// The arguments with which `npx` runs the harness.
pub open spec fn npx_args() -> Seq<Seq<char>> {
    seq!["--yes"@, harness_package()]
}

fn npx_runner(program: &str) -> (r: Runner)
    ensures
        r.program@ == program@,
        texts(r.base_args@) == npx_args(),
{
    let mut args: Vec<String> = Vec::new();
    push_text(&mut args, "--yes");
    push_text(&mut args, "@deepseek-ai/dsh@latest");
    assert(texts(args@) =~= npx_args());
    Runner { program: owned(program), base_args: args }
}

fn plain_runner(program: &str) -> (r: Runner)
    ensures
        r.program@ == program@,
        r.base_args@.len() == 0,
{
    Runner { program: owned(program), base_args: Vec::new() }
}

/// The names under which the harness binary is looked up on the `PATH`, in
/// order.
pub fn dsh_candidates(windows: bool) -> (r: Vec<String>)
    ensures
        texts(r@) == (if windows {
            seq!["dsh.cmd"@, "dsh.exe"@, "dsh"@]
        } else {
            seq!["dsh"@]
        }),
{
    let mut v: Vec<String> = Vec::new();
    if windows {
        push_text(&mut v, "dsh.cmd");
        push_text(&mut v, "dsh.exe");
    }
    push_text(&mut v, "dsh");
    proof {
        if windows {
            assert(texts(v@) =~= seq!["dsh.cmd"@, "dsh.exe"@, "dsh"@]);
        } else {
            assert(texts(v@) =~= seq!["dsh"@]);
        }
    }
    v
}

/// The name under which `npx` is looked up on the `PATH`.
pub fn npx_program(windows: bool) -> (r: String)
    ensures
        r@ == (if windows { "npx.cmd"@ } else { "npx"@ }),
{
    if windows { owned("npx.cmd") } else { owned("npx") }
}

/// Why no runner was found.
pub open spec fn no_runner_message() -> Seq<char> {
    "内置运行时未就绪。请重新运行安装器，或设置 DSH_DESKTOP_DSH_BIN"@
}

/// Picks how to run the harness, in order of preference: the program named
/// by `DSH_DESKTOP_DSH_BIN` when it is not blank, the first `dsh` found on
/// the `PATH`, then `npx` (the bundled one before the one on the `PATH`)
/// running the harness package.
pub fn resolve_runner(
    custom_bin: Option<&str>,
    dsh_on_path: Option<&str>,
    bundled_npx: Option<&str>,
    npx_on_path: Option<&str>,
) -> (r: Result<Runner, String>)
    ensures
        match custom_bin {
            Some(c) if trimmed(c@).len() > 0 => r matches Ok(x) && x.program@ == c@
                && x.base_args@.len() == 0,
            _ => match dsh_on_path {
                Some(d) => r matches Ok(x) && x.program@ == d@ && x.base_args@.len() == 0,
                None => match bundled_npx {
                    Some(n) => r matches Ok(x) && x.program@ == n@ && texts(x.base_args@)
                        == npx_args(),
                    None => match npx_on_path {
                        Some(n) => r matches Ok(x) && x.program@ == n@ && texts(x.base_args@)
                            == npx_args(),
                        None => r matches Err(e) && e@ == no_runner_message(),
                    },
                },
            },
        },
{
    if let Some(c) = custom_bin {
        if !trim_text(c).is_empty() {
            return Ok(plain_runner(c));
        }
    }
    if let Some(d) = dsh_on_path {
        return Ok(plain_runner(d));
    }
    if let Some(n) = bundled_npx {
        return Ok(npx_runner(n));
    }
    if let Some(n) = npx_on_path {
        return Ok(npx_runner(n));
    }
    Err(owned("内置运行时未就绪。请重新运行安装器，或设置 DSH_DESKTOP_DSH_BIN"))
}

/// The address the service listens on: the loopback interface only.
pub open spec fn service_host() -> Seq<char> {
    "127.0.0.1"@
}

/// The arguments that start the web service on a port of the loopback
/// interface.
pub open spec fn web_args(port: u16) -> Seq<Seq<char>> {
    seq!["web"@, "--host"@, service_host(), "--port"@, decimal(port as nat)]
}

/// The command that starts the web service: the runner's program, its base
/// arguments, then `web --host 127.0.0.1 --port <port>`.
pub fn runtime_command(runner: &Runner, port: u16) -> (r: ProcessCommand)
    ensures
        r.program@ == runner.program@,
        texts(r.args@) == texts(runner.base_args@) + web_args(port),
{
    let mut args: Vec<String> = Vec::new();
    let mut i: usize = 0;
    while i < runner.base_args.len()
        invariant
            i <= runner.base_args.len(),
            texts(args@) == texts(runner.base_args@.take(i as int)),
        decreases runner.base_args.len() - i,
    {
        let a = runner.base_args[i].clone();
        let ghost prev = args@;
        assert(a@ == runner.base_args@[i as int]@);
        args.push(a);
        assert(texts(args@) =~= texts(prev).push(runner.base_args@[i as int]@));
        assert(runner.base_args@.take(i + 1) =~= runner.base_args@.take(i as int).push(
            runner.base_args@[i as int],
        ));
        assert(texts(runner.base_args@.take(i + 1)) =~= texts(runner.base_args@.take(i as int)).push(
            runner.base_args@[i as int]@,
        ));
        i = i + 1;
    }
    assert(runner.base_args@.take(i as int) =~= runner.base_args@);
    let ghost base = texts(args@);
    push_text(&mut args, "web");
    push_text(&mut args, "--host");
    push_text(&mut args, "127.0.0.1");
    push_text(&mut args, "--port");
    let port_text = decimal_text(port as u64);
    push_text(&mut args, port_text.as_str());
    assert(texts(args@) =~= base + web_args(port));
    ProcessCommand { program: runner.program.clone(), args }
}

/// The address of the workbench served on a port.
pub open spec fn service_url_text(port: u16) -> Seq<char> {
    "http://127.0.0.1:"@ + decimal(port as nat) + "/"@
}

/// The address of the workbench served on a port.
pub fn service_url(port: u16) -> (r: String)
    ensures
        r@ == service_url_text(port),
{
    let mut s = owned("http://127.0.0.1:");
    let p = decimal_text(port as u64);
    s.append(p.as_str());
    s.append("/");
    s
}

/// The base address of the DeepSeek API when the environment names none.
pub open spec fn default_base_url() -> Seq<char> {
    "https://api.deepseek.com"@
}

/// The settings that the runtime receives in its environment: the key, the
/// API base address (from the environment, else the default), the model,
/// then the registry under both spellings npm reads.
pub open spec fn runtime_env(
    key: Seq<char>,
    model: Seq<char>,
    base_url: Option<Seq<char>>,
    registry: Option<Seq<char>>,
) -> Seq<(Seq<char>, Seq<char>)> {
    seq![
        ("DEEPSEEK_API_KEY"@, key),
        (
            "DEEPSEEK_BASE_URL"@,
            match base_url {
                Some(u) => u,
                None => default_base_url(),
            },
        ),
        ("DEEPSEEK_MODEL"@, model),
    ] + registry_env(registry)
}

/// The registry under both spellings npm reads, when there is one.
pub open spec fn registry_env(registry: Option<Seq<char>>) -> Seq<(Seq<char>, Seq<char>)> {
    match registry {
        Some(r) => seq![("NPM_CONFIG_REGISTRY"@, r), ("npm_config_registry"@, r)],
        None => Seq::empty(),
    }
}

fn push_registry(v: &mut Vec<(String, String)>, registry: Option<&str>)
    ensures
        pairs(final(v)@) == pairs(old(v)@) + registry_env(
            match registry {
                Some(r) => Some(r@),
                None => None,
            },
        ),
{
    match registry {
        Some(r) => {
            push_pair(v, "NPM_CONFIG_REGISTRY", r);
            push_pair(v, "npm_config_registry", r);
            assert(pairs(v@) =~= pairs(old(v)@) + seq![
                ("NPM_CONFIG_REGISTRY"@, r@),
                ("npm_config_registry"@, r@),
            ]);
        },
        None => {
            assert(pairs(v@) =~= pairs(old(v)@) + Seq::<(Seq<char>, Seq<char>)>::empty());
        },
    }
}

/// The environment the runtime is started with. The key travels only here,
/// never through a settings file.
pub fn runtime_environment(
    key: &str,
    model: &str,
    base_url: Option<&str>,
    registry: Option<&str>,
) -> (r: Vec<(String, String)>)
    ensures
        pairs(r@) == runtime_env(
            key@,
            model@,
            match base_url {
                Some(u) => Some(u@),
                None => None,
            },
            match registry {
                Some(x) => Some(x@),
                None => None,
            },
        ),
{
    let mut v: Vec<(String, String)> = Vec::new();
    push_pair(&mut v, "DEEPSEEK_API_KEY", key);
    match base_url {
        Some(u) => push_pair(&mut v, "DEEPSEEK_BASE_URL", u),
        None => push_pair(&mut v, "DEEPSEEK_BASE_URL", "https://api.deepseek.com"),
    }
    push_pair(&mut v, "DEEPSEEK_MODEL", model);
    push_registry(&mut v, registry);
    v
}

/// The settings with which the package manager runs: no minimum release
/// age (under the three names the tools read), then the registry.
pub open spec fn package_manager_env(registry: Option<Seq<char>>) -> Seq<(Seq<char>, Seq<char>)> {
    seq![
        ("npm_config_minimum_release_age"@, "0"@),
        ("NPM_CONFIG_MINIMUM_RELEASE_AGE"@, "0"@),
        ("pnpm_config_minimum_release_age"@, "0"@),
    ] + registry_env(registry)
}

/// The environment the package manager runs with.
pub fn package_manager_environment(registry: Option<&str>) -> (r: Vec<(String, String)>)
    ensures
        pairs(r@) == package_manager_env(
            match registry {
                Some(x) => Some(x@),
                None => None,
            },
        ),
{
    let mut v: Vec<(String, String)> = Vec::new();
    push_pair(&mut v, "npm_config_minimum_release_age", "0");
    push_pair(&mut v, "NPM_CONFIG_MINIMUM_RELEASE_AGE", "0");
    push_pair(&mut v, "pnpm_config_minimum_release_age", "0");
    push_registry(&mut v, registry);
    v
}

/// The registry settings for enabling the bundled package manager.
pub fn registry_environment(registry: Option<&str>) -> (r: Vec<(String, String)>)
    ensures
        pairs(r@) == registry_env(
            match registry {
                Some(x) => Some(x@),
                None => None,
            },
        ),
{
    let mut v: Vec<(String, String)> = Vec::new();
    assert(pairs(v@) =~= Seq::<(Seq<char>, Seq<char>)>::empty());
    push_registry(&mut v, registry);
    assert(pairs(v@) =~= registry_env(
        match registry {
            Some(x) => Some(x@),
            None => None,
        },
    ));
    v
}

/// The value of the first variable named `name` in an environment list.
pub open spec fn env_lookup(env: Seq<(Seq<char>, Seq<char>)>, name: Seq<char>) -> Option<Seq<char>>
    decreases env.len(),
{
    if env.len() == 0 {
        None
    } else if env[0].0 == name {
        Some(env[0].1)
    } else {
        env_lookup(env.drop_first(), name)
    }
}

/// Environment law: the runtime sees the key and the model it is given;
/// `DEEPSEEK_BASE_URL` is the given base address whenever one is given,
/// whatever the registry, and `https://api.deepseek.com` only when none is;
/// the registry, when one is given, under both spellings npm reads, and
/// neither spelling when none is.
pub proof fn law_runtime_environment_values(
    key: Seq<char>,
    model: Seq<char>,
    base_url: Option<Seq<char>>,
    registry: Option<Seq<char>>,
)
    ensures
        env_lookup(runtime_env(key, model, base_url, registry), "DEEPSEEK_API_KEY"@) == Some(key),
        env_lookup(runtime_env(key, model, base_url, registry), "DEEPSEEK_BASE_URL"@) == Some(
            match base_url {
                Some(u) => u,
                None => "https://api.deepseek.com"@,
            },
        ),
        env_lookup(runtime_env(key, model, base_url, registry), "DEEPSEEK_MODEL"@) == Some(model),
        env_lookup(runtime_env(key, model, base_url, registry), "NPM_CONFIG_REGISTRY"@) == registry,
        env_lookup(runtime_env(key, model, base_url, registry), "npm_config_registry"@) == registry,
{
    reveal_strlit("DEEPSEEK_API_KEY");
    reveal_strlit("DEEPSEEK_BASE_URL");
    reveal_strlit("DEEPSEEK_MODEL");
    reveal_strlit("NPM_CONFIG_REGISTRY");
    reveal_strlit("npm_config_registry");
    let env = runtime_env(key, model, base_url, registry);
    let k = "DEEPSEEK_API_KEY"@;
    let b = "DEEPSEEK_BASE_URL"@;
    let m = "DEEPSEEK_MODEL"@;
    let n1 = "NPM_CONFIG_REGISTRY"@;
    let n2 = "npm_config_registry"@;
    assert(k.len() == 16 && b.len() == 17 && m.len() == 14 && n1.len() == 19 && n2.len() == 19);
    assert(n1[0] != n2[0]);
    assert(k != b && k != m && b != m && n1 != k && n1 != b && n1 != m && n2 != k && n2 != b && n2
        != m && n1 != n2);
    let d1 = env.drop_first();
    let d2 = d1.drop_first();
    let d3 = d2.drop_first();
    assert(env[0].0 == k && env[1].0 == b && env[2].0 == m);
    assert(d1[0] == env[1] && d2[0] == env[2]);
    assert(d3 =~= registry_env(registry));
    reveal_with_fuel(env_lookup, 4);
    match registry {
        Some(x) => {
            assert(d3.drop_first().drop_first() =~= Seq::<(Seq<char>, Seq<char>)>::empty());
            assert(env_lookup(d3, n1) == Some(x));
            assert(env_lookup(d3.drop_first(), n2) == Some(x));
            assert(env_lookup(d3, n2) == Some(x));
        },
        None => {
            assert(env_lookup(d3, n1) is None);
            assert(env_lookup(d3, n2) is None);
        },
    }
    assert(env_lookup(d2, n1) == env_lookup(d3, n1));
    assert(env_lookup(d2, n2) == env_lookup(d3, n2));
    assert(env_lookup(d1, n1) == env_lookup(d2, n1));
    assert(env_lookup(d1, n2) == env_lookup(d2, n2));
    assert(env_lookup(d1, m) == env_lookup(d2, m));
}

} // verus!
