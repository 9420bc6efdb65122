use vstd::prelude::*;
use crate::runtime::{push_text, texts};
use crate::text::{owned, same_text, trim_text, trimmed};

verus! {

broadcast use vstd::string::group_string_axioms;

/// The bundled web UI packages, relative to the front-end directory, in the
/// order they are linked.
pub open spec fn ui_package_paths() -> Seq<Seq<char>> {
    seq![
        "packages/dsh-aionui-panel"@,
        "packages/dsh-community-plugins"@,
        "packages/dsh-git-graph"@,
        "packages/dsh-liangshen"@,
        "packages/dsh-pet"@,
        "packages/dsh-plugin-manager"@,
        "packages/dsh-remote-web-ui"@,
        "packages/dsh-skill-explorer"@,
        "packages/dsh-skins"@,
        "packages/dsh-ssh"@,
        "packages/dsh-task-board"@,
        "packages/dsh-tool-describe-image"@,
        "packages/dsh-web-ui-settings"@,
        "packages/skins/skin-center"@,
        "packages/dsh-web-ui-all"@,
    ]
}

/// The npm packages the bundled web UI needs at run time.
pub open spec fn ui_runtime_deps() -> Seq<Seq<char>> {
    seq![
        "@xterm/addon-fit@^0.11.0"@,
        "@xterm/xterm@^6.0.0"@,
        "cloudflared@^0.7.3"@,
        "clsx@^2.1.1"@,
        "dsh-better-sidebar@0.13.0"@,
        "lightningcss@^1.32.0"@,
        "qrcode.react@^4.2.0"@,
        "schemastery@^3.18.0"@,
        "ssh2@^1.17.0"@,
        "ws@^8.18.0"@,
        "yaml@^2.8.2"@,
        "zod@^4.4.3"@,
    ]
}

/// The bundled web UI packages, relative to the front-end directory.
pub fn local_ui_package_paths() -> (r: Vec<String>)
    ensures
        texts(r@) == ui_package_paths(),
{
    let mut v: Vec<String> = Vec::new();
    push_text(&mut v, "packages/dsh-aionui-panel");
    push_text(&mut v, "packages/dsh-community-plugins");
    push_text(&mut v, "packages/dsh-git-graph");
    push_text(&mut v, "packages/dsh-liangshen");
    push_text(&mut v, "packages/dsh-pet");
    push_text(&mut v, "packages/dsh-plugin-manager");
    push_text(&mut v, "packages/dsh-remote-web-ui");
    push_text(&mut v, "packages/dsh-skill-explorer");
    push_text(&mut v, "packages/dsh-skins");
    push_text(&mut v, "packages/dsh-ssh");
    push_text(&mut v, "packages/dsh-task-board");
    push_text(&mut v, "packages/dsh-tool-describe-image");
    push_text(&mut v, "packages/dsh-web-ui-settings");
    push_text(&mut v, "packages/skins/skin-center");
    push_text(&mut v, "packages/dsh-web-ui-all");
    assert(texts(v@) =~= ui_package_paths());
    v
}

/// The flag that lifts the minimum release age of pnpm.
pub open spec fn release_age_flag() -> Seq<char> {
    "--config.minimumReleaseAge=0"@
}

/// The arguments of `pnpm add`: the runtime dependencies, then each bundled
/// package linked from its directory.
pub open spec fn pnpm_add_args_spec(package_dirs: Seq<Seq<char>>) -> Seq<Seq<char>> {
    seq![release_age_flag(), "add"@, "--save-prod"@] + ui_runtime_deps() + package_dirs.map_values(
        |d: Seq<char>| "link:"@ + d,
    )
}

/// The arguments with which pnpm adds the bundled web UI to the profile.
pub fn pnpm_add_args(package_dirs: &[String]) -> (r: Vec<String>)
    ensures
        texts(r@) == pnpm_add_args_spec(texts(package_dirs@)),
{
    let mut v: Vec<String> = Vec::new();
    push_text(&mut v, "--config.minimumReleaseAge=0");
    push_text(&mut v, "add");
    push_text(&mut v, "--save-prod");
    push_text(&mut v, "@xterm/addon-fit@^0.11.0");
    push_text(&mut v, "@xterm/xterm@^6.0.0");
    push_text(&mut v, "cloudflared@^0.7.3");
    push_text(&mut v, "clsx@^2.1.1");
    push_text(&mut v, "dsh-better-sidebar@0.13.0");
    push_text(&mut v, "lightningcss@^1.32.0");
    push_text(&mut v, "qrcode.react@^4.2.0");
    push_text(&mut v, "schemastery@^3.18.0");
    push_text(&mut v, "ssh2@^1.17.0");
    push_text(&mut v, "ws@^8.18.0");
    push_text(&mut v, "yaml@^2.8.2");
    push_text(&mut v, "zod@^4.4.3");
    let ghost head = texts(v@);
    assert(head =~= seq![release_age_flag(), "add"@, "--save-prod"@] + ui_runtime_deps());
    let mut i: usize = 0;
    while i < package_dirs.len()
        invariant
            i <= package_dirs.len(),
            head == seq![release_age_flag(), "add"@, "--save-prod"@] + ui_runtime_deps(),
            texts(v@) == head + texts(package_dirs@).take(i as int).map_values(
                |d: Seq<char>| "link:"@ + d,
            ),
        decreases package_dirs.len() - i,
    {
        let mut link = owned("link:");
        link.append(package_dirs[i].as_str());
        let ghost prev = texts(v@);
        let ghost lv = link@;
        v.push(link);
        assert(texts(v@) =~= prev.push(lv));
        assert(texts(package_dirs@).take(i + 1) =~= texts(package_dirs@).take(i as int).push(
            package_dirs@[i as int]@,
        ));
        assert(texts(package_dirs@).take(i + 1).map_values(|d: Seq<char>| "link:"@ + d)
            =~= texts(package_dirs@).take(i as int).map_values(|d: Seq<char>| "link:"@ + d).push(
            lv,
        ));
        i = i + 1;
    }
    assert(texts(package_dirs@).take(i as int) =~= texts(package_dirs@));
    v
}

/// The arguments with which pnpm approves the build scripts of the native
/// packages.
pub open spec fn approve_builds_args_spec() -> Seq<Seq<char>> {
    seq![release_age_flag(), "approve-builds"@, "cpu-features"@, "node-pty"@, "ssh2"@]
}

/// The arguments with which pnpm rebuilds the native packages.
pub open spec fn rebuild_args_spec() -> Seq<Seq<char>> {
    seq![release_age_flag(), "rebuild"@, "cpu-features"@, "node-pty"@, "ssh2"@]
}

fn native_build_args(verb: &str) -> (r: Vec<String>)
    ensures
        texts(r@) == seq![release_age_flag(), verb@, "cpu-features"@, "node-pty"@, "ssh2"@],
{
    let mut v: Vec<String> = Vec::new();
    push_text(&mut v, "--config.minimumReleaseAge=0");
    push_text(&mut v, verb);
    push_text(&mut v, "cpu-features");
    push_text(&mut v, "node-pty");
    push_text(&mut v, "ssh2");
    assert(texts(v@) =~= seq![release_age_flag(), verb@, "cpu-features"@, "node-pty"@, "ssh2"@]);
    v
}

/// The arguments with which pnpm approves the build scripts of the native
/// packages.
pub fn approve_builds_args() -> (r: Vec<String>)
    ensures
        texts(r@) == approve_builds_args_spec(),
{
    native_build_args("approve-builds")
}

/// The arguments with which pnpm rebuilds the native packages.
pub fn rebuild_args() -> (r: Vec<String>)
    ensures
        texts(r@) == rebuild_args_spec(),
{
    native_build_args("rebuild")
}

/// What the shell found of one bundled package on disk.
#[derive(Debug, PartialEq, Eq)]
pub struct PackageProbe {
    /// The package directory, as it is displayed.
    pub path: String,
    pub has_manifest: bool,
    pub has_runtime_entry: bool,
    pub has_bundle_patch: bool,
}

/// A package is complete with a manifest and either a built entry point or
/// a bundle patch.
pub open spec fn package_complete(p: PackageProbe) -> bool {
    p.has_manifest && (p.has_runtime_entry || p.has_bundle_patch)
}

/// Why the front end is incomplete.
pub open spec fn incomplete_message(path: Seq<char>) -> Seq<char> {
    "内置 Web UI 不完整：缺少 "@ + path + "（发布包必须包含 frontend/dsh-web-ui）"@
}

/// Checks the bundled packages in order: all of their directories when
/// every one is complete, else the refusal that names the first incomplete
/// one.
pub fn local_frontend_package_dirs(probes: &[PackageProbe]) -> (r: Result<Vec<String>, String>)
    ensures
        r is Ok <==> forall|i: int| 0 <= i < probes@.len() ==> package_complete(
            #[trigger] probes@[i],
        ),
        r matches Ok(dirs) ==> texts(dirs@) == probes@.map_values(|p: PackageProbe| p.path@),
        r matches Err(e) ==> exists|i: int|
            0 <= i < probes@.len() && !package_complete(#[trigger] probes@[i]) && (forall|j: int|
                0 <= j < i ==> package_complete(probes@[j])) && e@ == incomplete_message(
                probes@[i].path@,
            ),
{
    let mut dirs: Vec<String> = Vec::new();
    let mut i: usize = 0;
    while i < probes.len()
        invariant
            i <= probes.len(),
            forall|j: int| 0 <= j < i ==> package_complete(#[trigger] probes@[j]),
            texts(dirs@) == probes@.take(i as int).map_values(|p: PackageProbe| p.path@),
        decreases probes.len() - i,
    {
        let p = &probes[i];
        if !p.has_manifest || (!p.has_runtime_entry && !p.has_bundle_patch) {
            let mut e = owned("内置 Web UI 不完整：缺少 ");
            e.append(p.path.as_str());
            e.append("（发布包必须包含 frontend/dsh-web-ui）");
            assert(!package_complete(probes@[i as int]));
            return Err(e);
        }
        let ghost prev = texts(dirs@);
        let d = p.path.clone();
        dirs.push(d);
        assert(texts(dirs@) =~= prev.push(probes@[i as int].path@));
        assert(probes@.take(i + 1) =~= probes@.take(i as int).push(probes@[i as int]));
        assert(probes@.take(i + 1).map_values(|p: PackageProbe| p.path@) =~= probes@.take(
            i as int,
        ).map_values(|p: PackageProbe| p.path@).push(probes@[i as int].path@));
        i = i + 1;
    }
    assert(probes@.take(i as int) =~= probes@);
    Ok(dirs)
}

/// Whether the front end recorded as installed is the one at hand: the
/// recorded directory, trimmed, is its directory.
pub open spec fn frontend_installed(marker: Option<Seq<char>>, frontend_dir: Seq<char>) -> bool {
    match marker {
        Some(m) => trimmed(m) == frontend_dir,
        None => false,
    }
}

/// Whether the front end recorded as installed is the one at hand.
pub fn local_frontend_is_installed(marker: Option<&str>, frontend_dir: &str) -> (r: bool)
    ensures
        r == frontend_installed(
            match marker {
                Some(m) => Some(m@),
                None => None,
            },
            frontend_dir@,
        ),
{
    match marker {
        Some(m) => same_text(trim_text(m), frontend_dir),
        None => false,
    }
}

// ---------------------------------------------------------------------------
// Bundled Node.js runtime
// ---------------------------------------------------------------------------

/// A candidate path, and whether it is present as what is looked for there
/// (a file, or a directory).
#[derive(Debug, PartialEq, Eq)]
pub struct PathProbe {
    pub path: String,
    pub present: bool,
}

/// The first candidate that is present.
pub open spec fn first_present(probes: Seq<PathProbe>) -> Option<Seq<char>>
    decreases probes.len(),
{
    if probes.len() == 0 {
        None
    } else if probes[0].present {
        Some(probes[0].path@)
    } else {
        first_present(probes.drop_first())
    }
}

/// Where, under one runtime root, a tool of the bundled runtime is looked
/// for, as path components: `name.cmd` then `name` on Windows, `bin/name`
/// elsewhere.
pub open spec fn runtime_entry_spec(name: Seq<char>, windows: bool) -> Seq<Seq<Seq<char>>> {
    if windows {
        seq![seq![name + ".cmd"@], seq![name]]
    } else {
        seq![seq!["bin"@, name]]
    }
}

/// Where, under one runtime root, a tool of the bundled runtime is looked
/// for, as path components.
pub fn runtime_entry_candidates(name: &str, windows: bool) -> (r: Vec<Vec<String>>)
    ensures
        r@.map_values(|c: Vec<String>| texts(c@)) == runtime_entry_spec(name@, windows),
{
    let mut out: Vec<Vec<String>> = Vec::new();
    if windows {
        let mut cmd = owned(name);
        cmd.append(".cmd");
        let mut a: Vec<String> = Vec::new();
        push_text(&mut a, cmd.as_str());
        let mut b: Vec<String> = Vec::new();
        push_text(&mut b, name);
        out.push(a);
        out.push(b);
        assert(texts(a@) =~= seq![name@ + ".cmd"@]);
        assert(texts(b@) =~= seq![name@]);
    } else {
        let mut a: Vec<String> = Vec::new();
        push_text(&mut a, "bin");
        push_text(&mut a, name);
        out.push(a);
        assert(texts(a@) =~= seq!["bin"@, name@]);
    }
    assert(out@.map_values(|c: Vec<String>| texts(c@)) =~= runtime_entry_spec(name@, windows));
    out
}

/// The first candidate that is present.
pub fn first_present_path(probes: &[PathProbe]) -> (r: Option<String>)
    ensures
        match r {
            Some(p) => first_present(probes@) == Some(p@),
            None => first_present(probes@) is None,
        },
{
    let mut i: usize = 0;
    assert(probes@.skip(0) =~= probes@);
    while i < probes.len()
        invariant
            i <= probes.len(),
            first_present(probes@) == first_present(probes@.skip(i as int)),
        decreases probes.len() - i,
    {
        if probes[i].present {
            return Some(probes[i].path.clone());
        }
        assert(probes@.skip(i as int).drop_first() =~= probes@.skip(i + 1));
        i = i + 1;
    }
    None
}

/// The bundled tool: the first of its candidates, root by root (see
/// `runtime_entry_candidates`), that is present as a file.
pub fn bundled_runtime_path(probes: &[PathProbe]) -> (r: Option<String>)
    ensures
        match r {
            Some(p) => first_present(probes@) == Some(p@),
            None => first_present(probes@) is None,
        },
{
    first_present_path(probes)
}

/// The bundled Corepack: the first of its candidates (see
/// `runtime_entry_candidates` for `corepack`) that is present as a file.
pub fn bundled_corepack(probes: &[PathProbe]) -> (r: Option<String>)
    ensures
        match r {
            Some(p) => first_present(probes@) == Some(p@),
            None => first_present(probes@) is None,
        },
{
    first_present_path(probes)
}

/// The names under which pnpm is looked for, in order.
pub fn package_manager_names(windows: bool) -> (r: Vec<String>)
    ensures
        texts(r@) == (if windows {
            seq!["pnpm.cmd"@, "pnpm.exe"@, "pnpm"@]
        } else {
            seq!["pnpm"@]
        }),
{
    let mut v: Vec<String> = Vec::new();
    if windows {
        push_text(&mut v, "pnpm.cmd");
        push_text(&mut v, "pnpm.exe");
    }
    push_text(&mut v, "pnpm");
    proof {
        if windows {
            assert(texts(v@) =~= seq!["pnpm.cmd"@, "pnpm.exe"@, "pnpm"@]);
        } else {
            assert(texts(v@) =~= seq!["pnpm"@]);
        }
    }
    v
}

/// The views of a list of component lists.
pub open spec fn path_lists(v: Seq<Vec<String>>) -> Seq<Seq<Seq<char>>> {
    v.map_values(|c: Vec<String>| texts(c@))
}

/// The names of pnpm, as `package_manager_names` gives them.
pub open spec fn pnpm_names(windows: bool) -> Seq<Seq<char>> {
    if windows {
        seq!["pnpm.cmd"@, "pnpm.exe"@, "pnpm"@]
    } else {
        seq!["pnpm"@]
    }
}

/// The places where pnpm is looked for under one runtime root: each name in
/// the root, then, except on Windows, each name in its `bin` directory.
pub open spec fn root_pnpm_candidates(root: Seq<char>, names: Seq<Seq<char>>, windows: bool) -> Seq<
    Seq<Seq<char>>,
> {
    names.map_values(|n: Seq<char>| seq![root, n]) + (if windows {
        Seq::empty()
    } else {
        names.map_values(|n: Seq<char>| seq![root, "bin"@, n])
    })
}

/// The places where pnpm is looked for under the runtime roots, root by
/// root.
pub open spec fn roots_pnpm_candidates(roots: Seq<Seq<char>>, names: Seq<Seq<char>>, windows: bool) -> Seq<
    Seq<Seq<char>>,
>
    decreases roots.len(),
{
    if roots.len() == 0 {
        Seq::empty()
    } else {
        roots_pnpm_candidates(roots.drop_last(), names, windows) + root_pnpm_candidates(
            roots.last(),
            names,
            windows,
        )
    }
}

/// The places where pnpm is looked for on the `PATH`: name by name, each
/// directory of the `PATH` in order.
pub open spec fn path_pnpm_candidates(names: Seq<Seq<char>>, dirs: Seq<Seq<char>>) -> Seq<
    Seq<Seq<char>>,
>
    decreases names.len(),
{
    if names.len() == 0 {
        Seq::empty()
    } else {
        path_pnpm_candidates(names.drop_last(), dirs) + dirs.map_values(
            |d: Seq<char>| seq![d, names.last()],
        )
    }
}

/// Every place where pnpm is looked for, in order: under the runtime roots,
/// then on the `PATH`.
pub open spec fn pnpm_candidates_spec(roots: Seq<Seq<char>>, dirs: Seq<Seq<char>>, windows: bool) -> Seq<
    Seq<Seq<char>>,
> {
    roots_pnpm_candidates(roots, pnpm_names(windows), windows) + path_pnpm_candidates(
        pnpm_names(windows),
        dirs,
    )
}

fn push_pair_path(out: &mut Vec<Vec<String>>, a: &str, b: &str)
    ensures
        path_lists(final(out)@) == path_lists(old(out)@).push(seq![a@, b@]),
{
    let mut v: Vec<String> = Vec::new();
    push_text(&mut v, a);
    push_text(&mut v, b);
    assert(texts(v@) =~= seq![a@, b@]);
    out.push(v);
    assert(path_lists(out@) =~= path_lists(old(out)@).push(seq![a@, b@]));
}

fn push_bin_path(out: &mut Vec<Vec<String>>, a: &str, b: &str)
    ensures
        path_lists(final(out)@) == path_lists(old(out)@).push(seq![a@, "bin"@, b@]),
{
    let mut v: Vec<String> = Vec::new();
    push_text(&mut v, a);
    push_text(&mut v, "bin");
    push_text(&mut v, b);
    assert(texts(v@) =~= seq![a@, "bin"@, b@]);
    out.push(v);
    assert(path_lists(out@) =~= path_lists(old(out)@).push(seq![a@, "bin"@, b@]));
}

fn push_one_path(out: &mut Vec<Vec<String>>, a: &str)
    ensures
        path_lists(final(out)@) == path_lists(old(out)@).push(seq![a@]),
{
    let mut v: Vec<String> = Vec::new();
    push_text(&mut v, a);
    assert(texts(v@) =~= seq![a@]);
    out.push(v);
    assert(path_lists(out@) =~= path_lists(old(out)@).push(seq![a@]));
}

fn push_parts_path(out: &mut Vec<Vec<String>>, a: &str, rest: &[&str])
    ensures
        path_lists(final(out)@) == path_lists(old(out)@).push(
            seq![a@] + rest@.map_values(|x: &str| x@),
        ),
{
    let mut v: Vec<String> = Vec::new();
    push_text(&mut v, a);
    let mut i: usize = 0;
    while i < rest.len()
        invariant
            i <= rest@.len(),
            texts(v@) == seq![a@] + rest@.take(i as int).map_values(|x: &str| x@),
        decreases rest.len() - i,
    {
        push_text(&mut v, rest[i]);
        assert(rest@.take(i + 1).map_values(|x: &str| x@) =~= rest@.take(i as int).map_values(
            |x: &str| x@,
        ).push(rest@[i as int]@));
        i = i + 1;
    }
    assert(rest@.take(i as int) =~= rest@);
    out.push(v);
    assert(path_lists(out@) =~= path_lists(old(out)@).push(
        seq![a@] + rest@.map_values(|x: &str| x@),
    ));
}

/// Where the bundled Node.js runtime is looked for, as path components, in
/// order: the directory of `DSH_DESKTOP_NODE_BIN`, then `runtime/node`
/// under the installation directory (the parent of the executable's
/// directory), then under its `Resources` directory, then under the working
/// directory.
pub open spec fn runtime_roots_spec(
    node_bin_dir: Option<Seq<char>>,
    install_dir: Option<Seq<char>>,
    current_dir: Option<Seq<char>>,
) -> Seq<Seq<Seq<char>>> {
    (match node_bin_dir {
        Some(d) => seq![seq![d]],
        None => Seq::empty(),
    }) + (match install_dir {
        Some(b) => seq![
            seq![b, "runtime"@, "node"@],
            seq![b, "Resources"@, "runtime"@, "node"@],
        ],
        None => Seq::empty(),
    }) + (match current_dir {
        Some(c) => seq![seq![c, "runtime"@, "node"@]],
        None => Seq::empty(),
    })
}

/// Where the bundled Node.js runtime is looked for, as path components (see
/// `runtime_roots_spec`).
pub fn runtime_root_candidates(
    node_bin_dir: Option<&str>,
    install_dir: Option<&str>,
    current_dir: Option<&str>,
) -> (r: Vec<Vec<String>>)
    ensures
        path_lists(r@) == runtime_roots_spec(
            match node_bin_dir {
                Some(d) => Some(d@),
                None => None,
            },
            match install_dir {
                Some(b) => Some(b@),
                None => None,
            },
            match current_dir {
                Some(c) => Some(c@),
                None => None,
            },
        ),
{
    let mut out: Vec<Vec<String>> = Vec::new();
    assert(path_lists(out@) =~= Seq::<Seq<Seq<char>>>::empty());
    if let Some(d) = node_bin_dir {
        push_one_path(&mut out, d);
    }
    let ghost first = path_lists(out@);
    assert(first =~= (match node_bin_dir {
        Some(d) => seq![seq![d@]],
        None => Seq::<Seq<Seq<char>>>::empty(),
    }));
    if let Some(b) = install_dir {
        let rest = ["runtime", "node"];
        push_parts_path(&mut out, b, &rest);
        assert(rest@.map_values(|x: &str| x@) =~= seq!["runtime"@, "node"@]);
        assert(seq![b@] + seq!["runtime"@, "node"@] =~= seq![b@, "runtime"@, "node"@]);
        let rest2 = ["Resources", "runtime", "node"];
        push_parts_path(&mut out, b, &rest2);
        assert(rest2@.map_values(|x: &str| x@) =~= seq!["Resources"@, "runtime"@, "node"@]);
        assert(seq![b@] + seq!["Resources"@, "runtime"@, "node"@] =~= seq![
            b@,
            "Resources"@,
            "runtime"@,
            "node"@,
        ]);
    }
    let ghost second = path_lists(out@);
    assert(second =~= first + (match install_dir {
        Some(b) => seq![seq![b@, "runtime"@, "node"@], seq![b@, "Resources"@, "runtime"@, "node"@]],
        None => Seq::<Seq<Seq<char>>>::empty(),
    }));
    if let Some(c) = current_dir {
        let rest = ["runtime", "node"];
        push_parts_path(&mut out, c, &rest);
        assert(rest@.map_values(|x: &str| x@) =~= seq!["runtime"@, "node"@]);
        assert(seq![c@] + seq!["runtime"@, "node"@] =~= seq![c@, "runtime"@, "node"@]);
    }
    assert(path_lists(out@) =~= second + (match current_dir {
        Some(c) => seq![seq![c@, "runtime"@, "node"@]],
        None => Seq::<Seq<Seq<char>>>::empty(),
    }));
    assert(path_lists(out@) =~= runtime_roots_spec(
        match node_bin_dir {
            Some(d) => Some(d@),
            None => None,
        },
        match install_dir {
            Some(b) => Some(b@),
            None => None,
        },
        match current_dir {
            Some(c) => Some(c@),
            None => None,
        },
    ));
    out
}

/// The places where a program of the bundled runtime is looked for, as
/// path components: root by root, each entry candidate of the program
/// (see `runtime_entry_spec`) under the root.
pub open spec fn runtime_program_spec(roots: Seq<Seq<char>>, name: Seq<char>, windows: bool) -> Seq<
    Seq<Seq<char>>,
>
    decreases roots.len(),
{
    if roots.len() == 0 {
        Seq::empty()
    } else {
        runtime_program_spec(roots.drop_last(), name, windows) + runtime_entry_spec(
            name,
            windows,
        ).map_values(|e: Seq<Seq<char>>| seq![roots.last()] + e)
    }
}

/// The places where a program of the bundled runtime is looked for (see
/// `runtime_program_spec`); the first of them present as a file is the one
/// run (see `bundled_runtime_path`).
pub fn runtime_program_candidates(roots: &[String], name: &str, windows: bool) -> (r: Vec<
    Vec<String>,
>)
    ensures
        path_lists(r@) == runtime_program_spec(texts(roots@), name@, windows),
{
    let mut cmd = owned(name);
    cmd.append(".cmd");
    let mut out: Vec<Vec<String>> = Vec::new();
    let mut i: usize = 0;
    assert(path_lists(out@) =~= Seq::<Seq<Seq<char>>>::empty());
    assert(texts(roots@).take(0) =~= Seq::<Seq<char>>::empty());
    while i < roots.len()
        invariant
            i <= roots@.len(),
            cmd@ == name@ + ".cmd"@,
            path_lists(out@) == runtime_program_spec(texts(roots@).take(i as int), name@, windows),
        decreases roots.len() - i,
    {
        let ghost before = path_lists(out@);
        let root = roots[i].as_str();
        if windows {
            push_pair_path(&mut out, root, cmd.as_str());
            push_pair_path(&mut out, root, name);
        } else {
            push_bin_path(&mut out, root, name);
        }
        proof {
            let rs = texts(roots@);
            assert(rs.take(i + 1).drop_last() =~= rs.take(i as int));
            assert(rs.take(i + 1).last() == root@);
            assert(seq![root@] + seq![name@ + ".cmd"@] =~= seq![root@, name@ + ".cmd"@]);
            assert(seq![root@] + seq![name@] =~= seq![root@, name@]);
            assert(seq![root@] + seq!["bin"@, name@] =~= seq![root@, "bin"@, name@]);
            assert(path_lists(out@) =~= before + runtime_entry_spec(name@, windows).map_values(
                |e: Seq<Seq<char>>| seq![root@] + e,
            ));
        }
        i = i + 1;
    }
    assert(texts(roots@).take(i as int) =~= texts(roots@));
    out
}

/// The `PATH` given to the runtime's programs, as path components: each
/// runtime root, then, except on Windows, each root's `bin` directory, then
/// each directory of the existing `PATH`.
pub open spec fn search_path_spec(roots: Seq<Seq<char>>, path_dirs: Seq<Seq<char>>, windows: bool) -> Seq<
    Seq<Seq<char>>,
> {
    roots.map_values(|r: Seq<char>| seq![r]) + (if windows {
        Seq::empty()
    } else {
        roots.map_values(|r: Seq<char>| seq![r, "bin"@])
    }) + path_dirs.map_values(|d: Seq<char>| seq![d])
}

/// The `PATH` given to the runtime's programs (see `search_path_spec`).
pub fn runtime_search_path(roots: &[String], path_dirs: &[String], windows: bool) -> (r: Vec<
    Vec<String>,
>)
    ensures
        path_lists(r@) == search_path_spec(texts(roots@), texts(path_dirs@), windows),
{
    let ghost rs = texts(roots@);
    let ghost ds = texts(path_dirs@);
    let mut out: Vec<Vec<String>> = Vec::new();
    let mut i: usize = 0;
    assert(path_lists(out@) =~= rs.take(0).map_values(|r: Seq<char>| seq![r]));
    while i < roots.len()
        invariant
            i <= roots@.len(),
            rs == texts(roots@),
            path_lists(out@) == rs.take(i as int).map_values(|r: Seq<char>| seq![r]),
        decreases roots.len() - i,
    {
        push_one_path(&mut out, roots[i].as_str());
        assert(rs.take(i + 1).map_values(|r: Seq<char>| seq![r]) =~= rs.take(i as int).map_values(
            |r: Seq<char>| seq![r],
        ).push(seq![rs[i as int]]));
        i = i + 1;
    }
    assert(rs.take(i as int) =~= rs);
    let ghost head = path_lists(out@);
    if !windows {
        let mut k: usize = 0;
        assert(path_lists(out@) =~= head + rs.take(0).map_values(|r: Seq<char>| seq![r, "bin"@]));
        while k < roots.len()
            invariant
                k <= roots@.len(),
                rs == texts(roots@),
                path_lists(out@) == head + rs.take(k as int).map_values(
                    |r: Seq<char>| seq![r, "bin"@],
                ),
            decreases roots.len() - k,
        {
            push_pair_path(&mut out, roots[k].as_str(), "bin");
            assert(rs.take(k + 1).map_values(|r: Seq<char>| seq![r, "bin"@]) =~= rs.take(
                k as int,
            ).map_values(|r: Seq<char>| seq![r, "bin"@]).push(seq![rs[k as int], "bin"@]));
            k = k + 1;
        }
        assert(rs.take(k as int) =~= rs);
    }
    let ghost middle = path_lists(out@);
    let mut j: usize = 0;
    assert(path_lists(out@) =~= middle + ds.take(0).map_values(|d: Seq<char>| seq![d]));
    while j < path_dirs.len()
        invariant
            j <= path_dirs@.len(),
            ds == texts(path_dirs@),
            path_lists(out@) == middle + ds.take(j as int).map_values(|d: Seq<char>| seq![d]),
        decreases path_dirs.len() - j,
    {
        push_one_path(&mut out, path_dirs[j].as_str());
        assert(ds.take(j + 1).map_values(|d: Seq<char>| seq![d]) =~= ds.take(j as int).map_values(
            |d: Seq<char>| seq![d],
        ).push(seq![ds[j as int]]));
        j = j + 1;
    }
    assert(ds.take(j as int) =~= ds);
    assert(path_lists(out@) =~= search_path_spec(rs, ds, windows));
    out
}

/// Every place where pnpm is looked for, as path components, in order (see
/// `pnpm_candidates_spec`).
pub fn package_manager_candidates(roots: &[String], path_dirs: &[String], windows: bool) -> (r: Vec<
    Vec<String>,
>)
    ensures
        path_lists(r@) == pnpm_candidates_spec(texts(roots@), texts(path_dirs@), windows),
{
    let names = package_manager_names(windows);
    let ghost ns = texts(names@);
    assert(ns == pnpm_names(windows));
    let mut out: Vec<Vec<String>> = Vec::new();
    let mut i: usize = 0;
    assert(texts(roots@).take(0) =~= Seq::<Seq<char>>::empty());
    assert(path_lists(out@) =~= Seq::<Seq<Seq<char>>>::empty());
    while i < roots.len()
        invariant
            i <= roots@.len(),
            ns == texts(names@),
            ns == pnpm_names(windows),
            path_lists(out@) == roots_pnpm_candidates(texts(roots@).take(i as int), ns, windows),
        decreases roots.len() - i,
    {
        let ghost before = path_lists(out@);
        let root = roots[i].as_str();
        let mut k: usize = 0;
        while k < names.len()
            invariant
                k <= names@.len(),
                ns == texts(names@),
                root@ == roots@[i as int]@,
                path_lists(out@) == before + ns.take(k as int).map_values(
                    |n: Seq<char>| seq![root@, n],
                ),
            decreases names.len() - k,
        {
            push_pair_path(&mut out, root, names[k].as_str());
            assert(ns.take(k + 1).map_values(|n: Seq<char>| seq![root@, n]) =~= ns.take(
                k as int,
            ).map_values(|n: Seq<char>| seq![root@, n]).push(seq![root@, ns[k as int]]));
            k = k + 1;
        }
        assert(ns.take(k as int) =~= ns);
        let ghost middle = path_lists(out@);
        if !windows {
            let mut k: usize = 0;
            while k < names.len()
                invariant
                    k <= names@.len(),
                    ns == texts(names@),
                    root@ == roots@[i as int]@,
                    path_lists(out@) == middle + ns.take(k as int).map_values(
                        |n: Seq<char>| seq![root@, "bin"@, n],
                    ),
                decreases names.len() - k,
            {
                push_bin_path(&mut out, root, names[k].as_str());
                assert(ns.take(k + 1).map_values(|n: Seq<char>| seq![root@, "bin"@, n]) =~= ns.take(
                    k as int,
                ).map_values(|n: Seq<char>| seq![root@, "bin"@, n]).push(
                    seq![root@, "bin"@, ns[k as int]],
                ));
                k = k + 1;
            }
            assert(ns.take(k as int) =~= ns);
        }
        proof {
            let rs = texts(roots@);
            assert(rs.take(i + 1).drop_last() =~= rs.take(i as int));
            assert(rs.take(i + 1).last() == root@);
            if windows {
                assert(path_lists(out@) =~= before + root_pnpm_candidates(root@, ns, windows));
            } else {
                assert(path_lists(out@) =~= before + root_pnpm_candidates(root@, ns, windows));
            }
        }
        i = i + 1;
    }
    assert(texts(roots@).take(i as int) =~= texts(roots@));
    let ghost head = path_lists(out@);
    let mut j: usize = 0;
    assert(ns.take(0) =~= Seq::<Seq<char>>::empty());
    assert(head + path_pnpm_candidates(ns.take(0), texts(path_dirs@)) =~= head);
    while j < names.len()
        invariant
            j <= names@.len(),
            ns == texts(names@),
            path_lists(out@) == head + path_pnpm_candidates(ns.take(j as int), texts(path_dirs@)),
        decreases names.len() - j,
    {
        let ghost before = path_lists(out@);
        let name = names[j].as_str();
        let mut k: usize = 0;
        while k < path_dirs.len()
            invariant
                k <= path_dirs@.len(),
                name@ == ns[j as int],
                path_lists(out@) == before + texts(path_dirs@).take(k as int).map_values(
                    |d: Seq<char>| seq![d, name@],
                ),
            decreases path_dirs.len() - k,
        {
            push_pair_path(&mut out, path_dirs[k].as_str(), name);
            assert(texts(path_dirs@).take(k + 1).map_values(|d: Seq<char>| seq![d, name@])
                =~= texts(path_dirs@).take(k as int).map_values(|d: Seq<char>| seq![d, name@]).push(
                seq![path_dirs@[k as int]@, name@],
            ));
            k = k + 1;
        }
        proof {
            assert(texts(path_dirs@).take(k as int) =~= texts(path_dirs@));
            assert(ns.take(j + 1).drop_last() =~= ns.take(j as int));
            assert(ns.take(j + 1).last() == name@);
            assert(path_lists(out@) =~= head + path_pnpm_candidates(
                ns.take(j + 1),
                texts(path_dirs@),
            ));
        }
        j = j + 1;
    }
    assert(ns.take(j as int) =~= ns);
    out
}

/// pnpm: the first of its places (see `package_manager_candidates`) where it
/// is present as a file.
pub fn package_manager_path(probes: &[PathProbe]) -> (r: Option<String>)
    ensures
        match r {
            Some(p) => first_present(probes@) == Some(p@),
            None => first_present(probes@) is None,
        },
{
    first_present_path(probes)
}

/// Where the bundled web UI is looked for, as path components: under the
/// installation directory (the parent of the executable's directory), then
/// under its `Resources` directory, then under the working directory.
pub open spec fn frontend_candidates_spec(install_dir: Option<Seq<char>>, current_dir: Option<
    Seq<char>,
>) -> Seq<Seq<Seq<char>>> {
    (match install_dir {
        Some(b) => seq![
            seq![b, "frontend"@, "dsh-web-ui"@],
            seq![b, "Resources"@, "frontend"@, "dsh-web-ui"@],
        ],
        None => Seq::empty(),
    }) + (match current_dir {
        Some(c) => seq![seq![c, "frontend"@, "dsh-web-ui"@]],
        None => Seq::empty(),
    })
}

/// Where the bundled web UI is looked for, as path components.
pub fn frontend_dir_candidates(install_dir: Option<&str>, current_dir: Option<&str>) -> (r: Vec<
    Vec<String>,
>)
    ensures
        path_lists(r@) == frontend_candidates_spec(
            match install_dir {
                Some(b) => Some(b@),
                None => None,
            },
            match current_dir {
                Some(c) => Some(c@),
                None => None,
            },
        ),
{
    let mut out: Vec<Vec<String>> = Vec::new();
    let ghost empty = path_lists(out@);
    assert(empty =~= Seq::<Seq<Seq<char>>>::empty());
    if let Some(b) = install_dir {
        let mut a: Vec<String> = Vec::new();
        push_text(&mut a, b);
        push_text(&mut a, "frontend");
        push_text(&mut a, "dsh-web-ui");
        let mut r: Vec<String> = Vec::new();
        push_text(&mut r, b);
        push_text(&mut r, "Resources");
        push_text(&mut r, "frontend");
        push_text(&mut r, "dsh-web-ui");
        assert(texts(a@) =~= seq![b@, "frontend"@, "dsh-web-ui"@]);
        assert(texts(r@) =~= seq![b@, "Resources"@, "frontend"@, "dsh-web-ui"@]);
        out.push(a);
        out.push(r);
    }
    let ghost head = path_lists(out@);
    if let Some(c) = current_dir {
        let mut a: Vec<String> = Vec::new();
        push_text(&mut a, c);
        push_text(&mut a, "frontend");
        push_text(&mut a, "dsh-web-ui");
        assert(texts(a@) =~= seq![c@, "frontend"@, "dsh-web-ui"@]);
        out.push(a);
    }
    assert(path_lists(out@) =~= frontend_candidates_spec(
        match install_dir {
            Some(b) => Some(b@),
            None => None,
        },
        match current_dir {
            Some(c) => Some(c@),
            None => None,
        },
    ));
    out
}

/// The directory of the bundled web UI: the one named by
/// `DSH_DESKTOP_FRONTEND_DIR`, else the first of its candidates (see
/// `frontend_dir_candidates`) present as a directory, else
/// `frontend/dsh-web-ui`.
pub fn choose_frontend_dir(configured: Option<String>, candidates: &[PathProbe]) -> (r: String)
    ensures
        r@ == (match configured {
            Some(c) => c@,
            None => match first_present(candidates@) {
                Some(p) => p,
                None => "frontend/dsh-web-ui"@,
            },
        }),
{
    match configured {
        Some(c) => c,
        None => match first_present_path(candidates) {
            Some(p) => p,
            None => owned("frontend/dsh-web-ui"),
        },
    }
}

} // verus!
