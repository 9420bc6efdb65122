use vstd::prelude::*;
use crate::http::{http_response_is_success, status_line_ok, utf8_lossy};
use crate::text::owned;
use crate::runtime::{push_text, texts};
use crate::frontend::{first_present, first_present_path, PathProbe};

verus! {

broadcast use vstd::string::group_string_axioms;

/// How long the shell waits for the local service to answer, in
/// milliseconds.
pub const READINESS_TIMEOUT_MS: u64 = 120000;

/// How long the shell pauses between two probes of the local service, in
/// milliseconds.
pub const READINESS_RETRY_MS: u64 = 250;

/// What the shell does next while it waits for the local service.
#[derive(Debug, PartialEq, Eq, Clone, Copy, Structural)]
pub enum ReadinessAction {
    /// Probe the service now.
    Probe,
    /// Pause this many milliseconds, then look at the clock again.
    Pause(u64),
    /// The service answered with a successful status.
    Ready,
    /// The waiting time is over.
    TimedOut,
}

/// What the readiness wait does, given the time that has passed since it
/// began (`None` when the clock cannot tell) and, after a probe, what the
/// service sent back (`None` when no connection could be made).
pub open spec fn readiness_spec(elapsed_ms: Option<u64>, answer: Option<Seq<u8>>) -> ReadinessAction {
    match answer {
        Some(bytes) => if status_line_ok(utf8_lossy(bytes)) {
            ReadinessAction::Ready
        } else {
            ReadinessAction::Pause(READINESS_RETRY_MS)
        },
        None => match elapsed_ms {
            Some(e) => if e < READINESS_TIMEOUT_MS {
                ReadinessAction::Probe
            } else {
                ReadinessAction::TimedOut
            },
            None => ReadinessAction::TimedOut,
        },
    }
}

/// One step of the readiness wait. Before a probe (`answer` is `None`) the
/// clock decides: probe while less than `READINESS_TIMEOUT_MS` has passed,
/// else stop; a clock that cannot tell counts as the time being over. After
/// a probe the answer decides: a successful status ends the wait, anything
/// else pauses `READINESS_RETRY_MS` before the clock is read again.
pub fn readiness_step(elapsed_ms: Option<u64>, answer: Option<&[u8]>) -> (r: ReadinessAction)
    ensures
        r == readiness_spec(
            elapsed_ms,
            match answer {
                Some(b) => Some(b@),
                None => None,
            },
        ),
{
    match answer {
        Some(bytes) => if http_response_is_success(bytes) {
            ReadinessAction::Ready
        } else {
            ReadinessAction::Pause(READINESS_RETRY_MS)
        },
        None => match elapsed_ms {
            Some(e) => if e < READINESS_TIMEOUT_MS {
                ReadinessAction::Probe
            } else {
                ReadinessAction::TimedOut
            },
            None => ReadinessAction::TimedOut,
        },
    }
}

/// The message shown when the local service did not answer in time.
pub fn readiness_timeout_message() -> (r: String)
    ensures
        r@ == "DSH 服务启动超时。点击重试，或查看日志定位 Node.js / 网络问题"@,
{
    owned("DSH 服务启动超时。点击重试，或查看日志定位 Node.js / 网络问题")
}

/// The message given when the desktop window is gone before the worker
/// could report to it.
pub fn window_closed_message() -> (r: String)
    ensures
        r@ == "桌面窗口已关闭"@,
{
    owned("桌面窗口已关闭")
}

/// Where Corepack installs pnpm under the bundled runtime's root, as path
/// components: the root itself on Windows, its `bin` directory elsewhere.
pub fn corepack_install_dir_parts(root: &str, windows: bool) -> (r: Vec<String>)
    ensures
        texts(r@) == (if windows {
            seq![root@]
        } else {
            seq![root@, "bin"@]
        }),
{
    let mut parts: Vec<String> = Vec::new();
    push_text(&mut parts, root);
    if !windows {
        push_text(&mut parts, "bin");
    }
    parts
}

/// What enabling pnpm through Corepack came to: done when Corepack
/// succeeded and pnpm can then be found, else a failure that asks to check
/// the network or the registry.
pub fn corepack_outcome(corepack_succeeded: bool, pnpm_found: bool) -> (r: Result<(), String>)
    ensures
        match r {
            Ok(()) => corepack_succeeded && pnpm_found,
            Err(m) => !(corepack_succeeded && pnpm_found) && m@
                == "无法自动准备 pnpm。请检查网络或设置 DSH_NPM_REGISTRY 后重试"@,
        },
{
    if corepack_succeeded && pnpm_found {
        Ok(())
    } else {
        Err(owned("无法自动准备 pnpm。请检查网络或设置 DSH_NPM_REGISTRY 后重试"))
    }
}

/// What adding the bundled web UI packages with pnpm came to: done when
/// pnpm succeeded, else a failure that asks to check Node.js, pnpm or the
/// registry.
pub fn pnpm_add_outcome(pnpm_succeeded: bool) -> (r: Result<(), String>)
    ensures
        match r {
            Ok(()) => pnpm_succeeded,
            Err(m) => !pnpm_succeeded && m@ == "内置 Web UI 组件接入失败。请检查 Node.js、pnpm 或镜像配置"@,
        },
{
    if pnpm_succeeded {
        Ok(())
    } else {
        Err(owned("内置 Web UI 组件接入失败。请检查 Node.js、pnpm 或镜像配置"))
    }
}

/// The steps of starting the harness, in the order they run.
#[derive(Debug, PartialEq, Eq, Clone, Copy, Structural)]
pub enum StartStage {
    /// Check the API key and the model name.
    CheckInputs,
    /// Create the data directory.
    PrepareDataDir,
    /// Find how to run the harness.
    FindRunner,
    /// Read which npm registry to use.
    ChooseRegistry,
    /// Check whether the bundled web UI is installed in the profile.
    CheckFrontend,
    /// Install the bundled web UI into the profile.
    InstallFrontend,
    /// Record where the installed web UI came from.
    RecordFrontend,
    /// Normalize the profile manifest.
    NormalizeProfile,
    /// Choose the port of the local service.
    ChoosePort,
    /// Start the harness.
    Launch,
    /// Wait for the local service to answer.
    AwaitReady,
}

/// What the worker does next: run a step, or finish with an outcome.
#[derive(Debug, PartialEq, Eq)]
pub enum StartAction {
    Run(StartStage),
    Finish(Result<(), String>),
}

/// The position of a step in the start sequence.
pub open spec fn stage_rank(s: StartStage) -> nat {
    match s {
        StartStage::CheckInputs => 0,
        StartStage::PrepareDataDir => 1,
        StartStage::FindRunner => 2,
        StartStage::ChooseRegistry => 3,
        StartStage::CheckFrontend => 4,
        StartStage::InstallFrontend => 5,
        StartStage::RecordFrontend => 6,
        StartStage::NormalizeProfile => 7,
        StartStage::ChoosePort => 8,
        StartStage::Launch => 9,
        StartStage::AwaitReady => 10,
    }
}

/// The step after one that succeeded; `installed` is what the frontend
/// check found and matters after that check only: an installed web UI
/// skips its installation. After the wait for the service there is none.
pub open spec fn stage_after(s: StartStage, installed: bool) -> Option<StartStage> {
    match s {
        StartStage::CheckInputs => Some(StartStage::PrepareDataDir),
        StartStage::PrepareDataDir => Some(StartStage::FindRunner),
        StartStage::FindRunner => Some(StartStage::ChooseRegistry),
        StartStage::ChooseRegistry => Some(StartStage::CheckFrontend),
        StartStage::CheckFrontend => Some(
            if installed {
                StartStage::NormalizeProfile
            } else {
                StartStage::InstallFrontend
            },
        ),
        StartStage::InstallFrontend => Some(StartStage::RecordFrontend),
        StartStage::RecordFrontend => Some(StartStage::NormalizeProfile),
        StartStage::NormalizeProfile => Some(StartStage::ChoosePort),
        StartStage::ChoosePort => Some(StartStage::Launch),
        StartStage::Launch => Some(StartStage::AwaitReady),
        StartStage::AwaitReady => None,
    }
}

/// The first step of starting the harness.
pub fn first_start_stage() -> (r: StartStage)
    ensures
        r == StartStage::CheckInputs,
{
    StartStage::CheckInputs
}

/// Decides what follows a step from its outcome: a failure ends the start
/// with the step's message; a success runs the next step (see
/// `stage_after`), or ends the start successfully after the wait for the
/// service. `Ok(installed)` carries what the frontend check found; other
/// steps report `Ok(false)`.
pub fn start_next(stage: StartStage, outcome: Result<bool, String>) -> (r: StartAction)
    ensures
        match outcome {
            Err(m) => r matches StartAction::Finish(Err(x)) && x@ == m@,
            Ok(installed) => match stage_after(stage, installed) {
                Some(t) => r == StartAction::Run(t),
                None => r == StartAction::Finish(Ok(())),
            },
        },
{
    let installed = match outcome {
        Err(m) => return StartAction::Finish(Err(m)),
        Ok(b) => b,
    };
    let next = match stage {
        StartStage::CheckInputs => StartStage::PrepareDataDir,
        StartStage::PrepareDataDir => StartStage::FindRunner,
        StartStage::FindRunner => StartStage::ChooseRegistry,
        StartStage::ChooseRegistry => StartStage::CheckFrontend,
        StartStage::CheckFrontend => if installed {
            StartStage::NormalizeProfile
        } else {
            StartStage::InstallFrontend
        },
        StartStage::InstallFrontend => StartStage::RecordFrontend,
        StartStage::RecordFrontend => StartStage::NormalizeProfile,
        StartStage::NormalizeProfile => StartStage::ChoosePort,
        StartStage::ChoosePort => StartStage::Launch,
        StartStage::Launch => StartStage::AwaitReady,
        StartStage::AwaitReady => return StartAction::Finish(Ok(())),
    };
    StartAction::Run(next)
}

/// The start sequence only moves forward: the step after a successful one
/// comes later in the sequence, so no step runs twice and the start ends
/// after at most as many steps as there are.
pub proof fn law_start_moves_forward(s: StartStage, installed: bool)
    ensures
        stage_after(s, installed) matches Some(t) ==> stage_rank(t) > stage_rank(s),
        stage_rank(s) <= 10,
{
}

/// How Corepack is run to prepare pnpm: the Corepack program, and the
/// directory it installs pnpm into, as path components.
#[derive(Debug, PartialEq, Eq)]
pub struct CorepackPlan {
    pub program: String,
    pub install_dir: Vec<String>,
}

/// Decides how pnpm is prepared. When pnpm is already found there is
/// nothing to do (`Ok(None)`). Else the bundled Corepack is needed, then a
/// runtime root present as a directory (the first of `root_dirs`): Corepack
/// installs pnpm there (see `corepack_install_dir_parts`). Without Corepack,
/// or without such a root, preparation fails with its message.
pub fn pnpm_preparation(
    pnpm_found: bool,
    corepack: Option<String>,
    root_dirs: &[PathProbe],
    windows: bool,
) -> (r: Result<Option<CorepackPlan>, String>)
    ensures
        pnpm_found ==> r == Ok::<Option<CorepackPlan>, String>(None),
        !pnpm_found && corepack is None ==> (r matches Err(m) && m@
            == "内置 Node.js 未包含 Corepack，无法自动准备 pnpm"@),
        !pnpm_found && corepack is Some && first_present(root_dirs@) is None ==> (r matches Err(m)
            && m@ == "无法定位内置 Node.js 目录"@),
        !pnpm_found && corepack is Some && first_present(root_dirs@) is Some ==> (r matches Ok(
            Some(plan),
        ) && plan.program@ == corepack->0@ && texts(plan.install_dir@) == (if windows {
            seq![first_present(root_dirs@)->0]
        } else {
            seq![first_present(root_dirs@)->0, "bin"@]
        })),
{
    if pnpm_found {
        return Ok(None);
    }
    let program = match corepack {
        Some(c) => c,
        None => return Err(owned("内置 Node.js 未包含 Corepack，无法自动准备 pnpm")),
    };
    let root = match first_present_path(root_dirs) {
        Some(root) => root,
        None => return Err(owned("无法定位内置 Node.js 目录")),
    };
    let install_dir = corepack_install_dir_parts(root.as_str(), windows);
    Ok(Some(CorepackPlan { program, install_dir }))
}

/// The steps of approving the build scripts of the profile's packages.
#[derive(Debug, PartialEq, Eq, Clone, Copy, Structural)]
pub enum ApproveStage {
    /// Find the profile directory.
    FindProfileDir,
    /// Create the profile directory.
    CreateProfileDir,
    /// Find pnpm for the approval.
    FindPnpm,
    /// Run `pnpm approve-builds`.
    Approve,
    /// Find pnpm for the rebuild.
    FindPnpmAgain,
    /// Run `pnpm rebuild`.
    Rebuild,
}

/// What the approval does next: run a step, or finish, telling whether the
/// build scripts were approved.
#[derive(Debug, PartialEq, Eq, Clone, Copy, Structural)]
pub enum ApproveAction {
    Run(ApproveStage),
    Finish(bool),
}

/// What follows a step of the approval, given whether it succeeded: any
/// failure up to and including the approval finishes with `false`; after
/// a successful approval the rebuild is run when pnpm is found again, and
/// the approval finishes with `true` whatever becomes of the rebuild.
pub open spec fn approve_after(stage: ApproveStage, ok: bool) -> ApproveAction {
    match stage {
        ApproveStage::FindProfileDir => if ok {
            ApproveAction::Run(ApproveStage::CreateProfileDir)
        } else {
            ApproveAction::Finish(false)
        },
        ApproveStage::CreateProfileDir => if ok {
            ApproveAction::Run(ApproveStage::FindPnpm)
        } else {
            ApproveAction::Finish(false)
        },
        ApproveStage::FindPnpm => if ok {
            ApproveAction::Run(ApproveStage::Approve)
        } else {
            ApproveAction::Finish(false)
        },
        ApproveStage::Approve => if ok {
            ApproveAction::Run(ApproveStage::FindPnpmAgain)
        } else {
            ApproveAction::Finish(false)
        },
        ApproveStage::FindPnpmAgain => if ok {
            ApproveAction::Run(ApproveStage::Rebuild)
        } else {
            ApproveAction::Finish(true)
        },
        ApproveStage::Rebuild => ApproveAction::Finish(true),
    }
}

/// The first step of the approval.
pub fn first_approve_stage() -> (r: ApproveStage)
    ensures
        r == ApproveStage::FindProfileDir,
{
    ApproveStage::FindProfileDir
}

/// Decides what follows a step of the approval (see `approve_after`).
pub fn approve_next(stage: ApproveStage, ok: bool) -> (r: ApproveAction)
    ensures
        r == approve_after(stage, ok),
{
    match stage {
        ApproveStage::FindProfileDir => if ok {
            ApproveAction::Run(ApproveStage::CreateProfileDir)
        } else {
            ApproveAction::Finish(false)
        },
        ApproveStage::CreateProfileDir => if ok {
            ApproveAction::Run(ApproveStage::FindPnpm)
        } else {
            ApproveAction::Finish(false)
        },
        ApproveStage::FindPnpm => if ok {
            ApproveAction::Run(ApproveStage::Approve)
        } else {
            ApproveAction::Finish(false)
        },
        ApproveStage::Approve => if ok {
            ApproveAction::Run(ApproveStage::FindPnpmAgain)
        } else {
            ApproveAction::Finish(false)
        },
        ApproveStage::FindPnpmAgain => if ok {
            ApproveAction::Run(ApproveStage::Rebuild)
        } else {
            ApproveAction::Finish(true)
        },
        ApproveStage::Rebuild => ApproveAction::Finish(true),
    }
}

/// The position of a step in the approval.
pub open spec fn approve_rank(s: ApproveStage) -> nat {
    match s {
        ApproveStage::FindProfileDir => 0,
        ApproveStage::CreateProfileDir => 1,
        ApproveStage::FindPnpm => 2,
        ApproveStage::Approve => 3,
        ApproveStage::FindPnpmAgain => 4,
        ApproveStage::Rebuild => 5,
    }
}

/// The approval only moves forward, and it reports success exactly when
/// `pnpm approve-builds` succeeded: it finishes with `true` only from the
/// steps after the approval, and always does so from them.
pub proof fn law_approval_reports_the_approval(s: ApproveStage, ok: bool)
    ensures
        approve_after(s, ok) matches ApproveAction::Run(t) ==> approve_rank(t) > approve_rank(s),
        approve_after(s, ok) == ApproveAction::Finish(true) ==> approve_rank(s) >= 4,
        approve_rank(s) >= 4 ==> (approve_after(s, ok) matches ApproveAction::Run(_)
            || approve_after(s, ok) == ApproveAction::Finish(true)),
{
}

} // verus!
