use vstd::prelude::*;
use crate::ipc::opt_text;
use crate::script::{json_string_literal, runtime_error_script, runtime_error_script_text, status_script,
    status_script_text};
use crate::text::{owned, trim_text, trimmed};
use crate::validation::{api_key_ok, key_verdict, model_ok, model_verdict,
    validate_api_key, validate_model};

verus! {

broadcast use vstd::string::group_string_axioms;

/// What the shell knows of its own run: whether a runtime was started,
/// whether the pet is hidden, the workbench address once the service
/// answered, whether a service process is held, and the credentials that
/// the shell is storing before it starts the runtime.
#[derive(Debug, PartialEq, Eq)]
pub struct Session {
    pub started: bool,
    pub pet_hidden: bool,
    pub current_url: Option<String>,
    pub has_child: bool,
    pub pending: Option<Credentials>,
}

/// An API key with the model it runs with.
#[derive(Debug, PartialEq, Eq)]
pub struct Credentials {
    pub key: String,
    pub model: String,
}

/// What happens to the shell: requests from the page and the window, and
/// the outcomes of the work the shell performed for an earlier action.
#[derive(Debug, PartialEq, Eq)]
pub enum SessionEvent {
    /// The window and its web view were created; the stored key and model
    /// are what the keychain (or environment) and the settings hold.
    Launch { stored_key: Option<String>, stored_model: String },
    /// The user submitted a key and a model (empty: keep the stored one).
    SaveApiKey { key: String, model: String, stored_model: String },
    /// The credentials of the last `StoreCredentials` action were stored.
    CredentialsStored,
    /// Storing the key failed with this message.
    KeyStoreFailed(String),
    /// Storing the model failed with this message.
    ModelStoreFailed(String),
    ResetApiKey,
    RetryRuntime { stored_key: Option<String>, stored_model: String },
    SetPetVisibility(bool),
    WindowMinimize,
    WindowMaximize,
    /// The user closed the window (by its button or by the system).
    WindowClose,
    WindowDrag,
    /// The runtime worker spawned the service process.
    ProcessStarted,
    /// The service answered at this address.
    ServiceReady(String),
    /// The web view could not load the workbench.
    PageLoadFailed(String),
    /// The runtime worker gave up with this message.
    StartupFailed(String),
    /// The service process exited, with this status.
    ServiceExited(String),
}

/// Work that the shell performs for the session, in order.
#[derive(Debug, PartialEq, Eq)]
pub enum Action {
    /// Evaluate a script in the web view, if there is one.
    RunScript(String),
    /// Terminate the service process tree, kill the process and reap it.
    StopChild,
    /// Terminate the process tree of the service process that exited and
    /// let go of it.
    ReleaseChild,
    /// Store the key in the keychain, then the model in the settings, and
    /// report `CredentialsStored`, `KeyStoreFailed` or `ModelStoreFailed`.
    StoreCredentials { key: String, model: String },
    DeleteStoredKey,
    /// Load the start page in the web view, if there is one.
    ShowStartPage,
    /// Start the runtime worker with this key and model.
    SpawnRuntime { key: String, model: String },
    StorePetHidden(bool),
    Minimize,
    ToggleMaximize,
    Drag,
    Exit,
    /// Load this address in the web view, if there is one.
    LoadUrl(String),
}

/// The session taken as plain values.
pub struct SessionView {
    pub started: bool,
    pub pet_hidden: bool,
    pub current_url: Option<Seq<char>>,
    pub has_child: bool,
    pub pending: Option<(Seq<char>, Seq<char>)>,
}

/// An action taken as plain values.
pub enum ActionView {
    RunScript(Seq<char>),
    StopChild,
    ReleaseChild,
    StoreCredentials(Seq<char>, Seq<char>),
    DeleteStoredKey,
    ShowStartPage,
    SpawnRuntime(Seq<char>, Seq<char>),
    StorePetHidden(bool),
    Minimize,
    ToggleMaximize,
    Drag,
    Exit,
    LoadUrl(Seq<char>),
}

/// An event taken as plain values.
pub enum EventView {
    Launch(Option<Seq<char>>, Seq<char>),
    SaveApiKey(Seq<char>, Seq<char>, Seq<char>),
    CredentialsStored,
    KeyStoreFailed(Seq<char>),
    ModelStoreFailed(Seq<char>),
    ResetApiKey,
    RetryRuntime(Option<Seq<char>>, Seq<char>),
    SetPetVisibility(bool),
    WindowMinimize,
    WindowMaximize,
    WindowClose,
    WindowDrag,
    ProcessStarted,
    ServiceReady(Seq<char>),
    PageLoadFailed(Seq<char>),
    StartupFailed(Seq<char>),
    ServiceExited(Seq<char>),
}

impl View for Session {
    type V = SessionView;

    open spec fn view(&self) -> SessionView {
        SessionView {
            started: self.started,
            pet_hidden: self.pet_hidden,
            current_url: opt_text(self.current_url),
            has_child: self.has_child,
            pending: match self.pending {
                Some(c) => Some((c.key@, c.model@)),
                None => None,
            },
        }
    }
}

impl View for Action {
    type V = ActionView;

    open spec fn view(&self) -> ActionView {
        match self {
            Action::RunScript(s) => ActionView::RunScript(s@),
            Action::StopChild => ActionView::StopChild,
            Action::ReleaseChild => ActionView::ReleaseChild,
            Action::StoreCredentials { key, model } => ActionView::StoreCredentials(key@, model@),
            Action::DeleteStoredKey => ActionView::DeleteStoredKey,
            Action::ShowStartPage => ActionView::ShowStartPage,
            Action::SpawnRuntime { key, model } => ActionView::SpawnRuntime(key@, model@),
            Action::StorePetHidden(h) => ActionView::StorePetHidden(*h),
            Action::Minimize => ActionView::Minimize,
            Action::ToggleMaximize => ActionView::ToggleMaximize,
            Action::Drag => ActionView::Drag,
            Action::Exit => ActionView::Exit,
            Action::LoadUrl(u) => ActionView::LoadUrl(u@),
        }
    }
}

impl View for SessionEvent {
    type V = EventView;

    open spec fn view(&self) -> EventView {
        match self {
            SessionEvent::Launch { stored_key, stored_model } => EventView::Launch(
                opt_text(*stored_key),
                stored_model@,
            ),
            SessionEvent::SaveApiKey { key, model, stored_model } => EventView::SaveApiKey(
                key@,
                model@,
                stored_model@,
            ),
            SessionEvent::CredentialsStored => EventView::CredentialsStored,
            SessionEvent::KeyStoreFailed(e) => EventView::KeyStoreFailed(e@),
            SessionEvent::ModelStoreFailed(e) => EventView::ModelStoreFailed(e@),
            SessionEvent::ResetApiKey => EventView::ResetApiKey,
            SessionEvent::RetryRuntime { stored_key, stored_model } => EventView::RetryRuntime(
                opt_text(*stored_key),
                stored_model@,
            ),
            SessionEvent::SetPetVisibility(h) => EventView::SetPetVisibility(*h),
            SessionEvent::WindowMinimize => EventView::WindowMinimize,
            SessionEvent::WindowMaximize => EventView::WindowMaximize,
            SessionEvent::WindowClose => EventView::WindowClose,
            SessionEvent::WindowDrag => EventView::WindowDrag,
            SessionEvent::ProcessStarted => EventView::ProcessStarted,
            SessionEvent::ServiceReady(u) => EventView::ServiceReady(u@),
            SessionEvent::PageLoadFailed(e) => EventView::PageLoadFailed(e@),
            SessionEvent::StartupFailed(e) => EventView::StartupFailed(e@),
            SessionEvent::ServiceExited(s) => EventView::ServiceExited(s@),
        }
    }
}

/// The views of a list of actions.
pub open spec fn action_views(v: Seq<Action>) -> Seq<ActionView> {
    v.map_values(|a: Action| a@)
}

// ---------------------------------------------------------------------------
// The transition function
// ---------------------------------------------------------------------------

/// The script that shows a status, its texts quoted as the page expects.
pub open spec fn status_of(title: Seq<char>, detail: Seq<char>) -> Seq<char> {
    status_script_text(json_string_literal(title), json_string_literal(detail))
}

/// The script that raises the error panel with a message.
pub open spec fn error_panel_of(message: Seq<char>) -> Seq<char> {
    runtime_error_script_text(json_string_literal(message))
}

/// A failure: the service process is stopped, the runtime counts as not
/// started, the workbench address is forgotten, and the page shows the
/// message twice: as the status and in the error panel.
pub open spec fn fail_step(s: SessionView, message: Seq<char>) -> (SessionView, Seq<ActionView>) {
    (
        SessionView { started: false, current_url: None, has_child: false, ..s },
        (if s.has_child {
            seq![ActionView::StopChild]
        } else {
            Seq::empty()
        }) + seq![
            ActionView::RunScript(status_of("启动失败"@, message)),
            ActionView::RunScript(error_panel_of(message)),
        ],
    )
}

/// Starting the runtime: nothing while one is started; otherwise the
/// session counts it as started, shows that it prepares, and spawns it.
pub open spec fn start_step(s: SessionView, key: Seq<char>, model: Seq<char>) -> (
    SessionView,
    Seq<ActionView>,
) {
    if s.started {
        (s, Seq::empty())
    } else {
        (
            SessionView { started: true, ..s },
            seq![
                ActionView::RunScript(status_of("正在准备 DeepSeek 环境…"@, "正在加载本机前端与官方 Harness"@)),
                ActionView::SpawnRuntime(key, model),
            ],
        )
    }
}

/// The model a submission runs with: the submitted one, trimmed, or the
/// stored one when the submission is blank.
pub open spec fn submitted_model(model: Seq<char>, stored_model: Seq<char>) -> Seq<char> {
    if trimmed(model).len() == 0 {
        stored_model
    } else {
        trimmed(model)
    }
}

/// What the session does on each event: its next state and the actions the
/// shell performs, in order.
pub open spec fn step(s: SessionView, e: EventView) -> (SessionView, Seq<ActionView>) {
    match e {
        EventView::Launch(stored_key, stored_model) => match stored_key {
            Some(k) => if api_key_ok(k) {
                start_step(s, k, stored_model)
            } else {
                (s, Seq::empty())
            },
            None => (s, Seq::empty()),
        },
        EventView::SaveApiKey(raw_key, raw_model, stored_model) => {
            let k = trimmed(raw_key);
            let m = submitted_model(raw_model, stored_model);
            match key_verdict(k) {
                Err(message) => fail_step(s, message),
                Ok(_) => match model_verdict(m) {
                    Err(message) => fail_step(s, message),
                    Ok(_) => (
                        SessionView { pending: Some((k, m)), ..s },
                        seq![ActionView::StoreCredentials(k, m)],
                    ),
                },
            }
        },
        EventView::CredentialsStored => match s.pending {
            Some((k, m)) => start_step(SessionView { pending: None, ..s }, k, m),
            None => (s, Seq::empty()),
        },
        EventView::KeyStoreFailed(e) => fail_step(
            SessionView { pending: None, ..s },
            "无法保存 API Key："@ + e,
        ),
        EventView::ModelStoreFailed(e) => fail_step(
            SessionView { pending: None, ..s },
            "无法保存模型选择："@ + e,
        ),
        EventView::ResetApiKey => (
            SessionView { started: false, current_url: None, has_child: false, ..s },
            seq![ActionView::DeleteStoredKey] + (if s.has_child {
                seq![ActionView::StopChild]
            } else {
                Seq::empty()
            }) + seq![ActionView::ShowStartPage],
        ),
        EventView::RetryRuntime(stored_key, stored_model) => if s.started {
            (s, Seq::empty())
        } else {
            match stored_key {
                Some(k) => if api_key_ok(k) {
                    start_step(s, k, stored_model)
                } else {
                    (s, seq![ActionView::ShowStartPage])
                },
                None => (s, seq![ActionView::ShowStartPage]),
            }
        },
        EventView::SetPetVisibility(h) => (
            SessionView { pet_hidden: h, ..s },
            seq![ActionView::StorePetHidden(h)],
        ),
        EventView::WindowMinimize => (s, seq![ActionView::Minimize]),
        EventView::WindowMaximize => (s, seq![ActionView::ToggleMaximize]),
        EventView::WindowClose => (
            SessionView { has_child: false, ..s },
            (if s.has_child {
                seq![ActionView::StopChild]
            } else {
                Seq::empty()
            }) + seq![ActionView::Exit],
        ),
        EventView::WindowDrag => (s, seq![ActionView::Drag]),
        EventView::ProcessStarted => (
            SessionView { has_child: true, ..s },
            seq![ActionView::RunScript(status_of("正在启动 DSH"@, "首次启动会准备依赖，可能需要几分钟"@))],
        ),
        EventView::ServiceReady(url) => (
            SessionView { current_url: Some(url), ..s },
            seq![
                ActionView::RunScript(status_of("已连接 DeepSeek"@, "正在载入工作台"@)),
                ActionView::LoadUrl(url),
            ],
        ),
        EventView::PageLoadFailed(e) => fail_step(s, "载入工作台失败："@ + e),
        EventView::StartupFailed(e) => fail_step(s, e),
        EventView::ServiceExited(status) => {
            let (s2, acts) = fail_step(
                SessionView { has_child: false, ..s },
                "DSH 服务已退出（状态码："@ + status + "）"@,
            );
            (s2, seq![ActionView::ReleaseChild] + acts)
        },
    }
}

// ---------------------------------------------------------------------------
// The session
// ---------------------------------------------------------------------------

fn join(prefix: &str, text: &str) -> (r: String)
    ensures
        r@ == prefix@ + text@,
{
    let mut r = owned(prefix);
    r.append(text);
    r
}

impl Session {
    /// A session before the window exists: nothing started, the pet hidden
    /// as the settings say.
    pub fn new(pet_hidden: bool) -> (r: Session)
        ensures
            session_ok(r@),
            r@ == (SessionView {
                started: false,
                pet_hidden,
                current_url: None,
                has_child: false,
                pending: None,
            }),
    {
        Session { started: false, pet_hidden, current_url: None, has_child: false, pending: None }
    }

    fn fail(&mut self, message: &str) -> (r: Vec<Action>)
        ensures
            (final(self)@, action_views(r@)) == fail_step(old(self)@, message@),
    {
        let mut acts: Vec<Action> = Vec::new();
        let had_child = self.has_child;
        if self.has_child {
            acts.push(Action::StopChild);
            self.has_child = false;
        }
        self.started = false;
        self.current_url = None;
        acts.push(Action::RunScript(status_script("启动失败", message)));
        acts.push(Action::RunScript(runtime_error_script(message)));
        proof {
            let tail = seq![
                ActionView::RunScript(status_of("启动失败"@, message@)),
                ActionView::RunScript(error_panel_of(message@)),
            ];
            if had_child {
                assert(action_views(acts@) =~= seq![ActionView::StopChild] + tail);
            } else {
                assert(action_views(acts@) =~= Seq::<ActionView>::empty() + tail);
            }
        }
        acts
    }

    fn start(&mut self, key: String, model: String) -> (r: Vec<Action>)
        ensures
            (final(self)@, action_views(r@)) == start_step(old(self)@, key@, model@),
    {
        let mut acts: Vec<Action> = Vec::new();
        if self.started {
            assert(action_views(acts@) =~= Seq::<ActionView>::empty());
            return acts;
        }
        self.started = true;
        acts.push(
            Action::RunScript(status_script("正在准备 DeepSeek 环境…", "正在加载本机前端与官方 Harness")),
        );
        acts.push(Action::SpawnRuntime { key, model });
        proof {
            assert(action_views(acts@) =~= seq![
                ActionView::RunScript(status_of("正在准备 DeepSeek 环境…"@, "正在加载本机前端与官方 Harness"@)),
                ActionView::SpawnRuntime(key@, model@),
            ]);
        }
        acts
    }

    fn stop_child_into(&mut self, acts: &mut Vec<Action>)
        ensures
            final(self)@ == (SessionView { has_child: false, ..old(self)@ }),
            action_views(final(acts)@) == action_views(old(acts)@) + (if old(self).has_child {
                seq![ActionView::StopChild]
            } else {
                Seq::empty()
            }),
    {
        if self.has_child {
            acts.push(Action::StopChild);
            self.has_child = false;
            assert(action_views(acts@) =~= action_views(old(acts)@) + seq![ActionView::StopChild]);
        } else {
            assert(action_views(acts@) =~= action_views(old(acts)@) + Seq::<ActionView>::empty());
        }
    }

    /// Decides what the shell does on an event: updates the session and
    /// returns the actions to perform, in order.
    pub fn handle(&mut self, event: SessionEvent) -> (r: Vec<Action>)
        ensures
            (final(self)@, action_views(r@)) == step(old(self)@, event@),
            session_ok(old(self)@) ==> session_ok(final(self)@) && spawned_keys_ok(
                action_views(r@),
            ) && stored_credentials_ok(action_views(r@)),
            old(self).started ==> !spawns(action_views(r@)),
    {
        proof {
            if session_ok(self@) {
                law_pending_credentials_checked(self@, event@);
                law_only_checked_keys_leave(self@, event@);
            }
            law_one_runtime_at_a_time(self@, event@);
        }
        match event {
            SessionEvent::Launch { stored_key, stored_model } => match stored_key {
                Some(k) => if validate_api_key(k.as_str()).is_ok() {
                    self.start(k, stored_model)
                } else {
                    let acts: Vec<Action> = Vec::new();
                    assert(action_views(acts@) =~= Seq::<ActionView>::empty());
                    acts
                },
                None => {
                    let acts: Vec<Action> = Vec::new();
                    assert(action_views(acts@) =~= Seq::<ActionView>::empty());
                    acts
                },
            },
            SessionEvent::SaveApiKey { key, model, stored_model } => {
                let k = owned(trim_text(key.as_str()));
                match validate_api_key(k.as_str()) {
                    Err(message) => {
                        return self.fail(message.as_str());
                    },
                    Ok(_) => {},
                }
                let t = trim_text(model.as_str());
                let m = if t.is_empty() {
                    stored_model
                } else {
                    owned(t)
                };
                assert(m@ == submitted_model(model@, stored_model@));
                match validate_model(m.as_str()) {
                    Err(message) => {
                        return self.fail(message.as_str());
                    },
                    Ok(_) => {},
                }
                let ghost kv = k@;
                let ghost mv = m@;
                let mut acts: Vec<Action> = Vec::new();
                acts.push(Action::StoreCredentials { key: k.clone(), model: m.clone() });
                self.pending = Some(Credentials { key: k, model: m });
                assert(action_views(acts@) =~= seq![ActionView::StoreCredentials(kv, mv)]);
                acts
            },
            SessionEvent::CredentialsStored => {
                match self.pending.take() {
                    Some(c) => self.start(c.key, c.model),
                    None => {
                        let acts: Vec<Action> = Vec::new();
                        assert(action_views(acts@) =~= Seq::<ActionView>::empty());
                        acts
                    },
                }
            },
            SessionEvent::KeyStoreFailed(e) => {
                self.pending = None;
                let message = join("无法保存 API Key：", e.as_str());
                self.fail(message.as_str())
            },
            SessionEvent::ModelStoreFailed(e) => {
                self.pending = None;
                let message = join("无法保存模型选择：", e.as_str());
                self.fail(message.as_str())
            },
            SessionEvent::ResetApiKey => {
                let mut acts: Vec<Action> = Vec::new();
                acts.push(Action::DeleteStoredKey);
                assert(action_views(acts@) =~= seq![ActionView::DeleteStoredKey]);
                self.stop_child_into(&mut acts);
                let ghost middle = acts@;
                self.started = false;
                self.current_url = None;
                acts.push(Action::ShowStartPage);
                assert(acts@ =~= middle.push(Action::ShowStartPage));
                assert(action_views(acts@) =~= action_views(middle) + seq![ActionView::ShowStartPage]);
                proof {
                    let mid = if old(self).has_child {
                        seq![ActionView::StopChild]
                    } else {
                        Seq::<ActionView>::empty()
                    };
                    assert(action_views(acts@) =~= seq![ActionView::DeleteStoredKey] + mid + seq![
                        ActionView::ShowStartPage,
                    ]);
                }
                acts
            },
            SessionEvent::RetryRuntime { stored_key, stored_model } => {
                if self.started {
                    let acts: Vec<Action> = Vec::new();
                    assert(action_views(acts@) =~= Seq::<ActionView>::empty());
                    return acts;
                }
                match stored_key {
                    Some(k) => if validate_api_key(k.as_str()).is_ok() {
                        return self.start(k, stored_model);
                    },
                    None => {},
                }
                let mut acts: Vec<Action> = Vec::new();
                acts.push(Action::ShowStartPage);
                assert(action_views(acts@) =~= seq![ActionView::ShowStartPage]);
                acts
            },
            SessionEvent::SetPetVisibility(h) => {
                self.pet_hidden = h;
                let mut acts: Vec<Action> = Vec::new();
                acts.push(Action::StorePetHidden(h));
                assert(action_views(acts@) =~= seq![ActionView::StorePetHidden(h)]);
                acts
            },
            SessionEvent::WindowMinimize => {
                let mut acts: Vec<Action> = Vec::new();
                acts.push(Action::Minimize);
                assert(action_views(acts@) =~= seq![ActionView::Minimize]);
                acts
            },
            SessionEvent::WindowMaximize => {
                let mut acts: Vec<Action> = Vec::new();
                acts.push(Action::ToggleMaximize);
                assert(action_views(acts@) =~= seq![ActionView::ToggleMaximize]);
                acts
            },
            SessionEvent::WindowClose => {
                let mut acts: Vec<Action> = Vec::new();
                self.stop_child_into(&mut acts);
                acts.push(Action::Exit);
                proof {
                    let mid = if old(self).has_child {
                        seq![ActionView::StopChild]
                    } else {
                        Seq::<ActionView>::empty()
                    };
                    assert(action_views(acts@) =~= mid + seq![ActionView::Exit]);
                }
                acts
            },
            SessionEvent::WindowDrag => {
                let mut acts: Vec<Action> = Vec::new();
                acts.push(Action::Drag);
                assert(action_views(acts@) =~= seq![ActionView::Drag]);
                acts
            },
            SessionEvent::ProcessStarted => {
                self.has_child = true;
                let mut acts: Vec<Action> = Vec::new();
                acts.push(Action::RunScript(status_script("正在启动 DSH", "首次启动会准备依赖，可能需要几分钟")));
                assert(action_views(acts@) =~= seq![
                    ActionView::RunScript(status_of("正在启动 DSH"@, "首次启动会准备依赖，可能需要几分钟"@)),
                ]);
                acts
            },
            SessionEvent::ServiceReady(url) => {
                let ghost u = url@;
                self.current_url = Some(url.clone());
                let mut acts: Vec<Action> = Vec::new();
                acts.push(Action::RunScript(status_script("已连接 DeepSeek", "正在载入工作台")));
                acts.push(Action::LoadUrl(url));
                assert(action_views(acts@) =~= seq![
                    ActionView::RunScript(status_of("已连接 DeepSeek"@, "正在载入工作台"@)),
                    ActionView::LoadUrl(u),
                ]);
                acts
            },
            SessionEvent::PageLoadFailed(e) => {
                let message = join("载入工作台失败：", e.as_str());
                self.fail(message.as_str())
            },
            SessionEvent::StartupFailed(e) => self.fail(e.as_str()),
            SessionEvent::ServiceExited(status) => {
                self.has_child = false;
                let mut message = join("DSH 服务已退出（状态码：", status.as_str());
                message.append("）");
                let mut acts: Vec<Action> = Vec::new();
                acts.push(Action::ReleaseChild);
                let mut rest = self.fail(message.as_str());
                let ghost rv = rest@;
                acts.append(&mut rest);
                assert(acts@ =~= seq![Action::ReleaseChild] + rv);
                assert(action_views(acts@) =~= seq![ActionView::ReleaseChild] + action_views(rv));
                acts
            },
        }
    }
}

// ---------------------------------------------------------------------------
// Laws of the session
// ---------------------------------------------------------------------------

/// Credentials awaiting storage always passed the checks.
pub open spec fn session_ok(s: SessionView) -> bool {
    match s.pending {
        Some((k, m)) => api_key_ok(k) && model_ok(m),
        None => true,
    }
}

/// The actions start a runtime.
pub open spec fn spawns(acts: Seq<ActionView>) -> bool {
    exists|i: int| 0 <= i < acts.len() && acts[i] is SpawnRuntime
}

/// Every runtime the actions start has a well-formed key.
pub open spec fn spawned_keys_ok(acts: Seq<ActionView>) -> bool {
    forall|i: int|
        0 <= i < acts.len() ==> match #[trigger] acts[i] {
            ActionView::SpawnRuntime(k, _) => api_key_ok(k),
            _ => true,
        }
}

/// Every credential the actions store passed both checks.
pub open spec fn stored_credentials_ok(acts: Seq<ActionView>) -> bool {
    forall|i: int|
        0 <= i < acts.len() ==> match #[trigger] acts[i] {
            ActionView::StoreCredentials(k, m) => api_key_ok(k) && model_ok(m),
            _ => true,
        }
}

proof fn lemma_fail_step_shape(s: SessionView, message: Seq<char>)
    ensures
        !spawns(fail_step(s, message).1),
        spawned_keys_ok(fail_step(s, message).1),
        stored_credentials_ok(fail_step(s, message).1),
        fail_step(s, message).0.pending == s.pending,
{
    let acts = fail_step(s, message).1;
    assert forall|i: int| 0 <= i < acts.len() implies !(acts[i] is SpawnRuntime)
        && !(acts[i] is StoreCredentials) by {
        if s.has_child {
            assert(i == 0 ==> acts[i] == ActionView::StopChild);
        }
    }
}

proof fn lemma_start_step_shape(s: SessionView, key: Seq<char>, model: Seq<char>)
    ensures
        api_key_ok(key) ==> spawned_keys_ok(start_step(s, key, model).1),
        stored_credentials_ok(start_step(s, key, model).1),
        s.started ==> !spawns(start_step(s, key, model).1),
        spawns(start_step(s, key, model).1) ==> start_step(s, key, model).0.started,
        start_step(s, key, model).0.pending == s.pending,
{
}

/// Invariant law: the session keeps credentials awaiting storage only when
/// both the key and the model passed their checks.
pub proof fn law_pending_credentials_checked(s: SessionView, e: EventView)
    requires
        session_ok(s),
    ensures
        session_ok(step(s, e).0),
{
    match e {
        EventView::Launch(k, m) => {
            if let Some(key) = k {
                if api_key_ok(key) {
                    lemma_start_step_shape(s, key, m);
                }
            }
        },
        EventView::SaveApiKey(rk, rm, sm) => {
            lemma_fail_step_shape(s, key_verdict(trimmed(rk))->Err_0);
            lemma_fail_step_shape(s, model_verdict(submitted_model(rm, sm))->Err_0);
        },
        EventView::CredentialsStored => {
            if let Some((k, m)) = s.pending {
                lemma_start_step_shape(SessionView { pending: None, ..s }, k, m);
            }
        },
        EventView::RetryRuntime(k, m) => {
            if let Some(key) = k {
                if api_key_ok(key) {
                    lemma_start_step_shape(s, key, m);
                }
            }
        },
        EventView::KeyStoreFailed(x) => {
            lemma_fail_step_shape(SessionView { pending: None, ..s }, "无法保存 API Key："@ + x);
        },
        EventView::ModelStoreFailed(x) => {
            lemma_fail_step_shape(SessionView { pending: None, ..s }, "无法保存模型选择："@ + x);
        },
        EventView::PageLoadFailed(x) => {
            lemma_fail_step_shape(s, "载入工作台失败："@ + x);
        },
        EventView::StartupFailed(x) => {
            lemma_fail_step_shape(s, x);
        },
        EventView::ServiceExited(x) => {
            lemma_fail_step_shape(
                SessionView { has_child: false, ..s },
                "DSH 服务已退出（状态码："@ + x + "）"@,
            );
        },
        _ => {},
    }
}

/// Credentials law: a key reaches the keychain, and a key reaches the
/// runtime, only if it passed the key check; the stored key is the
/// submitted one trimmed, and the stored model passed the model check.
pub proof fn law_only_checked_keys_leave(s: SessionView, e: EventView)
    requires
        session_ok(s),
    ensures
        spawned_keys_ok(step(s, e).1),
        stored_credentials_ok(step(s, e).1),
        e matches EventView::SaveApiKey(rk, _, _) ==> forall|i: int|
            0 <= i < step(s, e).1.len() ==> (#[trigger] step(s, e).1[i] matches
                ActionView::StoreCredentials(k, _) ==> k == trimmed(rk)),
{
    let acts = step(s, e).1;
    match e {
        EventView::Launch(k, m) => {
            if let Some(key) = k {
                if api_key_ok(key) {
                    lemma_start_step_shape(s, key, m);
                }
            }
        },
        EventView::SaveApiKey(rk, rm, sm) => {
            lemma_fail_step_shape(s, key_verdict(trimmed(rk))->Err_0);
            lemma_fail_step_shape(s, model_verdict(submitted_model(rm, sm))->Err_0);
        },
        EventView::CredentialsStored => {
            if let Some((k, m)) = s.pending {
                lemma_start_step_shape(SessionView { pending: None, ..s }, k, m);
            }
        },
        EventView::RetryRuntime(k, m) => {
            if let Some(key) = k {
                if api_key_ok(key) {
                    lemma_start_step_shape(s, key, m);
                }
            }
        },
        EventView::KeyStoreFailed(x) => {
            lemma_fail_step_shape(SessionView { pending: None, ..s }, "无法保存 API Key："@ + x);
        },
        EventView::ModelStoreFailed(x) => {
            lemma_fail_step_shape(SessionView { pending: None, ..s }, "无法保存模型选择："@ + x);
        },
        EventView::PageLoadFailed(x) => {
            lemma_fail_step_shape(s, "载入工作台失败："@ + x);
        },
        EventView::StartupFailed(x) => {
            lemma_fail_step_shape(s, x);
        },
        EventView::ServiceExited(x) => {
            let msg = "DSH 服务已退出（状态码："@ + x + "）"@;
            let inner = fail_step(SessionView { has_child: false, ..s }, msg).1;
            lemma_fail_step_shape(SessionView { has_child: false, ..s }, msg);
            assert forall|i: int| 0 <= i < acts.len() implies !(acts[i] is SpawnRuntime)
                && !(acts[i] is StoreCredentials) by {
                if i > 0 {
                    assert(acts[i] == inner[i - 1]);
                    assert(!(inner[i - 1] is SpawnRuntime));
                }
            }
        },
        EventView::ResetApiKey => {
            assert forall|i: int| 0 <= i < acts.len() implies !(acts[i] is SpawnRuntime)
                && !(acts[i] is StoreCredentials) by {
                if s.has_child {
                    assert(acts =~= seq![
                        ActionView::DeleteStoredKey,
                        ActionView::StopChild,
                        ActionView::ShowStartPage,
                    ]);
                } else {
                    assert(acts =~= seq![ActionView::DeleteStoredKey, ActionView::ShowStartPage]);
                }
            }
        },
        EventView::WindowClose => {
            assert forall|i: int| 0 <= i < acts.len() implies !(acts[i] is SpawnRuntime)
                && !(acts[i] is StoreCredentials) by {
                if s.has_child {
                    assert(acts =~= seq![ActionView::StopChild, ActionView::Exit]);
                } else {
                    assert(acts =~= seq![ActionView::Exit]);
                }
            }
        },
        _ => {},
    }
}

/// Single-runtime law: while a runtime counts as started, no event starts
/// another; and whenever an event starts one, the session counts it as
/// started afterwards.
pub proof fn law_one_runtime_at_a_time(s: SessionView, e: EventView)
    ensures
        s.started ==> !spawns(step(s, e).1),
        spawns(step(s, e).1) ==> step(s, e).0.started,
{
    let acts = step(s, e).1;
    match e {
        EventView::Launch(k, m) => {
            if let Some(key) = k {
                lemma_start_step_shape(s, key, m);
            }
        },
        EventView::SaveApiKey(rk, rm, sm) => {
            lemma_fail_step_shape(s, key_verdict(trimmed(rk))->Err_0);
            lemma_fail_step_shape(s, model_verdict(submitted_model(rm, sm))->Err_0);
        },
        EventView::CredentialsStored => {
            if let Some((k, m)) = s.pending {
                lemma_start_step_shape(SessionView { pending: None, ..s }, k, m);
            }
        },
        EventView::RetryRuntime(k, m) => {
            if let Some(key) = k {
                lemma_start_step_shape(s, key, m);
            }
        },
        EventView::KeyStoreFailed(x) => {
            lemma_fail_step_shape(SessionView { pending: None, ..s }, "无法保存 API Key："@ + x);
        },
        EventView::ModelStoreFailed(x) => {
            lemma_fail_step_shape(SessionView { pending: None, ..s }, "无法保存模型选择："@ + x);
        },
        EventView::PageLoadFailed(x) => {
            lemma_fail_step_shape(s, "载入工作台失败："@ + x);
        },
        EventView::StartupFailed(x) => {
            lemma_fail_step_shape(s, x);
        },
        EventView::ServiceExited(x) => {
            let msg = "DSH 服务已退出（状态码："@ + x + "）"@;
            let inner = fail_step(SessionView { has_child: false, ..s }, msg).1;
            lemma_fail_step_shape(SessionView { has_child: false, ..s }, msg);
            assert forall|i: int| 0 <= i < acts.len() implies !(acts[i] is SpawnRuntime) by {
                if i > 0 {
                    assert(acts[i] == inner[i - 1]);
                }
            }
        },
        EventView::ResetApiKey => {
            assert forall|i: int| 0 <= i < acts.len() implies !(acts[i] is SpawnRuntime) by {
                if s.has_child {
                    assert(acts =~= seq![
                        ActionView::DeleteStoredKey,
                        ActionView::StopChild,
                        ActionView::ShowStartPage,
                    ]);
                } else {
                    assert(acts =~= seq![ActionView::DeleteStoredKey, ActionView::ShowStartPage]);
                }
            }
        },
        EventView::WindowClose => {
            assert forall|i: int| 0 <= i < acts.len() implies !(acts[i] is SpawnRuntime) by {
                if s.has_child {
                    assert(acts =~= seq![ActionView::StopChild, ActionView::Exit]);
                } else {
                    assert(acts =~= seq![ActionView::Exit]);
                }
            }
        },
        _ => {},
    }
}

/// Failure law: whatever failed (the runtime worker, the workbench page,
/// the service process, or storing the credentials), the session ends up
/// with no runtime counted as started, no workbench address and no service
/// process; after a storage failure nothing awaits storage.
pub proof fn law_failure_resets_session(s: SessionView, e: EventView)
    requires
        e is StartupFailed || e is PageLoadFailed || e is ServiceExited || e is KeyStoreFailed
            || e is ModelStoreFailed,
    ensures
        !step(s, e).0.started,
        step(s, e).0.current_url is None,
        !step(s, e).0.has_child,
        e is KeyStoreFailed || e is ModelStoreFailed ==> step(s, e).0.pending is None,
        step(s, e).0.pet_hidden == s.pet_hidden,
{
}

/// Reset law: resetting the key removes it from storage first, stops the
/// service process if there is one, forgets the runtime and the workbench,
/// and brings back the start page.
pub proof fn law_reset_forgets_key(s: SessionView)
    ensures
        step(s, EventView::ResetApiKey).1[0] == ActionView::DeleteStoredKey,
        step(s, EventView::ResetApiKey).1.last() == ActionView::ShowStartPage,
        !step(s, EventView::ResetApiKey).0.started,
        step(s, EventView::ResetApiKey).0.current_url is None,
        !step(s, EventView::ResetApiKey).0.has_child,
{
}

/// Pet law: the pet's visibility follows the page's request and is stored.
pub proof fn law_pet_visibility_followed(s: SessionView, hidden: bool)
    ensures
        step(s, EventView::SetPetVisibility(hidden)).0.pet_hidden == hidden,
        step(s, EventView::SetPetVisibility(hidden)).1 == seq![ActionView::StorePetHidden(hidden)],
{
}

/// Retry law: after a failure (no runtime started), retrying with a stored
/// key that passes the key check restarts the runtime with that key and
/// the stored model; the start page comes back only when the stored key is
/// missing or malformed, and then nothing else changes.
pub proof fn law_retry_restarts_runtime(s: SessionView, stored_key: Option<Seq<char>>, stored_model: Seq<char>)
    ensures
        !s.started && stored_key is Some && api_key_ok(stored_key->0) ==> {
            &&& step(s, EventView::RetryRuntime(stored_key, stored_model)).0.started
            &&& step(s, EventView::RetryRuntime(stored_key, stored_model)).1.contains(
                ActionView::SpawnRuntime(stored_key->0, stored_model),
            )
            &&& !step(s, EventView::RetryRuntime(stored_key, stored_model)).1.contains(
                ActionView::ShowStartPage,
            )
        },
        !s.started && (stored_key is None || !api_key_ok(stored_key->0)) ==> step(
            s,
            EventView::RetryRuntime(stored_key, stored_model),
        ) == (s, seq![ActionView::ShowStartPage]),
        step(s, EventView::RetryRuntime(stored_key, stored_model)).1.contains(
            ActionView::ShowStartPage,
        ) ==> stored_key is None || !api_key_ok(stored_key->0),
{
    let acts = step(s, EventView::RetryRuntime(stored_key, stored_model)).1;
    if !s.started && stored_key is Some && api_key_ok(stored_key->0) {
        assert(acts[1] == ActionView::SpawnRuntime(stored_key->0, stored_model));
        assert(!acts.contains(ActionView::ShowStartPage)) by {
            if acts.contains(ActionView::ShowStartPage) {
                let i = choose|i: int| 0 <= i < acts.len() && acts[i] == ActionView::ShowStartPage;
                assert(i == 0 || i == 1);
            }
        }
    }
    if s.started {
        assert(!acts.contains(ActionView::ShowStartPage)) by {
            assert(acts.len() == 0);
        }
    }
}

/// Close law: closing the window while a service process runs stops that
/// process before the shell exits, and the shell always exits last.
pub proof fn law_close_stops_service(s: SessionView)
    ensures
        step(s, EventView::WindowClose).1.len() > 0,
        step(s, EventView::WindowClose).1.last() == ActionView::Exit,
        s.has_child ==> step(s, EventView::WindowClose).1.drop_last().contains(ActionView::StopChild),
        !step(s, EventView::WindowClose).0.has_child,
{
    if s.has_child {
        assert(step(s, EventView::WindowClose).1.drop_last()[0] == ActionView::StopChild);
    }
}

/// Process law: no event lets go of a running service process silently:
/// whenever the session held one and no longer does, the actions stop it
/// or release it (when it has already exited).
pub proof fn law_process_never_dropped(s: SessionView, e: EventView)
    ensures
        s.has_child && !step(s, e).0.has_child ==> step(s, e).1.contains(ActionView::StopChild)
            || step(s, e).1.contains(ActionView::ReleaseChild),
{
    let acts = step(s, e).1;
    if s.has_child && !step(s, e).0.has_child {
        match e {
            EventView::ResetApiKey => {
                assert(acts[1] == ActionView::StopChild);
            },
            EventView::ServiceExited(_) => {
                assert(acts[0] == ActionView::ReleaseChild);
            },
            _ => {
                assert(acts[0] == ActionView::StopChild);
            },
        }
    }
}

} // verus!
