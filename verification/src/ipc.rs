use vstd::prelude::*;
use crate::text::{owned, same_text};

verus! {

broadcast use vstd::string::group_string_axioms;

/// A message that the page posts to the shell over its IPC channel, as it
/// reads once decoded from JSON (`{"type": ..., "key": ..., ...}`).
#[derive(Debug, PartialEq, Eq)]
pub struct IpcMessage {
    pub kind: String,
    pub key: Option<String>,
    pub model: Option<String>,
    pub hidden: Option<bool>,
}

/// What a page message asks of the shell.
#[derive(Debug, PartialEq, Eq)]
pub enum IpcRequest {
    SaveApiKey { key: String, model: String },
    ResetApiKey,
    RetryRuntime,
    SetPetVisibility(bool),
    WindowMinimize,
    WindowMaximize,
    WindowClose,
    WindowDrag,
    OpenDocs,
}

/// The view of an optional text.
pub open spec fn opt_text(o: Option<String>) -> Option<Seq<char>> {
    match o {
        Some(s) => Some(s@),
        None => None,
    }
}

/// The page that `open_docs` opens in the default browser.
pub fn api_key_docs_url() -> (r: String)
    ensures
        r@ == "https://platform.deepseek.com/api_keys"@,
{
    owned("https://platform.deepseek.com/api_keys")
}

/// Maps a page message to its request. `save_key` needs a key (a missing
/// model reads as empty) and `pet_visibility` needs the flag; any other
/// kind, or a message without what it needs, asks nothing.
pub fn ipc_request(msg: IpcMessage) -> (r: Option<IpcRequest>)
    ensures
        msg.kind@ == "save_key"@ ==> (match (r, opt_text(msg.key)) {
            (Some(IpcRequest::SaveApiKey { key, model }), Some(k)) => key@ == k && model@ == (
            match opt_text(msg.model) {
                Some(m) => m,
                None => Seq::empty(),
            }),
            (None, None) => true,
            _ => false,
        }),
        msg.kind@ == "reset_key"@ ==> r matches Some(IpcRequest::ResetApiKey),
        msg.kind@ == "retry"@ ==> r matches Some(IpcRequest::RetryRuntime),
        msg.kind@ == "pet_visibility"@ ==> (match (r, msg.hidden) {
            (Some(IpcRequest::SetPetVisibility(h)), Some(g)) => h == g,
            (None, None) => true,
            _ => false,
        }),
        msg.kind@ == "window_minimize"@ ==> r matches Some(IpcRequest::WindowMinimize),
        msg.kind@ == "window_maximize"@ ==> r matches Some(IpcRequest::WindowMaximize),
        msg.kind@ == "window_close"@ ==> r matches Some(IpcRequest::WindowClose),
        msg.kind@ == "window_drag"@ ==> r matches Some(IpcRequest::WindowDrag),
        msg.kind@ == "open_docs"@ ==> r matches Some(IpcRequest::OpenDocs),
        !(msg.kind@ == "save_key"@ || msg.kind@ == "reset_key"@ || msg.kind@ == "retry"@
            || msg.kind@ == "pet_visibility"@ || msg.kind@ == "window_minimize"@ || msg.kind@
            == "window_maximize"@ || msg.kind@ == "window_close"@ || msg.kind@ == "window_drag"@
            || msg.kind@ == "open_docs"@) ==> r is None,
{
    proof {
        reveal_strlit("save_key");
        reveal_strlit("reset_key");
        reveal_strlit("retry");
        reveal_strlit("pet_visibility");
        reveal_strlit("window_minimize");
        reveal_strlit("window_maximize");
        reveal_strlit("window_close");
        reveal_strlit("window_drag");
        reveal_strlit("open_docs");
        assert("save_key"@.len() == 8);
        assert("reset_key"@.len() == 9);
        assert("retry"@.len() == 5);
        assert("pet_visibility"@.len() == 14);
        assert("window_minimize"@.len() == 15);
        assert("window_maximize"@.len() == 15);
        assert("window_close"@.len() == 12);
        assert("window_drag"@.len() == 11);
        assert("open_docs"@.len() == 9);
        assert("reset_key"@[0] != "open_docs"@[0]);
        assert("reset_key"@ != "open_docs"@);
        assert("window_minimize"@[8] != "window_maximize"@[8]);
        assert("window_minimize"@ != "window_maximize"@);
    }
    let kind = msg.kind.as_str();
    if same_text(kind, "save_key") {
        match msg.key {
            Some(key) => {
                let model = match msg.model {
                    Some(m) => m,
                    None => String::new(),
                };
                Some(IpcRequest::SaveApiKey { key, model })
            },
            None => None,
        }
    } else if same_text(kind, "reset_key") {
        Some(IpcRequest::ResetApiKey)
    } else if same_text(kind, "retry") {
        Some(IpcRequest::RetryRuntime)
    } else if same_text(kind, "pet_visibility") {
        match msg.hidden {
            Some(h) => Some(IpcRequest::SetPetVisibility(h)),
            None => None,
        }
    } else if same_text(kind, "window_minimize") {
        Some(IpcRequest::WindowMinimize)
    } else if same_text(kind, "window_maximize") {
        Some(IpcRequest::WindowMaximize)
    } else if same_text(kind, "window_close") {
        Some(IpcRequest::WindowClose)
    } else if same_text(kind, "window_drag") {
        Some(IpcRequest::WindowDrag)
    } else if same_text(kind, "open_docs") {
        Some(IpcRequest::OpenDocs)
    } else {
        None
    }
}

} // verus!
