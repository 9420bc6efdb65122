//! Core rules of a desktop shell that supervises a local DeepSeek harness:
//! credential and model checks, log redaction, the readiness probe of the
//! local web service, scripts handed to the web view, and the session state
//! machine that decides what the shell does on each user or runtime event.

pub mod text;
pub mod validation;
pub mod http;
pub mod redact;
pub mod script;
pub mod ipc;
pub mod session;
pub mod settings;
pub mod runtime;
pub mod frontend;
pub mod process;
pub mod keychain;
pub mod icon;
pub mod profile;
pub mod paths;
pub mod startup;
