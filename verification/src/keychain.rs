use vstd::prelude::*;
use crate::settings::accept_api_key;
use crate::text::{contains_text, occurs_in};
use crate::validation::api_key_ok;

verus! {

broadcast use vstd::string::group_string_axioms;

/// A credential entry of the platform's secure storage.
#[verifier::external_type_specification]
#[verifier::external_body]
pub struct ExKeyringEntry(keyring::Entry);

/// The error type of the secure storage.
#[verifier::external_type_specification]
#[verifier::external_body]
pub struct ExKeyringError(keyring::Error);

/// The text that `str::to_lowercase` makes of `s`.
pub uninterp spec fn lowercase(s: Seq<char>) -> Seq<char>;

/// The ASCII lowercase of a character.
pub open spec fn ascii_lower(c: char) -> char {
    if 'A' <= c <= 'Z' {
        ((c as u32) + 32) as char
    } else {
        c
    }
}

/// `str::to_lowercase`: the Unicode lowercase mapping of each character.
/// Its documentation defines it by the Unicode `Lowercase` mapping; of that
/// mapping only the ASCII part is stated here (letters `A`..`Z` map to
/// `a`..`z`, other ASCII characters stay).
#[verifier::external_body]
fn to_lowercase(s: &str) -> (r: String)
    ensures
        r@ == lowercase(s@),
        (forall|i: int| 0 <= i < s@.len() ==> #[trigger] s@[i] <= '\u{7f}') ==> r@ == s@.map_values(
            |c: char| ascii_lower(c),
        ),
{
    s.to_lowercase()
}

/// `keyring::Entry::new`: the entry for a service and a user. Whether it
/// can be made depends on the platform's storage; nothing is promised.
#[verifier::external_body]
fn keyring_entry_new(service: &str, user: &str) -> (r: Result<keyring::Entry, keyring::Error>) {
    keyring::Entry::new(service, user)
}

/// `keyring::Entry::set_password`: stores a password in the entry. The
/// outcome depends on the platform's storage; nothing is promised.
#[verifier::external_body]
fn keyring_set_password(entry: &keyring::Entry, password: &str) -> (r: Result<(), keyring::Error>) {
    entry.set_password(password)
}

/// `keyring::Entry::get_password`: reads the password of the entry. What
/// comes back depends on the platform's storage; nothing is promised.
#[verifier::external_body]
fn keyring_get_password(entry: &keyring::Entry) -> (r: Result<String, keyring::Error>) {
    entry.get_password()
}

/// `keyring::Entry::delete_credential`: removes the entry's credential. The
/// outcome depends on the platform's storage; nothing is promised.
#[verifier::external_body]
fn keyring_delete_credential(entry: &keyring::Entry) -> (r: Result<(), keyring::Error>) {
    entry.delete_credential()
}

/// The `Display` text of a storage error (`to_string`); its wording is the
/// crate's, so nothing is promised of it.
#[verifier::external_body]
fn keyring_error_text(error: &keyring::Error) -> (r: String) {
    error.to_string()
}

/// The service and the account under which the API key is kept.
pub fn api_key_entry_names() -> (r: (&'static str, &'static str))
    ensures
        r.0@ == "dsh-desktop"@,
        r.1@ == "deepseek-api-key"@,
{
    ("dsh-desktop", "deepseek-api-key")
}

/// The entry that holds the API key (see `api_key_entry_names`).
fn keyring_entry() -> (r: Result<keyring::Entry, String>) {
    let (service, account) = api_key_entry_names();
    match keyring_entry_new(service, account) {
        Ok(entry) => Ok(entry),
        Err(error) => Err(keyring_error_text(&error)),
    }
}

/// Stores the API key in the platform's secure storage; a failure comes
/// back as the storage's own message.
pub fn save_api_key(key: &str) -> (r: Result<(), String>) {
    let entry = match keyring_entry() {
        Ok(entry) => entry,
        Err(message) => return Err(message),
    };
    match keyring_set_password(&entry, key) {
        Ok(()) => Ok(()),
        Err(error) => Err(keyring_error_text(&error)),
    }
}

/// The API key kept in the platform's secure storage, when there is one
/// and it is well formed.
pub fn stored_api_key() -> (r: Option<String>)
    ensures
        r matches Some(k) ==> api_key_ok(k@),
{
    let entry = match keyring_entry() {
        Ok(entry) => entry,
        Err(_) => return None,
    };
    key_from_keychain(keyring_get_password(&entry))
}

/// The API key that a keychain read gives: the text read when it passes the
/// key check, none when it does not or when the read failed.
pub fn key_from_keychain(read: Result<String, keyring::Error>) -> (r: Option<String>)
    ensures
        match read {
            Ok(k) => if api_key_ok(k@) {
                r matches Some(x) && x@ == k@
            } else {
                r is None
            },
            Err(_) => r is None,
        },
{
    match read {
        Ok(key) => accept_api_key(Some(key)),
        Err(_) => None,
    }
}

/// The API key to run with: the one from the environment
/// (`DEEPSEEK_API_KEY`) when it is well formed, else the one kept in the
/// secure storage, when there is one and it is well formed. The storage is
/// read only when the environment gives no well-formed key.
pub fn api_key_from(env_key: Option<String>) -> (r: Option<String>)
    ensures
        match env_key {
            Some(k) if api_key_ok(k@) => r matches Some(x) && x@ == k@,
            _ => r matches Some(x) ==> api_key_ok(x@),
        },
{
    match accept_api_key(env_key) {
        Some(k) => Some(k),
        None => stored_api_key(),
    }
}

/// The outcome of removing the stored key: a failure whose message, once
/// lowercased, says "not found" means there was nothing to remove.
pub open spec fn deletion_outcome(result: Result<(), Seq<char>>) -> Result<(), Seq<char>> {
    match result {
        Ok(_) => Ok(()),
        Err(message) => if occurs_in(lowercase(message), "not found"@) {
            Ok(())
        } else {
            Err(message)
        },
    }
}

/// Reads the outcome of removing the stored key (see `deletion_outcome`).
pub fn delete_outcome(result: Result<(), String>) -> (r: Result<(), String>)
    ensures
        crate::validation::outcome(r) == deletion_outcome(crate::validation::outcome(result)),
{
    match result {
        Ok(()) => Ok(()),
        Err(message) => {
            let lower = to_lowercase(message.as_str());
            if contains_text(lower.as_str(), "not found") {
                Ok(())
            } else {
                Err(message)
            }
        },
    }
}

/// Removes the API key from the platform's secure storage; a missing key is
/// no failure (see `delete_outcome`).
pub fn delete_api_key() -> (r: Result<(), String>) {
    let entry = match keyring_entry() {
        Ok(entry) => entry,
        Err(message) => return Err(message),
    };
    match keyring_delete_credential(&entry) {
        Ok(()) => Ok(()),
        Err(error) => delete_outcome(Err(keyring_error_text(&error))),
    }
}

} // verus!
