//! Input rules of the interactive prompts.
use vstd::prelude::*;

use crate::domain::steps::{ExecuteParams, SshKeyAction};
use crate::text::{chars_of, parse_unsigned, parse_unsigned_vec, str_eq};

verus! {

/// What `char::is_alphanumeric` answers (Unicode `Alphabetic` or `Numeric`).
pub uninterp spec fn unicode_alphanumeric(c: char) -> bool;

/// `char::is_alphanumeric`. Stated: the answer is the named Unicode property;
/// ASCII letters and digits have it, other ASCII characters do not.
#[verifier::external_body]
fn is_alphanumeric(c: char) -> (r: bool)
    ensures
        r == unicode_alphanumeric(c),
        ('a' <= c <= 'z' || 'A' <= c <= 'Z' || '0' <= c <= '9') ==> r,
        (c as u32) < 128 && !('a' <= c <= 'z' || 'A' <= c <= 'Z' || '0' <= c <= '9') ==> !r,
{
    c.is_alphanumeric()
}

/// A character allowed in a user name: alphanumeric, `-` or `_`.
pub open spec fn username_char(c: char) -> bool {
    unicode_alphanumeric(c) || c == '-' || c == '_'
}

pub fn is_username_char(c: char) -> (r: bool)
    ensures
        r == username_char(c),
{
    is_alphanumeric(c) || c == '-' || c == '_'
}

/// Why a user name is refused, as a translation key: empty, already taken,
/// or holding a character other than alphanumerics, `-` and `_`.
pub open spec fn username_problem(name: Seq<char>, exists_already: bool) -> Option<Seq<char>> {
    if name.len() == 0 {
        Some("cli_username_empty"@)
    } else if exists_already {
        Some("cli_username_exists"@)
    } else if exists|i: int| 0 <= i < name.len() && !username_char(#[trigger] name[i]) {
        Some("cli_username_invalid"@)
    } else {
        None
    }
}

/// Checks a user name typed at the prompt; `exists_already` tells whether the
/// system has such a user.
pub fn validate_username(name: &str, exists_already: bool) -> (r: Result<(), &'static str>)
    ensures
        match r {
            Ok(()) => username_problem(name@, exists_already) is None,
            Err(k) => username_problem(name@, exists_already) == Some(k@),
        },
{
    let c = chars_of(name);
    if c.len() == 0 {
        return Err("cli_username_empty");
    }
    if exists_already {
        return Err("cli_username_exists");
    }
    let mut i: usize = 0;
    while i < c.len()
        invariant
            c@ == name@,
            c@.len() > 0,
            !exists_already,
            i <= c.len(),
            forall|j: int| 0 <= j < i ==> username_char(#[trigger] c@[j]),
        decreases c.len() - i,
    {
        if !is_username_char(c[i]) {
            assert(!username_char(name@[i as int]));
            return Err("cli_username_invalid");
        }
        i = i + 1;
    }
    Ok(())
}

/// Checks a user name in the manual-entry prompt of the key step (no existence check).
pub fn validate_existing_username(name: &str) -> (r: Result<(), &'static str>)
    ensures
        match r {
            Ok(()) => username_problem(name@, false) is None,
            Err(k) => username_problem(name@, false) == Some(k@),
        },
{
    validate_username(name, false)
}

/// A typed character is kept in the terminal interface's user-name field when it
/// is allowed and the field holds fewer than 32 characters.
pub fn accept_username_char(c: char, current_len: usize) -> (r: bool)
    ensures
        r == (username_char(c) && current_len < 32),
{
    is_username_char(c) && current_len < 32
}

/// A typed character is kept in the port field when it is an ASCII digit and the
/// field holds fewer than five characters.
pub fn accept_port_char(c: char, current_len: usize) -> (r: bool)
    ensures
        r == ('0' <= c <= '9' && current_len < 5),
{
    '0' <= c && c <= '9' && current_len < 5
}

/// Why a typed port is refused, as a translation key. `0` means "keep the
/// current port" and is accepted.
pub open spec fn port_problem(input: Seq<char>) -> Option<Seq<char>> {
    if input == "0"@ {
        None
    } else {
        match parse_unsigned(input, 65535) {
            None => Some("cli_port_invalid"@),
            Some(p) => if p == 0 {
                Some("cli_port_zero"@)
            } else {
                None
            },
        }
    }
}

pub fn validate_port_input(input: &str) -> (r: Result<(), &'static str>)
    ensures
        match r {
            Ok(()) => port_problem(input@) is None,
            Err(k) => port_problem(input@) == Some(k@),
        },
{
    if str_eq(input, "0") {
        return Ok(());
    }
    let c = chars_of(input);
    match parse_unsigned_vec(&c, 65535) {
        None => Err("cli_port_invalid"),
        Some(p) => {
            if p == 0 {
                Err("cli_port_zero")
            } else {
                Ok(())
            }
        },
    }
}

/// The port to switch to: the typed one when it parses, is not zero and differs
/// from the current port; otherwise none.
pub open spec fn chosen_port(input: Seq<char>, current: u16) -> Option<u16> {
    match parse_unsigned(input, 65535) {
        Some(p) => if p > 0 && p != current {
            Some(p as u16)
        } else {
            None
        },
        None => None,
    }
}

pub fn choose_port(input: &str, current: u16) -> (r: Option<u16>)
    ensures
        r == chosen_port(input@, current),
{
    let c = chars_of(input);
    match parse_unsigned_vec(&c, 65535) {
        Some(p) => {
            if p > 0 && p != current as u32 {
                Some(p as u16)
            } else {
                None
            }
        },
        None => None,
    }
}

// ---------------------------------------------------------------------------
// Recording the answers
// ---------------------------------------------------------------------------

/// Records the answers of the user-creation prompts: the new user, whether its
/// password is locked, and a key pair to be generated for it.
pub fn with_new_user(params: ExecuteParams, username: String, lock_password: bool) -> (r: ExecuteParams)
    ensures
        r.new_username == Some(username),
        r.lock_password == lock_password,
        r.ssh_key_username == Some(username),
        r.ssh_key_action == Some(SshKeyAction::GenerateNew),
        r.new_ssh_port == params.new_ssh_port,
{
    let key_user = username.clone();
    ExecuteParams {
        new_username: Some(username),
        lock_password,
        ssh_key_username: Some(key_user),
        ssh_key_action: Some(SshKeyAction::GenerateNew),
        ..params
    }
}

/// Records the port prompt's answer: the chosen port, when there is one.
pub fn with_port_answer(params: ExecuteParams, input: &str, current: u16) -> (r: ExecuteParams)
    ensures
        r.new_ssh_port == match chosen_port(input@, current) {
            Some(p) => Some(p),
            None => params.new_ssh_port,
        },
        r.new_username == params.new_username,
        r.lock_password == params.lock_password,
        r.ssh_key_username == params.ssh_key_username,
        r.ssh_key_action == params.ssh_key_action,
{
    match choose_port(input, current) {
        Some(p) => ExecuteParams { new_ssh_port: Some(p), ..params },
        None => params,
    }
}

/// Who the key prompt is about: typed in when there are no sudo users, the only
/// one when there is one, chosen from the list otherwise.
#[derive(Debug, Clone)]
pub enum KeyTarget {
    AskName,
    Only(String),
    Choose,
}

pub fn key_target(sudo_users: &Vec<String>) -> (r: KeyTarget)
    ensures
        sudo_users@.len() == 0 ==> r is AskName,
        sudo_users@.len() == 1 ==> r == KeyTarget::Only(sudo_users@[0]),
        sudo_users@.len() > 1 ==> r is Choose,
{
    if sudo_users.len() == 0 {
        KeyTarget::AskName
    } else if sudo_users.len() == 1 {
        KeyTarget::Only(sudo_users[0].clone())
    } else {
        KeyTarget::Choose
    }
}

/// Records the key prompt's answer for `user`: choice 0 generates a new pair,
/// choice 1 adds the pasted key when one was pasted; anything else changes nothing.
pub fn with_key_answer(params: ExecuteParams, user: String, choice: usize, pasted: String) -> (r: ExecuteParams)
    ensures
        choice == 0 ==> r.ssh_key_username == Some(user) && r.ssh_key_action == Some(SshKeyAction::GenerateNew),
        choice == 1 && pasted@.len() > 0 ==> r.ssh_key_username == Some(user) && r.ssh_key_action == Some(
            SshKeyAction::PasteKey(pasted),
        ),
        !(choice == 0 || (choice == 1 && pasted@.len() > 0)) ==> r == params,
        r.new_username == params.new_username,
        r.lock_password == params.lock_password,
        r.new_ssh_port == params.new_ssh_port,
{
    if choice == 0 {
        ExecuteParams { ssh_key_username: Some(user), ssh_key_action: Some(SshKeyAction::GenerateNew), ..params }
    } else if choice == 1 && !pasted.as_str().is_empty() {
        ExecuteParams { ssh_key_username: Some(user), ssh_key_action: Some(SshKeyAction::PasteKey(pasted)), ..params }
    } else {
        params
    }
}

} // verus!
