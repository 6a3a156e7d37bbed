//! The dialogs of the terminal interface and the step-list keys: how each key
//! press changes a dialog, and which host operation a finished dialog asks for.
use vstd::prelude::*;

use crate::domain::steps::{ExecuteParams, SshKeyAction, StepKind};
use crate::presentation::cli::{accept_port_char, accept_username_char, username_char};
use crate::text::{chars_of, parse_unsigned, parse_unsigned_vec, str_eq, string_of, strings_view};

verus! {

/// A key press.
#[derive(Debug, Clone, Copy, PartialEq, Eq, Structural)]
pub enum Key {
    Char(char),
    Backspace,
    Enter,
    Esc,
    Up,
    Down,
    Other,
}

/// An open dialog.
#[derive(Debug, Clone)]
pub enum Popup {
    /// Key setup: typing the target user name
    SshKeyUsername { value: String },
    /// Key setup: choosing the target user
    SshKeyUserSelect { users: Vec<String>, selected: usize },
    /// Key setup: generate, paste or skip
    SshKeyAction { username: String, selected: usize },
    /// Key setup: pasting a public key
    SshKeyPaste { username: String, value: String },
    /// Key setup: the user already has a key pair
    SshKeyOverwrite { username: String, selected: usize },
    /// User creation: typing the new user name
    CreateUserUsername { value: String },
    /// User creation: lock the password or not
    CreateUserLockPw { username: String, lock: bool },
    /// Port change: typing the new port
    SshPortInput { value: String },
}

/// A dialog, with its texts as character sequences.
pub enum PopupView {
    SshKeyUsername { value: Seq<char> },
    SshKeyUserSelect { users: Seq<Seq<char>>, selected: nat },
    SshKeyAction { username: Seq<char>, selected: nat },
    SshKeyPaste { username: Seq<char>, value: Seq<char> },
    SshKeyOverwrite { username: Seq<char>, selected: nat },
    CreateUserUsername { value: Seq<char> },
    CreateUserLockPw { username: Seq<char>, lock: bool },
    SshPortInput { value: Seq<char> },
}

impl View for Popup {
    type V = PopupView;

    open spec fn view(&self) -> PopupView {
        match self {
            Popup::SshKeyUsername { value } => PopupView::SshKeyUsername { value: value@ },
            Popup::SshKeyUserSelect { users, selected } => PopupView::SshKeyUserSelect {
                users: strings_view(users@),
                selected: *selected as nat,
            },
            Popup::SshKeyAction { username, selected } => PopupView::SshKeyAction {
                username: username@,
                selected: *selected as nat,
            },
            Popup::SshKeyPaste { username, value } => PopupView::SshKeyPaste {
                username: username@,
                value: value@,
            },
            Popup::SshKeyOverwrite { username, selected } => PopupView::SshKeyOverwrite {
                username: username@,
                selected: *selected as nat,
            },
            Popup::CreateUserUsername { value } => PopupView::CreateUserUsername { value: value@ },
            Popup::CreateUserLockPw { username, lock } => PopupView::CreateUserLockPw {
                username: username@,
                lock: *lock,
            },
            Popup::SshPortInput { value } => PopupView::SshPortInput { value: value@ },
        }
    }
}

/// What a dialog asks the interface to do once a key was handled.
#[derive(Debug, Clone)]
pub enum PopupRequest {
    Nothing,
    /// Find out whether the user already has a key pair, then call `after_key_check`
    CheckExistingKey { username: String },
    /// Run the key step, generating a new key pair for the user
    GenerateKey { username: String },
    /// Delete the user's key pair, then run the key step generating a new one
    ReplaceKey { username: String },
    /// Run the key step, adding the pasted key to the user's authorized keys
    PasteKey { username: String, key: String },
    /// Run the user creation step
    CreateUser { username: String, lock_password: bool },
    /// Run the port change step
    ChangePort { port: u16 },
}

pub enum RequestView {
    Nothing,
    CheckExistingKey { username: Seq<char> },
    GenerateKey { username: Seq<char> },
    ReplaceKey { username: Seq<char> },
    PasteKey { username: Seq<char>, key: Seq<char> },
    CreateUser { username: Seq<char>, lock_password: bool },
    ChangePort { port: u16 },
}

impl View for PopupRequest {
    type V = RequestView;

    open spec fn view(&self) -> RequestView {
        match self {
            PopupRequest::Nothing => RequestView::Nothing,
            PopupRequest::CheckExistingKey { username } => RequestView::CheckExistingKey {
                username: username@,
            },
            PopupRequest::GenerateKey { username } => RequestView::GenerateKey { username: username@ },
            PopupRequest::ReplaceKey { username } => RequestView::ReplaceKey { username: username@ },
            PopupRequest::PasteKey { username, key } => RequestView::PasteKey {
                username: username@,
                key: key@,
            },
            PopupRequest::CreateUser { username, lock_password } => RequestView::CreateUser {
                username: username@,
                lock_password: *lock_password,
            },
            PopupRequest::ChangePort { port } => RequestView::ChangePort { port: *port },
        }
    }
}

/// The dialog after a key press, as a view (`None`: closed).
pub open spec fn popup_opt_view(p: Option<Popup>) -> Option<PopupView> {
    match p {
        Some(q) => Some(q@),
        None => None,
    }
}

/// A user choice dialog always points at one of its entries.
pub open spec fn popup_wf(p: PopupView) -> bool {
    match p {
        PopupView::SshKeyUserSelect { users, selected } => selected < users.len(),
        _ => true,
    }
}

/// Length in bytes of the UTF-8 encoding, as `str::len` gives it.
pub open spec fn byte_len(v: Seq<char>) -> usize {
    vstd::utf8::encode_utf8(v).len() as usize
}

/// The text with its last character removed, if it has one.
pub open spec fn backspaced(v: Seq<char>) -> Seq<char> {
    if v.len() == 0 {
        v
    } else {
        v.drop_last()
    }
}

/// Moves a list selection up (`Up` or `k`).
pub open spec fn is_up(key: Key) -> bool {
    key == Key::Up || key == Key::Char('k')
}

/// Moves a list selection down (`Down` or `j`).
pub open spec fn is_down(key: Key) -> bool {
    key == Key::Down || key == Key::Char('j')
}

/// The selection moved up by one, stopping at the first entry.
pub open spec fn sel_up(selected: nat) -> nat {
    if selected == 0 {
        0
    } else {
        (selected - 1) as nat
    }
}

/// The selection moved down by one, stopping at entry `last`.
pub open spec fn sel_down(selected: nat, last: nat) -> nat {
    if selected + 1 <= last {
        selected + 1
    } else {
        last
    }
}

/// The generate / paste / skip choice of the key dialog.
pub open spec fn key_action_enter(username: Seq<char>, selected: nat) -> (Option<PopupView>, RequestView) {
    if selected == 0 {
        (None, RequestView::CheckExistingKey { username })
    } else if selected == 1 {
        (Some(PopupView::SshKeyPaste { username, value: seq![] }), RequestView::Nothing)
    } else {
        (None, RequestView::Nothing)
    }
}

/// Back to the generate / paste / skip choice for `username`.
pub open spec fn back_to_actions(username: Seq<char>) -> (Option<PopupView>, RequestView) {
    (Some(PopupView::SshKeyAction { username, selected: 0 }), RequestView::Nothing)
}

/// How a dialog answers a key press: the dialog afterwards (`None` when it
/// closes) and what it asks for.
pub open spec fn popup_next(p: PopupView, key: Key) -> (Option<PopupView>, RequestView) {
    let stay = (Some(p), RequestView::Nothing);
    match p {
        PopupView::SshKeyUsername { value } => match key {
            Key::Char(c) => (Some(PopupView::SshKeyUsername { value: value.push(c) }), RequestView::Nothing),
            Key::Backspace => (Some(PopupView::SshKeyUsername { value: backspaced(value) }), RequestView::Nothing),
            Key::Enter => if value.len() > 0 {
                back_to_actions(value)
            } else {
                stay
            },
            Key::Esc => (None, RequestView::Nothing),
            _ => stay,
        },
        PopupView::SshKeyUserSelect { users, selected } => if is_up(key) {
            (Some(PopupView::SshKeyUserSelect { users, selected: sel_up(selected) }), RequestView::Nothing)
        } else if is_down(key) {
            (
                Some(PopupView::SshKeyUserSelect { users, selected: sel_down(selected, (users.len() - 1) as nat) }),
                RequestView::Nothing,
            )
        } else if key == Key::Enter {
            back_to_actions(users[selected as int])
        } else if key == Key::Esc {
            (None, RequestView::Nothing)
        } else {
            stay
        },
        PopupView::SshKeyAction { username, selected } => if is_up(key) {
            (Some(PopupView::SshKeyAction { username, selected: sel_up(selected) }), RequestView::Nothing)
        } else if is_down(key) {
            (Some(PopupView::SshKeyAction { username, selected: sel_down(selected, 2) }), RequestView::Nothing)
        } else if key == Key::Enter {
            key_action_enter(username, selected)
        } else if key == Key::Esc {
            (None, RequestView::Nothing)
        } else {
            stay
        },
        PopupView::SshKeyPaste { username, value } => match key {
            Key::Char(c) => (Some(PopupView::SshKeyPaste { username, value: value.push(c) }), RequestView::Nothing),
            Key::Backspace => (
                Some(PopupView::SshKeyPaste { username, value: backspaced(value) }),
                RequestView::Nothing,
            ),
            Key::Enter => if value.len() > 0 {
                (None, RequestView::PasteKey { username, key: value })
            } else {
                stay
            },
            Key::Esc => back_to_actions(username),
            _ => stay,
        },
        PopupView::SshKeyOverwrite { username, selected } => if is_up(key) {
            (Some(PopupView::SshKeyOverwrite { username, selected: 0 }), RequestView::Nothing)
        } else if is_down(key) {
            (Some(PopupView::SshKeyOverwrite { username, selected: 1 }), RequestView::Nothing)
        } else if key == Key::Enter {
            if selected == 0 {
                (None, RequestView::ReplaceKey { username })
            } else {
                back_to_actions(username)
            }
        } else if key == Key::Esc {
            back_to_actions(username)
        } else {
            stay
        },
        PopupView::CreateUserUsername { value } => match key {
            Key::Char(c) => if username_char(c) && byte_len(value) < 32 {
                (Some(PopupView::CreateUserUsername { value: value.push(c) }), RequestView::Nothing)
            } else {
                stay
            },
            Key::Backspace => (
                Some(PopupView::CreateUserUsername { value: backspaced(value) }),
                RequestView::Nothing,
            ),
            Key::Enter => if value.len() > 0 {
                (Some(PopupView::CreateUserLockPw { username: value, lock: true }), RequestView::Nothing)
            } else {
                stay
            },
            Key::Esc => (None, RequestView::Nothing),
            _ => stay,
        },
        PopupView::CreateUserLockPw { username, lock } => if is_up(key) {
            (Some(PopupView::CreateUserLockPw { username, lock: true }), RequestView::Nothing)
        } else if is_down(key) {
            (Some(PopupView::CreateUserLockPw { username, lock: false }), RequestView::Nothing)
        } else if key == Key::Enter {
            (None, RequestView::CreateUser { username, lock_password: lock })
        } else if key == Key::Esc {
            (Some(PopupView::CreateUserUsername { value: username }), RequestView::Nothing)
        } else {
            stay
        },
        PopupView::SshPortInput { value } => match key {
            Key::Char(c) => if '0' <= c <= '9' && byte_len(value) < 5 {
                (Some(PopupView::SshPortInput { value: value.push(c) }), RequestView::Nothing)
            } else {
                stay
            },
            Key::Backspace => (Some(PopupView::SshPortInput { value: backspaced(value) }), RequestView::Nothing),
            Key::Enter => if value.len() > 0 {
                match parse_unsigned(value, 65535) {
                    Some(port) => if port > 0 {
                        (None, RequestView::ChangePort { port: port as u16 })
                    } else {
                        stay
                    },
                    None => stay,
                }
            } else {
                stay
            },
            Key::Esc => (None, RequestView::Nothing),
            _ => stay,
        },
    }
}

/// No dialog asks to move SSH to port 0, and Esc never asks for a host operation.
pub proof fn law_dialogs_are_safe(p: PopupView, key: Key)
    ensures
        popup_next(p, key).1 matches RequestView::ChangePort { port } ==> port > 0,
        key == Key::Esc ==> popup_next(p, key).1 == RequestView::Nothing,
{
}

/// Every dialog the interface can hold is well-formed: the dialogs opened for a
/// step are, and a key press on a well-formed dialog leaves a well-formed one.
pub proof fn law_dialogs_stay_well_formed(kind: StepKind, users: Seq<Seq<char>>, p: PopupView, key: Key)
    ensures
        step_popup(kind, users) matches Some(q) ==> popup_wf(q),
        popup_wf(p) ==> (popup_next(p, key).0 matches Some(q) ==> popup_wf(q)),
{
}

/// `s` with its last character removed, if it has one.
fn pop_last(s: &String) -> (r: String)
    ensures
        r@ == backspaced(s@),
{
    let mut v = chars_of(s.as_str());
    v.pop();
    proof {
        if s@.len() > 0 {
            assert(v@ =~= s@.drop_last());
        }
    }
    string_of(&v)
}

/// `s` with `c` appended.
fn pushed(s: String, c: char) -> (r: String)
    ensures
        r@ == s@.push(c),
{
    let mut s = s;
    s.push(c);
    s
}

fn stay(p: Popup) -> (r: (Option<Popup>, PopupRequest))
    ensures
        popup_opt_view(r.0) == Some(p@),
        r.1@ == RequestView::Nothing,
{
    (Some(p), PopupRequest::Nothing)
}

fn to_actions(username: String) -> (r: (Option<Popup>, PopupRequest))
    ensures
        popup_opt_view(r.0) == Some(PopupView::SshKeyAction { username: username@, selected: 0 }),
        r.1@ == RequestView::Nothing,
{
    (Some(Popup::SshKeyAction { username, selected: 0 }), PopupRequest::Nothing)
}

fn is_up_key(key: Key) -> (r: bool)
    ensures
        r == is_up(key),
{
    key == Key::Up || key == Key::Char('k')
}

fn is_down_key(key: Key) -> (r: bool)
    ensures
        r == is_down(key),
{
    key == Key::Down || key == Key::Char('j')
}

fn up(selected: usize) -> (r: usize)
    ensures
        r as nat == sel_up(selected as nat),
{
    if selected == 0 {
        0
    } else {
        selected - 1
    }
}

fn down(selected: usize, last: usize) -> (r: usize)
    ensures
        r as nat == sel_down(selected as nat, last as nat),
{
    if selected < last {
        selected + 1
    } else {
        last
    }
}

/// Whether the dialog satisfies `popup_wf` (a user choice points at an entry).
pub fn popup_ok(p: &Popup) -> (r: bool)
    ensures
        r == popup_wf(p@),
{
    match p {
        Popup::SshKeyUserSelect { users, selected } => *selected < users.len(),
        _ => true,
    }
}

/// Handles a key press in an open dialog.
pub fn popup_key(p: Popup, key: Key) -> (r: (Option<Popup>, PopupRequest))
    requires
        popup_wf(p@),
    ensures
        (popup_opt_view(r.0), r.1@) == popup_next(p@, key),
        r.0 matches Some(q) ==> popup_wf(q@),
{
    match p {
        Popup::SshKeyUsername { value } => match key {
            Key::Char(c) => (Some(Popup::SshKeyUsername { value: pushed(value, c) }), PopupRequest::Nothing),
            Key::Backspace => (Some(Popup::SshKeyUsername { value: pop_last(&value) }), PopupRequest::Nothing),
            Key::Enter => {
                if value.as_str().is_empty() {
                    stay(Popup::SshKeyUsername { value })
                } else {
                    to_actions(value)
                }
            },
            Key::Esc => (None, PopupRequest::Nothing),
            _ => stay(Popup::SshKeyUsername { value }),
        },
        Popup::SshKeyUserSelect { users, selected } => {
            if is_up_key(key) {
                (Some(Popup::SshKeyUserSelect { users, selected: up(selected) }), PopupRequest::Nothing)
            } else if is_down_key(key) {
                let last = users.len() - 1;
                let s = down(selected, last);
                (Some(Popup::SshKeyUserSelect { users, selected: s }), PopupRequest::Nothing)
            } else if key == Key::Enter {
                let username = users[selected].clone();
                to_actions(username)
            } else if key == Key::Esc {
                (None, PopupRequest::Nothing)
            } else {
                stay(Popup::SshKeyUserSelect { users, selected })
            }
        },
        Popup::SshKeyAction { username, selected } => {
            if is_up_key(key) {
                (Some(Popup::SshKeyAction { username, selected: up(selected) }), PopupRequest::Nothing)
            } else if is_down_key(key) {
                (Some(Popup::SshKeyAction { username, selected: down(selected, 2) }), PopupRequest::Nothing)
            } else if key == Key::Enter {
                if selected == 0 {
                    (None, PopupRequest::CheckExistingKey { username })
                } else if selected == 1 {
                    (Some(Popup::SshKeyPaste { username, value: String::new() }), PopupRequest::Nothing)
                } else {
                    (None, PopupRequest::Nothing)
                }
            } else if key == Key::Esc {
                (None, PopupRequest::Nothing)
            } else {
                stay(Popup::SshKeyAction { username, selected })
            }
        },
        Popup::SshKeyPaste { username, value } => match key {
            Key::Char(c) => (Some(Popup::SshKeyPaste { username, value: pushed(value, c) }), PopupRequest::Nothing),
            Key::Backspace => {
                let v = pop_last(&value);
                (Some(Popup::SshKeyPaste { username, value: v }), PopupRequest::Nothing)
            },
            Key::Enter => {
                if value.as_str().is_empty() {
                    stay(Popup::SshKeyPaste { username, value })
                } else {
                    (None, PopupRequest::PasteKey { username, key: value })
                }
            },
            Key::Esc => to_actions(username),
            _ => stay(Popup::SshKeyPaste { username, value }),
        },
        Popup::SshKeyOverwrite { username, selected } => {
            if is_up_key(key) {
                (Some(Popup::SshKeyOverwrite { username, selected: 0 }), PopupRequest::Nothing)
            } else if is_down_key(key) {
                (Some(Popup::SshKeyOverwrite { username, selected: 1 }), PopupRequest::Nothing)
            } else if key == Key::Enter {
                if selected == 0 {
                    (None, PopupRequest::ReplaceKey { username })
                } else {
                    to_actions(username)
                }
            } else if key == Key::Esc {
                to_actions(username)
            } else {
                stay(Popup::SshKeyOverwrite { username, selected })
            }
        },
        Popup::CreateUserUsername { value } => match key {
            Key::Char(c) => {
                if accept_username_char(c, value.as_str().len()) {
                    (Some(Popup::CreateUserUsername { value: pushed(value, c) }), PopupRequest::Nothing)
                } else {
                    stay(Popup::CreateUserUsername { value })
                }
            },
            Key::Backspace => {
                (Some(Popup::CreateUserUsername { value: pop_last(&value) }), PopupRequest::Nothing)
            },
            Key::Enter => {
                if value.as_str().is_empty() {
                    stay(Popup::CreateUserUsername { value })
                } else {
                    (Some(Popup::CreateUserLockPw { username: value, lock: true }), PopupRequest::Nothing)
                }
            },
            Key::Esc => (None, PopupRequest::Nothing),
            _ => stay(Popup::CreateUserUsername { value }),
        },
        Popup::CreateUserLockPw { username, lock } => {
            if is_up_key(key) {
                (Some(Popup::CreateUserLockPw { username, lock: true }), PopupRequest::Nothing)
            } else if is_down_key(key) {
                (Some(Popup::CreateUserLockPw { username, lock: false }), PopupRequest::Nothing)
            } else if key == Key::Enter {
                (None, PopupRequest::CreateUser { username, lock_password: lock })
            } else if key == Key::Esc {
                (Some(Popup::CreateUserUsername { value: username }), PopupRequest::Nothing)
            } else {
                stay(Popup::CreateUserLockPw { username, lock })
            }
        },
        Popup::SshPortInput { value } => match key {
            Key::Char(c) => {
                if accept_port_char(c, value.as_str().len()) {
                    (Some(Popup::SshPortInput { value: pushed(value, c) }), PopupRequest::Nothing)
                } else {
                    stay(Popup::SshPortInput { value })
                }
            },
            Key::Backspace => (Some(Popup::SshPortInput { value: pop_last(&value) }), PopupRequest::Nothing),
            Key::Enter => {
                if value.as_str().is_empty() {
                    return stay(Popup::SshPortInput { value });
                }
                let digits = chars_of(value.as_str());
                match parse_unsigned_vec(&digits, 65535) {
                    Some(port) => {
                        if port > 0 {
                            (None, PopupRequest::ChangePort { port: port as u16 })
                        } else {
                            stay(Popup::SshPortInput { value })
                        }
                    },
                    None => stay(Popup::SshPortInput { value }),
                }
            },
            Key::Esc => (None, PopupRequest::Nothing),
            _ => stay(Popup::SshPortInput { value }),
        },
    }
}

/// After `CheckExistingKey`: a user who already has a key pair is asked whether
/// to replace it; otherwise a new pair is generated at once.
pub fn after_key_check(username: String, key_exists: bool) -> (r: (Option<Popup>, PopupRequest))
    ensures
        key_exists ==> popup_opt_view(r.0) == Some(PopupView::SshKeyOverwrite { username: username@, selected: 0 }),
        key_exists ==> r.1@ == RequestView::Nothing,
        !key_exists ==> r.0 is None,
        !key_exists ==> r.1@ == (RequestView::GenerateKey { username: username@ }),
        r.0 matches Some(q) ==> popup_wf(q@),
{
    if key_exists {
        (Some(Popup::SshKeyOverwrite { username, selected: 0 }), PopupRequest::Nothing)
    } else {
        (None, PopupRequest::GenerateKey { username })
    }
}

/// The users without `root`, in order.
pub open spec fn without_root(users: Seq<Seq<char>>) -> Seq<Seq<char>>
    decreases users.len(),
{
    if users.len() == 0 {
        seq![]
    } else if users.last() == "root"@ {
        without_root(users.drop_last())
    } else {
        without_root(users.drop_last()).push(users.last())
    }
}

/// The users offered by the key dialog: `root` first, then the others in order.
pub fn key_user_choices(users: &Vec<String>) -> (r: Vec<String>)
    ensures
        strings_view(r@) == seq!["root"@] + without_root(strings_view(users@)),
{
    let mut out: Vec<String> = Vec::new();
    out.push("root".to_owned());
    let mut i: usize = 0;
    while i < users.len()
        invariant
            i <= users.len(),
            strings_view(out@) == seq!["root"@] + without_root(strings_view(users@).take(i as int)),
        decreases users.len() - i,
    {
        let ghost before = out@;
        assert(strings_view(users@).take(i + 1).drop_last() =~= strings_view(users@).take(i as int));
        if !str_eq(users[i].as_str(), "root") {
            out.push(users[i].clone());
            assert(strings_view(out@) =~= strings_view(before).push(users@[i as int]@));
        }
        i = i + 1;
    }
    assert(strings_view(users@).take(users.len() as int) =~= strings_view(users@));
    out
}

/// The dialog opened when a single step is started from the list: user creation
/// and port change ask for their input; the key step asks for the user name when
/// there are no sudo users and otherwise offers `root` and the sudo users. The
/// other steps open none.
pub open spec fn step_popup(kind: StepKind, sudo_users: Seq<Seq<char>>) -> Option<PopupView> {
    match kind {
        StepKind::UserCreation => Some(PopupView::CreateUserUsername { value: seq![] }),
        StepKind::SshKeySetup => if sudo_users.len() == 0 {
            Some(PopupView::SshKeyUsername { value: seq![] })
        } else {
            Some(PopupView::SshKeyUserSelect { users: seq!["root"@] + without_root(sudo_users), selected: 0 })
        },
        StepKind::SshPortChange => Some(PopupView::SshPortInput { value: seq![] }),
        _ => None,
    }
}

pub fn popup_for_step(kind: StepKind, sudo_users: &Vec<String>) -> (r: Option<Popup>)
    ensures
        popup_opt_view(r) == step_popup(kind, strings_view(sudo_users@)),
        r matches Some(q) ==> popup_wf(q@),
{
    match kind {
        StepKind::UserCreation => Some(Popup::CreateUserUsername { value: String::new() }),
        StepKind::SshKeySetup => {
            if sudo_users.len() == 0 {
                Some(Popup::SshKeyUsername { value: String::new() })
            } else {
                let users = key_user_choices(sudo_users);
                Some(Popup::SshKeyUserSelect { users, selected: 0 })
            }
        },
        StepKind::SshPortChange => Some(Popup::SshPortInput { value: String::new() }),
        _ => None,
    }
}

/// What a key does in the step list.
#[derive(Debug, Clone, Copy, PartialEq, Eq, Structural)]
pub enum ListCommand {
    CursorUp,
    CursorDown,
    /// Tick or untick the step under the cursor
    Toggle,
    /// Run the ticked steps
    RunTicked,
    /// Run the step under the cursor
    RunCurrent,
    /// Audit the host again
    Reaudit,
    Quit,
    Ignore,
}

/// The step-list keys: arrows or `k`/`j` move, space ticks, Enter runs the ticked
/// steps, `e` the current one, `r` audits again, `q` quits.
pub open spec fn list_command_of(key: Key) -> ListCommand {
    if is_up(key) {
        ListCommand::CursorUp
    } else if is_down(key) {
        ListCommand::CursorDown
    } else if key == Key::Char(' ') {
        ListCommand::Toggle
    } else if key == Key::Enter {
        ListCommand::RunTicked
    } else if key == Key::Char('e') {
        ListCommand::RunCurrent
    } else if key == Key::Char('r') {
        ListCommand::Reaudit
    } else if key == Key::Char('q') {
        ListCommand::Quit
    } else {
        ListCommand::Ignore
    }
}

pub fn list_command(key: Key) -> (r: ListCommand)
    ensures
        r == list_command_of(key),
{
    if is_up_key(key) {
        ListCommand::CursorUp
    } else if is_down_key(key) {
        ListCommand::CursorDown
    } else if key == Key::Char(' ') {
        ListCommand::Toggle
    } else if key == Key::Enter {
        ListCommand::RunTicked
    } else if key == Key::Char('e') {
        ListCommand::RunCurrent
    } else if key == Key::Char('r') {
        ListCommand::Reaudit
    } else if key == Key::Char('q') {
        ListCommand::Quit
    } else {
        ListCommand::Ignore
    }
}

// ---------------------------------------------------------------------------
// What a dialog shows
// ---------------------------------------------------------------------------

/// The frame of a dialog: title, height in rows and key hint.
pub struct PopupFrame {
    pub title: &'static str,
    pub height: u16,
    pub hint: &'static str,
}

pub open spec fn frame_title(p: PopupView) -> Seq<char> {
    match p {
        PopupView::SshKeyUsername { .. } => " 目标用户名 "@,
        PopupView::SshKeyUserSelect { .. } => " 选择用户 "@,
        PopupView::SshKeyAction { .. } => " 选择操作 "@,
        PopupView::SshKeyPaste { .. } => " 粘贴公钥 "@,
        PopupView::SshKeyOverwrite { .. } => " 密钥已存在 "@,
        PopupView::CreateUserUsername { .. } => " 新用户名 "@,
        PopupView::CreateUserLockPw { .. } => " 锁定密码 "@,
        PopupView::SshPortInput { .. } => " 新 SSH 端口 "@,
    }
}

/// Text inputs take five rows, choices seven, the user list one row per user
/// plus two, between five and twelve.
pub open spec fn frame_height(p: PopupView) -> int {
    match p {
        PopupView::SshKeyUserSelect { users, .. } => if users.len() + 2 < 5 {
            5
        } else if users.len() + 2 > 12 {
            12
        } else {
            users.len() + 2 as int
        },
        PopupView::SshKeyAction { .. } => 7,
        PopupView::SshKeyOverwrite { .. } => 7,
        PopupView::CreateUserLockPw { .. } => 7,
        _ => 5,
    }
}

pub open spec fn frame_hint(p: PopupView) -> Seq<char> {
    match p {
        PopupView::SshKeyUsername { .. } => " Enter 确认  Esc 取消 "@,
        PopupView::CreateUserUsername { .. } => " Enter 确认  Esc 取消 "@,
        PopupView::SshPortInput { .. } => " Enter 确认  Esc 取消 "@,
        PopupView::SshKeyPaste { .. } => " Enter 确认  Esc 返回 "@,
        PopupView::SshKeyUserSelect { .. } => " ↑↓ 选择  Enter 确认  Esc 取消 "@,
        PopupView::SshKeyAction { .. } => " ↑↓ 选择  Enter 确认  Esc 取消 "@,
        PopupView::SshKeyOverwrite { .. } => " ↑↓ 选择  Enter 确认  Esc 返回 "@,
        PopupView::CreateUserLockPw { .. } => " ↑↓ 选择  Enter 确认  Esc 返回 "@,
    }
}

pub fn popup_frame(p: &Popup) -> (r: PopupFrame)
    ensures
        r.title@ == frame_title(p@),
        r.height as int == frame_height(p@),
        r.hint@ == frame_hint(p@),
{
    let enter_cancel = " Enter 确认  Esc 取消 ";
    let enter_back = " Enter 确认  Esc 返回 ";
    let choose_cancel = " ↑↓ 选择  Enter 确认  Esc 取消 ";
    let choose_back = " ↑↓ 选择  Enter 确认  Esc 返回 ";
    match p {
        Popup::SshKeyUsername { .. } => PopupFrame { title: " 目标用户名 ", height: 5, hint: enter_cancel },
        Popup::SshKeyUserSelect { users, .. } => {
            let height: u16 = if users.len() < 3 {
                5
            } else if users.len() > 10 {
                12
            } else {
                (users.len() + 2) as u16
            };
            PopupFrame { title: " 选择用户 ", height, hint: choose_cancel }
        },
        Popup::SshKeyAction { .. } => PopupFrame { title: " 选择操作 ", height: 7, hint: choose_cancel },
        Popup::SshKeyPaste { .. } => PopupFrame { title: " 粘贴公钥 ", height: 5, hint: enter_back },
        Popup::SshKeyOverwrite { .. } => PopupFrame { title: " 密钥已存在 ", height: 7, hint: choose_back },
        Popup::CreateUserUsername { .. } => PopupFrame { title: " 新用户名 ", height: 5, hint: enter_cancel },
        Popup::CreateUserLockPw { .. } => PopupFrame { title: " 锁定密码 ", height: 7, hint: choose_back },
        Popup::SshPortInput { .. } => PopupFrame { title: " 新 SSH 端口 ", height: 5, hint: enter_cancel },
    }
}

/// The options a choice dialog lists, and which one is highlighted; dialogs
/// without fixed options give none.
pub open spec fn choices_of(p: PopupView) -> Option<(Seq<Seq<char>>, nat)> {
    match p {
        PopupView::SshKeyAction { selected, .. } => Some((seq!["生成新密钥对"@, "粘贴已有公钥"@, "跳过"@], selected)),
        PopupView::SshKeyOverwrite { selected, .. } => Some((seq!["重新创建 (覆盖现有密钥)"@, "取消"@], selected)),
        PopupView::CreateUserLockPw { lock, .. } => Some(
            (
                seq!["是 (锁定密码, 强制密钥登录)"@, "否 (不锁定密码)"@],
                if lock {
                    0
                } else {
                    1
                },
            ),
        ),
        _ => None,
    }
}

pub fn popup_choices(p: &Popup) -> (r: Option<(Vec<&'static str>, usize)>)
    ensures
        match r {
            Some((opts, i)) => choices_of(p@) == Some((opts@.map_values(|s: &'static str| s@), i as nat)),
            None => choices_of(p@) is None,
        },
{
    let r = match p {
        Popup::SshKeyAction { selected, .. } => Some((vec!["生成新密钥对", "粘贴已有公钥", "跳过"], *selected)),
        Popup::SshKeyOverwrite { selected, .. } => Some((vec!["重新创建 (覆盖现有密钥)", "取消"], *selected)),
        Popup::CreateUserLockPw { lock, .. } => Some(
            (vec!["是 (锁定密码, 强制密钥登录)", "否 (不锁定密码)"], if *lock { 0 } else { 1 }),
        ),
        _ => None,
    };
    proof {
        if let Some((ref opts, _)) = r {
            let (names, _) = choices_of(p@)->0;
            assert(opts@.map_values(|s: &'static str| s@) =~= names);
        }
    }
    r
}

// ---------------------------------------------------------------------------
// The step a finished dialog runs
// ---------------------------------------------------------------------------

/// A key action as plain values.
pub enum KeyActionView {
    GenerateNew,
    PasteKey(Seq<char>),
}

/// Step inputs as plain values.
pub struct ParamsView {
    pub new_username: Option<Seq<char>>,
    pub lock_password: bool,
    pub new_ssh_port: Option<u16>,
    pub ssh_key_username: Option<Seq<char>>,
    pub ssh_key_action: Option<KeyActionView>,
}

pub open spec fn opt_text(o: Option<String>) -> Option<Seq<char>> {
    match o {
        Some(s) => Some(s@),
        None => None,
    }
}

pub open spec fn params_view(p: ExecuteParams) -> ParamsView {
    ParamsView {
        new_username: opt_text(p.new_username),
        lock_password: p.lock_password,
        new_ssh_port: p.new_ssh_port,
        ssh_key_username: opt_text(p.ssh_key_username),
        ssh_key_action: match p.ssh_key_action {
            Some(SshKeyAction::GenerateNew) => Some(KeyActionView::GenerateNew),
            Some(SshKeyAction::PasteKey(k)) => Some(KeyActionView::PasteKey(k@)),
            None => None,
        },
    }
}

/// Nothing set but the key step's user and action.
pub open spec fn key_run(user: Seq<char>, action: KeyActionView) -> ParamsView {
    ParamsView {
        new_username: None,
        lock_password: false,
        new_ssh_port: None,
        ssh_key_username: Some(user),
        ssh_key_action: Some(action),
    }
}

/// The step a dialog's request runs, and its inputs: the key requests run the
/// key step for their user (replacing generates a new pair, once the caller has
/// deleted the old one); creating a user runs user creation, with a key pair to
/// be generated for the new user; a port runs the port change. `Nothing` and
/// `CheckExistingKey` run no step.
pub open spec fn request_run(r: RequestView) -> Option<(StepKind, ParamsView)> {
    match r {
        RequestView::GenerateKey { username } => Some(
            (StepKind::SshKeySetup, key_run(username, KeyActionView::GenerateNew)),
        ),
        RequestView::ReplaceKey { username } => Some(
            (StepKind::SshKeySetup, key_run(username, KeyActionView::GenerateNew)),
        ),
        RequestView::PasteKey { username, key } => Some(
            (StepKind::SshKeySetup, key_run(username, KeyActionView::PasteKey(key))),
        ),
        RequestView::CreateUser { username, lock_password } => Some(
            (
                StepKind::UserCreation,
                ParamsView {
                    new_username: Some(username),
                    lock_password,
                    new_ssh_port: None,
                    ssh_key_username: Some(username),
                    ssh_key_action: Some(KeyActionView::GenerateNew),
                },
            ),
        ),
        RequestView::ChangePort { port } => Some(
            (
                StepKind::SshPortChange,
                ParamsView {
                    new_username: None,
                    lock_password: false,
                    new_ssh_port: Some(port),
                    ssh_key_username: None,
                    ssh_key_action: None,
                },
            ),
        ),
        _ => None,
    }
}

fn key_params(username: String, action: SshKeyAction) -> (r: ExecuteParams)
    ensures
        r.new_username is None,
        !r.lock_password,
        r.new_ssh_port is None,
        r.ssh_key_username == Some(username),
        r.ssh_key_action == Some(action),
{
    ExecuteParams {
        new_username: None,
        lock_password: false,
        new_ssh_port: None,
        ssh_key_username: Some(username),
        ssh_key_action: Some(action),
    }
}

pub fn step_for_request(req: PopupRequest) -> (r: Option<(StepKind, ExecuteParams)>)
    ensures
        match r {
            Some((k, p)) => request_run(req@) == Some((k, params_view(p))),
            None => request_run(req@) is None,
        },
{
    match req {
        PopupRequest::GenerateKey { username } => Some(
            (StepKind::SshKeySetup, key_params(username, SshKeyAction::GenerateNew)),
        ),
        PopupRequest::ReplaceKey { username } => Some(
            (StepKind::SshKeySetup, key_params(username, SshKeyAction::GenerateNew)),
        ),
        PopupRequest::PasteKey { username, key } => Some(
            (StepKind::SshKeySetup, key_params(username, SshKeyAction::PasteKey(key))),
        ),
        PopupRequest::CreateUser { username, lock_password } => {
            let key_user = username.clone();
            Some(
                (
                    StepKind::UserCreation,
                    ExecuteParams {
                        new_username: Some(username),
                        lock_password,
                        new_ssh_port: None,
                        ssh_key_username: Some(key_user),
                        ssh_key_action: Some(SshKeyAction::GenerateNew),
                    },
                ),
            )
        },
        PopupRequest::ChangePort { port } => Some(
            (
                StepKind::SshPortChange,
                ExecuteParams {
                    new_username: None,
                    lock_password: false,
                    new_ssh_port: Some(port),
                    ssh_key_username: None,
                    ssh_key_action: None,
                },
            ),
        ),
        _ => None,
    }
}

} // verus!
