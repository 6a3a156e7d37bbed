use u2secure::domain::steps::{SshKeyAction, StepKind};
use u2secure::presentation::popup::{
    after_key_check, key_user_choices, list_command, popup_for_step, popup_key, popup_ok, step_for_request, Key,
    ListCommand, Popup, PopupRequest,
};

fn press_all(mut p: Popup, keys: &[Key]) -> (Option<Popup>, PopupRequest) {
    let mut last = PopupRequest::Nothing;
    for (i, k) in keys.iter().enumerate() {
        let (next, req) = popup_key(p, *k);
        last = req;
        match next {
            Some(q) => p = q,
            None => {
                assert_eq!(i, keys.len() - 1, "dialog closed early");
                return (None, last);
            }
        }
    }
    (Some(p), last)
}

fn typed(s: &str) -> Vec<Key> {
    s.chars().map(Key::Char).collect()
}

#[test]
fn test_create_user_dialog_flow() {
    let start = Popup::CreateUserUsername { value: String::new() };
    let mut keys = typed("de!v-1");
    keys.push(Key::Backspace);
    keys.push(Key::Enter);
    let (p, req) = press_all(start, &keys);
    assert!(matches!(req, PopupRequest::Nothing));
    match p {
        Some(Popup::CreateUserLockPw { ref username, lock }) => {
            assert_eq!(username, "dev-");
            assert!(lock);
        }
        other => panic!("unexpected {other:?}"),
    }
    let (p, req) = press_all(p.unwrap(), &[Key::Down, Key::Enter]);
    assert!(p.is_none());
    match req {
        PopupRequest::CreateUser { username, lock_password } => {
            assert_eq!(username, "dev-");
            assert!(!lock_password);
        }
        other => panic!("unexpected {other:?}"),
    }
}

#[test]
fn test_create_user_name_is_capped_at_32_bytes() {
    let start = Popup::CreateUserUsername { value: "a".repeat(31) };
    let (p, _) = press_all(start, &typed("bc"));
    match p {
        Some(Popup::CreateUserUsername { value }) => assert_eq!(value, format!("{}b", "a".repeat(31))),
        other => panic!("unexpected {other:?}"),
    }
}

#[test]
fn test_create_user_empty_enter_stays_and_esc_closes() {
    let (p, req) = press_all(Popup::CreateUserUsername { value: String::new() }, &[Key::Enter]);
    assert!(matches!(p, Some(Popup::CreateUserUsername { ref value }) if value.is_empty()));
    assert!(matches!(req, PopupRequest::Nothing));
    let (p, req) = press_all(Popup::CreateUserUsername { value: "x".into() }, &[Key::Esc]);
    assert!(p.is_none());
    assert!(matches!(req, PopupRequest::Nothing));
}

#[test]
fn test_port_dialog_accepts_digits_only() {
    let mut keys = typed("8a0-80");
    keys.push(Key::Enter);
    let (p, req) = press_all(Popup::SshPortInput { value: String::new() }, &keys);
    assert!(p.is_none());
    assert!(matches!(req, PopupRequest::ChangePort { port: 8080 }));
}

#[test]
fn test_port_dialog_rejects_zero_and_overflow() {
    let (p, req) = press_all(Popup::SshPortInput { value: "0".into() }, &[Key::Enter]);
    assert!(matches!(p, Some(Popup::SshPortInput { ref value }) if value == "0"));
    assert!(matches!(req, PopupRequest::Nothing));
    let mut keys = typed("999999");
    keys.push(Key::Enter);
    let (p, req) = press_all(Popup::SshPortInput { value: String::new() }, &keys);
    assert!(matches!(p, Some(Popup::SshPortInput { ref value }) if value == "99999"));
    assert!(matches!(req, PopupRequest::Nothing));
}

#[test]
fn test_key_user_choices_put_root_first_once() {
    let users = vec!["alice".to_string(), "root".to_string(), "bob".to_string()];
    assert_eq!(key_user_choices(&users), vec!["root", "alice", "bob"]);
    assert_eq!(key_user_choices(&vec![]), vec!["root"]);
}

#[test]
fn test_key_dialog_select_generate() {
    let p = popup_for_step(StepKind::SshKeySetup, &vec!["alice".to_string()]).unwrap();
    let (p, req) = press_all(p, &[Key::Down, Key::Down, Key::Enter]);
    assert!(matches!(req, PopupRequest::Nothing));
    match &p {
        Some(Popup::SshKeyAction { username, selected: 0 }) => assert_eq!(username, "alice"),
        other => panic!("unexpected {other:?}"),
    }
    let (p, req) = press_all(p.unwrap(), &[Key::Enter]);
    assert!(p.is_none());
    match req {
        PopupRequest::CheckExistingKey { username } => {
            assert_eq!(username, "alice");
            let (p, req) = after_key_check(username.clone(), false);
            assert!(p.is_none());
            assert!(matches!(req, PopupRequest::GenerateKey { ref username } if username == "alice"));
            let (p, req) = after_key_check(username, true);
            assert!(matches!(p, Some(Popup::SshKeyOverwrite { selected: 0, .. })));
            assert!(matches!(req, PopupRequest::Nothing));
        }
        other => panic!("unexpected {other:?}"),
    }
}

#[test]
fn test_key_dialog_paste_and_back() {
    let start = Popup::SshKeyAction { username: "bob".into(), selected: 0 };
    let mut keys = vec![Key::Char('j'), Key::Enter];
    keys.extend(typed("ssh-ed25519 AAAA"));
    keys.push(Key::Enter);
    let (p, req) = press_all(start, &keys);
    assert!(p.is_none());
    match req {
        PopupRequest::PasteKey { username, key } => {
            assert_eq!(username, "bob");
            assert_eq!(key, "ssh-ed25519 AAAA");
        }
        other => panic!("unexpected {other:?}"),
    }
    let (p, _) = press_all(Popup::SshKeyPaste { username: "bob".into(), value: "x".into() }, &[Key::Esc]);
    assert!(matches!(p, Some(Popup::SshKeyAction { selected: 0, .. })));
}

#[test]
fn test_key_overwrite_dialog() {
    let (p, req) = press_all(Popup::SshKeyOverwrite { username: "bob".into(), selected: 0 }, &[Key::Enter]);
    assert!(p.is_none());
    assert!(matches!(req, PopupRequest::ReplaceKey { ref username } if username == "bob"));
    let (p, req) = press_all(Popup::SshKeyOverwrite { username: "bob".into(), selected: 0 }, &[Key::Down, Key::Enter]);
    assert!(matches!(p, Some(Popup::SshKeyAction { selected: 0, .. })));
    assert!(matches!(req, PopupRequest::Nothing));
}

#[test]
fn test_popup_for_steps() {
    assert!(matches!(
        popup_for_step(StepKind::SshKeySetup, &vec![]),
        Some(Popup::SshKeyUsername { ref value }) if value.is_empty()
    ));
    assert!(matches!(popup_for_step(StepKind::SshPortChange, &vec![]), Some(Popup::SshPortInput { .. })));
    assert!(matches!(popup_for_step(StepKind::UserCreation, &vec![]), Some(Popup::CreateUserUsername { .. })));
    assert!(popup_for_step(StepKind::Ufw, &vec![]).is_none());
}

#[test]
fn test_list_commands() {
    assert_eq!(list_command(Key::Char('k')), ListCommand::CursorUp);
    assert_eq!(list_command(Key::Down), ListCommand::CursorDown);
    assert_eq!(list_command(Key::Char(' ')), ListCommand::Toggle);
    assert_eq!(list_command(Key::Enter), ListCommand::RunTicked);
    assert_eq!(list_command(Key::Char('e')), ListCommand::RunCurrent);
    assert_eq!(list_command(Key::Char('r')), ListCommand::Reaudit);
    assert_eq!(list_command(Key::Char('q')), ListCommand::Quit);
    assert_eq!(list_command(Key::Char('x')), ListCommand::Ignore);
}

#[test]
fn test_step_for_request() {
    use_step_for_request();
}

fn use_step_for_request() {
    let (k, p) = step_for_request(PopupRequest::CreateUser { username: "ops".into(), lock_password: false }).unwrap();
    assert_eq!(k, StepKind::UserCreation);
    assert_eq!(p.new_username.as_deref(), Some("ops"));
    assert!(!p.lock_password);
    assert_eq!(p.ssh_key_username.as_deref(), Some("ops"));
    assert!(matches!(p.ssh_key_action, Some(SshKeyAction::GenerateNew)));
    let (k, p) = step_for_request(PopupRequest::ChangePort { port: 2200 }).unwrap();
    assert_eq!(k, StepKind::SshPortChange);
    assert_eq!(p.new_ssh_port, Some(2200));
    let (k, p) = step_for_request(PopupRequest::PasteKey { username: "bob".into(), key: "ssh-rsa X".into() }).unwrap();
    assert_eq!(k, StepKind::SshKeySetup);
    assert!(matches!(p.ssh_key_action, Some(SshKeyAction::PasteKey(ref key)) if key == "ssh-rsa X"));
    let (_, p) = step_for_request(PopupRequest::ReplaceKey { username: "bob".into() }).unwrap();
    assert!(matches!(p.ssh_key_action, Some(SshKeyAction::GenerateNew)));
    assert!(step_for_request(PopupRequest::Nothing).is_none());
    assert!(step_for_request(PopupRequest::CheckExistingKey { username: "bob".into() }).is_none());
    assert!(popup_ok(&Popup::SshKeyUserSelect { users: vec!["root".into()], selected: 0 }));
    assert!(!popup_ok(&Popup::SshKeyUserSelect { users: vec!["root".into()], selected: 1 }));
}
