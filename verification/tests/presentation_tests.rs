use u2secure::domain::audit::{AuditReport, PackageManager};
use u2secure::domain::errors::DomainError;
use u2secure::domain::steps::{ExecuteParams, SshKeyAction, StepKind, StepResult};
use u2secure::i18n::Lang;
use u2secure::presentation::cli::{
    accept_port_char, accept_username_char, choose_port, key_target, validate_port_input, validate_username,
    with_key_answer, with_new_user, with_port_answer, KeyTarget,
};
use u2secure::presentation::tui::{
    cursor_down, cursor_up, failed_line, finished_line, init_steps, interrupted_line, mark_step_state,
    selected_kinds, started_line, state_after, step_line, toggle_checked, StepExecState,
};

fn report() -> AuditReport {
    AuditReport {
        items: vec![],
        is_root: true,
        package_manager: PackageManager::Apt,
        ssh_port: 2222,
        password_auth_disabled: true,
        root_login_disabled: false,
        sudo_users: vec!["admin".into()],
        fail2ban_installed: false,
        ufw_enabled: true,
        auto_updates_enabled: false,
        system_up_to_date: true,
    }
}

#[test]
fn test_init_steps_ticks_unsafe_steps() {
    let items = init_steps(&report());
    assert_eq!(items.len(), 12);
    assert!(!items[0].checked);
    assert!(!items[1].checked);
    assert!(items[2].checked);
    assert!(!items[3].checked);
    assert!(items[5].checked);
    assert!(items.iter().all(|i| i.state == StepExecState::Idle));
}

#[test]
fn test_step_list_editing() {
    let mut items = init_steps(&report());
    toggle_checked(&mut items, 0);
    assert!(items[0].checked);
    toggle_checked(&mut items, 99);
    mark_step_state(&mut items, StepKind::Ufw, StepExecState::Running);
    assert_eq!(items[6].state, StepExecState::Running);
    let sel = selected_kinds(&items);
    assert_eq!(sel[0], StepKind::SystemUpdate);
    assert!(!sel.contains(&StepKind::Ufw));
    assert_eq!(cursor_up(0), 0);
    assert_eq!(cursor_up(3), 2);
    assert_eq!(cursor_down(11, 12), 11);
    assert_eq!(cursor_down(3, 12), 4);
    assert_eq!(cursor_down(0, 0), 0);
    assert_eq!(state_after(false, true), StepExecState::Failure);
    assert_eq!(state_after(true, false), StepExecState::Idle);
    assert_eq!(state_after(true, true), StepExecState::Success);
}

#[test]
fn test_username_rules() {
    assert_eq!(validate_username("", false), Err("cli_username_empty"));
    assert_eq!(validate_username("alice", true), Err("cli_username_exists"));
    assert_eq!(validate_username("bad name", false), Err("cli_username_invalid"));
    assert_eq!(validate_username("dev-ops_1", false), Ok(()));
    assert!(accept_username_char('a', 0));
    assert!(!accept_username_char('a', 32));
    assert!(!accept_username_char(' ', 0));
}

#[test]
fn test_port_rules() {
    assert_eq!(validate_port_input("0"), Ok(()));
    assert_eq!(validate_port_input("abc"), Err("cli_port_invalid"));
    assert_eq!(validate_port_input("70000"), Err("cli_port_invalid"));
    assert_eq!(validate_port_input("00"), Err("cli_port_zero"));
    assert_eq!(validate_port_input("2222"), Ok(()));
    assert_eq!(choose_port("2222", 22), Some(2222));
    assert_eq!(choose_port("22", 22), None);
    assert_eq!(choose_port("0", 22), None);
    assert!(accept_port_char('5', 4));
    assert!(!accept_port_char('5', 5));
    assert!(!accept_port_char('x', 0));
}

#[test]
fn test_answers_are_recorded_in_params() {
    let p = with_new_user(ExecuteParams::default(), "ops".to_string(), true);
    assert_eq!(p.new_username.as_deref(), Some("ops"));
    assert!(p.lock_password);
    assert_eq!(p.ssh_key_username.as_deref(), Some("ops"));
    assert!(matches!(p.ssh_key_action, Some(SshKeyAction::GenerateNew)));

    let p = with_port_answer(ExecuteParams::default(), "2222", 22);
    assert_eq!(p.new_ssh_port, Some(2222));
    let p = with_port_answer(p, "22", 22);
    assert_eq!(p.new_ssh_port, Some(2222));
    let p = with_port_answer(ExecuteParams::default(), "0", 22);
    assert_eq!(p.new_ssh_port, None);

    assert!(matches!(key_target(&vec![]), KeyTarget::AskName));
    assert!(matches!(key_target(&vec!["a".to_string()]), KeyTarget::Only(ref u) if u == "a"));
    assert!(matches!(key_target(&vec!["a".to_string(), "b".to_string()]), KeyTarget::Choose));

    let p = with_key_answer(ExecuteParams::default(), "bob".to_string(), 1, "ssh-ed25519 AAAA".to_string());
    assert_eq!(p.ssh_key_username.as_deref(), Some("bob"));
    assert!(matches!(p.ssh_key_action, Some(SshKeyAction::PasteKey(ref k)) if k == "ssh-ed25519 AAAA"));
    let p = with_key_answer(ExecuteParams::default(), "bob".to_string(), 1, String::new());
    assert!(p.ssh_key_username.is_none() && p.ssh_key_action.is_none());
    let p = with_key_answer(ExecuteParams::default(), "bob".to_string(), 2, String::new());
    assert!(p.ssh_key_action.is_none());
    let p = with_key_answer(ExecuteParams::default(), "bob".to_string(), 0, String::new());
    assert!(matches!(p.ssh_key_action, Some(SshKeyAction::GenerateNew)));
}

#[test]
fn test_step_list_line_and_log_lines() {
    let r = report();
    let mut items = init_steps(&r);
    assert_eq!(step_line(&items[3], &r), "    [ ] SSH 端口修改 ✅");
    mark_step_state(&mut items, StepKind::SshRootLogin, StepExecState::Running);
    assert_eq!(step_line(&items[2], &r), " ▶  [✓] 禁止 root SSH 登录 ❌");

    let l = started_line(StepKind::Ufw);
    assert_eq!((l.icon, l.message.as_str()), ("▶", "正在执行: UFW 防火墙配置"));
    let done = StepResult { kind: StepKind::Ufw, changes_made: true, message: "ok".into() };
    let l = finished_line(&done);
    assert_eq!((l.icon, l.message.as_str()), ("✅", "已完成: UFW 防火墙配置"));
    let skipped = StepResult { kind: StepKind::SecurityScan, changes_made: false, message: "lynis 缺失".into() };
    let l = finished_line(&skipped);
    assert_eq!((l.icon, l.message.as_str()), ("⏭", "跳过: lynis 缺失"));
    let e = DomainError::PreconditionFailed("x".into());
    let l = failed_line(StepKind::Ufw, &e, Lang::ZhCn);
    assert_eq!(l.icon, "❌");
    assert_eq!(l.message, format!("失败: {}", e.message(Lang::ZhCn)));
    let l = interrupted_line();
    assert_eq!((l.icon, l.message.as_str()), ("⚠️", "用户中断"));
}
