use u2secure::application::flows::{Act, Flow, Reply};
use u2secure::application::steps::CommandOutcome;
use u2secure::domain::audit::PackageManager;
use u2secure::domain::errors::DomainError;
use u2secure::domain::steps::{ExecuteParams, SshKeyAction, StepKind, StepResult};
use u2secure::i18n::Lang;

fn ok_run() -> Reply {
    Reply::Ran(CommandOutcome::Exited { success: true, stdout: String::new(), stderr: String::new() })
}

fn step(flow: &mut Flow, reply: Reply) -> Act {
    assert!(flow.accepts(&reply));
    flow.next(reply)
}

fn edited(kind: StepKind, msg: &str) -> Reply {
    Reply::Edited(Ok(StepResult { kind, changes_made: true, message: msg.into() }))
}

#[test]
fn test_root_login_needs_sudo_user() {
    let (mut f, a) = Flow::start(StepKind::SshRootLogin, &ExecuteParams::default(), Lang::ZhCn);
    assert!(matches!(a, Act::SudoUsers));
    match step(&mut f, Reply::SudoUsers(vec![])) {
        Act::Finish(Err(DomainError::PreconditionFailed(m))) => assert_eq!(m, "禁止 root 登录前请先创建 sudo 用户"),
        other => panic!("unexpected {other:?}"),
    }
    assert!(!f.accepts(&Reply::Done));
    let (mut f, _) = Flow::start(StepKind::SshRootLogin, &ExecuteParams::default(), Lang::ZhCn);
    match step(&mut f, Reply::SudoUsers(vec!["admin".into()])) {
        Act::EditSshd { key, value } => assert_eq!((key.as_str(), value.as_str()), ("PermitRootLogin", "prohibit-password")),
        other => panic!("unexpected {other:?}"),
    }
}

#[test]
fn test_port_change_registers_rule_removal_after_allow() {
    let params = ExecuteParams { new_ssh_port: Some(2222), ..Default::default() };
    let (mut f, a) = Flow::start(StepKind::SshPortChange, &params, Lang::ZhCn);
    assert!(matches!(a, Act::EditSshd { ref key, ref value } if key == "Port" && value == "2222"));
    assert!(matches!(step(&mut f, edited(StepKind::SshRootLogin, "edit")), Act::UfwEnabled));
    assert!(matches!(step(&mut f, Reply::Answer(true)), Act::Run(ref v) if v == &vec!["ufw", "allow", "2222"]));
    match step(&mut f, ok_run()) {
        Act::RegisterUndo { argv, .. } => assert_eq!(argv, vec!["ufw", "delete", "allow", "2222"]),
        other => panic!("unexpected {other:?}"),
    }
    match step(&mut f, Reply::Done) {
        Act::Finish(Ok(r)) => assert_eq!(r.message, "SSH 端口已修改为 2222（edit）"),
        other => panic!("unexpected {other:?}"),
    }
    // A failed allow registers nothing.
    let (mut f, _) = Flow::start(StepKind::SshPortChange, &params, Lang::ZhCn);
    step(&mut f, edited(StepKind::SshRootLogin, "edit"));
    step(&mut f, Reply::Answer(true));
    let failed = Reply::Ran(CommandOutcome::Exited { success: false, stdout: String::new(), stderr: "x".into() });
    assert!(matches!(step(&mut f, failed), Act::Finish(Ok(_))));
    let bad = ExecuteParams { new_ssh_port: Some(0), ..Default::default() };
    assert!(matches!(Flow::start(StepKind::SshPortChange, &bad, Lang::ZhCn).1, Act::Finish(Err(_))));
}

#[test]
fn test_restart_checks_syntax_then_falls_back_to_ssh_unit() {
    let (mut f, a) = Flow::start(StepKind::RestartSsh, &ExecuteParams::default(), Lang::ZhCn);
    assert!(matches!(a, Act::Run(ref v) if v == &vec!["sshd", "-t"]));
    let bad = Reply::Ran(CommandOutcome::Exited { success: false, stdout: String::new(), stderr: "line 3".into() });
    match step(&mut f, bad) {
        Act::Finish(Err(DomainError::SystemCommandFailed(m))) => assert_eq!(m, "sshd_config 语法错误，请检查配置: line 3"),
        other => panic!("unexpected {other:?}"),
    }
    let (mut f, _) = Flow::start(StepKind::RestartSsh, &ExecuteParams::default(), Lang::ZhCn);
    assert!(matches!(step(&mut f, ok_run()), Act::Run(ref v) if v == &vec!["systemctl", "restart", "sshd"]));
    let spawn = Reply::Ran(CommandOutcome::SpawnFailed("no".into()));
    assert!(matches!(step(&mut f, spawn), Act::Run(ref v) if v == &vec!["systemctl", "restart", "ssh"]));
    assert!(matches!(step(&mut f, ok_run()), Act::Run(ref v) if v == &vec!["systemctl", "is-active", "sshd"]));
    let active = Reply::Ran(CommandOutcome::Exited { success: true, stdout: "active\n".into(), stderr: String::new() });
    match step(&mut f, active) {
        Act::Finish(Ok(r)) => assert!(r.message.starts_with("SSH 服务已重启（状态: active）")),
        other => panic!("unexpected {other:?}"),
    }
}

#[test]
fn test_user_creation_sequence() {
    let params = ExecuteParams { new_username: Some("ops".into()), lock_password: true, ..Default::default() };
    let (mut f, a) = Flow::start(StepKind::UserCreation, &params, Lang::ZhCn);
    assert!(matches!(a, Act::UserExists(ref u) if u == "ops"));
    assert!(matches!(step(&mut f, Reply::Answer(false)), Act::Run(ref v) if v == &vec!["useradd", "-m", "-s", "/bin/bash", "ops"]));
    assert!(matches!(step(&mut f, ok_run()), Act::RegisterUserRemoval(ref u) if u == "ops"));
    assert!(matches!(step(&mut f, Reply::Done), Act::Run(ref v) if v == &vec!["usermod", "-aG", "sudo", "ops"]));
    assert!(matches!(step(&mut f, ok_run()), Act::Run(ref v) if v == &vec!["passwd", "-l", "ops"]));
    assert!(matches!(step(&mut f, ok_run()), Act::GenerateKey(_)));
    let act = step(&mut f, Reply::KeyPath(Ok("/home/ops/.ssh/id_ed25519.pub".into())));
    assert!(matches!(act, Act::AuthorizeKeyFile { ref public_key_path, .. } if public_key_path.ends_with(".pub")));
    match step(&mut f, Reply::Outcome(Ok(()))) {
        Act::Finish(Ok(r)) => assert!(r.message.starts_with("用户 'ops' 已创建")),
        other => panic!("unexpected {other:?}"),
    }
    let (mut f, _) = Flow::start(StepKind::UserCreation, &params, Lang::ZhCn);
    assert!(matches!(step(&mut f, Reply::Answer(true)), Act::Finish(Err(_))));
}

#[test]
fn test_ufw_and_system_update_sequences() {
    let (mut f, a) = Flow::start(StepKind::Ufw, &ExecuteParams::default(), Lang::En);
    assert!(matches!(a, Act::SshPort));
    assert!(matches!(step(&mut f, Reply::SshPort(2200)), Act::Run(_)));
    assert!(matches!(step(&mut f, ok_run()), Act::RegisterUndo { .. }));
    assert!(matches!(step(&mut f, Reply::Done), Act::UfwEnabled));
    assert!(matches!(step(&mut f, Reply::Answer(false)), Act::Run(ref v) if v == &vec!["ufw", "--force", "enable"]));
    assert!(matches!(step(&mut f, ok_run()), Act::RegisterUndo { ref argv, .. } if argv == &vec!["ufw", "disable"]));
    assert!(matches!(step(&mut f, Reply::Done), Act::Finish(Ok(ref r)) if r.message == "UFW 已启用，SSH 端口 2200 已放行"));

    let (mut f, _) = Flow::start(StepKind::SystemUpdate, &ExecuteParams::default(), Lang::ZhCn);
    assert!(matches!(step(&mut f, Reply::PackageManager(PackageManager::Apt)), Act::Run(ref v) if v == &vec!["apt", "update"]));
    assert!(matches!(step(&mut f, ok_run()), Act::Run(ref v) if v == &vec!["apt", "upgrade", "-y"]));
    assert!(matches!(step(&mut f, ok_run()), Act::Finish(Ok(_))));
}

#[test]
fn test_key_setup_sequences() {
    let params = ExecuteParams {
        ssh_key_username: Some("bob".into()),
        ssh_key_action: Some(SshKeyAction::PasteKey("ssh-ed25519 AAA".into())),
        ..Default::default()
    };
    let (mut f, a) = Flow::start(StepKind::SshKeySetup, &params, Lang::ZhCn);
    assert!(matches!(a, Act::AuthorizeKey { ref user, ref key } if user == "bob" && key == "ssh-ed25519 AAA"));
    assert!(matches!(step(&mut f, Reply::Outcome(Ok(()))), Act::Finish(Ok(ref r)) if r.message == "公钥已添加到 bob 的 authorized_keys"));
    let params = ExecuteParams { ssh_key_username: Some("bob".into()), ..Default::default() };
    assert!(matches!(Flow::start(StepKind::SshKeySetup, &params, Lang::ZhCn).1, Act::Finish(Err(_))));
}

#[test]
fn test_fail2ban_sequence_when_missing() {
    let (mut f, a) = Flow::start(StepKind::Fail2ban, &ExecuteParams::default(), Lang::ZhCn);
    assert!(matches!(a, Act::Installed(ref c) if c == "fail2ban-server"));
    assert!(matches!(step(&mut f, Reply::Answer(false)), Act::PackageManager));
    assert!(matches!(step(&mut f, Reply::PackageManager(PackageManager::Apt)), Act::Run(ref v) if v == &vec!["apt", "install", "-y", "fail2ban"]));
    assert!(matches!(step(&mut f, ok_run()), Act::RegisterPackageRemoval { ref package, .. } if package == "fail2ban"));
    assert!(matches!(step(&mut f, Reply::Done), Act::SshPort));
    assert!(matches!(step(&mut f, Reply::SshPort(2200)), Act::WriteFile { ref content, .. } if content == "[sshd]\nenabled = true\nport = 2200\n"));
    assert!(matches!(step(&mut f, Reply::Done), Act::Run(_)));
    assert!(matches!(step(&mut f, ok_run()), Act::RegisterUndo { ref argv, .. } if argv == &vec!["systemctl", "stop", "fail2ban"]));
    assert!(matches!(step(&mut f, Reply::Done), Act::Finish(Ok(_))));
    let (mut f, _) = Flow::start(StepKind::Fail2ban, &ExecuteParams::default(), Lang::ZhCn);
    step(&mut f, Reply::Answer(false));
    assert!(matches!(step(&mut f, Reply::PackageManager(PackageManager::Unknown)), Act::Finish(Err(_))));
}

#[test]
fn test_security_scan_without_lynis() {
    let (mut f, _) = Flow::start(StepKind::SecurityScan, &ExecuteParams::default(), Lang::ZhCn);
    assert!(matches!(step(&mut f, Reply::Answer(false)), Act::PackageManager));
    assert!(matches!(step(&mut f, Reply::PackageManager(PackageManager::Dnf)), Act::Run(_)));
    assert!(matches!(step(&mut f, ok_run()), Act::Installed(_)));
    assert!(matches!(step(&mut f, Reply::Answer(false)), Act::Installed(_)));
    assert!(matches!(step(&mut f, Reply::Answer(false)), Act::Finish(Ok(ref r)) if !r.changes_made));
}

#[test]
fn test_log_audit_sequence() {
    let (mut f, a) = Flow::start(StepKind::LogAudit, &ExecuteParams::default(), Lang::ZhCn);
    assert!(matches!(a, Act::Installed(ref c) if c == "logwatch"));
    assert!(matches!(step(&mut f, Reply::Answer(true)), Act::Installed(ref c) if c == "aide"));
    assert!(matches!(step(&mut f, Reply::Answer(false)), Act::PackageManager));
    assert!(matches!(step(&mut f, Reply::PackageManager(PackageManager::Apt)), Act::Run(ref v) if v == &vec!["apt", "install", "-y", "aide"]));
    assert!(matches!(step(&mut f, ok_run()), Act::Installed(_)));
    assert!(matches!(step(&mut f, Reply::Answer(true)), Act::RegisterPackageRemoval { ref package, .. } if package == "aide"));
    assert!(matches!(step(&mut f, Reply::Done), Act::WriteFile { .. }));
    assert!(matches!(step(&mut f, Reply::Done), Act::Run(_)));
    assert!(matches!(step(&mut f, ok_run()), Act::Run(ref v) if v == &vec!["aideinit", "--yes"]));
    match step(&mut f, ok_run()) {
        Act::Finish(Ok(r)) => assert!(r.message.contains("已安装/配置: logwatch, aide")),
        other => panic!("unexpected {other:?}"),
    }
}

#[test]
fn test_auto_updates_requires_apt() {
    let (mut f, _) = Flow::start(StepKind::AutoUpdates, &ExecuteParams::default(), Lang::ZhCn);
    assert!(matches!(step(&mut f, Reply::PackageManager(PackageManager::Yum)), Act::Finish(Err(_))));
}

#[test]
fn test_user_removal_registered_before_usermod() {
    let params = ExecuteParams { new_username: Some("ops".into()), ..Default::default() };
    let (mut f, _) = Flow::start(StepKind::UserCreation, &params, Lang::ZhCn);
    step(&mut f, Reply::Answer(false));
    assert!(matches!(step(&mut f, ok_run()), Act::RegisterUserRemoval(_)));
    step(&mut f, Reply::Done);
    let failed = Reply::Ran(CommandOutcome::Exited { success: false, stdout: String::new(), stderr: "no group".into() });
    match step(&mut f, failed) {
        Act::Finish(Err(DomainError::SystemCommandFailed(m))) => assert_eq!(m, "usermod 失败: no group"),
        other => panic!("unexpected {other:?}"),
    }
    // Without locking, the key pair follows usermod directly.
    let (mut f, _) = Flow::start(StepKind::UserCreation, &params, Lang::ZhCn);
    step(&mut f, Reply::Answer(false));
    step(&mut f, ok_run());
    step(&mut f, Reply::Done);
    assert!(matches!(step(&mut f, ok_run()), Act::GenerateKey(_)));
}

#[test]
fn test_already_present_tools_register_no_stop() {
    let (mut f, _) = Flow::start(StepKind::Fail2ban, &ExecuteParams::default(), Lang::ZhCn);
    assert!(matches!(step(&mut f, Reply::Answer(true)), Act::SshPort));
    assert!(matches!(step(&mut f, Reply::SshPort(22)), Act::WriteFile { .. }));
    assert!(matches!(step(&mut f, Reply::Done), Act::Run(_)));
    assert!(matches!(step(&mut f, ok_run()), Act::Finish(Ok(_))));

    let (mut f, _) = Flow::start(StepKind::AutoUpdates, &ExecuteParams::default(), Lang::ZhCn);
    assert!(matches!(step(&mut f, Reply::PackageManager(PackageManager::Apt)), Act::Installed(ref c) if c == "unattended-upgrade"));
    assert!(matches!(step(&mut f, Reply::Answer(true)), Act::Run(ref v) if v == &vec!["apt", "install", "-y", "unattended-upgrades"]));
    assert!(matches!(step(&mut f, ok_run()), Act::WriteFile { .. }));
    assert!(matches!(step(&mut f, Reply::Done), Act::Run(_)));
    assert!(matches!(step(&mut f, ok_run()), Act::Finish(Ok(_))));

    let (mut f, _) = Flow::start(StepKind::AutoUpdates, &ExecuteParams::default(), Lang::ZhCn);
    step(&mut f, Reply::PackageManager(PackageManager::Apt));
    step(&mut f, Reply::Answer(false));
    assert!(matches!(step(&mut f, ok_run()), Act::RegisterPackageRemoval { .. }));
    assert!(matches!(step(&mut f, Reply::Done), Act::WriteFile { .. }));
    assert!(matches!(step(&mut f, Reply::Done), Act::Run(_)));
    assert!(matches!(step(&mut f, ok_run()), Act::RegisterUndo { ref argv, .. } if argv == &vec!["systemctl", "stop", "unattended-upgrades"]));
    assert!(matches!(step(&mut f, Reply::Done), Act::Finish(Ok(_))));
}
