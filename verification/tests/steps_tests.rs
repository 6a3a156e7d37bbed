use u2secure::application::steps::{
    authorized_keys_path, check_command, home_dir, keygen_command, private_key_path, AllSteps, AutoUpdatesStep, CommandOutcome, Fail2banStep, LogAuditStep, RestartSshStep,
    SecurityScanStep, SshKeySetupStep, SshPasswordAuthStep, SshPortChangeStep, SshRootLoginStep,
    SystemUpdateStep, UfwStep, UserCreationStep,
};
use u2secure::domain::audit::{AuditReport, AuditStatus, PackageManager};
use u2secure::domain::errors::DomainError;
use u2secure::domain::steps::{ExecuteParams, HardeningStep, HostState, SshKeyAction, StepKind};
use u2secure::infrastructure::system;

fn make_report(
    ssh_port: u16,
    password_disabled: bool,
    root_disabled: bool,
    sudo_users: Vec<String>,
    fail2ban: bool,
    ufw: bool,
    auto_updates: bool,
    sys_up_to_date: bool,
) -> AuditReport {
    AuditReport {
        items: vec![],
        is_root: true,
        package_manager: PackageManager::Apt,
        ssh_port,
        password_auth_disabled: password_disabled,
        root_login_disabled: root_disabled,
        sudo_users,
        fail2ban_installed: fail2ban,
        ufw_enabled: ufw,
        auto_updates_enabled: auto_updates,
        system_up_to_date: sys_up_to_date,
    }
}

fn host() -> HostState {
    HostState { authorized_keys_present: false, lynis_installed: false, logwatch_installed: false, aide_installed: false }
}

fn precondition(e: DomainError) -> String {
    match e {
        DomainError::PreconditionFailed(m) => m,
        other => panic!("unexpected {other:?}"),
    }
}

fn command_failed(e: DomainError) -> String {
    match e {
        DomainError::SystemCommandFailed(m) => m,
        other => panic!("unexpected {other:?}"),
    }
}

#[test]
fn test_all_steps_contains_all_kinds() {
    let all = AllSteps::new();
    let kinds: Vec<StepKind> = all.steps().iter().map(|s| s.kind()).collect();
    assert_eq!(kinds.len(), 12);
    assert!(kinds.contains(&StepKind::SystemUpdate));
    assert!(kinds.contains(&StepKind::Ufw));
    assert!(kinds.contains(&StepKind::RestartSsh));
    assert_eq!(kinds, StepKind::all().to_vec());
}

#[test]
fn test_system_update_step_status() {
    let step = SystemUpdateStep;
    let report = make_report(22, false, false, vec![], false, false, false, true);
    assert_eq!(step.check_status(&report, &host()), AuditStatus::Safe);
    let report = make_report(22, false, false, vec![], false, false, false, false);
    assert_eq!(step.check_status(&report, &host()), AuditStatus::NeedsUpdate);
}

#[test]
fn test_root_login_step_status() {
    let step = SshRootLoginStep;
    let report = make_report(22, false, true, vec!["admin".into()], false, false, false, true);
    assert_eq!(step.check_status(&report, &host()), AuditStatus::Safe);
    let report = make_report(22, false, false, vec!["admin".into()], false, false, false, true);
    assert_eq!(step.check_status(&report, &host()), AuditStatus::Missing);
}

#[test]
fn test_password_auth_step_status() {
    let step = SshPasswordAuthStep;
    let report = make_report(22, true, false, vec!["admin".into()], false, false, false, true);
    assert_eq!(step.check_status(&report, &host()), AuditStatus::Safe);
    let report = make_report(22, false, false, vec!["admin".into()], false, false, false, true);
    assert_eq!(step.check_status(&report, &host()), AuditStatus::Missing);
}

#[test]
fn test_ufw_step_status() {
    let step = UfwStep;
    let report = make_report(22, false, false, vec![], false, true, false, true);
    assert_eq!(step.check_status(&report, &host()), AuditStatus::Safe);
    let report = make_report(22, false, false, vec![], false, false, false, true);
    assert_eq!(step.check_status(&report, &host()), AuditStatus::Missing);
}

#[test]
fn test_fail2ban_step_status() {
    let step = Fail2banStep;
    let report = make_report(22, false, false, vec![], true, false, false, true);
    assert_eq!(step.check_status(&report, &host()), AuditStatus::Safe);
    let report = make_report(22, false, false, vec![], false, false, false, true);
    assert_eq!(step.check_status(&report, &host()), AuditStatus::Missing);
}

#[test]
fn test_auto_updates_step_status() {
    let step = AutoUpdatesStep;
    let report = make_report(22, false, false, vec![], false, false, true, true);
    assert_eq!(step.check_status(&report, &host()), AuditStatus::Safe);
    let report = make_report(22, false, false, vec![], false, false, false, true);
    assert_eq!(step.check_status(&report, &host()), AuditStatus::Missing);
}

#[test]
fn test_ssh_key_setup_step_own_implementation() {
    let step = SshKeySetupStep;
    assert_eq!(step.kind(), StepKind::SshKeySetup);
    let report = make_report(22, false, false, vec![], false, false, false, true);
    let mut h = host();
    assert_eq!(step.check_status(&report, &h), AuditStatus::Missing);
    h.authorized_keys_present = true;
    assert_eq!(step.check_status(&report, &h), AuditStatus::Safe);
}

#[test]
fn test_host_probe_steps_status() {
    let report = make_report(22, false, false, vec![], false, false, false, true);
    let mut h = host();
    assert_eq!(SecurityScanStep.check_status(&report, &h), AuditStatus::Missing);
    assert_eq!(LogAuditStep.check_status(&report, &h), AuditStatus::Missing);
    h.lynis_installed = true;
    h.logwatch_installed = true;
    assert_eq!(SecurityScanStep.check_status(&report, &h), AuditStatus::Safe);
    assert_eq!(LogAuditStep.check_status(&report, &h), AuditStatus::Missing);
    h.aide_installed = true;
    assert_eq!(LogAuditStep.check_status(&report, &h), AuditStatus::Safe);
    assert_eq!(RestartSshStep.check_status(&report, &h), AuditStatus::Missing);
}

#[test]
fn test_detect_package_manager() {
    assert_eq!(system::detect_package_manager(true, true, true), PackageManager::Apt);
    assert_eq!(system::detect_package_manager(false, true, true), PackageManager::Yum);
    assert_eq!(system::detect_package_manager(false, false, true), PackageManager::Dnf);
    assert_eq!(system::detect_package_manager(false, false, false), PackageManager::Unknown);
}

#[test]
fn test_detect_is_root_can_run() {
    assert!(system::detect_is_root(Some("0\n")));
    assert!(!system::detect_is_root(Some("1000\n")));
    assert!(!system::detect_is_root(None));
}

#[test]
fn test_password_auth_precondition() {
    let step = SshPasswordAuthStep;
    assert_eq!(step.kind(), StepKind::SshPasswordAuth);
    let e = SshPasswordAuthStep::precondition(&vec![]).unwrap_err();
    assert_eq!(precondition(e), "禁止密码登录前请先创建 sudo 用户");
    assert!(SshPasswordAuthStep::precondition(&vec!["admin".to_string()]).is_ok());
}

#[test]
fn test_root_login_precondition() {
    let e = SshRootLoginStep::precondition(&vec![]).unwrap_err();
    assert_eq!(precondition(e), "禁止 root 登录前请先创建 sudo 用户");
}

#[test]
fn test_system_update_commands() {
    let (u, g) = SystemUpdateStep::commands(PackageManager::Yum).unwrap();
    assert_eq!(u, vec!["yum", "update", "-y"]);
    assert_eq!(g, vec!["yum", "upgrade", "-y"]);
    let e = SystemUpdateStep::commands(PackageManager::Unknown).unwrap_err();
    assert_eq!(command_failed(e), "无法识别的包管理器");
    assert_eq!(SystemUpdateStep::finished().message, "系统更新完成");
}

#[test]
fn test_check_command_outcomes() {
    assert!(check_command("a: ", "b: ", &CommandOutcome::Exited { success: true, stdout: "".into(), stderr: "".into() }).is_ok());
    let e = check_command("a: ", "b: ", &CommandOutcome::Exited { success: false, stdout: "".into(), stderr: "bad".into() }).unwrap_err();
    assert_eq!(command_failed(e), "b: bad");
    let e = check_command("a: ", "b: ", &CommandOutcome::SpawnFailed("nope".into())).unwrap_err();
    assert_eq!(command_failed(e), "a: nope");
}

#[test]
fn test_user_creation_pieces() {
    let p = ExecuteParams::default();
    assert_eq!(precondition(UserCreationStep::requested_username(&p).unwrap_err()), "未提供用户名");
    let p = ExecuteParams { new_username: Some("deploy".into()), ..ExecuteParams::default() };
    assert_eq!(UserCreationStep::requested_username(&p).unwrap(), "deploy");
    assert_eq!(precondition(UserCreationStep::already_exists("deploy")), "用户 'deploy' 已存在");
    let cmds = UserCreationStep::setup_commands("deploy", true);
    assert_eq!(
        cmds,
        vec![
            vec!["useradd", "-m", "-s", "/bin/bash", "deploy"],
            vec!["usermod", "-aG", "sudo", "deploy"],
            vec!["passwd", "-l", "deploy"],
        ]
    );
    assert_eq!(UserCreationStep::setup_commands("deploy", false).len(), 2);
    assert_eq!(
        UserCreationStep::finished("deploy").message,
        "用户 'deploy' 已创建并加入 sudo 组，密钥已设置（私钥: ~/.ssh/id_ed25519）"
    );
}

#[test]
fn test_key_paths() {
    assert_eq!(home_dir("root"), "/root");
    assert_eq!(home_dir("deploy"), "/home/deploy");
    assert_eq!(private_key_path("deploy"), "/home/deploy/.ssh/id_ed25519");
    assert_eq!(authorized_keys_path("root"), "/root/.ssh/authorized_keys");
    assert_eq!(
        keygen_command("deploy"),
        vec!["ssh-keygen", "-t", "ed25519", "-f", "/home/deploy/.ssh/id_ed25519", "-N", "", "-q"]
    );
}

#[test]
fn test_port_change_pieces() {
    let p = ExecuteParams::default();
    assert_eq!(precondition(SshPortChangeStep::requested_port(&p).unwrap_err()), "未提供新 SSH 端口");
    let p = ExecuteParams { new_ssh_port: Some(0), ..ExecuteParams::default() };
    assert_eq!(precondition(SshPortChangeStep::requested_port(&p).unwrap_err()), "端口 0 无效");
    let p = ExecuteParams { new_ssh_port: Some(2222), ..ExecuteParams::default() };
    assert_eq!(SshPortChangeStep::requested_port(&p).unwrap(), 2222);
    assert_eq!(
        SshPortChangeStep::finished(2222, "Port 已设置为 2222").message,
        "SSH 端口已修改为 2222（Port 已设置为 2222）"
    );
    assert_eq!(u2secure::application::steps::ufw_allow_command(2222), vec!["ufw", "allow", "2222"]);
}

#[test]
fn test_key_setup_pieces() {
    let p = ExecuteParams::default();
    assert_eq!(precondition(SshKeySetupStep::request(&p).unwrap_err()), "未提供目标用户名");
    let p = ExecuteParams { ssh_key_username: Some("bob".into()), ..ExecuteParams::default() };
    assert_eq!(precondition(SshKeySetupStep::request(&p).unwrap_err()), "未选择密钥操作");
    let p = ExecuteParams {
        ssh_key_username: Some("bob".into()),
        ssh_key_action: Some(SshKeyAction::PasteKey("ssh-ed25519 AAAA".into())),
        ..ExecuteParams::default()
    };
    let (u, a) = SshKeySetupStep::request(&p).unwrap();
    assert_eq!(u, "bob");
    assert!(matches!(a, SshKeyAction::PasteKey(k) if k == "ssh-ed25519 AAAA"));
    let r = SshKeySetupStep::generated("/home/bob/.ssh/id_ed25519.pub");
    assert_eq!(
        r.message,
        "ED25519 密钥对已生成\n  私钥: /home/bob/.ssh/id_ed25519\n  公钥: /home/bob/.ssh/id_ed25519.pub.pub\n  请立即复制私钥并安全保存！"
    );
    assert_eq!(SshKeySetupStep::key_added("bob").message, "公钥已添加到 bob 的 authorized_keys");
}

#[test]
fn test_firewall_and_fail2ban_pieces() {
    assert_eq!(UfwStep::enable_command(), vec!["ufw", "--force", "enable"]);
    assert_eq!(UfwStep::finished(22).message, "UFW 已启用，SSH 端口 22 已放行");
    assert_eq!(Fail2banStep::install(PackageManager::Dnf).unwrap(), vec!["dnf", "install", "-y", "fail2ban"]);
    assert_eq!(command_failed(Fail2banStep::install(PackageManager::Unknown).unwrap_err()), "不支持的包管理器");
    assert_eq!(Fail2banStep::jail_local(2222), "[sshd]\nenabled = true\nport = 2222\n");
    assert_eq!(Fail2banStep::finished(2222).message, "Fail2ban 已安装并运行，SSH 端口 2222 已加入监控");
}

#[test]
fn test_auto_updates_pieces() {
    assert!(AutoUpdatesStep::require_apt(PackageManager::Apt).is_ok());
    assert_eq!(
        command_failed(AutoUpdatesStep::require_apt(PackageManager::Yum).unwrap_err()),
        "自动安全更新仅支持 Debian/Ubuntu"
    );
    assert!(AutoUpdatesStep::apt_periodic_config().contains("APT::Periodic::Unattended-Upgrade \"1\";"));
}

#[test]
fn test_security_scan_pieces() {
    assert_eq!(SecurityScanStep::install(PackageManager::Yum).unwrap(), vec!["yum", "install", "-y", "lynis"]);
    assert_eq!(SecurityScanStep::install(PackageManager::Apt).unwrap()[0], "sh");
    assert_eq!(
        command_failed(SecurityScanStep::install(PackageManager::Unknown).unwrap_err()),
        "无法确定包管理器，请手动安装 lynis"
    );
    let out = "ok\n  Warning: a\nSuggestion: b\nWarning: c\n";
    assert_eq!(
        SecurityScanStep::finished(out).message,
        "lynis 安全扫描完成（2 个警告, 1 个建议）\n  详细报告: /var/log/lynis.log"
    );
    assert!(!SecurityScanStep::not_installed().changes_made);
}

#[test]
fn test_log_audit_and_restart_pieces() {
    let r = LogAuditStep::finished(&vec!["logwatch".to_string(), "aide".to_string()]);
    assert!(r.message.starts_with("日志与审计增强完成\n  已安装/配置: logwatch, aide\n"));
    let state = RestartSshStep::service_state(&CommandOutcome::Exited { success: true, stdout: "active\n".into(), stderr: "".into() });
    assert_eq!(state, "active");
    assert_eq!(RestartSshStep::service_state(&CommandOutcome::SpawnFailed("x".into())), "unknown");
    let e = RestartSshStep::check_syntax(&CommandOutcome::Exited { success: false, stdout: "".into(), stderr: "line 3".into() }).unwrap_err();
    assert_eq!(command_failed(e), "sshd_config 语法错误，请检查配置: line 3");
    assert!(RestartSshStep::finished("active").message.starts_with("SSH 服务已重启（状态: active）"));
}

#[test]
fn test_sshd_change_result_message() {
    let r = u2secure::application::steps::sshd_change_result("Port", "2222", "/etc/ssh/sshd_config.bak.1");
    assert_eq!(r.message, "Port 已设置为 2222（备份: /etc/ssh/sshd_config.bak.1）");
    assert_eq!(
        u2secure::application::steps::backup_path_for("20240101000000"),
        "/etc/ssh/sshd_config.bak.20240101000000"
    );
    assert_eq!(
        u2secure::application::steps::backup_path_for("20240102030405"),
        "/etc/ssh/sshd_config.bak.20240102030405"
    );
}
