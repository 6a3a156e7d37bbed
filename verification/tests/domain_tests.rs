use u2secure::domain::audit::{AuditItem, AuditReport, AuditStatus, PackageManager};
use u2secure::domain::errors::DomainError;
use u2secure::domain::steps::{ExecuteParams, StepKind};
use u2secure::i18n::Lang;

fn report(
    ssh_port: u16,
    password_auth_disabled: bool,
    root_login_disabled: bool,
    sudo_users: Vec<String>,
    fail2ban_installed: bool,
    ufw_enabled: bool,
    auto_updates_enabled: bool,
    system_up_to_date: bool,
) -> AuditReport {
    AuditReport {
        items: vec![],
        is_root: true,
        package_manager: PackageManager::Apt,
        ssh_port,
        password_auth_disabled,
        root_login_disabled,
        sudo_users,
        fail2ban_installed,
        ufw_enabled,
        auto_updates_enabled,
        system_up_to_date,
    }
}

#[test]
fn test_audit_status_icons() {
    assert_eq!(AuditStatus::Safe.icon(), "✅");
    assert_eq!(AuditStatus::Partial.icon(), "⚠️");
    assert_eq!(AuditStatus::Missing.icon(), "❌");
    assert_eq!(AuditStatus::NeedsUpdate.icon(), "🔄");
}

#[test]
fn test_audit_item_constructors() {
    let item = AuditItem::safe("测试", "已启用".into());
    assert_eq!(item.status, AuditStatus::Safe);
    assert_eq!(item.detail, "已启用");

    let item = AuditItem::missing("测试", "未配置".into());
    assert_eq!(item.status, AuditStatus::Missing);

    let item = AuditItem::needs_update("测试", "需要更新".into());
    assert_eq!(item.status, AuditStatus::NeedsUpdate);

    let item = AuditItem::partial("测试", "部分配置".into());
    assert_eq!(item.status, AuditStatus::Partial);
}

#[test]
fn test_package_manager_display() {
    assert_eq!(PackageManager::Apt.name(), "apt");
    assert_eq!(PackageManager::Yum.name(), "yum");
    assert_eq!(PackageManager::Dnf.to_string(), "dnf");
    assert_eq!(PackageManager::Unknown.to_string(), "unknown");
}

#[test]
fn test_package_manager_update_upgrade_cmd() {
    assert_eq!(PackageManager::Apt.update_cmd(), &["apt", "update"]);
    assert_eq!(PackageManager::Apt.upgrade_cmd(), &["apt", "upgrade", "-y"]);
    assert_eq!(PackageManager::Yum.update_cmd(), &["yum", "update", "-y"]);
    assert_eq!(PackageManager::Unknown.update_cmd(), &[] as &[&str]);
}

#[test]
fn test_package_manager_dnf_commands() {
    assert_eq!(PackageManager::Dnf.update_cmd(), &["dnf", "update", "-y"]);
    assert_eq!(PackageManager::Dnf.upgrade_cmd(), &["dnf", "upgrade", "-y"]);
    assert_eq!(PackageManager::Unknown.upgrade_cmd(), &[] as &[&str]);
}

#[test]
fn test_step_kind_labels() {
    assert_eq!(StepKind::SystemUpdate.label(), "系统更新");
    assert_eq!(StepKind::UserCreation.label(), "非 root 用户创建");
    assert_eq!(StepKind::SshRootLogin.label(), "禁止 root SSH 登录");
    assert_eq!(StepKind::SshPortChange.label(), "SSH 端口修改");
    assert_eq!(StepKind::SshPasswordAuth.label(), "禁止密码登录");
    assert_eq!(StepKind::SshKeySetup.label(), "ED25519 密钥设置");
    assert_eq!(StepKind::Ufw.label(), "UFW 防火墙配置");
    assert_eq!(StepKind::Fail2ban.label(), "Fail2ban 安装配置");
    assert_eq!(StepKind::AutoUpdates.label(), "自动安全更新");
    assert_eq!(StepKind::SecurityScan.label(), "安全扫描");
    assert_eq!(StepKind::LogAudit.label(), "日志与审计增强");
    assert_eq!(StepKind::RestartSsh.label(), "SSH 服务重启与验证");
}

#[test]
fn test_step_kind_all_contains_all() {
    let all = StepKind::all();
    assert_eq!(all.len(), 12);
    assert!(all.contains(&StepKind::SystemUpdate));
    assert!(all.contains(&StepKind::RestartSsh));
}

#[test]
fn test_audit_report_status_for_all_secure() {
    let report = report(2222, true, true, vec!["alice".into()], true, true, true, true);

    assert_eq!(report.status_for(StepKind::SystemUpdate), AuditStatus::Safe);
    assert_eq!(report.status_for(StepKind::UserCreation), AuditStatus::Safe);
    assert_eq!(report.status_for(StepKind::SshRootLogin), AuditStatus::Safe);
    assert_eq!(report.status_for(StepKind::SshPortChange), AuditStatus::Safe);
    assert_eq!(report.status_for(StepKind::SshPasswordAuth), AuditStatus::Safe);
    assert_eq!(report.status_for(StepKind::Ufw), AuditStatus::Safe);
    assert_eq!(report.status_for(StepKind::Fail2ban), AuditStatus::Safe);
    assert_eq!(report.status_for(StepKind::AutoUpdates), AuditStatus::Safe);
}

#[test]
fn test_audit_report_status_for_all_missing() {
    let mut report = report(22, false, false, vec![], false, false, false, false);
    report.is_root = false;
    report.package_manager = PackageManager::Unknown;

    assert_eq!(report.status_for(StepKind::SystemUpdate), AuditStatus::NeedsUpdate);
    assert_eq!(report.status_for(StepKind::UserCreation), AuditStatus::Missing);
    assert_eq!(report.status_for(StepKind::SshRootLogin), AuditStatus::Missing);
    assert_eq!(report.status_for(StepKind::SshPortChange), AuditStatus::Missing);
    assert_eq!(report.status_for(StepKind::SshPasswordAuth), AuditStatus::Missing);
    assert_eq!(report.status_for(StepKind::SshKeySetup), AuditStatus::Missing);
    assert_eq!(report.status_for(StepKind::Ufw), AuditStatus::Missing);
    assert_eq!(report.status_for(StepKind::Fail2ban), AuditStatus::Missing);
    assert_eq!(report.status_for(StepKind::AutoUpdates), AuditStatus::Missing);
    assert_eq!(report.status_for(StepKind::SecurityScan), AuditStatus::Missing);
    assert_eq!(report.status_for(StepKind::LogAudit), AuditStatus::Missing);
    assert_eq!(report.status_for(StepKind::RestartSsh), AuditStatus::Missing);
}

#[test]
fn test_audit_report_status_for_key_setup_with_sudo_users() {
    let report = report(22, false, false, vec!["bob".into()], false, false, false, false);
    assert_eq!(report.status_for(StepKind::SshKeySetup), AuditStatus::Partial);
}

#[test]
fn test_audit_report_summary_lines() {
    let mut report = report(2222, true, true, vec!["admin".into()], false, true, false, true);
    report.is_root = false;

    let summary = report.summary_lines();
    assert_eq!(summary.len(), 8);
    assert_eq!(summary[0].1, AuditStatus::Safe);
    assert_eq!(summary[1].1, AuditStatus::Safe);
    assert_eq!(summary[2].1, AuditStatus::Safe);
    assert_eq!(summary[3].1, AuditStatus::Safe);
    assert_eq!(summary[4].1, AuditStatus::Safe);
    assert_eq!(summary[5].1, AuditStatus::Safe);
    assert_eq!(summary[6].1, AuditStatus::Missing);
    assert_eq!(summary[7].1, AuditStatus::Missing);
}

#[test]
fn test_summary_line_labels() {
    let report = report(22, false, false, vec![], false, false, false, false);
    let labels: Vec<&str> = report.summary_lines().iter().map(|l| l.0).collect();
    assert_eq!(
        labels,
        vec!["系统更新", "非 root 用户创建", "禁止 root SSH 登录", "SSH 端口修改", "禁止密码登录", "UFW 防火墙", "Fail2ban", "自动安全更新"]
    );
}

#[test]
fn test_step_kind_display() {
    assert_eq!(StepKind::SystemUpdate.to_string(), "系统更新");
    assert_eq!(StepKind::RestartSsh.to_string(), "SSH 服务重启与验证");
}

#[test]
fn test_step_kind_check_default_status() {
    let report = report(2222, true, false, vec!["admin".into()], false, true, false, true);

    assert_eq!(StepKind::SystemUpdate.check_default_status(&report), AuditStatus::Safe);
    assert_eq!(StepKind::SshRootLogin.check_default_status(&report), AuditStatus::Missing);
    assert_eq!(StepKind::Fail2ban.check_default_status(&report), AuditStatus::Missing);
}

#[test]
fn test_execute_params_default_is_empty() {
    let p = ExecuteParams::default();
    assert!(p.new_username.is_none());
    assert!(!p.lock_password);
    assert!(p.new_ssh_port.is_none());
    assert!(p.ssh_key_username.is_none());
    assert!(p.ssh_key_action.is_none());
}

#[test]
fn test_domain_error_messages_fill_template() {
    let e = DomainError::SystemCommandFailed("boom".into());
    assert_eq!(e.message(Lang::ZhCn), "系统命令执行失败: boom");
    assert_eq!(e.message(Lang::En), "System command failed: boom");
    let e = DomainError::PreconditionFailed("need sudo".into());
    assert_eq!(e.message(Lang::ZhCn), "前置条件不满足: need sudo");
    assert_eq!(DomainError::PermissionDenied.message(Lang::ZhCn), "需要 root 权限运行");
}

#[test]
fn test_domain_error_parse_and_abort_messages() {
    let e = DomainError::ParseError("bad".into());
    assert_eq!(e.message(Lang::En), "Config parse error: bad");
    assert_eq!(DomainError::UserAborted.message(Lang::En), "User cancelled operation");
    assert_eq!(DomainError::PermissionDenied.message(Lang::ZhTw), "需要 root 權限執行");
}
