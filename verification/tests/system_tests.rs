use u2secure::domain::audit::{AuditStatus, PackageManager};
use u2secure::domain::steps::StepKind;
use u2secure::infrastructure::system::{
    detect_auto_updates_enabled, detect_password_auth_disabled, detect_root_login_disabled,
    detect_ssh_port, detect_system_up_to_date, detect_ufw_enabled, filter_regular_users,
    group_members_of, parse_uid, rewrite_sshd_config, run_full_audit, sshd_config_get, AuditFacts,
};

const CONFIG: &str = "# comment\nPort 2200\n  PasswordAuthentication no\r\n#PermitRootLogin yes\nPermitRootLogin yes\nPermitRootLogin prohibit-password\nChallengeResponseAuthentication\tNO\n";

#[test]
fn test_sshd_config_get_last_occurrence() {
    assert_eq!(sshd_config_get(CONFIG, "Port").as_deref(), Some("2200"));
    assert_eq!(sshd_config_get(CONFIG, "PermitRootLogin").as_deref(), Some("prohibit-password"));
    assert_eq!(sshd_config_get(CONFIG, "PasswordAuthentication").as_deref(), Some("no"));
    assert_eq!(sshd_config_get(CONFIG, "ChallengeResponseAuthentication").as_deref(), Some("NO"));
    assert_eq!(sshd_config_get(CONFIG, "UsePAM"), None);
    assert_eq!(sshd_config_get("PortX 1\n", "Port"), None);
}

#[test]
fn test_detectors_on_config() {
    assert_eq!(detect_ssh_port(CONFIG), 2200);
    assert_eq!(detect_ssh_port(""), 22);
    assert_eq!(detect_ssh_port("Port abc\n"), 22);
    assert_eq!(detect_ssh_port("Port 70000\n"), 22);
    assert_eq!(detect_ssh_port("Port +2222\n"), 2222);
    assert!(detect_password_auth_disabled(CONFIG));
    assert!(!detect_password_auth_disabled("PasswordAuthentication no\n"));
    assert!(detect_root_login_disabled(CONFIG));
    assert!(!detect_root_login_disabled("PermitRootLogin yes\n"));
    assert!(detect_root_login_disabled("PermitRootLogin No\n"));
}

#[test]
fn test_rewrite_replaces_matching_lines() {
    let out = rewrite_sshd_config("#Port 22\nPort 22\nUsePAM yes\n", "Port", "2222");
    assert_eq!(out, "#Port 22\nPort 2222\nUsePAM yes");
    assert_eq!(detect_ssh_port(&out), 2222);
}

#[test]
fn test_rewrite_appends_missing_directive() {
    let out = rewrite_sshd_config("UsePAM yes\n", "PermitRootLogin", "prohibit-password");
    assert_eq!(out, "UsePAM yes\nPermitRootLogin prohibit-password\n");
    assert!(detect_root_login_disabled(&out));
    let out = rewrite_sshd_config("", "Port", "2022");
    assert_eq!(out, "\nPort 2022\n");
}

#[test]
fn test_read_after_write_for_password_keys() {
    let c = rewrite_sshd_config(CONFIG, "PasswordAuthentication", "no");
    let c = rewrite_sshd_config(&c, "ChallengeResponseAuthentication", "no");
    assert!(detect_password_auth_disabled(&c));
    assert_eq!(sshd_config_get(&c, "PasswordAuthentication").as_deref(), Some("no"));
}

#[test]
fn test_write_keeps_other_directives() {
    let base = "Port 2200\nX11Forwarding yes\nPasswordAuthentication yes\n";
    let c = rewrite_sshd_config(base, "PasswordAuthentication", "no");
    assert_eq!(sshd_config_get(&c, "Port").as_deref(), Some("2200"));
    assert_eq!(sshd_config_get(&c, "X11Forwarding").as_deref(), Some("yes"));
    let c = rewrite_sshd_config("UsePAM yes\n", "PasswordAuthentication", "no");
    let c = rewrite_sshd_config(&c, "ChallengeResponseAuthentication", "no");
    assert!(detect_password_auth_disabled(&c));
    assert_eq!(sshd_config_get(&c, "UsePAM").as_deref(), Some("yes"));
    // A name that begins with the one being set is rewritten too.
    let c = rewrite_sshd_config("PortFoo 1\n", "Port", "2");
    assert_eq!(sshd_config_get(&c, "PortFoo"), None);
}

#[test]
fn test_group_members_parsing() {
    assert_eq!(group_members_of("sudo:x:27:alice, bob,,carol\n"), vec!["alice", "bob", "carol"]);
    assert_eq!(group_members_of("sudo:x:27:\n"), Vec::<String>::new());
    assert_eq!(group_members_of("no colon here"), Vec::<String>::new());
    assert_eq!(
        filter_regular_users(&vec!["root".into(), "alice".into(), "svc".into()], &vec![0, 1000, 999]),
        vec!["alice"]
    );
    assert_eq!(parse_uid(Some(" 1001\n")), 1001);
    assert_eq!(parse_uid(Some("x")), 0);
    assert_eq!(parse_uid(None), 0);
}

#[test]
fn test_probe_output_detectors() {
    assert!(detect_ufw_enabled(Some("Status: active\n")));
    assert!(!detect_ufw_enabled(Some("Status: inactive\n")));
    assert!(detect_ufw_enabled(Some("Status: active\n\nTo Action From\n22 ALLOW Anywhere\n")));
    assert!(!detect_ufw_enabled(Some("command not found")));
    assert!(!detect_ufw_enabled(None));
    assert!(detect_auto_updates_enabled(true, None));
    assert!(detect_auto_updates_enabled(false, Some("APT::Periodic::Unattended-Upgrade \"1\";\n")));
    assert!(!detect_auto_updates_enabled(false, Some("APT::Periodic::Unattended-Upgrade \"0\";\n")));
    assert!(detect_system_up_to_date(&[None, Some(100)]));
    assert!(!detect_system_up_to_date(&[Some(604800), Some(1)]));
    assert!(!detect_system_up_to_date(&[None, None]));
}

#[test]
fn test_run_full_audit_items() {
    let facts = AuditFacts {
        is_root: true,
        package_manager: PackageManager::Apt,
        ssh_port: 2222,
        password_auth_disabled: false,
        root_login_disabled: true,
        sudo_users: vec!["alice".into(), "bob".into()],
        fail2ban_installed: false,
        ufw_enabled: true,
        auto_updates_enabled: false,
        system_up_to_date: false,
    };
    let report = run_full_audit(facts);
    let items: Vec<(&str, AuditStatus, &str)> =
        report.items.iter().map(|i| (i.name, i.status, i.detail.as_str())).collect();
    assert_eq!(
        items,
        vec![
            ("当前用户权限", AuditStatus::Safe, "已以 root 运行"),
            ("包管理器", AuditStatus::Safe, "检测到 apt"),
            ("SSH 端口", AuditStatus::Safe, "已自定义为 2222"),
            ("密码登录", AuditStatus::Missing, "密码登录未禁用"),
            ("root 登录", AuditStatus::Safe, "已禁止"),
            ("sudo 用户", AuditStatus::Safe, "已存在: alice, bob"),
            ("Fail2ban", AuditStatus::Missing, "未安装"),
            ("UFW 防火墙", AuditStatus::Safe, "已启用"),
            ("自动安全更新", AuditStatus::Missing, "未启用"),
            ("系统更新状态", AuditStatus::NeedsUpdate, "缓存已过期，建议更新"),
        ]
    );
    assert_eq!(report.ssh_port, 2222);
    assert_eq!(report.status_for(StepKind::SshPortChange), AuditStatus::Safe);
    assert_eq!(report.status_for(StepKind::SystemUpdate), AuditStatus::NeedsUpdate);
}

#[test]
fn test_run_full_audit_unconfigured_host() {
    let root = false;
    let facts = AuditFacts {
        package_manager: PackageManager::Unknown,
        is_root: root,
        ssh_port: 22,
        password_auth_disabled: true,
        root_login_disabled: false,
        sudo_users: vec![],
        fail2ban_installed: true,
        ufw_enabled: false,
        auto_updates_enabled: true,
        system_up_to_date: true,
    };
    let report = run_full_audit(facts);
    assert_eq!(report.items[0].detail, "非 root 用户，需要 root 权限");
    assert_eq!(report.items[1].detail, "检测到 unknown");
    assert_eq!(report.items[2].detail, "默认端口 22");
    assert_eq!(report.items[5].detail, "未检测到非 root 管理用户");
    assert_eq!(report.items[9].status, AuditStatus::Safe);
    assert_eq!(report.items.len(), 10);
}
