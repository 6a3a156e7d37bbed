//! Facts about the translation tables as a whole: entries that must agree
//! across the languages, or with the names used elsewhere, do. Each proof first
//! tells its key apart from the keys listed before it in the tables.
use vstd::prelude::*;

use crate::domain::audit::{pm_name, status_icon, AuditStatus, PackageManager};
use crate::domain::steps::{kind_label, StepKind};
use crate::i18n::{en_text, zh_cn_text, zh_tw_text};
use crate::text::{contains, match_at};

verus! {

proof fn entry_step_system_update()
    ensures
        zh_cn_text("step_system_update"@) == Some(kind_label(StepKind::SystemUpdate)),
{
    reveal_strlit("step_system_update"); assert("step_system_update"@.len() == 18);
    reveal_strlit("lang_en"); assert("lang_en"@.len() == 7);
    reveal_strlit("lang_zh_cn"); assert("lang_zh_cn"@.len() == 10);
    reveal_strlit("lang_zh_tw"); assert("lang_zh_tw"@.len() == 10);
    reveal_strlit("select_language"); assert("select_language"@.len() == 15);
    reveal_strlit("select_mode"); assert("select_mode"@.len() == 11);
    reveal_strlit("mode_cli"); assert("mode_cli"@.len() == 8);
    reveal_strlit("mode_tui"); assert("mode_tui"@.len() == 8);
    reveal_strlit("unknown_arg"); assert("unknown_arg"@.len() == 11);
    reveal_strlit("app_title"); assert("app_title"@.len() == 9);
}

proof fn entry_step_user_creation()
    ensures
        zh_cn_text("step_user_creation"@) == Some(kind_label(StepKind::UserCreation)),
{
    reveal_strlit("step_user_creation"); assert("step_user_creation"@.len() == 18);
    reveal_strlit("lang_en"); assert("lang_en"@.len() == 7);
    reveal_strlit("lang_zh_cn"); assert("lang_zh_cn"@.len() == 10);
    reveal_strlit("lang_zh_tw"); assert("lang_zh_tw"@.len() == 10);
    reveal_strlit("select_language"); assert("select_language"@.len() == 15);
    reveal_strlit("select_mode"); assert("select_mode"@.len() == 11);
    reveal_strlit("mode_cli"); assert("mode_cli"@.len() == 8);
    reveal_strlit("mode_tui"); assert("mode_tui"@.len() == 8);
    reveal_strlit("unknown_arg"); assert("unknown_arg"@.len() == 11);
    reveal_strlit("app_title"); assert("app_title"@.len() == 9);
    reveal_strlit("step_system_update"); assert("step_user_creation"@[5] == 'u'); assert("step_system_update"@[5] == 's');
}

proof fn entry_step_ssh_root_login()
    ensures
        zh_cn_text("step_ssh_root_login"@) == Some(kind_label(StepKind::SshRootLogin)),
{
    reveal_strlit("step_ssh_root_login"); assert("step_ssh_root_login"@.len() == 19);
    reveal_strlit("lang_en"); assert("lang_en"@.len() == 7);
    reveal_strlit("lang_zh_cn"); assert("lang_zh_cn"@.len() == 10);
    reveal_strlit("lang_zh_tw"); assert("lang_zh_tw"@.len() == 10);
    reveal_strlit("select_language"); assert("select_language"@.len() == 15);
    reveal_strlit("select_mode"); assert("select_mode"@.len() == 11);
    reveal_strlit("mode_cli"); assert("mode_cli"@.len() == 8);
    reveal_strlit("mode_tui"); assert("mode_tui"@.len() == 8);
    reveal_strlit("unknown_arg"); assert("unknown_arg"@.len() == 11);
    reveal_strlit("app_title"); assert("app_title"@.len() == 9);
    reveal_strlit("step_system_update"); assert("step_system_update"@.len() == 18);
    reveal_strlit("step_user_creation"); assert("step_user_creation"@.len() == 18);
}

proof fn entry_step_ssh_port_change()
    ensures
        zh_cn_text("step_ssh_port_change"@) == Some(kind_label(StepKind::SshPortChange)),
{
    reveal_strlit("step_ssh_port_change"); assert("step_ssh_port_change"@.len() == 20);
    reveal_strlit("lang_en"); assert("lang_en"@.len() == 7);
    reveal_strlit("lang_zh_cn"); assert("lang_zh_cn"@.len() == 10);
    reveal_strlit("lang_zh_tw"); assert("lang_zh_tw"@.len() == 10);
    reveal_strlit("select_language"); assert("select_language"@.len() == 15);
    reveal_strlit("select_mode"); assert("select_mode"@.len() == 11);
    reveal_strlit("mode_cli"); assert("mode_cli"@.len() == 8);
    reveal_strlit("mode_tui"); assert("mode_tui"@.len() == 8);
    reveal_strlit("unknown_arg"); assert("unknown_arg"@.len() == 11);
    reveal_strlit("app_title"); assert("app_title"@.len() == 9);
    reveal_strlit("step_system_update"); assert("step_system_update"@.len() == 18);
    reveal_strlit("step_user_creation"); assert("step_user_creation"@.len() == 18);
    reveal_strlit("step_ssh_root_login"); assert("step_ssh_root_login"@.len() == 19);
}

proof fn entry_step_ssh_password_auth()
    ensures
        zh_cn_text("step_ssh_password_auth"@) == Some(kind_label(StepKind::SshPasswordAuth)),
{
    reveal_strlit("step_ssh_password_auth"); assert("step_ssh_password_auth"@.len() == 22);
    reveal_strlit("lang_en"); assert("lang_en"@.len() == 7);
    reveal_strlit("lang_zh_cn"); assert("lang_zh_cn"@.len() == 10);
    reveal_strlit("lang_zh_tw"); assert("lang_zh_tw"@.len() == 10);
    reveal_strlit("select_language"); assert("select_language"@.len() == 15);
    reveal_strlit("select_mode"); assert("select_mode"@.len() == 11);
    reveal_strlit("mode_cli"); assert("mode_cli"@.len() == 8);
    reveal_strlit("mode_tui"); assert("mode_tui"@.len() == 8);
    reveal_strlit("unknown_arg"); assert("unknown_arg"@.len() == 11);
    reveal_strlit("app_title"); assert("app_title"@.len() == 9);
    reveal_strlit("step_system_update"); assert("step_system_update"@.len() == 18);
    reveal_strlit("step_user_creation"); assert("step_user_creation"@.len() == 18);
    reveal_strlit("step_ssh_root_login"); assert("step_ssh_root_login"@.len() == 19);
    reveal_strlit("step_ssh_port_change"); assert("step_ssh_port_change"@.len() == 20);
}

proof fn entry_step_ssh_key_setup()
    ensures
        zh_cn_text("step_ssh_key_setup"@) == Some(kind_label(StepKind::SshKeySetup)),
{
    reveal_strlit("step_ssh_key_setup"); assert("step_ssh_key_setup"@.len() == 18);
    reveal_strlit("lang_en"); assert("lang_en"@.len() == 7);
    reveal_strlit("lang_zh_cn"); assert("lang_zh_cn"@.len() == 10);
    reveal_strlit("lang_zh_tw"); assert("lang_zh_tw"@.len() == 10);
    reveal_strlit("select_language"); assert("select_language"@.len() == 15);
    reveal_strlit("select_mode"); assert("select_mode"@.len() == 11);
    reveal_strlit("mode_cli"); assert("mode_cli"@.len() == 8);
    reveal_strlit("mode_tui"); assert("mode_tui"@.len() == 8);
    reveal_strlit("unknown_arg"); assert("unknown_arg"@.len() == 11);
    reveal_strlit("app_title"); assert("app_title"@.len() == 9);
    reveal_strlit("step_system_update"); assert("step_ssh_key_setup"@[6] == 's'); assert("step_system_update"@[6] == 'y');
    reveal_strlit("step_user_creation"); assert("step_ssh_key_setup"@[5] == 's'); assert("step_user_creation"@[5] == 'u');
    reveal_strlit("step_ssh_root_login"); assert("step_ssh_root_login"@.len() == 19);
    reveal_strlit("step_ssh_port_change"); assert("step_ssh_port_change"@.len() == 20);
    reveal_strlit("step_ssh_password_auth"); assert("step_ssh_password_auth"@.len() == 22);
}

proof fn entry_step_ufw()
    ensures
        zh_cn_text("step_ufw"@) == Some(kind_label(StepKind::Ufw)),
{
    reveal_strlit("step_ufw"); assert("step_ufw"@.len() == 8);
    reveal_strlit("lang_en"); assert("lang_en"@.len() == 7);
    reveal_strlit("lang_zh_cn"); assert("lang_zh_cn"@.len() == 10);
    reveal_strlit("lang_zh_tw"); assert("lang_zh_tw"@.len() == 10);
    reveal_strlit("select_language"); assert("select_language"@.len() == 15);
    reveal_strlit("select_mode"); assert("select_mode"@.len() == 11);
    reveal_strlit("mode_cli"); assert("step_ufw"@[0] == 's'); assert("mode_cli"@[0] == 'm');
    reveal_strlit("mode_tui"); assert("step_ufw"@[0] == 's'); assert("mode_tui"@[0] == 'm');
    reveal_strlit("unknown_arg"); assert("unknown_arg"@.len() == 11);
    reveal_strlit("app_title"); assert("app_title"@.len() == 9);
    reveal_strlit("step_system_update"); assert("step_system_update"@.len() == 18);
    reveal_strlit("step_user_creation"); assert("step_user_creation"@.len() == 18);
    reveal_strlit("step_ssh_root_login"); assert("step_ssh_root_login"@.len() == 19);
    reveal_strlit("step_ssh_port_change"); assert("step_ssh_port_change"@.len() == 20);
    reveal_strlit("step_ssh_password_auth"); assert("step_ssh_password_auth"@.len() == 22);
    reveal_strlit("step_ssh_key_setup"); assert("step_ssh_key_setup"@.len() == 18);
}

proof fn entry_step_fail2ban()
    ensures
        zh_cn_text("step_fail2ban"@) == Some(kind_label(StepKind::Fail2ban)),
{
    reveal_strlit("step_fail2ban"); assert("step_fail2ban"@.len() == 13);
    reveal_strlit("lang_en"); assert("lang_en"@.len() == 7);
    reveal_strlit("lang_zh_cn"); assert("lang_zh_cn"@.len() == 10);
    reveal_strlit("lang_zh_tw"); assert("lang_zh_tw"@.len() == 10);
    reveal_strlit("select_language"); assert("select_language"@.len() == 15);
    reveal_strlit("select_mode"); assert("select_mode"@.len() == 11);
    reveal_strlit("mode_cli"); assert("mode_cli"@.len() == 8);
    reveal_strlit("mode_tui"); assert("mode_tui"@.len() == 8);
    reveal_strlit("unknown_arg"); assert("unknown_arg"@.len() == 11);
    reveal_strlit("app_title"); assert("app_title"@.len() == 9);
    reveal_strlit("step_system_update"); assert("step_system_update"@.len() == 18);
    reveal_strlit("step_user_creation"); assert("step_user_creation"@.len() == 18);
    reveal_strlit("step_ssh_root_login"); assert("step_ssh_root_login"@.len() == 19);
    reveal_strlit("step_ssh_port_change"); assert("step_ssh_port_change"@.len() == 20);
    reveal_strlit("step_ssh_password_auth"); assert("step_ssh_password_auth"@.len() == 22);
    reveal_strlit("step_ssh_key_setup"); assert("step_ssh_key_setup"@.len() == 18);
    reveal_strlit("step_ufw"); assert("step_ufw"@.len() == 8);
}

proof fn entry_step_auto_updates()
    ensures
        zh_cn_text("step_auto_updates"@) == Some(kind_label(StepKind::AutoUpdates)),
{
    reveal_strlit("step_auto_updates"); assert("step_auto_updates"@.len() == 17);
    reveal_strlit("lang_en"); assert("lang_en"@.len() == 7);
    reveal_strlit("lang_zh_cn"); assert("lang_zh_cn"@.len() == 10);
    reveal_strlit("lang_zh_tw"); assert("lang_zh_tw"@.len() == 10);
    reveal_strlit("select_language"); assert("select_language"@.len() == 15);
    reveal_strlit("select_mode"); assert("select_mode"@.len() == 11);
    reveal_strlit("mode_cli"); assert("mode_cli"@.len() == 8);
    reveal_strlit("mode_tui"); assert("mode_tui"@.len() == 8);
    reveal_strlit("unknown_arg"); assert("unknown_arg"@.len() == 11);
    reveal_strlit("app_title"); assert("app_title"@.len() == 9);
    reveal_strlit("step_system_update"); assert("step_system_update"@.len() == 18);
    reveal_strlit("step_user_creation"); assert("step_user_creation"@.len() == 18);
    reveal_strlit("step_ssh_root_login"); assert("step_ssh_root_login"@.len() == 19);
    reveal_strlit("step_ssh_port_change"); assert("step_ssh_port_change"@.len() == 20);
    reveal_strlit("step_ssh_password_auth"); assert("step_ssh_password_auth"@.len() == 22);
    reveal_strlit("step_ssh_key_setup"); assert("step_ssh_key_setup"@.len() == 18);
    reveal_strlit("step_ufw"); assert("step_ufw"@.len() == 8);
    reveal_strlit("step_fail2ban"); assert("step_fail2ban"@.len() == 13);
}

proof fn entry_step_security_scan()
    ensures
        zh_cn_text("step_security_scan"@) == Some(kind_label(StepKind::SecurityScan)),
{
    reveal_strlit("step_security_scan"); assert("step_security_scan"@.len() == 18);
    reveal_strlit("lang_en"); assert("lang_en"@.len() == 7);
    reveal_strlit("lang_zh_cn"); assert("lang_zh_cn"@.len() == 10);
    reveal_strlit("lang_zh_tw"); assert("lang_zh_tw"@.len() == 10);
    reveal_strlit("select_language"); assert("select_language"@.len() == 15);
    reveal_strlit("select_mode"); assert("select_mode"@.len() == 11);
    reveal_strlit("mode_cli"); assert("mode_cli"@.len() == 8);
    reveal_strlit("mode_tui"); assert("mode_tui"@.len() == 8);
    reveal_strlit("unknown_arg"); assert("unknown_arg"@.len() == 11);
    reveal_strlit("app_title"); assert("app_title"@.len() == 9);
    reveal_strlit("step_system_update"); assert("step_security_scan"@[6] == 'e'); assert("step_system_update"@[6] == 'y');
    reveal_strlit("step_user_creation"); assert("step_security_scan"@[5] == 's'); assert("step_user_creation"@[5] == 'u');
    reveal_strlit("step_ssh_root_login"); assert("step_ssh_root_login"@.len() == 19);
    reveal_strlit("step_ssh_port_change"); assert("step_ssh_port_change"@.len() == 20);
    reveal_strlit("step_ssh_password_auth"); assert("step_ssh_password_auth"@.len() == 22);
    reveal_strlit("step_ssh_key_setup"); assert("step_security_scan"@[6] == 'e'); assert("step_ssh_key_setup"@[6] == 's');
    reveal_strlit("step_ufw"); assert("step_ufw"@.len() == 8);
    reveal_strlit("step_fail2ban"); assert("step_fail2ban"@.len() == 13);
    reveal_strlit("step_auto_updates"); assert("step_auto_updates"@.len() == 17);
}

proof fn entry_step_log_audit()
    ensures
        zh_cn_text("step_log_audit"@) == Some(kind_label(StepKind::LogAudit)),
{
    reveal_strlit("step_log_audit"); assert("step_log_audit"@.len() == 14);
    reveal_strlit("lang_en"); assert("lang_en"@.len() == 7);
    reveal_strlit("lang_zh_cn"); assert("lang_zh_cn"@.len() == 10);
    reveal_strlit("lang_zh_tw"); assert("lang_zh_tw"@.len() == 10);
    reveal_strlit("select_language"); assert("select_language"@.len() == 15);
    reveal_strlit("select_mode"); assert("select_mode"@.len() == 11);
    reveal_strlit("mode_cli"); assert("mode_cli"@.len() == 8);
    reveal_strlit("mode_tui"); assert("mode_tui"@.len() == 8);
    reveal_strlit("unknown_arg"); assert("unknown_arg"@.len() == 11);
    reveal_strlit("app_title"); assert("app_title"@.len() == 9);
    reveal_strlit("step_system_update"); assert("step_system_update"@.len() == 18);
    reveal_strlit("step_user_creation"); assert("step_user_creation"@.len() == 18);
    reveal_strlit("step_ssh_root_login"); assert("step_ssh_root_login"@.len() == 19);
    reveal_strlit("step_ssh_port_change"); assert("step_ssh_port_change"@.len() == 20);
    reveal_strlit("step_ssh_password_auth"); assert("step_ssh_password_auth"@.len() == 22);
    reveal_strlit("step_ssh_key_setup"); assert("step_ssh_key_setup"@.len() == 18);
    reveal_strlit("step_ufw"); assert("step_ufw"@.len() == 8);
    reveal_strlit("step_fail2ban"); assert("step_fail2ban"@.len() == 13);
    reveal_strlit("step_auto_updates"); assert("step_auto_updates"@.len() == 17);
    reveal_strlit("step_security_scan"); assert("step_security_scan"@.len() == 18);
}

proof fn entry_step_restart_ssh()
    ensures
        zh_cn_text("step_restart_ssh"@) == Some(kind_label(StepKind::RestartSsh)),
{
    reveal_strlit("step_restart_ssh"); assert("step_restart_ssh"@.len() == 16);
    reveal_strlit("lang_en"); assert("lang_en"@.len() == 7);
    reveal_strlit("lang_zh_cn"); assert("lang_zh_cn"@.len() == 10);
    reveal_strlit("lang_zh_tw"); assert("lang_zh_tw"@.len() == 10);
    reveal_strlit("select_language"); assert("select_language"@.len() == 15);
    reveal_strlit("select_mode"); assert("select_mode"@.len() == 11);
    reveal_strlit("mode_cli"); assert("mode_cli"@.len() == 8);
    reveal_strlit("mode_tui"); assert("mode_tui"@.len() == 8);
    reveal_strlit("unknown_arg"); assert("unknown_arg"@.len() == 11);
    reveal_strlit("app_title"); assert("app_title"@.len() == 9);
    reveal_strlit("step_system_update"); assert("step_system_update"@.len() == 18);
    reveal_strlit("step_user_creation"); assert("step_user_creation"@.len() == 18);
    reveal_strlit("step_ssh_root_login"); assert("step_ssh_root_login"@.len() == 19);
    reveal_strlit("step_ssh_port_change"); assert("step_ssh_port_change"@.len() == 20);
    reveal_strlit("step_ssh_password_auth"); assert("step_ssh_password_auth"@.len() == 22);
    reveal_strlit("step_ssh_key_setup"); assert("step_ssh_key_setup"@.len() == 18);
    reveal_strlit("step_ufw"); assert("step_ufw"@.len() == 8);
    reveal_strlit("step_fail2ban"); assert("step_fail2ban"@.len() == 13);
    reveal_strlit("step_auto_updates"); assert("step_auto_updates"@.len() == 17);
    reveal_strlit("step_security_scan"); assert("step_security_scan"@.len() == 18);
    reveal_strlit("step_log_audit"); assert("step_log_audit"@.len() == 14);
}

proof fn entry_status_safe()
    ensures
        zh_cn_text("status_safe"@) == Some(status_icon(AuditStatus::Safe)),
{
    reveal_strlit("status_safe"); assert("status_safe"@.len() == 11);
    reveal_strlit("lang_en"); assert("lang_en"@.len() == 7);
    reveal_strlit("lang_zh_cn"); assert("lang_zh_cn"@.len() == 10);
    reveal_strlit("lang_zh_tw"); assert("lang_zh_tw"@.len() == 10);
    reveal_strlit("select_language"); assert("select_language"@.len() == 15);
    reveal_strlit("select_mode"); assert("status_safe"@[1] == 't'); assert("select_mode"@[1] == 'e');
    reveal_strlit("mode_cli"); assert("mode_cli"@.len() == 8);
    reveal_strlit("mode_tui"); assert("mode_tui"@.len() == 8);
    reveal_strlit("unknown_arg"); assert("status_safe"@[0] == 's'); assert("unknown_arg"@[0] == 'u');
    reveal_strlit("app_title"); assert("app_title"@.len() == 9);
    reveal_strlit("step_system_update"); assert("step_system_update"@.len() == 18);
    reveal_strlit("step_user_creation"); assert("step_user_creation"@.len() == 18);
    reveal_strlit("step_ssh_root_login"); assert("step_ssh_root_login"@.len() == 19);
    reveal_strlit("step_ssh_port_change"); assert("step_ssh_port_change"@.len() == 20);
    reveal_strlit("step_ssh_password_auth"); assert("step_ssh_password_auth"@.len() == 22);
    reveal_strlit("step_ssh_key_setup"); assert("step_ssh_key_setup"@.len() == 18);
    reveal_strlit("step_ufw"); assert("step_ufw"@.len() == 8);
    reveal_strlit("step_fail2ban"); assert("step_fail2ban"@.len() == 13);
    reveal_strlit("step_auto_updates"); assert("step_auto_updates"@.len() == 17);
    reveal_strlit("step_security_scan"); assert("step_security_scan"@.len() == 18);
    reveal_strlit("step_log_audit"); assert("step_log_audit"@.len() == 14);
    reveal_strlit("step_restart_ssh"); assert("step_restart_ssh"@.len() == 16);
    reveal_strlit("audit_root"); assert("audit_root"@.len() == 10);
    reveal_strlit("audit_pkg_mgr"); assert("audit_pkg_mgr"@.len() == 13);
    reveal_strlit("audit_ssh_port"); assert("audit_ssh_port"@.len() == 14);
    reveal_strlit("audit_password_auth"); assert("audit_password_auth"@.len() == 19);
    reveal_strlit("audit_root_login"); assert("audit_root_login"@.len() == 16);
    reveal_strlit("audit_sudo_users"); assert("audit_sudo_users"@.len() == 16);
    reveal_strlit("audit_fail2ban"); assert("audit_fail2ban"@.len() == 14);
    reveal_strlit("audit_ufw"); assert("audit_ufw"@.len() == 9);
    reveal_strlit("audit_auto_updates"); assert("audit_auto_updates"@.len() == 18);
    reveal_strlit("audit_sys_update"); assert("audit_sys_update"@.len() == 16);
    reveal_strlit("audit_detail_root_ok"); assert("audit_detail_root_ok"@.len() == 20);
    reveal_strlit("audit_detail_root_missing"); assert("audit_detail_root_missing"@.len() == 25);
    reveal_strlit("audit_detail_pkg"); assert("audit_detail_pkg"@.len() == 16);
    reveal_strlit("audit_detail_port_safe"); assert("audit_detail_port_safe"@.len() == 22);
    reveal_strlit("audit_detail_port_missing"); assert("audit_detail_port_missing"@.len() == 25);
    reveal_strlit("audit_detail_pw_disabled"); assert("audit_detail_pw_disabled"@.len() == 24);
    reveal_strlit("audit_detail_pw_missing"); assert("audit_detail_pw_missing"@.len() == 23);
    reveal_strlit("audit_detail_root_disabled"); assert("audit_detail_root_disabled"@.len() == 26);
    reveal_strlit("audit_detail_root_missing_cfg"); assert("audit_detail_root_missing_cfg"@.len() == 29);
    reveal_strlit("audit_detail_sudo_missing"); assert("audit_detail_sudo_missing"@.len() == 25);
    reveal_strlit("audit_detail_sudo_ok"); assert("audit_detail_sudo_ok"@.len() == 20);
    reveal_strlit("audit_detail_fb_installed"); assert("audit_detail_fb_installed"@.len() == 25);
    reveal_strlit("audit_detail_fb_missing"); assert("audit_detail_fb_missing"@.len() == 23);
    reveal_strlit("audit_detail_ufw_enabled"); assert("audit_detail_ufw_enabled"@.len() == 24);
    reveal_strlit("audit_detail_ufw_missing"); assert("audit_detail_ufw_missing"@.len() == 24);
    reveal_strlit("audit_detail_au_enabled"); assert("audit_detail_au_enabled"@.len() == 23);
    reveal_strlit("audit_detail_au_missing"); assert("audit_detail_au_missing"@.len() == 23);
    reveal_strlit("audit_detail_sys_uptodate"); assert("audit_detail_sys_uptodate"@.len() == 25);
    reveal_strlit("audit_detail_sys_needs_update"); assert("audit_detail_sys_needs_update"@.len() == 29);
}

proof fn entry_status_partial()
    ensures
        zh_cn_text("status_partial"@) == Some(status_icon(AuditStatus::Partial)),
{
    reveal_strlit("status_partial"); assert("status_partial"@.len() == 14);
    reveal_strlit("lang_en"); assert("lang_en"@.len() == 7);
    reveal_strlit("lang_zh_cn"); assert("lang_zh_cn"@.len() == 10);
    reveal_strlit("lang_zh_tw"); assert("lang_zh_tw"@.len() == 10);
    reveal_strlit("select_language"); assert("select_language"@.len() == 15);
    reveal_strlit("select_mode"); assert("select_mode"@.len() == 11);
    reveal_strlit("mode_cli"); assert("mode_cli"@.len() == 8);
    reveal_strlit("mode_tui"); assert("mode_tui"@.len() == 8);
    reveal_strlit("unknown_arg"); assert("unknown_arg"@.len() == 11);
    reveal_strlit("app_title"); assert("app_title"@.len() == 9);
    reveal_strlit("step_system_update"); assert("step_system_update"@.len() == 18);
    reveal_strlit("step_user_creation"); assert("step_user_creation"@.len() == 18);
    reveal_strlit("step_ssh_root_login"); assert("step_ssh_root_login"@.len() == 19);
    reveal_strlit("step_ssh_port_change"); assert("step_ssh_port_change"@.len() == 20);
    reveal_strlit("step_ssh_password_auth"); assert("step_ssh_password_auth"@.len() == 22);
    reveal_strlit("step_ssh_key_setup"); assert("step_ssh_key_setup"@.len() == 18);
    reveal_strlit("step_ufw"); assert("step_ufw"@.len() == 8);
    reveal_strlit("step_fail2ban"); assert("step_fail2ban"@.len() == 13);
    reveal_strlit("step_auto_updates"); assert("step_auto_updates"@.len() == 17);
    reveal_strlit("step_security_scan"); assert("step_security_scan"@.len() == 18);
    reveal_strlit("step_log_audit"); assert("status_partial"@[2] == 'a'); assert("step_log_audit"@[2] == 'e');
    reveal_strlit("step_restart_ssh"); assert("step_restart_ssh"@.len() == 16);
    reveal_strlit("audit_root"); assert("audit_root"@.len() == 10);
    reveal_strlit("audit_pkg_mgr"); assert("audit_pkg_mgr"@.len() == 13);
    reveal_strlit("audit_ssh_port"); assert("status_partial"@[0] == 's'); assert("audit_ssh_port"@[0] == 'a');
    reveal_strlit("audit_password_auth"); assert("audit_password_auth"@.len() == 19);
    reveal_strlit("audit_root_login"); assert("audit_root_login"@.len() == 16);
    reveal_strlit("audit_sudo_users"); assert("audit_sudo_users"@.len() == 16);
    reveal_strlit("audit_fail2ban"); assert("status_partial"@[0] == 's'); assert("audit_fail2ban"@[0] == 'a');
    reveal_strlit("audit_ufw"); assert("audit_ufw"@.len() == 9);
    reveal_strlit("audit_auto_updates"); assert("audit_auto_updates"@.len() == 18);
    reveal_strlit("audit_sys_update"); assert("audit_sys_update"@.len() == 16);
    reveal_strlit("audit_detail_root_ok"); assert("audit_detail_root_ok"@.len() == 20);
    reveal_strlit("audit_detail_root_missing"); assert("audit_detail_root_missing"@.len() == 25);
    reveal_strlit("audit_detail_pkg"); assert("audit_detail_pkg"@.len() == 16);
    reveal_strlit("audit_detail_port_safe"); assert("audit_detail_port_safe"@.len() == 22);
    reveal_strlit("audit_detail_port_missing"); assert("audit_detail_port_missing"@.len() == 25);
    reveal_strlit("audit_detail_pw_disabled"); assert("audit_detail_pw_disabled"@.len() == 24);
    reveal_strlit("audit_detail_pw_missing"); assert("audit_detail_pw_missing"@.len() == 23);
    reveal_strlit("audit_detail_root_disabled"); assert("audit_detail_root_disabled"@.len() == 26);
    reveal_strlit("audit_detail_root_missing_cfg"); assert("audit_detail_root_missing_cfg"@.len() == 29);
    reveal_strlit("audit_detail_sudo_missing"); assert("audit_detail_sudo_missing"@.len() == 25);
    reveal_strlit("audit_detail_sudo_ok"); assert("audit_detail_sudo_ok"@.len() == 20);
    reveal_strlit("audit_detail_fb_installed"); assert("audit_detail_fb_installed"@.len() == 25);
    reveal_strlit("audit_detail_fb_missing"); assert("audit_detail_fb_missing"@.len() == 23);
    reveal_strlit("audit_detail_ufw_enabled"); assert("audit_detail_ufw_enabled"@.len() == 24);
    reveal_strlit("audit_detail_ufw_missing"); assert("audit_detail_ufw_missing"@.len() == 24);
    reveal_strlit("audit_detail_au_enabled"); assert("audit_detail_au_enabled"@.len() == 23);
    reveal_strlit("audit_detail_au_missing"); assert("audit_detail_au_missing"@.len() == 23);
    reveal_strlit("audit_detail_sys_uptodate"); assert("audit_detail_sys_uptodate"@.len() == 25);
    reveal_strlit("audit_detail_sys_needs_update"); assert("audit_detail_sys_needs_update"@.len() == 29);
    reveal_strlit("status_safe"); assert("status_safe"@.len() == 11);
}

proof fn entry_status_missing()
    ensures
        zh_cn_text("status_missing"@) == Some(status_icon(AuditStatus::Missing)),
{
    reveal_strlit("status_missing"); assert("status_missing"@.len() == 14);
    reveal_strlit("lang_en"); assert("lang_en"@.len() == 7);
    reveal_strlit("lang_zh_cn"); assert("lang_zh_cn"@.len() == 10);
    reveal_strlit("lang_zh_tw"); assert("lang_zh_tw"@.len() == 10);
    reveal_strlit("select_language"); assert("select_language"@.len() == 15);
    reveal_strlit("select_mode"); assert("select_mode"@.len() == 11);
    reveal_strlit("mode_cli"); assert("mode_cli"@.len() == 8);
    reveal_strlit("mode_tui"); assert("mode_tui"@.len() == 8);
    reveal_strlit("unknown_arg"); assert("unknown_arg"@.len() == 11);
    reveal_strlit("app_title"); assert("app_title"@.len() == 9);
    reveal_strlit("step_system_update"); assert("step_system_update"@.len() == 18);
    reveal_strlit("step_user_creation"); assert("step_user_creation"@.len() == 18);
    reveal_strlit("step_ssh_root_login"); assert("step_ssh_root_login"@.len() == 19);
    reveal_strlit("step_ssh_port_change"); assert("step_ssh_port_change"@.len() == 20);
    reveal_strlit("step_ssh_password_auth"); assert("step_ssh_password_auth"@.len() == 22);
    reveal_strlit("step_ssh_key_setup"); assert("step_ssh_key_setup"@.len() == 18);
    reveal_strlit("step_ufw"); assert("step_ufw"@.len() == 8);
    reveal_strlit("step_fail2ban"); assert("step_fail2ban"@.len() == 13);
    reveal_strlit("step_auto_updates"); assert("step_auto_updates"@.len() == 17);
    reveal_strlit("step_security_scan"); assert("step_security_scan"@.len() == 18);
    reveal_strlit("step_log_audit"); assert("status_missing"@[2] == 'a'); assert("step_log_audit"@[2] == 'e');
    reveal_strlit("step_restart_ssh"); assert("step_restart_ssh"@.len() == 16);
    reveal_strlit("audit_root"); assert("audit_root"@.len() == 10);
    reveal_strlit("audit_pkg_mgr"); assert("audit_pkg_mgr"@.len() == 13);
    reveal_strlit("audit_ssh_port"); assert("status_missing"@[0] == 's'); assert("audit_ssh_port"@[0] == 'a');
    reveal_strlit("audit_password_auth"); assert("audit_password_auth"@.len() == 19);
    reveal_strlit("audit_root_login"); assert("audit_root_login"@.len() == 16);
    reveal_strlit("audit_sudo_users"); assert("audit_sudo_users"@.len() == 16);
    reveal_strlit("audit_fail2ban"); assert("status_missing"@[0] == 's'); assert("audit_fail2ban"@[0] == 'a');
    reveal_strlit("audit_ufw"); assert("audit_ufw"@.len() == 9);
    reveal_strlit("audit_auto_updates"); assert("audit_auto_updates"@.len() == 18);
    reveal_strlit("audit_sys_update"); assert("audit_sys_update"@.len() == 16);
    reveal_strlit("audit_detail_root_ok"); assert("audit_detail_root_ok"@.len() == 20);
    reveal_strlit("audit_detail_root_missing"); assert("audit_detail_root_missing"@.len() == 25);
    reveal_strlit("audit_detail_pkg"); assert("audit_detail_pkg"@.len() == 16);
    reveal_strlit("audit_detail_port_safe"); assert("audit_detail_port_safe"@.len() == 22);
    reveal_strlit("audit_detail_port_missing"); assert("audit_detail_port_missing"@.len() == 25);
    reveal_strlit("audit_detail_pw_disabled"); assert("audit_detail_pw_disabled"@.len() == 24);
    reveal_strlit("audit_detail_pw_missing"); assert("audit_detail_pw_missing"@.len() == 23);
    reveal_strlit("audit_detail_root_disabled"); assert("audit_detail_root_disabled"@.len() == 26);
    reveal_strlit("audit_detail_root_missing_cfg"); assert("audit_detail_root_missing_cfg"@.len() == 29);
    reveal_strlit("audit_detail_sudo_missing"); assert("audit_detail_sudo_missing"@.len() == 25);
    reveal_strlit("audit_detail_sudo_ok"); assert("audit_detail_sudo_ok"@.len() == 20);
    reveal_strlit("audit_detail_fb_installed"); assert("audit_detail_fb_installed"@.len() == 25);
    reveal_strlit("audit_detail_fb_missing"); assert("audit_detail_fb_missing"@.len() == 23);
    reveal_strlit("audit_detail_ufw_enabled"); assert("audit_detail_ufw_enabled"@.len() == 24);
    reveal_strlit("audit_detail_ufw_missing"); assert("audit_detail_ufw_missing"@.len() == 24);
    reveal_strlit("audit_detail_au_enabled"); assert("audit_detail_au_enabled"@.len() == 23);
    reveal_strlit("audit_detail_au_missing"); assert("audit_detail_au_missing"@.len() == 23);
    reveal_strlit("audit_detail_sys_uptodate"); assert("audit_detail_sys_uptodate"@.len() == 25);
    reveal_strlit("audit_detail_sys_needs_update"); assert("audit_detail_sys_needs_update"@.len() == 29);
    reveal_strlit("status_safe"); assert("status_safe"@.len() == 11);
    reveal_strlit("status_partial"); assert("status_missing"@[7] == 'm'); assert("status_partial"@[7] == 'p');
}

proof fn entry_status_needs_update()
    ensures
        zh_cn_text("status_needs_update"@) == Some(status_icon(AuditStatus::NeedsUpdate)),
{
    reveal_strlit("status_needs_update"); assert("status_needs_update"@.len() == 19);
    reveal_strlit("lang_en"); assert("lang_en"@.len() == 7);
    reveal_strlit("lang_zh_cn"); assert("lang_zh_cn"@.len() == 10);
    reveal_strlit("lang_zh_tw"); assert("lang_zh_tw"@.len() == 10);
    reveal_strlit("select_language"); assert("select_language"@.len() == 15);
    reveal_strlit("select_mode"); assert("select_mode"@.len() == 11);
    reveal_strlit("mode_cli"); assert("mode_cli"@.len() == 8);
    reveal_strlit("mode_tui"); assert("mode_tui"@.len() == 8);
    reveal_strlit("unknown_arg"); assert("unknown_arg"@.len() == 11);
    reveal_strlit("app_title"); assert("app_title"@.len() == 9);
    reveal_strlit("step_system_update"); assert("step_system_update"@.len() == 18);
    reveal_strlit("step_user_creation"); assert("step_user_creation"@.len() == 18);
    reveal_strlit("step_ssh_root_login"); assert("status_needs_update"@[2] == 'a'); assert("step_ssh_root_login"@[2] == 'e');
    reveal_strlit("step_ssh_port_change"); assert("step_ssh_port_change"@.len() == 20);
    reveal_strlit("step_ssh_password_auth"); assert("step_ssh_password_auth"@.len() == 22);
    reveal_strlit("step_ssh_key_setup"); assert("step_ssh_key_setup"@.len() == 18);
    reveal_strlit("step_ufw"); assert("step_ufw"@.len() == 8);
    reveal_strlit("step_fail2ban"); assert("step_fail2ban"@.len() == 13);
    reveal_strlit("step_auto_updates"); assert("step_auto_updates"@.len() == 17);
    reveal_strlit("step_security_scan"); assert("step_security_scan"@.len() == 18);
    reveal_strlit("step_log_audit"); assert("step_log_audit"@.len() == 14);
    reveal_strlit("step_restart_ssh"); assert("step_restart_ssh"@.len() == 16);
    reveal_strlit("audit_root"); assert("audit_root"@.len() == 10);
    reveal_strlit("audit_pkg_mgr"); assert("audit_pkg_mgr"@.len() == 13);
    reveal_strlit("audit_ssh_port"); assert("audit_ssh_port"@.len() == 14);
    reveal_strlit("audit_password_auth"); assert("status_needs_update"@[0] == 's'); assert("audit_password_auth"@[0] == 'a');
    reveal_strlit("audit_root_login"); assert("audit_root_login"@.len() == 16);
    reveal_strlit("audit_sudo_users"); assert("audit_sudo_users"@.len() == 16);
    reveal_strlit("audit_fail2ban"); assert("audit_fail2ban"@.len() == 14);
    reveal_strlit("audit_ufw"); assert("audit_ufw"@.len() == 9);
    reveal_strlit("audit_auto_updates"); assert("audit_auto_updates"@.len() == 18);
    reveal_strlit("audit_sys_update"); assert("audit_sys_update"@.len() == 16);
    reveal_strlit("audit_detail_root_ok"); assert("audit_detail_root_ok"@.len() == 20);
    reveal_strlit("audit_detail_root_missing"); assert("audit_detail_root_missing"@.len() == 25);
    reveal_strlit("audit_detail_pkg"); assert("audit_detail_pkg"@.len() == 16);
    reveal_strlit("audit_detail_port_safe"); assert("audit_detail_port_safe"@.len() == 22);
    reveal_strlit("audit_detail_port_missing"); assert("audit_detail_port_missing"@.len() == 25);
    reveal_strlit("audit_detail_pw_disabled"); assert("audit_detail_pw_disabled"@.len() == 24);
    reveal_strlit("audit_detail_pw_missing"); assert("audit_detail_pw_missing"@.len() == 23);
    reveal_strlit("audit_detail_root_disabled"); assert("audit_detail_root_disabled"@.len() == 26);
    reveal_strlit("audit_detail_root_missing_cfg"); assert("audit_detail_root_missing_cfg"@.len() == 29);
    reveal_strlit("audit_detail_sudo_missing"); assert("audit_detail_sudo_missing"@.len() == 25);
    reveal_strlit("audit_detail_sudo_ok"); assert("audit_detail_sudo_ok"@.len() == 20);
    reveal_strlit("audit_detail_fb_installed"); assert("audit_detail_fb_installed"@.len() == 25);
    reveal_strlit("audit_detail_fb_missing"); assert("audit_detail_fb_missing"@.len() == 23);
    reveal_strlit("audit_detail_ufw_enabled"); assert("audit_detail_ufw_enabled"@.len() == 24);
    reveal_strlit("audit_detail_ufw_missing"); assert("audit_detail_ufw_missing"@.len() == 24);
    reveal_strlit("audit_detail_au_enabled"); assert("audit_detail_au_enabled"@.len() == 23);
    reveal_strlit("audit_detail_au_missing"); assert("audit_detail_au_missing"@.len() == 23);
    reveal_strlit("audit_detail_sys_uptodate"); assert("audit_detail_sys_uptodate"@.len() == 25);
    reveal_strlit("audit_detail_sys_needs_update"); assert("audit_detail_sys_needs_update"@.len() == 29);
    reveal_strlit("status_safe"); assert("status_safe"@.len() == 11);
    reveal_strlit("status_partial"); assert("status_partial"@.len() == 14);
    reveal_strlit("status_missing"); assert("status_missing"@.len() == 14);
}

proof fn entry_pkg_apt()
    ensures
        zh_cn_text("pkg_apt"@) == Some(pm_name(PackageManager::Apt)),
{
    reveal_strlit("pkg_apt"); assert("pkg_apt"@.len() == 7);
    reveal_strlit("lang_en"); assert("pkg_apt"@[0] == 'p'); assert("lang_en"@[0] == 'l');
    reveal_strlit("lang_zh_cn"); assert("lang_zh_cn"@.len() == 10);
    reveal_strlit("lang_zh_tw"); assert("lang_zh_tw"@.len() == 10);
    reveal_strlit("select_language"); assert("select_language"@.len() == 15);
    reveal_strlit("select_mode"); assert("select_mode"@.len() == 11);
    reveal_strlit("mode_cli"); assert("mode_cli"@.len() == 8);
    reveal_strlit("mode_tui"); assert("mode_tui"@.len() == 8);
    reveal_strlit("unknown_arg"); assert("unknown_arg"@.len() == 11);
    reveal_strlit("app_title"); assert("app_title"@.len() == 9);
    reveal_strlit("step_system_update"); assert("step_system_update"@.len() == 18);
    reveal_strlit("step_user_creation"); assert("step_user_creation"@.len() == 18);
    reveal_strlit("step_ssh_root_login"); assert("step_ssh_root_login"@.len() == 19);
    reveal_strlit("step_ssh_port_change"); assert("step_ssh_port_change"@.len() == 20);
    reveal_strlit("step_ssh_password_auth"); assert("step_ssh_password_auth"@.len() == 22);
    reveal_strlit("step_ssh_key_setup"); assert("step_ssh_key_setup"@.len() == 18);
    reveal_strlit("step_ufw"); assert("step_ufw"@.len() == 8);
    reveal_strlit("step_fail2ban"); assert("step_fail2ban"@.len() == 13);
    reveal_strlit("step_auto_updates"); assert("step_auto_updates"@.len() == 17);
    reveal_strlit("step_security_scan"); assert("step_security_scan"@.len() == 18);
    reveal_strlit("step_log_audit"); assert("step_log_audit"@.len() == 14);
    reveal_strlit("step_restart_ssh"); assert("step_restart_ssh"@.len() == 16);
    reveal_strlit("audit_root"); assert("audit_root"@.len() == 10);
    reveal_strlit("audit_pkg_mgr"); assert("audit_pkg_mgr"@.len() == 13);
    reveal_strlit("audit_ssh_port"); assert("audit_ssh_port"@.len() == 14);
    reveal_strlit("audit_password_auth"); assert("audit_password_auth"@.len() == 19);
    reveal_strlit("audit_root_login"); assert("audit_root_login"@.len() == 16);
    reveal_strlit("audit_sudo_users"); assert("audit_sudo_users"@.len() == 16);
    reveal_strlit("audit_fail2ban"); assert("audit_fail2ban"@.len() == 14);
    reveal_strlit("audit_ufw"); assert("audit_ufw"@.len() == 9);
    reveal_strlit("audit_auto_updates"); assert("audit_auto_updates"@.len() == 18);
    reveal_strlit("audit_sys_update"); assert("audit_sys_update"@.len() == 16);
    reveal_strlit("audit_detail_root_ok"); assert("audit_detail_root_ok"@.len() == 20);
    reveal_strlit("audit_detail_root_missing"); assert("audit_detail_root_missing"@.len() == 25);
    reveal_strlit("audit_detail_pkg"); assert("audit_detail_pkg"@.len() == 16);
    reveal_strlit("audit_detail_port_safe"); assert("audit_detail_port_safe"@.len() == 22);
    reveal_strlit("audit_detail_port_missing"); assert("audit_detail_port_missing"@.len() == 25);
    reveal_strlit("audit_detail_pw_disabled"); assert("audit_detail_pw_disabled"@.len() == 24);
    reveal_strlit("audit_detail_pw_missing"); assert("audit_detail_pw_missing"@.len() == 23);
    reveal_strlit("audit_detail_root_disabled"); assert("audit_detail_root_disabled"@.len() == 26);
    reveal_strlit("audit_detail_root_missing_cfg"); assert("audit_detail_root_missing_cfg"@.len() == 29);
    reveal_strlit("audit_detail_sudo_missing"); assert("audit_detail_sudo_missing"@.len() == 25);
    reveal_strlit("audit_detail_sudo_ok"); assert("audit_detail_sudo_ok"@.len() == 20);
    reveal_strlit("audit_detail_fb_installed"); assert("audit_detail_fb_installed"@.len() == 25);
    reveal_strlit("audit_detail_fb_missing"); assert("audit_detail_fb_missing"@.len() == 23);
    reveal_strlit("audit_detail_ufw_enabled"); assert("audit_detail_ufw_enabled"@.len() == 24);
    reveal_strlit("audit_detail_ufw_missing"); assert("audit_detail_ufw_missing"@.len() == 24);
    reveal_strlit("audit_detail_au_enabled"); assert("audit_detail_au_enabled"@.len() == 23);
    reveal_strlit("audit_detail_au_missing"); assert("audit_detail_au_missing"@.len() == 23);
    reveal_strlit("audit_detail_sys_uptodate"); assert("audit_detail_sys_uptodate"@.len() == 25);
    reveal_strlit("audit_detail_sys_needs_update"); assert("audit_detail_sys_needs_update"@.len() == 29);
    reveal_strlit("status_safe"); assert("status_safe"@.len() == 11);
    reveal_strlit("status_partial"); assert("status_partial"@.len() == 14);
    reveal_strlit("status_missing"); assert("status_missing"@.len() == 14);
    reveal_strlit("status_needs_update"); assert("status_needs_update"@.len() == 19);
}

proof fn entry_pkg_yum()
    ensures
        zh_cn_text("pkg_yum"@) == Some(pm_name(PackageManager::Yum)),
{
    reveal_strlit("pkg_yum"); assert("pkg_yum"@.len() == 7);
    reveal_strlit("lang_en"); assert("pkg_yum"@[0] == 'p'); assert("lang_en"@[0] == 'l');
    reveal_strlit("lang_zh_cn"); assert("lang_zh_cn"@.len() == 10);
    reveal_strlit("lang_zh_tw"); assert("lang_zh_tw"@.len() == 10);
    reveal_strlit("select_language"); assert("select_language"@.len() == 15);
    reveal_strlit("select_mode"); assert("select_mode"@.len() == 11);
    reveal_strlit("mode_cli"); assert("mode_cli"@.len() == 8);
    reveal_strlit("mode_tui"); assert("mode_tui"@.len() == 8);
    reveal_strlit("unknown_arg"); assert("unknown_arg"@.len() == 11);
    reveal_strlit("app_title"); assert("app_title"@.len() == 9);
    reveal_strlit("step_system_update"); assert("step_system_update"@.len() == 18);
    reveal_strlit("step_user_creation"); assert("step_user_creation"@.len() == 18);
    reveal_strlit("step_ssh_root_login"); assert("step_ssh_root_login"@.len() == 19);
    reveal_strlit("step_ssh_port_change"); assert("step_ssh_port_change"@.len() == 20);
    reveal_strlit("step_ssh_password_auth"); assert("step_ssh_password_auth"@.len() == 22);
    reveal_strlit("step_ssh_key_setup"); assert("step_ssh_key_setup"@.len() == 18);
    reveal_strlit("step_ufw"); assert("step_ufw"@.len() == 8);
    reveal_strlit("step_fail2ban"); assert("step_fail2ban"@.len() == 13);
    reveal_strlit("step_auto_updates"); assert("step_auto_updates"@.len() == 17);
    reveal_strlit("step_security_scan"); assert("step_security_scan"@.len() == 18);
    reveal_strlit("step_log_audit"); assert("step_log_audit"@.len() == 14);
    reveal_strlit("step_restart_ssh"); assert("step_restart_ssh"@.len() == 16);
    reveal_strlit("audit_root"); assert("audit_root"@.len() == 10);
    reveal_strlit("audit_pkg_mgr"); assert("audit_pkg_mgr"@.len() == 13);
    reveal_strlit("audit_ssh_port"); assert("audit_ssh_port"@.len() == 14);
    reveal_strlit("audit_password_auth"); assert("audit_password_auth"@.len() == 19);
    reveal_strlit("audit_root_login"); assert("audit_root_login"@.len() == 16);
    reveal_strlit("audit_sudo_users"); assert("audit_sudo_users"@.len() == 16);
    reveal_strlit("audit_fail2ban"); assert("audit_fail2ban"@.len() == 14);
    reveal_strlit("audit_ufw"); assert("audit_ufw"@.len() == 9);
    reveal_strlit("audit_auto_updates"); assert("audit_auto_updates"@.len() == 18);
    reveal_strlit("audit_sys_update"); assert("audit_sys_update"@.len() == 16);
    reveal_strlit("audit_detail_root_ok"); assert("audit_detail_root_ok"@.len() == 20);
    reveal_strlit("audit_detail_root_missing"); assert("audit_detail_root_missing"@.len() == 25);
    reveal_strlit("audit_detail_pkg"); assert("audit_detail_pkg"@.len() == 16);
    reveal_strlit("audit_detail_port_safe"); assert("audit_detail_port_safe"@.len() == 22);
    reveal_strlit("audit_detail_port_missing"); assert("audit_detail_port_missing"@.len() == 25);
    reveal_strlit("audit_detail_pw_disabled"); assert("audit_detail_pw_disabled"@.len() == 24);
    reveal_strlit("audit_detail_pw_missing"); assert("audit_detail_pw_missing"@.len() == 23);
    reveal_strlit("audit_detail_root_disabled"); assert("audit_detail_root_disabled"@.len() == 26);
    reveal_strlit("audit_detail_root_missing_cfg"); assert("audit_detail_root_missing_cfg"@.len() == 29);
    reveal_strlit("audit_detail_sudo_missing"); assert("audit_detail_sudo_missing"@.len() == 25);
    reveal_strlit("audit_detail_sudo_ok"); assert("audit_detail_sudo_ok"@.len() == 20);
    reveal_strlit("audit_detail_fb_installed"); assert("audit_detail_fb_installed"@.len() == 25);
    reveal_strlit("audit_detail_fb_missing"); assert("audit_detail_fb_missing"@.len() == 23);
    reveal_strlit("audit_detail_ufw_enabled"); assert("audit_detail_ufw_enabled"@.len() == 24);
    reveal_strlit("audit_detail_ufw_missing"); assert("audit_detail_ufw_missing"@.len() == 24);
    reveal_strlit("audit_detail_au_enabled"); assert("audit_detail_au_enabled"@.len() == 23);
    reveal_strlit("audit_detail_au_missing"); assert("audit_detail_au_missing"@.len() == 23);
    reveal_strlit("audit_detail_sys_uptodate"); assert("audit_detail_sys_uptodate"@.len() == 25);
    reveal_strlit("audit_detail_sys_needs_update"); assert("audit_detail_sys_needs_update"@.len() == 29);
    reveal_strlit("status_safe"); assert("status_safe"@.len() == 11);
    reveal_strlit("status_partial"); assert("status_partial"@.len() == 14);
    reveal_strlit("status_missing"); assert("status_missing"@.len() == 14);
    reveal_strlit("status_needs_update"); assert("status_needs_update"@.len() == 19);
    reveal_strlit("pkg_apt"); assert("pkg_yum"@[4] == 'y'); assert("pkg_apt"@[4] == 'a');
}

proof fn entry_pkg_dnf()
    ensures
        zh_cn_text("pkg_dnf"@) == Some(pm_name(PackageManager::Dnf)),
{
    reveal_strlit("pkg_dnf"); assert("pkg_dnf"@.len() == 7);
    reveal_strlit("lang_en"); assert("pkg_dnf"@[0] == 'p'); assert("lang_en"@[0] == 'l');
    reveal_strlit("lang_zh_cn"); assert("lang_zh_cn"@.len() == 10);
    reveal_strlit("lang_zh_tw"); assert("lang_zh_tw"@.len() == 10);
    reveal_strlit("select_language"); assert("select_language"@.len() == 15);
    reveal_strlit("select_mode"); assert("select_mode"@.len() == 11);
    reveal_strlit("mode_cli"); assert("mode_cli"@.len() == 8);
    reveal_strlit("mode_tui"); assert("mode_tui"@.len() == 8);
    reveal_strlit("unknown_arg"); assert("unknown_arg"@.len() == 11);
    reveal_strlit("app_title"); assert("app_title"@.len() == 9);
    reveal_strlit("step_system_update"); assert("step_system_update"@.len() == 18);
    reveal_strlit("step_user_creation"); assert("step_user_creation"@.len() == 18);
    reveal_strlit("step_ssh_root_login"); assert("step_ssh_root_login"@.len() == 19);
    reveal_strlit("step_ssh_port_change"); assert("step_ssh_port_change"@.len() == 20);
    reveal_strlit("step_ssh_password_auth"); assert("step_ssh_password_auth"@.len() == 22);
    reveal_strlit("step_ssh_key_setup"); assert("step_ssh_key_setup"@.len() == 18);
    reveal_strlit("step_ufw"); assert("step_ufw"@.len() == 8);
    reveal_strlit("step_fail2ban"); assert("step_fail2ban"@.len() == 13);
    reveal_strlit("step_auto_updates"); assert("step_auto_updates"@.len() == 17);
    reveal_strlit("step_security_scan"); assert("step_security_scan"@.len() == 18);
    reveal_strlit("step_log_audit"); assert("step_log_audit"@.len() == 14);
    reveal_strlit("step_restart_ssh"); assert("step_restart_ssh"@.len() == 16);
    reveal_strlit("audit_root"); assert("audit_root"@.len() == 10);
    reveal_strlit("audit_pkg_mgr"); assert("audit_pkg_mgr"@.len() == 13);
    reveal_strlit("audit_ssh_port"); assert("audit_ssh_port"@.len() == 14);
    reveal_strlit("audit_password_auth"); assert("audit_password_auth"@.len() == 19);
    reveal_strlit("audit_root_login"); assert("audit_root_login"@.len() == 16);
    reveal_strlit("audit_sudo_users"); assert("audit_sudo_users"@.len() == 16);
    reveal_strlit("audit_fail2ban"); assert("audit_fail2ban"@.len() == 14);
    reveal_strlit("audit_ufw"); assert("audit_ufw"@.len() == 9);
    reveal_strlit("audit_auto_updates"); assert("audit_auto_updates"@.len() == 18);
    reveal_strlit("audit_sys_update"); assert("audit_sys_update"@.len() == 16);
    reveal_strlit("audit_detail_root_ok"); assert("audit_detail_root_ok"@.len() == 20);
    reveal_strlit("audit_detail_root_missing"); assert("audit_detail_root_missing"@.len() == 25);
    reveal_strlit("audit_detail_pkg"); assert("audit_detail_pkg"@.len() == 16);
    reveal_strlit("audit_detail_port_safe"); assert("audit_detail_port_safe"@.len() == 22);
    reveal_strlit("audit_detail_port_missing"); assert("audit_detail_port_missing"@.len() == 25);
    reveal_strlit("audit_detail_pw_disabled"); assert("audit_detail_pw_disabled"@.len() == 24);
    reveal_strlit("audit_detail_pw_missing"); assert("audit_detail_pw_missing"@.len() == 23);
    reveal_strlit("audit_detail_root_disabled"); assert("audit_detail_root_disabled"@.len() == 26);
    reveal_strlit("audit_detail_root_missing_cfg"); assert("audit_detail_root_missing_cfg"@.len() == 29);
    reveal_strlit("audit_detail_sudo_missing"); assert("audit_detail_sudo_missing"@.len() == 25);
    reveal_strlit("audit_detail_sudo_ok"); assert("audit_detail_sudo_ok"@.len() == 20);
    reveal_strlit("audit_detail_fb_installed"); assert("audit_detail_fb_installed"@.len() == 25);
    reveal_strlit("audit_detail_fb_missing"); assert("audit_detail_fb_missing"@.len() == 23);
    reveal_strlit("audit_detail_ufw_enabled"); assert("audit_detail_ufw_enabled"@.len() == 24);
    reveal_strlit("audit_detail_ufw_missing"); assert("audit_detail_ufw_missing"@.len() == 24);
    reveal_strlit("audit_detail_au_enabled"); assert("audit_detail_au_enabled"@.len() == 23);
    reveal_strlit("audit_detail_au_missing"); assert("audit_detail_au_missing"@.len() == 23);
    reveal_strlit("audit_detail_sys_uptodate"); assert("audit_detail_sys_uptodate"@.len() == 25);
    reveal_strlit("audit_detail_sys_needs_update"); assert("audit_detail_sys_needs_update"@.len() == 29);
    reveal_strlit("status_safe"); assert("status_safe"@.len() == 11);
    reveal_strlit("status_partial"); assert("status_partial"@.len() == 14);
    reveal_strlit("status_missing"); assert("status_missing"@.len() == 14);
    reveal_strlit("status_needs_update"); assert("status_needs_update"@.len() == 19);
    reveal_strlit("pkg_apt"); assert("pkg_dnf"@[4] == 'd'); assert("pkg_apt"@[4] == 'a');
    reveal_strlit("pkg_yum"); assert("pkg_dnf"@[4] == 'd'); assert("pkg_yum"@[4] == 'y');
}

proof fn entry_pkg_unknown()
    ensures
        zh_cn_text("pkg_unknown"@) == Some(pm_name(PackageManager::Unknown)),
{
    reveal_strlit("pkg_unknown"); assert("pkg_unknown"@.len() == 11);
    reveal_strlit("lang_en"); assert("lang_en"@.len() == 7);
    reveal_strlit("lang_zh_cn"); assert("lang_zh_cn"@.len() == 10);
    reveal_strlit("lang_zh_tw"); assert("lang_zh_tw"@.len() == 10);
    reveal_strlit("select_language"); assert("select_language"@.len() == 15);
    reveal_strlit("select_mode"); assert("pkg_unknown"@[0] == 'p'); assert("select_mode"@[0] == 's');
    reveal_strlit("mode_cli"); assert("mode_cli"@.len() == 8);
    reveal_strlit("mode_tui"); assert("mode_tui"@.len() == 8);
    reveal_strlit("unknown_arg"); assert("pkg_unknown"@[0] == 'p'); assert("unknown_arg"@[0] == 'u');
    reveal_strlit("app_title"); assert("app_title"@.len() == 9);
    reveal_strlit("step_system_update"); assert("step_system_update"@.len() == 18);
    reveal_strlit("step_user_creation"); assert("step_user_creation"@.len() == 18);
    reveal_strlit("step_ssh_root_login"); assert("step_ssh_root_login"@.len() == 19);
    reveal_strlit("step_ssh_port_change"); assert("step_ssh_port_change"@.len() == 20);
    reveal_strlit("step_ssh_password_auth"); assert("step_ssh_password_auth"@.len() == 22);
    reveal_strlit("step_ssh_key_setup"); assert("step_ssh_key_setup"@.len() == 18);
    reveal_strlit("step_ufw"); assert("step_ufw"@.len() == 8);
    reveal_strlit("step_fail2ban"); assert("step_fail2ban"@.len() == 13);
    reveal_strlit("step_auto_updates"); assert("step_auto_updates"@.len() == 17);
    reveal_strlit("step_security_scan"); assert("step_security_scan"@.len() == 18);
    reveal_strlit("step_log_audit"); assert("step_log_audit"@.len() == 14);
    reveal_strlit("step_restart_ssh"); assert("step_restart_ssh"@.len() == 16);
    reveal_strlit("audit_root"); assert("audit_root"@.len() == 10);
    reveal_strlit("audit_pkg_mgr"); assert("audit_pkg_mgr"@.len() == 13);
    reveal_strlit("audit_ssh_port"); assert("audit_ssh_port"@.len() == 14);
    reveal_strlit("audit_password_auth"); assert("audit_password_auth"@.len() == 19);
    reveal_strlit("audit_root_login"); assert("audit_root_login"@.len() == 16);
    reveal_strlit("audit_sudo_users"); assert("audit_sudo_users"@.len() == 16);
    reveal_strlit("audit_fail2ban"); assert("audit_fail2ban"@.len() == 14);
    reveal_strlit("audit_ufw"); assert("audit_ufw"@.len() == 9);
    reveal_strlit("audit_auto_updates"); assert("audit_auto_updates"@.len() == 18);
    reveal_strlit("audit_sys_update"); assert("audit_sys_update"@.len() == 16);
    reveal_strlit("audit_detail_root_ok"); assert("audit_detail_root_ok"@.len() == 20);
    reveal_strlit("audit_detail_root_missing"); assert("audit_detail_root_missing"@.len() == 25);
    reveal_strlit("audit_detail_pkg"); assert("audit_detail_pkg"@.len() == 16);
    reveal_strlit("audit_detail_port_safe"); assert("audit_detail_port_safe"@.len() == 22);
    reveal_strlit("audit_detail_port_missing"); assert("audit_detail_port_missing"@.len() == 25);
    reveal_strlit("audit_detail_pw_disabled"); assert("audit_detail_pw_disabled"@.len() == 24);
    reveal_strlit("audit_detail_pw_missing"); assert("audit_detail_pw_missing"@.len() == 23);
    reveal_strlit("audit_detail_root_disabled"); assert("audit_detail_root_disabled"@.len() == 26);
    reveal_strlit("audit_detail_root_missing_cfg"); assert("audit_detail_root_missing_cfg"@.len() == 29);
    reveal_strlit("audit_detail_sudo_missing"); assert("audit_detail_sudo_missing"@.len() == 25);
    reveal_strlit("audit_detail_sudo_ok"); assert("audit_detail_sudo_ok"@.len() == 20);
    reveal_strlit("audit_detail_fb_installed"); assert("audit_detail_fb_installed"@.len() == 25);
    reveal_strlit("audit_detail_fb_missing"); assert("audit_detail_fb_missing"@.len() == 23);
    reveal_strlit("audit_detail_ufw_enabled"); assert("audit_detail_ufw_enabled"@.len() == 24);
    reveal_strlit("audit_detail_ufw_missing"); assert("audit_detail_ufw_missing"@.len() == 24);
    reveal_strlit("audit_detail_au_enabled"); assert("audit_detail_au_enabled"@.len() == 23);
    reveal_strlit("audit_detail_au_missing"); assert("audit_detail_au_missing"@.len() == 23);
    reveal_strlit("audit_detail_sys_uptodate"); assert("audit_detail_sys_uptodate"@.len() == 25);
    reveal_strlit("audit_detail_sys_needs_update"); assert("audit_detail_sys_needs_update"@.len() == 29);
    reveal_strlit("status_safe"); assert("pkg_unknown"@[0] == 'p'); assert("status_safe"@[0] == 's');
    reveal_strlit("status_partial"); assert("status_partial"@.len() == 14);
    reveal_strlit("status_missing"); assert("status_missing"@.len() == 14);
    reveal_strlit("status_needs_update"); assert("status_needs_update"@.len() == 19);
    reveal_strlit("pkg_apt"); assert("pkg_apt"@.len() == 7);
    reveal_strlit("pkg_yum"); assert("pkg_yum"@.len() == 7);
    reveal_strlit("pkg_dnf"); assert("pkg_dnf"@.len() == 7);
}

/// The table key of a step's name.
pub open spec fn step_key(k: StepKind) -> Seq<char> {
    match k {
        StepKind::SystemUpdate => "step_system_update"@,
        StepKind::UserCreation => "step_user_creation"@,
        StepKind::SshRootLogin => "step_ssh_root_login"@,
        StepKind::SshPortChange => "step_ssh_port_change"@,
        StepKind::SshPasswordAuth => "step_ssh_password_auth"@,
        StepKind::SshKeySetup => "step_ssh_key_setup"@,
        StepKind::Ufw => "step_ufw"@,
        StepKind::Fail2ban => "step_fail2ban"@,
        StepKind::AutoUpdates => "step_auto_updates"@,
        StepKind::SecurityScan => "step_security_scan"@,
        StepKind::LogAudit => "step_log_audit"@,
        StepKind::RestartSsh => "step_restart_ssh"@,
    }
}

/// The table key of an audit state's icon.
pub open spec fn status_key(s: AuditStatus) -> Seq<char> {
    match s {
        AuditStatus::Safe => "status_safe"@,
        AuditStatus::Partial => "status_partial"@,
        AuditStatus::Missing => "status_missing"@,
        AuditStatus::NeedsUpdate => "status_needs_update"@,
    }
}

/// The table key of a package manager's name.
pub open spec fn pm_key(pm: PackageManager) -> Seq<char> {
    match pm {
        PackageManager::Apt => "pkg_apt"@,
        PackageManager::Yum => "pkg_yum"@,
        PackageManager::Dnf => "pkg_dnf"@,
        PackageManager::Unknown => "pkg_unknown"@,
    }
}

/// In Simplified Chinese, the texts for the step names, the audit states and the
/// package managers are the steps' labels, the states' icons and the managers' names.
pub proof fn law_zh_cn_names_match(k: StepKind, s: AuditStatus, pm: PackageManager)
    ensures
        zh_cn_text(step_key(k)) == Some(kind_label(k)),
        zh_cn_text(status_key(s)) == Some(status_icon(s)),
        zh_cn_text(pm_key(pm)) == Some(pm_name(pm)),
{
    match k {
        StepKind::SystemUpdate => entry_step_system_update(),
        StepKind::UserCreation => entry_step_user_creation(),
        StepKind::SshRootLogin => entry_step_ssh_root_login(),
        StepKind::SshPortChange => entry_step_ssh_port_change(),
        StepKind::SshPasswordAuth => entry_step_ssh_password_auth(),
        StepKind::SshKeySetup => entry_step_ssh_key_setup(),
        StepKind::Ufw => entry_step_ufw(),
        StepKind::Fail2ban => entry_step_fail2ban(),
        StepKind::AutoUpdates => entry_step_auto_updates(),
        StepKind::SecurityScan => entry_step_security_scan(),
        StepKind::LogAudit => entry_step_log_audit(),
        StepKind::RestartSsh => entry_step_restart_ssh(),
    }
    match s {
        AuditStatus::Safe => entry_status_safe(),
        AuditStatus::Partial => entry_status_partial(),
        AuditStatus::Missing => entry_status_missing(),
        AuditStatus::NeedsUpdate => entry_status_needs_update(),
    }
    match pm {
        PackageManager::Apt => entry_pkg_apt(),
        PackageManager::Yum => entry_pkg_yum(),
        PackageManager::Dnf => entry_pkg_dnf(),
        PackageManager::Unknown => entry_pkg_unknown(),
    }
}

proof fn placeholders_unknown_arg()
    ensures
        zh_cn_text("unknown_arg"@) matches Some(t) && contains(t, "{arg}"@),
        en_text("unknown_arg"@) matches Some(t) && contains(t, "{arg}"@),
        zh_tw_text("unknown_arg"@) matches Some(t) && contains(t, "{arg}"@),
{
    reveal_strlit("unknown_arg"); assert("unknown_arg"@.len() == 11);
    reveal_strlit("lang_en"); assert("lang_en"@.len() == 7);
    reveal_strlit("lang_zh_cn"); assert("lang_zh_cn"@.len() == 10);
    reveal_strlit("lang_zh_tw"); assert("lang_zh_tw"@.len() == 10);
    reveal_strlit("select_language"); assert("select_language"@.len() == 15);
    reveal_strlit("select_mode"); assert("unknown_arg"@[0] == 'u'); assert("select_mode"@[0] == 's');
    reveal_strlit("mode_cli"); assert("mode_cli"@.len() == 8);
    reveal_strlit("mode_tui"); assert("mode_tui"@.len() == 8);
    reveal_strlit("{arg}");
    reveal_strlit("未知参数: {arg}，使用 -c (CLI) 或 -t (TUI)");
    assert("未知参数: {arg}，使用 -c (CLI) 或 -t (TUI)"@.subrange(6, 11) =~= "{arg}"@);
    assert(match_at("未知参数: {arg}，使用 -c (CLI) 或 -t (TUI)"@, "{arg}"@, 6));
    reveal_strlit("Unknown argument: {arg}, use -c (CLI) or -t (TUI)");
    assert("Unknown argument: {arg}, use -c (CLI) or -t (TUI)"@.subrange(18, 23) =~= "{arg}"@);
    assert(match_at("Unknown argument: {arg}, use -c (CLI) or -t (TUI)"@, "{arg}"@, 18));
    reveal_strlit("未知參數: {arg}，使用 -c (CLI) 或 -t (TUI)");
    assert("未知參數: {arg}，使用 -c (CLI) 或 -t (TUI)"@.subrange(6, 11) =~= "{arg}"@);
    assert(match_at("未知參數: {arg}，使用 -c (CLI) 或 -t (TUI)"@, "{arg}"@, 6));
}

proof fn placeholders_audit_detail_pkg()
    ensures
        zh_cn_text("audit_detail_pkg"@) matches Some(t) && contains(t, "{pkg}"@),
        en_text("audit_detail_pkg"@) matches Some(t) && contains(t, "{pkg}"@),
        zh_tw_text("audit_detail_pkg"@) matches Some(t) && contains(t, "{pkg}"@),
{
    reveal_strlit("audit_detail_pkg"); assert("audit_detail_pkg"@.len() == 16);
    reveal_strlit("lang_en"); assert("lang_en"@.len() == 7);
    reveal_strlit("lang_zh_cn"); assert("lang_zh_cn"@.len() == 10);
    reveal_strlit("lang_zh_tw"); assert("lang_zh_tw"@.len() == 10);
    reveal_strlit("select_language"); assert("select_language"@.len() == 15);
    reveal_strlit("select_mode"); assert("select_mode"@.len() == 11);
    reveal_strlit("mode_cli"); assert("mode_cli"@.len() == 8);
    reveal_strlit("mode_tui"); assert("mode_tui"@.len() == 8);
    reveal_strlit("unknown_arg"); assert("unknown_arg"@.len() == 11);
    reveal_strlit("app_title"); assert("app_title"@.len() == 9);
    reveal_strlit("step_system_update"); assert("step_system_update"@.len() == 18);
    reveal_strlit("step_user_creation"); assert("step_user_creation"@.len() == 18);
    reveal_strlit("step_ssh_root_login"); assert("step_ssh_root_login"@.len() == 19);
    reveal_strlit("step_ssh_port_change"); assert("step_ssh_port_change"@.len() == 20);
    reveal_strlit("step_ssh_password_auth"); assert("step_ssh_password_auth"@.len() == 22);
    reveal_strlit("step_ssh_key_setup"); assert("step_ssh_key_setup"@.len() == 18);
    reveal_strlit("step_ufw"); assert("step_ufw"@.len() == 8);
    reveal_strlit("step_fail2ban"); assert("step_fail2ban"@.len() == 13);
    reveal_strlit("step_auto_updates"); assert("step_auto_updates"@.len() == 17);
    reveal_strlit("step_security_scan"); assert("step_security_scan"@.len() == 18);
    reveal_strlit("step_log_audit"); assert("step_log_audit"@.len() == 14);
    reveal_strlit("step_restart_ssh"); assert("audit_detail_pkg"@[0] == 'a'); assert("step_restart_ssh"@[0] == 's');
    reveal_strlit("audit_root"); assert("audit_root"@.len() == 10);
    reveal_strlit("audit_pkg_mgr"); assert("audit_pkg_mgr"@.len() == 13);
    reveal_strlit("audit_ssh_port"); assert("audit_ssh_port"@.len() == 14);
    reveal_strlit("audit_password_auth"); assert("audit_password_auth"@.len() == 19);
    reveal_strlit("audit_root_login"); assert("audit_detail_pkg"@[6] == 'd'); assert("audit_root_login"@[6] == 'r');
    reveal_strlit("audit_sudo_users"); assert("audit_detail_pkg"@[6] == 'd'); assert("audit_sudo_users"@[6] == 's');
    reveal_strlit("audit_fail2ban"); assert("audit_fail2ban"@.len() == 14);
    reveal_strlit("audit_ufw"); assert("audit_ufw"@.len() == 9);
    reveal_strlit("audit_auto_updates"); assert("audit_auto_updates"@.len() == 18);
    reveal_strlit("audit_sys_update"); assert("audit_detail_pkg"@[6] == 'd'); assert("audit_sys_update"@[6] == 's');
    reveal_strlit("audit_detail_root_ok"); assert("audit_detail_root_ok"@.len() == 20);
    reveal_strlit("audit_detail_root_missing"); assert("audit_detail_root_missing"@.len() == 25);
    reveal_strlit("{pkg}");
    reveal_strlit("检测到 {pkg}");
    assert("检测到 {pkg}"@.subrange(4, 9) =~= "{pkg}"@);
    assert(match_at("检测到 {pkg}"@, "{pkg}"@, 4));
    reveal_strlit("Detected {pkg}");
    assert("Detected {pkg}"@.subrange(9, 14) =~= "{pkg}"@);
    assert(match_at("Detected {pkg}"@, "{pkg}"@, 9));
    reveal_strlit("檢測到 {pkg}");
    assert("檢測到 {pkg}"@.subrange(4, 9) =~= "{pkg}"@);
    assert(match_at("檢測到 {pkg}"@, "{pkg}"@, 4));
}

proof fn placeholders_audit_detail_port_safe()
    ensures
        zh_cn_text("audit_detail_port_safe"@) matches Some(t) && contains(t, "{port}"@),
        en_text("audit_detail_port_safe"@) matches Some(t) && contains(t, "{port}"@),
        zh_tw_text("audit_detail_port_safe"@) matches Some(t) && contains(t, "{port}"@),
{
    reveal_strlit("audit_detail_port_safe"); assert("audit_detail_port_safe"@.len() == 22);
    reveal_strlit("lang_en"); assert("lang_en"@.len() == 7);
    reveal_strlit("lang_zh_cn"); assert("lang_zh_cn"@.len() == 10);
    reveal_strlit("lang_zh_tw"); assert("lang_zh_tw"@.len() == 10);
    reveal_strlit("select_language"); assert("select_language"@.len() == 15);
    reveal_strlit("select_mode"); assert("select_mode"@.len() == 11);
    reveal_strlit("mode_cli"); assert("mode_cli"@.len() == 8);
    reveal_strlit("mode_tui"); assert("mode_tui"@.len() == 8);
    reveal_strlit("unknown_arg"); assert("unknown_arg"@.len() == 11);
    reveal_strlit("app_title"); assert("app_title"@.len() == 9);
    reveal_strlit("step_system_update"); assert("step_system_update"@.len() == 18);
    reveal_strlit("step_user_creation"); assert("step_user_creation"@.len() == 18);
    reveal_strlit("step_ssh_root_login"); assert("step_ssh_root_login"@.len() == 19);
    reveal_strlit("step_ssh_port_change"); assert("step_ssh_port_change"@.len() == 20);
    reveal_strlit("step_ssh_password_auth"); assert("audit_detail_port_safe"@[0] == 'a'); assert("step_ssh_password_auth"@[0] == 's');
    reveal_strlit("step_ssh_key_setup"); assert("step_ssh_key_setup"@.len() == 18);
    reveal_strlit("step_ufw"); assert("step_ufw"@.len() == 8);
    reveal_strlit("step_fail2ban"); assert("step_fail2ban"@.len() == 13);
    reveal_strlit("step_auto_updates"); assert("step_auto_updates"@.len() == 17);
    reveal_strlit("step_security_scan"); assert("step_security_scan"@.len() == 18);
    reveal_strlit("step_log_audit"); assert("step_log_audit"@.len() == 14);
    reveal_strlit("step_restart_ssh"); assert("step_restart_ssh"@.len() == 16);
    reveal_strlit("audit_root"); assert("audit_root"@.len() == 10);
    reveal_strlit("audit_pkg_mgr"); assert("audit_pkg_mgr"@.len() == 13);
    reveal_strlit("audit_ssh_port"); assert("audit_ssh_port"@.len() == 14);
    reveal_strlit("audit_password_auth"); assert("audit_password_auth"@.len() == 19);
    reveal_strlit("audit_root_login"); assert("audit_root_login"@.len() == 16);
    reveal_strlit("audit_sudo_users"); assert("audit_sudo_users"@.len() == 16);
    reveal_strlit("audit_fail2ban"); assert("audit_fail2ban"@.len() == 14);
    reveal_strlit("audit_ufw"); assert("audit_ufw"@.len() == 9);
    reveal_strlit("audit_auto_updates"); assert("audit_auto_updates"@.len() == 18);
    reveal_strlit("audit_sys_update"); assert("audit_sys_update"@.len() == 16);
    reveal_strlit("audit_detail_root_ok"); assert("audit_detail_root_ok"@.len() == 20);
    reveal_strlit("audit_detail_root_missing"); assert("audit_detail_root_missing"@.len() == 25);
    reveal_strlit("audit_detail_pkg"); assert("audit_detail_pkg"@.len() == 16);
    reveal_strlit("{port}");
    reveal_strlit("已自定义为 {port}");
    assert("已自定义为 {port}"@.subrange(6, 12) =~= "{port}"@);
    assert(match_at("已自定义为 {port}"@, "{port}"@, 6));
    reveal_strlit("Customized to {port}");
    assert("Customized to {port}"@.subrange(14, 20) =~= "{port}"@);
    assert(match_at("Customized to {port}"@, "{port}"@, 14));
    reveal_strlit("已自訂為 {port}");
    assert("已自訂為 {port}"@.subrange(5, 11) =~= "{port}"@);
    assert(match_at("已自訂為 {port}"@, "{port}"@, 5));
}

proof fn placeholders_audit_detail_sudo_ok()
    ensures
        zh_cn_text("audit_detail_sudo_ok"@) matches Some(t) && contains(t, "{users}"@),
        en_text("audit_detail_sudo_ok"@) matches Some(t) && contains(t, "{users}"@),
        zh_tw_text("audit_detail_sudo_ok"@) matches Some(t) && contains(t, "{users}"@),
{
    reveal_strlit("audit_detail_sudo_ok"); assert("audit_detail_sudo_ok"@.len() == 20);
    reveal_strlit("lang_en"); assert("lang_en"@.len() == 7);
    reveal_strlit("lang_zh_cn"); assert("lang_zh_cn"@.len() == 10);
    reveal_strlit("lang_zh_tw"); assert("lang_zh_tw"@.len() == 10);
    reveal_strlit("select_language"); assert("select_language"@.len() == 15);
    reveal_strlit("select_mode"); assert("select_mode"@.len() == 11);
    reveal_strlit("mode_cli"); assert("mode_cli"@.len() == 8);
    reveal_strlit("mode_tui"); assert("mode_tui"@.len() == 8);
    reveal_strlit("unknown_arg"); assert("unknown_arg"@.len() == 11);
    reveal_strlit("app_title"); assert("app_title"@.len() == 9);
    reveal_strlit("step_system_update"); assert("step_system_update"@.len() == 18);
    reveal_strlit("step_user_creation"); assert("step_user_creation"@.len() == 18);
    reveal_strlit("step_ssh_root_login"); assert("step_ssh_root_login"@.len() == 19);
    reveal_strlit("step_ssh_port_change"); assert("audit_detail_sudo_ok"@[0] == 'a'); assert("step_ssh_port_change"@[0] == 's');
    reveal_strlit("step_ssh_password_auth"); assert("step_ssh_password_auth"@.len() == 22);
    reveal_strlit("step_ssh_key_setup"); assert("step_ssh_key_setup"@.len() == 18);
    reveal_strlit("step_ufw"); assert("step_ufw"@.len() == 8);
    reveal_strlit("step_fail2ban"); assert("step_fail2ban"@.len() == 13);
    reveal_strlit("step_auto_updates"); assert("step_auto_updates"@.len() == 17);
    reveal_strlit("step_security_scan"); assert("step_security_scan"@.len() == 18);
    reveal_strlit("step_log_audit"); assert("step_log_audit"@.len() == 14);
    reveal_strlit("step_restart_ssh"); assert("step_restart_ssh"@.len() == 16);
    reveal_strlit("audit_root"); assert("audit_root"@.len() == 10);
    reveal_strlit("audit_pkg_mgr"); assert("audit_pkg_mgr"@.len() == 13);
    reveal_strlit("audit_ssh_port"); assert("audit_ssh_port"@.len() == 14);
    reveal_strlit("audit_password_auth"); assert("audit_password_auth"@.len() == 19);
    reveal_strlit("audit_root_login"); assert("audit_root_login"@.len() == 16);
    reveal_strlit("audit_sudo_users"); assert("audit_sudo_users"@.len() == 16);
    reveal_strlit("audit_fail2ban"); assert("audit_fail2ban"@.len() == 14);
    reveal_strlit("audit_ufw"); assert("audit_ufw"@.len() == 9);
    reveal_strlit("audit_auto_updates"); assert("audit_auto_updates"@.len() == 18);
    reveal_strlit("audit_sys_update"); assert("audit_sys_update"@.len() == 16);
    reveal_strlit("audit_detail_root_ok"); assert("audit_detail_sudo_ok"@[13] == 's'); assert("audit_detail_root_ok"@[13] == 'r');
    reveal_strlit("audit_detail_root_missing"); assert("audit_detail_root_missing"@.len() == 25);
    reveal_strlit("audit_detail_pkg"); assert("audit_detail_pkg"@.len() == 16);
    reveal_strlit("audit_detail_port_safe"); assert("audit_detail_port_safe"@.len() == 22);
    reveal_strlit("audit_detail_port_missing"); assert("audit_detail_port_missing"@.len() == 25);
    reveal_strlit("audit_detail_pw_disabled"); assert("audit_detail_pw_disabled"@.len() == 24);
    reveal_strlit("audit_detail_pw_missing"); assert("audit_detail_pw_missing"@.len() == 23);
    reveal_strlit("audit_detail_root_disabled"); assert("audit_detail_root_disabled"@.len() == 26);
    reveal_strlit("audit_detail_root_missing_cfg"); assert("audit_detail_root_missing_cfg"@.len() == 29);
    reveal_strlit("audit_detail_sudo_missing"); assert("audit_detail_sudo_missing"@.len() == 25);
    reveal_strlit("{users}");
    reveal_strlit("已存在: {users}");
    assert("已存在: {users}"@.subrange(5, 12) =~= "{users}"@);
    assert(match_at("已存在: {users}"@, "{users}"@, 5));
    reveal_strlit("Existing: {users}");
    assert("Existing: {users}"@.subrange(10, 17) =~= "{users}"@);
    assert(match_at("Existing: {users}"@, "{users}"@, 10));
    reveal_strlit("已存在: {users}");
    assert("已存在: {users}"@.subrange(5, 12) =~= "{users}"@);
    assert(match_at("已存在: {users}"@, "{users}"@, 5));
}

proof fn placeholders_err_cmd_failed()
    ensures
        zh_cn_text("err_cmd_failed"@) matches Some(t) && contains(t, "{msg}"@),
        en_text("err_cmd_failed"@) matches Some(t) && contains(t, "{msg}"@),
        zh_tw_text("err_cmd_failed"@) matches Some(t) && contains(t, "{msg}"@),
{
    reveal_strlit("err_cmd_failed"); assert("err_cmd_failed"@.len() == 14);
    reveal_strlit("lang_en"); assert("lang_en"@.len() == 7);
    reveal_strlit("lang_zh_cn"); assert("lang_zh_cn"@.len() == 10);
    reveal_strlit("lang_zh_tw"); assert("lang_zh_tw"@.len() == 10);
    reveal_strlit("select_language"); assert("select_language"@.len() == 15);
    reveal_strlit("select_mode"); assert("select_mode"@.len() == 11);
    reveal_strlit("mode_cli"); assert("mode_cli"@.len() == 8);
    reveal_strlit("mode_tui"); assert("mode_tui"@.len() == 8);
    reveal_strlit("unknown_arg"); assert("unknown_arg"@.len() == 11);
    reveal_strlit("app_title"); assert("app_title"@.len() == 9);
    reveal_strlit("step_system_update"); assert("step_system_update"@.len() == 18);
    reveal_strlit("step_user_creation"); assert("step_user_creation"@.len() == 18);
    reveal_strlit("step_ssh_root_login"); assert("step_ssh_root_login"@.len() == 19);
    reveal_strlit("step_ssh_port_change"); assert("step_ssh_port_change"@.len() == 20);
    reveal_strlit("step_ssh_password_auth"); assert("step_ssh_password_auth"@.len() == 22);
    reveal_strlit("step_ssh_key_setup"); assert("step_ssh_key_setup"@.len() == 18);
    reveal_strlit("step_ufw"); assert("step_ufw"@.len() == 8);
    reveal_strlit("step_fail2ban"); assert("step_fail2ban"@.len() == 13);
    reveal_strlit("step_auto_updates"); assert("step_auto_updates"@.len() == 17);
    reveal_strlit("step_security_scan"); assert("step_security_scan"@.len() == 18);
    reveal_strlit("step_log_audit"); assert("err_cmd_failed"@[0] == 'e'); assert("step_log_audit"@[0] == 's');
    reveal_strlit("step_restart_ssh"); assert("step_restart_ssh"@.len() == 16);
    reveal_strlit("audit_root"); assert("audit_root"@.len() == 10);
    reveal_strlit("audit_pkg_mgr"); assert("audit_pkg_mgr"@.len() == 13);
    reveal_strlit("audit_ssh_port"); assert("err_cmd_failed"@[0] == 'e'); assert("audit_ssh_port"@[0] == 'a');
    reveal_strlit("audit_password_auth"); assert("audit_password_auth"@.len() == 19);
    reveal_strlit("audit_root_login"); assert("audit_root_login"@.len() == 16);
    reveal_strlit("audit_sudo_users"); assert("audit_sudo_users"@.len() == 16);
    reveal_strlit("audit_fail2ban"); assert("err_cmd_failed"@[0] == 'e'); assert("audit_fail2ban"@[0] == 'a');
    reveal_strlit("audit_ufw"); assert("audit_ufw"@.len() == 9);
    reveal_strlit("audit_auto_updates"); assert("audit_auto_updates"@.len() == 18);
    reveal_strlit("audit_sys_update"); assert("audit_sys_update"@.len() == 16);
    reveal_strlit("audit_detail_root_ok"); assert("audit_detail_root_ok"@.len() == 20);
    reveal_strlit("audit_detail_root_missing"); assert("audit_detail_root_missing"@.len() == 25);
    reveal_strlit("audit_detail_pkg"); assert("audit_detail_pkg"@.len() == 16);
    reveal_strlit("audit_detail_port_safe"); assert("audit_detail_port_safe"@.len() == 22);
    reveal_strlit("audit_detail_port_missing"); assert("audit_detail_port_missing"@.len() == 25);
    reveal_strlit("audit_detail_pw_disabled"); assert("audit_detail_pw_disabled"@.len() == 24);
    reveal_strlit("audit_detail_pw_missing"); assert("audit_detail_pw_missing"@.len() == 23);
    reveal_strlit("audit_detail_root_disabled"); assert("audit_detail_root_disabled"@.len() == 26);
    reveal_strlit("audit_detail_root_missing_cfg"); assert("audit_detail_root_missing_cfg"@.len() == 29);
    reveal_strlit("audit_detail_sudo_missing"); assert("audit_detail_sudo_missing"@.len() == 25);
    reveal_strlit("audit_detail_sudo_ok"); assert("audit_detail_sudo_ok"@.len() == 20);
    reveal_strlit("audit_detail_fb_installed"); assert("audit_detail_fb_installed"@.len() == 25);
    reveal_strlit("audit_detail_fb_missing"); assert("audit_detail_fb_missing"@.len() == 23);
    reveal_strlit("audit_detail_ufw_enabled"); assert("audit_detail_ufw_enabled"@.len() == 24);
    reveal_strlit("audit_detail_ufw_missing"); assert("audit_detail_ufw_missing"@.len() == 24);
    reveal_strlit("audit_detail_au_enabled"); assert("audit_detail_au_enabled"@.len() == 23);
    reveal_strlit("audit_detail_au_missing"); assert("audit_detail_au_missing"@.len() == 23);
    reveal_strlit("audit_detail_sys_uptodate"); assert("audit_detail_sys_uptodate"@.len() == 25);
    reveal_strlit("audit_detail_sys_needs_update"); assert("audit_detail_sys_needs_update"@.len() == 29);
    reveal_strlit("status_safe"); assert("status_safe"@.len() == 11);
    reveal_strlit("status_partial"); assert("err_cmd_failed"@[0] == 'e'); assert("status_partial"@[0] == 's');
    reveal_strlit("status_missing"); assert("err_cmd_failed"@[0] == 'e'); assert("status_missing"@[0] == 's');
    reveal_strlit("status_needs_update"); assert("status_needs_update"@.len() == 19);
    reveal_strlit("pkg_apt"); assert("pkg_apt"@.len() == 7);
    reveal_strlit("pkg_yum"); assert("pkg_yum"@.len() == 7);
    reveal_strlit("pkg_dnf"); assert("pkg_dnf"@.len() == 7);
    reveal_strlit("pkg_unknown"); assert("pkg_unknown"@.len() == 11);
    reveal_strlit("err_permission_denied"); assert("err_permission_denied"@.len() == 21);
    reveal_strlit("{msg}");
    reveal_strlit("系统命令执行失败: {msg}");
    assert("系统命令执行失败: {msg}"@.subrange(10, 15) =~= "{msg}"@);
    assert(match_at("系统命令执行失败: {msg}"@, "{msg}"@, 10));
    reveal_strlit("System command failed: {msg}");
    assert("System command failed: {msg}"@.subrange(23, 28) =~= "{msg}"@);
    assert(match_at("System command failed: {msg}"@, "{msg}"@, 23));
    reveal_strlit("系統命令執行失敗: {msg}");
    assert("系統命令執行失敗: {msg}"@.subrange(10, 15) =~= "{msg}"@);
    assert(match_at("系統命令執行失敗: {msg}"@, "{msg}"@, 10));
}

proof fn placeholders_err_parse_error()
    ensures
        zh_cn_text("err_parse_error"@) matches Some(t) && contains(t, "{msg}"@),
        en_text("err_parse_error"@) matches Some(t) && contains(t, "{msg}"@),
        zh_tw_text("err_parse_error"@) matches Some(t) && contains(t, "{msg}"@),
{
    reveal_strlit("err_parse_error"); assert("err_parse_error"@.len() == 15);
    reveal_strlit("lang_en"); assert("lang_en"@.len() == 7);
    reveal_strlit("lang_zh_cn"); assert("lang_zh_cn"@.len() == 10);
    reveal_strlit("lang_zh_tw"); assert("lang_zh_tw"@.len() == 10);
    reveal_strlit("select_language"); assert("err_parse_error"@[0] == 'e'); assert("select_language"@[0] == 's');
    reveal_strlit("select_mode"); assert("select_mode"@.len() == 11);
    reveal_strlit("mode_cli"); assert("mode_cli"@.len() == 8);
    reveal_strlit("mode_tui"); assert("mode_tui"@.len() == 8);
    reveal_strlit("unknown_arg"); assert("unknown_arg"@.len() == 11);
    reveal_strlit("app_title"); assert("app_title"@.len() == 9);
    reveal_strlit("step_system_update"); assert("step_system_update"@.len() == 18);
    reveal_strlit("step_user_creation"); assert("step_user_creation"@.len() == 18);
    reveal_strlit("step_ssh_root_login"); assert("step_ssh_root_login"@.len() == 19);
    reveal_strlit("step_ssh_port_change"); assert("step_ssh_port_change"@.len() == 20);
    reveal_strlit("step_ssh_password_auth"); assert("step_ssh_password_auth"@.len() == 22);
    reveal_strlit("step_ssh_key_setup"); assert("step_ssh_key_setup"@.len() == 18);
    reveal_strlit("step_ufw"); assert("step_ufw"@.len() == 8);
    reveal_strlit("step_fail2ban"); assert("step_fail2ban"@.len() == 13);
    reveal_strlit("step_auto_updates"); assert("step_auto_updates"@.len() == 17);
    reveal_strlit("step_security_scan"); assert("step_security_scan"@.len() == 18);
    reveal_strlit("step_log_audit"); assert("step_log_audit"@.len() == 14);
    reveal_strlit("step_restart_ssh"); assert("step_restart_ssh"@.len() == 16);
    reveal_strlit("audit_root"); assert("audit_root"@.len() == 10);
    reveal_strlit("audit_pkg_mgr"); assert("audit_pkg_mgr"@.len() == 13);
    reveal_strlit("audit_ssh_port"); assert("audit_ssh_port"@.len() == 14);
    reveal_strlit("audit_password_auth"); assert("audit_password_auth"@.len() == 19);
    reveal_strlit("audit_root_login"); assert("audit_root_login"@.len() == 16);
    reveal_strlit("audit_sudo_users"); assert("audit_sudo_users"@.len() == 16);
    reveal_strlit("audit_fail2ban"); assert("audit_fail2ban"@.len() == 14);
    reveal_strlit("audit_ufw"); assert("audit_ufw"@.len() == 9);
    reveal_strlit("audit_auto_updates"); assert("audit_auto_updates"@.len() == 18);
    reveal_strlit("audit_sys_update"); assert("audit_sys_update"@.len() == 16);
    reveal_strlit("audit_detail_root_ok"); assert("audit_detail_root_ok"@.len() == 20);
    reveal_strlit("audit_detail_root_missing"); assert("audit_detail_root_missing"@.len() == 25);
    reveal_strlit("audit_detail_pkg"); assert("audit_detail_pkg"@.len() == 16);
    reveal_strlit("audit_detail_port_safe"); assert("audit_detail_port_safe"@.len() == 22);
    reveal_strlit("audit_detail_port_missing"); assert("audit_detail_port_missing"@.len() == 25);
    reveal_strlit("audit_detail_pw_disabled"); assert("audit_detail_pw_disabled"@.len() == 24);
    reveal_strlit("audit_detail_pw_missing"); assert("audit_detail_pw_missing"@.len() == 23);
    reveal_strlit("audit_detail_root_disabled"); assert("audit_detail_root_disabled"@.len() == 26);
    reveal_strlit("audit_detail_root_missing_cfg"); assert("audit_detail_root_missing_cfg"@.len() == 29);
    reveal_strlit("audit_detail_sudo_missing"); assert("audit_detail_sudo_missing"@.len() == 25);
    reveal_strlit("audit_detail_sudo_ok"); assert("audit_detail_sudo_ok"@.len() == 20);
    reveal_strlit("audit_detail_fb_installed"); assert("audit_detail_fb_installed"@.len() == 25);
    reveal_strlit("audit_detail_fb_missing"); assert("audit_detail_fb_missing"@.len() == 23);
    reveal_strlit("audit_detail_ufw_enabled"); assert("audit_detail_ufw_enabled"@.len() == 24);
    reveal_strlit("audit_detail_ufw_missing"); assert("audit_detail_ufw_missing"@.len() == 24);
    reveal_strlit("audit_detail_au_enabled"); assert("audit_detail_au_enabled"@.len() == 23);
    reveal_strlit("audit_detail_au_missing"); assert("audit_detail_au_missing"@.len() == 23);
    reveal_strlit("audit_detail_sys_uptodate"); assert("audit_detail_sys_uptodate"@.len() == 25);
    reveal_strlit("audit_detail_sys_needs_update"); assert("audit_detail_sys_needs_update"@.len() == 29);
    reveal_strlit("status_safe"); assert("status_safe"@.len() == 11);
    reveal_strlit("status_partial"); assert("status_partial"@.len() == 14);
    reveal_strlit("status_missing"); assert("status_missing"@.len() == 14);
    reveal_strlit("status_needs_update"); assert("status_needs_update"@.len() == 19);
    reveal_strlit("pkg_apt"); assert("pkg_apt"@.len() == 7);
    reveal_strlit("pkg_yum"); assert("pkg_yum"@.len() == 7);
    reveal_strlit("pkg_dnf"); assert("pkg_dnf"@.len() == 7);
    reveal_strlit("pkg_unknown"); assert("pkg_unknown"@.len() == 11);
    reveal_strlit("err_permission_denied"); assert("err_permission_denied"@.len() == 21);
    reveal_strlit("err_cmd_failed"); assert("err_cmd_failed"@.len() == 14);
    reveal_strlit("{msg}");
    reveal_strlit("配置解析错误: {msg}");
    assert("配置解析错误: {msg}"@.subrange(8, 13) =~= "{msg}"@);
    assert(match_at("配置解析错误: {msg}"@, "{msg}"@, 8));
    reveal_strlit("Config parse error: {msg}");
    assert("Config parse error: {msg}"@.subrange(20, 25) =~= "{msg}"@);
    assert(match_at("Config parse error: {msg}"@, "{msg}"@, 20));
    reveal_strlit("配置解析錯誤: {msg}");
    assert("配置解析錯誤: {msg}"@.subrange(8, 13) =~= "{msg}"@);
    assert(match_at("配置解析錯誤: {msg}"@, "{msg}"@, 8));
}

proof fn placeholders_err_precondition_failed()
    ensures
        zh_cn_text("err_precondition_failed"@) matches Some(t) && contains(t, "{msg}"@),
        en_text("err_precondition_failed"@) matches Some(t) && contains(t, "{msg}"@),
        zh_tw_text("err_precondition_failed"@) matches Some(t) && contains(t, "{msg}"@),
{
    reveal_strlit("err_precondition_failed"); assert("err_precondition_failed"@.len() == 23);
    reveal_strlit("lang_en"); assert("lang_en"@.len() == 7);
    reveal_strlit("lang_zh_cn"); assert("lang_zh_cn"@.len() == 10);
    reveal_strlit("lang_zh_tw"); assert("lang_zh_tw"@.len() == 10);
    reveal_strlit("select_language"); assert("select_language"@.len() == 15);
    reveal_strlit("select_mode"); assert("select_mode"@.len() == 11);
    reveal_strlit("mode_cli"); assert("mode_cli"@.len() == 8);
    reveal_strlit("mode_tui"); assert("mode_tui"@.len() == 8);
    reveal_strlit("unknown_arg"); assert("unknown_arg"@.len() == 11);
    reveal_strlit("app_title"); assert("app_title"@.len() == 9);
    reveal_strlit("step_system_update"); assert("step_system_update"@.len() == 18);
    reveal_strlit("step_user_creation"); assert("step_user_creation"@.len() == 18);
    reveal_strlit("step_ssh_root_login"); assert("step_ssh_root_login"@.len() == 19);
    reveal_strlit("step_ssh_port_change"); assert("step_ssh_port_change"@.len() == 20);
    reveal_strlit("step_ssh_password_auth"); assert("step_ssh_password_auth"@.len() == 22);
    reveal_strlit("step_ssh_key_setup"); assert("step_ssh_key_setup"@.len() == 18);
    reveal_strlit("step_ufw"); assert("step_ufw"@.len() == 8);
    reveal_strlit("step_fail2ban"); assert("step_fail2ban"@.len() == 13);
    reveal_strlit("step_auto_updates"); assert("step_auto_updates"@.len() == 17);
    reveal_strlit("step_security_scan"); assert("step_security_scan"@.len() == 18);
    reveal_strlit("step_log_audit"); assert("step_log_audit"@.len() == 14);
    reveal_strlit("step_restart_ssh"); assert("step_restart_ssh"@.len() == 16);
    reveal_strlit("audit_root"); assert("audit_root"@.len() == 10);
    reveal_strlit("audit_pkg_mgr"); assert("audit_pkg_mgr"@.len() == 13);
    reveal_strlit("audit_ssh_port"); assert("audit_ssh_port"@.len() == 14);
    reveal_strlit("audit_password_auth"); assert("audit_password_auth"@.len() == 19);
    reveal_strlit("audit_root_login"); assert("audit_root_login"@.len() == 16);
    reveal_strlit("audit_sudo_users"); assert("audit_sudo_users"@.len() == 16);
    reveal_strlit("audit_fail2ban"); assert("audit_fail2ban"@.len() == 14);
    reveal_strlit("audit_ufw"); assert("audit_ufw"@.len() == 9);
    reveal_strlit("audit_auto_updates"); assert("audit_auto_updates"@.len() == 18);
    reveal_strlit("audit_sys_update"); assert("audit_sys_update"@.len() == 16);
    reveal_strlit("audit_detail_root_ok"); assert("audit_detail_root_ok"@.len() == 20);
    reveal_strlit("audit_detail_root_missing"); assert("audit_detail_root_missing"@.len() == 25);
    reveal_strlit("audit_detail_pkg"); assert("audit_detail_pkg"@.len() == 16);
    reveal_strlit("audit_detail_port_safe"); assert("audit_detail_port_safe"@.len() == 22);
    reveal_strlit("audit_detail_port_missing"); assert("audit_detail_port_missing"@.len() == 25);
    reveal_strlit("audit_detail_pw_disabled"); assert("audit_detail_pw_disabled"@.len() == 24);
    reveal_strlit("audit_detail_pw_missing"); assert("err_precondition_failed"@[0] == 'e'); assert("audit_detail_pw_missing"@[0] == 'a');
    reveal_strlit("audit_detail_root_disabled"); assert("audit_detail_root_disabled"@.len() == 26);
    reveal_strlit("audit_detail_root_missing_cfg"); assert("audit_detail_root_missing_cfg"@.len() == 29);
    reveal_strlit("audit_detail_sudo_missing"); assert("audit_detail_sudo_missing"@.len() == 25);
    reveal_strlit("audit_detail_sudo_ok"); assert("audit_detail_sudo_ok"@.len() == 20);
    reveal_strlit("audit_detail_fb_installed"); assert("audit_detail_fb_installed"@.len() == 25);
    reveal_strlit("audit_detail_fb_missing"); assert("err_precondition_failed"@[0] == 'e'); assert("audit_detail_fb_missing"@[0] == 'a');
    reveal_strlit("audit_detail_ufw_enabled"); assert("audit_detail_ufw_enabled"@.len() == 24);
    reveal_strlit("audit_detail_ufw_missing"); assert("audit_detail_ufw_missing"@.len() == 24);
    reveal_strlit("audit_detail_au_enabled"); assert("err_precondition_failed"@[0] == 'e'); assert("audit_detail_au_enabled"@[0] == 'a');
    reveal_strlit("audit_detail_au_missing"); assert("err_precondition_failed"@[0] == 'e'); assert("audit_detail_au_missing"@[0] == 'a');
    reveal_strlit("audit_detail_sys_uptodate"); assert("audit_detail_sys_uptodate"@.len() == 25);
    reveal_strlit("audit_detail_sys_needs_update"); assert("audit_detail_sys_needs_update"@.len() == 29);
    reveal_strlit("status_safe"); assert("status_safe"@.len() == 11);
    reveal_strlit("status_partial"); assert("status_partial"@.len() == 14);
    reveal_strlit("status_missing"); assert("status_missing"@.len() == 14);
    reveal_strlit("status_needs_update"); assert("status_needs_update"@.len() == 19);
    reveal_strlit("pkg_apt"); assert("pkg_apt"@.len() == 7);
    reveal_strlit("pkg_yum"); assert("pkg_yum"@.len() == 7);
    reveal_strlit("pkg_dnf"); assert("pkg_dnf"@.len() == 7);
    reveal_strlit("pkg_unknown"); assert("pkg_unknown"@.len() == 11);
    reveal_strlit("err_permission_denied"); assert("err_permission_denied"@.len() == 21);
    reveal_strlit("err_cmd_failed"); assert("err_cmd_failed"@.len() == 14);
    reveal_strlit("err_parse_error"); assert("err_parse_error"@.len() == 15);
    reveal_strlit("{msg}");
    reveal_strlit("前置条件不满足: {msg}");
    assert("前置条件不满足: {msg}"@.subrange(9, 14) =~= "{msg}"@);
    assert(match_at("前置条件不满足: {msg}"@, "{msg}"@, 9));
    reveal_strlit("Precondition not met: {msg}");
    assert("Precondition not met: {msg}"@.subrange(22, 27) =~= "{msg}"@);
    assert(match_at("Precondition not met: {msg}"@, "{msg}"@, 22));
    reveal_strlit("前置條件不滿足: {msg}");
    assert("前置條件不滿足: {msg}"@.subrange(9, 14) =~= "{msg}"@);
    assert(match_at("前置條件不滿足: {msg}"@, "{msg}"@, 9));
}

proof fn placeholders_err_user_exists()
    ensures
        zh_cn_text("err_user_exists"@) matches Some(t) && contains(t, "{user}"@),
        en_text("err_user_exists"@) matches Some(t) && contains(t, "{user}"@),
        zh_tw_text("err_user_exists"@) matches Some(t) && contains(t, "{user}"@),
{
    reveal_strlit("err_user_exists"); assert("err_user_exists"@.len() == 15);
    reveal_strlit("lang_en"); assert("lang_en"@.len() == 7);
    reveal_strlit("lang_zh_cn"); assert("lang_zh_cn"@.len() == 10);
    reveal_strlit("lang_zh_tw"); assert("lang_zh_tw"@.len() == 10);
    reveal_strlit("select_language"); assert("err_user_exists"@[0] == 'e'); assert("select_language"@[0] == 's');
    reveal_strlit("select_mode"); assert("select_mode"@.len() == 11);
    reveal_strlit("mode_cli"); assert("mode_cli"@.len() == 8);
    reveal_strlit("mode_tui"); assert("mode_tui"@.len() == 8);
    reveal_strlit("unknown_arg"); assert("unknown_arg"@.len() == 11);
    reveal_strlit("app_title"); assert("app_title"@.len() == 9);
    reveal_strlit("step_system_update"); assert("step_system_update"@.len() == 18);
    reveal_strlit("step_user_creation"); assert("step_user_creation"@.len() == 18);
    reveal_strlit("step_ssh_root_login"); assert("step_ssh_root_login"@.len() == 19);
    reveal_strlit("step_ssh_port_change"); assert("step_ssh_port_change"@.len() == 20);
    reveal_strlit("step_ssh_password_auth"); assert("step_ssh_password_auth"@.len() == 22);
    reveal_strlit("step_ssh_key_setup"); assert("step_ssh_key_setup"@.len() == 18);
    reveal_strlit("step_ufw"); assert("step_ufw"@.len() == 8);
    reveal_strlit("step_fail2ban"); assert("step_fail2ban"@.len() == 13);
    reveal_strlit("step_auto_updates"); assert("step_auto_updates"@.len() == 17);
    reveal_strlit("step_security_scan"); assert("step_security_scan"@.len() == 18);
    reveal_strlit("step_log_audit"); assert("step_log_audit"@.len() == 14);
    reveal_strlit("step_restart_ssh"); assert("step_restart_ssh"@.len() == 16);
    reveal_strlit("audit_root"); assert("audit_root"@.len() == 10);
    reveal_strlit("audit_pkg_mgr"); assert("audit_pkg_mgr"@.len() == 13);
    reveal_strlit("audit_ssh_port"); assert("audit_ssh_port"@.len() == 14);
    reveal_strlit("audit_password_auth"); assert("audit_password_auth"@.len() == 19);
    reveal_strlit("audit_root_login"); assert("audit_root_login"@.len() == 16);
    reveal_strlit("audit_sudo_users"); assert("audit_sudo_users"@.len() == 16);
    reveal_strlit("audit_fail2ban"); assert("audit_fail2ban"@.len() == 14);
    reveal_strlit("audit_ufw"); assert("audit_ufw"@.len() == 9);
    reveal_strlit("audit_auto_updates"); assert("audit_auto_updates"@.len() == 18);
    reveal_strlit("audit_sys_update"); assert("audit_sys_update"@.len() == 16);
    reveal_strlit("audit_detail_root_ok"); assert("audit_detail_root_ok"@.len() == 20);
    reveal_strlit("audit_detail_root_missing"); assert("audit_detail_root_missing"@.len() == 25);
    reveal_strlit("audit_detail_pkg"); assert("audit_detail_pkg"@.len() == 16);
    reveal_strlit("audit_detail_port_safe"); assert("audit_detail_port_safe"@.len() == 22);
    reveal_strlit("audit_detail_port_missing"); assert("audit_detail_port_missing"@.len() == 25);
    reveal_strlit("audit_detail_pw_disabled"); assert("audit_detail_pw_disabled"@.len() == 24);
    reveal_strlit("audit_detail_pw_missing"); assert("audit_detail_pw_missing"@.len() == 23);
    reveal_strlit("audit_detail_root_disabled"); assert("audit_detail_root_disabled"@.len() == 26);
    reveal_strlit("audit_detail_root_missing_cfg"); assert("audit_detail_root_missing_cfg"@.len() == 29);
    reveal_strlit("audit_detail_sudo_missing"); assert("audit_detail_sudo_missing"@.len() == 25);
    reveal_strlit("audit_detail_sudo_ok"); assert("audit_detail_sudo_ok"@.len() == 20);
    reveal_strlit("audit_detail_fb_installed"); assert("audit_detail_fb_installed"@.len() == 25);
    reveal_strlit("audit_detail_fb_missing"); assert("audit_detail_fb_missing"@.len() == 23);
    reveal_strlit("audit_detail_ufw_enabled"); assert("audit_detail_ufw_enabled"@.len() == 24);
    reveal_strlit("audit_detail_ufw_missing"); assert("audit_detail_ufw_missing"@.len() == 24);
    reveal_strlit("audit_detail_au_enabled"); assert("audit_detail_au_enabled"@.len() == 23);
    reveal_strlit("audit_detail_au_missing"); assert("audit_detail_au_missing"@.len() == 23);
    reveal_strlit("audit_detail_sys_uptodate"); assert("audit_detail_sys_uptodate"@.len() == 25);
    reveal_strlit("audit_detail_sys_needs_update"); assert("audit_detail_sys_needs_update"@.len() == 29);
    reveal_strlit("status_safe"); assert("status_safe"@.len() == 11);
    reveal_strlit("status_partial"); assert("status_partial"@.len() == 14);
    reveal_strlit("status_missing"); assert("status_missing"@.len() == 14);
    reveal_strlit("status_needs_update"); assert("status_needs_update"@.len() == 19);
    reveal_strlit("pkg_apt"); assert("pkg_apt"@.len() == 7);
    reveal_strlit("pkg_yum"); assert("pkg_yum"@.len() == 7);
    reveal_strlit("pkg_dnf"); assert("pkg_dnf"@.len() == 7);
    reveal_strlit("pkg_unknown"); assert("pkg_unknown"@.len() == 11);
    reveal_strlit("err_permission_denied"); assert("err_permission_denied"@.len() == 21);
    reveal_strlit("err_cmd_failed"); assert("err_cmd_failed"@.len() == 14);
    reveal_strlit("err_parse_error"); assert("err_user_exists"@[4] == 'u'); assert("err_parse_error"@[4] == 'p');
    reveal_strlit("err_precondition_failed"); assert("err_precondition_failed"@.len() == 23);
    reveal_strlit("err_user_aborted"); assert("err_user_aborted"@.len() == 16);
    reveal_strlit("err_unknown_pkg_mgr"); assert("err_unknown_pkg_mgr"@.len() == 19);
    reveal_strlit("err_unsupported_pkg"); assert("err_unsupported_pkg"@.len() == 19);
    reveal_strlit("err_auto_update_only_debian"); assert("err_auto_update_only_debian"@.len() == 27);
    reveal_strlit("err_unknown_pkg_lynis"); assert("err_unknown_pkg_lynis"@.len() == 21);
    reveal_strlit("err_sshd_not_found"); assert("err_sshd_not_found"@.len() == 18);
    reveal_strlit("err_no_username"); assert("err_user_exists"@[4] == 'u'); assert("err_no_username"@[4] == 'n');
    reveal_strlit("{user}");
    reveal_strlit("用户 '{user}' 已存在");
    assert("用户 '{user}' 已存在"@.subrange(4, 10) =~= "{user}"@);
    assert(match_at("用户 '{user}' 已存在"@, "{user}"@, 4));
    reveal_strlit("User '{user}' already exists");
    assert("User '{user}' already exists"@.subrange(6, 12) =~= "{user}"@);
    assert(match_at("User '{user}' already exists"@, "{user}"@, 6));
    reveal_strlit("用戶 '{user}' 已存在");
    assert("用戶 '{user}' 已存在"@.subrange(4, 10) =~= "{user}"@);
    assert(match_at("用戶 '{user}' 已存在"@, "{user}"@, 4));
}

proof fn placeholders_result_user_created()
    ensures
        zh_cn_text("result_user_created"@) matches Some(t) && contains(t, "{user}"@),
        en_text("result_user_created"@) matches Some(t) && contains(t, "{user}"@),
        zh_tw_text("result_user_created"@) matches Some(t) && contains(t, "{user}"@),
{
    reveal_strlit("result_user_created"); assert("result_user_created"@.len() == 19);
    reveal_strlit("lang_en"); assert("lang_en"@.len() == 7);
    reveal_strlit("lang_zh_cn"); assert("lang_zh_cn"@.len() == 10);
    reveal_strlit("lang_zh_tw"); assert("lang_zh_tw"@.len() == 10);
    reveal_strlit("select_language"); assert("select_language"@.len() == 15);
    reveal_strlit("select_mode"); assert("select_mode"@.len() == 11);
    reveal_strlit("mode_cli"); assert("mode_cli"@.len() == 8);
    reveal_strlit("mode_tui"); assert("mode_tui"@.len() == 8);
    reveal_strlit("unknown_arg"); assert("unknown_arg"@.len() == 11);
    reveal_strlit("app_title"); assert("app_title"@.len() == 9);
    reveal_strlit("step_system_update"); assert("step_system_update"@.len() == 18);
    reveal_strlit("step_user_creation"); assert("step_user_creation"@.len() == 18);
    reveal_strlit("step_ssh_root_login"); assert("result_user_created"@[0] == 'r'); assert("step_ssh_root_login"@[0] == 's');
    reveal_strlit("step_ssh_port_change"); assert("step_ssh_port_change"@.len() == 20);
    reveal_strlit("step_ssh_password_auth"); assert("step_ssh_password_auth"@.len() == 22);
    reveal_strlit("step_ssh_key_setup"); assert("step_ssh_key_setup"@.len() == 18);
    reveal_strlit("step_ufw"); assert("step_ufw"@.len() == 8);
    reveal_strlit("step_fail2ban"); assert("step_fail2ban"@.len() == 13);
    reveal_strlit("step_auto_updates"); assert("step_auto_updates"@.len() == 17);
    reveal_strlit("step_security_scan"); assert("step_security_scan"@.len() == 18);
    reveal_strlit("step_log_audit"); assert("step_log_audit"@.len() == 14);
    reveal_strlit("step_restart_ssh"); assert("step_restart_ssh"@.len() == 16);
    reveal_strlit("audit_root"); assert("audit_root"@.len() == 10);
    reveal_strlit("audit_pkg_mgr"); assert("audit_pkg_mgr"@.len() == 13);
    reveal_strlit("audit_ssh_port"); assert("audit_ssh_port"@.len() == 14);
    reveal_strlit("audit_password_auth"); assert("result_user_created"@[0] == 'r'); assert("audit_password_auth"@[0] == 'a');
    reveal_strlit("audit_root_login"); assert("audit_root_login"@.len() == 16);
    reveal_strlit("audit_sudo_users"); assert("audit_sudo_users"@.len() == 16);
    reveal_strlit("audit_fail2ban"); assert("audit_fail2ban"@.len() == 14);
    reveal_strlit("audit_ufw"); assert("audit_ufw"@.len() == 9);
    reveal_strlit("audit_auto_updates"); assert("audit_auto_updates"@.len() == 18);
    reveal_strlit("audit_sys_update"); assert("audit_sys_update"@.len() == 16);
    reveal_strlit("audit_detail_root_ok"); assert("audit_detail_root_ok"@.len() == 20);
    reveal_strlit("audit_detail_root_missing"); assert("audit_detail_root_missing"@.len() == 25);
    reveal_strlit("audit_detail_pkg"); assert("audit_detail_pkg"@.len() == 16);
    reveal_strlit("audit_detail_port_safe"); assert("audit_detail_port_safe"@.len() == 22);
    reveal_strlit("audit_detail_port_missing"); assert("audit_detail_port_missing"@.len() == 25);
    reveal_strlit("audit_detail_pw_disabled"); assert("audit_detail_pw_disabled"@.len() == 24);
    reveal_strlit("audit_detail_pw_missing"); assert("audit_detail_pw_missing"@.len() == 23);
    reveal_strlit("audit_detail_root_disabled"); assert("audit_detail_root_disabled"@.len() == 26);
    reveal_strlit("audit_detail_root_missing_cfg"); assert("audit_detail_root_missing_cfg"@.len() == 29);
    reveal_strlit("audit_detail_sudo_missing"); assert("audit_detail_sudo_missing"@.len() == 25);
    reveal_strlit("audit_detail_sudo_ok"); assert("audit_detail_sudo_ok"@.len() == 20);
    reveal_strlit("audit_detail_fb_installed"); assert("audit_detail_fb_installed"@.len() == 25);
    reveal_strlit("audit_detail_fb_missing"); assert("audit_detail_fb_missing"@.len() == 23);
    reveal_strlit("audit_detail_ufw_enabled"); assert("audit_detail_ufw_enabled"@.len() == 24);
    reveal_strlit("audit_detail_ufw_missing"); assert("audit_detail_ufw_missing"@.len() == 24);
    reveal_strlit("audit_detail_au_enabled"); assert("audit_detail_au_enabled"@.len() == 23);
    reveal_strlit("audit_detail_au_missing"); assert("audit_detail_au_missing"@.len() == 23);
    reveal_strlit("audit_detail_sys_uptodate"); assert("audit_detail_sys_uptodate"@.len() == 25);
    reveal_strlit("audit_detail_sys_needs_update"); assert("audit_detail_sys_needs_update"@.len() == 29);
    reveal_strlit("status_safe"); assert("status_safe"@.len() == 11);
    reveal_strlit("status_partial"); assert("status_partial"@.len() == 14);
    reveal_strlit("status_missing"); assert("status_missing"@.len() == 14);
    reveal_strlit("status_needs_update"); assert("result_user_created"@[0] == 'r'); assert("status_needs_update"@[0] == 's');
    reveal_strlit("pkg_apt"); assert("pkg_apt"@.len() == 7);
    reveal_strlit("pkg_yum"); assert("pkg_yum"@.len() == 7);
    reveal_strlit("pkg_dnf"); assert("pkg_dnf"@.len() == 7);
    reveal_strlit("pkg_unknown"); assert("pkg_unknown"@.len() == 11);
    reveal_strlit("err_permission_denied"); assert("err_permission_denied"@.len() == 21);
    reveal_strlit("err_cmd_failed"); assert("err_cmd_failed"@.len() == 14);
    reveal_strlit("err_parse_error"); assert("err_parse_error"@.len() == 15);
    reveal_strlit("err_precondition_failed"); assert("err_precondition_failed"@.len() == 23);
    reveal_strlit("err_user_aborted"); assert("err_user_aborted"@.len() == 16);
    reveal_strlit("err_unknown_pkg_mgr"); assert("result_user_created"@[0] == 'r'); assert("err_unknown_pkg_mgr"@[0] == 'e');
    reveal_strlit("err_unsupported_pkg"); assert("result_user_created"@[0] == 'r'); assert("err_unsupported_pkg"@[0] == 'e');
    reveal_strlit("err_auto_update_only_debian"); assert("err_auto_update_only_debian"@.len() == 27);
    reveal_strlit("err_unknown_pkg_lynis"); assert("err_unknown_pkg_lynis"@.len() == 21);
    reveal_strlit("err_sshd_not_found"); assert("err_sshd_not_found"@.len() == 18);
    reveal_strlit("err_no_username"); assert("err_no_username"@.len() == 15);
    reveal_strlit("err_user_exists"); assert("err_user_exists"@.len() == 15);
    reveal_strlit("err_no_sudo_before_root"); assert("err_no_sudo_before_root"@.len() == 23);
    reveal_strlit("err_no_ssh_port"); assert("err_no_ssh_port"@.len() == 15);
    reveal_strlit("err_port_zero"); assert("err_port_zero"@.len() == 13);
    reveal_strlit("err_no_sudo_before_pw"); assert("err_no_sudo_before_pw"@.len() == 21);
    reveal_strlit("err_no_target_user"); assert("err_no_target_user"@.len() == 18);
    reveal_strlit("err_no_key_action"); assert("err_no_key_action"@.len() == 17);
    reveal_strlit("err_update_failed"); assert("err_update_failed"@.len() == 17);
    reveal_strlit("err_upgrade_failed"); assert("err_upgrade_failed"@.len() == 18);
    reveal_strlit("err_ufw_allow_failed"); assert("err_ufw_allow_failed"@.len() == 20);
    reveal_strlit("err_ufw_enable_failed"); assert("err_ufw_enable_failed"@.len() == 21);
    reveal_strlit("err_install_fail2ban"); assert("err_install_fail2ban"@.len() == 20);
    reveal_strlit("err_install_unattended"); assert("err_install_unattended"@.len() == 22);
    reveal_strlit("err_lynis_exec"); assert("err_lynis_exec"@.len() == 14);
    reveal_strlit("err_sshd_check"); assert("err_sshd_check"@.len() == 14);
    reveal_strlit("err_sshd_syntax"); assert("err_sshd_syntax"@.len() == 15);
    reveal_strlit("err_ssh_restart"); assert("err_ssh_restart"@.len() == 15);
    reveal_strlit("err_backup"); assert("err_backup"@.len() == 10);
    reveal_strlit("err_read"); assert("err_read"@.len() == 8);
    reveal_strlit("err_write"); assert("err_write"@.len() == 9);
    reveal_strlit("err_setup_signal"); assert("err_setup_signal"@.len() == 16);
    reveal_strlit("result_sys_updated"); assert("result_sys_updated"@.len() == 18);
    reveal_strlit("{user}");
    reveal_strlit("用户 '{user}' 已创建并加入 sudo 组，密钥已设置（私钥: ~/.ssh/id_ed25519）");
    assert("用户 '{user}' 已创建并加入 sudo 组，密钥已设置（私钥: ~/.ssh/id_ed25519）"@.subrange(4, 10) =~= "{user}"@);
    assert(match_at("用户 '{user}' 已创建并加入 sudo 组，密钥已设置（私钥: ~/.ssh/id_ed25519）"@, "{user}"@, 4));
    reveal_strlit("User '{user}' created with sudo, SSH key set (private key: ~/.ssh/id_ed25519)");
    assert("User '{user}' created with sudo, SSH key set (private key: ~/.ssh/id_ed25519)"@.subrange(6, 12) =~= "{user}"@);
    assert(match_at("User '{user}' created with sudo, SSH key set (private key: ~/.ssh/id_ed25519)"@, "{user}"@, 6));
    reveal_strlit("用戶 '{user}' 已創建並加入 sudo 群組，金鑰已設定（私鑰: ~/.ssh/id_ed25519）");
    assert("用戶 '{user}' 已創建並加入 sudo 群組，金鑰已設定（私鑰: ~/.ssh/id_ed25519）"@.subrange(4, 10) =~= "{user}"@);
    assert(match_at("用戶 '{user}' 已創建並加入 sudo 群組，金鑰已設定（私鑰: ~/.ssh/id_ed25519）"@, "{user}"@, 4));
}

proof fn placeholders_result_root_login_set()
    ensures
        zh_cn_text("result_root_login_set"@) matches Some(t) && contains(t, "{bak}"@),
        en_text("result_root_login_set"@) matches Some(t) && contains(t, "{bak}"@),
        zh_tw_text("result_root_login_set"@) matches Some(t) && contains(t, "{bak}"@),
{
    reveal_strlit("result_root_login_set"); assert("result_root_login_set"@.len() == 21);
    reveal_strlit("lang_en"); assert("lang_en"@.len() == 7);
    reveal_strlit("lang_zh_cn"); assert("lang_zh_cn"@.len() == 10);
    reveal_strlit("lang_zh_tw"); assert("lang_zh_tw"@.len() == 10);
    reveal_strlit("select_language"); assert("select_language"@.len() == 15);
    reveal_strlit("select_mode"); assert("select_mode"@.len() == 11);
    reveal_strlit("mode_cli"); assert("mode_cli"@.len() == 8);
    reveal_strlit("mode_tui"); assert("mode_tui"@.len() == 8);
    reveal_strlit("unknown_arg"); assert("unknown_arg"@.len() == 11);
    reveal_strlit("app_title"); assert("app_title"@.len() == 9);
    reveal_strlit("step_system_update"); assert("step_system_update"@.len() == 18);
    reveal_strlit("step_user_creation"); assert("step_user_creation"@.len() == 18);
    reveal_strlit("step_ssh_root_login"); assert("step_ssh_root_login"@.len() == 19);
    reveal_strlit("step_ssh_port_change"); assert("step_ssh_port_change"@.len() == 20);
    reveal_strlit("step_ssh_password_auth"); assert("step_ssh_password_auth"@.len() == 22);
    reveal_strlit("step_ssh_key_setup"); assert("step_ssh_key_setup"@.len() == 18);
    reveal_strlit("step_ufw"); assert("step_ufw"@.len() == 8);
    reveal_strlit("step_fail2ban"); assert("step_fail2ban"@.len() == 13);
    reveal_strlit("step_auto_updates"); assert("step_auto_updates"@.len() == 17);
    reveal_strlit("step_security_scan"); assert("step_security_scan"@.len() == 18);
    reveal_strlit("step_log_audit"); assert("step_log_audit"@.len() == 14);
    reveal_strlit("step_restart_ssh"); assert("step_restart_ssh"@.len() == 16);
    reveal_strlit("audit_root"); assert("audit_root"@.len() == 10);
    reveal_strlit("audit_pkg_mgr"); assert("audit_pkg_mgr"@.len() == 13);
    reveal_strlit("audit_ssh_port"); assert("audit_ssh_port"@.len() == 14);
    reveal_strlit("audit_password_auth"); assert("audit_password_auth"@.len() == 19);
    reveal_strlit("audit_root_login"); assert("audit_root_login"@.len() == 16);
    reveal_strlit("audit_sudo_users"); assert("audit_sudo_users"@.len() == 16);
    reveal_strlit("audit_fail2ban"); assert("audit_fail2ban"@.len() == 14);
    reveal_strlit("audit_ufw"); assert("audit_ufw"@.len() == 9);
    reveal_strlit("audit_auto_updates"); assert("audit_auto_updates"@.len() == 18);
    reveal_strlit("audit_sys_update"); assert("audit_sys_update"@.len() == 16);
    reveal_strlit("audit_detail_root_ok"); assert("audit_detail_root_ok"@.len() == 20);
    reveal_strlit("audit_detail_root_missing"); assert("audit_detail_root_missing"@.len() == 25);
    reveal_strlit("audit_detail_pkg"); assert("audit_detail_pkg"@.len() == 16);
    reveal_strlit("audit_detail_port_safe"); assert("audit_detail_port_safe"@.len() == 22);
    reveal_strlit("audit_detail_port_missing"); assert("audit_detail_port_missing"@.len() == 25);
    reveal_strlit("audit_detail_pw_disabled"); assert("audit_detail_pw_disabled"@.len() == 24);
    reveal_strlit("audit_detail_pw_missing"); assert("audit_detail_pw_missing"@.len() == 23);
    reveal_strlit("audit_detail_root_disabled"); assert("audit_detail_root_disabled"@.len() == 26);
    reveal_strlit("audit_detail_root_missing_cfg"); assert("audit_detail_root_missing_cfg"@.len() == 29);
    reveal_strlit("audit_detail_sudo_missing"); assert("audit_detail_sudo_missing"@.len() == 25);
    reveal_strlit("audit_detail_sudo_ok"); assert("audit_detail_sudo_ok"@.len() == 20);
    reveal_strlit("audit_detail_fb_installed"); assert("audit_detail_fb_installed"@.len() == 25);
    reveal_strlit("audit_detail_fb_missing"); assert("audit_detail_fb_missing"@.len() == 23);
    reveal_strlit("audit_detail_ufw_enabled"); assert("audit_detail_ufw_enabled"@.len() == 24);
    reveal_strlit("audit_detail_ufw_missing"); assert("audit_detail_ufw_missing"@.len() == 24);
    reveal_strlit("audit_detail_au_enabled"); assert("audit_detail_au_enabled"@.len() == 23);
    reveal_strlit("audit_detail_au_missing"); assert("audit_detail_au_missing"@.len() == 23);
    reveal_strlit("audit_detail_sys_uptodate"); assert("audit_detail_sys_uptodate"@.len() == 25);
    reveal_strlit("audit_detail_sys_needs_update"); assert("audit_detail_sys_needs_update"@.len() == 29);
    reveal_strlit("status_safe"); assert("status_safe"@.len() == 11);
    reveal_strlit("status_partial"); assert("status_partial"@.len() == 14);
    reveal_strlit("status_missing"); assert("status_missing"@.len() == 14);
    reveal_strlit("status_needs_update"); assert("status_needs_update"@.len() == 19);
    reveal_strlit("pkg_apt"); assert("pkg_apt"@.len() == 7);
    reveal_strlit("pkg_yum"); assert("pkg_yum"@.len() == 7);
    reveal_strlit("pkg_dnf"); assert("pkg_dnf"@.len() == 7);
    reveal_strlit("pkg_unknown"); assert("pkg_unknown"@.len() == 11);
    reveal_strlit("err_permission_denied"); assert("result_root_login_set"@[0] == 'r'); assert("err_permission_denied"@[0] == 'e');
    reveal_strlit("err_cmd_failed"); assert("err_cmd_failed"@.len() == 14);
    reveal_strlit("err_parse_error"); assert("err_parse_error"@.len() == 15);
    reveal_strlit("err_precondition_failed"); assert("err_precondition_failed"@.len() == 23);
    reveal_strlit("err_user_aborted"); assert("err_user_aborted"@.len() == 16);
    reveal_strlit("err_unknown_pkg_mgr"); assert("err_unknown_pkg_mgr"@.len() == 19);
    reveal_strlit("err_unsupported_pkg"); assert("err_unsupported_pkg"@.len() == 19);
    reveal_strlit("err_auto_update_only_debian"); assert("err_auto_update_only_debian"@.len() == 27);
    reveal_strlit("err_unknown_pkg_lynis"); assert("result_root_login_set"@[0] == 'r'); assert("err_unknown_pkg_lynis"@[0] == 'e');
    reveal_strlit("err_sshd_not_found"); assert("err_sshd_not_found"@.len() == 18);
    reveal_strlit("err_no_username"); assert("err_no_username"@.len() == 15);
    reveal_strlit("err_user_exists"); assert("err_user_exists"@.len() == 15);
    reveal_strlit("err_no_sudo_before_root"); assert("err_no_sudo_before_root"@.len() == 23);
    reveal_strlit("err_no_ssh_port"); assert("err_no_ssh_port"@.len() == 15);
    reveal_strlit("err_port_zero"); assert("err_port_zero"@.len() == 13);
    reveal_strlit("err_no_sudo_before_pw"); assert("result_root_login_set"@[0] == 'r'); assert("err_no_sudo_before_pw"@[0] == 'e');
    reveal_strlit("err_no_target_user"); assert("err_no_target_user"@.len() == 18);
    reveal_strlit("err_no_key_action"); assert("err_no_key_action"@.len() == 17);
    reveal_strlit("err_update_failed"); assert("err_update_failed"@.len() == 17);
    reveal_strlit("err_upgrade_failed"); assert("err_upgrade_failed"@.len() == 18);
    reveal_strlit("err_ufw_allow_failed"); assert("err_ufw_allow_failed"@.len() == 20);
    reveal_strlit("err_ufw_enable_failed"); assert("result_root_login_set"@[0] == 'r'); assert("err_ufw_enable_failed"@[0] == 'e');
    reveal_strlit("err_install_fail2ban"); assert("err_install_fail2ban"@.len() == 20);
    reveal_strlit("err_install_unattended"); assert("err_install_unattended"@.len() == 22);
    reveal_strlit("err_lynis_exec"); assert("err_lynis_exec"@.len() == 14);
    reveal_strlit("err_sshd_check"); assert("err_sshd_check"@.len() == 14);
    reveal_strlit("err_sshd_syntax"); assert("err_sshd_syntax"@.len() == 15);
    reveal_strlit("err_ssh_restart"); assert("err_ssh_restart"@.len() == 15);
    reveal_strlit("err_backup"); assert("err_backup"@.len() == 10);
    reveal_strlit("err_read"); assert("err_read"@.len() == 8);
    reveal_strlit("err_write"); assert("err_write"@.len() == 9);
    reveal_strlit("err_setup_signal"); assert("err_setup_signal"@.len() == 16);
    reveal_strlit("result_sys_updated"); assert("result_sys_updated"@.len() == 18);
    reveal_strlit("result_user_created"); assert("result_user_created"@.len() == 19);
    reveal_strlit("{bak}");
    reveal_strlit("PermitRootLogin 已设置为 prohibit-password（备份: {bak}）");
    assert("PermitRootLogin 已设置为 prohibit-password（备份: {bak}）"@.subrange(43, 48) =~= "{bak}"@);
    assert(match_at("PermitRootLogin 已设置为 prohibit-password（备份: {bak}）"@, "{bak}"@, 43));
    reveal_strlit("PermitRootLogin set to prohibit-password (backup: {bak})");
    assert("PermitRootLogin set to prohibit-password (backup: {bak})"@.subrange(50, 55) =~= "{bak}"@);
    assert(match_at("PermitRootLogin set to prohibit-password (backup: {bak})"@, "{bak}"@, 50));
    reveal_strlit("PermitRootLogin 已設定為 prohibit-password（備份: {bak}）");
    assert("PermitRootLogin 已設定為 prohibit-password（備份: {bak}）"@.subrange(43, 48) =~= "{bak}"@);
    assert(match_at("PermitRootLogin 已設定為 prohibit-password（備份: {bak}）"@, "{bak}"@, 43));
}

proof fn placeholders_result_ssh_port_set()
    ensures
        zh_cn_text("result_ssh_port_set"@) matches Some(t) && contains(t, "{msg}"@),
        zh_cn_text("result_ssh_port_set"@) matches Some(t) && contains(t, "{port}"@),
        en_text("result_ssh_port_set"@) matches Some(t) && contains(t, "{msg}"@),
        en_text("result_ssh_port_set"@) matches Some(t) && contains(t, "{port}"@),
        zh_tw_text("result_ssh_port_set"@) matches Some(t) && contains(t, "{msg}"@),
        zh_tw_text("result_ssh_port_set"@) matches Some(t) && contains(t, "{port}"@),
{
    reveal_strlit("result_ssh_port_set"); assert("result_ssh_port_set"@.len() == 19);
    reveal_strlit("lang_en"); assert("lang_en"@.len() == 7);
    reveal_strlit("lang_zh_cn"); assert("lang_zh_cn"@.len() == 10);
    reveal_strlit("lang_zh_tw"); assert("lang_zh_tw"@.len() == 10);
    reveal_strlit("select_language"); assert("select_language"@.len() == 15);
    reveal_strlit("select_mode"); assert("select_mode"@.len() == 11);
    reveal_strlit("mode_cli"); assert("mode_cli"@.len() == 8);
    reveal_strlit("mode_tui"); assert("mode_tui"@.len() == 8);
    reveal_strlit("unknown_arg"); assert("unknown_arg"@.len() == 11);
    reveal_strlit("app_title"); assert("app_title"@.len() == 9);
    reveal_strlit("step_system_update"); assert("step_system_update"@.len() == 18);
    reveal_strlit("step_user_creation"); assert("step_user_creation"@.len() == 18);
    reveal_strlit("step_ssh_root_login"); assert("result_ssh_port_set"@[0] == 'r'); assert("step_ssh_root_login"@[0] == 's');
    reveal_strlit("step_ssh_port_change"); assert("step_ssh_port_change"@.len() == 20);
    reveal_strlit("step_ssh_password_auth"); assert("step_ssh_password_auth"@.len() == 22);
    reveal_strlit("step_ssh_key_setup"); assert("step_ssh_key_setup"@.len() == 18);
    reveal_strlit("step_ufw"); assert("step_ufw"@.len() == 8);
    reveal_strlit("step_fail2ban"); assert("step_fail2ban"@.len() == 13);
    reveal_strlit("step_auto_updates"); assert("step_auto_updates"@.len() == 17);
    reveal_strlit("step_security_scan"); assert("step_security_scan"@.len() == 18);
    reveal_strlit("step_log_audit"); assert("step_log_audit"@.len() == 14);
    reveal_strlit("step_restart_ssh"); assert("step_restart_ssh"@.len() == 16);
    reveal_strlit("audit_root"); assert("audit_root"@.len() == 10);
    reveal_strlit("audit_pkg_mgr"); assert("audit_pkg_mgr"@.len() == 13);
    reveal_strlit("audit_ssh_port"); assert("audit_ssh_port"@.len() == 14);
    reveal_strlit("audit_password_auth"); assert("result_ssh_port_set"@[0] == 'r'); assert("audit_password_auth"@[0] == 'a');
    reveal_strlit("audit_root_login"); assert("audit_root_login"@.len() == 16);
    reveal_strlit("audit_sudo_users"); assert("audit_sudo_users"@.len() == 16);
    reveal_strlit("audit_fail2ban"); assert("audit_fail2ban"@.len() == 14);
    reveal_strlit("audit_ufw"); assert("audit_ufw"@.len() == 9);
    reveal_strlit("audit_auto_updates"); assert("audit_auto_updates"@.len() == 18);
    reveal_strlit("audit_sys_update"); assert("audit_sys_update"@.len() == 16);
    reveal_strlit("audit_detail_root_ok"); assert("audit_detail_root_ok"@.len() == 20);
    reveal_strlit("audit_detail_root_missing"); assert("audit_detail_root_missing"@.len() == 25);
    reveal_strlit("audit_detail_pkg"); assert("audit_detail_pkg"@.len() == 16);
    reveal_strlit("audit_detail_port_safe"); assert("audit_detail_port_safe"@.len() == 22);
    reveal_strlit("audit_detail_port_missing"); assert("audit_detail_port_missing"@.len() == 25);
    reveal_strlit("audit_detail_pw_disabled"); assert("audit_detail_pw_disabled"@.len() == 24);
    reveal_strlit("audit_detail_pw_missing"); assert("audit_detail_pw_missing"@.len() == 23);
    reveal_strlit("audit_detail_root_disabled"); assert("audit_detail_root_disabled"@.len() == 26);
    reveal_strlit("audit_detail_root_missing_cfg"); assert("audit_detail_root_missing_cfg"@.len() == 29);
    reveal_strlit("audit_detail_sudo_missing"); assert("audit_detail_sudo_missing"@.len() == 25);
    reveal_strlit("audit_detail_sudo_ok"); assert("audit_detail_sudo_ok"@.len() == 20);
    reveal_strlit("audit_detail_fb_installed"); assert("audit_detail_fb_installed"@.len() == 25);
    reveal_strlit("audit_detail_fb_missing"); assert("audit_detail_fb_missing"@.len() == 23);
    reveal_strlit("audit_detail_ufw_enabled"); assert("audit_detail_ufw_enabled"@.len() == 24);
    reveal_strlit("audit_detail_ufw_missing"); assert("audit_detail_ufw_missing"@.len() == 24);
    reveal_strlit("audit_detail_au_enabled"); assert("audit_detail_au_enabled"@.len() == 23);
    reveal_strlit("audit_detail_au_missing"); assert("audit_detail_au_missing"@.len() == 23);
    reveal_strlit("audit_detail_sys_uptodate"); assert("audit_detail_sys_uptodate"@.len() == 25);
    reveal_strlit("audit_detail_sys_needs_update"); assert("audit_detail_sys_needs_update"@.len() == 29);
    reveal_strlit("status_safe"); assert("status_safe"@.len() == 11);
    reveal_strlit("status_partial"); assert("status_partial"@.len() == 14);
    reveal_strlit("status_missing"); assert("status_missing"@.len() == 14);
    reveal_strlit("status_needs_update"); assert("result_ssh_port_set"@[0] == 'r'); assert("status_needs_update"@[0] == 's');
    reveal_strlit("pkg_apt"); assert("pkg_apt"@.len() == 7);
    reveal_strlit("pkg_yum"); assert("pkg_yum"@.len() == 7);
    reveal_strlit("pkg_dnf"); assert("pkg_dnf"@.len() == 7);
    reveal_strlit("pkg_unknown"); assert("pkg_unknown"@.len() == 11);
    reveal_strlit("err_permission_denied"); assert("err_permission_denied"@.len() == 21);
    reveal_strlit("err_cmd_failed"); assert("err_cmd_failed"@.len() == 14);
    reveal_strlit("err_parse_error"); assert("err_parse_error"@.len() == 15);
    reveal_strlit("err_precondition_failed"); assert("err_precondition_failed"@.len() == 23);
    reveal_strlit("err_user_aborted"); assert("err_user_aborted"@.len() == 16);
    reveal_strlit("err_unknown_pkg_mgr"); assert("result_ssh_port_set"@[0] == 'r'); assert("err_unknown_pkg_mgr"@[0] == 'e');
    reveal_strlit("err_unsupported_pkg"); assert("result_ssh_port_set"@[0] == 'r'); assert("err_unsupported_pkg"@[0] == 'e');
    reveal_strlit("err_auto_update_only_debian"); assert("err_auto_update_only_debian"@.len() == 27);
    reveal_strlit("err_unknown_pkg_lynis"); assert("err_unknown_pkg_lynis"@.len() == 21);
    reveal_strlit("err_sshd_not_found"); assert("err_sshd_not_found"@.len() == 18);
    reveal_strlit("err_no_username"); assert("err_no_username"@.len() == 15);
    reveal_strlit("err_user_exists"); assert("err_user_exists"@.len() == 15);
    reveal_strlit("err_no_sudo_before_root"); assert("err_no_sudo_before_root"@.len() == 23);
    reveal_strlit("err_no_ssh_port"); assert("err_no_ssh_port"@.len() == 15);
    reveal_strlit("err_port_zero"); assert("err_port_zero"@.len() == 13);
    reveal_strlit("err_no_sudo_before_pw"); assert("err_no_sudo_before_pw"@.len() == 21);
    reveal_strlit("err_no_target_user"); assert("err_no_target_user"@.len() == 18);
    reveal_strlit("err_no_key_action"); assert("err_no_key_action"@.len() == 17);
    reveal_strlit("err_update_failed"); assert("err_update_failed"@.len() == 17);
    reveal_strlit("err_upgrade_failed"); assert("err_upgrade_failed"@.len() == 18);
    reveal_strlit("err_ufw_allow_failed"); assert("err_ufw_allow_failed"@.len() == 20);
    reveal_strlit("err_ufw_enable_failed"); assert("err_ufw_enable_failed"@.len() == 21);
    reveal_strlit("err_install_fail2ban"); assert("err_install_fail2ban"@.len() == 20);
    reveal_strlit("err_install_unattended"); assert("err_install_unattended"@.len() == 22);
    reveal_strlit("err_lynis_exec"); assert("err_lynis_exec"@.len() == 14);
    reveal_strlit("err_sshd_check"); assert("err_sshd_check"@.len() == 14);
    reveal_strlit("err_sshd_syntax"); assert("err_sshd_syntax"@.len() == 15);
    reveal_strlit("err_ssh_restart"); assert("err_ssh_restart"@.len() == 15);
    reveal_strlit("err_backup"); assert("err_backup"@.len() == 10);
    reveal_strlit("err_read"); assert("err_read"@.len() == 8);
    reveal_strlit("err_write"); assert("err_write"@.len() == 9);
    reveal_strlit("err_setup_signal"); assert("err_setup_signal"@.len() == 16);
    reveal_strlit("result_sys_updated"); assert("result_sys_updated"@.len() == 18);
    reveal_strlit("result_user_created"); assert("result_ssh_port_set"@[7] == 's'); assert("result_user_created"@[7] == 'u');
    reveal_strlit("result_root_login_set"); assert("result_root_login_set"@.len() == 21);
    reveal_strlit("{msg}");
    reveal_strlit("{port}");
    reveal_strlit("SSH 端口已修改为 {port}（{msg}）");
    assert("SSH 端口已修改为 {port}（{msg}）"@.subrange(18, 23) =~= "{msg}"@);
    assert(match_at("SSH 端口已修改为 {port}（{msg}）"@, "{msg}"@, 18));
    assert("SSH 端口已修改为 {port}（{msg}）"@.subrange(11, 17) =~= "{port}"@);
    assert(match_at("SSH 端口已修改为 {port}（{msg}）"@, "{port}"@, 11));
    reveal_strlit("SSH port changed to {port} ({msg})");
    assert("SSH port changed to {port} ({msg})"@.subrange(28, 33) =~= "{msg}"@);
    assert(match_at("SSH port changed to {port} ({msg})"@, "{msg}"@, 28));
    assert("SSH port changed to {port} ({msg})"@.subrange(20, 26) =~= "{port}"@);
    assert(match_at("SSH port changed to {port} ({msg})"@, "{port}"@, 20));
    reveal_strlit("SSH 連接埠已修改為 {port}（{msg}）");
    assert("SSH 連接埠已修改為 {port}（{msg}）"@.subrange(19, 24) =~= "{msg}"@);
    assert(match_at("SSH 連接埠已修改為 {port}（{msg}）"@, "{msg}"@, 19));
    assert("SSH 連接埠已修改為 {port}（{msg}）"@.subrange(12, 18) =~= "{port}"@);
    assert(match_at("SSH 連接埠已修改為 {port}（{msg}）"@, "{port}"@, 12));
}

proof fn placeholders_result_key_generated()
    ensures
        zh_cn_text("result_key_generated"@) matches Some(t) && contains(t, "{key}"@),
        zh_cn_text("result_key_generated"@) matches Some(t) && contains(t, "{priv}"@),
        zh_cn_text("result_key_generated"@) matches Some(t) && contains(t, "{pub}"@),
        en_text("result_key_generated"@) matches Some(t) && contains(t, "{key}"@),
        en_text("result_key_generated"@) matches Some(t) && contains(t, "{priv}"@),
        en_text("result_key_generated"@) matches Some(t) && contains(t, "{pub}"@),
        zh_tw_text("result_key_generated"@) matches Some(t) && contains(t, "{key}"@),
        zh_tw_text("result_key_generated"@) matches Some(t) && contains(t, "{priv}"@),
        zh_tw_text("result_key_generated"@) matches Some(t) && contains(t, "{pub}"@),
{
    reveal_strlit("result_key_generated"); assert("result_key_generated"@.len() == 20);
    reveal_strlit("lang_en"); assert("lang_en"@.len() == 7);
    reveal_strlit("lang_zh_cn"); assert("lang_zh_cn"@.len() == 10);
    reveal_strlit("lang_zh_tw"); assert("lang_zh_tw"@.len() == 10);
    reveal_strlit("select_language"); assert("select_language"@.len() == 15);
    reveal_strlit("select_mode"); assert("select_mode"@.len() == 11);
    reveal_strlit("mode_cli"); assert("mode_cli"@.len() == 8);
    reveal_strlit("mode_tui"); assert("mode_tui"@.len() == 8);
    reveal_strlit("unknown_arg"); assert("unknown_arg"@.len() == 11);
    reveal_strlit("app_title"); assert("app_title"@.len() == 9);
    reveal_strlit("step_system_update"); assert("step_system_update"@.len() == 18);
    reveal_strlit("step_user_creation"); assert("step_user_creation"@.len() == 18);
    reveal_strlit("step_ssh_root_login"); assert("step_ssh_root_login"@.len() == 19);
    reveal_strlit("step_ssh_port_change"); assert("result_key_generated"@[0] == 'r'); assert("step_ssh_port_change"@[0] == 's');
    reveal_strlit("step_ssh_password_auth"); assert("step_ssh_password_auth"@.len() == 22);
    reveal_strlit("step_ssh_key_setup"); assert("step_ssh_key_setup"@.len() == 18);
    reveal_strlit("step_ufw"); assert("step_ufw"@.len() == 8);
    reveal_strlit("step_fail2ban"); assert("step_fail2ban"@.len() == 13);
    reveal_strlit("step_auto_updates"); assert("step_auto_updates"@.len() == 17);
    reveal_strlit("step_security_scan"); assert("step_security_scan"@.len() == 18);
    reveal_strlit("step_log_audit"); assert("step_log_audit"@.len() == 14);
    reveal_strlit("step_restart_ssh"); assert("step_restart_ssh"@.len() == 16);
    reveal_strlit("audit_root"); assert("audit_root"@.len() == 10);
    reveal_strlit("audit_pkg_mgr"); assert("audit_pkg_mgr"@.len() == 13);
    reveal_strlit("audit_ssh_port"); assert("audit_ssh_port"@.len() == 14);
    reveal_strlit("audit_password_auth"); assert("audit_password_auth"@.len() == 19);
    reveal_strlit("audit_root_login"); assert("audit_root_login"@.len() == 16);
    reveal_strlit("audit_sudo_users"); assert("audit_sudo_users"@.len() == 16);
    reveal_strlit("audit_fail2ban"); assert("audit_fail2ban"@.len() == 14);
    reveal_strlit("audit_ufw"); assert("audit_ufw"@.len() == 9);
    reveal_strlit("audit_auto_updates"); assert("audit_auto_updates"@.len() == 18);
    reveal_strlit("audit_sys_update"); assert("audit_sys_update"@.len() == 16);
    reveal_strlit("audit_detail_root_ok"); assert("result_key_generated"@[0] == 'r'); assert("audit_detail_root_ok"@[0] == 'a');
    reveal_strlit("audit_detail_root_missing"); assert("audit_detail_root_missing"@.len() == 25);
    reveal_strlit("audit_detail_pkg"); assert("audit_detail_pkg"@.len() == 16);
    reveal_strlit("audit_detail_port_safe"); assert("audit_detail_port_safe"@.len() == 22);
    reveal_strlit("audit_detail_port_missing"); assert("audit_detail_port_missing"@.len() == 25);
    reveal_strlit("audit_detail_pw_disabled"); assert("audit_detail_pw_disabled"@.len() == 24);
    reveal_strlit("audit_detail_pw_missing"); assert("audit_detail_pw_missing"@.len() == 23);
    reveal_strlit("audit_detail_root_disabled"); assert("audit_detail_root_disabled"@.len() == 26);
    reveal_strlit("audit_detail_root_missing_cfg"); assert("audit_detail_root_missing_cfg"@.len() == 29);
    reveal_strlit("audit_detail_sudo_missing"); assert("audit_detail_sudo_missing"@.len() == 25);
    reveal_strlit("audit_detail_sudo_ok"); assert("result_key_generated"@[0] == 'r'); assert("audit_detail_sudo_ok"@[0] == 'a');
    reveal_strlit("audit_detail_fb_installed"); assert("audit_detail_fb_installed"@.len() == 25);
    reveal_strlit("audit_detail_fb_missing"); assert("audit_detail_fb_missing"@.len() == 23);
    reveal_strlit("audit_detail_ufw_enabled"); assert("audit_detail_ufw_enabled"@.len() == 24);
    reveal_strlit("audit_detail_ufw_missing"); assert("audit_detail_ufw_missing"@.len() == 24);
    reveal_strlit("audit_detail_au_enabled"); assert("audit_detail_au_enabled"@.len() == 23);
    reveal_strlit("audit_detail_au_missing"); assert("audit_detail_au_missing"@.len() == 23);
    reveal_strlit("audit_detail_sys_uptodate"); assert("audit_detail_sys_uptodate"@.len() == 25);
    reveal_strlit("audit_detail_sys_needs_update"); assert("audit_detail_sys_needs_update"@.len() == 29);
    reveal_strlit("status_safe"); assert("status_safe"@.len() == 11);
    reveal_strlit("status_partial"); assert("status_partial"@.len() == 14);
    reveal_strlit("status_missing"); assert("status_missing"@.len() == 14);
    reveal_strlit("status_needs_update"); assert("status_needs_update"@.len() == 19);
    reveal_strlit("pkg_apt"); assert("pkg_apt"@.len() == 7);
    reveal_strlit("pkg_yum"); assert("pkg_yum"@.len() == 7);
    reveal_strlit("pkg_dnf"); assert("pkg_dnf"@.len() == 7);
    reveal_strlit("pkg_unknown"); assert("pkg_unknown"@.len() == 11);
    reveal_strlit("err_permission_denied"); assert("err_permission_denied"@.len() == 21);
    reveal_strlit("err_cmd_failed"); assert("err_cmd_failed"@.len() == 14);
    reveal_strlit("err_parse_error"); assert("err_parse_error"@.len() == 15);
    reveal_strlit("err_precondition_failed"); assert("err_precondition_failed"@.len() == 23);
    reveal_strlit("err_user_aborted"); assert("err_user_aborted"@.len() == 16);
    reveal_strlit("err_unknown_pkg_mgr"); assert("err_unknown_pkg_mgr"@.len() == 19);
    reveal_strlit("err_unsupported_pkg"); assert("err_unsupported_pkg"@.len() == 19);
    reveal_strlit("err_auto_update_only_debian"); assert("err_auto_update_only_debian"@.len() == 27);
    reveal_strlit("err_unknown_pkg_lynis"); assert("err_unknown_pkg_lynis"@.len() == 21);
    reveal_strlit("err_sshd_not_found"); assert("err_sshd_not_found"@.len() == 18);
    reveal_strlit("err_no_username"); assert("err_no_username"@.len() == 15);
    reveal_strlit("err_user_exists"); assert("err_user_exists"@.len() == 15);
    reveal_strlit("err_no_sudo_before_root"); assert("err_no_sudo_before_root"@.len() == 23);
    reveal_strlit("err_no_ssh_port"); assert("err_no_ssh_port"@.len() == 15);
    reveal_strlit("err_port_zero"); assert("err_port_zero"@.len() == 13);
    reveal_strlit("err_no_sudo_before_pw"); assert("err_no_sudo_before_pw"@.len() == 21);
    reveal_strlit("err_no_target_user"); assert("err_no_target_user"@.len() == 18);
    reveal_strlit("err_no_key_action"); assert("err_no_key_action"@.len() == 17);
    reveal_strlit("err_update_failed"); assert("err_update_failed"@.len() == 17);
    reveal_strlit("err_upgrade_failed"); assert("err_upgrade_failed"@.len() == 18);
    reveal_strlit("err_ufw_allow_failed"); assert("result_key_generated"@[0] == 'r'); assert("err_ufw_allow_failed"@[0] == 'e');
    reveal_strlit("err_ufw_enable_failed"); assert("err_ufw_enable_failed"@.len() == 21);
    reveal_strlit("err_install_fail2ban"); assert("result_key_generated"@[0] == 'r'); assert("err_install_fail2ban"@[0] == 'e');
    reveal_strlit("err_install_unattended"); assert("err_install_unattended"@.len() == 22);
    reveal_strlit("err_lynis_exec"); assert("err_lynis_exec"@.len() == 14);
    reveal_strlit("err_sshd_check"); assert("err_sshd_check"@.len() == 14);
    reveal_strlit("err_sshd_syntax"); assert("err_sshd_syntax"@.len() == 15);
    reveal_strlit("err_ssh_restart"); assert("err_ssh_restart"@.len() == 15);
    reveal_strlit("err_backup"); assert("err_backup"@.len() == 10);
    reveal_strlit("err_read"); assert("err_read"@.len() == 8);
    reveal_strlit("err_write"); assert("err_write"@.len() == 9);
    reveal_strlit("err_setup_signal"); assert("err_setup_signal"@.len() == 16);
    reveal_strlit("result_sys_updated"); assert("result_sys_updated"@.len() == 18);
    reveal_strlit("result_user_created"); assert("result_user_created"@.len() == 19);
    reveal_strlit("result_root_login_set"); assert("result_root_login_set"@.len() == 21);
    reveal_strlit("result_ssh_port_set"); assert("result_ssh_port_set"@.len() == 19);
    reveal_strlit("result_pw_auth_disabled"); assert("result_pw_auth_disabled"@.len() == 23);
    reveal_strlit("{key}");
    reveal_strlit("{priv}");
    reveal_strlit("{pub}");
    reveal_strlit("ED25519 密钥对已生成\n  私钥: {priv}\n  公钥: {pub}\n  ⚠️  私钥无密码短语保护，建议手动加密：ssh-keygen -p -f {key}\n  请立即复制私钥并安全保存！");
    assert("ED25519 密钥对已生成\n  私钥: {priv}\n  公钥: {pub}\n  ⚠️  私钥无密码短语保护，建议手动加密：ssh-keygen -p -f {key}\n  请立即复制私钥并安全保存！"@.subrange(80, 85) =~= "{key}"@);
    assert(match_at("ED25519 密钥对已生成\n  私钥: {priv}\n  公钥: {pub}\n  ⚠️  私钥无密码短语保护，建议手动加密：ssh-keygen -p -f {key}\n  请立即复制私钥并安全保存！"@, "{key}"@, 80));
    assert("ED25519 密钥对已生成\n  私钥: {priv}\n  公钥: {pub}\n  ⚠️  私钥无密码短语保护，建议手动加密：ssh-keygen -p -f {key}\n  请立即复制私钥并安全保存！"@.subrange(21, 27) =~= "{priv}"@);
    assert(match_at("ED25519 密钥对已生成\n  私钥: {priv}\n  公钥: {pub}\n  ⚠️  私钥无密码短语保护，建议手动加密：ssh-keygen -p -f {key}\n  请立即复制私钥并安全保存！"@, "{priv}"@, 21));
    assert("ED25519 密钥对已生成\n  私钥: {priv}\n  公钥: {pub}\n  ⚠️  私钥无密码短语保护，建议手动加密：ssh-keygen -p -f {key}\n  请立即复制私钥并安全保存！"@.subrange(34, 39) =~= "{pub}"@);
    assert(match_at("ED25519 密钥对已生成\n  私钥: {priv}\n  公钥: {pub}\n  ⚠️  私钥无密码短语保护，建议手动加密：ssh-keygen -p -f {key}\n  请立即复制私钥并安全保存！"@, "{pub}"@, 34));
    reveal_strlit("ED25519 key pair generated\n  Private: {priv}\n  Public: {pub}\n  ⚠️  No passphrase set, encrypt manually: ssh-keygen -p -f {key}\n  Copy and save the private key now!");
    assert("ED25519 key pair generated\n  Private: {priv}\n  Public: {pub}\n  ⚠️  No passphrase set, encrypt manually: ssh-keygen -p -f {key}\n  Copy and save the private key now!"@.subrange(121, 126) =~= "{key}"@);
    assert(match_at("ED25519 key pair generated\n  Private: {priv}\n  Public: {pub}\n  ⚠️  No passphrase set, encrypt manually: ssh-keygen -p -f {key}\n  Copy and save the private key now!"@, "{key}"@, 121));
    assert("ED25519 key pair generated\n  Private: {priv}\n  Public: {pub}\n  ⚠️  No passphrase set, encrypt manually: ssh-keygen -p -f {key}\n  Copy and save the private key now!"@.subrange(38, 44) =~= "{priv}"@);
    assert(match_at("ED25519 key pair generated\n  Private: {priv}\n  Public: {pub}\n  ⚠️  No passphrase set, encrypt manually: ssh-keygen -p -f {key}\n  Copy and save the private key now!"@, "{priv}"@, 38));
    assert("ED25519 key pair generated\n  Private: {priv}\n  Public: {pub}\n  ⚠️  No passphrase set, encrypt manually: ssh-keygen -p -f {key}\n  Copy and save the private key now!"@.subrange(55, 60) =~= "{pub}"@);
    assert(match_at("ED25519 key pair generated\n  Private: {priv}\n  Public: {pub}\n  ⚠️  No passphrase set, encrypt manually: ssh-keygen -p -f {key}\n  Copy and save the private key now!"@, "{pub}"@, 55));
    reveal_strlit("ED25519 金鑰對已生成\n  私鑰: {priv}\n  公鑰: {pub}\n  ⚠️  私鑰無密碼短語保護，建議手動加密：ssh-keygen -p -f {key}\n  請立即複製私鑰並安全儲存！");
    assert("ED25519 金鑰對已生成\n  私鑰: {priv}\n  公鑰: {pub}\n  ⚠️  私鑰無密碼短語保護，建議手動加密：ssh-keygen -p -f {key}\n  請立即複製私鑰並安全儲存！"@.subrange(80, 85) =~= "{key}"@);
    assert(match_at("ED25519 金鑰對已生成\n  私鑰: {priv}\n  公鑰: {pub}\n  ⚠️  私鑰無密碼短語保護，建議手動加密：ssh-keygen -p -f {key}\n  請立即複製私鑰並安全儲存！"@, "{key}"@, 80));
    assert("ED25519 金鑰對已生成\n  私鑰: {priv}\n  公鑰: {pub}\n  ⚠️  私鑰無密碼短語保護，建議手動加密：ssh-keygen -p -f {key}\n  請立即複製私鑰並安全儲存！"@.subrange(21, 27) =~= "{priv}"@);
    assert(match_at("ED25519 金鑰對已生成\n  私鑰: {priv}\n  公鑰: {pub}\n  ⚠️  私鑰無密碼短語保護，建議手動加密：ssh-keygen -p -f {key}\n  請立即複製私鑰並安全儲存！"@, "{priv}"@, 21));
    assert("ED25519 金鑰對已生成\n  私鑰: {priv}\n  公鑰: {pub}\n  ⚠️  私鑰無密碼短語保護，建議手動加密：ssh-keygen -p -f {key}\n  請立即複製私鑰並安全儲存！"@.subrange(34, 39) =~= "{pub}"@);
    assert(match_at("ED25519 金鑰對已生成\n  私鑰: {priv}\n  公鑰: {pub}\n  ⚠️  私鑰無密碼短語保護，建議手動加密：ssh-keygen -p -f {key}\n  請立即複製私鑰並安全儲存！"@, "{pub}"@, 34));
}

proof fn placeholders_result_key_pasted()
    ensures
        zh_cn_text("result_key_pasted"@) matches Some(t) && contains(t, "{user}"@),
        en_text("result_key_pasted"@) matches Some(t) && contains(t, "{user}"@),
        zh_tw_text("result_key_pasted"@) matches Some(t) && contains(t, "{user}"@),
{
    reveal_strlit("result_key_pasted"); assert("result_key_pasted"@.len() == 17);
    reveal_strlit("lang_en"); assert("lang_en"@.len() == 7);
    reveal_strlit("lang_zh_cn"); assert("lang_zh_cn"@.len() == 10);
    reveal_strlit("lang_zh_tw"); assert("lang_zh_tw"@.len() == 10);
    reveal_strlit("select_language"); assert("select_language"@.len() == 15);
    reveal_strlit("select_mode"); assert("select_mode"@.len() == 11);
    reveal_strlit("mode_cli"); assert("mode_cli"@.len() == 8);
    reveal_strlit("mode_tui"); assert("mode_tui"@.len() == 8);
    reveal_strlit("unknown_arg"); assert("unknown_arg"@.len() == 11);
    reveal_strlit("app_title"); assert("app_title"@.len() == 9);
    reveal_strlit("step_system_update"); assert("step_system_update"@.len() == 18);
    reveal_strlit("step_user_creation"); assert("step_user_creation"@.len() == 18);
    reveal_strlit("step_ssh_root_login"); assert("step_ssh_root_login"@.len() == 19);
    reveal_strlit("step_ssh_port_change"); assert("step_ssh_port_change"@.len() == 20);
    reveal_strlit("step_ssh_password_auth"); assert("step_ssh_password_auth"@.len() == 22);
    reveal_strlit("step_ssh_key_setup"); assert("step_ssh_key_setup"@.len() == 18);
    reveal_strlit("step_ufw"); assert("step_ufw"@.len() == 8);
    reveal_strlit("step_fail2ban"); assert("step_fail2ban"@.len() == 13);
    reveal_strlit("step_auto_updates"); assert("result_key_pasted"@[0] == 'r'); assert("step_auto_updates"@[0] == 's');
    reveal_strlit("step_security_scan"); assert("step_security_scan"@.len() == 18);
    reveal_strlit("step_log_audit"); assert("step_log_audit"@.len() == 14);
    reveal_strlit("step_restart_ssh"); assert("step_restart_ssh"@.len() == 16);
    reveal_strlit("audit_root"); assert("audit_root"@.len() == 10);
    reveal_strlit("audit_pkg_mgr"); assert("audit_pkg_mgr"@.len() == 13);
    reveal_strlit("audit_ssh_port"); assert("audit_ssh_port"@.len() == 14);
    reveal_strlit("audit_password_auth"); assert("audit_password_auth"@.len() == 19);
    reveal_strlit("audit_root_login"); assert("audit_root_login"@.len() == 16);
    reveal_strlit("audit_sudo_users"); assert("audit_sudo_users"@.len() == 16);
    reveal_strlit("audit_fail2ban"); assert("audit_fail2ban"@.len() == 14);
    reveal_strlit("audit_ufw"); assert("audit_ufw"@.len() == 9);
    reveal_strlit("audit_auto_updates"); assert("audit_auto_updates"@.len() == 18);
    reveal_strlit("audit_sys_update"); assert("audit_sys_update"@.len() == 16);
    reveal_strlit("audit_detail_root_ok"); assert("audit_detail_root_ok"@.len() == 20);
    reveal_strlit("audit_detail_root_missing"); assert("audit_detail_root_missing"@.len() == 25);
    reveal_strlit("audit_detail_pkg"); assert("audit_detail_pkg"@.len() == 16);
    reveal_strlit("audit_detail_port_safe"); assert("audit_detail_port_safe"@.len() == 22);
    reveal_strlit("audit_detail_port_missing"); assert("audit_detail_port_missing"@.len() == 25);
    reveal_strlit("audit_detail_pw_disabled"); assert("audit_detail_pw_disabled"@.len() == 24);
    reveal_strlit("audit_detail_pw_missing"); assert("audit_detail_pw_missing"@.len() == 23);
    reveal_strlit("audit_detail_root_disabled"); assert("audit_detail_root_disabled"@.len() == 26);
    reveal_strlit("audit_detail_root_missing_cfg"); assert("audit_detail_root_missing_cfg"@.len() == 29);
    reveal_strlit("audit_detail_sudo_missing"); assert("audit_detail_sudo_missing"@.len() == 25);
    reveal_strlit("audit_detail_sudo_ok"); assert("audit_detail_sudo_ok"@.len() == 20);
    reveal_strlit("audit_detail_fb_installed"); assert("audit_detail_fb_installed"@.len() == 25);
    reveal_strlit("audit_detail_fb_missing"); assert("audit_detail_fb_missing"@.len() == 23);
    reveal_strlit("audit_detail_ufw_enabled"); assert("audit_detail_ufw_enabled"@.len() == 24);
    reveal_strlit("audit_detail_ufw_missing"); assert("audit_detail_ufw_missing"@.len() == 24);
    reveal_strlit("audit_detail_au_enabled"); assert("audit_detail_au_enabled"@.len() == 23);
    reveal_strlit("audit_detail_au_missing"); assert("audit_detail_au_missing"@.len() == 23);
    reveal_strlit("audit_detail_sys_uptodate"); assert("audit_detail_sys_uptodate"@.len() == 25);
    reveal_strlit("audit_detail_sys_needs_update"); assert("audit_detail_sys_needs_update"@.len() == 29);
    reveal_strlit("status_safe"); assert("status_safe"@.len() == 11);
    reveal_strlit("status_partial"); assert("status_partial"@.len() == 14);
    reveal_strlit("status_missing"); assert("status_missing"@.len() == 14);
    reveal_strlit("status_needs_update"); assert("status_needs_update"@.len() == 19);
    reveal_strlit("pkg_apt"); assert("pkg_apt"@.len() == 7);
    reveal_strlit("pkg_yum"); assert("pkg_yum"@.len() == 7);
    reveal_strlit("pkg_dnf"); assert("pkg_dnf"@.len() == 7);
    reveal_strlit("pkg_unknown"); assert("pkg_unknown"@.len() == 11);
    reveal_strlit("err_permission_denied"); assert("err_permission_denied"@.len() == 21);
    reveal_strlit("err_cmd_failed"); assert("err_cmd_failed"@.len() == 14);
    reveal_strlit("err_parse_error"); assert("err_parse_error"@.len() == 15);
    reveal_strlit("err_precondition_failed"); assert("err_precondition_failed"@.len() == 23);
    reveal_strlit("err_user_aborted"); assert("err_user_aborted"@.len() == 16);
    reveal_strlit("err_unknown_pkg_mgr"); assert("err_unknown_pkg_mgr"@.len() == 19);
    reveal_strlit("err_unsupported_pkg"); assert("err_unsupported_pkg"@.len() == 19);
    reveal_strlit("err_auto_update_only_debian"); assert("err_auto_update_only_debian"@.len() == 27);
    reveal_strlit("err_unknown_pkg_lynis"); assert("err_unknown_pkg_lynis"@.len() == 21);
    reveal_strlit("err_sshd_not_found"); assert("err_sshd_not_found"@.len() == 18);
    reveal_strlit("err_no_username"); assert("err_no_username"@.len() == 15);
    reveal_strlit("err_user_exists"); assert("err_user_exists"@.len() == 15);
    reveal_strlit("err_no_sudo_before_root"); assert("err_no_sudo_before_root"@.len() == 23);
    reveal_strlit("err_no_ssh_port"); assert("err_no_ssh_port"@.len() == 15);
    reveal_strlit("err_port_zero"); assert("err_port_zero"@.len() == 13);
    reveal_strlit("err_no_sudo_before_pw"); assert("err_no_sudo_before_pw"@.len() == 21);
    reveal_strlit("err_no_target_user"); assert("err_no_target_user"@.len() == 18);
    reveal_strlit("err_no_key_action"); assert("result_key_pasted"@[0] == 'r'); assert("err_no_key_action"@[0] == 'e');
    reveal_strlit("err_update_failed"); assert("result_key_pasted"@[0] == 'r'); assert("err_update_failed"@[0] == 'e');
    reveal_strlit("err_upgrade_failed"); assert("err_upgrade_failed"@.len() == 18);
    reveal_strlit("err_ufw_allow_failed"); assert("err_ufw_allow_failed"@.len() == 20);
    reveal_strlit("err_ufw_enable_failed"); assert("err_ufw_enable_failed"@.len() == 21);
    reveal_strlit("err_install_fail2ban"); assert("err_install_fail2ban"@.len() == 20);
    reveal_strlit("err_install_unattended"); assert("err_install_unattended"@.len() == 22);
    reveal_strlit("err_lynis_exec"); assert("err_lynis_exec"@.len() == 14);
    reveal_strlit("err_sshd_check"); assert("err_sshd_check"@.len() == 14);
    reveal_strlit("err_sshd_syntax"); assert("err_sshd_syntax"@.len() == 15);
    reveal_strlit("err_ssh_restart"); assert("err_ssh_restart"@.len() == 15);
    reveal_strlit("err_backup"); assert("err_backup"@.len() == 10);
    reveal_strlit("err_read"); assert("err_read"@.len() == 8);
    reveal_strlit("err_write"); assert("err_write"@.len() == 9);
    reveal_strlit("err_setup_signal"); assert("err_setup_signal"@.len() == 16);
    reveal_strlit("result_sys_updated"); assert("result_sys_updated"@.len() == 18);
    reveal_strlit("result_user_created"); assert("result_user_created"@.len() == 19);
    reveal_strlit("result_root_login_set"); assert("result_root_login_set"@.len() == 21);
    reveal_strlit("result_ssh_port_set"); assert("result_ssh_port_set"@.len() == 19);
    reveal_strlit("result_pw_auth_disabled"); assert("result_pw_auth_disabled"@.len() == 23);
    reveal_strlit("result_key_generated"); assert("result_key_generated"@.len() == 20);
    reveal_strlit("{user}");
    reveal_strlit("公钥已添加到 {user} 的 authorized_keys");
    assert("公钥已添加到 {user} 的 authorized_keys"@.subrange(7, 13) =~= "{user}"@);
    assert(match_at("公钥已添加到 {user} 的 authorized_keys"@, "{user}"@, 7));
    reveal_strlit("Public key added to {user}'s authorized_keys");
    assert("Public key added to {user}'s authorized_keys"@.subrange(20, 26) =~= "{user}"@);
    assert(match_at("Public key added to {user}'s authorized_keys"@, "{user}"@, 20));
    reveal_strlit("公鑰已添加到 {user} 的 authorized_keys");
    assert("公鑰已添加到 {user} 的 authorized_keys"@.subrange(7, 13) =~= "{user}"@);
    assert(match_at("公鑰已添加到 {user} 的 authorized_keys"@, "{user}"@, 7));
}

proof fn placeholders_result_ufw_enabled()
    ensures
        zh_cn_text("result_ufw_enabled"@) matches Some(t) && contains(t, "{port}"@),
        en_text("result_ufw_enabled"@) matches Some(t) && contains(t, "{port}"@),
        zh_tw_text("result_ufw_enabled"@) matches Some(t) && contains(t, "{port}"@),
{
    reveal_strlit("result_ufw_enabled"); assert("result_ufw_enabled"@.len() == 18);
    reveal_strlit("lang_en"); assert("lang_en"@.len() == 7);
    reveal_strlit("lang_zh_cn"); assert("lang_zh_cn"@.len() == 10);
    reveal_strlit("lang_zh_tw"); assert("lang_zh_tw"@.len() == 10);
    reveal_strlit("select_language"); assert("select_language"@.len() == 15);
    reveal_strlit("select_mode"); assert("select_mode"@.len() == 11);
    reveal_strlit("mode_cli"); assert("mode_cli"@.len() == 8);
    reveal_strlit("mode_tui"); assert("mode_tui"@.len() == 8);
    reveal_strlit("unknown_arg"); assert("unknown_arg"@.len() == 11);
    reveal_strlit("app_title"); assert("app_title"@.len() == 9);
    reveal_strlit("step_system_update"); assert("result_ufw_enabled"@[0] == 'r'); assert("step_system_update"@[0] == 's');
    reveal_strlit("step_user_creation"); assert("result_ufw_enabled"@[0] == 'r'); assert("step_user_creation"@[0] == 's');
    reveal_strlit("step_ssh_root_login"); assert("step_ssh_root_login"@.len() == 19);
    reveal_strlit("step_ssh_port_change"); assert("step_ssh_port_change"@.len() == 20);
    reveal_strlit("step_ssh_password_auth"); assert("step_ssh_password_auth"@.len() == 22);
    reveal_strlit("step_ssh_key_setup"); assert("result_ufw_enabled"@[0] == 'r'); assert("step_ssh_key_setup"@[0] == 's');
    reveal_strlit("step_ufw"); assert("step_ufw"@.len() == 8);
    reveal_strlit("step_fail2ban"); assert("step_fail2ban"@.len() == 13);
    reveal_strlit("step_auto_updates"); assert("step_auto_updates"@.len() == 17);
    reveal_strlit("step_security_scan"); assert("result_ufw_enabled"@[0] == 'r'); assert("step_security_scan"@[0] == 's');
    reveal_strlit("step_log_audit"); assert("step_log_audit"@.len() == 14);
    reveal_strlit("step_restart_ssh"); assert("step_restart_ssh"@.len() == 16);
    reveal_strlit("audit_root"); assert("audit_root"@.len() == 10);
    reveal_strlit("audit_pkg_mgr"); assert("audit_pkg_mgr"@.len() == 13);
    reveal_strlit("audit_ssh_port"); assert("audit_ssh_port"@.len() == 14);
    reveal_strlit("audit_password_auth"); assert("audit_password_auth"@.len() == 19);
    reveal_strlit("audit_root_login"); assert("audit_root_login"@.len() == 16);
    reveal_strlit("audit_sudo_users"); assert("audit_sudo_users"@.len() == 16);
    reveal_strlit("audit_fail2ban"); assert("audit_fail2ban"@.len() == 14);
    reveal_strlit("audit_ufw"); assert("audit_ufw"@.len() == 9);
    reveal_strlit("audit_auto_updates"); assert("result_ufw_enabled"@[0] == 'r'); assert("audit_auto_updates"@[0] == 'a');
    reveal_strlit("audit_sys_update"); assert("audit_sys_update"@.len() == 16);
    reveal_strlit("audit_detail_root_ok"); assert("audit_detail_root_ok"@.len() == 20);
    reveal_strlit("audit_detail_root_missing"); assert("audit_detail_root_missing"@.len() == 25);
    reveal_strlit("audit_detail_pkg"); assert("audit_detail_pkg"@.len() == 16);
    reveal_strlit("audit_detail_port_safe"); assert("audit_detail_port_safe"@.len() == 22);
    reveal_strlit("audit_detail_port_missing"); assert("audit_detail_port_missing"@.len() == 25);
    reveal_strlit("audit_detail_pw_disabled"); assert("audit_detail_pw_disabled"@.len() == 24);
    reveal_strlit("audit_detail_pw_missing"); assert("audit_detail_pw_missing"@.len() == 23);
    reveal_strlit("audit_detail_root_disabled"); assert("audit_detail_root_disabled"@.len() == 26);
    reveal_strlit("audit_detail_root_missing_cfg"); assert("audit_detail_root_missing_cfg"@.len() == 29);
    reveal_strlit("audit_detail_sudo_missing"); assert("audit_detail_sudo_missing"@.len() == 25);
    reveal_strlit("audit_detail_sudo_ok"); assert("audit_detail_sudo_ok"@.len() == 20);
    reveal_strlit("audit_detail_fb_installed"); assert("audit_detail_fb_installed"@.len() == 25);
    reveal_strlit("audit_detail_fb_missing"); assert("audit_detail_fb_missing"@.len() == 23);
    reveal_strlit("audit_detail_ufw_enabled"); assert("audit_detail_ufw_enabled"@.len() == 24);
    reveal_strlit("audit_detail_ufw_missing"); assert("audit_detail_ufw_missing"@.len() == 24);
    reveal_strlit("audit_detail_au_enabled"); assert("audit_detail_au_enabled"@.len() == 23);
    reveal_strlit("audit_detail_au_missing"); assert("audit_detail_au_missing"@.len() == 23);
    reveal_strlit("audit_detail_sys_uptodate"); assert("audit_detail_sys_uptodate"@.len() == 25);
    reveal_strlit("audit_detail_sys_needs_update"); assert("audit_detail_sys_needs_update"@.len() == 29);
    reveal_strlit("status_safe"); assert("status_safe"@.len() == 11);
    reveal_strlit("status_partial"); assert("status_partial"@.len() == 14);
    reveal_strlit("status_missing"); assert("status_missing"@.len() == 14);
    reveal_strlit("status_needs_update"); assert("status_needs_update"@.len() == 19);
    reveal_strlit("pkg_apt"); assert("pkg_apt"@.len() == 7);
    reveal_strlit("pkg_yum"); assert("pkg_yum"@.len() == 7);
    reveal_strlit("pkg_dnf"); assert("pkg_dnf"@.len() == 7);
    reveal_strlit("pkg_unknown"); assert("pkg_unknown"@.len() == 11);
    reveal_strlit("err_permission_denied"); assert("err_permission_denied"@.len() == 21);
    reveal_strlit("err_cmd_failed"); assert("err_cmd_failed"@.len() == 14);
    reveal_strlit("err_parse_error"); assert("err_parse_error"@.len() == 15);
    reveal_strlit("err_precondition_failed"); assert("err_precondition_failed"@.len() == 23);
    reveal_strlit("err_user_aborted"); assert("err_user_aborted"@.len() == 16);
    reveal_strlit("err_unknown_pkg_mgr"); assert("err_unknown_pkg_mgr"@.len() == 19);
    reveal_strlit("err_unsupported_pkg"); assert("err_unsupported_pkg"@.len() == 19);
    reveal_strlit("err_auto_update_only_debian"); assert("err_auto_update_only_debian"@.len() == 27);
    reveal_strlit("err_unknown_pkg_lynis"); assert("err_unknown_pkg_lynis"@.len() == 21);
    reveal_strlit("err_sshd_not_found"); assert("result_ufw_enabled"@[0] == 'r'); assert("err_sshd_not_found"@[0] == 'e');
    reveal_strlit("err_no_username"); assert("err_no_username"@.len() == 15);
    reveal_strlit("err_user_exists"); assert("err_user_exists"@.len() == 15);
    reveal_strlit("err_no_sudo_before_root"); assert("err_no_sudo_before_root"@.len() == 23);
    reveal_strlit("err_no_ssh_port"); assert("err_no_ssh_port"@.len() == 15);
    reveal_strlit("err_port_zero"); assert("err_port_zero"@.len() == 13);
    reveal_strlit("err_no_sudo_before_pw"); assert("err_no_sudo_before_pw"@.len() == 21);
    reveal_strlit("err_no_target_user"); assert("result_ufw_enabled"@[0] == 'r'); assert("err_no_target_user"@[0] == 'e');
    reveal_strlit("err_no_key_action"); assert("err_no_key_action"@.len() == 17);
    reveal_strlit("err_update_failed"); assert("err_update_failed"@.len() == 17);
    reveal_strlit("err_upgrade_failed"); assert("result_ufw_enabled"@[0] == 'r'); assert("err_upgrade_failed"@[0] == 'e');
    reveal_strlit("err_ufw_allow_failed"); assert("err_ufw_allow_failed"@.len() == 20);
    reveal_strlit("err_ufw_enable_failed"); assert("err_ufw_enable_failed"@.len() == 21);
    reveal_strlit("err_install_fail2ban"); assert("err_install_fail2ban"@.len() == 20);
    reveal_strlit("err_install_unattended"); assert("err_install_unattended"@.len() == 22);
    reveal_strlit("err_lynis_exec"); assert("err_lynis_exec"@.len() == 14);
    reveal_strlit("err_sshd_check"); assert("err_sshd_check"@.len() == 14);
    reveal_strlit("err_sshd_syntax"); assert("err_sshd_syntax"@.len() == 15);
    reveal_strlit("err_ssh_restart"); assert("err_ssh_restart"@.len() == 15);
    reveal_strlit("err_backup"); assert("err_backup"@.len() == 10);
    reveal_strlit("err_read"); assert("err_read"@.len() == 8);
    reveal_strlit("err_write"); assert("err_write"@.len() == 9);
    reveal_strlit("err_setup_signal"); assert("err_setup_signal"@.len() == 16);
    reveal_strlit("result_sys_updated"); assert("result_ufw_enabled"@[7] == 'u'); assert("result_sys_updated"@[7] == 's');
    reveal_strlit("result_user_created"); assert("result_user_created"@.len() == 19);
    reveal_strlit("result_root_login_set"); assert("result_root_login_set"@.len() == 21);
    reveal_strlit("result_ssh_port_set"); assert("result_ssh_port_set"@.len() == 19);
    reveal_strlit("result_pw_auth_disabled"); assert("result_pw_auth_disabled"@.len() == 23);
    reveal_strlit("result_key_generated"); assert("result_key_generated"@.len() == 20);
    reveal_strlit("result_key_pasted"); assert("result_key_pasted"@.len() == 17);
    reveal_strlit("{port}");
    reveal_strlit("UFW 已启用，SSH 端口 {port} 已放行");
    assert("UFW 已启用，SSH 端口 {port} 已放行"@.subrange(15, 21) =~= "{port}"@);
    assert(match_at("UFW 已启用，SSH 端口 {port} 已放行"@, "{port}"@, 15));
    reveal_strlit("UFW enabled, SSH port {port} allowed");
    assert("UFW enabled, SSH port {port} allowed"@.subrange(22, 28) =~= "{port}"@);
    assert(match_at("UFW enabled, SSH port {port} allowed"@, "{port}"@, 22));
    reveal_strlit("UFW 已啟用，SSH 連接埠 {port} 已放行");
    assert("UFW 已啟用，SSH 連接埠 {port} 已放行"@.subrange(16, 22) =~= "{port}"@);
    assert(match_at("UFW 已啟用，SSH 連接埠 {port} 已放行"@, "{port}"@, 16));
}

proof fn placeholders_result_fail2ban_installed()
    ensures
        zh_cn_text("result_fail2ban_installed"@) matches Some(t) && contains(t, "{port}"@),
        en_text("result_fail2ban_installed"@) matches Some(t) && contains(t, "{port}"@),
        zh_tw_text("result_fail2ban_installed"@) matches Some(t) && contains(t, "{port}"@),
{
    reveal_strlit("result_fail2ban_installed"); assert("result_fail2ban_installed"@.len() == 25);
    reveal_strlit("lang_en"); assert("lang_en"@.len() == 7);
    reveal_strlit("lang_zh_cn"); assert("lang_zh_cn"@.len() == 10);
    reveal_strlit("lang_zh_tw"); assert("lang_zh_tw"@.len() == 10);
    reveal_strlit("select_language"); assert("select_language"@.len() == 15);
    reveal_strlit("select_mode"); assert("select_mode"@.len() == 11);
    reveal_strlit("mode_cli"); assert("mode_cli"@.len() == 8);
    reveal_strlit("mode_tui"); assert("mode_tui"@.len() == 8);
    reveal_strlit("unknown_arg"); assert("unknown_arg"@.len() == 11);
    reveal_strlit("app_title"); assert("app_title"@.len() == 9);
    reveal_strlit("step_system_update"); assert("step_system_update"@.len() == 18);
    reveal_strlit("step_user_creation"); assert("step_user_creation"@.len() == 18);
    reveal_strlit("step_ssh_root_login"); assert("step_ssh_root_login"@.len() == 19);
    reveal_strlit("step_ssh_port_change"); assert("step_ssh_port_change"@.len() == 20);
    reveal_strlit("step_ssh_password_auth"); assert("step_ssh_password_auth"@.len() == 22);
    reveal_strlit("step_ssh_key_setup"); assert("step_ssh_key_setup"@.len() == 18);
    reveal_strlit("step_ufw"); assert("step_ufw"@.len() == 8);
    reveal_strlit("step_fail2ban"); assert("step_fail2ban"@.len() == 13);
    reveal_strlit("step_auto_updates"); assert("step_auto_updates"@.len() == 17);
    reveal_strlit("step_security_scan"); assert("step_security_scan"@.len() == 18);
    reveal_strlit("step_log_audit"); assert("step_log_audit"@.len() == 14);
    reveal_strlit("step_restart_ssh"); assert("step_restart_ssh"@.len() == 16);
    reveal_strlit("audit_root"); assert("audit_root"@.len() == 10);
    reveal_strlit("audit_pkg_mgr"); assert("audit_pkg_mgr"@.len() == 13);
    reveal_strlit("audit_ssh_port"); assert("audit_ssh_port"@.len() == 14);
    reveal_strlit("audit_password_auth"); assert("audit_password_auth"@.len() == 19);
    reveal_strlit("audit_root_login"); assert("audit_root_login"@.len() == 16);
    reveal_strlit("audit_sudo_users"); assert("audit_sudo_users"@.len() == 16);
    reveal_strlit("audit_fail2ban"); assert("audit_fail2ban"@.len() == 14);
    reveal_strlit("audit_ufw"); assert("audit_ufw"@.len() == 9);
    reveal_strlit("audit_auto_updates"); assert("audit_auto_updates"@.len() == 18);
    reveal_strlit("audit_sys_update"); assert("audit_sys_update"@.len() == 16);
    reveal_strlit("audit_detail_root_ok"); assert("audit_detail_root_ok"@.len() == 20);
    reveal_strlit("audit_detail_root_missing"); assert("result_fail2ban_installed"@[0] == 'r'); assert("audit_detail_root_missing"@[0] == 'a');
    reveal_strlit("audit_detail_pkg"); assert("audit_detail_pkg"@.len() == 16);
    reveal_strlit("audit_detail_port_safe"); assert("audit_detail_port_safe"@.len() == 22);
    reveal_strlit("audit_detail_port_missing"); assert("result_fail2ban_installed"@[0] == 'r'); assert("audit_detail_port_missing"@[0] == 'a');
    reveal_strlit("audit_detail_pw_disabled"); assert("audit_detail_pw_disabled"@.len() == 24);
    reveal_strlit("audit_detail_pw_missing"); assert("audit_detail_pw_missing"@.len() == 23);
    reveal_strlit("audit_detail_root_disabled"); assert("audit_detail_root_disabled"@.len() == 26);
    reveal_strlit("audit_detail_root_missing_cfg"); assert("audit_detail_root_missing_cfg"@.len() == 29);
    reveal_strlit("audit_detail_sudo_missing"); assert("result_fail2ban_installed"@[0] == 'r'); assert("audit_detail_sudo_missing"@[0] == 'a');
    reveal_strlit("audit_detail_sudo_ok"); assert("audit_detail_sudo_ok"@.len() == 20);
    reveal_strlit("audit_detail_fb_installed"); assert("result_fail2ban_installed"@[0] == 'r'); assert("audit_detail_fb_installed"@[0] == 'a');
    reveal_strlit("audit_detail_fb_missing"); assert("audit_detail_fb_missing"@.len() == 23);
    reveal_strlit("audit_detail_ufw_enabled"); assert("audit_detail_ufw_enabled"@.len() == 24);
    reveal_strlit("audit_detail_ufw_missing"); assert("audit_detail_ufw_missing"@.len() == 24);
    reveal_strlit("audit_detail_au_enabled"); assert("audit_detail_au_enabled"@.len() == 23);
    reveal_strlit("audit_detail_au_missing"); assert("audit_detail_au_missing"@.len() == 23);
    reveal_strlit("audit_detail_sys_uptodate"); assert("result_fail2ban_installed"@[0] == 'r'); assert("audit_detail_sys_uptodate"@[0] == 'a');
    reveal_strlit("audit_detail_sys_needs_update"); assert("audit_detail_sys_needs_update"@.len() == 29);
    reveal_strlit("status_safe"); assert("status_safe"@.len() == 11);
    reveal_strlit("status_partial"); assert("status_partial"@.len() == 14);
    reveal_strlit("status_missing"); assert("status_missing"@.len() == 14);
    reveal_strlit("status_needs_update"); assert("status_needs_update"@.len() == 19);
    reveal_strlit("pkg_apt"); assert("pkg_apt"@.len() == 7);
    reveal_strlit("pkg_yum"); assert("pkg_yum"@.len() == 7);
    reveal_strlit("pkg_dnf"); assert("pkg_dnf"@.len() == 7);
    reveal_strlit("pkg_unknown"); assert("pkg_unknown"@.len() == 11);
    reveal_strlit("err_permission_denied"); assert("err_permission_denied"@.len() == 21);
    reveal_strlit("err_cmd_failed"); assert("err_cmd_failed"@.len() == 14);
    reveal_strlit("err_parse_error"); assert("err_parse_error"@.len() == 15);
    reveal_strlit("err_precondition_failed"); assert("err_precondition_failed"@.len() == 23);
    reveal_strlit("err_user_aborted"); assert("err_user_aborted"@.len() == 16);
    reveal_strlit("err_unknown_pkg_mgr"); assert("err_unknown_pkg_mgr"@.len() == 19);
    reveal_strlit("err_unsupported_pkg"); assert("err_unsupported_pkg"@.len() == 19);
    reveal_strlit("err_auto_update_only_debian"); assert("err_auto_update_only_debian"@.len() == 27);
    reveal_strlit("err_unknown_pkg_lynis"); assert("err_unknown_pkg_lynis"@.len() == 21);
    reveal_strlit("err_sshd_not_found"); assert("err_sshd_not_found"@.len() == 18);
    reveal_strlit("err_no_username"); assert("err_no_username"@.len() == 15);
    reveal_strlit("err_user_exists"); assert("err_user_exists"@.len() == 15);
    reveal_strlit("err_no_sudo_before_root"); assert("err_no_sudo_before_root"@.len() == 23);
    reveal_strlit("err_no_ssh_port"); assert("err_no_ssh_port"@.len() == 15);
    reveal_strlit("err_port_zero"); assert("err_port_zero"@.len() == 13);
    reveal_strlit("err_no_sudo_before_pw"); assert("err_no_sudo_before_pw"@.len() == 21);
    reveal_strlit("err_no_target_user"); assert("err_no_target_user"@.len() == 18);
    reveal_strlit("err_no_key_action"); assert("err_no_key_action"@.len() == 17);
    reveal_strlit("err_update_failed"); assert("err_update_failed"@.len() == 17);
    reveal_strlit("err_upgrade_failed"); assert("err_upgrade_failed"@.len() == 18);
    reveal_strlit("err_ufw_allow_failed"); assert("err_ufw_allow_failed"@.len() == 20);
    reveal_strlit("err_ufw_enable_failed"); assert("err_ufw_enable_failed"@.len() == 21);
    reveal_strlit("err_install_fail2ban"); assert("err_install_fail2ban"@.len() == 20);
    reveal_strlit("err_install_unattended"); assert("err_install_unattended"@.len() == 22);
    reveal_strlit("err_lynis_exec"); assert("err_lynis_exec"@.len() == 14);
    reveal_strlit("err_sshd_check"); assert("err_sshd_check"@.len() == 14);
    reveal_strlit("err_sshd_syntax"); assert("err_sshd_syntax"@.len() == 15);
    reveal_strlit("err_ssh_restart"); assert("err_ssh_restart"@.len() == 15);
    reveal_strlit("err_backup"); assert("err_backup"@.len() == 10);
    reveal_strlit("err_read"); assert("err_read"@.len() == 8);
    reveal_strlit("err_write"); assert("err_write"@.len() == 9);
    reveal_strlit("err_setup_signal"); assert("err_setup_signal"@.len() == 16);
    reveal_strlit("result_sys_updated"); assert("result_sys_updated"@.len() == 18);
    reveal_strlit("result_user_created"); assert("result_user_created"@.len() == 19);
    reveal_strlit("result_root_login_set"); assert("result_root_login_set"@.len() == 21);
    reveal_strlit("result_ssh_port_set"); assert("result_ssh_port_set"@.len() == 19);
    reveal_strlit("result_pw_auth_disabled"); assert("result_pw_auth_disabled"@.len() == 23);
    reveal_strlit("result_key_generated"); assert("result_key_generated"@.len() == 20);
    reveal_strlit("result_key_pasted"); assert("result_key_pasted"@.len() == 17);
    reveal_strlit("result_ufw_enabled"); assert("result_ufw_enabled"@.len() == 18);
    reveal_strlit("{port}");
    reveal_strlit("Fail2ban 已安装并运行，SSH 端口 {port} 已加入监控");
    assert("Fail2ban 已安装并运行，SSH 端口 {port} 已加入监控"@.subrange(23, 29) =~= "{port}"@);
    assert(match_at("Fail2ban 已安装并运行，SSH 端口 {port} 已加入监控"@, "{port}"@, 23));
    reveal_strlit("Fail2ban installed and running, SSH port {port} monitored");
    assert("Fail2ban installed and running, SSH port {port} monitored"@.subrange(41, 47) =~= "{port}"@);
    assert(match_at("Fail2ban installed and running, SSH port {port} monitored"@, "{port}"@, 41));
    reveal_strlit("Fail2ban 已安裝並執行，SSH 連接埠 {port} 已加入監控");
    assert("Fail2ban 已安裝並執行，SSH 連接埠 {port} 已加入監控"@.subrange(24, 30) =~= "{port}"@);
    assert(match_at("Fail2ban 已安裝並執行，SSH 連接埠 {port} 已加入監控"@, "{port}"@, 24));
}

proof fn placeholders_result_lynis_ok()
    ensures
        zh_cn_text("result_lynis_ok"@) matches Some(t) && contains(t, "{suggs}"@),
        zh_cn_text("result_lynis_ok"@) matches Some(t) && contains(t, "{warns}"@),
        en_text("result_lynis_ok"@) matches Some(t) && contains(t, "{suggs}"@),
        en_text("result_lynis_ok"@) matches Some(t) && contains(t, "{warns}"@),
        zh_tw_text("result_lynis_ok"@) matches Some(t) && contains(t, "{suggs}"@),
        zh_tw_text("result_lynis_ok"@) matches Some(t) && contains(t, "{warns}"@),
{
    reveal_strlit("result_lynis_ok"); assert("result_lynis_ok"@.len() == 15);
    reveal_strlit("lang_en"); assert("lang_en"@.len() == 7);
    reveal_strlit("lang_zh_cn"); assert("lang_zh_cn"@.len() == 10);
    reveal_strlit("lang_zh_tw"); assert("lang_zh_tw"@.len() == 10);
    reveal_strlit("select_language"); assert("result_lynis_ok"@[0] == 'r'); assert("select_language"@[0] == 's');
    reveal_strlit("select_mode"); assert("select_mode"@.len() == 11);
    reveal_strlit("mode_cli"); assert("mode_cli"@.len() == 8);
    reveal_strlit("mode_tui"); assert("mode_tui"@.len() == 8);
    reveal_strlit("unknown_arg"); assert("unknown_arg"@.len() == 11);
    reveal_strlit("app_title"); assert("app_title"@.len() == 9);
    reveal_strlit("step_system_update"); assert("step_system_update"@.len() == 18);
    reveal_strlit("step_user_creation"); assert("step_user_creation"@.len() == 18);
    reveal_strlit("step_ssh_root_login"); assert("step_ssh_root_login"@.len() == 19);
    reveal_strlit("step_ssh_port_change"); assert("step_ssh_port_change"@.len() == 20);
    reveal_strlit("step_ssh_password_auth"); assert("step_ssh_password_auth"@.len() == 22);
    reveal_strlit("step_ssh_key_setup"); assert("step_ssh_key_setup"@.len() == 18);
    reveal_strlit("step_ufw"); assert("step_ufw"@.len() == 8);
    reveal_strlit("step_fail2ban"); assert("step_fail2ban"@.len() == 13);
    reveal_strlit("step_auto_updates"); assert("step_auto_updates"@.len() == 17);
    reveal_strlit("step_security_scan"); assert("step_security_scan"@.len() == 18);
    reveal_strlit("step_log_audit"); assert("step_log_audit"@.len() == 14);
    reveal_strlit("step_restart_ssh"); assert("step_restart_ssh"@.len() == 16);
    reveal_strlit("audit_root"); assert("audit_root"@.len() == 10);
    reveal_strlit("audit_pkg_mgr"); assert("audit_pkg_mgr"@.len() == 13);
    reveal_strlit("audit_ssh_port"); assert("audit_ssh_port"@.len() == 14);
    reveal_strlit("audit_password_auth"); assert("audit_password_auth"@.len() == 19);
    reveal_strlit("audit_root_login"); assert("audit_root_login"@.len() == 16);
    reveal_strlit("audit_sudo_users"); assert("audit_sudo_users"@.len() == 16);
    reveal_strlit("audit_fail2ban"); assert("audit_fail2ban"@.len() == 14);
    reveal_strlit("audit_ufw"); assert("audit_ufw"@.len() == 9);
    reveal_strlit("audit_auto_updates"); assert("audit_auto_updates"@.len() == 18);
    reveal_strlit("audit_sys_update"); assert("audit_sys_update"@.len() == 16);
    reveal_strlit("audit_detail_root_ok"); assert("audit_detail_root_ok"@.len() == 20);
    reveal_strlit("audit_detail_root_missing"); assert("audit_detail_root_missing"@.len() == 25);
    reveal_strlit("audit_detail_pkg"); assert("audit_detail_pkg"@.len() == 16);
    reveal_strlit("audit_detail_port_safe"); assert("audit_detail_port_safe"@.len() == 22);
    reveal_strlit("audit_detail_port_missing"); assert("audit_detail_port_missing"@.len() == 25);
    reveal_strlit("audit_detail_pw_disabled"); assert("audit_detail_pw_disabled"@.len() == 24);
    reveal_strlit("audit_detail_pw_missing"); assert("audit_detail_pw_missing"@.len() == 23);
    reveal_strlit("audit_detail_root_disabled"); assert("audit_detail_root_disabled"@.len() == 26);
    reveal_strlit("audit_detail_root_missing_cfg"); assert("audit_detail_root_missing_cfg"@.len() == 29);
    reveal_strlit("audit_detail_sudo_missing"); assert("audit_detail_sudo_missing"@.len() == 25);
    reveal_strlit("audit_detail_sudo_ok"); assert("audit_detail_sudo_ok"@.len() == 20);
    reveal_strlit("audit_detail_fb_installed"); assert("audit_detail_fb_installed"@.len() == 25);
    reveal_strlit("audit_detail_fb_missing"); assert("audit_detail_fb_missing"@.len() == 23);
    reveal_strlit("audit_detail_ufw_enabled"); assert("audit_detail_ufw_enabled"@.len() == 24);
    reveal_strlit("audit_detail_ufw_missing"); assert("audit_detail_ufw_missing"@.len() == 24);
    reveal_strlit("audit_detail_au_enabled"); assert("audit_detail_au_enabled"@.len() == 23);
    reveal_strlit("audit_detail_au_missing"); assert("audit_detail_au_missing"@.len() == 23);
    reveal_strlit("audit_detail_sys_uptodate"); assert("audit_detail_sys_uptodate"@.len() == 25);
    reveal_strlit("audit_detail_sys_needs_update"); assert("audit_detail_sys_needs_update"@.len() == 29);
    reveal_strlit("status_safe"); assert("status_safe"@.len() == 11);
    reveal_strlit("status_partial"); assert("status_partial"@.len() == 14);
    reveal_strlit("status_missing"); assert("status_missing"@.len() == 14);
    reveal_strlit("status_needs_update"); assert("status_needs_update"@.len() == 19);
    reveal_strlit("pkg_apt"); assert("pkg_apt"@.len() == 7);
    reveal_strlit("pkg_yum"); assert("pkg_yum"@.len() == 7);
    reveal_strlit("pkg_dnf"); assert("pkg_dnf"@.len() == 7);
    reveal_strlit("pkg_unknown"); assert("pkg_unknown"@.len() == 11);
    reveal_strlit("err_permission_denied"); assert("err_permission_denied"@.len() == 21);
    reveal_strlit("err_cmd_failed"); assert("err_cmd_failed"@.len() == 14);
    reveal_strlit("err_parse_error"); assert("result_lynis_ok"@[0] == 'r'); assert("err_parse_error"@[0] == 'e');
    reveal_strlit("err_precondition_failed"); assert("err_precondition_failed"@.len() == 23);
    reveal_strlit("err_user_aborted"); assert("err_user_aborted"@.len() == 16);
    reveal_strlit("err_unknown_pkg_mgr"); assert("err_unknown_pkg_mgr"@.len() == 19);
    reveal_strlit("err_unsupported_pkg"); assert("err_unsupported_pkg"@.len() == 19);
    reveal_strlit("err_auto_update_only_debian"); assert("err_auto_update_only_debian"@.len() == 27);
    reveal_strlit("err_unknown_pkg_lynis"); assert("err_unknown_pkg_lynis"@.len() == 21);
    reveal_strlit("err_sshd_not_found"); assert("err_sshd_not_found"@.len() == 18);
    reveal_strlit("err_no_username"); assert("result_lynis_ok"@[0] == 'r'); assert("err_no_username"@[0] == 'e');
    reveal_strlit("err_user_exists"); assert("result_lynis_ok"@[0] == 'r'); assert("err_user_exists"@[0] == 'e');
    reveal_strlit("err_no_sudo_before_root"); assert("err_no_sudo_before_root"@.len() == 23);
    reveal_strlit("err_no_ssh_port"); assert("result_lynis_ok"@[0] == 'r'); assert("err_no_ssh_port"@[0] == 'e');
    reveal_strlit("err_port_zero"); assert("err_port_zero"@.len() == 13);
    reveal_strlit("err_no_sudo_before_pw"); assert("err_no_sudo_before_pw"@.len() == 21);
    reveal_strlit("err_no_target_user"); assert("err_no_target_user"@.len() == 18);
    reveal_strlit("err_no_key_action"); assert("err_no_key_action"@.len() == 17);
    reveal_strlit("err_update_failed"); assert("err_update_failed"@.len() == 17);
    reveal_strlit("err_upgrade_failed"); assert("err_upgrade_failed"@.len() == 18);
    reveal_strlit("err_ufw_allow_failed"); assert("err_ufw_allow_failed"@.len() == 20);
    reveal_strlit("err_ufw_enable_failed"); assert("err_ufw_enable_failed"@.len() == 21);
    reveal_strlit("err_install_fail2ban"); assert("err_install_fail2ban"@.len() == 20);
    reveal_strlit("err_install_unattended"); assert("err_install_unattended"@.len() == 22);
    reveal_strlit("err_lynis_exec"); assert("err_lynis_exec"@.len() == 14);
    reveal_strlit("err_sshd_check"); assert("err_sshd_check"@.len() == 14);
    reveal_strlit("err_sshd_syntax"); assert("result_lynis_ok"@[0] == 'r'); assert("err_sshd_syntax"@[0] == 'e');
    reveal_strlit("err_ssh_restart"); assert("result_lynis_ok"@[0] == 'r'); assert("err_ssh_restart"@[0] == 'e');
    reveal_strlit("err_backup"); assert("err_backup"@.len() == 10);
    reveal_strlit("err_read"); assert("err_read"@.len() == 8);
    reveal_strlit("err_write"); assert("err_write"@.len() == 9);
    reveal_strlit("err_setup_signal"); assert("err_setup_signal"@.len() == 16);
    reveal_strlit("result_sys_updated"); assert("result_sys_updated"@.len() == 18);
    reveal_strlit("result_user_created"); assert("result_user_created"@.len() == 19);
    reveal_strlit("result_root_login_set"); assert("result_root_login_set"@.len() == 21);
    reveal_strlit("result_ssh_port_set"); assert("result_ssh_port_set"@.len() == 19);
    reveal_strlit("result_pw_auth_disabled"); assert("result_pw_auth_disabled"@.len() == 23);
    reveal_strlit("result_key_generated"); assert("result_key_generated"@.len() == 20);
    reveal_strlit("result_key_pasted"); assert("result_key_pasted"@.len() == 17);
    reveal_strlit("result_ufw_enabled"); assert("result_ufw_enabled"@.len() == 18);
    reveal_strlit("result_fail2ban_installed"); assert("result_fail2ban_installed"@.len() == 25);
    reveal_strlit("result_auto_updates_enabled"); assert("result_auto_updates_enabled"@.len() == 27);
    reveal_strlit("{suggs}");
    reveal_strlit("{warns}");
    reveal_strlit("lynis 安全扫描完成（{warns} 个警告, {suggs} 个建议）\n  详细报告: /var/log/lynis.log");
    assert("lynis 安全扫描完成（{warns} 个警告, {suggs} 个建议）\n  详细报告: /var/log/lynis.log"@.subrange(26, 33) =~= "{suggs}"@);
    assert(match_at("lynis 安全扫描完成（{warns} 个警告, {suggs} 个建议）\n  详细报告: /var/log/lynis.log"@, "{suggs}"@, 26));
    assert("lynis 安全扫描完成（{warns} 个警告, {suggs} 个建议）\n  详细报告: /var/log/lynis.log"@.subrange(13, 20) =~= "{warns}"@);
    assert(match_at("lynis 安全扫描完成（{warns} 个警告, {suggs} 个建议）\n  详细报告: /var/log/lynis.log"@, "{warns}"@, 13));
    reveal_strlit("Lynis security scan completed ({warns} warnings, {suggs} suggestions)\n  Full report: /var/log/lynis.log");
    assert("Lynis security scan completed ({warns} warnings, {suggs} suggestions)\n  Full report: /var/log/lynis.log"@.subrange(49, 56) =~= "{suggs}"@);
    assert(match_at("Lynis security scan completed ({warns} warnings, {suggs} suggestions)\n  Full report: /var/log/lynis.log"@, "{suggs}"@, 49));
    assert("Lynis security scan completed ({warns} warnings, {suggs} suggestions)\n  Full report: /var/log/lynis.log"@.subrange(31, 38) =~= "{warns}"@);
    assert(match_at("Lynis security scan completed ({warns} warnings, {suggs} suggestions)\n  Full report: /var/log/lynis.log"@, "{warns}"@, 31));
    reveal_strlit("lynis 安全掃描完成（{warns} 個警告, {suggs} 個建議）\n  詳細報告: /var/log/lynis.log");
    assert("lynis 安全掃描完成（{warns} 個警告, {suggs} 個建議）\n  詳細報告: /var/log/lynis.log"@.subrange(26, 33) =~= "{suggs}"@);
    assert(match_at("lynis 安全掃描完成（{warns} 個警告, {suggs} 個建議）\n  詳細報告: /var/log/lynis.log"@, "{suggs}"@, 26));
    assert("lynis 安全掃描完成（{warns} 個警告, {suggs} 個建議）\n  詳細報告: /var/log/lynis.log"@.subrange(13, 20) =~= "{warns}"@);
    assert(match_at("lynis 安全掃描完成（{warns} 個警告, {suggs} 個建議）\n  詳細報告: /var/log/lynis.log"@, "{warns}"@, 13));
}

proof fn placeholders_result_logwatch_installed()
    ensures
        zh_cn_text("result_logwatch_installed"@) matches Some(t) && contains(t, "{installed}"@),
        en_text("result_logwatch_installed"@) matches Some(t) && contains(t, "{installed}"@),
        zh_tw_text("result_logwatch_installed"@) matches Some(t) && contains(t, "{installed}"@),
{
    reveal_strlit("result_logwatch_installed"); assert("result_logwatch_installed"@.len() == 25);
    reveal_strlit("lang_en"); assert("lang_en"@.len() == 7);
    reveal_strlit("lang_zh_cn"); assert("lang_zh_cn"@.len() == 10);
    reveal_strlit("lang_zh_tw"); assert("lang_zh_tw"@.len() == 10);
    reveal_strlit("select_language"); assert("select_language"@.len() == 15);
    reveal_strlit("select_mode"); assert("select_mode"@.len() == 11);
    reveal_strlit("mode_cli"); assert("mode_cli"@.len() == 8);
    reveal_strlit("mode_tui"); assert("mode_tui"@.len() == 8);
    reveal_strlit("unknown_arg"); assert("unknown_arg"@.len() == 11);
    reveal_strlit("app_title"); assert("app_title"@.len() == 9);
    reveal_strlit("step_system_update"); assert("step_system_update"@.len() == 18);
    reveal_strlit("step_user_creation"); assert("step_user_creation"@.len() == 18);
    reveal_strlit("step_ssh_root_login"); assert("step_ssh_root_login"@.len() == 19);
    reveal_strlit("step_ssh_port_change"); assert("step_ssh_port_change"@.len() == 20);
    reveal_strlit("step_ssh_password_auth"); assert("step_ssh_password_auth"@.len() == 22);
    reveal_strlit("step_ssh_key_setup"); assert("step_ssh_key_setup"@.len() == 18);
    reveal_strlit("step_ufw"); assert("step_ufw"@.len() == 8);
    reveal_strlit("step_fail2ban"); assert("step_fail2ban"@.len() == 13);
    reveal_strlit("step_auto_updates"); assert("step_auto_updates"@.len() == 17);
    reveal_strlit("step_security_scan"); assert("step_security_scan"@.len() == 18);
    reveal_strlit("step_log_audit"); assert("step_log_audit"@.len() == 14);
    reveal_strlit("step_restart_ssh"); assert("step_restart_ssh"@.len() == 16);
    reveal_strlit("audit_root"); assert("audit_root"@.len() == 10);
    reveal_strlit("audit_pkg_mgr"); assert("audit_pkg_mgr"@.len() == 13);
    reveal_strlit("audit_ssh_port"); assert("audit_ssh_port"@.len() == 14);
    reveal_strlit("audit_password_auth"); assert("audit_password_auth"@.len() == 19);
    reveal_strlit("audit_root_login"); assert("audit_root_login"@.len() == 16);
    reveal_strlit("audit_sudo_users"); assert("audit_sudo_users"@.len() == 16);
    reveal_strlit("audit_fail2ban"); assert("audit_fail2ban"@.len() == 14);
    reveal_strlit("audit_ufw"); assert("audit_ufw"@.len() == 9);
    reveal_strlit("audit_auto_updates"); assert("audit_auto_updates"@.len() == 18);
    reveal_strlit("audit_sys_update"); assert("audit_sys_update"@.len() == 16);
    reveal_strlit("audit_detail_root_ok"); assert("audit_detail_root_ok"@.len() == 20);
    reveal_strlit("audit_detail_root_missing"); assert("result_logwatch_installed"@[0] == 'r'); assert("audit_detail_root_missing"@[0] == 'a');
    reveal_strlit("audit_detail_pkg"); assert("audit_detail_pkg"@.len() == 16);
    reveal_strlit("audit_detail_port_safe"); assert("audit_detail_port_safe"@.len() == 22);
    reveal_strlit("audit_detail_port_missing"); assert("result_logwatch_installed"@[0] == 'r'); assert("audit_detail_port_missing"@[0] == 'a');
    reveal_strlit("audit_detail_pw_disabled"); assert("audit_detail_pw_disabled"@.len() == 24);
    reveal_strlit("audit_detail_pw_missing"); assert("audit_detail_pw_missing"@.len() == 23);
    reveal_strlit("audit_detail_root_disabled"); assert("audit_detail_root_disabled"@.len() == 26);
    reveal_strlit("audit_detail_root_missing_cfg"); assert("audit_detail_root_missing_cfg"@.len() == 29);
    reveal_strlit("audit_detail_sudo_missing"); assert("result_logwatch_installed"@[0] == 'r'); assert("audit_detail_sudo_missing"@[0] == 'a');
    reveal_strlit("audit_detail_sudo_ok"); assert("audit_detail_sudo_ok"@.len() == 20);
    reveal_strlit("audit_detail_fb_installed"); assert("result_logwatch_installed"@[0] == 'r'); assert("audit_detail_fb_installed"@[0] == 'a');
    reveal_strlit("audit_detail_fb_missing"); assert("audit_detail_fb_missing"@.len() == 23);
    reveal_strlit("audit_detail_ufw_enabled"); assert("audit_detail_ufw_enabled"@.len() == 24);
    reveal_strlit("audit_detail_ufw_missing"); assert("audit_detail_ufw_missing"@.len() == 24);
    reveal_strlit("audit_detail_au_enabled"); assert("audit_detail_au_enabled"@.len() == 23);
    reveal_strlit("audit_detail_au_missing"); assert("audit_detail_au_missing"@.len() == 23);
    reveal_strlit("audit_detail_sys_uptodate"); assert("result_logwatch_installed"@[0] == 'r'); assert("audit_detail_sys_uptodate"@[0] == 'a');
    reveal_strlit("audit_detail_sys_needs_update"); assert("audit_detail_sys_needs_update"@.len() == 29);
    reveal_strlit("status_safe"); assert("status_safe"@.len() == 11);
    reveal_strlit("status_partial"); assert("status_partial"@.len() == 14);
    reveal_strlit("status_missing"); assert("status_missing"@.len() == 14);
    reveal_strlit("status_needs_update"); assert("status_needs_update"@.len() == 19);
    reveal_strlit("pkg_apt"); assert("pkg_apt"@.len() == 7);
    reveal_strlit("pkg_yum"); assert("pkg_yum"@.len() == 7);
    reveal_strlit("pkg_dnf"); assert("pkg_dnf"@.len() == 7);
    reveal_strlit("pkg_unknown"); assert("pkg_unknown"@.len() == 11);
    reveal_strlit("err_permission_denied"); assert("err_permission_denied"@.len() == 21);
    reveal_strlit("err_cmd_failed"); assert("err_cmd_failed"@.len() == 14);
    reveal_strlit("err_parse_error"); assert("err_parse_error"@.len() == 15);
    reveal_strlit("err_precondition_failed"); assert("err_precondition_failed"@.len() == 23);
    reveal_strlit("err_user_aborted"); assert("err_user_aborted"@.len() == 16);
    reveal_strlit("err_unknown_pkg_mgr"); assert("err_unknown_pkg_mgr"@.len() == 19);
    reveal_strlit("err_unsupported_pkg"); assert("err_unsupported_pkg"@.len() == 19);
    reveal_strlit("err_auto_update_only_debian"); assert("err_auto_update_only_debian"@.len() == 27);
    reveal_strlit("err_unknown_pkg_lynis"); assert("err_unknown_pkg_lynis"@.len() == 21);
    reveal_strlit("err_sshd_not_found"); assert("err_sshd_not_found"@.len() == 18);
    reveal_strlit("err_no_username"); assert("err_no_username"@.len() == 15);
    reveal_strlit("err_user_exists"); assert("err_user_exists"@.len() == 15);
    reveal_strlit("err_no_sudo_before_root"); assert("err_no_sudo_before_root"@.len() == 23);
    reveal_strlit("err_no_ssh_port"); assert("err_no_ssh_port"@.len() == 15);
    reveal_strlit("err_port_zero"); assert("err_port_zero"@.len() == 13);
    reveal_strlit("err_no_sudo_before_pw"); assert("err_no_sudo_before_pw"@.len() == 21);
    reveal_strlit("err_no_target_user"); assert("err_no_target_user"@.len() == 18);
    reveal_strlit("err_no_key_action"); assert("err_no_key_action"@.len() == 17);
    reveal_strlit("err_update_failed"); assert("err_update_failed"@.len() == 17);
    reveal_strlit("err_upgrade_failed"); assert("err_upgrade_failed"@.len() == 18);
    reveal_strlit("err_ufw_allow_failed"); assert("err_ufw_allow_failed"@.len() == 20);
    reveal_strlit("err_ufw_enable_failed"); assert("err_ufw_enable_failed"@.len() == 21);
    reveal_strlit("err_install_fail2ban"); assert("err_install_fail2ban"@.len() == 20);
    reveal_strlit("err_install_unattended"); assert("err_install_unattended"@.len() == 22);
    reveal_strlit("err_lynis_exec"); assert("err_lynis_exec"@.len() == 14);
    reveal_strlit("err_sshd_check"); assert("err_sshd_check"@.len() == 14);
    reveal_strlit("err_sshd_syntax"); assert("err_sshd_syntax"@.len() == 15);
    reveal_strlit("err_ssh_restart"); assert("err_ssh_restart"@.len() == 15);
    reveal_strlit("err_backup"); assert("err_backup"@.len() == 10);
    reveal_strlit("err_read"); assert("err_read"@.len() == 8);
    reveal_strlit("err_write"); assert("err_write"@.len() == 9);
    reveal_strlit("err_setup_signal"); assert("err_setup_signal"@.len() == 16);
    reveal_strlit("result_sys_updated"); assert("result_sys_updated"@.len() == 18);
    reveal_strlit("result_user_created"); assert("result_user_created"@.len() == 19);
    reveal_strlit("result_root_login_set"); assert("result_root_login_set"@.len() == 21);
    reveal_strlit("result_ssh_port_set"); assert("result_ssh_port_set"@.len() == 19);
    reveal_strlit("result_pw_auth_disabled"); assert("result_pw_auth_disabled"@.len() == 23);
    reveal_strlit("result_key_generated"); assert("result_key_generated"@.len() == 20);
    reveal_strlit("result_key_pasted"); assert("result_key_pasted"@.len() == 17);
    reveal_strlit("result_ufw_enabled"); assert("result_ufw_enabled"@.len() == 18);
    reveal_strlit("result_fail2ban_installed"); assert("result_logwatch_installed"@[7] == 'l'); assert("result_fail2ban_installed"@[7] == 'f');
    reveal_strlit("result_auto_updates_enabled"); assert("result_auto_updates_enabled"@.len() == 27);
    reveal_strlit("result_lynis_ok"); assert("result_lynis_ok"@.len() == 15);
    reveal_strlit("result_lynis_fail"); assert("result_lynis_fail"@.len() == 17);
    reveal_strlit("{installed}");
    reveal_strlit("日志与审计增强完成\n  已安装/配置: {installed}\n  logwatch: 每日邮件报告\n  aide: 文件完整性检查已初始化");
    assert("日志与审计增强完成\n  已安装/配置: {installed}\n  logwatch: 每日邮件报告\n  aide: 文件完整性检查已初始化"@.subrange(20, 31) =~= "{installed}"@);
    assert(match_at("日志与审计增强完成\n  已安装/配置: {installed}\n  logwatch: 每日邮件报告\n  aide: 文件完整性检查已初始化"@, "{installed}"@, 20));
    reveal_strlit("Log & audit enhancement complete\n  Installed/configured: {installed}\n  logwatch: daily email report\n  aide: file integrity check initialized");
    assert("Log & audit enhancement complete\n  Installed/configured: {installed}\n  logwatch: daily email report\n  aide: file integrity check initialized"@.subrange(57, 68) =~= "{installed}"@);
    assert(match_at("Log & audit enhancement complete\n  Installed/configured: {installed}\n  logwatch: daily email report\n  aide: file integrity check initialized"@, "{installed}"@, 57));
    reveal_strlit("日誌與稽核增強完成\n  已安裝/配置: {installed}\n  logwatch: 每日郵件報告\n  aide: 檔案完整性檢查已初始化");
    assert("日誌與稽核增強完成\n  已安裝/配置: {installed}\n  logwatch: 每日郵件報告\n  aide: 檔案完整性檢查已初始化"@.subrange(20, 31) =~= "{installed}"@);
    assert(match_at("日誌與稽核增強完成\n  已安裝/配置: {installed}\n  logwatch: 每日郵件報告\n  aide: 檔案完整性檢查已初始化"@, "{installed}"@, 20));
}

proof fn placeholders_result_ssh_restarted()
    ensures
        zh_cn_text("result_ssh_restarted"@) matches Some(t) && contains(t, "{status}"@),
        en_text("result_ssh_restarted"@) matches Some(t) && contains(t, "{status}"@),
        zh_tw_text("result_ssh_restarted"@) matches Some(t) && contains(t, "{status}"@),
{
    reveal_strlit("result_ssh_restarted"); assert("result_ssh_restarted"@.len() == 20);
    reveal_strlit("lang_en"); assert("lang_en"@.len() == 7);
    reveal_strlit("lang_zh_cn"); assert("lang_zh_cn"@.len() == 10);
    reveal_strlit("lang_zh_tw"); assert("lang_zh_tw"@.len() == 10);
    reveal_strlit("select_language"); assert("select_language"@.len() == 15);
    reveal_strlit("select_mode"); assert("select_mode"@.len() == 11);
    reveal_strlit("mode_cli"); assert("mode_cli"@.len() == 8);
    reveal_strlit("mode_tui"); assert("mode_tui"@.len() == 8);
    reveal_strlit("unknown_arg"); assert("unknown_arg"@.len() == 11);
    reveal_strlit("app_title"); assert("app_title"@.len() == 9);
    reveal_strlit("step_system_update"); assert("step_system_update"@.len() == 18);
    reveal_strlit("step_user_creation"); assert("step_user_creation"@.len() == 18);
    reveal_strlit("step_ssh_root_login"); assert("step_ssh_root_login"@.len() == 19);
    reveal_strlit("step_ssh_port_change"); assert("result_ssh_restarted"@[0] == 'r'); assert("step_ssh_port_change"@[0] == 's');
    reveal_strlit("step_ssh_password_auth"); assert("step_ssh_password_auth"@.len() == 22);
    reveal_strlit("step_ssh_key_setup"); assert("step_ssh_key_setup"@.len() == 18);
    reveal_strlit("step_ufw"); assert("step_ufw"@.len() == 8);
    reveal_strlit("step_fail2ban"); assert("step_fail2ban"@.len() == 13);
    reveal_strlit("step_auto_updates"); assert("step_auto_updates"@.len() == 17);
    reveal_strlit("step_security_scan"); assert("step_security_scan"@.len() == 18);
    reveal_strlit("step_log_audit"); assert("step_log_audit"@.len() == 14);
    reveal_strlit("step_restart_ssh"); assert("step_restart_ssh"@.len() == 16);
    reveal_strlit("audit_root"); assert("audit_root"@.len() == 10);
    reveal_strlit("audit_pkg_mgr"); assert("audit_pkg_mgr"@.len() == 13);
    reveal_strlit("audit_ssh_port"); assert("audit_ssh_port"@.len() == 14);
    reveal_strlit("audit_password_auth"); assert("audit_password_auth"@.len() == 19);
    reveal_strlit("audit_root_login"); assert("audit_root_login"@.len() == 16);
    reveal_strlit("audit_sudo_users"); assert("audit_sudo_users"@.len() == 16);
    reveal_strlit("audit_fail2ban"); assert("audit_fail2ban"@.len() == 14);
    reveal_strlit("audit_ufw"); assert("audit_ufw"@.len() == 9);
    reveal_strlit("audit_auto_updates"); assert("audit_auto_updates"@.len() == 18);
    reveal_strlit("audit_sys_update"); assert("audit_sys_update"@.len() == 16);
    reveal_strlit("audit_detail_root_ok"); assert("result_ssh_restarted"@[0] == 'r'); assert("audit_detail_root_ok"@[0] == 'a');
    reveal_strlit("audit_detail_root_missing"); assert("audit_detail_root_missing"@.len() == 25);
    reveal_strlit("audit_detail_pkg"); assert("audit_detail_pkg"@.len() == 16);
    reveal_strlit("audit_detail_port_safe"); assert("audit_detail_port_safe"@.len() == 22);
    reveal_strlit("audit_detail_port_missing"); assert("audit_detail_port_missing"@.len() == 25);
    reveal_strlit("audit_detail_pw_disabled"); assert("audit_detail_pw_disabled"@.len() == 24);
    reveal_strlit("audit_detail_pw_missing"); assert("audit_detail_pw_missing"@.len() == 23);
    reveal_strlit("audit_detail_root_disabled"); assert("audit_detail_root_disabled"@.len() == 26);
    reveal_strlit("audit_detail_root_missing_cfg"); assert("audit_detail_root_missing_cfg"@.len() == 29);
    reveal_strlit("audit_detail_sudo_missing"); assert("audit_detail_sudo_missing"@.len() == 25);
    reveal_strlit("audit_detail_sudo_ok"); assert("result_ssh_restarted"@[0] == 'r'); assert("audit_detail_sudo_ok"@[0] == 'a');
    reveal_strlit("audit_detail_fb_installed"); assert("audit_detail_fb_installed"@.len() == 25);
    reveal_strlit("audit_detail_fb_missing"); assert("audit_detail_fb_missing"@.len() == 23);
    reveal_strlit("audit_detail_ufw_enabled"); assert("audit_detail_ufw_enabled"@.len() == 24);
    reveal_strlit("audit_detail_ufw_missing"); assert("audit_detail_ufw_missing"@.len() == 24);
    reveal_strlit("audit_detail_au_enabled"); assert("audit_detail_au_enabled"@.len() == 23);
    reveal_strlit("audit_detail_au_missing"); assert("audit_detail_au_missing"@.len() == 23);
    reveal_strlit("audit_detail_sys_uptodate"); assert("audit_detail_sys_uptodate"@.len() == 25);
    reveal_strlit("audit_detail_sys_needs_update"); assert("audit_detail_sys_needs_update"@.len() == 29);
    reveal_strlit("status_safe"); assert("status_safe"@.len() == 11);
    reveal_strlit("status_partial"); assert("status_partial"@.len() == 14);
    reveal_strlit("status_missing"); assert("status_missing"@.len() == 14);
    reveal_strlit("status_needs_update"); assert("status_needs_update"@.len() == 19);
    reveal_strlit("pkg_apt"); assert("pkg_apt"@.len() == 7);
    reveal_strlit("pkg_yum"); assert("pkg_yum"@.len() == 7);
    reveal_strlit("pkg_dnf"); assert("pkg_dnf"@.len() == 7);
    reveal_strlit("pkg_unknown"); assert("pkg_unknown"@.len() == 11);
    reveal_strlit("err_permission_denied"); assert("err_permission_denied"@.len() == 21);
    reveal_strlit("err_cmd_failed"); assert("err_cmd_failed"@.len() == 14);
    reveal_strlit("err_parse_error"); assert("err_parse_error"@.len() == 15);
    reveal_strlit("err_precondition_failed"); assert("err_precondition_failed"@.len() == 23);
    reveal_strlit("err_user_aborted"); assert("err_user_aborted"@.len() == 16);
    reveal_strlit("err_unknown_pkg_mgr"); assert("err_unknown_pkg_mgr"@.len() == 19);
    reveal_strlit("err_unsupported_pkg"); assert("err_unsupported_pkg"@.len() == 19);
    reveal_strlit("err_auto_update_only_debian"); assert("err_auto_update_only_debian"@.len() == 27);
    reveal_strlit("err_unknown_pkg_lynis"); assert("err_unknown_pkg_lynis"@.len() == 21);
    reveal_strlit("err_sshd_not_found"); assert("err_sshd_not_found"@.len() == 18);
    reveal_strlit("err_no_username"); assert("err_no_username"@.len() == 15);
    reveal_strlit("err_user_exists"); assert("err_user_exists"@.len() == 15);
    reveal_strlit("err_no_sudo_before_root"); assert("err_no_sudo_before_root"@.len() == 23);
    reveal_strlit("err_no_ssh_port"); assert("err_no_ssh_port"@.len() == 15);
    reveal_strlit("err_port_zero"); assert("err_port_zero"@.len() == 13);
    reveal_strlit("err_no_sudo_before_pw"); assert("err_no_sudo_before_pw"@.len() == 21);
    reveal_strlit("err_no_target_user"); assert("err_no_target_user"@.len() == 18);
    reveal_strlit("err_no_key_action"); assert("err_no_key_action"@.len() == 17);
    reveal_strlit("err_update_failed"); assert("err_update_failed"@.len() == 17);
    reveal_strlit("err_upgrade_failed"); assert("err_upgrade_failed"@.len() == 18);
    reveal_strlit("err_ufw_allow_failed"); assert("result_ssh_restarted"@[0] == 'r'); assert("err_ufw_allow_failed"@[0] == 'e');
    reveal_strlit("err_ufw_enable_failed"); assert("err_ufw_enable_failed"@.len() == 21);
    reveal_strlit("err_install_fail2ban"); assert("result_ssh_restarted"@[0] == 'r'); assert("err_install_fail2ban"@[0] == 'e');
    reveal_strlit("err_install_unattended"); assert("err_install_unattended"@.len() == 22);
    reveal_strlit("err_lynis_exec"); assert("err_lynis_exec"@.len() == 14);
    reveal_strlit("err_sshd_check"); assert("err_sshd_check"@.len() == 14);
    reveal_strlit("err_sshd_syntax"); assert("err_sshd_syntax"@.len() == 15);
    reveal_strlit("err_ssh_restart"); assert("err_ssh_restart"@.len() == 15);
    reveal_strlit("err_backup"); assert("err_backup"@.len() == 10);
    reveal_strlit("err_read"); assert("err_read"@.len() == 8);
    reveal_strlit("err_write"); assert("err_write"@.len() == 9);
    reveal_strlit("err_setup_signal"); assert("err_setup_signal"@.len() == 16);
    reveal_strlit("result_sys_updated"); assert("result_sys_updated"@.len() == 18);
    reveal_strlit("result_user_created"); assert("result_user_created"@.len() == 19);
    reveal_strlit("result_root_login_set"); assert("result_root_login_set"@.len() == 21);
    reveal_strlit("result_ssh_port_set"); assert("result_ssh_port_set"@.len() == 19);
    reveal_strlit("result_pw_auth_disabled"); assert("result_pw_auth_disabled"@.len() == 23);
    reveal_strlit("result_key_generated"); assert("result_ssh_restarted"@[7] == 's'); assert("result_key_generated"@[7] == 'k');
    reveal_strlit("result_key_pasted"); assert("result_key_pasted"@.len() == 17);
    reveal_strlit("result_ufw_enabled"); assert("result_ufw_enabled"@.len() == 18);
    reveal_strlit("result_fail2ban_installed"); assert("result_fail2ban_installed"@.len() == 25);
    reveal_strlit("result_auto_updates_enabled"); assert("result_auto_updates_enabled"@.len() == 27);
    reveal_strlit("result_lynis_ok"); assert("result_lynis_ok"@.len() == 15);
    reveal_strlit("result_lynis_fail"); assert("result_lynis_fail"@.len() == 17);
    reveal_strlit("result_logwatch_installed"); assert("result_logwatch_installed"@.len() == 25);
    reveal_strlit("{status}");
    reveal_strlit("SSH 服务已重启（状态: {status}）\n  ⚠️  请在另一终端验证连接后再关闭当前会话！\n  🔄 如需回滚：systemctl restart sshd 或恢复备份 /etc/ssh/sshd_config.bak.*");
    assert("SSH 服务已重启（状态: {status}）\n  ⚠️  请在另一终端验证连接后再关闭当前会话！\n  🔄 如需回滚：systemctl restart sshd 或恢复备份 /etc/ssh/sshd_config.bak.*"@.subrange(14, 22) =~= "{status}"@);
    assert(match_at("SSH 服务已重启（状态: {status}）\n  ⚠️  请在另一终端验证连接后再关闭当前会话！\n  🔄 如需回滚：systemctl restart sshd 或恢复备份 /etc/ssh/sshd_config.bak.*"@, "{status}"@, 14));
    reveal_strlit("SSH service restarted (status: {status})\n  ⚠️  Verify connection in another terminal before closing this session!\n  🔄 Rollback: systemctl restart sshd or restore /etc/ssh/sshd_config.bak.*");
    assert("SSH service restarted (status: {status})\n  ⚠️  Verify connection in another terminal before closing this session!\n  🔄 Rollback: systemctl restart sshd or restore /etc/ssh/sshd_config.bak.*"@.subrange(31, 39) =~= "{status}"@);
    assert(match_at("SSH service restarted (status: {status})\n  ⚠️  Verify connection in another terminal before closing this session!\n  🔄 Rollback: systemctl restart sshd or restore /etc/ssh/sshd_config.bak.*"@, "{status}"@, 31));
    reveal_strlit("SSH 服務已重新啟動（狀態: {status}）\n  ⚠️  請在另一個終端驗證連線後再關閉當前會話！\n  🔄 如需回退：systemctl restart sshd 或恢復備份 /etc/ssh/sshd_config.bak.*");
    assert("SSH 服務已重新啟動（狀態: {status}）\n  ⚠️  請在另一個終端驗證連線後再關閉當前會話！\n  🔄 如需回退：systemctl restart sshd 或恢復備份 /etc/ssh/sshd_config.bak.*"@.subrange(16, 24) =~= "{status}"@);
    assert(match_at("SSH 服務已重新啟動（狀態: {status}）\n  ⚠️  請在另一個終端驗證連線後再關閉當前會話！\n  🔄 如需回退：systemctl restart sshd 或恢復備份 /etc/ssh/sshd_config.bak.*"@, "{status}"@, 16));
}

proof fn placeholders_result_sshd_cfg_set()
    ensures
        zh_cn_text("result_sshd_cfg_set"@) matches Some(t) && contains(t, "{bak}"@),
        zh_cn_text("result_sshd_cfg_set"@) matches Some(t) && contains(t, "{key}"@),
        zh_cn_text("result_sshd_cfg_set"@) matches Some(t) && contains(t, "{value}"@),
        en_text("result_sshd_cfg_set"@) matches Some(t) && contains(t, "{bak}"@),
        en_text("result_sshd_cfg_set"@) matches Some(t) && contains(t, "{key}"@),
        en_text("result_sshd_cfg_set"@) matches Some(t) && contains(t, "{value}"@),
        zh_tw_text("result_sshd_cfg_set"@) matches Some(t) && contains(t, "{bak}"@),
        zh_tw_text("result_sshd_cfg_set"@) matches Some(t) && contains(t, "{key}"@),
        zh_tw_text("result_sshd_cfg_set"@) matches Some(t) && contains(t, "{value}"@),
{
    reveal_strlit("result_sshd_cfg_set"); assert("result_sshd_cfg_set"@.len() == 19);
    reveal_strlit("lang_en"); assert("lang_en"@.len() == 7);
    reveal_strlit("lang_zh_cn"); assert("lang_zh_cn"@.len() == 10);
    reveal_strlit("lang_zh_tw"); assert("lang_zh_tw"@.len() == 10);
    reveal_strlit("select_language"); assert("select_language"@.len() == 15);
    reveal_strlit("select_mode"); assert("select_mode"@.len() == 11);
    reveal_strlit("mode_cli"); assert("mode_cli"@.len() == 8);
    reveal_strlit("mode_tui"); assert("mode_tui"@.len() == 8);
    reveal_strlit("unknown_arg"); assert("unknown_arg"@.len() == 11);
    reveal_strlit("app_title"); assert("app_title"@.len() == 9);
    reveal_strlit("step_system_update"); assert("step_system_update"@.len() == 18);
    reveal_strlit("step_user_creation"); assert("step_user_creation"@.len() == 18);
    reveal_strlit("step_ssh_root_login"); assert("result_sshd_cfg_set"@[0] == 'r'); assert("step_ssh_root_login"@[0] == 's');
    reveal_strlit("step_ssh_port_change"); assert("step_ssh_port_change"@.len() == 20);
    reveal_strlit("step_ssh_password_auth"); assert("step_ssh_password_auth"@.len() == 22);
    reveal_strlit("step_ssh_key_setup"); assert("step_ssh_key_setup"@.len() == 18);
    reveal_strlit("step_ufw"); assert("step_ufw"@.len() == 8);
    reveal_strlit("step_fail2ban"); assert("step_fail2ban"@.len() == 13);
    reveal_strlit("step_auto_updates"); assert("step_auto_updates"@.len() == 17);
    reveal_strlit("step_security_scan"); assert("step_security_scan"@.len() == 18);
    reveal_strlit("step_log_audit"); assert("step_log_audit"@.len() == 14);
    reveal_strlit("step_restart_ssh"); assert("step_restart_ssh"@.len() == 16);
    reveal_strlit("audit_root"); assert("audit_root"@.len() == 10);
    reveal_strlit("audit_pkg_mgr"); assert("audit_pkg_mgr"@.len() == 13);
    reveal_strlit("audit_ssh_port"); assert("audit_ssh_port"@.len() == 14);
    reveal_strlit("audit_password_auth"); assert("result_sshd_cfg_set"@[0] == 'r'); assert("audit_password_auth"@[0] == 'a');
    reveal_strlit("audit_root_login"); assert("audit_root_login"@.len() == 16);
    reveal_strlit("audit_sudo_users"); assert("audit_sudo_users"@.len() == 16);
    reveal_strlit("audit_fail2ban"); assert("audit_fail2ban"@.len() == 14);
    reveal_strlit("audit_ufw"); assert("audit_ufw"@.len() == 9);
    reveal_strlit("audit_auto_updates"); assert("audit_auto_updates"@.len() == 18);
    reveal_strlit("audit_sys_update"); assert("audit_sys_update"@.len() == 16);
    reveal_strlit("audit_detail_root_ok"); assert("audit_detail_root_ok"@.len() == 20);
    reveal_strlit("audit_detail_root_missing"); assert("audit_detail_root_missing"@.len() == 25);
    reveal_strlit("audit_detail_pkg"); assert("audit_detail_pkg"@.len() == 16);
    reveal_strlit("audit_detail_port_safe"); assert("audit_detail_port_safe"@.len() == 22);
    reveal_strlit("audit_detail_port_missing"); assert("audit_detail_port_missing"@.len() == 25);
    reveal_strlit("audit_detail_pw_disabled"); assert("audit_detail_pw_disabled"@.len() == 24);
    reveal_strlit("audit_detail_pw_missing"); assert("audit_detail_pw_missing"@.len() == 23);
    reveal_strlit("audit_detail_root_disabled"); assert("audit_detail_root_disabled"@.len() == 26);
    reveal_strlit("audit_detail_root_missing_cfg"); assert("audit_detail_root_missing_cfg"@.len() == 29);
    reveal_strlit("audit_detail_sudo_missing"); assert("audit_detail_sudo_missing"@.len() == 25);
    reveal_strlit("audit_detail_sudo_ok"); assert("audit_detail_sudo_ok"@.len() == 20);
    reveal_strlit("audit_detail_fb_installed"); assert("audit_detail_fb_installed"@.len() == 25);
    reveal_strlit("audit_detail_fb_missing"); assert("audit_detail_fb_missing"@.len() == 23);
    reveal_strlit("audit_detail_ufw_enabled"); assert("audit_detail_ufw_enabled"@.len() == 24);
    reveal_strlit("audit_detail_ufw_missing"); assert("audit_detail_ufw_missing"@.len() == 24);
    reveal_strlit("audit_detail_au_enabled"); assert("audit_detail_au_enabled"@.len() == 23);
    reveal_strlit("audit_detail_au_missing"); assert("audit_detail_au_missing"@.len() == 23);
    reveal_strlit("audit_detail_sys_uptodate"); assert("audit_detail_sys_uptodate"@.len() == 25);
    reveal_strlit("audit_detail_sys_needs_update"); assert("audit_detail_sys_needs_update"@.len() == 29);
    reveal_strlit("status_safe"); assert("status_safe"@.len() == 11);
    reveal_strlit("status_partial"); assert("status_partial"@.len() == 14);
    reveal_strlit("status_missing"); assert("status_missing"@.len() == 14);
    reveal_strlit("status_needs_update"); assert("result_sshd_cfg_set"@[0] == 'r'); assert("status_needs_update"@[0] == 's');
    reveal_strlit("pkg_apt"); assert("pkg_apt"@.len() == 7);
    reveal_strlit("pkg_yum"); assert("pkg_yum"@.len() == 7);
    reveal_strlit("pkg_dnf"); assert("pkg_dnf"@.len() == 7);
    reveal_strlit("pkg_unknown"); assert("pkg_unknown"@.len() == 11);
    reveal_strlit("err_permission_denied"); assert("err_permission_denied"@.len() == 21);
    reveal_strlit("err_cmd_failed"); assert("err_cmd_failed"@.len() == 14);
    reveal_strlit("err_parse_error"); assert("err_parse_error"@.len() == 15);
    reveal_strlit("err_precondition_failed"); assert("err_precondition_failed"@.len() == 23);
    reveal_strlit("err_user_aborted"); assert("err_user_aborted"@.len() == 16);
    reveal_strlit("err_unknown_pkg_mgr"); assert("result_sshd_cfg_set"@[0] == 'r'); assert("err_unknown_pkg_mgr"@[0] == 'e');
    reveal_strlit("err_unsupported_pkg"); assert("result_sshd_cfg_set"@[0] == 'r'); assert("err_unsupported_pkg"@[0] == 'e');
    reveal_strlit("err_auto_update_only_debian"); assert("err_auto_update_only_debian"@.len() == 27);
    reveal_strlit("err_unknown_pkg_lynis"); assert("err_unknown_pkg_lynis"@.len() == 21);
    reveal_strlit("err_sshd_not_found"); assert("err_sshd_not_found"@.len() == 18);
    reveal_strlit("err_no_username"); assert("err_no_username"@.len() == 15);
    reveal_strlit("err_user_exists"); assert("err_user_exists"@.len() == 15);
    reveal_strlit("err_no_sudo_before_root"); assert("err_no_sudo_before_root"@.len() == 23);
    reveal_strlit("err_no_ssh_port"); assert("err_no_ssh_port"@.len() == 15);
    reveal_strlit("err_port_zero"); assert("err_port_zero"@.len() == 13);
    reveal_strlit("err_no_sudo_before_pw"); assert("err_no_sudo_before_pw"@.len() == 21);
    reveal_strlit("err_no_target_user"); assert("err_no_target_user"@.len() == 18);
    reveal_strlit("err_no_key_action"); assert("err_no_key_action"@.len() == 17);
    reveal_strlit("err_update_failed"); assert("err_update_failed"@.len() == 17);
    reveal_strlit("err_upgrade_failed"); assert("err_upgrade_failed"@.len() == 18);
    reveal_strlit("err_ufw_allow_failed"); assert("err_ufw_allow_failed"@.len() == 20);
    reveal_strlit("err_ufw_enable_failed"); assert("err_ufw_enable_failed"@.len() == 21);
    reveal_strlit("err_install_fail2ban"); assert("err_install_fail2ban"@.len() == 20);
    reveal_strlit("err_install_unattended"); assert("err_install_unattended"@.len() == 22);
    reveal_strlit("err_lynis_exec"); assert("err_lynis_exec"@.len() == 14);
    reveal_strlit("err_sshd_check"); assert("err_sshd_check"@.len() == 14);
    reveal_strlit("err_sshd_syntax"); assert("err_sshd_syntax"@.len() == 15);
    reveal_strlit("err_ssh_restart"); assert("err_ssh_restart"@.len() == 15);
    reveal_strlit("err_backup"); assert("err_backup"@.len() == 10);
    reveal_strlit("err_read"); assert("err_read"@.len() == 8);
    reveal_strlit("err_write"); assert("err_write"@.len() == 9);
    reveal_strlit("err_setup_signal"); assert("err_setup_signal"@.len() == 16);
    reveal_strlit("result_sys_updated"); assert("result_sys_updated"@.len() == 18);
    reveal_strlit("result_user_created"); assert("result_sshd_cfg_set"@[7] == 's'); assert("result_user_created"@[7] == 'u');
    reveal_strlit("result_root_login_set"); assert("result_root_login_set"@.len() == 21);
    reveal_strlit("result_ssh_port_set"); assert("result_sshd_cfg_set"@[10] == 'd'); assert("result_ssh_port_set"@[10] == '_');
    reveal_strlit("result_pw_auth_disabled"); assert("result_pw_auth_disabled"@.len() == 23);
    reveal_strlit("result_key_generated"); assert("result_key_generated"@.len() == 20);
    reveal_strlit("result_key_pasted"); assert("result_key_pasted"@.len() == 17);
    reveal_strlit("result_ufw_enabled"); assert("result_ufw_enabled"@.len() == 18);
    reveal_strlit("result_fail2ban_installed"); assert("result_fail2ban_installed"@.len() == 25);
    reveal_strlit("result_auto_updates_enabled"); assert("result_auto_updates_enabled"@.len() == 27);
    reveal_strlit("result_lynis_ok"); assert("result_lynis_ok"@.len() == 15);
    reveal_strlit("result_lynis_fail"); assert("result_lynis_fail"@.len() == 17);
    reveal_strlit("result_logwatch_installed"); assert("result_logwatch_installed"@.len() == 25);
    reveal_strlit("result_ssh_restarted"); assert("result_ssh_restarted"@.len() == 20);
    reveal_strlit("{bak}");
    reveal_strlit("{key}");
    reveal_strlit("{value}");
    reveal_strlit("{key} 已设置为 {value}（备份: {bak}）");
    assert("{key} 已设置为 {value}（备份: {bak}）"@.subrange(23, 28) =~= "{bak}"@);
    assert(match_at("{key} 已设置为 {value}（备份: {bak}）"@, "{bak}"@, 23));
    assert("{key} 已设置为 {value}（备份: {bak}）"@.subrange(0, 5) =~= "{key}"@);
    assert(match_at("{key} 已设置为 {value}（备份: {bak}）"@, "{key}"@, 0));
    assert("{key} 已设置为 {value}（备份: {bak}）"@.subrange(11, 18) =~= "{value}"@);
    assert(match_at("{key} 已设置为 {value}（备份: {bak}）"@, "{value}"@, 11));
    reveal_strlit("{key} set to {value} (backup: {bak})");
    assert("{key} set to {value} (backup: {bak})"@.subrange(30, 35) =~= "{bak}"@);
    assert(match_at("{key} set to {value} (backup: {bak})"@, "{bak}"@, 30));
    assert("{key} set to {value} (backup: {bak})"@.subrange(0, 5) =~= "{key}"@);
    assert(match_at("{key} set to {value} (backup: {bak})"@, "{key}"@, 0));
    assert("{key} set to {value} (backup: {bak})"@.subrange(13, 20) =~= "{value}"@);
    assert(match_at("{key} set to {value} (backup: {bak})"@, "{value}"@, 13));
    reveal_strlit("{key} 已設定為 {value}（備份: {bak}）");
    assert("{key} 已設定為 {value}（備份: {bak}）"@.subrange(23, 28) =~= "{bak}"@);
    assert(match_at("{key} 已設定為 {value}（備份: {bak}）"@, "{bak}"@, 23));
    assert("{key} 已設定為 {value}（備份: {bak}）"@.subrange(0, 5) =~= "{key}"@);
    assert(match_at("{key} 已設定為 {value}（備份: {bak}）"@, "{key}"@, 0));
    assert("{key} 已設定為 {value}（備份: {bak}）"@.subrange(11, 18) =~= "{value}"@);
    assert(match_at("{key} 已設定為 {value}（備份: {bak}）"@, "{value}"@, 11));
}

proof fn placeholders_result_sshd_syntax_err()
    ensures
        zh_cn_text("result_sshd_syntax_err"@) matches Some(t) && contains(t, "{err}"@),
        en_text("result_sshd_syntax_err"@) matches Some(t) && contains(t, "{err}"@),
        zh_tw_text("result_sshd_syntax_err"@) matches Some(t) && contains(t, "{err}"@),
{
    reveal_strlit("result_sshd_syntax_err"); assert("result_sshd_syntax_err"@.len() == 22);
    reveal_strlit("lang_en"); assert("lang_en"@.len() == 7);
    reveal_strlit("lang_zh_cn"); assert("lang_zh_cn"@.len() == 10);
    reveal_strlit("lang_zh_tw"); assert("lang_zh_tw"@.len() == 10);
    reveal_strlit("select_language"); assert("select_language"@.len() == 15);
    reveal_strlit("select_mode"); assert("select_mode"@.len() == 11);
    reveal_strlit("mode_cli"); assert("mode_cli"@.len() == 8);
    reveal_strlit("mode_tui"); assert("mode_tui"@.len() == 8);
    reveal_strlit("unknown_arg"); assert("unknown_arg"@.len() == 11);
    reveal_strlit("app_title"); assert("app_title"@.len() == 9);
    reveal_strlit("step_system_update"); assert("step_system_update"@.len() == 18);
    reveal_strlit("step_user_creation"); assert("step_user_creation"@.len() == 18);
    reveal_strlit("step_ssh_root_login"); assert("step_ssh_root_login"@.len() == 19);
    reveal_strlit("step_ssh_port_change"); assert("step_ssh_port_change"@.len() == 20);
    reveal_strlit("step_ssh_password_auth"); assert("result_sshd_syntax_err"@[0] == 'r'); assert("step_ssh_password_auth"@[0] == 's');
    reveal_strlit("step_ssh_key_setup"); assert("step_ssh_key_setup"@.len() == 18);
    reveal_strlit("step_ufw"); assert("step_ufw"@.len() == 8);
    reveal_strlit("step_fail2ban"); assert("step_fail2ban"@.len() == 13);
    reveal_strlit("step_auto_updates"); assert("step_auto_updates"@.len() == 17);
    reveal_strlit("step_security_scan"); assert("step_security_scan"@.len() == 18);
    reveal_strlit("step_log_audit"); assert("step_log_audit"@.len() == 14);
    reveal_strlit("step_restart_ssh"); assert("step_restart_ssh"@.len() == 16);
    reveal_strlit("audit_root"); assert("audit_root"@.len() == 10);
    reveal_strlit("audit_pkg_mgr"); assert("audit_pkg_mgr"@.len() == 13);
    reveal_strlit("audit_ssh_port"); assert("audit_ssh_port"@.len() == 14);
    reveal_strlit("audit_password_auth"); assert("audit_password_auth"@.len() == 19);
    reveal_strlit("audit_root_login"); assert("audit_root_login"@.len() == 16);
    reveal_strlit("audit_sudo_users"); assert("audit_sudo_users"@.len() == 16);
    reveal_strlit("audit_fail2ban"); assert("audit_fail2ban"@.len() == 14);
    reveal_strlit("audit_ufw"); assert("audit_ufw"@.len() == 9);
    reveal_strlit("audit_auto_updates"); assert("audit_auto_updates"@.len() == 18);
    reveal_strlit("audit_sys_update"); assert("audit_sys_update"@.len() == 16);
    reveal_strlit("audit_detail_root_ok"); assert("audit_detail_root_ok"@.len() == 20);
    reveal_strlit("audit_detail_root_missing"); assert("audit_detail_root_missing"@.len() == 25);
    reveal_strlit("audit_detail_pkg"); assert("audit_detail_pkg"@.len() == 16);
    reveal_strlit("audit_detail_port_safe"); assert("result_sshd_syntax_err"@[0] == 'r'); assert("audit_detail_port_safe"@[0] == 'a');
    reveal_strlit("audit_detail_port_missing"); assert("audit_detail_port_missing"@.len() == 25);
    reveal_strlit("audit_detail_pw_disabled"); assert("audit_detail_pw_disabled"@.len() == 24);
    reveal_strlit("audit_detail_pw_missing"); assert("audit_detail_pw_missing"@.len() == 23);
    reveal_strlit("audit_detail_root_disabled"); assert("audit_detail_root_disabled"@.len() == 26);
    reveal_strlit("audit_detail_root_missing_cfg"); assert("audit_detail_root_missing_cfg"@.len() == 29);
    reveal_strlit("audit_detail_sudo_missing"); assert("audit_detail_sudo_missing"@.len() == 25);
    reveal_strlit("audit_detail_sudo_ok"); assert("audit_detail_sudo_ok"@.len() == 20);
    reveal_strlit("audit_detail_fb_installed"); assert("audit_detail_fb_installed"@.len() == 25);
    reveal_strlit("audit_detail_fb_missing"); assert("audit_detail_fb_missing"@.len() == 23);
    reveal_strlit("audit_detail_ufw_enabled"); assert("audit_detail_ufw_enabled"@.len() == 24);
    reveal_strlit("audit_detail_ufw_missing"); assert("audit_detail_ufw_missing"@.len() == 24);
    reveal_strlit("audit_detail_au_enabled"); assert("audit_detail_au_enabled"@.len() == 23);
    reveal_strlit("audit_detail_au_missing"); assert("audit_detail_au_missing"@.len() == 23);
    reveal_strlit("audit_detail_sys_uptodate"); assert("audit_detail_sys_uptodate"@.len() == 25);
    reveal_strlit("audit_detail_sys_needs_update"); assert("audit_detail_sys_needs_update"@.len() == 29);
    reveal_strlit("status_safe"); assert("status_safe"@.len() == 11);
    reveal_strlit("status_partial"); assert("status_partial"@.len() == 14);
    reveal_strlit("status_missing"); assert("status_missing"@.len() == 14);
    reveal_strlit("status_needs_update"); assert("status_needs_update"@.len() == 19);
    reveal_strlit("pkg_apt"); assert("pkg_apt"@.len() == 7);
    reveal_strlit("pkg_yum"); assert("pkg_yum"@.len() == 7);
    reveal_strlit("pkg_dnf"); assert("pkg_dnf"@.len() == 7);
    reveal_strlit("pkg_unknown"); assert("pkg_unknown"@.len() == 11);
    reveal_strlit("err_permission_denied"); assert("err_permission_denied"@.len() == 21);
    reveal_strlit("err_cmd_failed"); assert("err_cmd_failed"@.len() == 14);
    reveal_strlit("err_parse_error"); assert("err_parse_error"@.len() == 15);
    reveal_strlit("err_precondition_failed"); assert("err_precondition_failed"@.len() == 23);
    reveal_strlit("err_user_aborted"); assert("err_user_aborted"@.len() == 16);
    reveal_strlit("err_unknown_pkg_mgr"); assert("err_unknown_pkg_mgr"@.len() == 19);
    reveal_strlit("err_unsupported_pkg"); assert("err_unsupported_pkg"@.len() == 19);
    reveal_strlit("err_auto_update_only_debian"); assert("err_auto_update_only_debian"@.len() == 27);
    reveal_strlit("err_unknown_pkg_lynis"); assert("err_unknown_pkg_lynis"@.len() == 21);
    reveal_strlit("err_sshd_not_found"); assert("err_sshd_not_found"@.len() == 18);
    reveal_strlit("err_no_username"); assert("err_no_username"@.len() == 15);
    reveal_strlit("err_user_exists"); assert("err_user_exists"@.len() == 15);
    reveal_strlit("err_no_sudo_before_root"); assert("err_no_sudo_before_root"@.len() == 23);
    reveal_strlit("err_no_ssh_port"); assert("err_no_ssh_port"@.len() == 15);
    reveal_strlit("err_port_zero"); assert("err_port_zero"@.len() == 13);
    reveal_strlit("err_no_sudo_before_pw"); assert("err_no_sudo_before_pw"@.len() == 21);
    reveal_strlit("err_no_target_user"); assert("err_no_target_user"@.len() == 18);
    reveal_strlit("err_no_key_action"); assert("err_no_key_action"@.len() == 17);
    reveal_strlit("err_update_failed"); assert("err_update_failed"@.len() == 17);
    reveal_strlit("err_upgrade_failed"); assert("err_upgrade_failed"@.len() == 18);
    reveal_strlit("err_ufw_allow_failed"); assert("err_ufw_allow_failed"@.len() == 20);
    reveal_strlit("err_ufw_enable_failed"); assert("err_ufw_enable_failed"@.len() == 21);
    reveal_strlit("err_install_fail2ban"); assert("err_install_fail2ban"@.len() == 20);
    reveal_strlit("err_install_unattended"); assert("result_sshd_syntax_err"@[0] == 'r'); assert("err_install_unattended"@[0] == 'e');
    reveal_strlit("err_lynis_exec"); assert("err_lynis_exec"@.len() == 14);
    reveal_strlit("err_sshd_check"); assert("err_sshd_check"@.len() == 14);
    reveal_strlit("err_sshd_syntax"); assert("err_sshd_syntax"@.len() == 15);
    reveal_strlit("err_ssh_restart"); assert("err_ssh_restart"@.len() == 15);
    reveal_strlit("err_backup"); assert("err_backup"@.len() == 10);
    reveal_strlit("err_read"); assert("err_read"@.len() == 8);
    reveal_strlit("err_write"); assert("err_write"@.len() == 9);
    reveal_strlit("err_setup_signal"); assert("err_setup_signal"@.len() == 16);
    reveal_strlit("result_sys_updated"); assert("result_sys_updated"@.len() == 18);
    reveal_strlit("result_user_created"); assert("result_user_created"@.len() == 19);
    reveal_strlit("result_root_login_set"); assert("result_root_login_set"@.len() == 21);
    reveal_strlit("result_ssh_port_set"); assert("result_ssh_port_set"@.len() == 19);
    reveal_strlit("result_pw_auth_disabled"); assert("result_pw_auth_disabled"@.len() == 23);
    reveal_strlit("result_key_generated"); assert("result_key_generated"@.len() == 20);
    reveal_strlit("result_key_pasted"); assert("result_key_pasted"@.len() == 17);
    reveal_strlit("result_ufw_enabled"); assert("result_ufw_enabled"@.len() == 18);
    reveal_strlit("result_fail2ban_installed"); assert("result_fail2ban_installed"@.len() == 25);
    reveal_strlit("result_auto_updates_enabled"); assert("result_auto_updates_enabled"@.len() == 27);
    reveal_strlit("result_lynis_ok"); assert("result_lynis_ok"@.len() == 15);
    reveal_strlit("result_lynis_fail"); assert("result_lynis_fail"@.len() == 17);
    reveal_strlit("result_logwatch_installed"); assert("result_logwatch_installed"@.len() == 25);
    reveal_strlit("result_ssh_restarted"); assert("result_ssh_restarted"@.len() == 20);
    reveal_strlit("result_sshd_cfg_set"); assert("result_sshd_cfg_set"@.len() == 19);
    reveal_strlit("result_sshd_syntax_ok"); assert("result_sshd_syntax_ok"@.len() == 21);
    reveal_strlit("{err}");
    reveal_strlit("sshd_config 语法错误，请检查配置: {err}");
    assert("sshd_config 语法错误，请检查配置: {err}"@.subrange(24, 29) =~= "{err}"@);
    assert(match_at("sshd_config 语法错误，请检查配置: {err}"@, "{err}"@, 24));
    reveal_strlit("sshd_config syntax error: {err}");
    assert("sshd_config syntax error: {err}"@.subrange(26, 31) =~= "{err}"@);
    assert(match_at("sshd_config syntax error: {err}"@, "{err}"@, 26));
    reveal_strlit("sshd_config 語法錯誤，請檢查配置: {err}");
    assert("sshd_config 語法錯誤，請檢查配置: {err}"@.subrange(24, 29) =~= "{err}"@);
    assert(match_at("sshd_config 語法錯誤，請檢查配置: {err}"@, "{err}"@, 24));
}

proof fn placeholders_log_audit_done()
    ensures
        zh_cn_text("log_audit_done"@) matches Some(t) && contains(t, "{n}"@),
        en_text("log_audit_done"@) matches Some(t) && contains(t, "{n}"@),
        zh_tw_text("log_audit_done"@) matches Some(t) && contains(t, "{n}"@),
{
    reveal_strlit("log_audit_done"); assert("log_audit_done"@.len() == 14);
    reveal_strlit("lang_en"); assert("lang_en"@.len() == 7);
    reveal_strlit("lang_zh_cn"); assert("lang_zh_cn"@.len() == 10);
    reveal_strlit("lang_zh_tw"); assert("lang_zh_tw"@.len() == 10);
    reveal_strlit("select_language"); assert("select_language"@.len() == 15);
    reveal_strlit("select_mode"); assert("select_mode"@.len() == 11);
    reveal_strlit("mode_cli"); assert("mode_cli"@.len() == 8);
    reveal_strlit("mode_tui"); assert("mode_tui"@.len() == 8);
    reveal_strlit("unknown_arg"); assert("unknown_arg"@.len() == 11);
    reveal_strlit("app_title"); assert("app_title"@.len() == 9);
    reveal_strlit("step_system_update"); assert("step_system_update"@.len() == 18);
    reveal_strlit("step_user_creation"); assert("step_user_creation"@.len() == 18);
    reveal_strlit("step_ssh_root_login"); assert("step_ssh_root_login"@.len() == 19);
    reveal_strlit("step_ssh_port_change"); assert("step_ssh_port_change"@.len() == 20);
    reveal_strlit("step_ssh_password_auth"); assert("step_ssh_password_auth"@.len() == 22);
    reveal_strlit("step_ssh_key_setup"); assert("step_ssh_key_setup"@.len() == 18);
    reveal_strlit("step_ufw"); assert("step_ufw"@.len() == 8);
    reveal_strlit("step_fail2ban"); assert("step_fail2ban"@.len() == 13);
    reveal_strlit("step_auto_updates"); assert("step_auto_updates"@.len() == 17);
    reveal_strlit("step_security_scan"); assert("step_security_scan"@.len() == 18);
    reveal_strlit("step_log_audit"); assert("log_audit_done"@[0] == 'l'); assert("step_log_audit"@[0] == 's');
    reveal_strlit("step_restart_ssh"); assert("step_restart_ssh"@.len() == 16);
    reveal_strlit("audit_root"); assert("audit_root"@.len() == 10);
    reveal_strlit("audit_pkg_mgr"); assert("audit_pkg_mgr"@.len() == 13);
    reveal_strlit("audit_ssh_port"); assert("log_audit_done"@[0] == 'l'); assert("audit_ssh_port"@[0] == 'a');
    reveal_strlit("audit_password_auth"); assert("audit_password_auth"@.len() == 19);
    reveal_strlit("audit_root_login"); assert("audit_root_login"@.len() == 16);
    reveal_strlit("audit_sudo_users"); assert("audit_sudo_users"@.len() == 16);
    reveal_strlit("audit_fail2ban"); assert("log_audit_done"@[0] == 'l'); assert("audit_fail2ban"@[0] == 'a');
    reveal_strlit("audit_ufw"); assert("audit_ufw"@.len() == 9);
    reveal_strlit("audit_auto_updates"); assert("audit_auto_updates"@.len() == 18);
    reveal_strlit("audit_sys_update"); assert("audit_sys_update"@.len() == 16);
    reveal_strlit("audit_detail_root_ok"); assert("audit_detail_root_ok"@.len() == 20);
    reveal_strlit("audit_detail_root_missing"); assert("audit_detail_root_missing"@.len() == 25);
    reveal_strlit("audit_detail_pkg"); assert("audit_detail_pkg"@.len() == 16);
    reveal_strlit("audit_detail_port_safe"); assert("audit_detail_port_safe"@.len() == 22);
    reveal_strlit("audit_detail_port_missing"); assert("audit_detail_port_missing"@.len() == 25);
    reveal_strlit("audit_detail_pw_disabled"); assert("audit_detail_pw_disabled"@.len() == 24);
    reveal_strlit("audit_detail_pw_missing"); assert("audit_detail_pw_missing"@.len() == 23);
    reveal_strlit("audit_detail_root_disabled"); assert("audit_detail_root_disabled"@.len() == 26);
    reveal_strlit("audit_detail_root_missing_cfg"); assert("audit_detail_root_missing_cfg"@.len() == 29);
    reveal_strlit("audit_detail_sudo_missing"); assert("audit_detail_sudo_missing"@.len() == 25);
    reveal_strlit("audit_detail_sudo_ok"); assert("audit_detail_sudo_ok"@.len() == 20);
    reveal_strlit("audit_detail_fb_installed"); assert("audit_detail_fb_installed"@.len() == 25);
    reveal_strlit("audit_detail_fb_missing"); assert("audit_detail_fb_missing"@.len() == 23);
    reveal_strlit("audit_detail_ufw_enabled"); assert("audit_detail_ufw_enabled"@.len() == 24);
    reveal_strlit("audit_detail_ufw_missing"); assert("audit_detail_ufw_missing"@.len() == 24);
    reveal_strlit("audit_detail_au_enabled"); assert("audit_detail_au_enabled"@.len() == 23);
    reveal_strlit("audit_detail_au_missing"); assert("audit_detail_au_missing"@.len() == 23);
    reveal_strlit("audit_detail_sys_uptodate"); assert("audit_detail_sys_uptodate"@.len() == 25);
    reveal_strlit("audit_detail_sys_needs_update"); assert("audit_detail_sys_needs_update"@.len() == 29);
    reveal_strlit("status_safe"); assert("status_safe"@.len() == 11);
    reveal_strlit("status_partial"); assert("log_audit_done"@[0] == 'l'); assert("status_partial"@[0] == 's');
    reveal_strlit("status_missing"); assert("log_audit_done"@[0] == 'l'); assert("status_missing"@[0] == 's');
    reveal_strlit("status_needs_update"); assert("status_needs_update"@.len() == 19);
    reveal_strlit("pkg_apt"); assert("pkg_apt"@.len() == 7);
    reveal_strlit("pkg_yum"); assert("pkg_yum"@.len() == 7);
    reveal_strlit("pkg_dnf"); assert("pkg_dnf"@.len() == 7);
    reveal_strlit("pkg_unknown"); assert("pkg_unknown"@.len() == 11);
    reveal_strlit("err_permission_denied"); assert("err_permission_denied"@.len() == 21);
    reveal_strlit("err_cmd_failed"); assert("log_audit_done"@[0] == 'l'); assert("err_cmd_failed"@[0] == 'e');
    reveal_strlit("err_parse_error"); assert("err_parse_error"@.len() == 15);
    reveal_strlit("err_precondition_failed"); assert("err_precondition_failed"@.len() == 23);
    reveal_strlit("err_user_aborted"); assert("err_user_aborted"@.len() == 16);
    reveal_strlit("err_unknown_pkg_mgr"); assert("err_unknown_pkg_mgr"@.len() == 19);
    reveal_strlit("err_unsupported_pkg"); assert("err_unsupported_pkg"@.len() == 19);
    reveal_strlit("err_auto_update_only_debian"); assert("err_auto_update_only_debian"@.len() == 27);
    reveal_strlit("err_unknown_pkg_lynis"); assert("err_unknown_pkg_lynis"@.len() == 21);
    reveal_strlit("err_sshd_not_found"); assert("err_sshd_not_found"@.len() == 18);
    reveal_strlit("err_no_username"); assert("err_no_username"@.len() == 15);
    reveal_strlit("err_user_exists"); assert("err_user_exists"@.len() == 15);
    reveal_strlit("err_no_sudo_before_root"); assert("err_no_sudo_before_root"@.len() == 23);
    reveal_strlit("err_no_ssh_port"); assert("err_no_ssh_port"@.len() == 15);
    reveal_strlit("err_port_zero"); assert("err_port_zero"@.len() == 13);
    reveal_strlit("err_no_sudo_before_pw"); assert("err_no_sudo_before_pw"@.len() == 21);
    reveal_strlit("err_no_target_user"); assert("err_no_target_user"@.len() == 18);
    reveal_strlit("err_no_key_action"); assert("err_no_key_action"@.len() == 17);
    reveal_strlit("err_update_failed"); assert("err_update_failed"@.len() == 17);
    reveal_strlit("err_upgrade_failed"); assert("err_upgrade_failed"@.len() == 18);
    reveal_strlit("err_ufw_allow_failed"); assert("err_ufw_allow_failed"@.len() == 20);
    reveal_strlit("err_ufw_enable_failed"); assert("err_ufw_enable_failed"@.len() == 21);
    reveal_strlit("err_install_fail2ban"); assert("err_install_fail2ban"@.len() == 20);
    reveal_strlit("err_install_unattended"); assert("err_install_unattended"@.len() == 22);
    reveal_strlit("err_lynis_exec"); assert("log_audit_done"@[0] == 'l'); assert("err_lynis_exec"@[0] == 'e');
    reveal_strlit("err_sshd_check"); assert("log_audit_done"@[0] == 'l'); assert("err_sshd_check"@[0] == 'e');
    reveal_strlit("err_sshd_syntax"); assert("err_sshd_syntax"@.len() == 15);
    reveal_strlit("err_ssh_restart"); assert("err_ssh_restart"@.len() == 15);
    reveal_strlit("err_backup"); assert("err_backup"@.len() == 10);
    reveal_strlit("err_read"); assert("err_read"@.len() == 8);
    reveal_strlit("err_write"); assert("err_write"@.len() == 9);
    reveal_strlit("err_setup_signal"); assert("err_setup_signal"@.len() == 16);
    reveal_strlit("result_sys_updated"); assert("result_sys_updated"@.len() == 18);
    reveal_strlit("result_user_created"); assert("result_user_created"@.len() == 19);
    reveal_strlit("result_root_login_set"); assert("result_root_login_set"@.len() == 21);
    reveal_strlit("result_ssh_port_set"); assert("result_ssh_port_set"@.len() == 19);
    reveal_strlit("result_pw_auth_disabled"); assert("result_pw_auth_disabled"@.len() == 23);
    reveal_strlit("result_key_generated"); assert("result_key_generated"@.len() == 20);
    reveal_strlit("result_key_pasted"); assert("result_key_pasted"@.len() == 17);
    reveal_strlit("result_ufw_enabled"); assert("result_ufw_enabled"@.len() == 18);
    reveal_strlit("result_fail2ban_installed"); assert("result_fail2ban_installed"@.len() == 25);
    reveal_strlit("result_auto_updates_enabled"); assert("result_auto_updates_enabled"@.len() == 27);
    reveal_strlit("result_lynis_ok"); assert("result_lynis_ok"@.len() == 15);
    reveal_strlit("result_lynis_fail"); assert("result_lynis_fail"@.len() == 17);
    reveal_strlit("result_logwatch_installed"); assert("result_logwatch_installed"@.len() == 25);
    reveal_strlit("result_ssh_restarted"); assert("result_ssh_restarted"@.len() == 20);
    reveal_strlit("result_sshd_cfg_set"); assert("result_sshd_cfg_set"@.len() == 19);
    reveal_strlit("result_sshd_syntax_ok"); assert("result_sshd_syntax_ok"@.len() == 21);
    reveal_strlit("result_sshd_syntax_err"); assert("result_sshd_syntax_err"@.len() == 22);
    reveal_strlit("log_audit"); assert("log_audit"@.len() == 9);
    reveal_strlit("log_operation"); assert("log_operation"@.len() == 13);
    reveal_strlit("log_rollback"); assert("log_rollback"@.len() == 12);
    reveal_strlit("log_audit_start"); assert("log_audit_start"@.len() == 15);
    reveal_strlit("{n}");
    reveal_strlit("完成，共 {n} 项检测");
    assert("完成，共 {n} 项检测"@.subrange(5, 8) =~= "{n}"@);
    assert(match_at("完成，共 {n} 项检测"@, "{n}"@, 5));
    reveal_strlit("Completed, {n} items checked");
    assert("Completed, {n} items checked"@.subrange(11, 14) =~= "{n}"@);
    assert(match_at("Completed, {n} items checked"@, "{n}"@, 11));
    reveal_strlit("完成，共 {n} 項檢測");
    assert("完成，共 {n} 項檢測"@.subrange(5, 8) =~= "{n}"@);
    assert(match_at("完成，共 {n} 項檢測"@, "{n}"@, 5));
}

proof fn placeholders_undo_user_remove()
    ensures
        zh_cn_text("undo_user_remove"@) matches Some(t) && contains(t, "{user}"@),
        en_text("undo_user_remove"@) matches Some(t) && contains(t, "{user}"@),
        zh_tw_text("undo_user_remove"@) matches Some(t) && contains(t, "{user}"@),
{
    reveal_strlit("undo_user_remove"); assert("undo_user_remove"@.len() == 16);
    reveal_strlit("lang_en"); assert("lang_en"@.len() == 7);
    reveal_strlit("lang_zh_cn"); assert("lang_zh_cn"@.len() == 10);
    reveal_strlit("lang_zh_tw"); assert("lang_zh_tw"@.len() == 10);
    reveal_strlit("select_language"); assert("select_language"@.len() == 15);
    reveal_strlit("select_mode"); assert("select_mode"@.len() == 11);
    reveal_strlit("mode_cli"); assert("mode_cli"@.len() == 8);
    reveal_strlit("mode_tui"); assert("mode_tui"@.len() == 8);
    reveal_strlit("unknown_arg"); assert("unknown_arg"@.len() == 11);
    reveal_strlit("app_title"); assert("app_title"@.len() == 9);
    reveal_strlit("step_system_update"); assert("step_system_update"@.len() == 18);
    reveal_strlit("step_user_creation"); assert("step_user_creation"@.len() == 18);
    reveal_strlit("step_ssh_root_login"); assert("step_ssh_root_login"@.len() == 19);
    reveal_strlit("step_ssh_port_change"); assert("step_ssh_port_change"@.len() == 20);
    reveal_strlit("step_ssh_password_auth"); assert("step_ssh_password_auth"@.len() == 22);
    reveal_strlit("step_ssh_key_setup"); assert("step_ssh_key_setup"@.len() == 18);
    reveal_strlit("step_ufw"); assert("step_ufw"@.len() == 8);
    reveal_strlit("step_fail2ban"); assert("step_fail2ban"@.len() == 13);
    reveal_strlit("step_auto_updates"); assert("step_auto_updates"@.len() == 17);
    reveal_strlit("step_security_scan"); assert("step_security_scan"@.len() == 18);
    reveal_strlit("step_log_audit"); assert("step_log_audit"@.len() == 14);
    reveal_strlit("step_restart_ssh"); assert("undo_user_remove"@[0] == 'u'); assert("step_restart_ssh"@[0] == 's');
    reveal_strlit("audit_root"); assert("audit_root"@.len() == 10);
    reveal_strlit("audit_pkg_mgr"); assert("audit_pkg_mgr"@.len() == 13);
    reveal_strlit("audit_ssh_port"); assert("audit_ssh_port"@.len() == 14);
    reveal_strlit("audit_password_auth"); assert("audit_password_auth"@.len() == 19);
    reveal_strlit("audit_root_login"); assert("undo_user_remove"@[0] == 'u'); assert("audit_root_login"@[0] == 'a');
    reveal_strlit("audit_sudo_users"); assert("undo_user_remove"@[0] == 'u'); assert("audit_sudo_users"@[0] == 'a');
    reveal_strlit("audit_fail2ban"); assert("audit_fail2ban"@.len() == 14);
    reveal_strlit("audit_ufw"); assert("audit_ufw"@.len() == 9);
    reveal_strlit("audit_auto_updates"); assert("audit_auto_updates"@.len() == 18);
    reveal_strlit("audit_sys_update"); assert("undo_user_remove"@[0] == 'u'); assert("audit_sys_update"@[0] == 'a');
    reveal_strlit("audit_detail_root_ok"); assert("audit_detail_root_ok"@.len() == 20);
    reveal_strlit("audit_detail_root_missing"); assert("audit_detail_root_missing"@.len() == 25);
    reveal_strlit("audit_detail_pkg"); assert("undo_user_remove"@[0] == 'u'); assert("audit_detail_pkg"@[0] == 'a');
    reveal_strlit("audit_detail_port_safe"); assert("audit_detail_port_safe"@.len() == 22);
    reveal_strlit("audit_detail_port_missing"); assert("audit_detail_port_missing"@.len() == 25);
    reveal_strlit("audit_detail_pw_disabled"); assert("audit_detail_pw_disabled"@.len() == 24);
    reveal_strlit("audit_detail_pw_missing"); assert("audit_detail_pw_missing"@.len() == 23);
    reveal_strlit("audit_detail_root_disabled"); assert("audit_detail_root_disabled"@.len() == 26);
    reveal_strlit("audit_detail_root_missing_cfg"); assert("audit_detail_root_missing_cfg"@.len() == 29);
    reveal_strlit("audit_detail_sudo_missing"); assert("audit_detail_sudo_missing"@.len() == 25);
    reveal_strlit("audit_detail_sudo_ok"); assert("audit_detail_sudo_ok"@.len() == 20);
    reveal_strlit("audit_detail_fb_installed"); assert("audit_detail_fb_installed"@.len() == 25);
    reveal_strlit("audit_detail_fb_missing"); assert("audit_detail_fb_missing"@.len() == 23);
    reveal_strlit("audit_detail_ufw_enabled"); assert("audit_detail_ufw_enabled"@.len() == 24);
    reveal_strlit("audit_detail_ufw_missing"); assert("audit_detail_ufw_missing"@.len() == 24);
    reveal_strlit("audit_detail_au_enabled"); assert("audit_detail_au_enabled"@.len() == 23);
    reveal_strlit("audit_detail_au_missing"); assert("audit_detail_au_missing"@.len() == 23);
    reveal_strlit("audit_detail_sys_uptodate"); assert("audit_detail_sys_uptodate"@.len() == 25);
    reveal_strlit("audit_detail_sys_needs_update"); assert("audit_detail_sys_needs_update"@.len() == 29);
    reveal_strlit("status_safe"); assert("status_safe"@.len() == 11);
    reveal_strlit("status_partial"); assert("status_partial"@.len() == 14);
    reveal_strlit("status_missing"); assert("status_missing"@.len() == 14);
    reveal_strlit("status_needs_update"); assert("status_needs_update"@.len() == 19);
    reveal_strlit("pkg_apt"); assert("pkg_apt"@.len() == 7);
    reveal_strlit("pkg_yum"); assert("pkg_yum"@.len() == 7);
    reveal_strlit("pkg_dnf"); assert("pkg_dnf"@.len() == 7);
    reveal_strlit("pkg_unknown"); assert("pkg_unknown"@.len() == 11);
    reveal_strlit("err_permission_denied"); assert("err_permission_denied"@.len() == 21);
    reveal_strlit("err_cmd_failed"); assert("err_cmd_failed"@.len() == 14);
    reveal_strlit("err_parse_error"); assert("err_parse_error"@.len() == 15);
    reveal_strlit("err_precondition_failed"); assert("err_precondition_failed"@.len() == 23);
    reveal_strlit("err_user_aborted"); assert("undo_user_remove"@[0] == 'u'); assert("err_user_aborted"@[0] == 'e');
    reveal_strlit("err_unknown_pkg_mgr"); assert("err_unknown_pkg_mgr"@.len() == 19);
    reveal_strlit("err_unsupported_pkg"); assert("err_unsupported_pkg"@.len() == 19);
    reveal_strlit("err_auto_update_only_debian"); assert("err_auto_update_only_debian"@.len() == 27);
    reveal_strlit("err_unknown_pkg_lynis"); assert("err_unknown_pkg_lynis"@.len() == 21);
    reveal_strlit("err_sshd_not_found"); assert("err_sshd_not_found"@.len() == 18);
    reveal_strlit("err_no_username"); assert("err_no_username"@.len() == 15);
    reveal_strlit("err_user_exists"); assert("err_user_exists"@.len() == 15);
    reveal_strlit("err_no_sudo_before_root"); assert("err_no_sudo_before_root"@.len() == 23);
    reveal_strlit("err_no_ssh_port"); assert("err_no_ssh_port"@.len() == 15);
    reveal_strlit("err_port_zero"); assert("err_port_zero"@.len() == 13);
    reveal_strlit("err_no_sudo_before_pw"); assert("err_no_sudo_before_pw"@.len() == 21);
    reveal_strlit("err_no_target_user"); assert("err_no_target_user"@.len() == 18);
    reveal_strlit("err_no_key_action"); assert("err_no_key_action"@.len() == 17);
    reveal_strlit("err_update_failed"); assert("err_update_failed"@.len() == 17);
    reveal_strlit("err_upgrade_failed"); assert("err_upgrade_failed"@.len() == 18);
    reveal_strlit("err_ufw_allow_failed"); assert("err_ufw_allow_failed"@.len() == 20);
    reveal_strlit("err_ufw_enable_failed"); assert("err_ufw_enable_failed"@.len() == 21);
    reveal_strlit("err_install_fail2ban"); assert("err_install_fail2ban"@.len() == 20);
    reveal_strlit("err_install_unattended"); assert("err_install_unattended"@.len() == 22);
    reveal_strlit("err_lynis_exec"); assert("err_lynis_exec"@.len() == 14);
    reveal_strlit("err_sshd_check"); assert("err_sshd_check"@.len() == 14);
    reveal_strlit("err_sshd_syntax"); assert("err_sshd_syntax"@.len() == 15);
    reveal_strlit("err_ssh_restart"); assert("err_ssh_restart"@.len() == 15);
    reveal_strlit("err_backup"); assert("err_backup"@.len() == 10);
    reveal_strlit("err_read"); assert("err_read"@.len() == 8);
    reveal_strlit("err_write"); assert("err_write"@.len() == 9);
    reveal_strlit("err_setup_signal"); assert("undo_user_remove"@[0] == 'u'); assert("err_setup_signal"@[0] == 'e');
    reveal_strlit("result_sys_updated"); assert("result_sys_updated"@.len() == 18);
    reveal_strlit("result_user_created"); assert("result_user_created"@.len() == 19);
    reveal_strlit("result_root_login_set"); assert("result_root_login_set"@.len() == 21);
    reveal_strlit("result_ssh_port_set"); assert("result_ssh_port_set"@.len() == 19);
    reveal_strlit("result_pw_auth_disabled"); assert("result_pw_auth_disabled"@.len() == 23);
    reveal_strlit("result_key_generated"); assert("result_key_generated"@.len() == 20);
    reveal_strlit("result_key_pasted"); assert("result_key_pasted"@.len() == 17);
    reveal_strlit("result_ufw_enabled"); assert("result_ufw_enabled"@.len() == 18);
    reveal_strlit("result_fail2ban_installed"); assert("result_fail2ban_installed"@.len() == 25);
    reveal_strlit("result_auto_updates_enabled"); assert("result_auto_updates_enabled"@.len() == 27);
    reveal_strlit("result_lynis_ok"); assert("result_lynis_ok"@.len() == 15);
    reveal_strlit("result_lynis_fail"); assert("result_lynis_fail"@.len() == 17);
    reveal_strlit("result_logwatch_installed"); assert("result_logwatch_installed"@.len() == 25);
    reveal_strlit("result_ssh_restarted"); assert("result_ssh_restarted"@.len() == 20);
    reveal_strlit("result_sshd_cfg_set"); assert("result_sshd_cfg_set"@.len() == 19);
    reveal_strlit("result_sshd_syntax_ok"); assert("result_sshd_syntax_ok"@.len() == 21);
    reveal_strlit("result_sshd_syntax_err"); assert("result_sshd_syntax_err"@.len() == 22);
    reveal_strlit("log_audit"); assert("log_audit"@.len() == 9);
    reveal_strlit("log_operation"); assert("log_operation"@.len() == 13);
    reveal_strlit("log_rollback"); assert("log_rollback"@.len() == 12);
    reveal_strlit("log_audit_start"); assert("log_audit_start"@.len() == 15);
    reveal_strlit("log_audit_done"); assert("log_audit_done"@.len() == 14);
    reveal_strlit("log_step_start"); assert("log_step_start"@.len() == 14);
    reveal_strlit("log_step_complete"); assert("log_step_complete"@.len() == 17);
    reveal_strlit("log_step_failed"); assert("log_step_failed"@.len() == 15);
    reveal_strlit("log_rollback_auto"); assert("log_rollback_auto"@.len() == 17);
    reveal_strlit("{user}");
    reveal_strlit("删除用户 '{user}'");
    assert("删除用户 '{user}'"@.subrange(6, 12) =~= "{user}"@);
    assert(match_at("删除用户 '{user}'"@, "{user}"@, 6));
    reveal_strlit("Remove user '{user}'");
    assert("Remove user '{user}'"@.subrange(13, 19) =~= "{user}"@);
    assert(match_at("Remove user '{user}'"@, "{user}"@, 13));
    reveal_strlit("刪除用戶 '{user}'");
    assert("刪除用戶 '{user}'"@.subrange(6, 12) =~= "{user}"@);
    assert(match_at("刪除用戶 '{user}'"@, "{user}"@, 6));
}

proof fn placeholders_undo_pkg_remove()
    ensures
        zh_cn_text("undo_pkg_remove"@) matches Some(t) && contains(t, "{pkg}"@),
        en_text("undo_pkg_remove"@) matches Some(t) && contains(t, "{pkg}"@),
        zh_tw_text("undo_pkg_remove"@) matches Some(t) && contains(t, "{pkg}"@),
{
    reveal_strlit("undo_pkg_remove"); assert("undo_pkg_remove"@.len() == 15);
    reveal_strlit("lang_en"); assert("lang_en"@.len() == 7);
    reveal_strlit("lang_zh_cn"); assert("lang_zh_cn"@.len() == 10);
    reveal_strlit("lang_zh_tw"); assert("lang_zh_tw"@.len() == 10);
    reveal_strlit("select_language"); assert("undo_pkg_remove"@[0] == 'u'); assert("select_language"@[0] == 's');
    reveal_strlit("select_mode"); assert("select_mode"@.len() == 11);
    reveal_strlit("mode_cli"); assert("mode_cli"@.len() == 8);
    reveal_strlit("mode_tui"); assert("mode_tui"@.len() == 8);
    reveal_strlit("unknown_arg"); assert("unknown_arg"@.len() == 11);
    reveal_strlit("app_title"); assert("app_title"@.len() == 9);
    reveal_strlit("step_system_update"); assert("step_system_update"@.len() == 18);
    reveal_strlit("step_user_creation"); assert("step_user_creation"@.len() == 18);
    reveal_strlit("step_ssh_root_login"); assert("step_ssh_root_login"@.len() == 19);
    reveal_strlit("step_ssh_port_change"); assert("step_ssh_port_change"@.len() == 20);
    reveal_strlit("step_ssh_password_auth"); assert("step_ssh_password_auth"@.len() == 22);
    reveal_strlit("step_ssh_key_setup"); assert("step_ssh_key_setup"@.len() == 18);
    reveal_strlit("step_ufw"); assert("step_ufw"@.len() == 8);
    reveal_strlit("step_fail2ban"); assert("step_fail2ban"@.len() == 13);
    reveal_strlit("step_auto_updates"); assert("step_auto_updates"@.len() == 17);
    reveal_strlit("step_security_scan"); assert("step_security_scan"@.len() == 18);
    reveal_strlit("step_log_audit"); assert("step_log_audit"@.len() == 14);
    reveal_strlit("step_restart_ssh"); assert("step_restart_ssh"@.len() == 16);
    reveal_strlit("audit_root"); assert("audit_root"@.len() == 10);
    reveal_strlit("audit_pkg_mgr"); assert("audit_pkg_mgr"@.len() == 13);
    reveal_strlit("audit_ssh_port"); assert("audit_ssh_port"@.len() == 14);
    reveal_strlit("audit_password_auth"); assert("audit_password_auth"@.len() == 19);
    reveal_strlit("audit_root_login"); assert("audit_root_login"@.len() == 16);
    reveal_strlit("audit_sudo_users"); assert("audit_sudo_users"@.len() == 16);
    reveal_strlit("audit_fail2ban"); assert("audit_fail2ban"@.len() == 14);
    reveal_strlit("audit_ufw"); assert("audit_ufw"@.len() == 9);
    reveal_strlit("audit_auto_updates"); assert("audit_auto_updates"@.len() == 18);
    reveal_strlit("audit_sys_update"); assert("audit_sys_update"@.len() == 16);
    reveal_strlit("audit_detail_root_ok"); assert("audit_detail_root_ok"@.len() == 20);
    reveal_strlit("audit_detail_root_missing"); assert("audit_detail_root_missing"@.len() == 25);
    reveal_strlit("audit_detail_pkg"); assert("audit_detail_pkg"@.len() == 16);
    reveal_strlit("audit_detail_port_safe"); assert("audit_detail_port_safe"@.len() == 22);
    reveal_strlit("audit_detail_port_missing"); assert("audit_detail_port_missing"@.len() == 25);
    reveal_strlit("audit_detail_pw_disabled"); assert("audit_detail_pw_disabled"@.len() == 24);
    reveal_strlit("audit_detail_pw_missing"); assert("audit_detail_pw_missing"@.len() == 23);
    reveal_strlit("audit_detail_root_disabled"); assert("audit_detail_root_disabled"@.len() == 26);
    reveal_strlit("audit_detail_root_missing_cfg"); assert("audit_detail_root_missing_cfg"@.len() == 29);
    reveal_strlit("audit_detail_sudo_missing"); assert("audit_detail_sudo_missing"@.len() == 25);
    reveal_strlit("audit_detail_sudo_ok"); assert("audit_detail_sudo_ok"@.len() == 20);
    reveal_strlit("audit_detail_fb_installed"); assert("audit_detail_fb_installed"@.len() == 25);
    reveal_strlit("audit_detail_fb_missing"); assert("audit_detail_fb_missing"@.len() == 23);
    reveal_strlit("audit_detail_ufw_enabled"); assert("audit_detail_ufw_enabled"@.len() == 24);
    reveal_strlit("audit_detail_ufw_missing"); assert("audit_detail_ufw_missing"@.len() == 24);
    reveal_strlit("audit_detail_au_enabled"); assert("audit_detail_au_enabled"@.len() == 23);
    reveal_strlit("audit_detail_au_missing"); assert("audit_detail_au_missing"@.len() == 23);
    reveal_strlit("audit_detail_sys_uptodate"); assert("audit_detail_sys_uptodate"@.len() == 25);
    reveal_strlit("audit_detail_sys_needs_update"); assert("audit_detail_sys_needs_update"@.len() == 29);
    reveal_strlit("status_safe"); assert("status_safe"@.len() == 11);
    reveal_strlit("status_partial"); assert("status_partial"@.len() == 14);
    reveal_strlit("status_missing"); assert("status_missing"@.len() == 14);
    reveal_strlit("status_needs_update"); assert("status_needs_update"@.len() == 19);
    reveal_strlit("pkg_apt"); assert("pkg_apt"@.len() == 7);
    reveal_strlit("pkg_yum"); assert("pkg_yum"@.len() == 7);
    reveal_strlit("pkg_dnf"); assert("pkg_dnf"@.len() == 7);
    reveal_strlit("pkg_unknown"); assert("pkg_unknown"@.len() == 11);
    reveal_strlit("err_permission_denied"); assert("err_permission_denied"@.len() == 21);
    reveal_strlit("err_cmd_failed"); assert("err_cmd_failed"@.len() == 14);
    reveal_strlit("err_parse_error"); assert("undo_pkg_remove"@[0] == 'u'); assert("err_parse_error"@[0] == 'e');
    reveal_strlit("err_precondition_failed"); assert("err_precondition_failed"@.len() == 23);
    reveal_strlit("err_user_aborted"); assert("err_user_aborted"@.len() == 16);
    reveal_strlit("err_unknown_pkg_mgr"); assert("err_unknown_pkg_mgr"@.len() == 19);
    reveal_strlit("err_unsupported_pkg"); assert("err_unsupported_pkg"@.len() == 19);
    reveal_strlit("err_auto_update_only_debian"); assert("err_auto_update_only_debian"@.len() == 27);
    reveal_strlit("err_unknown_pkg_lynis"); assert("err_unknown_pkg_lynis"@.len() == 21);
    reveal_strlit("err_sshd_not_found"); assert("err_sshd_not_found"@.len() == 18);
    reveal_strlit("err_no_username"); assert("undo_pkg_remove"@[0] == 'u'); assert("err_no_username"@[0] == 'e');
    reveal_strlit("err_user_exists"); assert("undo_pkg_remove"@[0] == 'u'); assert("err_user_exists"@[0] == 'e');
    reveal_strlit("err_no_sudo_before_root"); assert("err_no_sudo_before_root"@.len() == 23);
    reveal_strlit("err_no_ssh_port"); assert("undo_pkg_remove"@[0] == 'u'); assert("err_no_ssh_port"@[0] == 'e');
    reveal_strlit("err_port_zero"); assert("err_port_zero"@.len() == 13);
    reveal_strlit("err_no_sudo_before_pw"); assert("err_no_sudo_before_pw"@.len() == 21);
    reveal_strlit("err_no_target_user"); assert("err_no_target_user"@.len() == 18);
    reveal_strlit("err_no_key_action"); assert("err_no_key_action"@.len() == 17);
    reveal_strlit("err_update_failed"); assert("err_update_failed"@.len() == 17);
    reveal_strlit("err_upgrade_failed"); assert("err_upgrade_failed"@.len() == 18);
    reveal_strlit("err_ufw_allow_failed"); assert("err_ufw_allow_failed"@.len() == 20);
    reveal_strlit("err_ufw_enable_failed"); assert("err_ufw_enable_failed"@.len() == 21);
    reveal_strlit("err_install_fail2ban"); assert("err_install_fail2ban"@.len() == 20);
    reveal_strlit("err_install_unattended"); assert("err_install_unattended"@.len() == 22);
    reveal_strlit("err_lynis_exec"); assert("err_lynis_exec"@.len() == 14);
    reveal_strlit("err_sshd_check"); assert("err_sshd_check"@.len() == 14);
    reveal_strlit("err_sshd_syntax"); assert("undo_pkg_remove"@[0] == 'u'); assert("err_sshd_syntax"@[0] == 'e');
    reveal_strlit("err_ssh_restart"); assert("undo_pkg_remove"@[0] == 'u'); assert("err_ssh_restart"@[0] == 'e');
    reveal_strlit("err_backup"); assert("err_backup"@.len() == 10);
    reveal_strlit("err_read"); assert("err_read"@.len() == 8);
    reveal_strlit("err_write"); assert("err_write"@.len() == 9);
    reveal_strlit("err_setup_signal"); assert("err_setup_signal"@.len() == 16);
    reveal_strlit("result_sys_updated"); assert("result_sys_updated"@.len() == 18);
    reveal_strlit("result_user_created"); assert("result_user_created"@.len() == 19);
    reveal_strlit("result_root_login_set"); assert("result_root_login_set"@.len() == 21);
    reveal_strlit("result_ssh_port_set"); assert("result_ssh_port_set"@.len() == 19);
    reveal_strlit("result_pw_auth_disabled"); assert("result_pw_auth_disabled"@.len() == 23);
    reveal_strlit("result_key_generated"); assert("result_key_generated"@.len() == 20);
    reveal_strlit("result_key_pasted"); assert("result_key_pasted"@.len() == 17);
    reveal_strlit("result_ufw_enabled"); assert("result_ufw_enabled"@.len() == 18);
    reveal_strlit("result_fail2ban_installed"); assert("result_fail2ban_installed"@.len() == 25);
    reveal_strlit("result_auto_updates_enabled"); assert("result_auto_updates_enabled"@.len() == 27);
    reveal_strlit("result_lynis_ok"); assert("undo_pkg_remove"@[0] == 'u'); assert("result_lynis_ok"@[0] == 'r');
    reveal_strlit("result_lynis_fail"); assert("result_lynis_fail"@.len() == 17);
    reveal_strlit("result_logwatch_installed"); assert("result_logwatch_installed"@.len() == 25);
    reveal_strlit("result_ssh_restarted"); assert("result_ssh_restarted"@.len() == 20);
    reveal_strlit("result_sshd_cfg_set"); assert("result_sshd_cfg_set"@.len() == 19);
    reveal_strlit("result_sshd_syntax_ok"); assert("result_sshd_syntax_ok"@.len() == 21);
    reveal_strlit("result_sshd_syntax_err"); assert("result_sshd_syntax_err"@.len() == 22);
    reveal_strlit("log_audit"); assert("log_audit"@.len() == 9);
    reveal_strlit("log_operation"); assert("log_operation"@.len() == 13);
    reveal_strlit("log_rollback"); assert("log_rollback"@.len() == 12);
    reveal_strlit("log_audit_start"); assert("undo_pkg_remove"@[0] == 'u'); assert("log_audit_start"@[0] == 'l');
    reveal_strlit("log_audit_done"); assert("log_audit_done"@.len() == 14);
    reveal_strlit("log_step_start"); assert("log_step_start"@.len() == 14);
    reveal_strlit("log_step_complete"); assert("log_step_complete"@.len() == 17);
    reveal_strlit("log_step_failed"); assert("undo_pkg_remove"@[0] == 'u'); assert("log_step_failed"@[0] == 'l');
    reveal_strlit("log_rollback_auto"); assert("log_rollback_auto"@.len() == 17);
    reveal_strlit("undo_user_remove"); assert("undo_user_remove"@.len() == 16);
    reveal_strlit("{pkg}");
    reveal_strlit("删除 {pkg}");
    assert("删除 {pkg}"@.subrange(3, 8) =~= "{pkg}"@);
    assert(match_at("删除 {pkg}"@, "{pkg}"@, 3));
    reveal_strlit("Remove {pkg}");
    assert("Remove {pkg}"@.subrange(7, 12) =~= "{pkg}"@);
    assert(match_at("Remove {pkg}"@, "{pkg}"@, 7));
    reveal_strlit("刪除 {pkg}");
    assert("刪除 {pkg}"@.subrange(3, 8) =~= "{pkg}"@);
    assert(match_at("刪除 {pkg}"@, "{pkg}"@, 3));
}

proof fn placeholders_undo_cmd()
    ensures
        zh_cn_text("undo_cmd"@) matches Some(t) && contains(t, "{desc}"@),
        en_text("undo_cmd"@) matches Some(t) && contains(t, "{desc}"@),
        zh_tw_text("undo_cmd"@) matches Some(t) && contains(t, "{desc}"@),
{
    reveal_strlit("undo_cmd"); assert("undo_cmd"@.len() == 8);
    reveal_strlit("lang_en"); assert("lang_en"@.len() == 7);
    reveal_strlit("lang_zh_cn"); assert("lang_zh_cn"@.len() == 10);
    reveal_strlit("lang_zh_tw"); assert("lang_zh_tw"@.len() == 10);
    reveal_strlit("select_language"); assert("select_language"@.len() == 15);
    reveal_strlit("select_mode"); assert("select_mode"@.len() == 11);
    reveal_strlit("mode_cli"); assert("undo_cmd"@[0] == 'u'); assert("mode_cli"@[0] == 'm');
    reveal_strlit("mode_tui"); assert("undo_cmd"@[0] == 'u'); assert("mode_tui"@[0] == 'm');
    reveal_strlit("unknown_arg"); assert("unknown_arg"@.len() == 11);
    reveal_strlit("app_title"); assert("app_title"@.len() == 9);
    reveal_strlit("step_system_update"); assert("step_system_update"@.len() == 18);
    reveal_strlit("step_user_creation"); assert("step_user_creation"@.len() == 18);
    reveal_strlit("step_ssh_root_login"); assert("step_ssh_root_login"@.len() == 19);
    reveal_strlit("step_ssh_port_change"); assert("step_ssh_port_change"@.len() == 20);
    reveal_strlit("step_ssh_password_auth"); assert("step_ssh_password_auth"@.len() == 22);
    reveal_strlit("step_ssh_key_setup"); assert("step_ssh_key_setup"@.len() == 18);
    reveal_strlit("step_ufw"); assert("undo_cmd"@[0] == 'u'); assert("step_ufw"@[0] == 's');
    reveal_strlit("step_fail2ban"); assert("step_fail2ban"@.len() == 13);
    reveal_strlit("step_auto_updates"); assert("step_auto_updates"@.len() == 17);
    reveal_strlit("step_security_scan"); assert("step_security_scan"@.len() == 18);
    reveal_strlit("step_log_audit"); assert("step_log_audit"@.len() == 14);
    reveal_strlit("step_restart_ssh"); assert("step_restart_ssh"@.len() == 16);
    reveal_strlit("audit_root"); assert("audit_root"@.len() == 10);
    reveal_strlit("audit_pkg_mgr"); assert("audit_pkg_mgr"@.len() == 13);
    reveal_strlit("audit_ssh_port"); assert("audit_ssh_port"@.len() == 14);
    reveal_strlit("audit_password_auth"); assert("audit_password_auth"@.len() == 19);
    reveal_strlit("audit_root_login"); assert("audit_root_login"@.len() == 16);
    reveal_strlit("audit_sudo_users"); assert("audit_sudo_users"@.len() == 16);
    reveal_strlit("audit_fail2ban"); assert("audit_fail2ban"@.len() == 14);
    reveal_strlit("audit_ufw"); assert("audit_ufw"@.len() == 9);
    reveal_strlit("audit_auto_updates"); assert("audit_auto_updates"@.len() == 18);
    reveal_strlit("audit_sys_update"); assert("audit_sys_update"@.len() == 16);
    reveal_strlit("audit_detail_root_ok"); assert("audit_detail_root_ok"@.len() == 20);
    reveal_strlit("audit_detail_root_missing"); assert("audit_detail_root_missing"@.len() == 25);
    reveal_strlit("audit_detail_pkg"); assert("audit_detail_pkg"@.len() == 16);
    reveal_strlit("audit_detail_port_safe"); assert("audit_detail_port_safe"@.len() == 22);
    reveal_strlit("audit_detail_port_missing"); assert("audit_detail_port_missing"@.len() == 25);
    reveal_strlit("audit_detail_pw_disabled"); assert("audit_detail_pw_disabled"@.len() == 24);
    reveal_strlit("audit_detail_pw_missing"); assert("audit_detail_pw_missing"@.len() == 23);
    reveal_strlit("audit_detail_root_disabled"); assert("audit_detail_root_disabled"@.len() == 26);
    reveal_strlit("audit_detail_root_missing_cfg"); assert("audit_detail_root_missing_cfg"@.len() == 29);
    reveal_strlit("audit_detail_sudo_missing"); assert("audit_detail_sudo_missing"@.len() == 25);
    reveal_strlit("audit_detail_sudo_ok"); assert("audit_detail_sudo_ok"@.len() == 20);
    reveal_strlit("audit_detail_fb_installed"); assert("audit_detail_fb_installed"@.len() == 25);
    reveal_strlit("audit_detail_fb_missing"); assert("audit_detail_fb_missing"@.len() == 23);
    reveal_strlit("audit_detail_ufw_enabled"); assert("audit_detail_ufw_enabled"@.len() == 24);
    reveal_strlit("audit_detail_ufw_missing"); assert("audit_detail_ufw_missing"@.len() == 24);
    reveal_strlit("audit_detail_au_enabled"); assert("audit_detail_au_enabled"@.len() == 23);
    reveal_strlit("audit_detail_au_missing"); assert("audit_detail_au_missing"@.len() == 23);
    reveal_strlit("audit_detail_sys_uptodate"); assert("audit_detail_sys_uptodate"@.len() == 25);
    reveal_strlit("audit_detail_sys_needs_update"); assert("audit_detail_sys_needs_update"@.len() == 29);
    reveal_strlit("status_safe"); assert("status_safe"@.len() == 11);
    reveal_strlit("status_partial"); assert("status_partial"@.len() == 14);
    reveal_strlit("status_missing"); assert("status_missing"@.len() == 14);
    reveal_strlit("status_needs_update"); assert("status_needs_update"@.len() == 19);
    reveal_strlit("pkg_apt"); assert("pkg_apt"@.len() == 7);
    reveal_strlit("pkg_yum"); assert("pkg_yum"@.len() == 7);
    reveal_strlit("pkg_dnf"); assert("pkg_dnf"@.len() == 7);
    reveal_strlit("pkg_unknown"); assert("pkg_unknown"@.len() == 11);
    reveal_strlit("err_permission_denied"); assert("err_permission_denied"@.len() == 21);
    reveal_strlit("err_cmd_failed"); assert("err_cmd_failed"@.len() == 14);
    reveal_strlit("err_parse_error"); assert("err_parse_error"@.len() == 15);
    reveal_strlit("err_precondition_failed"); assert("err_precondition_failed"@.len() == 23);
    reveal_strlit("err_user_aborted"); assert("err_user_aborted"@.len() == 16);
    reveal_strlit("err_unknown_pkg_mgr"); assert("err_unknown_pkg_mgr"@.len() == 19);
    reveal_strlit("err_unsupported_pkg"); assert("err_unsupported_pkg"@.len() == 19);
    reveal_strlit("err_auto_update_only_debian"); assert("err_auto_update_only_debian"@.len() == 27);
    reveal_strlit("err_unknown_pkg_lynis"); assert("err_unknown_pkg_lynis"@.len() == 21);
    reveal_strlit("err_sshd_not_found"); assert("err_sshd_not_found"@.len() == 18);
    reveal_strlit("err_no_username"); assert("err_no_username"@.len() == 15);
    reveal_strlit("err_user_exists"); assert("err_user_exists"@.len() == 15);
    reveal_strlit("err_no_sudo_before_root"); assert("err_no_sudo_before_root"@.len() == 23);
    reveal_strlit("err_no_ssh_port"); assert("err_no_ssh_port"@.len() == 15);
    reveal_strlit("err_port_zero"); assert("err_port_zero"@.len() == 13);
    reveal_strlit("err_no_sudo_before_pw"); assert("err_no_sudo_before_pw"@.len() == 21);
    reveal_strlit("err_no_target_user"); assert("err_no_target_user"@.len() == 18);
    reveal_strlit("err_no_key_action"); assert("err_no_key_action"@.len() == 17);
    reveal_strlit("err_update_failed"); assert("err_update_failed"@.len() == 17);
    reveal_strlit("err_upgrade_failed"); assert("err_upgrade_failed"@.len() == 18);
    reveal_strlit("err_ufw_allow_failed"); assert("err_ufw_allow_failed"@.len() == 20);
    reveal_strlit("err_ufw_enable_failed"); assert("err_ufw_enable_failed"@.len() == 21);
    reveal_strlit("err_install_fail2ban"); assert("err_install_fail2ban"@.len() == 20);
    reveal_strlit("err_install_unattended"); assert("err_install_unattended"@.len() == 22);
    reveal_strlit("err_lynis_exec"); assert("err_lynis_exec"@.len() == 14);
    reveal_strlit("err_sshd_check"); assert("err_sshd_check"@.len() == 14);
    reveal_strlit("err_sshd_syntax"); assert("err_sshd_syntax"@.len() == 15);
    reveal_strlit("err_ssh_restart"); assert("err_ssh_restart"@.len() == 15);
    reveal_strlit("err_backup"); assert("err_backup"@.len() == 10);
    reveal_strlit("err_read"); assert("undo_cmd"@[0] == 'u'); assert("err_read"@[0] == 'e');
    reveal_strlit("err_write"); assert("err_write"@.len() == 9);
    reveal_strlit("err_setup_signal"); assert("err_setup_signal"@.len() == 16);
    reveal_strlit("result_sys_updated"); assert("result_sys_updated"@.len() == 18);
    reveal_strlit("result_user_created"); assert("result_user_created"@.len() == 19);
    reveal_strlit("result_root_login_set"); assert("result_root_login_set"@.len() == 21);
    reveal_strlit("result_ssh_port_set"); assert("result_ssh_port_set"@.len() == 19);
    reveal_strlit("result_pw_auth_disabled"); assert("result_pw_auth_disabled"@.len() == 23);
    reveal_strlit("result_key_generated"); assert("result_key_generated"@.len() == 20);
    reveal_strlit("result_key_pasted"); assert("result_key_pasted"@.len() == 17);
    reveal_strlit("result_ufw_enabled"); assert("result_ufw_enabled"@.len() == 18);
    reveal_strlit("result_fail2ban_installed"); assert("result_fail2ban_installed"@.len() == 25);
    reveal_strlit("result_auto_updates_enabled"); assert("result_auto_updates_enabled"@.len() == 27);
    reveal_strlit("result_lynis_ok"); assert("result_lynis_ok"@.len() == 15);
    reveal_strlit("result_lynis_fail"); assert("result_lynis_fail"@.len() == 17);
    reveal_strlit("result_logwatch_installed"); assert("result_logwatch_installed"@.len() == 25);
    reveal_strlit("result_ssh_restarted"); assert("result_ssh_restarted"@.len() == 20);
    reveal_strlit("result_sshd_cfg_set"); assert("result_sshd_cfg_set"@.len() == 19);
    reveal_strlit("result_sshd_syntax_ok"); assert("result_sshd_syntax_ok"@.len() == 21);
    reveal_strlit("result_sshd_syntax_err"); assert("result_sshd_syntax_err"@.len() == 22);
    reveal_strlit("log_audit"); assert("log_audit"@.len() == 9);
    reveal_strlit("log_operation"); assert("log_operation"@.len() == 13);
    reveal_strlit("log_rollback"); assert("log_rollback"@.len() == 12);
    reveal_strlit("log_audit_start"); assert("log_audit_start"@.len() == 15);
    reveal_strlit("log_audit_done"); assert("log_audit_done"@.len() == 14);
    reveal_strlit("log_step_start"); assert("log_step_start"@.len() == 14);
    reveal_strlit("log_step_complete"); assert("log_step_complete"@.len() == 17);
    reveal_strlit("log_step_failed"); assert("log_step_failed"@.len() == 15);
    reveal_strlit("log_rollback_auto"); assert("log_rollback_auto"@.len() == 17);
    reveal_strlit("undo_user_remove"); assert("undo_user_remove"@.len() == 16);
    reveal_strlit("undo_pkg_remove"); assert("undo_pkg_remove"@.len() == 15);
    reveal_strlit("{desc}");
    reveal_strlit("{desc}");
    assert("{desc}"@.subrange(0, 6) =~= "{desc}"@);
    assert(match_at("{desc}"@, "{desc}"@, 0));
    reveal_strlit("{desc}");
    assert("{desc}"@.subrange(0, 6) =~= "{desc}"@);
    assert(match_at("{desc}"@, "{desc}"@, 0));
    reveal_strlit("{desc}");
    assert("{desc}"@.subrange(0, 6) =~= "{desc}"@);
    assert(match_at("{desc}"@, "{desc}"@, 0));
}

proof fn placeholders_undo_file_restore()
    ensures
        zh_cn_text("undo_file_restore"@) matches Some(t) && contains(t, "{key}"@),
        en_text("undo_file_restore"@) matches Some(t) && contains(t, "{key}"@),
        zh_tw_text("undo_file_restore"@) matches Some(t) && contains(t, "{key}"@),
{
    reveal_strlit("undo_file_restore"); assert("undo_file_restore"@.len() == 17);
    reveal_strlit("lang_en"); assert("lang_en"@.len() == 7);
    reveal_strlit("lang_zh_cn"); assert("lang_zh_cn"@.len() == 10);
    reveal_strlit("lang_zh_tw"); assert("lang_zh_tw"@.len() == 10);
    reveal_strlit("select_language"); assert("select_language"@.len() == 15);
    reveal_strlit("select_mode"); assert("select_mode"@.len() == 11);
    reveal_strlit("mode_cli"); assert("mode_cli"@.len() == 8);
    reveal_strlit("mode_tui"); assert("mode_tui"@.len() == 8);
    reveal_strlit("unknown_arg"); assert("unknown_arg"@.len() == 11);
    reveal_strlit("app_title"); assert("app_title"@.len() == 9);
    reveal_strlit("step_system_update"); assert("step_system_update"@.len() == 18);
    reveal_strlit("step_user_creation"); assert("step_user_creation"@.len() == 18);
    reveal_strlit("step_ssh_root_login"); assert("step_ssh_root_login"@.len() == 19);
    reveal_strlit("step_ssh_port_change"); assert("step_ssh_port_change"@.len() == 20);
    reveal_strlit("step_ssh_password_auth"); assert("step_ssh_password_auth"@.len() == 22);
    reveal_strlit("step_ssh_key_setup"); assert("step_ssh_key_setup"@.len() == 18);
    reveal_strlit("step_ufw"); assert("step_ufw"@.len() == 8);
    reveal_strlit("step_fail2ban"); assert("step_fail2ban"@.len() == 13);
    reveal_strlit("step_auto_updates"); assert("undo_file_restore"@[0] == 'u'); assert("step_auto_updates"@[0] == 's');
    reveal_strlit("step_security_scan"); assert("step_security_scan"@.len() == 18);
    reveal_strlit("step_log_audit"); assert("step_log_audit"@.len() == 14);
    reveal_strlit("step_restart_ssh"); assert("step_restart_ssh"@.len() == 16);
    reveal_strlit("audit_root"); assert("audit_root"@.len() == 10);
    reveal_strlit("audit_pkg_mgr"); assert("audit_pkg_mgr"@.len() == 13);
    reveal_strlit("audit_ssh_port"); assert("audit_ssh_port"@.len() == 14);
    reveal_strlit("audit_password_auth"); assert("audit_password_auth"@.len() == 19);
    reveal_strlit("audit_root_login"); assert("audit_root_login"@.len() == 16);
    reveal_strlit("audit_sudo_users"); assert("audit_sudo_users"@.len() == 16);
    reveal_strlit("audit_fail2ban"); assert("audit_fail2ban"@.len() == 14);
    reveal_strlit("audit_ufw"); assert("audit_ufw"@.len() == 9);
    reveal_strlit("audit_auto_updates"); assert("audit_auto_updates"@.len() == 18);
    reveal_strlit("audit_sys_update"); assert("audit_sys_update"@.len() == 16);
    reveal_strlit("audit_detail_root_ok"); assert("audit_detail_root_ok"@.len() == 20);
    reveal_strlit("audit_detail_root_missing"); assert("audit_detail_root_missing"@.len() == 25);
    reveal_strlit("audit_detail_pkg"); assert("audit_detail_pkg"@.len() == 16);
    reveal_strlit("audit_detail_port_safe"); assert("audit_detail_port_safe"@.len() == 22);
    reveal_strlit("audit_detail_port_missing"); assert("audit_detail_port_missing"@.len() == 25);
    reveal_strlit("audit_detail_pw_disabled"); assert("audit_detail_pw_disabled"@.len() == 24);
    reveal_strlit("audit_detail_pw_missing"); assert("audit_detail_pw_missing"@.len() == 23);
    reveal_strlit("audit_detail_root_disabled"); assert("audit_detail_root_disabled"@.len() == 26);
    reveal_strlit("audit_detail_root_missing_cfg"); assert("audit_detail_root_missing_cfg"@.len() == 29);
    reveal_strlit("audit_detail_sudo_missing"); assert("audit_detail_sudo_missing"@.len() == 25);
    reveal_strlit("audit_detail_sudo_ok"); assert("audit_detail_sudo_ok"@.len() == 20);
    reveal_strlit("audit_detail_fb_installed"); assert("audit_detail_fb_installed"@.len() == 25);
    reveal_strlit("audit_detail_fb_missing"); assert("audit_detail_fb_missing"@.len() == 23);
    reveal_strlit("audit_detail_ufw_enabled"); assert("audit_detail_ufw_enabled"@.len() == 24);
    reveal_strlit("audit_detail_ufw_missing"); assert("audit_detail_ufw_missing"@.len() == 24);
    reveal_strlit("audit_detail_au_enabled"); assert("audit_detail_au_enabled"@.len() == 23);
    reveal_strlit("audit_detail_au_missing"); assert("audit_detail_au_missing"@.len() == 23);
    reveal_strlit("audit_detail_sys_uptodate"); assert("audit_detail_sys_uptodate"@.len() == 25);
    reveal_strlit("audit_detail_sys_needs_update"); assert("audit_detail_sys_needs_update"@.len() == 29);
    reveal_strlit("status_safe"); assert("status_safe"@.len() == 11);
    reveal_strlit("status_partial"); assert("status_partial"@.len() == 14);
    reveal_strlit("status_missing"); assert("status_missing"@.len() == 14);
    reveal_strlit("status_needs_update"); assert("status_needs_update"@.len() == 19);
    reveal_strlit("pkg_apt"); assert("pkg_apt"@.len() == 7);
    reveal_strlit("pkg_yum"); assert("pkg_yum"@.len() == 7);
    reveal_strlit("pkg_dnf"); assert("pkg_dnf"@.len() == 7);
    reveal_strlit("pkg_unknown"); assert("pkg_unknown"@.len() == 11);
    reveal_strlit("err_permission_denied"); assert("err_permission_denied"@.len() == 21);
    reveal_strlit("err_cmd_failed"); assert("err_cmd_failed"@.len() == 14);
    reveal_strlit("err_parse_error"); assert("err_parse_error"@.len() == 15);
    reveal_strlit("err_precondition_failed"); assert("err_precondition_failed"@.len() == 23);
    reveal_strlit("err_user_aborted"); assert("err_user_aborted"@.len() == 16);
    reveal_strlit("err_unknown_pkg_mgr"); assert("err_unknown_pkg_mgr"@.len() == 19);
    reveal_strlit("err_unsupported_pkg"); assert("err_unsupported_pkg"@.len() == 19);
    reveal_strlit("err_auto_update_only_debian"); assert("err_auto_update_only_debian"@.len() == 27);
    reveal_strlit("err_unknown_pkg_lynis"); assert("err_unknown_pkg_lynis"@.len() == 21);
    reveal_strlit("err_sshd_not_found"); assert("err_sshd_not_found"@.len() == 18);
    reveal_strlit("err_no_username"); assert("err_no_username"@.len() == 15);
    reveal_strlit("err_user_exists"); assert("err_user_exists"@.len() == 15);
    reveal_strlit("err_no_sudo_before_root"); assert("err_no_sudo_before_root"@.len() == 23);
    reveal_strlit("err_no_ssh_port"); assert("err_no_ssh_port"@.len() == 15);
    reveal_strlit("err_port_zero"); assert("err_port_zero"@.len() == 13);
    reveal_strlit("err_no_sudo_before_pw"); assert("err_no_sudo_before_pw"@.len() == 21);
    reveal_strlit("err_no_target_user"); assert("err_no_target_user"@.len() == 18);
    reveal_strlit("err_no_key_action"); assert("undo_file_restore"@[0] == 'u'); assert("err_no_key_action"@[0] == 'e');
    reveal_strlit("err_update_failed"); assert("undo_file_restore"@[0] == 'u'); assert("err_update_failed"@[0] == 'e');
    reveal_strlit("err_upgrade_failed"); assert("err_upgrade_failed"@.len() == 18);
    reveal_strlit("err_ufw_allow_failed"); assert("err_ufw_allow_failed"@.len() == 20);
    reveal_strlit("err_ufw_enable_failed"); assert("err_ufw_enable_failed"@.len() == 21);
    reveal_strlit("err_install_fail2ban"); assert("err_install_fail2ban"@.len() == 20);
    reveal_strlit("err_install_unattended"); assert("err_install_unattended"@.len() == 22);
    reveal_strlit("err_lynis_exec"); assert("err_lynis_exec"@.len() == 14);
    reveal_strlit("err_sshd_check"); assert("err_sshd_check"@.len() == 14);
    reveal_strlit("err_sshd_syntax"); assert("err_sshd_syntax"@.len() == 15);
    reveal_strlit("err_ssh_restart"); assert("err_ssh_restart"@.len() == 15);
    reveal_strlit("err_backup"); assert("err_backup"@.len() == 10);
    reveal_strlit("err_read"); assert("err_read"@.len() == 8);
    reveal_strlit("err_write"); assert("err_write"@.len() == 9);
    reveal_strlit("err_setup_signal"); assert("err_setup_signal"@.len() == 16);
    reveal_strlit("result_sys_updated"); assert("result_sys_updated"@.len() == 18);
    reveal_strlit("result_user_created"); assert("result_user_created"@.len() == 19);
    reveal_strlit("result_root_login_set"); assert("result_root_login_set"@.len() == 21);
    reveal_strlit("result_ssh_port_set"); assert("result_ssh_port_set"@.len() == 19);
    reveal_strlit("result_pw_auth_disabled"); assert("result_pw_auth_disabled"@.len() == 23);
    reveal_strlit("result_key_generated"); assert("result_key_generated"@.len() == 20);
    reveal_strlit("result_key_pasted"); assert("undo_file_restore"@[0] == 'u'); assert("result_key_pasted"@[0] == 'r');
    reveal_strlit("result_ufw_enabled"); assert("result_ufw_enabled"@.len() == 18);
    reveal_strlit("result_fail2ban_installed"); assert("result_fail2ban_installed"@.len() == 25);
    reveal_strlit("result_auto_updates_enabled"); assert("result_auto_updates_enabled"@.len() == 27);
    reveal_strlit("result_lynis_ok"); assert("result_lynis_ok"@.len() == 15);
    reveal_strlit("result_lynis_fail"); assert("undo_file_restore"@[0] == 'u'); assert("result_lynis_fail"@[0] == 'r');
    reveal_strlit("result_logwatch_installed"); assert("result_logwatch_installed"@.len() == 25);
    reveal_strlit("result_ssh_restarted"); assert("result_ssh_restarted"@.len() == 20);
    reveal_strlit("result_sshd_cfg_set"); assert("result_sshd_cfg_set"@.len() == 19);
    reveal_strlit("result_sshd_syntax_ok"); assert("result_sshd_syntax_ok"@.len() == 21);
    reveal_strlit("result_sshd_syntax_err"); assert("result_sshd_syntax_err"@.len() == 22);
    reveal_strlit("log_audit"); assert("log_audit"@.len() == 9);
    reveal_strlit("log_operation"); assert("log_operation"@.len() == 13);
    reveal_strlit("log_rollback"); assert("log_rollback"@.len() == 12);
    reveal_strlit("log_audit_start"); assert("log_audit_start"@.len() == 15);
    reveal_strlit("log_audit_done"); assert("log_audit_done"@.len() == 14);
    reveal_strlit("log_step_start"); assert("log_step_start"@.len() == 14);
    reveal_strlit("log_step_complete"); assert("undo_file_restore"@[0] == 'u'); assert("log_step_complete"@[0] == 'l');
    reveal_strlit("log_step_failed"); assert("log_step_failed"@.len() == 15);
    reveal_strlit("log_rollback_auto"); assert("undo_file_restore"@[0] == 'u'); assert("log_rollback_auto"@[0] == 'l');
    reveal_strlit("undo_user_remove"); assert("undo_user_remove"@.len() == 16);
    reveal_strlit("undo_pkg_remove"); assert("undo_pkg_remove"@.len() == 15);
    reveal_strlit("undo_cmd"); assert("undo_cmd"@.len() == 8);
    reveal_strlit("{key}");
    reveal_strlit("恢复 sshd_config（{key}）");
    assert("恢复 sshd_config（{key}）"@.subrange(15, 20) =~= "{key}"@);
    assert(match_at("恢复 sshd_config（{key}）"@, "{key}"@, 15));
    reveal_strlit("Restore sshd_config ({key})");
    assert("Restore sshd_config ({key})"@.subrange(21, 26) =~= "{key}"@);
    assert(match_at("Restore sshd_config ({key})"@, "{key}"@, 21));
    reveal_strlit("恢復 sshd_config（{key}）");
    assert("恢復 sshd_config（{key}）"@.subrange(15, 20) =~= "{key}"@);
    assert(match_at("恢復 sshd_config（{key}）"@, "{key}"@, 15));
}

proof fn placeholders_undo_ufw_delete()
    ensures
        zh_cn_text("undo_ufw_delete"@) matches Some(t) && contains(t, "{port}"@),
        en_text("undo_ufw_delete"@) matches Some(t) && contains(t, "{port}"@),
        zh_tw_text("undo_ufw_delete"@) matches Some(t) && contains(t, "{port}"@),
{
    reveal_strlit("undo_ufw_delete"); assert("undo_ufw_delete"@.len() == 15);
    reveal_strlit("lang_en"); assert("lang_en"@.len() == 7);
    reveal_strlit("lang_zh_cn"); assert("lang_zh_cn"@.len() == 10);
    reveal_strlit("lang_zh_tw"); assert("lang_zh_tw"@.len() == 10);
    reveal_strlit("select_language"); assert("undo_ufw_delete"@[0] == 'u'); assert("select_language"@[0] == 's');
    reveal_strlit("select_mode"); assert("select_mode"@.len() == 11);
    reveal_strlit("mode_cli"); assert("mode_cli"@.len() == 8);
    reveal_strlit("mode_tui"); assert("mode_tui"@.len() == 8);
    reveal_strlit("unknown_arg"); assert("unknown_arg"@.len() == 11);
    reveal_strlit("app_title"); assert("app_title"@.len() == 9);
    reveal_strlit("step_system_update"); assert("step_system_update"@.len() == 18);
    reveal_strlit("step_user_creation"); assert("step_user_creation"@.len() == 18);
    reveal_strlit("step_ssh_root_login"); assert("step_ssh_root_login"@.len() == 19);
    reveal_strlit("step_ssh_port_change"); assert("step_ssh_port_change"@.len() == 20);
    reveal_strlit("step_ssh_password_auth"); assert("step_ssh_password_auth"@.len() == 22);
    reveal_strlit("step_ssh_key_setup"); assert("step_ssh_key_setup"@.len() == 18);
    reveal_strlit("step_ufw"); assert("step_ufw"@.len() == 8);
    reveal_strlit("step_fail2ban"); assert("step_fail2ban"@.len() == 13);
    reveal_strlit("step_auto_updates"); assert("step_auto_updates"@.len() == 17);
    reveal_strlit("step_security_scan"); assert("step_security_scan"@.len() == 18);
    reveal_strlit("step_log_audit"); assert("step_log_audit"@.len() == 14);
    reveal_strlit("step_restart_ssh"); assert("step_restart_ssh"@.len() == 16);
    reveal_strlit("audit_root"); assert("audit_root"@.len() == 10);
    reveal_strlit("audit_pkg_mgr"); assert("audit_pkg_mgr"@.len() == 13);
    reveal_strlit("audit_ssh_port"); assert("audit_ssh_port"@.len() == 14);
    reveal_strlit("audit_password_auth"); assert("audit_password_auth"@.len() == 19);
    reveal_strlit("audit_root_login"); assert("audit_root_login"@.len() == 16);
    reveal_strlit("audit_sudo_users"); assert("audit_sudo_users"@.len() == 16);
    reveal_strlit("audit_fail2ban"); assert("audit_fail2ban"@.len() == 14);
    reveal_strlit("audit_ufw"); assert("audit_ufw"@.len() == 9);
    reveal_strlit("audit_auto_updates"); assert("audit_auto_updates"@.len() == 18);
    reveal_strlit("audit_sys_update"); assert("audit_sys_update"@.len() == 16);
    reveal_strlit("audit_detail_root_ok"); assert("audit_detail_root_ok"@.len() == 20);
    reveal_strlit("audit_detail_root_missing"); assert("audit_detail_root_missing"@.len() == 25);
    reveal_strlit("audit_detail_pkg"); assert("audit_detail_pkg"@.len() == 16);
    reveal_strlit("audit_detail_port_safe"); assert("audit_detail_port_safe"@.len() == 22);
    reveal_strlit("audit_detail_port_missing"); assert("audit_detail_port_missing"@.len() == 25);
    reveal_strlit("audit_detail_pw_disabled"); assert("audit_detail_pw_disabled"@.len() == 24);
    reveal_strlit("audit_detail_pw_missing"); assert("audit_detail_pw_missing"@.len() == 23);
    reveal_strlit("audit_detail_root_disabled"); assert("audit_detail_root_disabled"@.len() == 26);
    reveal_strlit("audit_detail_root_missing_cfg"); assert("audit_detail_root_missing_cfg"@.len() == 29);
    reveal_strlit("audit_detail_sudo_missing"); assert("audit_detail_sudo_missing"@.len() == 25);
    reveal_strlit("audit_detail_sudo_ok"); assert("audit_detail_sudo_ok"@.len() == 20);
    reveal_strlit("audit_detail_fb_installed"); assert("audit_detail_fb_installed"@.len() == 25);
    reveal_strlit("audit_detail_fb_missing"); assert("audit_detail_fb_missing"@.len() == 23);
    reveal_strlit("audit_detail_ufw_enabled"); assert("audit_detail_ufw_enabled"@.len() == 24);
    reveal_strlit("audit_detail_ufw_missing"); assert("audit_detail_ufw_missing"@.len() == 24);
    reveal_strlit("audit_detail_au_enabled"); assert("audit_detail_au_enabled"@.len() == 23);
    reveal_strlit("audit_detail_au_missing"); assert("audit_detail_au_missing"@.len() == 23);
    reveal_strlit("audit_detail_sys_uptodate"); assert("audit_detail_sys_uptodate"@.len() == 25);
    reveal_strlit("audit_detail_sys_needs_update"); assert("audit_detail_sys_needs_update"@.len() == 29);
    reveal_strlit("status_safe"); assert("status_safe"@.len() == 11);
    reveal_strlit("status_partial"); assert("status_partial"@.len() == 14);
    reveal_strlit("status_missing"); assert("status_missing"@.len() == 14);
    reveal_strlit("status_needs_update"); assert("status_needs_update"@.len() == 19);
    reveal_strlit("pkg_apt"); assert("pkg_apt"@.len() == 7);
    reveal_strlit("pkg_yum"); assert("pkg_yum"@.len() == 7);
    reveal_strlit("pkg_dnf"); assert("pkg_dnf"@.len() == 7);
    reveal_strlit("pkg_unknown"); assert("pkg_unknown"@.len() == 11);
    reveal_strlit("err_permission_denied"); assert("err_permission_denied"@.len() == 21);
    reveal_strlit("err_cmd_failed"); assert("err_cmd_failed"@.len() == 14);
    reveal_strlit("err_parse_error"); assert("undo_ufw_delete"@[0] == 'u'); assert("err_parse_error"@[0] == 'e');
    reveal_strlit("err_precondition_failed"); assert("err_precondition_failed"@.len() == 23);
    reveal_strlit("err_user_aborted"); assert("err_user_aborted"@.len() == 16);
    reveal_strlit("err_unknown_pkg_mgr"); assert("err_unknown_pkg_mgr"@.len() == 19);
    reveal_strlit("err_unsupported_pkg"); assert("err_unsupported_pkg"@.len() == 19);
    reveal_strlit("err_auto_update_only_debian"); assert("err_auto_update_only_debian"@.len() == 27);
    reveal_strlit("err_unknown_pkg_lynis"); assert("err_unknown_pkg_lynis"@.len() == 21);
    reveal_strlit("err_sshd_not_found"); assert("err_sshd_not_found"@.len() == 18);
    reveal_strlit("err_no_username"); assert("undo_ufw_delete"@[0] == 'u'); assert("err_no_username"@[0] == 'e');
    reveal_strlit("err_user_exists"); assert("undo_ufw_delete"@[0] == 'u'); assert("err_user_exists"@[0] == 'e');
    reveal_strlit("err_no_sudo_before_root"); assert("err_no_sudo_before_root"@.len() == 23);
    reveal_strlit("err_no_ssh_port"); assert("undo_ufw_delete"@[0] == 'u'); assert("err_no_ssh_port"@[0] == 'e');
    reveal_strlit("err_port_zero"); assert("err_port_zero"@.len() == 13);
    reveal_strlit("err_no_sudo_before_pw"); assert("err_no_sudo_before_pw"@.len() == 21);
    reveal_strlit("err_no_target_user"); assert("err_no_target_user"@.len() == 18);
    reveal_strlit("err_no_key_action"); assert("err_no_key_action"@.len() == 17);
    reveal_strlit("err_update_failed"); assert("err_update_failed"@.len() == 17);
    reveal_strlit("err_upgrade_failed"); assert("err_upgrade_failed"@.len() == 18);
    reveal_strlit("err_ufw_allow_failed"); assert("err_ufw_allow_failed"@.len() == 20);
    reveal_strlit("err_ufw_enable_failed"); assert("err_ufw_enable_failed"@.len() == 21);
    reveal_strlit("err_install_fail2ban"); assert("err_install_fail2ban"@.len() == 20);
    reveal_strlit("err_install_unattended"); assert("err_install_unattended"@.len() == 22);
    reveal_strlit("err_lynis_exec"); assert("err_lynis_exec"@.len() == 14);
    reveal_strlit("err_sshd_check"); assert("err_sshd_check"@.len() == 14);
    reveal_strlit("err_sshd_syntax"); assert("undo_ufw_delete"@[0] == 'u'); assert("err_sshd_syntax"@[0] == 'e');
    reveal_strlit("err_ssh_restart"); assert("undo_ufw_delete"@[0] == 'u'); assert("err_ssh_restart"@[0] == 'e');
    reveal_strlit("err_backup"); assert("err_backup"@.len() == 10);
    reveal_strlit("err_read"); assert("err_read"@.len() == 8);
    reveal_strlit("err_write"); assert("err_write"@.len() == 9);
    reveal_strlit("err_setup_signal"); assert("err_setup_signal"@.len() == 16);
    reveal_strlit("result_sys_updated"); assert("result_sys_updated"@.len() == 18);
    reveal_strlit("result_user_created"); assert("result_user_created"@.len() == 19);
    reveal_strlit("result_root_login_set"); assert("result_root_login_set"@.len() == 21);
    reveal_strlit("result_ssh_port_set"); assert("result_ssh_port_set"@.len() == 19);
    reveal_strlit("result_pw_auth_disabled"); assert("result_pw_auth_disabled"@.len() == 23);
    reveal_strlit("result_key_generated"); assert("result_key_generated"@.len() == 20);
    reveal_strlit("result_key_pasted"); assert("result_key_pasted"@.len() == 17);
    reveal_strlit("result_ufw_enabled"); assert("result_ufw_enabled"@.len() == 18);
    reveal_strlit("result_fail2ban_installed"); assert("result_fail2ban_installed"@.len() == 25);
    reveal_strlit("result_auto_updates_enabled"); assert("result_auto_updates_enabled"@.len() == 27);
    reveal_strlit("result_lynis_ok"); assert("undo_ufw_delete"@[0] == 'u'); assert("result_lynis_ok"@[0] == 'r');
    reveal_strlit("result_lynis_fail"); assert("result_lynis_fail"@.len() == 17);
    reveal_strlit("result_logwatch_installed"); assert("result_logwatch_installed"@.len() == 25);
    reveal_strlit("result_ssh_restarted"); assert("result_ssh_restarted"@.len() == 20);
    reveal_strlit("result_sshd_cfg_set"); assert("result_sshd_cfg_set"@.len() == 19);
    reveal_strlit("result_sshd_syntax_ok"); assert("result_sshd_syntax_ok"@.len() == 21);
    reveal_strlit("result_sshd_syntax_err"); assert("result_sshd_syntax_err"@.len() == 22);
    reveal_strlit("log_audit"); assert("log_audit"@.len() == 9);
    reveal_strlit("log_operation"); assert("log_operation"@.len() == 13);
    reveal_strlit("log_rollback"); assert("log_rollback"@.len() == 12);
    reveal_strlit("log_audit_start"); assert("undo_ufw_delete"@[0] == 'u'); assert("log_audit_start"@[0] == 'l');
    reveal_strlit("log_audit_done"); assert("log_audit_done"@.len() == 14);
    reveal_strlit("log_step_start"); assert("log_step_start"@.len() == 14);
    reveal_strlit("log_step_complete"); assert("log_step_complete"@.len() == 17);
    reveal_strlit("log_step_failed"); assert("undo_ufw_delete"@[0] == 'u'); assert("log_step_failed"@[0] == 'l');
    reveal_strlit("log_rollback_auto"); assert("log_rollback_auto"@.len() == 17);
    reveal_strlit("undo_user_remove"); assert("undo_user_remove"@.len() == 16);
    reveal_strlit("undo_pkg_remove"); assert("undo_ufw_delete"@[5] == 'u'); assert("undo_pkg_remove"@[5] == 'p');
    reveal_strlit("undo_cmd"); assert("undo_cmd"@.len() == 8);
    reveal_strlit("undo_file_restore"); assert("undo_file_restore"@.len() == 17);
    reveal_strlit("undo_ufw_disable"); assert("undo_ufw_disable"@.len() == 16);
    reveal_strlit("{port}");
    reveal_strlit("删除 UFW 端口 {port} 放行规则");
    assert("删除 UFW 端口 {port} 放行规则"@.subrange(10, 16) =~= "{port}"@);
    assert(match_at("删除 UFW 端口 {port} 放行规则"@, "{port}"@, 10));
    reveal_strlit("Delete UFW port {port} allow rule");
    assert("Delete UFW port {port} allow rule"@.subrange(16, 22) =~= "{port}"@);
    assert(match_at("Delete UFW port {port} allow rule"@, "{port}"@, 16));
    reveal_strlit("刪除 UFW 連接埠 {port} 放行規則");
    assert("刪除 UFW 連接埠 {port} 放行規則"@.subrange(11, 17) =~= "{port}"@);
    assert(match_at("刪除 UFW 連接埠 {port} 放行規則"@, "{port}"@, 11));
}

proof fn placeholders_undo_key_delete()
    ensures
        zh_cn_text("undo_key_delete"@) matches Some(t) && contains(t, "{user}"@),
        en_text("undo_key_delete"@) matches Some(t) && contains(t, "{user}"@),
        zh_tw_text("undo_key_delete"@) matches Some(t) && contains(t, "{user}"@),
{
    reveal_strlit("undo_key_delete"); assert("undo_key_delete"@.len() == 15);
    reveal_strlit("lang_en"); assert("lang_en"@.len() == 7);
    reveal_strlit("lang_zh_cn"); assert("lang_zh_cn"@.len() == 10);
    reveal_strlit("lang_zh_tw"); assert("lang_zh_tw"@.len() == 10);
    reveal_strlit("select_language"); assert("undo_key_delete"@[0] == 'u'); assert("select_language"@[0] == 's');
    reveal_strlit("select_mode"); assert("select_mode"@.len() == 11);
    reveal_strlit("mode_cli"); assert("mode_cli"@.len() == 8);
    reveal_strlit("mode_tui"); assert("mode_tui"@.len() == 8);
    reveal_strlit("unknown_arg"); assert("unknown_arg"@.len() == 11);
    reveal_strlit("app_title"); assert("app_title"@.len() == 9);
    reveal_strlit("step_system_update"); assert("step_system_update"@.len() == 18);
    reveal_strlit("step_user_creation"); assert("step_user_creation"@.len() == 18);
    reveal_strlit("step_ssh_root_login"); assert("step_ssh_root_login"@.len() == 19);
    reveal_strlit("step_ssh_port_change"); assert("step_ssh_port_change"@.len() == 20);
    reveal_strlit("step_ssh_password_auth"); assert("step_ssh_password_auth"@.len() == 22);
    reveal_strlit("step_ssh_key_setup"); assert("step_ssh_key_setup"@.len() == 18);
    reveal_strlit("step_ufw"); assert("step_ufw"@.len() == 8);
    reveal_strlit("step_fail2ban"); assert("step_fail2ban"@.len() == 13);
    reveal_strlit("step_auto_updates"); assert("step_auto_updates"@.len() == 17);
    reveal_strlit("step_security_scan"); assert("step_security_scan"@.len() == 18);
    reveal_strlit("step_log_audit"); assert("step_log_audit"@.len() == 14);
    reveal_strlit("step_restart_ssh"); assert("step_restart_ssh"@.len() == 16);
    reveal_strlit("audit_root"); assert("audit_root"@.len() == 10);
    reveal_strlit("audit_pkg_mgr"); assert("audit_pkg_mgr"@.len() == 13);
    reveal_strlit("audit_ssh_port"); assert("audit_ssh_port"@.len() == 14);
    reveal_strlit("audit_password_auth"); assert("audit_password_auth"@.len() == 19);
    reveal_strlit("audit_root_login"); assert("audit_root_login"@.len() == 16);
    reveal_strlit("audit_sudo_users"); assert("audit_sudo_users"@.len() == 16);
    reveal_strlit("audit_fail2ban"); assert("audit_fail2ban"@.len() == 14);
    reveal_strlit("audit_ufw"); assert("audit_ufw"@.len() == 9);
    reveal_strlit("audit_auto_updates"); assert("audit_auto_updates"@.len() == 18);
    reveal_strlit("audit_sys_update"); assert("audit_sys_update"@.len() == 16);
    reveal_strlit("audit_detail_root_ok"); assert("audit_detail_root_ok"@.len() == 20);
    reveal_strlit("audit_detail_root_missing"); assert("audit_detail_root_missing"@.len() == 25);
    reveal_strlit("audit_detail_pkg"); assert("audit_detail_pkg"@.len() == 16);
    reveal_strlit("audit_detail_port_safe"); assert("audit_detail_port_safe"@.len() == 22);
    reveal_strlit("audit_detail_port_missing"); assert("audit_detail_port_missing"@.len() == 25);
    reveal_strlit("audit_detail_pw_disabled"); assert("audit_detail_pw_disabled"@.len() == 24);
    reveal_strlit("audit_detail_pw_missing"); assert("audit_detail_pw_missing"@.len() == 23);
    reveal_strlit("audit_detail_root_disabled"); assert("audit_detail_root_disabled"@.len() == 26);
    reveal_strlit("audit_detail_root_missing_cfg"); assert("audit_detail_root_missing_cfg"@.len() == 29);
    reveal_strlit("audit_detail_sudo_missing"); assert("audit_detail_sudo_missing"@.len() == 25);
    reveal_strlit("audit_detail_sudo_ok"); assert("audit_detail_sudo_ok"@.len() == 20);
    reveal_strlit("audit_detail_fb_installed"); assert("audit_detail_fb_installed"@.len() == 25);
    reveal_strlit("audit_detail_fb_missing"); assert("audit_detail_fb_missing"@.len() == 23);
    reveal_strlit("audit_detail_ufw_enabled"); assert("audit_detail_ufw_enabled"@.len() == 24);
    reveal_strlit("audit_detail_ufw_missing"); assert("audit_detail_ufw_missing"@.len() == 24);
    reveal_strlit("audit_detail_au_enabled"); assert("audit_detail_au_enabled"@.len() == 23);
    reveal_strlit("audit_detail_au_missing"); assert("audit_detail_au_missing"@.len() == 23);
    reveal_strlit("audit_detail_sys_uptodate"); assert("audit_detail_sys_uptodate"@.len() == 25);
    reveal_strlit("audit_detail_sys_needs_update"); assert("audit_detail_sys_needs_update"@.len() == 29);
    reveal_strlit("status_safe"); assert("status_safe"@.len() == 11);
    reveal_strlit("status_partial"); assert("status_partial"@.len() == 14);
    reveal_strlit("status_missing"); assert("status_missing"@.len() == 14);
    reveal_strlit("status_needs_update"); assert("status_needs_update"@.len() == 19);
    reveal_strlit("pkg_apt"); assert("pkg_apt"@.len() == 7);
    reveal_strlit("pkg_yum"); assert("pkg_yum"@.len() == 7);
    reveal_strlit("pkg_dnf"); assert("pkg_dnf"@.len() == 7);
    reveal_strlit("pkg_unknown"); assert("pkg_unknown"@.len() == 11);
    reveal_strlit("err_permission_denied"); assert("err_permission_denied"@.len() == 21);
    reveal_strlit("err_cmd_failed"); assert("err_cmd_failed"@.len() == 14);
    reveal_strlit("err_parse_error"); assert("undo_key_delete"@[0] == 'u'); assert("err_parse_error"@[0] == 'e');
    reveal_strlit("err_precondition_failed"); assert("err_precondition_failed"@.len() == 23);
    reveal_strlit("err_user_aborted"); assert("err_user_aborted"@.len() == 16);
    reveal_strlit("err_unknown_pkg_mgr"); assert("err_unknown_pkg_mgr"@.len() == 19);
    reveal_strlit("err_unsupported_pkg"); assert("err_unsupported_pkg"@.len() == 19);
    reveal_strlit("err_auto_update_only_debian"); assert("err_auto_update_only_debian"@.len() == 27);
    reveal_strlit("err_unknown_pkg_lynis"); assert("err_unknown_pkg_lynis"@.len() == 21);
    reveal_strlit("err_sshd_not_found"); assert("err_sshd_not_found"@.len() == 18);
    reveal_strlit("err_no_username"); assert("undo_key_delete"@[0] == 'u'); assert("err_no_username"@[0] == 'e');
    reveal_strlit("err_user_exists"); assert("undo_key_delete"@[0] == 'u'); assert("err_user_exists"@[0] == 'e');
    reveal_strlit("err_no_sudo_before_root"); assert("err_no_sudo_before_root"@.len() == 23);
    reveal_strlit("err_no_ssh_port"); assert("undo_key_delete"@[0] == 'u'); assert("err_no_ssh_port"@[0] == 'e');
    reveal_strlit("err_port_zero"); assert("err_port_zero"@.len() == 13);
    reveal_strlit("err_no_sudo_before_pw"); assert("err_no_sudo_before_pw"@.len() == 21);
    reveal_strlit("err_no_target_user"); assert("err_no_target_user"@.len() == 18);
    reveal_strlit("err_no_key_action"); assert("err_no_key_action"@.len() == 17);
    reveal_strlit("err_update_failed"); assert("err_update_failed"@.len() == 17);
    reveal_strlit("err_upgrade_failed"); assert("err_upgrade_failed"@.len() == 18);
    reveal_strlit("err_ufw_allow_failed"); assert("err_ufw_allow_failed"@.len() == 20);
    reveal_strlit("err_ufw_enable_failed"); assert("err_ufw_enable_failed"@.len() == 21);
    reveal_strlit("err_install_fail2ban"); assert("err_install_fail2ban"@.len() == 20);
    reveal_strlit("err_install_unattended"); assert("err_install_unattended"@.len() == 22);
    reveal_strlit("err_lynis_exec"); assert("err_lynis_exec"@.len() == 14);
    reveal_strlit("err_sshd_check"); assert("err_sshd_check"@.len() == 14);
    reveal_strlit("err_sshd_syntax"); assert("undo_key_delete"@[0] == 'u'); assert("err_sshd_syntax"@[0] == 'e');
    reveal_strlit("err_ssh_restart"); assert("undo_key_delete"@[0] == 'u'); assert("err_ssh_restart"@[0] == 'e');
    reveal_strlit("err_backup"); assert("err_backup"@.len() == 10);
    reveal_strlit("err_read"); assert("err_read"@.len() == 8);
    reveal_strlit("err_write"); assert("err_write"@.len() == 9);
    reveal_strlit("err_setup_signal"); assert("err_setup_signal"@.len() == 16);
    reveal_strlit("result_sys_updated"); assert("result_sys_updated"@.len() == 18);
    reveal_strlit("result_user_created"); assert("result_user_created"@.len() == 19);
    reveal_strlit("result_root_login_set"); assert("result_root_login_set"@.len() == 21);
    reveal_strlit("result_ssh_port_set"); assert("result_ssh_port_set"@.len() == 19);
    reveal_strlit("result_pw_auth_disabled"); assert("result_pw_auth_disabled"@.len() == 23);
    reveal_strlit("result_key_generated"); assert("result_key_generated"@.len() == 20);
    reveal_strlit("result_key_pasted"); assert("result_key_pasted"@.len() == 17);
    reveal_strlit("result_ufw_enabled"); assert("result_ufw_enabled"@.len() == 18);
    reveal_strlit("result_fail2ban_installed"); assert("result_fail2ban_installed"@.len() == 25);
    reveal_strlit("result_auto_updates_enabled"); assert("result_auto_updates_enabled"@.len() == 27);
    reveal_strlit("result_lynis_ok"); assert("undo_key_delete"@[0] == 'u'); assert("result_lynis_ok"@[0] == 'r');
    reveal_strlit("result_lynis_fail"); assert("result_lynis_fail"@.len() == 17);
    reveal_strlit("result_logwatch_installed"); assert("result_logwatch_installed"@.len() == 25);
    reveal_strlit("result_ssh_restarted"); assert("result_ssh_restarted"@.len() == 20);
    reveal_strlit("result_sshd_cfg_set"); assert("result_sshd_cfg_set"@.len() == 19);
    reveal_strlit("result_sshd_syntax_ok"); assert("result_sshd_syntax_ok"@.len() == 21);
    reveal_strlit("result_sshd_syntax_err"); assert("result_sshd_syntax_err"@.len() == 22);
    reveal_strlit("log_audit"); assert("log_audit"@.len() == 9);
    reveal_strlit("log_operation"); assert("log_operation"@.len() == 13);
    reveal_strlit("log_rollback"); assert("log_rollback"@.len() == 12);
    reveal_strlit("log_audit_start"); assert("undo_key_delete"@[0] == 'u'); assert("log_audit_start"@[0] == 'l');
    reveal_strlit("log_audit_done"); assert("log_audit_done"@.len() == 14);
    reveal_strlit("log_step_start"); assert("log_step_start"@.len() == 14);
    reveal_strlit("log_step_complete"); assert("log_step_complete"@.len() == 17);
    reveal_strlit("log_step_failed"); assert("undo_key_delete"@[0] == 'u'); assert("log_step_failed"@[0] == 'l');
    reveal_strlit("log_rollback_auto"); assert("log_rollback_auto"@.len() == 17);
    reveal_strlit("undo_user_remove"); assert("undo_user_remove"@.len() == 16);
    reveal_strlit("undo_pkg_remove"); assert("undo_key_delete"@[5] == 'k'); assert("undo_pkg_remove"@[5] == 'p');
    reveal_strlit("undo_cmd"); assert("undo_cmd"@.len() == 8);
    reveal_strlit("undo_file_restore"); assert("undo_file_restore"@.len() == 17);
    reveal_strlit("undo_ufw_disable"); assert("undo_ufw_disable"@.len() == 16);
    reveal_strlit("undo_ufw_delete"); assert("undo_key_delete"@[5] == 'k'); assert("undo_ufw_delete"@[5] == 'u');
    reveal_strlit("{user}");
    reveal_strlit("删除 {user} 的密钥文件");
    assert("删除 {user} 的密钥文件"@.subrange(3, 9) =~= "{user}"@);
    assert(match_at("删除 {user} 的密钥文件"@, "{user}"@, 3));
    reveal_strlit("Delete SSH keys for {user}");
    assert("Delete SSH keys for {user}"@.subrange(20, 26) =~= "{user}"@);
    assert(match_at("Delete SSH keys for {user}"@, "{user}"@, 20));
    reveal_strlit("刪除 {user} 的金鑰檔案");
    assert("刪除 {user} 的金鑰檔案"@.subrange(3, 9) =~= "{user}"@);
    assert(match_at("刪除 {user} 的金鑰檔案"@, "{user}"@, 3));
}

proof fn placeholders_cli_welcome()
    ensures
        zh_cn_text("cli_welcome"@) matches Some(t) && contains(t, "{ver}"@),
        en_text("cli_welcome"@) matches Some(t) && contains(t, "{ver}"@),
        zh_tw_text("cli_welcome"@) matches Some(t) && contains(t, "{ver}"@),
{
    reveal_strlit("cli_welcome"); assert("cli_welcome"@.len() == 11);
    reveal_strlit("lang_en"); assert("lang_en"@.len() == 7);
    reveal_strlit("lang_zh_cn"); assert("lang_zh_cn"@.len() == 10);
    reveal_strlit("lang_zh_tw"); assert("lang_zh_tw"@.len() == 10);
    reveal_strlit("select_language"); assert("select_language"@.len() == 15);
    reveal_strlit("select_mode"); assert("cli_welcome"@[0] == 'c'); assert("select_mode"@[0] == 's');
    reveal_strlit("mode_cli"); assert("mode_cli"@.len() == 8);
    reveal_strlit("mode_tui"); assert("mode_tui"@.len() == 8);
    reveal_strlit("unknown_arg"); assert("cli_welcome"@[0] == 'c'); assert("unknown_arg"@[0] == 'u');
    reveal_strlit("app_title"); assert("app_title"@.len() == 9);
    reveal_strlit("step_system_update"); assert("step_system_update"@.len() == 18);
    reveal_strlit("step_user_creation"); assert("step_user_creation"@.len() == 18);
    reveal_strlit("step_ssh_root_login"); assert("step_ssh_root_login"@.len() == 19);
    reveal_strlit("step_ssh_port_change"); assert("step_ssh_port_change"@.len() == 20);
    reveal_strlit("step_ssh_password_auth"); assert("step_ssh_password_auth"@.len() == 22);
    reveal_strlit("step_ssh_key_setup"); assert("step_ssh_key_setup"@.len() == 18);
    reveal_strlit("step_ufw"); assert("step_ufw"@.len() == 8);
    reveal_strlit("step_fail2ban"); assert("step_fail2ban"@.len() == 13);
    reveal_strlit("step_auto_updates"); assert("step_auto_updates"@.len() == 17);
    reveal_strlit("step_security_scan"); assert("step_security_scan"@.len() == 18);
    reveal_strlit("step_log_audit"); assert("step_log_audit"@.len() == 14);
    reveal_strlit("step_restart_ssh"); assert("step_restart_ssh"@.len() == 16);
    reveal_strlit("audit_root"); assert("audit_root"@.len() == 10);
    reveal_strlit("audit_pkg_mgr"); assert("audit_pkg_mgr"@.len() == 13);
    reveal_strlit("audit_ssh_port"); assert("audit_ssh_port"@.len() == 14);
    reveal_strlit("audit_password_auth"); assert("audit_password_auth"@.len() == 19);
    reveal_strlit("audit_root_login"); assert("audit_root_login"@.len() == 16);
    reveal_strlit("audit_sudo_users"); assert("audit_sudo_users"@.len() == 16);
    reveal_strlit("audit_fail2ban"); assert("audit_fail2ban"@.len() == 14);
    reveal_strlit("audit_ufw"); assert("audit_ufw"@.len() == 9);
    reveal_strlit("audit_auto_updates"); assert("audit_auto_updates"@.len() == 18);
    reveal_strlit("audit_sys_update"); assert("audit_sys_update"@.len() == 16);
    reveal_strlit("audit_detail_root_ok"); assert("audit_detail_root_ok"@.len() == 20);
    reveal_strlit("audit_detail_root_missing"); assert("audit_detail_root_missing"@.len() == 25);
    reveal_strlit("audit_detail_pkg"); assert("audit_detail_pkg"@.len() == 16);
    reveal_strlit("audit_detail_port_safe"); assert("audit_detail_port_safe"@.len() == 22);
    reveal_strlit("audit_detail_port_missing"); assert("audit_detail_port_missing"@.len() == 25);
    reveal_strlit("audit_detail_pw_disabled"); assert("audit_detail_pw_disabled"@.len() == 24);
    reveal_strlit("audit_detail_pw_missing"); assert("audit_detail_pw_missing"@.len() == 23);
    reveal_strlit("audit_detail_root_disabled"); assert("audit_detail_root_disabled"@.len() == 26);
    reveal_strlit("audit_detail_root_missing_cfg"); assert("audit_detail_root_missing_cfg"@.len() == 29);
    reveal_strlit("audit_detail_sudo_missing"); assert("audit_detail_sudo_missing"@.len() == 25);
    reveal_strlit("audit_detail_sudo_ok"); assert("audit_detail_sudo_ok"@.len() == 20);
    reveal_strlit("audit_detail_fb_installed"); assert("audit_detail_fb_installed"@.len() == 25);
    reveal_strlit("audit_detail_fb_missing"); assert("audit_detail_fb_missing"@.len() == 23);
    reveal_strlit("audit_detail_ufw_enabled"); assert("audit_detail_ufw_enabled"@.len() == 24);
    reveal_strlit("audit_detail_ufw_missing"); assert("audit_detail_ufw_missing"@.len() == 24);
    reveal_strlit("audit_detail_au_enabled"); assert("audit_detail_au_enabled"@.len() == 23);
    reveal_strlit("audit_detail_au_missing"); assert("audit_detail_au_missing"@.len() == 23);
    reveal_strlit("audit_detail_sys_uptodate"); assert("audit_detail_sys_uptodate"@.len() == 25);
    reveal_strlit("audit_detail_sys_needs_update"); assert("audit_detail_sys_needs_update"@.len() == 29);
    reveal_strlit("status_safe"); assert("cli_welcome"@[0] == 'c'); assert("status_safe"@[0] == 's');
    reveal_strlit("status_partial"); assert("status_partial"@.len() == 14);
    reveal_strlit("status_missing"); assert("status_missing"@.len() == 14);
    reveal_strlit("status_needs_update"); assert("status_needs_update"@.len() == 19);
    reveal_strlit("pkg_apt"); assert("pkg_apt"@.len() == 7);
    reveal_strlit("pkg_yum"); assert("pkg_yum"@.len() == 7);
    reveal_strlit("pkg_dnf"); assert("pkg_dnf"@.len() == 7);
    reveal_strlit("pkg_unknown"); assert("cli_welcome"@[0] == 'c'); assert("pkg_unknown"@[0] == 'p');
    reveal_strlit("err_permission_denied"); assert("err_permission_denied"@.len() == 21);
    reveal_strlit("err_cmd_failed"); assert("err_cmd_failed"@.len() == 14);
    reveal_strlit("err_parse_error"); assert("err_parse_error"@.len() == 15);
    reveal_strlit("err_precondition_failed"); assert("err_precondition_failed"@.len() == 23);
    reveal_strlit("err_user_aborted"); assert("err_user_aborted"@.len() == 16);
    reveal_strlit("err_unknown_pkg_mgr"); assert("err_unknown_pkg_mgr"@.len() == 19);
    reveal_strlit("err_unsupported_pkg"); assert("err_unsupported_pkg"@.len() == 19);
    reveal_strlit("err_auto_update_only_debian"); assert("err_auto_update_only_debian"@.len() == 27);
    reveal_strlit("err_unknown_pkg_lynis"); assert("err_unknown_pkg_lynis"@.len() == 21);
    reveal_strlit("err_sshd_not_found"); assert("err_sshd_not_found"@.len() == 18);
    reveal_strlit("err_no_username"); assert("err_no_username"@.len() == 15);
    reveal_strlit("err_user_exists"); assert("err_user_exists"@.len() == 15);
    reveal_strlit("err_no_sudo_before_root"); assert("err_no_sudo_before_root"@.len() == 23);
    reveal_strlit("err_no_ssh_port"); assert("err_no_ssh_port"@.len() == 15);
    reveal_strlit("err_port_zero"); assert("err_port_zero"@.len() == 13);
    reveal_strlit("err_no_sudo_before_pw"); assert("err_no_sudo_before_pw"@.len() == 21);
    reveal_strlit("err_no_target_user"); assert("err_no_target_user"@.len() == 18);
    reveal_strlit("err_no_key_action"); assert("err_no_key_action"@.len() == 17);
    reveal_strlit("err_update_failed"); assert("err_update_failed"@.len() == 17);
    reveal_strlit("err_upgrade_failed"); assert("err_upgrade_failed"@.len() == 18);
    reveal_strlit("err_ufw_allow_failed"); assert("err_ufw_allow_failed"@.len() == 20);
    reveal_strlit("err_ufw_enable_failed"); assert("err_ufw_enable_failed"@.len() == 21);
    reveal_strlit("err_install_fail2ban"); assert("err_install_fail2ban"@.len() == 20);
    reveal_strlit("err_install_unattended"); assert("err_install_unattended"@.len() == 22);
    reveal_strlit("err_lynis_exec"); assert("err_lynis_exec"@.len() == 14);
    reveal_strlit("err_sshd_check"); assert("err_sshd_check"@.len() == 14);
    reveal_strlit("err_sshd_syntax"); assert("err_sshd_syntax"@.len() == 15);
    reveal_strlit("err_ssh_restart"); assert("err_ssh_restart"@.len() == 15);
    reveal_strlit("err_backup"); assert("err_backup"@.len() == 10);
    reveal_strlit("err_read"); assert("err_read"@.len() == 8);
    reveal_strlit("err_write"); assert("err_write"@.len() == 9);
    reveal_strlit("err_setup_signal"); assert("err_setup_signal"@.len() == 16);
    reveal_strlit("result_sys_updated"); assert("result_sys_updated"@.len() == 18);
    reveal_strlit("result_user_created"); assert("result_user_created"@.len() == 19);
    reveal_strlit("result_root_login_set"); assert("result_root_login_set"@.len() == 21);
    reveal_strlit("result_ssh_port_set"); assert("result_ssh_port_set"@.len() == 19);
    reveal_strlit("result_pw_auth_disabled"); assert("result_pw_auth_disabled"@.len() == 23);
    reveal_strlit("result_key_generated"); assert("result_key_generated"@.len() == 20);
    reveal_strlit("result_key_pasted"); assert("result_key_pasted"@.len() == 17);
    reveal_strlit("result_ufw_enabled"); assert("result_ufw_enabled"@.len() == 18);
    reveal_strlit("result_fail2ban_installed"); assert("result_fail2ban_installed"@.len() == 25);
    reveal_strlit("result_auto_updates_enabled"); assert("result_auto_updates_enabled"@.len() == 27);
    reveal_strlit("result_lynis_ok"); assert("result_lynis_ok"@.len() == 15);
    reveal_strlit("result_lynis_fail"); assert("result_lynis_fail"@.len() == 17);
    reveal_strlit("result_logwatch_installed"); assert("result_logwatch_installed"@.len() == 25);
    reveal_strlit("result_ssh_restarted"); assert("result_ssh_restarted"@.len() == 20);
    reveal_strlit("result_sshd_cfg_set"); assert("result_sshd_cfg_set"@.len() == 19);
    reveal_strlit("result_sshd_syntax_ok"); assert("result_sshd_syntax_ok"@.len() == 21);
    reveal_strlit("result_sshd_syntax_err"); assert("result_sshd_syntax_err"@.len() == 22);
    reveal_strlit("log_audit"); assert("log_audit"@.len() == 9);
    reveal_strlit("log_operation"); assert("log_operation"@.len() == 13);
    reveal_strlit("log_rollback"); assert("log_rollback"@.len() == 12);
    reveal_strlit("log_audit_start"); assert("log_audit_start"@.len() == 15);
    reveal_strlit("log_audit_done"); assert("log_audit_done"@.len() == 14);
    reveal_strlit("log_step_start"); assert("log_step_start"@.len() == 14);
    reveal_strlit("log_step_complete"); assert("log_step_complete"@.len() == 17);
    reveal_strlit("log_step_failed"); assert("log_step_failed"@.len() == 15);
    reveal_strlit("log_rollback_auto"); assert("log_rollback_auto"@.len() == 17);
    reveal_strlit("undo_user_remove"); assert("undo_user_remove"@.len() == 16);
    reveal_strlit("undo_pkg_remove"); assert("undo_pkg_remove"@.len() == 15);
    reveal_strlit("undo_cmd"); assert("undo_cmd"@.len() == 8);
    reveal_strlit("undo_file_restore"); assert("undo_file_restore"@.len() == 17);
    reveal_strlit("undo_ufw_disable"); assert("undo_ufw_disable"@.len() == 16);
    reveal_strlit("undo_ufw_delete"); assert("undo_ufw_delete"@.len() == 15);
    reveal_strlit("undo_key_delete"); assert("undo_key_delete"@.len() == 15);
    reveal_strlit("{ver}");
    reveal_strlit("U2Secure - Linux 服务器安全加固工具 v{ver}");
    assert("U2Secure - Linux 服务器安全加固工具 v{ver}"@.subrange(28, 33) =~= "{ver}"@);
    assert(match_at("U2Secure - Linux 服务器安全加固工具 v{ver}"@, "{ver}"@, 28));
    reveal_strlit("U2Secure - Linux Server Security Hardening Tool v{ver}");
    assert("U2Secure - Linux Server Security Hardening Tool v{ver}"@.subrange(49, 54) =~= "{ver}"@);
    assert(match_at("U2Secure - Linux Server Security Hardening Tool v{ver}"@, "{ver}"@, 49));
    reveal_strlit("U2Secure - Linux 伺服器安全強化工具 v{ver}");
    assert("U2Secure - Linux 伺服器安全強化工具 v{ver}"@.subrange(28, 33) =~= "{ver}"@);
    assert(match_at("U2Secure - Linux 伺服器安全強化工具 v{ver}"@, "{ver}"@, 28));
}

proof fn placeholders_cli_summary_total()
    ensures
        zh_cn_text("cli_summary_total"@) matches Some(t) && contains(t, "{fail}"@),
        zh_cn_text("cli_summary_total"@) matches Some(t) && contains(t, "{ok}"@),
        en_text("cli_summary_total"@) matches Some(t) && contains(t, "{fail}"@),
        en_text("cli_summary_total"@) matches Some(t) && contains(t, "{ok}"@),
        zh_tw_text("cli_summary_total"@) matches Some(t) && contains(t, "{fail}"@),
        zh_tw_text("cli_summary_total"@) matches Some(t) && contains(t, "{ok}"@),
{
    reveal_strlit("cli_summary_total"); assert("cli_summary_total"@.len() == 17);
    reveal_strlit("lang_en"); assert("lang_en"@.len() == 7);
    reveal_strlit("lang_zh_cn"); assert("lang_zh_cn"@.len() == 10);
    reveal_strlit("lang_zh_tw"); assert("lang_zh_tw"@.len() == 10);
    reveal_strlit("select_language"); assert("select_language"@.len() == 15);
    reveal_strlit("select_mode"); assert("select_mode"@.len() == 11);
    reveal_strlit("mode_cli"); assert("mode_cli"@.len() == 8);
    reveal_strlit("mode_tui"); assert("mode_tui"@.len() == 8);
    reveal_strlit("unknown_arg"); assert("unknown_arg"@.len() == 11);
    reveal_strlit("app_title"); assert("app_title"@.len() == 9);
    reveal_strlit("step_system_update"); assert("step_system_update"@.len() == 18);
    reveal_strlit("step_user_creation"); assert("step_user_creation"@.len() == 18);
    reveal_strlit("step_ssh_root_login"); assert("step_ssh_root_login"@.len() == 19);
    reveal_strlit("step_ssh_port_change"); assert("step_ssh_port_change"@.len() == 20);
    reveal_strlit("step_ssh_password_auth"); assert("step_ssh_password_auth"@.len() == 22);
    reveal_strlit("step_ssh_key_setup"); assert("step_ssh_key_setup"@.len() == 18);
    reveal_strlit("step_ufw"); assert("step_ufw"@.len() == 8);
    reveal_strlit("step_fail2ban"); assert("step_fail2ban"@.len() == 13);
    reveal_strlit("step_auto_updates"); assert("cli_summary_total"@[0] == 'c'); assert("step_auto_updates"@[0] == 's');
    reveal_strlit("step_security_scan"); assert("step_security_scan"@.len() == 18);
    reveal_strlit("step_log_audit"); assert("step_log_audit"@.len() == 14);
    reveal_strlit("step_restart_ssh"); assert("step_restart_ssh"@.len() == 16);
    reveal_strlit("audit_root"); assert("audit_root"@.len() == 10);
    reveal_strlit("audit_pkg_mgr"); assert("audit_pkg_mgr"@.len() == 13);
    reveal_strlit("audit_ssh_port"); assert("audit_ssh_port"@.len() == 14);
    reveal_strlit("audit_password_auth"); assert("audit_password_auth"@.len() == 19);
    reveal_strlit("audit_root_login"); assert("audit_root_login"@.len() == 16);
    reveal_strlit("audit_sudo_users"); assert("audit_sudo_users"@.len() == 16);
    reveal_strlit("audit_fail2ban"); assert("audit_fail2ban"@.len() == 14);
    reveal_strlit("audit_ufw"); assert("audit_ufw"@.len() == 9);
    reveal_strlit("audit_auto_updates"); assert("audit_auto_updates"@.len() == 18);
    reveal_strlit("audit_sys_update"); assert("audit_sys_update"@.len() == 16);
    reveal_strlit("audit_detail_root_ok"); assert("audit_detail_root_ok"@.len() == 20);
    reveal_strlit("audit_detail_root_missing"); assert("audit_detail_root_missing"@.len() == 25);
    reveal_strlit("audit_detail_pkg"); assert("audit_detail_pkg"@.len() == 16);
    reveal_strlit("audit_detail_port_safe"); assert("audit_detail_port_safe"@.len() == 22);
    reveal_strlit("audit_detail_port_missing"); assert("audit_detail_port_missing"@.len() == 25);
    reveal_strlit("audit_detail_pw_disabled"); assert("audit_detail_pw_disabled"@.len() == 24);
    reveal_strlit("audit_detail_pw_missing"); assert("audit_detail_pw_missing"@.len() == 23);
    reveal_strlit("audit_detail_root_disabled"); assert("audit_detail_root_disabled"@.len() == 26);
    reveal_strlit("audit_detail_root_missing_cfg"); assert("audit_detail_root_missing_cfg"@.len() == 29);
    reveal_strlit("audit_detail_sudo_missing"); assert("audit_detail_sudo_missing"@.len() == 25);
    reveal_strlit("audit_detail_sudo_ok"); assert("audit_detail_sudo_ok"@.len() == 20);
    reveal_strlit("audit_detail_fb_installed"); assert("audit_detail_fb_installed"@.len() == 25);
    reveal_strlit("audit_detail_fb_missing"); assert("audit_detail_fb_missing"@.len() == 23);
    reveal_strlit("audit_detail_ufw_enabled"); assert("audit_detail_ufw_enabled"@.len() == 24);
    reveal_strlit("audit_detail_ufw_missing"); assert("audit_detail_ufw_missing"@.len() == 24);
    reveal_strlit("audit_detail_au_enabled"); assert("audit_detail_au_enabled"@.len() == 23);
    reveal_strlit("audit_detail_au_missing"); assert("audit_detail_au_missing"@.len() == 23);
    reveal_strlit("audit_detail_sys_uptodate"); assert("audit_detail_sys_uptodate"@.len() == 25);
    reveal_strlit("audit_detail_sys_needs_update"); assert("audit_detail_sys_needs_update"@.len() == 29);
    reveal_strlit("status_safe"); assert("status_safe"@.len() == 11);
    reveal_strlit("status_partial"); assert("status_partial"@.len() == 14);
    reveal_strlit("status_missing"); assert("status_missing"@.len() == 14);
    reveal_strlit("status_needs_update"); assert("status_needs_update"@.len() == 19);
    reveal_strlit("pkg_apt"); assert("pkg_apt"@.len() == 7);
    reveal_strlit("pkg_yum"); assert("pkg_yum"@.len() == 7);
    reveal_strlit("pkg_dnf"); assert("pkg_dnf"@.len() == 7);
    reveal_strlit("pkg_unknown"); assert("pkg_unknown"@.len() == 11);
    reveal_strlit("err_permission_denied"); assert("err_permission_denied"@.len() == 21);
    reveal_strlit("err_cmd_failed"); assert("err_cmd_failed"@.len() == 14);
    reveal_strlit("err_parse_error"); assert("err_parse_error"@.len() == 15);
    reveal_strlit("err_precondition_failed"); assert("err_precondition_failed"@.len() == 23);
    reveal_strlit("err_user_aborted"); assert("err_user_aborted"@.len() == 16);
    reveal_strlit("err_unknown_pkg_mgr"); assert("err_unknown_pkg_mgr"@.len() == 19);
    reveal_strlit("err_unsupported_pkg"); assert("err_unsupported_pkg"@.len() == 19);
    reveal_strlit("err_auto_update_only_debian"); assert("err_auto_update_only_debian"@.len() == 27);
    reveal_strlit("err_unknown_pkg_lynis"); assert("err_unknown_pkg_lynis"@.len() == 21);
    reveal_strlit("err_sshd_not_found"); assert("err_sshd_not_found"@.len() == 18);
    reveal_strlit("err_no_username"); assert("err_no_username"@.len() == 15);
    reveal_strlit("err_user_exists"); assert("err_user_exists"@.len() == 15);
    reveal_strlit("err_no_sudo_before_root"); assert("err_no_sudo_before_root"@.len() == 23);
    reveal_strlit("err_no_ssh_port"); assert("err_no_ssh_port"@.len() == 15);
    reveal_strlit("err_port_zero"); assert("err_port_zero"@.len() == 13);
    reveal_strlit("err_no_sudo_before_pw"); assert("err_no_sudo_before_pw"@.len() == 21);
    reveal_strlit("err_no_target_user"); assert("err_no_target_user"@.len() == 18);
    reveal_strlit("err_no_key_action"); assert("cli_summary_total"@[0] == 'c'); assert("err_no_key_action"@[0] == 'e');
    reveal_strlit("err_update_failed"); assert("cli_summary_total"@[0] == 'c'); assert("err_update_failed"@[0] == 'e');
    reveal_strlit("err_upgrade_failed"); assert("err_upgrade_failed"@.len() == 18);
    reveal_strlit("err_ufw_allow_failed"); assert("err_ufw_allow_failed"@.len() == 20);
    reveal_strlit("err_ufw_enable_failed"); assert("err_ufw_enable_failed"@.len() == 21);
    reveal_strlit("err_install_fail2ban"); assert("err_install_fail2ban"@.len() == 20);
    reveal_strlit("err_install_unattended"); assert("err_install_unattended"@.len() == 22);
    reveal_strlit("err_lynis_exec"); assert("err_lynis_exec"@.len() == 14);
    reveal_strlit("err_sshd_check"); assert("err_sshd_check"@.len() == 14);
    reveal_strlit("err_sshd_syntax"); assert("err_sshd_syntax"@.len() == 15);
    reveal_strlit("err_ssh_restart"); assert("err_ssh_restart"@.len() == 15);
    reveal_strlit("err_backup"); assert("err_backup"@.len() == 10);
    reveal_strlit("err_read"); assert("err_read"@.len() == 8);
    reveal_strlit("err_write"); assert("err_write"@.len() == 9);
    reveal_strlit("err_setup_signal"); assert("err_setup_signal"@.len() == 16);
    reveal_strlit("result_sys_updated"); assert("result_sys_updated"@.len() == 18);
    reveal_strlit("result_user_created"); assert("result_user_created"@.len() == 19);
    reveal_strlit("result_root_login_set"); assert("result_root_login_set"@.len() == 21);
    reveal_strlit("result_ssh_port_set"); assert("result_ssh_port_set"@.len() == 19);
    reveal_strlit("result_pw_auth_disabled"); assert("result_pw_auth_disabled"@.len() == 23);
    reveal_strlit("result_key_generated"); assert("result_key_generated"@.len() == 20);
    reveal_strlit("result_key_pasted"); assert("cli_summary_total"@[0] == 'c'); assert("result_key_pasted"@[0] == 'r');
    reveal_strlit("result_ufw_enabled"); assert("result_ufw_enabled"@.len() == 18);
    reveal_strlit("result_fail2ban_installed"); assert("result_fail2ban_installed"@.len() == 25);
    reveal_strlit("result_auto_updates_enabled"); assert("result_auto_updates_enabled"@.len() == 27);
    reveal_strlit("result_lynis_ok"); assert("result_lynis_ok"@.len() == 15);
    reveal_strlit("result_lynis_fail"); assert("cli_summary_total"@[0] == 'c'); assert("result_lynis_fail"@[0] == 'r');
    reveal_strlit("result_logwatch_installed"); assert("result_logwatch_installed"@.len() == 25);
    reveal_strlit("result_ssh_restarted"); assert("result_ssh_restarted"@.len() == 20);
    reveal_strlit("result_sshd_cfg_set"); assert("result_sshd_cfg_set"@.len() == 19);
    reveal_strlit("result_sshd_syntax_ok"); assert("result_sshd_syntax_ok"@.len() == 21);
    reveal_strlit("result_sshd_syntax_err"); assert("result_sshd_syntax_err"@.len() == 22);
    reveal_strlit("log_audit"); assert("log_audit"@.len() == 9);
    reveal_strlit("log_operation"); assert("log_operation"@.len() == 13);
    reveal_strlit("log_rollback"); assert("log_rollback"@.len() == 12);
    reveal_strlit("log_audit_start"); assert("log_audit_start"@.len() == 15);
    reveal_strlit("log_audit_done"); assert("log_audit_done"@.len() == 14);
    reveal_strlit("log_step_start"); assert("log_step_start"@.len() == 14);
    reveal_strlit("log_step_complete"); assert("cli_summary_total"@[0] == 'c'); assert("log_step_complete"@[0] == 'l');
    reveal_strlit("log_step_failed"); assert("log_step_failed"@.len() == 15);
    reveal_strlit("log_rollback_auto"); assert("cli_summary_total"@[0] == 'c'); assert("log_rollback_auto"@[0] == 'l');
    reveal_strlit("undo_user_remove"); assert("undo_user_remove"@.len() == 16);
    reveal_strlit("undo_pkg_remove"); assert("undo_pkg_remove"@.len() == 15);
    reveal_strlit("undo_cmd"); assert("undo_cmd"@.len() == 8);
    reveal_strlit("undo_file_restore"); assert("cli_summary_total"@[0] == 'c'); assert("undo_file_restore"@[0] == 'u');
    reveal_strlit("undo_ufw_disable"); assert("undo_ufw_disable"@.len() == 16);
    reveal_strlit("undo_ufw_delete"); assert("undo_ufw_delete"@.len() == 15);
    reveal_strlit("undo_key_delete"); assert("undo_key_delete"@.len() == 15);
    reveal_strlit("cli_welcome"); assert("cli_welcome"@.len() == 11);
    reveal_strlit("cli_auditing"); assert("cli_auditing"@.len() == 12);
    reveal_strlit("cli_audit_done"); assert("cli_audit_done"@.len() == 14);
    reveal_strlit("cli_select_steps"); assert("cli_select_steps"@.len() == 16);
    reveal_strlit("cli_hint_nav"); assert("cli_hint_nav"@.len() == 12);
    reveal_strlit("cli_collecting"); assert("cli_collecting"@.len() == 14);
    reveal_strlit("cli_will_execute"); assert("cli_will_execute"@.len() == 16);
    reveal_strlit("cli_confirm"); assert("cli_confirm"@.len() == 11);
    reveal_strlit("cli_cancelled"); assert("cli_cancelled"@.len() == 13);
    reveal_strlit("cli_no_selection"); assert("cli_no_selection"@.len() == 16);
    reveal_strlit("cli_executing"); assert("cli_executing"@.len() == 13);
    reveal_strlit("cli_summary_title"); assert("cli_summary_total"@[13] == 'o'); assert("cli_summary_title"@[13] == 'i');
    reveal_strlit("{fail}");
    reveal_strlit("{ok}");
    reveal_strlit("总计: {ok} 成功, {fail} 失败/跳过");
    assert("总计: {ok} 成功, {fail} 失败/跳过"@.subrange(13, 19) =~= "{fail}"@);
    assert(match_at("总计: {ok} 成功, {fail} 失败/跳过"@, "{fail}"@, 13));
    assert("总计: {ok} 成功, {fail} 失败/跳过"@.subrange(4, 8) =~= "{ok}"@);
    assert(match_at("总计: {ok} 成功, {fail} 失败/跳过"@, "{ok}"@, 4));
    reveal_strlit("Total: {ok} success, {fail} failed/skipped");
    assert("Total: {ok} success, {fail} failed/skipped"@.subrange(21, 27) =~= "{fail}"@);
    assert(match_at("Total: {ok} success, {fail} failed/skipped"@, "{fail}"@, 21));
    assert("Total: {ok} success, {fail} failed/skipped"@.subrange(7, 11) =~= "{ok}"@);
    assert(match_at("Total: {ok} success, {fail} failed/skipped"@, "{ok}"@, 7));
    reveal_strlit("總計: {ok} 成功, {fail} 失敗/跳過");
    assert("總計: {ok} 成功, {fail} 失敗/跳過"@.subrange(13, 19) =~= "{fail}"@);
    assert(match_at("總計: {ok} 成功, {fail} 失敗/跳過"@, "{fail}"@, 13));
    assert("總計: {ok} 成功, {fail} 失敗/跳過"@.subrange(4, 8) =~= "{ok}"@);
    assert(match_at("總計: {ok} 成功, {fail} 失敗/跳過"@, "{ok}"@, 4));
}

proof fn placeholders_cli_current_port()
    ensures
        zh_cn_text("cli_current_port"@) matches Some(t) && contains(t, "{port}"@),
        en_text("cli_current_port"@) matches Some(t) && contains(t, "{port}"@),
        zh_tw_text("cli_current_port"@) matches Some(t) && contains(t, "{port}"@),
{
    reveal_strlit("cli_current_port"); assert("cli_current_port"@.len() == 16);
    reveal_strlit("lang_en"); assert("lang_en"@.len() == 7);
    reveal_strlit("lang_zh_cn"); assert("lang_zh_cn"@.len() == 10);
    reveal_strlit("lang_zh_tw"); assert("lang_zh_tw"@.len() == 10);
    reveal_strlit("select_language"); assert("select_language"@.len() == 15);
    reveal_strlit("select_mode"); assert("select_mode"@.len() == 11);
    reveal_strlit("mode_cli"); assert("mode_cli"@.len() == 8);
    reveal_strlit("mode_tui"); assert("mode_tui"@.len() == 8);
    reveal_strlit("unknown_arg"); assert("unknown_arg"@.len() == 11);
    reveal_strlit("app_title"); assert("app_title"@.len() == 9);
    reveal_strlit("step_system_update"); assert("step_system_update"@.len() == 18);
    reveal_strlit("step_user_creation"); assert("step_user_creation"@.len() == 18);
    reveal_strlit("step_ssh_root_login"); assert("step_ssh_root_login"@.len() == 19);
    reveal_strlit("step_ssh_port_change"); assert("step_ssh_port_change"@.len() == 20);
    reveal_strlit("step_ssh_password_auth"); assert("step_ssh_password_auth"@.len() == 22);
    reveal_strlit("step_ssh_key_setup"); assert("step_ssh_key_setup"@.len() == 18);
    reveal_strlit("step_ufw"); assert("step_ufw"@.len() == 8);
    reveal_strlit("step_fail2ban"); assert("step_fail2ban"@.len() == 13);
    reveal_strlit("step_auto_updates"); assert("step_auto_updates"@.len() == 17);
    reveal_strlit("step_security_scan"); assert("step_security_scan"@.len() == 18);
    reveal_strlit("step_log_audit"); assert("step_log_audit"@.len() == 14);
    reveal_strlit("step_restart_ssh"); assert("cli_current_port"@[0] == 'c'); assert("step_restart_ssh"@[0] == 's');
    reveal_strlit("audit_root"); assert("audit_root"@.len() == 10);
    reveal_strlit("audit_pkg_mgr"); assert("audit_pkg_mgr"@.len() == 13);
    reveal_strlit("audit_ssh_port"); assert("audit_ssh_port"@.len() == 14);
    reveal_strlit("audit_password_auth"); assert("audit_password_auth"@.len() == 19);
    reveal_strlit("audit_root_login"); assert("cli_current_port"@[0] == 'c'); assert("audit_root_login"@[0] == 'a');
    reveal_strlit("audit_sudo_users"); assert("cli_current_port"@[0] == 'c'); assert("audit_sudo_users"@[0] == 'a');
    reveal_strlit("audit_fail2ban"); assert("audit_fail2ban"@.len() == 14);
    reveal_strlit("audit_ufw"); assert("audit_ufw"@.len() == 9);
    reveal_strlit("audit_auto_updates"); assert("audit_auto_updates"@.len() == 18);
    reveal_strlit("audit_sys_update"); assert("cli_current_port"@[0] == 'c'); assert("audit_sys_update"@[0] == 'a');
    reveal_strlit("audit_detail_root_ok"); assert("audit_detail_root_ok"@.len() == 20);
    reveal_strlit("audit_detail_root_missing"); assert("audit_detail_root_missing"@.len() == 25);
    reveal_strlit("audit_detail_pkg"); assert("cli_current_port"@[0] == 'c'); assert("audit_detail_pkg"@[0] == 'a');
    reveal_strlit("audit_detail_port_safe"); assert("audit_detail_port_safe"@.len() == 22);
    reveal_strlit("audit_detail_port_missing"); assert("audit_detail_port_missing"@.len() == 25);
    reveal_strlit("audit_detail_pw_disabled"); assert("audit_detail_pw_disabled"@.len() == 24);
    reveal_strlit("audit_detail_pw_missing"); assert("audit_detail_pw_missing"@.len() == 23);
    reveal_strlit("audit_detail_root_disabled"); assert("audit_detail_root_disabled"@.len() == 26);
    reveal_strlit("audit_detail_root_missing_cfg"); assert("audit_detail_root_missing_cfg"@.len() == 29);
    reveal_strlit("audit_detail_sudo_missing"); assert("audit_detail_sudo_missing"@.len() == 25);
    reveal_strlit("audit_detail_sudo_ok"); assert("audit_detail_sudo_ok"@.len() == 20);
    reveal_strlit("audit_detail_fb_installed"); assert("audit_detail_fb_installed"@.len() == 25);
    reveal_strlit("audit_detail_fb_missing"); assert("audit_detail_fb_missing"@.len() == 23);
    reveal_strlit("audit_detail_ufw_enabled"); assert("audit_detail_ufw_enabled"@.len() == 24);
    reveal_strlit("audit_detail_ufw_missing"); assert("audit_detail_ufw_missing"@.len() == 24);
    reveal_strlit("audit_detail_au_enabled"); assert("audit_detail_au_enabled"@.len() == 23);
    reveal_strlit("audit_detail_au_missing"); assert("audit_detail_au_missing"@.len() == 23);
    reveal_strlit("audit_detail_sys_uptodate"); assert("audit_detail_sys_uptodate"@.len() == 25);
    reveal_strlit("audit_detail_sys_needs_update"); assert("audit_detail_sys_needs_update"@.len() == 29);
    reveal_strlit("status_safe"); assert("status_safe"@.len() == 11);
    reveal_strlit("status_partial"); assert("status_partial"@.len() == 14);
    reveal_strlit("status_missing"); assert("status_missing"@.len() == 14);
    reveal_strlit("status_needs_update"); assert("status_needs_update"@.len() == 19);
    reveal_strlit("pkg_apt"); assert("pkg_apt"@.len() == 7);
    reveal_strlit("pkg_yum"); assert("pkg_yum"@.len() == 7);
    reveal_strlit("pkg_dnf"); assert("pkg_dnf"@.len() == 7);
    reveal_strlit("pkg_unknown"); assert("pkg_unknown"@.len() == 11);
    reveal_strlit("err_permission_denied"); assert("err_permission_denied"@.len() == 21);
    reveal_strlit("err_cmd_failed"); assert("err_cmd_failed"@.len() == 14);
    reveal_strlit("err_parse_error"); assert("err_parse_error"@.len() == 15);
    reveal_strlit("err_precondition_failed"); assert("err_precondition_failed"@.len() == 23);
    reveal_strlit("err_user_aborted"); assert("cli_current_port"@[0] == 'c'); assert("err_user_aborted"@[0] == 'e');
    reveal_strlit("err_unknown_pkg_mgr"); assert("err_unknown_pkg_mgr"@.len() == 19);
    reveal_strlit("err_unsupported_pkg"); assert("err_unsupported_pkg"@.len() == 19);
    reveal_strlit("err_auto_update_only_debian"); assert("err_auto_update_only_debian"@.len() == 27);
    reveal_strlit("err_unknown_pkg_lynis"); assert("err_unknown_pkg_lynis"@.len() == 21);
    reveal_strlit("err_sshd_not_found"); assert("err_sshd_not_found"@.len() == 18);
    reveal_strlit("err_no_username"); assert("err_no_username"@.len() == 15);
    reveal_strlit("err_user_exists"); assert("err_user_exists"@.len() == 15);
    reveal_strlit("err_no_sudo_before_root"); assert("err_no_sudo_before_root"@.len() == 23);
    reveal_strlit("err_no_ssh_port"); assert("err_no_ssh_port"@.len() == 15);
    reveal_strlit("err_port_zero"); assert("err_port_zero"@.len() == 13);
    reveal_strlit("err_no_sudo_before_pw"); assert("err_no_sudo_before_pw"@.len() == 21);
    reveal_strlit("err_no_target_user"); assert("err_no_target_user"@.len() == 18);
    reveal_strlit("err_no_key_action"); assert("err_no_key_action"@.len() == 17);
    reveal_strlit("err_update_failed"); assert("err_update_failed"@.len() == 17);
    reveal_strlit("err_upgrade_failed"); assert("err_upgrade_failed"@.len() == 18);
    reveal_strlit("err_ufw_allow_failed"); assert("err_ufw_allow_failed"@.len() == 20);
    reveal_strlit("err_ufw_enable_failed"); assert("err_ufw_enable_failed"@.len() == 21);
    reveal_strlit("err_install_fail2ban"); assert("err_install_fail2ban"@.len() == 20);
    reveal_strlit("err_install_unattended"); assert("err_install_unattended"@.len() == 22);
    reveal_strlit("err_lynis_exec"); assert("err_lynis_exec"@.len() == 14);
    reveal_strlit("err_sshd_check"); assert("err_sshd_check"@.len() == 14);
    reveal_strlit("err_sshd_syntax"); assert("err_sshd_syntax"@.len() == 15);
    reveal_strlit("err_ssh_restart"); assert("err_ssh_restart"@.len() == 15);
    reveal_strlit("err_backup"); assert("err_backup"@.len() == 10);
    reveal_strlit("err_read"); assert("err_read"@.len() == 8);
    reveal_strlit("err_write"); assert("err_write"@.len() == 9);
    reveal_strlit("err_setup_signal"); assert("cli_current_port"@[0] == 'c'); assert("err_setup_signal"@[0] == 'e');
    reveal_strlit("result_sys_updated"); assert("result_sys_updated"@.len() == 18);
    reveal_strlit("result_user_created"); assert("result_user_created"@.len() == 19);
    reveal_strlit("result_root_login_set"); assert("result_root_login_set"@.len() == 21);
    reveal_strlit("result_ssh_port_set"); assert("result_ssh_port_set"@.len() == 19);
    reveal_strlit("result_pw_auth_disabled"); assert("result_pw_auth_disabled"@.len() == 23);
    reveal_strlit("result_key_generated"); assert("result_key_generated"@.len() == 20);
    reveal_strlit("result_key_pasted"); assert("result_key_pasted"@.len() == 17);
    reveal_strlit("result_ufw_enabled"); assert("result_ufw_enabled"@.len() == 18);
    reveal_strlit("result_fail2ban_installed"); assert("result_fail2ban_installed"@.len() == 25);
    reveal_strlit("result_auto_updates_enabled"); assert("result_auto_updates_enabled"@.len() == 27);
    reveal_strlit("result_lynis_ok"); assert("result_lynis_ok"@.len() == 15);
    reveal_strlit("result_lynis_fail"); assert("result_lynis_fail"@.len() == 17);
    reveal_strlit("result_logwatch_installed"); assert("result_logwatch_installed"@.len() == 25);
    reveal_strlit("result_ssh_restarted"); assert("result_ssh_restarted"@.len() == 20);
    reveal_strlit("result_sshd_cfg_set"); assert("result_sshd_cfg_set"@.len() == 19);
    reveal_strlit("result_sshd_syntax_ok"); assert("result_sshd_syntax_ok"@.len() == 21);
    reveal_strlit("result_sshd_syntax_err"); assert("result_sshd_syntax_err"@.len() == 22);
    reveal_strlit("log_audit"); assert("log_audit"@.len() == 9);
    reveal_strlit("log_operation"); assert("log_operation"@.len() == 13);
    reveal_strlit("log_rollback"); assert("log_rollback"@.len() == 12);
    reveal_strlit("log_audit_start"); assert("log_audit_start"@.len() == 15);
    reveal_strlit("log_audit_done"); assert("log_audit_done"@.len() == 14);
    reveal_strlit("log_step_start"); assert("log_step_start"@.len() == 14);
    reveal_strlit("log_step_complete"); assert("log_step_complete"@.len() == 17);
    reveal_strlit("log_step_failed"); assert("log_step_failed"@.len() == 15);
    reveal_strlit("log_rollback_auto"); assert("log_rollback_auto"@.len() == 17);
    reveal_strlit("undo_user_remove"); assert("cli_current_port"@[0] == 'c'); assert("undo_user_remove"@[0] == 'u');
    reveal_strlit("undo_pkg_remove"); assert("undo_pkg_remove"@.len() == 15);
    reveal_strlit("undo_cmd"); assert("undo_cmd"@.len() == 8);
    reveal_strlit("undo_file_restore"); assert("undo_file_restore"@.len() == 17);
    reveal_strlit("undo_ufw_disable"); assert("cli_current_port"@[0] == 'c'); assert("undo_ufw_disable"@[0] == 'u');
    reveal_strlit("undo_ufw_delete"); assert("undo_ufw_delete"@.len() == 15);
    reveal_strlit("undo_key_delete"); assert("undo_key_delete"@.len() == 15);
    reveal_strlit("cli_welcome"); assert("cli_welcome"@.len() == 11);
    reveal_strlit("cli_auditing"); assert("cli_auditing"@.len() == 12);
    reveal_strlit("cli_audit_done"); assert("cli_audit_done"@.len() == 14);
    reveal_strlit("cli_select_steps"); assert("cli_current_port"@[4] == 'c'); assert("cli_select_steps"@[4] == 's');
    reveal_strlit("cli_hint_nav"); assert("cli_hint_nav"@.len() == 12);
    reveal_strlit("cli_collecting"); assert("cli_collecting"@.len() == 14);
    reveal_strlit("cli_will_execute"); assert("cli_current_port"@[4] == 'c'); assert("cli_will_execute"@[4] == 'w');
    reveal_strlit("cli_confirm"); assert("cli_confirm"@.len() == 11);
    reveal_strlit("cli_cancelled"); assert("cli_cancelled"@.len() == 13);
    reveal_strlit("cli_no_selection"); assert("cli_current_port"@[4] == 'c'); assert("cli_no_selection"@[4] == 'n');
    reveal_strlit("cli_executing"); assert("cli_executing"@.len() == 13);
    reveal_strlit("cli_summary_title"); assert("cli_summary_title"@.len() == 17);
    reveal_strlit("cli_summary_total"); assert("cli_summary_total"@.len() == 17);
    reveal_strlit("cli_log_saved"); assert("cli_log_saved"@.len() == 13);
    reveal_strlit("cli_create_user"); assert("cli_create_user"@.len() == 15);
    reveal_strlit("cli_username_prompt"); assert("cli_username_prompt"@.len() == 19);
    reveal_strlit("cli_username_empty"); assert("cli_username_empty"@.len() == 18);
    reveal_strlit("cli_username_exists"); assert("cli_username_exists"@.len() == 19);
    reveal_strlit("cli_username_invalid"); assert("cli_username_invalid"@.len() == 20);
    reveal_strlit("cli_lock_pw"); assert("cli_lock_pw"@.len() == 11);
    reveal_strlit("{port}");
    reveal_strlit("当前 SSH 端口: {port}");
    assert("当前 SSH 端口: {port}"@.subrange(11, 17) =~= "{port}"@);
    assert(match_at("当前 SSH 端口: {port}"@, "{port}"@, 11));
    reveal_strlit("Current SSH port: {port}");
    assert("Current SSH port: {port}"@.subrange(18, 24) =~= "{port}"@);
    assert(match_at("Current SSH port: {port}"@, "{port}"@, 18));
    reveal_strlit("當前 SSH 連接埠: {port}");
    assert("當前 SSH 連接埠: {port}"@.subrange(12, 18) =~= "{port}"@);
    assert(match_at("當前 SSH 連接埠: {port}"@, "{port}"@, 12));
}

proof fn placeholders_cli_suggest_port()
    ensures
        zh_cn_text("cli_suggest_port"@) matches Some(t) && contains(t, "{port}"@),
        en_text("cli_suggest_port"@) matches Some(t) && contains(t, "{port}"@),
        zh_tw_text("cli_suggest_port"@) matches Some(t) && contains(t, "{port}"@),
{
    reveal_strlit("cli_suggest_port"); assert("cli_suggest_port"@.len() == 16);
    reveal_strlit("lang_en"); assert("lang_en"@.len() == 7);
    reveal_strlit("lang_zh_cn"); assert("lang_zh_cn"@.len() == 10);
    reveal_strlit("lang_zh_tw"); assert("lang_zh_tw"@.len() == 10);
    reveal_strlit("select_language"); assert("select_language"@.len() == 15);
    reveal_strlit("select_mode"); assert("select_mode"@.len() == 11);
    reveal_strlit("mode_cli"); assert("mode_cli"@.len() == 8);
    reveal_strlit("mode_tui"); assert("mode_tui"@.len() == 8);
    reveal_strlit("unknown_arg"); assert("unknown_arg"@.len() == 11);
    reveal_strlit("app_title"); assert("app_title"@.len() == 9);
    reveal_strlit("step_system_update"); assert("step_system_update"@.len() == 18);
    reveal_strlit("step_user_creation"); assert("step_user_creation"@.len() == 18);
    reveal_strlit("step_ssh_root_login"); assert("step_ssh_root_login"@.len() == 19);
    reveal_strlit("step_ssh_port_change"); assert("step_ssh_port_change"@.len() == 20);
    reveal_strlit("step_ssh_password_auth"); assert("step_ssh_password_auth"@.len() == 22);
    reveal_strlit("step_ssh_key_setup"); assert("step_ssh_key_setup"@.len() == 18);
    reveal_strlit("step_ufw"); assert("step_ufw"@.len() == 8);
    reveal_strlit("step_fail2ban"); assert("step_fail2ban"@.len() == 13);
    reveal_strlit("step_auto_updates"); assert("step_auto_updates"@.len() == 17);
    reveal_strlit("step_security_scan"); assert("step_security_scan"@.len() == 18);
    reveal_strlit("step_log_audit"); assert("step_log_audit"@.len() == 14);
    reveal_strlit("step_restart_ssh"); assert("cli_suggest_port"@[0] == 'c'); assert("step_restart_ssh"@[0] == 's');
    reveal_strlit("audit_root"); assert("audit_root"@.len() == 10);
    reveal_strlit("audit_pkg_mgr"); assert("audit_pkg_mgr"@.len() == 13);
    reveal_strlit("audit_ssh_port"); assert("audit_ssh_port"@.len() == 14);
    reveal_strlit("audit_password_auth"); assert("audit_password_auth"@.len() == 19);
    reveal_strlit("audit_root_login"); assert("cli_suggest_port"@[0] == 'c'); assert("audit_root_login"@[0] == 'a');
    reveal_strlit("audit_sudo_users"); assert("cli_suggest_port"@[0] == 'c'); assert("audit_sudo_users"@[0] == 'a');
    reveal_strlit("audit_fail2ban"); assert("audit_fail2ban"@.len() == 14);
    reveal_strlit("audit_ufw"); assert("audit_ufw"@.len() == 9);
    reveal_strlit("audit_auto_updates"); assert("audit_auto_updates"@.len() == 18);
    reveal_strlit("audit_sys_update"); assert("cli_suggest_port"@[0] == 'c'); assert("audit_sys_update"@[0] == 'a');
    reveal_strlit("audit_detail_root_ok"); assert("audit_detail_root_ok"@.len() == 20);
    reveal_strlit("audit_detail_root_missing"); assert("audit_detail_root_missing"@.len() == 25);
    reveal_strlit("audit_detail_pkg"); assert("cli_suggest_port"@[0] == 'c'); assert("audit_detail_pkg"@[0] == 'a');
    reveal_strlit("audit_detail_port_safe"); assert("audit_detail_port_safe"@.len() == 22);
    reveal_strlit("audit_detail_port_missing"); assert("audit_detail_port_missing"@.len() == 25);
    reveal_strlit("audit_detail_pw_disabled"); assert("audit_detail_pw_disabled"@.len() == 24);
    reveal_strlit("audit_detail_pw_missing"); assert("audit_detail_pw_missing"@.len() == 23);
    reveal_strlit("audit_detail_root_disabled"); assert("audit_detail_root_disabled"@.len() == 26);
    reveal_strlit("audit_detail_root_missing_cfg"); assert("audit_detail_root_missing_cfg"@.len() == 29);
    reveal_strlit("audit_detail_sudo_missing"); assert("audit_detail_sudo_missing"@.len() == 25);
    reveal_strlit("audit_detail_sudo_ok"); assert("audit_detail_sudo_ok"@.len() == 20);
    reveal_strlit("audit_detail_fb_installed"); assert("audit_detail_fb_installed"@.len() == 25);
    reveal_strlit("audit_detail_fb_missing"); assert("audit_detail_fb_missing"@.len() == 23);
    reveal_strlit("audit_detail_ufw_enabled"); assert("audit_detail_ufw_enabled"@.len() == 24);
    reveal_strlit("audit_detail_ufw_missing"); assert("audit_detail_ufw_missing"@.len() == 24);
    reveal_strlit("audit_detail_au_enabled"); assert("audit_detail_au_enabled"@.len() == 23);
    reveal_strlit("audit_detail_au_missing"); assert("audit_detail_au_missing"@.len() == 23);
    reveal_strlit("audit_detail_sys_uptodate"); assert("audit_detail_sys_uptodate"@.len() == 25);
    reveal_strlit("audit_detail_sys_needs_update"); assert("audit_detail_sys_needs_update"@.len() == 29);
    reveal_strlit("status_safe"); assert("status_safe"@.len() == 11);
    reveal_strlit("status_partial"); assert("status_partial"@.len() == 14);
    reveal_strlit("status_missing"); assert("status_missing"@.len() == 14);
    reveal_strlit("status_needs_update"); assert("status_needs_update"@.len() == 19);
    reveal_strlit("pkg_apt"); assert("pkg_apt"@.len() == 7);
    reveal_strlit("pkg_yum"); assert("pkg_yum"@.len() == 7);
    reveal_strlit("pkg_dnf"); assert("pkg_dnf"@.len() == 7);
    reveal_strlit("pkg_unknown"); assert("pkg_unknown"@.len() == 11);
    reveal_strlit("err_permission_denied"); assert("err_permission_denied"@.len() == 21);
    reveal_strlit("err_cmd_failed"); assert("err_cmd_failed"@.len() == 14);
    reveal_strlit("err_parse_error"); assert("err_parse_error"@.len() == 15);
    reveal_strlit("err_precondition_failed"); assert("err_precondition_failed"@.len() == 23);
    reveal_strlit("err_user_aborted"); assert("cli_suggest_port"@[0] == 'c'); assert("err_user_aborted"@[0] == 'e');
    reveal_strlit("err_unknown_pkg_mgr"); assert("err_unknown_pkg_mgr"@.len() == 19);
    reveal_strlit("err_unsupported_pkg"); assert("err_unsupported_pkg"@.len() == 19);
    reveal_strlit("err_auto_update_only_debian"); assert("err_auto_update_only_debian"@.len() == 27);
    reveal_strlit("err_unknown_pkg_lynis"); assert("err_unknown_pkg_lynis"@.len() == 21);
    reveal_strlit("err_sshd_not_found"); assert("err_sshd_not_found"@.len() == 18);
    reveal_strlit("err_no_username"); assert("err_no_username"@.len() == 15);
    reveal_strlit("err_user_exists"); assert("err_user_exists"@.len() == 15);
    reveal_strlit("err_no_sudo_before_root"); assert("err_no_sudo_before_root"@.len() == 23);
    reveal_strlit("err_no_ssh_port"); assert("err_no_ssh_port"@.len() == 15);
    reveal_strlit("err_port_zero"); assert("err_port_zero"@.len() == 13);
    reveal_strlit("err_no_sudo_before_pw"); assert("err_no_sudo_before_pw"@.len() == 21);
    reveal_strlit("err_no_target_user"); assert("err_no_target_user"@.len() == 18);
    reveal_strlit("err_no_key_action"); assert("err_no_key_action"@.len() == 17);
    reveal_strlit("err_update_failed"); assert("err_update_failed"@.len() == 17);
    reveal_strlit("err_upgrade_failed"); assert("err_upgrade_failed"@.len() == 18);
    reveal_strlit("err_ufw_allow_failed"); assert("err_ufw_allow_failed"@.len() == 20);
    reveal_strlit("err_ufw_enable_failed"); assert("err_ufw_enable_failed"@.len() == 21);
    reveal_strlit("err_install_fail2ban"); assert("err_install_fail2ban"@.len() == 20);
    reveal_strlit("err_install_unattended"); assert("err_install_unattended"@.len() == 22);
    reveal_strlit("err_lynis_exec"); assert("err_lynis_exec"@.len() == 14);
    reveal_strlit("err_sshd_check"); assert("err_sshd_check"@.len() == 14);
    reveal_strlit("err_sshd_syntax"); assert("err_sshd_syntax"@.len() == 15);
    reveal_strlit("err_ssh_restart"); assert("err_ssh_restart"@.len() == 15);
    reveal_strlit("err_backup"); assert("err_backup"@.len() == 10);
    reveal_strlit("err_read"); assert("err_read"@.len() == 8);
    reveal_strlit("err_write"); assert("err_write"@.len() == 9);
    reveal_strlit("err_setup_signal"); assert("cli_suggest_port"@[0] == 'c'); assert("err_setup_signal"@[0] == 'e');
    reveal_strlit("result_sys_updated"); assert("result_sys_updated"@.len() == 18);
    reveal_strlit("result_user_created"); assert("result_user_created"@.len() == 19);
    reveal_strlit("result_root_login_set"); assert("result_root_login_set"@.len() == 21);
    reveal_strlit("result_ssh_port_set"); assert("result_ssh_port_set"@.len() == 19);
    reveal_strlit("result_pw_auth_disabled"); assert("result_pw_auth_disabled"@.len() == 23);
    reveal_strlit("result_key_generated"); assert("result_key_generated"@.len() == 20);
    reveal_strlit("result_key_pasted"); assert("result_key_pasted"@.len() == 17);
    reveal_strlit("result_ufw_enabled"); assert("result_ufw_enabled"@.len() == 18);
    reveal_strlit("result_fail2ban_installed"); assert("result_fail2ban_installed"@.len() == 25);
    reveal_strlit("result_auto_updates_enabled"); assert("result_auto_updates_enabled"@.len() == 27);
    reveal_strlit("result_lynis_ok"); assert("result_lynis_ok"@.len() == 15);
    reveal_strlit("result_lynis_fail"); assert("result_lynis_fail"@.len() == 17);
    reveal_strlit("result_logwatch_installed"); assert("result_logwatch_installed"@.len() == 25);
    reveal_strlit("result_ssh_restarted"); assert("result_ssh_restarted"@.len() == 20);
    reveal_strlit("result_sshd_cfg_set"); assert("result_sshd_cfg_set"@.len() == 19);
    reveal_strlit("result_sshd_syntax_ok"); assert("result_sshd_syntax_ok"@.len() == 21);
    reveal_strlit("result_sshd_syntax_err"); assert("result_sshd_syntax_err"@.len() == 22);
    reveal_strlit("log_audit"); assert("log_audit"@.len() == 9);
    reveal_strlit("log_operation"); assert("log_operation"@.len() == 13);
    reveal_strlit("log_rollback"); assert("log_rollback"@.len() == 12);
    reveal_strlit("log_audit_start"); assert("log_audit_start"@.len() == 15);
    reveal_strlit("log_audit_done"); assert("log_audit_done"@.len() == 14);
    reveal_strlit("log_step_start"); assert("log_step_start"@.len() == 14);
    reveal_strlit("log_step_complete"); assert("log_step_complete"@.len() == 17);
    reveal_strlit("log_step_failed"); assert("log_step_failed"@.len() == 15);
    reveal_strlit("log_rollback_auto"); assert("log_rollback_auto"@.len() == 17);
    reveal_strlit("undo_user_remove"); assert("cli_suggest_port"@[0] == 'c'); assert("undo_user_remove"@[0] == 'u');
    reveal_strlit("undo_pkg_remove"); assert("undo_pkg_remove"@.len() == 15);
    reveal_strlit("undo_cmd"); assert("undo_cmd"@.len() == 8);
    reveal_strlit("undo_file_restore"); assert("undo_file_restore"@.len() == 17);
    reveal_strlit("undo_ufw_disable"); assert("cli_suggest_port"@[0] == 'c'); assert("undo_ufw_disable"@[0] == 'u');
    reveal_strlit("undo_ufw_delete"); assert("undo_ufw_delete"@.len() == 15);
    reveal_strlit("undo_key_delete"); assert("undo_key_delete"@.len() == 15);
    reveal_strlit("cli_welcome"); assert("cli_welcome"@.len() == 11);
    reveal_strlit("cli_auditing"); assert("cli_auditing"@.len() == 12);
    reveal_strlit("cli_audit_done"); assert("cli_audit_done"@.len() == 14);
    reveal_strlit("cli_select_steps"); assert("cli_suggest_port"@[5] == 'u'); assert("cli_select_steps"@[5] == 'e');
    reveal_strlit("cli_hint_nav"); assert("cli_hint_nav"@.len() == 12);
    reveal_strlit("cli_collecting"); assert("cli_collecting"@.len() == 14);
    reveal_strlit("cli_will_execute"); assert("cli_suggest_port"@[4] == 's'); assert("cli_will_execute"@[4] == 'w');
    reveal_strlit("cli_confirm"); assert("cli_confirm"@.len() == 11);
    reveal_strlit("cli_cancelled"); assert("cli_cancelled"@.len() == 13);
    reveal_strlit("cli_no_selection"); assert("cli_suggest_port"@[4] == 's'); assert("cli_no_selection"@[4] == 'n');
    reveal_strlit("cli_executing"); assert("cli_executing"@.len() == 13);
    reveal_strlit("cli_summary_title"); assert("cli_summary_title"@.len() == 17);
    reveal_strlit("cli_summary_total"); assert("cli_summary_total"@.len() == 17);
    reveal_strlit("cli_log_saved"); assert("cli_log_saved"@.len() == 13);
    reveal_strlit("cli_create_user"); assert("cli_create_user"@.len() == 15);
    reveal_strlit("cli_username_prompt"); assert("cli_username_prompt"@.len() == 19);
    reveal_strlit("cli_username_empty"); assert("cli_username_empty"@.len() == 18);
    reveal_strlit("cli_username_exists"); assert("cli_username_exists"@.len() == 19);
    reveal_strlit("cli_username_invalid"); assert("cli_username_invalid"@.len() == 20);
    reveal_strlit("cli_lock_pw"); assert("cli_lock_pw"@.len() == 11);
    reveal_strlit("cli_current_port"); assert("cli_suggest_port"@[4] == 's'); assert("cli_current_port"@[4] == 'c');
    reveal_strlit("cli_default_port"); assert("cli_suggest_port"@[4] == 's'); assert("cli_default_port"@[4] == 'd');
    reveal_strlit("{port}");
    reveal_strlit("建议端口: {port}");
    assert("建议端口: {port}"@.subrange(6, 12) =~= "{port}"@);
    assert(match_at("建议端口: {port}"@, "{port}"@, 6));
    reveal_strlit("Suggested port: {port}");
    assert("Suggested port: {port}"@.subrange(16, 22) =~= "{port}"@);
    assert(match_at("Suggested port: {port}"@, "{port}"@, 16));
    reveal_strlit("建議連接埠: {port}");
    assert("建議連接埠: {port}"@.subrange(7, 13) =~= "{port}"@);
    assert(match_at("建議連接埠: {port}"@, "{port}"@, 7));
}

proof fn placeholders_cli_existing_sudo()
    ensures
        zh_cn_text("cli_existing_sudo"@) matches Some(t) && contains(t, "{users}"@),
        en_text("cli_existing_sudo"@) matches Some(t) && contains(t, "{users}"@),
        zh_tw_text("cli_existing_sudo"@) matches Some(t) && contains(t, "{users}"@),
{
    reveal_strlit("cli_existing_sudo"); assert("cli_existing_sudo"@.len() == 17);
    reveal_strlit("lang_en"); assert("lang_en"@.len() == 7);
    reveal_strlit("lang_zh_cn"); assert("lang_zh_cn"@.len() == 10);
    reveal_strlit("lang_zh_tw"); assert("lang_zh_tw"@.len() == 10);
    reveal_strlit("select_language"); assert("select_language"@.len() == 15);
    reveal_strlit("select_mode"); assert("select_mode"@.len() == 11);
    reveal_strlit("mode_cli"); assert("mode_cli"@.len() == 8);
    reveal_strlit("mode_tui"); assert("mode_tui"@.len() == 8);
    reveal_strlit("unknown_arg"); assert("unknown_arg"@.len() == 11);
    reveal_strlit("app_title"); assert("app_title"@.len() == 9);
    reveal_strlit("step_system_update"); assert("step_system_update"@.len() == 18);
    reveal_strlit("step_user_creation"); assert("step_user_creation"@.len() == 18);
    reveal_strlit("step_ssh_root_login"); assert("step_ssh_root_login"@.len() == 19);
    reveal_strlit("step_ssh_port_change"); assert("step_ssh_port_change"@.len() == 20);
    reveal_strlit("step_ssh_password_auth"); assert("step_ssh_password_auth"@.len() == 22);
    reveal_strlit("step_ssh_key_setup"); assert("step_ssh_key_setup"@.len() == 18);
    reveal_strlit("step_ufw"); assert("step_ufw"@.len() == 8);
    reveal_strlit("step_fail2ban"); assert("step_fail2ban"@.len() == 13);
    reveal_strlit("step_auto_updates"); assert("cli_existing_sudo"@[0] == 'c'); assert("step_auto_updates"@[0] == 's');
    reveal_strlit("step_security_scan"); assert("step_security_scan"@.len() == 18);
    reveal_strlit("step_log_audit"); assert("step_log_audit"@.len() == 14);
    reveal_strlit("step_restart_ssh"); assert("step_restart_ssh"@.len() == 16);
    reveal_strlit("audit_root"); assert("audit_root"@.len() == 10);
    reveal_strlit("audit_pkg_mgr"); assert("audit_pkg_mgr"@.len() == 13);
    reveal_strlit("audit_ssh_port"); assert("audit_ssh_port"@.len() == 14);
    reveal_strlit("audit_password_auth"); assert("audit_password_auth"@.len() == 19);
    reveal_strlit("audit_root_login"); assert("audit_root_login"@.len() == 16);
    reveal_strlit("audit_sudo_users"); assert("audit_sudo_users"@.len() == 16);
    reveal_strlit("audit_fail2ban"); assert("audit_fail2ban"@.len() == 14);
    reveal_strlit("audit_ufw"); assert("audit_ufw"@.len() == 9);
    reveal_strlit("audit_auto_updates"); assert("audit_auto_updates"@.len() == 18);
    reveal_strlit("audit_sys_update"); assert("audit_sys_update"@.len() == 16);
    reveal_strlit("audit_detail_root_ok"); assert("audit_detail_root_ok"@.len() == 20);
    reveal_strlit("audit_detail_root_missing"); assert("audit_detail_root_missing"@.len() == 25);
    reveal_strlit("audit_detail_pkg"); assert("audit_detail_pkg"@.len() == 16);
    reveal_strlit("audit_detail_port_safe"); assert("audit_detail_port_safe"@.len() == 22);
    reveal_strlit("audit_detail_port_missing"); assert("audit_detail_port_missing"@.len() == 25);
    reveal_strlit("audit_detail_pw_disabled"); assert("audit_detail_pw_disabled"@.len() == 24);
    reveal_strlit("audit_detail_pw_missing"); assert("audit_detail_pw_missing"@.len() == 23);
    reveal_strlit("audit_detail_root_disabled"); assert("audit_detail_root_disabled"@.len() == 26);
    reveal_strlit("audit_detail_root_missing_cfg"); assert("audit_detail_root_missing_cfg"@.len() == 29);
    reveal_strlit("audit_detail_sudo_missing"); assert("audit_detail_sudo_missing"@.len() == 25);
    reveal_strlit("audit_detail_sudo_ok"); assert("audit_detail_sudo_ok"@.len() == 20);
    reveal_strlit("audit_detail_fb_installed"); assert("audit_detail_fb_installed"@.len() == 25);
    reveal_strlit("audit_detail_fb_missing"); assert("audit_detail_fb_missing"@.len() == 23);
    reveal_strlit("audit_detail_ufw_enabled"); assert("audit_detail_ufw_enabled"@.len() == 24);
    reveal_strlit("audit_detail_ufw_missing"); assert("audit_detail_ufw_missing"@.len() == 24);
    reveal_strlit("audit_detail_au_enabled"); assert("audit_detail_au_enabled"@.len() == 23);
    reveal_strlit("audit_detail_au_missing"); assert("audit_detail_au_missing"@.len() == 23);
    reveal_strlit("audit_detail_sys_uptodate"); assert("audit_detail_sys_uptodate"@.len() == 25);
    reveal_strlit("audit_detail_sys_needs_update"); assert("audit_detail_sys_needs_update"@.len() == 29);
    reveal_strlit("status_safe"); assert("status_safe"@.len() == 11);
    reveal_strlit("status_partial"); assert("status_partial"@.len() == 14);
    reveal_strlit("status_missing"); assert("status_missing"@.len() == 14);
    reveal_strlit("status_needs_update"); assert("status_needs_update"@.len() == 19);
    reveal_strlit("pkg_apt"); assert("pkg_apt"@.len() == 7);
    reveal_strlit("pkg_yum"); assert("pkg_yum"@.len() == 7);
    reveal_strlit("pkg_dnf"); assert("pkg_dnf"@.len() == 7);
    reveal_strlit("pkg_unknown"); assert("pkg_unknown"@.len() == 11);
    reveal_strlit("err_permission_denied"); assert("err_permission_denied"@.len() == 21);
    reveal_strlit("err_cmd_failed"); assert("err_cmd_failed"@.len() == 14);
    reveal_strlit("err_parse_error"); assert("err_parse_error"@.len() == 15);
    reveal_strlit("err_precondition_failed"); assert("err_precondition_failed"@.len() == 23);
    reveal_strlit("err_user_aborted"); assert("err_user_aborted"@.len() == 16);
    reveal_strlit("err_unknown_pkg_mgr"); assert("err_unknown_pkg_mgr"@.len() == 19);
    reveal_strlit("err_unsupported_pkg"); assert("err_unsupported_pkg"@.len() == 19);
    reveal_strlit("err_auto_update_only_debian"); assert("err_auto_update_only_debian"@.len() == 27);
    reveal_strlit("err_unknown_pkg_lynis"); assert("err_unknown_pkg_lynis"@.len() == 21);
    reveal_strlit("err_sshd_not_found"); assert("err_sshd_not_found"@.len() == 18);
    reveal_strlit("err_no_username"); assert("err_no_username"@.len() == 15);
    reveal_strlit("err_user_exists"); assert("err_user_exists"@.len() == 15);
    reveal_strlit("err_no_sudo_before_root"); assert("err_no_sudo_before_root"@.len() == 23);
    reveal_strlit("err_no_ssh_port"); assert("err_no_ssh_port"@.len() == 15);
    reveal_strlit("err_port_zero"); assert("err_port_zero"@.len() == 13);
    reveal_strlit("err_no_sudo_before_pw"); assert("err_no_sudo_before_pw"@.len() == 21);
    reveal_strlit("err_no_target_user"); assert("err_no_target_user"@.len() == 18);
    reveal_strlit("err_no_key_action"); assert("cli_existing_sudo"@[0] == 'c'); assert("err_no_key_action"@[0] == 'e');
    reveal_strlit("err_update_failed"); assert("cli_existing_sudo"@[0] == 'c'); assert("err_update_failed"@[0] == 'e');
    reveal_strlit("err_upgrade_failed"); assert("err_upgrade_failed"@.len() == 18);
    reveal_strlit("err_ufw_allow_failed"); assert("err_ufw_allow_failed"@.len() == 20);
    reveal_strlit("err_ufw_enable_failed"); assert("err_ufw_enable_failed"@.len() == 21);
    reveal_strlit("err_install_fail2ban"); assert("err_install_fail2ban"@.len() == 20);
    reveal_strlit("err_install_unattended"); assert("err_install_unattended"@.len() == 22);
    reveal_strlit("err_lynis_exec"); assert("err_lynis_exec"@.len() == 14);
    reveal_strlit("err_sshd_check"); assert("err_sshd_check"@.len() == 14);
    reveal_strlit("err_sshd_syntax"); assert("err_sshd_syntax"@.len() == 15);
    reveal_strlit("err_ssh_restart"); assert("err_ssh_restart"@.len() == 15);
    reveal_strlit("err_backup"); assert("err_backup"@.len() == 10);
    reveal_strlit("err_read"); assert("err_read"@.len() == 8);
    reveal_strlit("err_write"); assert("err_write"@.len() == 9);
    reveal_strlit("err_setup_signal"); assert("err_setup_signal"@.len() == 16);
    reveal_strlit("result_sys_updated"); assert("result_sys_updated"@.len() == 18);
    reveal_strlit("result_user_created"); assert("result_user_created"@.len() == 19);
    reveal_strlit("result_root_login_set"); assert("result_root_login_set"@.len() == 21);
    reveal_strlit("result_ssh_port_set"); assert("result_ssh_port_set"@.len() == 19);
    reveal_strlit("result_pw_auth_disabled"); assert("result_pw_auth_disabled"@.len() == 23);
    reveal_strlit("result_key_generated"); assert("result_key_generated"@.len() == 20);
    reveal_strlit("result_key_pasted"); assert("cli_existing_sudo"@[0] == 'c'); assert("result_key_pasted"@[0] == 'r');
    reveal_strlit("result_ufw_enabled"); assert("result_ufw_enabled"@.len() == 18);
    reveal_strlit("result_fail2ban_installed"); assert("result_fail2ban_installed"@.len() == 25);
    reveal_strlit("result_auto_updates_enabled"); assert("result_auto_updates_enabled"@.len() == 27);
    reveal_strlit("result_lynis_ok"); assert("result_lynis_ok"@.len() == 15);
    reveal_strlit("result_lynis_fail"); assert("cli_existing_sudo"@[0] == 'c'); assert("result_lynis_fail"@[0] == 'r');
    reveal_strlit("result_logwatch_installed"); assert("result_logwatch_installed"@.len() == 25);
    reveal_strlit("result_ssh_restarted"); assert("result_ssh_restarted"@.len() == 20);
    reveal_strlit("result_sshd_cfg_set"); assert("result_sshd_cfg_set"@.len() == 19);
    reveal_strlit("result_sshd_syntax_ok"); assert("result_sshd_syntax_ok"@.len() == 21);
    reveal_strlit("result_sshd_syntax_err"); assert("result_sshd_syntax_err"@.len() == 22);
    reveal_strlit("log_audit"); assert("log_audit"@.len() == 9);
    reveal_strlit("log_operation"); assert("log_operation"@.len() == 13);
    reveal_strlit("log_rollback"); assert("log_rollback"@.len() == 12);
    reveal_strlit("log_audit_start"); assert("log_audit_start"@.len() == 15);
    reveal_strlit("log_audit_done"); assert("log_audit_done"@.len() == 14);
    reveal_strlit("log_step_start"); assert("log_step_start"@.len() == 14);
    reveal_strlit("log_step_complete"); assert("cli_existing_sudo"@[0] == 'c'); assert("log_step_complete"@[0] == 'l');
    reveal_strlit("log_step_failed"); assert("log_step_failed"@.len() == 15);
    reveal_strlit("log_rollback_auto"); assert("cli_existing_sudo"@[0] == 'c'); assert("log_rollback_auto"@[0] == 'l');
    reveal_strlit("undo_user_remove"); assert("undo_user_remove"@.len() == 16);
    reveal_strlit("undo_pkg_remove"); assert("undo_pkg_remove"@.len() == 15);
    reveal_strlit("undo_cmd"); assert("undo_cmd"@.len() == 8);
    reveal_strlit("undo_file_restore"); assert("cli_existing_sudo"@[0] == 'c'); assert("undo_file_restore"@[0] == 'u');
    reveal_strlit("undo_ufw_disable"); assert("undo_ufw_disable"@.len() == 16);
    reveal_strlit("undo_ufw_delete"); assert("undo_ufw_delete"@.len() == 15);
    reveal_strlit("undo_key_delete"); assert("undo_key_delete"@.len() == 15);
    reveal_strlit("cli_welcome"); assert("cli_welcome"@.len() == 11);
    reveal_strlit("cli_auditing"); assert("cli_auditing"@.len() == 12);
    reveal_strlit("cli_audit_done"); assert("cli_audit_done"@.len() == 14);
    reveal_strlit("cli_select_steps"); assert("cli_select_steps"@.len() == 16);
    reveal_strlit("cli_hint_nav"); assert("cli_hint_nav"@.len() == 12);
    reveal_strlit("cli_collecting"); assert("cli_collecting"@.len() == 14);
    reveal_strlit("cli_will_execute"); assert("cli_will_execute"@.len() == 16);
    reveal_strlit("cli_confirm"); assert("cli_confirm"@.len() == 11);
    reveal_strlit("cli_cancelled"); assert("cli_cancelled"@.len() == 13);
    reveal_strlit("cli_no_selection"); assert("cli_no_selection"@.len() == 16);
    reveal_strlit("cli_executing"); assert("cli_executing"@.len() == 13);
    reveal_strlit("cli_summary_title"); assert("cli_existing_sudo"@[4] == 'e'); assert("cli_summary_title"@[4] == 's');
    reveal_strlit("cli_summary_total"); assert("cli_existing_sudo"@[4] == 'e'); assert("cli_summary_total"@[4] == 's');
    reveal_strlit("cli_log_saved"); assert("cli_log_saved"@.len() == 13);
    reveal_strlit("cli_create_user"); assert("cli_create_user"@.len() == 15);
    reveal_strlit("cli_username_prompt"); assert("cli_username_prompt"@.len() == 19);
    reveal_strlit("cli_username_empty"); assert("cli_username_empty"@.len() == 18);
    reveal_strlit("cli_username_exists"); assert("cli_username_exists"@.len() == 19);
    reveal_strlit("cli_username_invalid"); assert("cli_username_invalid"@.len() == 20);
    reveal_strlit("cli_lock_pw"); assert("cli_lock_pw"@.len() == 11);
    reveal_strlit("cli_current_port"); assert("cli_current_port"@.len() == 16);
    reveal_strlit("cli_default_port"); assert("cli_default_port"@.len() == 16);
    reveal_strlit("cli_suggest_port"); assert("cli_suggest_port"@.len() == 16);
    reveal_strlit("cli_port_prompt"); assert("cli_port_prompt"@.len() == 15);
    reveal_strlit("cli_port_invalid"); assert("cli_port_invalid"@.len() == 16);
    reveal_strlit("cli_port_zero"); assert("cli_port_zero"@.len() == 13);
    reveal_strlit("{users}");
    reveal_strlit("已有 sudo 用户: {users}");
    assert("已有 sudo 用户: {users}"@.subrange(12, 19) =~= "{users}"@);
    assert(match_at("已有 sudo 用户: {users}"@, "{users}"@, 12));
    reveal_strlit("Existing sudo users: {users}");
    assert("Existing sudo users: {users}"@.subrange(21, 28) =~= "{users}"@);
    assert(match_at("Existing sudo users: {users}"@, "{users}"@, 21));
    reveal_strlit("已有 sudo 用戶: {users}");
    assert("已有 sudo 用戶: {users}"@.subrange(12, 19) =~= "{users}"@);
    assert(match_at("已有 sudo 用戶: {users}"@, "{users}"@, 12));
}

proof fn placeholders_cli_key_found()
    ensures
        zh_cn_text("cli_key_found"@) matches Some(t) && contains(t, "{fp}"@),
        zh_cn_text("cli_key_found"@) matches Some(t) && contains(t, "{user}"@),
        en_text("cli_key_found"@) matches Some(t) && contains(t, "{fp}"@),
        en_text("cli_key_found"@) matches Some(t) && contains(t, "{user}"@),
        zh_tw_text("cli_key_found"@) matches Some(t) && contains(t, "{fp}"@),
        zh_tw_text("cli_key_found"@) matches Some(t) && contains(t, "{user}"@),
{
    reveal_strlit("cli_key_found"); assert("cli_key_found"@.len() == 13);
    reveal_strlit("lang_en"); assert("lang_en"@.len() == 7);
    reveal_strlit("lang_zh_cn"); assert("lang_zh_cn"@.len() == 10);
    reveal_strlit("lang_zh_tw"); assert("lang_zh_tw"@.len() == 10);
    reveal_strlit("select_language"); assert("select_language"@.len() == 15);
    reveal_strlit("select_mode"); assert("select_mode"@.len() == 11);
    reveal_strlit("mode_cli"); assert("mode_cli"@.len() == 8);
    reveal_strlit("mode_tui"); assert("mode_tui"@.len() == 8);
    reveal_strlit("unknown_arg"); assert("unknown_arg"@.len() == 11);
    reveal_strlit("app_title"); assert("app_title"@.len() == 9);
    reveal_strlit("step_system_update"); assert("step_system_update"@.len() == 18);
    reveal_strlit("step_user_creation"); assert("step_user_creation"@.len() == 18);
    reveal_strlit("step_ssh_root_login"); assert("step_ssh_root_login"@.len() == 19);
    reveal_strlit("step_ssh_port_change"); assert("step_ssh_port_change"@.len() == 20);
    reveal_strlit("step_ssh_password_auth"); assert("step_ssh_password_auth"@.len() == 22);
    reveal_strlit("step_ssh_key_setup"); assert("step_ssh_key_setup"@.len() == 18);
    reveal_strlit("step_ufw"); assert("step_ufw"@.len() == 8);
    reveal_strlit("step_fail2ban"); assert("cli_key_found"@[0] == 'c'); assert("step_fail2ban"@[0] == 's');
    reveal_strlit("step_auto_updates"); assert("step_auto_updates"@.len() == 17);
    reveal_strlit("step_security_scan"); assert("step_security_scan"@.len() == 18);
    reveal_strlit("step_log_audit"); assert("step_log_audit"@.len() == 14);
    reveal_strlit("step_restart_ssh"); assert("step_restart_ssh"@.len() == 16);
    reveal_strlit("audit_root"); assert("audit_root"@.len() == 10);
    reveal_strlit("audit_pkg_mgr"); assert("cli_key_found"@[0] == 'c'); assert("audit_pkg_mgr"@[0] == 'a');
    reveal_strlit("audit_ssh_port"); assert("audit_ssh_port"@.len() == 14);
    reveal_strlit("audit_password_auth"); assert("audit_password_auth"@.len() == 19);
    reveal_strlit("audit_root_login"); assert("audit_root_login"@.len() == 16);
    reveal_strlit("audit_sudo_users"); assert("audit_sudo_users"@.len() == 16);
    reveal_strlit("audit_fail2ban"); assert("audit_fail2ban"@.len() == 14);
    reveal_strlit("audit_ufw"); assert("audit_ufw"@.len() == 9);
    reveal_strlit("audit_auto_updates"); assert("audit_auto_updates"@.len() == 18);
    reveal_strlit("audit_sys_update"); assert("audit_sys_update"@.len() == 16);
    reveal_strlit("audit_detail_root_ok"); assert("audit_detail_root_ok"@.len() == 20);
    reveal_strlit("audit_detail_root_missing"); assert("audit_detail_root_missing"@.len() == 25);
    reveal_strlit("audit_detail_pkg"); assert("audit_detail_pkg"@.len() == 16);
    reveal_strlit("audit_detail_port_safe"); assert("audit_detail_port_safe"@.len() == 22);
    reveal_strlit("audit_detail_port_missing"); assert("audit_detail_port_missing"@.len() == 25);
    reveal_strlit("audit_detail_pw_disabled"); assert("audit_detail_pw_disabled"@.len() == 24);
    reveal_strlit("audit_detail_pw_missing"); assert("audit_detail_pw_missing"@.len() == 23);
    reveal_strlit("audit_detail_root_disabled"); assert("audit_detail_root_disabled"@.len() == 26);
    reveal_strlit("audit_detail_root_missing_cfg"); assert("audit_detail_root_missing_cfg"@.len() == 29);
    reveal_strlit("audit_detail_sudo_missing"); assert("audit_detail_sudo_missing"@.len() == 25);
    reveal_strlit("audit_detail_sudo_ok"); assert("audit_detail_sudo_ok"@.len() == 20);
    reveal_strlit("audit_detail_fb_installed"); assert("audit_detail_fb_installed"@.len() == 25);
    reveal_strlit("audit_detail_fb_missing"); assert("audit_detail_fb_missing"@.len() == 23);
    reveal_strlit("audit_detail_ufw_enabled"); assert("audit_detail_ufw_enabled"@.len() == 24);
    reveal_strlit("audit_detail_ufw_missing"); assert("audit_detail_ufw_missing"@.len() == 24);
    reveal_strlit("audit_detail_au_enabled"); assert("audit_detail_au_enabled"@.len() == 23);
    reveal_strlit("audit_detail_au_missing"); assert("audit_detail_au_missing"@.len() == 23);
    reveal_strlit("audit_detail_sys_uptodate"); assert("audit_detail_sys_uptodate"@.len() == 25);
    reveal_strlit("audit_detail_sys_needs_update"); assert("audit_detail_sys_needs_update"@.len() == 29);
    reveal_strlit("status_safe"); assert("status_safe"@.len() == 11);
    reveal_strlit("status_partial"); assert("status_partial"@.len() == 14);
    reveal_strlit("status_missing"); assert("status_missing"@.len() == 14);
    reveal_strlit("status_needs_update"); assert("status_needs_update"@.len() == 19);
    reveal_strlit("pkg_apt"); assert("pkg_apt"@.len() == 7);
    reveal_strlit("pkg_yum"); assert("pkg_yum"@.len() == 7);
    reveal_strlit("pkg_dnf"); assert("pkg_dnf"@.len() == 7);
    reveal_strlit("pkg_unknown"); assert("pkg_unknown"@.len() == 11);
    reveal_strlit("err_permission_denied"); assert("err_permission_denied"@.len() == 21);
    reveal_strlit("err_cmd_failed"); assert("err_cmd_failed"@.len() == 14);
    reveal_strlit("err_parse_error"); assert("err_parse_error"@.len() == 15);
    reveal_strlit("err_precondition_failed"); assert("err_precondition_failed"@.len() == 23);
    reveal_strlit("err_user_aborted"); assert("err_user_aborted"@.len() == 16);
    reveal_strlit("err_unknown_pkg_mgr"); assert("err_unknown_pkg_mgr"@.len() == 19);
    reveal_strlit("err_unsupported_pkg"); assert("err_unsupported_pkg"@.len() == 19);
    reveal_strlit("err_auto_update_only_debian"); assert("err_auto_update_only_debian"@.len() == 27);
    reveal_strlit("err_unknown_pkg_lynis"); assert("err_unknown_pkg_lynis"@.len() == 21);
    reveal_strlit("err_sshd_not_found"); assert("err_sshd_not_found"@.len() == 18);
    reveal_strlit("err_no_username"); assert("err_no_username"@.len() == 15);
    reveal_strlit("err_user_exists"); assert("err_user_exists"@.len() == 15);
    reveal_strlit("err_no_sudo_before_root"); assert("err_no_sudo_before_root"@.len() == 23);
    reveal_strlit("err_no_ssh_port"); assert("err_no_ssh_port"@.len() == 15);
    reveal_strlit("err_port_zero"); assert("cli_key_found"@[0] == 'c'); assert("err_port_zero"@[0] == 'e');
    reveal_strlit("err_no_sudo_before_pw"); assert("err_no_sudo_before_pw"@.len() == 21);
    reveal_strlit("err_no_target_user"); assert("err_no_target_user"@.len() == 18);
    reveal_strlit("err_no_key_action"); assert("err_no_key_action"@.len() == 17);
    reveal_strlit("err_update_failed"); assert("err_update_failed"@.len() == 17);
    reveal_strlit("err_upgrade_failed"); assert("err_upgrade_failed"@.len() == 18);
    reveal_strlit("err_ufw_allow_failed"); assert("err_ufw_allow_failed"@.len() == 20);
    reveal_strlit("err_ufw_enable_failed"); assert("err_ufw_enable_failed"@.len() == 21);
    reveal_strlit("err_install_fail2ban"); assert("err_install_fail2ban"@.len() == 20);
    reveal_strlit("err_install_unattended"); assert("err_install_unattended"@.len() == 22);
    reveal_strlit("err_lynis_exec"); assert("err_lynis_exec"@.len() == 14);
    reveal_strlit("err_sshd_check"); assert("err_sshd_check"@.len() == 14);
    reveal_strlit("err_sshd_syntax"); assert("err_sshd_syntax"@.len() == 15);
    reveal_strlit("err_ssh_restart"); assert("err_ssh_restart"@.len() == 15);
    reveal_strlit("err_backup"); assert("err_backup"@.len() == 10);
    reveal_strlit("err_read"); assert("err_read"@.len() == 8);
    reveal_strlit("err_write"); assert("err_write"@.len() == 9);
    reveal_strlit("err_setup_signal"); assert("err_setup_signal"@.len() == 16);
    reveal_strlit("result_sys_updated"); assert("result_sys_updated"@.len() == 18);
    reveal_strlit("result_user_created"); assert("result_user_created"@.len() == 19);
    reveal_strlit("result_root_login_set"); assert("result_root_login_set"@.len() == 21);
    reveal_strlit("result_ssh_port_set"); assert("result_ssh_port_set"@.len() == 19);
    reveal_strlit("result_pw_auth_disabled"); assert("result_pw_auth_disabled"@.len() == 23);
    reveal_strlit("result_key_generated"); assert("result_key_generated"@.len() == 20);
    reveal_strlit("result_key_pasted"); assert("result_key_pasted"@.len() == 17);
    reveal_strlit("result_ufw_enabled"); assert("result_ufw_enabled"@.len() == 18);
    reveal_strlit("result_fail2ban_installed"); assert("result_fail2ban_installed"@.len() == 25);
    reveal_strlit("result_auto_updates_enabled"); assert("result_auto_updates_enabled"@.len() == 27);
    reveal_strlit("result_lynis_ok"); assert("result_lynis_ok"@.len() == 15);
    reveal_strlit("result_lynis_fail"); assert("result_lynis_fail"@.len() == 17);
    reveal_strlit("result_logwatch_installed"); assert("result_logwatch_installed"@.len() == 25);
    reveal_strlit("result_ssh_restarted"); assert("result_ssh_restarted"@.len() == 20);
    reveal_strlit("result_sshd_cfg_set"); assert("result_sshd_cfg_set"@.len() == 19);
    reveal_strlit("result_sshd_syntax_ok"); assert("result_sshd_syntax_ok"@.len() == 21);
    reveal_strlit("result_sshd_syntax_err"); assert("result_sshd_syntax_err"@.len() == 22);
    reveal_strlit("log_audit"); assert("log_audit"@.len() == 9);
    reveal_strlit("log_operation"); assert("cli_key_found"@[0] == 'c'); assert("log_operation"@[0] == 'l');
    reveal_strlit("log_rollback"); assert("log_rollback"@.len() == 12);
    reveal_strlit("log_audit_start"); assert("log_audit_start"@.len() == 15);
    reveal_strlit("log_audit_done"); assert("log_audit_done"@.len() == 14);
    reveal_strlit("log_step_start"); assert("log_step_start"@.len() == 14);
    reveal_strlit("log_step_complete"); assert("log_step_complete"@.len() == 17);
    reveal_strlit("log_step_failed"); assert("log_step_failed"@.len() == 15);
    reveal_strlit("log_rollback_auto"); assert("log_rollback_auto"@.len() == 17);
    reveal_strlit("undo_user_remove"); assert("undo_user_remove"@.len() == 16);
    reveal_strlit("undo_pkg_remove"); assert("undo_pkg_remove"@.len() == 15);
    reveal_strlit("undo_cmd"); assert("undo_cmd"@.len() == 8);
    reveal_strlit("undo_file_restore"); assert("undo_file_restore"@.len() == 17);
    reveal_strlit("undo_ufw_disable"); assert("undo_ufw_disable"@.len() == 16);
    reveal_strlit("undo_ufw_delete"); assert("undo_ufw_delete"@.len() == 15);
    reveal_strlit("undo_key_delete"); assert("undo_key_delete"@.len() == 15);
    reveal_strlit("cli_welcome"); assert("cli_welcome"@.len() == 11);
    reveal_strlit("cli_auditing"); assert("cli_auditing"@.len() == 12);
    reveal_strlit("cli_audit_done"); assert("cli_audit_done"@.len() == 14);
    reveal_strlit("cli_select_steps"); assert("cli_select_steps"@.len() == 16);
    reveal_strlit("cli_hint_nav"); assert("cli_hint_nav"@.len() == 12);
    reveal_strlit("cli_collecting"); assert("cli_collecting"@.len() == 14);
    reveal_strlit("cli_will_execute"); assert("cli_will_execute"@.len() == 16);
    reveal_strlit("cli_confirm"); assert("cli_confirm"@.len() == 11);
    reveal_strlit("cli_cancelled"); assert("cli_key_found"@[4] == 'k'); assert("cli_cancelled"@[4] == 'c');
    reveal_strlit("cli_no_selection"); assert("cli_no_selection"@.len() == 16);
    reveal_strlit("cli_executing"); assert("cli_key_found"@[4] == 'k'); assert("cli_executing"@[4] == 'e');
    reveal_strlit("cli_summary_title"); assert("cli_summary_title"@.len() == 17);
    reveal_strlit("cli_summary_total"); assert("cli_summary_total"@.len() == 17);
    reveal_strlit("cli_log_saved"); assert("cli_key_found"@[4] == 'k'); assert("cli_log_saved"@[4] == 'l');
    reveal_strlit("cli_create_user"); assert("cli_create_user"@.len() == 15);
    reveal_strlit("cli_username_prompt"); assert("cli_username_prompt"@.len() == 19);
    reveal_strlit("cli_username_empty"); assert("cli_username_empty"@.len() == 18);
    reveal_strlit("cli_username_exists"); assert("cli_username_exists"@.len() == 19);
    reveal_strlit("cli_username_invalid"); assert("cli_username_invalid"@.len() == 20);
    reveal_strlit("cli_lock_pw"); assert("cli_lock_pw"@.len() == 11);
    reveal_strlit("cli_current_port"); assert("cli_current_port"@.len() == 16);
    reveal_strlit("cli_default_port"); assert("cli_default_port"@.len() == 16);
    reveal_strlit("cli_suggest_port"); assert("cli_suggest_port"@.len() == 16);
    reveal_strlit("cli_port_prompt"); assert("cli_port_prompt"@.len() == 15);
    reveal_strlit("cli_port_invalid"); assert("cli_port_invalid"@.len() == 16);
    reveal_strlit("cli_port_zero"); assert("cli_key_found"@[4] == 'k'); assert("cli_port_zero"@[4] == 'p');
    reveal_strlit("cli_existing_sudo"); assert("cli_existing_sudo"@.len() == 17);
    reveal_strlit("cli_no_sudo"); assert("cli_no_sudo"@.len() == 11);
    reveal_strlit("cli_manual_user"); assert("cli_manual_user"@.len() == 15);
    reveal_strlit("cli_user_prompt"); assert("cli_user_prompt"@.len() == 15);
    reveal_strlit("cli_no_input"); assert("cli_no_input"@.len() == 12);
    reveal_strlit("cli_select_user"); assert("cli_select_user"@.len() == 15);
    reveal_strlit("{fp}");
    reveal_strlit("{user}");
    reveal_strlit("用户 {user} 已有公钥: {fp}");
    assert("用户 {user} 已有公钥: {fp}"@.subrange(16, 20) =~= "{fp}"@);
    assert(match_at("用户 {user} 已有公钥: {fp}"@, "{fp}"@, 16));
    assert("用户 {user} 已有公钥: {fp}"@.subrange(3, 9) =~= "{user}"@);
    assert(match_at("用户 {user} 已有公钥: {fp}"@, "{user}"@, 3));
    reveal_strlit("User {user} already has a public key: {fp}");
    assert("User {user} already has a public key: {fp}"@.subrange(38, 42) =~= "{fp}"@);
    assert(match_at("User {user} already has a public key: {fp}"@, "{fp}"@, 38));
    assert("User {user} already has a public key: {fp}"@.subrange(5, 11) =~= "{user}"@);
    assert(match_at("User {user} already has a public key: {fp}"@, "{user}"@, 5));
    reveal_strlit("用戶 {user} 已有公鑰: {fp}");
    assert("用戶 {user} 已有公鑰: {fp}"@.subrange(16, 20) =~= "{fp}"@);
    assert(match_at("用戶 {user} 已有公鑰: {fp}"@, "{fp}"@, 16));
    assert("用戶 {user} 已有公鑰: {fp}"@.subrange(3, 9) =~= "{user}"@);
    assert(match_at("用戶 {user} 已有公鑰: {fp}"@, "{user}"@, 3));
}

proof fn placeholders_cli_key_action()
    ensures
        zh_cn_text("cli_key_action"@) matches Some(t) && contains(t, "{user}"@),
        en_text("cli_key_action"@) matches Some(t) && contains(t, "{user}"@),
        zh_tw_text("cli_key_action"@) matches Some(t) && contains(t, "{user}"@),
{
    reveal_strlit("cli_key_action"); assert("cli_key_action"@.len() == 14);
    reveal_strlit("lang_en"); assert("lang_en"@.len() == 7);
    reveal_strlit("lang_zh_cn"); assert("lang_zh_cn"@.len() == 10);
    reveal_strlit("lang_zh_tw"); assert("lang_zh_tw"@.len() == 10);
    reveal_strlit("select_language"); assert("select_language"@.len() == 15);
    reveal_strlit("select_mode"); assert("select_mode"@.len() == 11);
    reveal_strlit("mode_cli"); assert("mode_cli"@.len() == 8);
    reveal_strlit("mode_tui"); assert("mode_tui"@.len() == 8);
    reveal_strlit("unknown_arg"); assert("unknown_arg"@.len() == 11);
    reveal_strlit("app_title"); assert("app_title"@.len() == 9);
    reveal_strlit("step_system_update"); assert("step_system_update"@.len() == 18);
    reveal_strlit("step_user_creation"); assert("step_user_creation"@.len() == 18);
    reveal_strlit("step_ssh_root_login"); assert("step_ssh_root_login"@.len() == 19);
    reveal_strlit("step_ssh_port_change"); assert("step_ssh_port_change"@.len() == 20);
    reveal_strlit("step_ssh_password_auth"); assert("step_ssh_password_auth"@.len() == 22);
    reveal_strlit("step_ssh_key_setup"); assert("step_ssh_key_setup"@.len() == 18);
    reveal_strlit("step_ufw"); assert("step_ufw"@.len() == 8);
    reveal_strlit("step_fail2ban"); assert("step_fail2ban"@.len() == 13);
    reveal_strlit("step_auto_updates"); assert("step_auto_updates"@.len() == 17);
    reveal_strlit("step_security_scan"); assert("step_security_scan"@.len() == 18);
    reveal_strlit("step_log_audit"); assert("cli_key_action"@[0] == 'c'); assert("step_log_audit"@[0] == 's');
    reveal_strlit("step_restart_ssh"); assert("step_restart_ssh"@.len() == 16);
    reveal_strlit("audit_root"); assert("audit_root"@.len() == 10);
    reveal_strlit("audit_pkg_mgr"); assert("audit_pkg_mgr"@.len() == 13);
    reveal_strlit("audit_ssh_port"); assert("cli_key_action"@[0] == 'c'); assert("audit_ssh_port"@[0] == 'a');
    reveal_strlit("audit_password_auth"); assert("audit_password_auth"@.len() == 19);
    reveal_strlit("audit_root_login"); assert("audit_root_login"@.len() == 16);
    reveal_strlit("audit_sudo_users"); assert("audit_sudo_users"@.len() == 16);
    reveal_strlit("audit_fail2ban"); assert("cli_key_action"@[0] == 'c'); assert("audit_fail2ban"@[0] == 'a');
    reveal_strlit("audit_ufw"); assert("audit_ufw"@.len() == 9);
    reveal_strlit("audit_auto_updates"); assert("audit_auto_updates"@.len() == 18);
    reveal_strlit("audit_sys_update"); assert("audit_sys_update"@.len() == 16);
    reveal_strlit("audit_detail_root_ok"); assert("audit_detail_root_ok"@.len() == 20);
    reveal_strlit("audit_detail_root_missing"); assert("audit_detail_root_missing"@.len() == 25);
    reveal_strlit("audit_detail_pkg"); assert("audit_detail_pkg"@.len() == 16);
    reveal_strlit("audit_detail_port_safe"); assert("audit_detail_port_safe"@.len() == 22);
    reveal_strlit("audit_detail_port_missing"); assert("audit_detail_port_missing"@.len() == 25);
    reveal_strlit("audit_detail_pw_disabled"); assert("audit_detail_pw_disabled"@.len() == 24);
    reveal_strlit("audit_detail_pw_missing"); assert("audit_detail_pw_missing"@.len() == 23);
    reveal_strlit("audit_detail_root_disabled"); assert("audit_detail_root_disabled"@.len() == 26);
    reveal_strlit("audit_detail_root_missing_cfg"); assert("audit_detail_root_missing_cfg"@.len() == 29);
    reveal_strlit("audit_detail_sudo_missing"); assert("audit_detail_sudo_missing"@.len() == 25);
    reveal_strlit("audit_detail_sudo_ok"); assert("audit_detail_sudo_ok"@.len() == 20);
    reveal_strlit("audit_detail_fb_installed"); assert("audit_detail_fb_installed"@.len() == 25);
    reveal_strlit("audit_detail_fb_missing"); assert("audit_detail_fb_missing"@.len() == 23);
    reveal_strlit("audit_detail_ufw_enabled"); assert("audit_detail_ufw_enabled"@.len() == 24);
    reveal_strlit("audit_detail_ufw_missing"); assert("audit_detail_ufw_missing"@.len() == 24);
    reveal_strlit("audit_detail_au_enabled"); assert("audit_detail_au_enabled"@.len() == 23);
    reveal_strlit("audit_detail_au_missing"); assert("audit_detail_au_missing"@.len() == 23);
    reveal_strlit("audit_detail_sys_uptodate"); assert("audit_detail_sys_uptodate"@.len() == 25);
    reveal_strlit("audit_detail_sys_needs_update"); assert("audit_detail_sys_needs_update"@.len() == 29);
    reveal_strlit("status_safe"); assert("status_safe"@.len() == 11);
    reveal_strlit("status_partial"); assert("cli_key_action"@[0] == 'c'); assert("status_partial"@[0] == 's');
    reveal_strlit("status_missing"); assert("cli_key_action"@[0] == 'c'); assert("status_missing"@[0] == 's');
    reveal_strlit("status_needs_update"); assert("status_needs_update"@.len() == 19);
    reveal_strlit("pkg_apt"); assert("pkg_apt"@.len() == 7);
    reveal_strlit("pkg_yum"); assert("pkg_yum"@.len() == 7);
    reveal_strlit("pkg_dnf"); assert("pkg_dnf"@.len() == 7);
    reveal_strlit("pkg_unknown"); assert("pkg_unknown"@.len() == 11);
    reveal_strlit("err_permission_denied"); assert("err_permission_denied"@.len() == 21);
    reveal_strlit("err_cmd_failed"); assert("cli_key_action"@[0] == 'c'); assert("err_cmd_failed"@[0] == 'e');
    reveal_strlit("err_parse_error"); assert("err_parse_error"@.len() == 15);
    reveal_strlit("err_precondition_failed"); assert("err_precondition_failed"@.len() == 23);
    reveal_strlit("err_user_aborted"); assert("err_user_aborted"@.len() == 16);
    reveal_strlit("err_unknown_pkg_mgr"); assert("err_unknown_pkg_mgr"@.len() == 19);
    reveal_strlit("err_unsupported_pkg"); assert("err_unsupported_pkg"@.len() == 19);
    reveal_strlit("err_auto_update_only_debian"); assert("err_auto_update_only_debian"@.len() == 27);
    reveal_strlit("err_unknown_pkg_lynis"); assert("err_unknown_pkg_lynis"@.len() == 21);
    reveal_strlit("err_sshd_not_found"); assert("err_sshd_not_found"@.len() == 18);
    reveal_strlit("err_no_username"); assert("err_no_username"@.len() == 15);
    reveal_strlit("err_user_exists"); assert("err_user_exists"@.len() == 15);
    reveal_strlit("err_no_sudo_before_root"); assert("err_no_sudo_before_root"@.len() == 23);
    reveal_strlit("err_no_ssh_port"); assert("err_no_ssh_port"@.len() == 15);
    reveal_strlit("err_port_zero"); assert("err_port_zero"@.len() == 13);
    reveal_strlit("err_no_sudo_before_pw"); assert("err_no_sudo_before_pw"@.len() == 21);
    reveal_strlit("err_no_target_user"); assert("err_no_target_user"@.len() == 18);
    reveal_strlit("err_no_key_action"); assert("err_no_key_action"@.len() == 17);
    reveal_strlit("err_update_failed"); assert("err_update_failed"@.len() == 17);
    reveal_strlit("err_upgrade_failed"); assert("err_upgrade_failed"@.len() == 18);
    reveal_strlit("err_ufw_allow_failed"); assert("err_ufw_allow_failed"@.len() == 20);
    reveal_strlit("err_ufw_enable_failed"); assert("err_ufw_enable_failed"@.len() == 21);
    reveal_strlit("err_install_fail2ban"); assert("err_install_fail2ban"@.len() == 20);
    reveal_strlit("err_install_unattended"); assert("err_install_unattended"@.len() == 22);
    reveal_strlit("err_lynis_exec"); assert("cli_key_action"@[0] == 'c'); assert("err_lynis_exec"@[0] == 'e');
    reveal_strlit("err_sshd_check"); assert("cli_key_action"@[0] == 'c'); assert("err_sshd_check"@[0] == 'e');
    reveal_strlit("err_sshd_syntax"); assert("err_sshd_syntax"@.len() == 15);
    reveal_strlit("err_ssh_restart"); assert("err_ssh_restart"@.len() == 15);
    reveal_strlit("err_backup"); assert("err_backup"@.len() == 10);
    reveal_strlit("err_read"); assert("err_read"@.len() == 8);
    reveal_strlit("err_write"); assert("err_write"@.len() == 9);
    reveal_strlit("err_setup_signal"); assert("err_setup_signal"@.len() == 16);
    reveal_strlit("result_sys_updated"); assert("result_sys_updated"@.len() == 18);
    reveal_strlit("result_user_created"); assert("result_user_created"@.len() == 19);
    reveal_strlit("result_root_login_set"); assert("result_root_login_set"@.len() == 21);
    reveal_strlit("result_ssh_port_set"); assert("result_ssh_port_set"@.len() == 19);
    reveal_strlit("result_pw_auth_disabled"); assert("result_pw_auth_disabled"@.len() == 23);
    reveal_strlit("result_key_generated"); assert("result_key_generated"@.len() == 20);
    reveal_strlit("result_key_pasted"); assert("result_key_pasted"@.len() == 17);
    reveal_strlit("result_ufw_enabled"); assert("result_ufw_enabled"@.len() == 18);
    reveal_strlit("result_fail2ban_installed"); assert("result_fail2ban_installed"@.len() == 25);
    reveal_strlit("result_auto_updates_enabled"); assert("result_auto_updates_enabled"@.len() == 27);
    reveal_strlit("result_lynis_ok"); assert("result_lynis_ok"@.len() == 15);
    reveal_strlit("result_lynis_fail"); assert("result_lynis_fail"@.len() == 17);
    reveal_strlit("result_logwatch_installed"); assert("result_logwatch_installed"@.len() == 25);
    reveal_strlit("result_ssh_restarted"); assert("result_ssh_restarted"@.len() == 20);
    reveal_strlit("result_sshd_cfg_set"); assert("result_sshd_cfg_set"@.len() == 19);
    reveal_strlit("result_sshd_syntax_ok"); assert("result_sshd_syntax_ok"@.len() == 21);
    reveal_strlit("result_sshd_syntax_err"); assert("result_sshd_syntax_err"@.len() == 22);
    reveal_strlit("log_audit"); assert("log_audit"@.len() == 9);
    reveal_strlit("log_operation"); assert("log_operation"@.len() == 13);
    reveal_strlit("log_rollback"); assert("log_rollback"@.len() == 12);
    reveal_strlit("log_audit_start"); assert("log_audit_start"@.len() == 15);
    reveal_strlit("log_audit_done"); assert("cli_key_action"@[0] == 'c'); assert("log_audit_done"@[0] == 'l');
    reveal_strlit("log_step_start"); assert("cli_key_action"@[0] == 'c'); assert("log_step_start"@[0] == 'l');
    reveal_strlit("log_step_complete"); assert("log_step_complete"@.len() == 17);
    reveal_strlit("log_step_failed"); assert("log_step_failed"@.len() == 15);
    reveal_strlit("log_rollback_auto"); assert("log_rollback_auto"@.len() == 17);
    reveal_strlit("undo_user_remove"); assert("undo_user_remove"@.len() == 16);
    reveal_strlit("undo_pkg_remove"); assert("undo_pkg_remove"@.len() == 15);
    reveal_strlit("undo_cmd"); assert("undo_cmd"@.len() == 8);
    reveal_strlit("undo_file_restore"); assert("undo_file_restore"@.len() == 17);
    reveal_strlit("undo_ufw_disable"); assert("undo_ufw_disable"@.len() == 16);
    reveal_strlit("undo_ufw_delete"); assert("undo_ufw_delete"@.len() == 15);
    reveal_strlit("undo_key_delete"); assert("undo_key_delete"@.len() == 15);
    reveal_strlit("cli_welcome"); assert("cli_welcome"@.len() == 11);
    reveal_strlit("cli_auditing"); assert("cli_auditing"@.len() == 12);
    reveal_strlit("cli_audit_done"); assert("cli_key_action"@[4] == 'k'); assert("cli_audit_done"@[4] == 'a');
    reveal_strlit("cli_select_steps"); assert("cli_select_steps"@.len() == 16);
    reveal_strlit("cli_hint_nav"); assert("cli_hint_nav"@.len() == 12);
    reveal_strlit("cli_collecting"); assert("cli_key_action"@[4] == 'k'); assert("cli_collecting"@[4] == 'c');
    reveal_strlit("cli_will_execute"); assert("cli_will_execute"@.len() == 16);
    reveal_strlit("cli_confirm"); assert("cli_confirm"@.len() == 11);
    reveal_strlit("cli_cancelled"); assert("cli_cancelled"@.len() == 13);
    reveal_strlit("cli_no_selection"); assert("cli_no_selection"@.len() == 16);
    reveal_strlit("cli_executing"); assert("cli_executing"@.len() == 13);
    reveal_strlit("cli_summary_title"); assert("cli_summary_title"@.len() == 17);
    reveal_strlit("cli_summary_total"); assert("cli_summary_total"@.len() == 17);
    reveal_strlit("cli_log_saved"); assert("cli_log_saved"@.len() == 13);
    reveal_strlit("cli_create_user"); assert("cli_create_user"@.len() == 15);
    reveal_strlit("cli_username_prompt"); assert("cli_username_prompt"@.len() == 19);
    reveal_strlit("cli_username_empty"); assert("cli_username_empty"@.len() == 18);
    reveal_strlit("cli_username_exists"); assert("cli_username_exists"@.len() == 19);
    reveal_strlit("cli_username_invalid"); assert("cli_username_invalid"@.len() == 20);
    reveal_strlit("cli_lock_pw"); assert("cli_lock_pw"@.len() == 11);
    reveal_strlit("cli_current_port"); assert("cli_current_port"@.len() == 16);
    reveal_strlit("cli_default_port"); assert("cli_default_port"@.len() == 16);
    reveal_strlit("cli_suggest_port"); assert("cli_suggest_port"@.len() == 16);
    reveal_strlit("cli_port_prompt"); assert("cli_port_prompt"@.len() == 15);
    reveal_strlit("cli_port_invalid"); assert("cli_port_invalid"@.len() == 16);
    reveal_strlit("cli_port_zero"); assert("cli_port_zero"@.len() == 13);
    reveal_strlit("cli_existing_sudo"); assert("cli_existing_sudo"@.len() == 17);
    reveal_strlit("cli_no_sudo"); assert("cli_no_sudo"@.len() == 11);
    reveal_strlit("cli_manual_user"); assert("cli_manual_user"@.len() == 15);
    reveal_strlit("cli_user_prompt"); assert("cli_user_prompt"@.len() == 15);
    reveal_strlit("cli_no_input"); assert("cli_no_input"@.len() == 12);
    reveal_strlit("cli_select_user"); assert("cli_select_user"@.len() == 15);
    reveal_strlit("cli_key_found"); assert("cli_key_found"@.len() == 13);
    reveal_strlit("{user}");
    reveal_strlit("为 {user} 设置 SSH 密钥");
    assert("为 {user} 设置 SSH 密钥"@.subrange(2, 8) =~= "{user}"@);
    assert(match_at("为 {user} 设置 SSH 密钥"@, "{user}"@, 2));
    reveal_strlit("Set up SSH key for {user}");
    assert("Set up SSH key for {user}"@.subrange(19, 25) =~= "{user}"@);
    assert(match_at("Set up SSH key for {user}"@, "{user}"@, 19));
    reveal_strlit("為 {user} 設定 SSH 金鑰");
    assert("為 {user} 設定 SSH 金鑰"@.subrange(2, 8) =~= "{user}"@);
    assert(match_at("為 {user} 設定 SSH 金鑰"@, "{user}"@, 2));
}

proof fn placeholders_cli_ssh_port_info()
    ensures
        zh_cn_text("cli_ssh_port_info"@) matches Some(t) && contains(t, "{port_str}"@),
        en_text("cli_ssh_port_info"@) matches Some(t) && contains(t, "{port_str}"@),
        zh_tw_text("cli_ssh_port_info"@) matches Some(t) && contains(t, "{port_str}"@),
{
    reveal_strlit("cli_ssh_port_info"); assert("cli_ssh_port_info"@.len() == 17);
    reveal_strlit("lang_en"); assert("lang_en"@.len() == 7);
    reveal_strlit("lang_zh_cn"); assert("lang_zh_cn"@.len() == 10);
    reveal_strlit("lang_zh_tw"); assert("lang_zh_tw"@.len() == 10);
    reveal_strlit("select_language"); assert("select_language"@.len() == 15);
    reveal_strlit("select_mode"); assert("select_mode"@.len() == 11);
    reveal_strlit("mode_cli"); assert("mode_cli"@.len() == 8);
    reveal_strlit("mode_tui"); assert("mode_tui"@.len() == 8);
    reveal_strlit("unknown_arg"); assert("unknown_arg"@.len() == 11);
    reveal_strlit("app_title"); assert("app_title"@.len() == 9);
    reveal_strlit("step_system_update"); assert("step_system_update"@.len() == 18);
    reveal_strlit("step_user_creation"); assert("step_user_creation"@.len() == 18);
    reveal_strlit("step_ssh_root_login"); assert("step_ssh_root_login"@.len() == 19);
    reveal_strlit("step_ssh_port_change"); assert("step_ssh_port_change"@.len() == 20);
    reveal_strlit("step_ssh_password_auth"); assert("step_ssh_password_auth"@.len() == 22);
    reveal_strlit("step_ssh_key_setup"); assert("step_ssh_key_setup"@.len() == 18);
    reveal_strlit("step_ufw"); assert("step_ufw"@.len() == 8);
    reveal_strlit("step_fail2ban"); assert("step_fail2ban"@.len() == 13);
    reveal_strlit("step_auto_updates"); assert("cli_ssh_port_info"@[0] == 'c'); assert("step_auto_updates"@[0] == 's');
    reveal_strlit("step_security_scan"); assert("step_security_scan"@.len() == 18);
    reveal_strlit("step_log_audit"); assert("step_log_audit"@.len() == 14);
    reveal_strlit("step_restart_ssh"); assert("step_restart_ssh"@.len() == 16);
    reveal_strlit("audit_root"); assert("audit_root"@.len() == 10);
    reveal_strlit("audit_pkg_mgr"); assert("audit_pkg_mgr"@.len() == 13);
    reveal_strlit("audit_ssh_port"); assert("audit_ssh_port"@.len() == 14);
    reveal_strlit("audit_password_auth"); assert("audit_password_auth"@.len() == 19);
    reveal_strlit("audit_root_login"); assert("audit_root_login"@.len() == 16);
    reveal_strlit("audit_sudo_users"); assert("audit_sudo_users"@.len() == 16);
    reveal_strlit("audit_fail2ban"); assert("audit_fail2ban"@.len() == 14);
    reveal_strlit("audit_ufw"); assert("audit_ufw"@.len() == 9);
    reveal_strlit("audit_auto_updates"); assert("audit_auto_updates"@.len() == 18);
    reveal_strlit("audit_sys_update"); assert("audit_sys_update"@.len() == 16);
    reveal_strlit("audit_detail_root_ok"); assert("audit_detail_root_ok"@.len() == 20);
    reveal_strlit("audit_detail_root_missing"); assert("audit_detail_root_missing"@.len() == 25);
    reveal_strlit("audit_detail_pkg"); assert("audit_detail_pkg"@.len() == 16);
    reveal_strlit("audit_detail_port_safe"); assert("audit_detail_port_safe"@.len() == 22);
    reveal_strlit("audit_detail_port_missing"); assert("audit_detail_port_missing"@.len() == 25);
    reveal_strlit("audit_detail_pw_disabled"); assert("audit_detail_pw_disabled"@.len() == 24);
    reveal_strlit("audit_detail_pw_missing"); assert("audit_detail_pw_missing"@.len() == 23);
    reveal_strlit("audit_detail_root_disabled"); assert("audit_detail_root_disabled"@.len() == 26);
    reveal_strlit("audit_detail_root_missing_cfg"); assert("audit_detail_root_missing_cfg"@.len() == 29);
    reveal_strlit("audit_detail_sudo_missing"); assert("audit_detail_sudo_missing"@.len() == 25);
    reveal_strlit("audit_detail_sudo_ok"); assert("audit_detail_sudo_ok"@.len() == 20);
    reveal_strlit("audit_detail_fb_installed"); assert("audit_detail_fb_installed"@.len() == 25);
    reveal_strlit("audit_detail_fb_missing"); assert("audit_detail_fb_missing"@.len() == 23);
    reveal_strlit("audit_detail_ufw_enabled"); assert("audit_detail_ufw_enabled"@.len() == 24);
    reveal_strlit("audit_detail_ufw_missing"); assert("audit_detail_ufw_missing"@.len() == 24);
    reveal_strlit("audit_detail_au_enabled"); assert("audit_detail_au_enabled"@.len() == 23);
    reveal_strlit("audit_detail_au_missing"); assert("audit_detail_au_missing"@.len() == 23);
    reveal_strlit("audit_detail_sys_uptodate"); assert("audit_detail_sys_uptodate"@.len() == 25);
    reveal_strlit("audit_detail_sys_needs_update"); assert("audit_detail_sys_needs_update"@.len() == 29);
    reveal_strlit("status_safe"); assert("status_safe"@.len() == 11);
    reveal_strlit("status_partial"); assert("status_partial"@.len() == 14);
    reveal_strlit("status_missing"); assert("status_missing"@.len() == 14);
    reveal_strlit("status_needs_update"); assert("status_needs_update"@.len() == 19);
    reveal_strlit("pkg_apt"); assert("pkg_apt"@.len() == 7);
    reveal_strlit("pkg_yum"); assert("pkg_yum"@.len() == 7);
    reveal_strlit("pkg_dnf"); assert("pkg_dnf"@.len() == 7);
    reveal_strlit("pkg_unknown"); assert("pkg_unknown"@.len() == 11);
    reveal_strlit("err_permission_denied"); assert("err_permission_denied"@.len() == 21);
    reveal_strlit("err_cmd_failed"); assert("err_cmd_failed"@.len() == 14);
    reveal_strlit("err_parse_error"); assert("err_parse_error"@.len() == 15);
    reveal_strlit("err_precondition_failed"); assert("err_precondition_failed"@.len() == 23);
    reveal_strlit("err_user_aborted"); assert("err_user_aborted"@.len() == 16);
    reveal_strlit("err_unknown_pkg_mgr"); assert("err_unknown_pkg_mgr"@.len() == 19);
    reveal_strlit("err_unsupported_pkg"); assert("err_unsupported_pkg"@.len() == 19);
    reveal_strlit("err_auto_update_only_debian"); assert("err_auto_update_only_debian"@.len() == 27);
    reveal_strlit("err_unknown_pkg_lynis"); assert("err_unknown_pkg_lynis"@.len() == 21);
    reveal_strlit("err_sshd_not_found"); assert("err_sshd_not_found"@.len() == 18);
    reveal_strlit("err_no_username"); assert("err_no_username"@.len() == 15);
    reveal_strlit("err_user_exists"); assert("err_user_exists"@.len() == 15);
    reveal_strlit("err_no_sudo_before_root"); assert("err_no_sudo_before_root"@.len() == 23);
    reveal_strlit("err_no_ssh_port"); assert("err_no_ssh_port"@.len() == 15);
    reveal_strlit("err_port_zero"); assert("err_port_zero"@.len() == 13);
    reveal_strlit("err_no_sudo_before_pw"); assert("err_no_sudo_before_pw"@.len() == 21);
    reveal_strlit("err_no_target_user"); assert("err_no_target_user"@.len() == 18);
    reveal_strlit("err_no_key_action"); assert("cli_ssh_port_info"@[0] == 'c'); assert("err_no_key_action"@[0] == 'e');
    reveal_strlit("err_update_failed"); assert("cli_ssh_port_info"@[0] == 'c'); assert("err_update_failed"@[0] == 'e');
    reveal_strlit("err_upgrade_failed"); assert("err_upgrade_failed"@.len() == 18);
    reveal_strlit("err_ufw_allow_failed"); assert("err_ufw_allow_failed"@.len() == 20);
    reveal_strlit("err_ufw_enable_failed"); assert("err_ufw_enable_failed"@.len() == 21);
    reveal_strlit("err_install_fail2ban"); assert("err_install_fail2ban"@.len() == 20);
    reveal_strlit("err_install_unattended"); assert("err_install_unattended"@.len() == 22);
    reveal_strlit("err_lynis_exec"); assert("err_lynis_exec"@.len() == 14);
    reveal_strlit("err_sshd_check"); assert("err_sshd_check"@.len() == 14);
    reveal_strlit("err_sshd_syntax"); assert("err_sshd_syntax"@.len() == 15);
    reveal_strlit("err_ssh_restart"); assert("err_ssh_restart"@.len() == 15);
    reveal_strlit("err_backup"); assert("err_backup"@.len() == 10);
    reveal_strlit("err_read"); assert("err_read"@.len() == 8);
    reveal_strlit("err_write"); assert("err_write"@.len() == 9);
    reveal_strlit("err_setup_signal"); assert("err_setup_signal"@.len() == 16);
    reveal_strlit("result_sys_updated"); assert("result_sys_updated"@.len() == 18);
    reveal_strlit("result_user_created"); assert("result_user_created"@.len() == 19);
    reveal_strlit("result_root_login_set"); assert("result_root_login_set"@.len() == 21);
    reveal_strlit("result_ssh_port_set"); assert("result_ssh_port_set"@.len() == 19);
    reveal_strlit("result_pw_auth_disabled"); assert("result_pw_auth_disabled"@.len() == 23);
    reveal_strlit("result_key_generated"); assert("result_key_generated"@.len() == 20);
    reveal_strlit("result_key_pasted"); assert("cli_ssh_port_info"@[0] == 'c'); assert("result_key_pasted"@[0] == 'r');
    reveal_strlit("result_ufw_enabled"); assert("result_ufw_enabled"@.len() == 18);
    reveal_strlit("result_fail2ban_installed"); assert("result_fail2ban_installed"@.len() == 25);
    reveal_strlit("result_auto_updates_enabled"); assert("result_auto_updates_enabled"@.len() == 27);
    reveal_strlit("result_lynis_ok"); assert("result_lynis_ok"@.len() == 15);
    reveal_strlit("result_lynis_fail"); assert("cli_ssh_port_info"@[0] == 'c'); assert("result_lynis_fail"@[0] == 'r');
    reveal_strlit("result_logwatch_installed"); assert("result_logwatch_installed"@.len() == 25);
    reveal_strlit("result_ssh_restarted"); assert("result_ssh_restarted"@.len() == 20);
    reveal_strlit("result_sshd_cfg_set"); assert("result_sshd_cfg_set"@.len() == 19);
    reveal_strlit("result_sshd_syntax_ok"); assert("result_sshd_syntax_ok"@.len() == 21);
    reveal_strlit("result_sshd_syntax_err"); assert("result_sshd_syntax_err"@.len() == 22);
    reveal_strlit("log_audit"); assert("log_audit"@.len() == 9);
    reveal_strlit("log_operation"); assert("log_operation"@.len() == 13);
    reveal_strlit("log_rollback"); assert("log_rollback"@.len() == 12);
    reveal_strlit("log_audit_start"); assert("log_audit_start"@.len() == 15);
    reveal_strlit("log_audit_done"); assert("log_audit_done"@.len() == 14);
    reveal_strlit("log_step_start"); assert("log_step_start"@.len() == 14);
    reveal_strlit("log_step_complete"); assert("cli_ssh_port_info"@[0] == 'c'); assert("log_step_complete"@[0] == 'l');
    reveal_strlit("log_step_failed"); assert("log_step_failed"@.len() == 15);
    reveal_strlit("log_rollback_auto"); assert("cli_ssh_port_info"@[0] == 'c'); assert("log_rollback_auto"@[0] == 'l');
    reveal_strlit("undo_user_remove"); assert("undo_user_remove"@.len() == 16);
    reveal_strlit("undo_pkg_remove"); assert("undo_pkg_remove"@.len() == 15);
    reveal_strlit("undo_cmd"); assert("undo_cmd"@.len() == 8);
    reveal_strlit("undo_file_restore"); assert("cli_ssh_port_info"@[0] == 'c'); assert("undo_file_restore"@[0] == 'u');
    reveal_strlit("undo_ufw_disable"); assert("undo_ufw_disable"@.len() == 16);
    reveal_strlit("undo_ufw_delete"); assert("undo_ufw_delete"@.len() == 15);
    reveal_strlit("undo_key_delete"); assert("undo_key_delete"@.len() == 15);
    reveal_strlit("cli_welcome"); assert("cli_welcome"@.len() == 11);
    reveal_strlit("cli_auditing"); assert("cli_auditing"@.len() == 12);
    reveal_strlit("cli_audit_done"); assert("cli_audit_done"@.len() == 14);
    reveal_strlit("cli_select_steps"); assert("cli_select_steps"@.len() == 16);
    reveal_strlit("cli_hint_nav"); assert("cli_hint_nav"@.len() == 12);
    reveal_strlit("cli_collecting"); assert("cli_collecting"@.len() == 14);
    reveal_strlit("cli_will_execute"); assert("cli_will_execute"@.len() == 16);
    reveal_strlit("cli_confirm"); assert("cli_confirm"@.len() == 11);
    reveal_strlit("cli_cancelled"); assert("cli_cancelled"@.len() == 13);
    reveal_strlit("cli_no_selection"); assert("cli_no_selection"@.len() == 16);
    reveal_strlit("cli_executing"); assert("cli_executing"@.len() == 13);
    reveal_strlit("cli_summary_title"); assert("cli_ssh_port_info"@[5] == 's'); assert("cli_summary_title"@[5] == 'u');
    reveal_strlit("cli_summary_total"); assert("cli_ssh_port_info"@[5] == 's'); assert("cli_summary_total"@[5] == 'u');
    reveal_strlit("cli_log_saved"); assert("cli_log_saved"@.len() == 13);
    reveal_strlit("cli_create_user"); assert("cli_create_user"@.len() == 15);
    reveal_strlit("cli_username_prompt"); assert("cli_username_prompt"@.len() == 19);
    reveal_strlit("cli_username_empty"); assert("cli_username_empty"@.len() == 18);
    reveal_strlit("cli_username_exists"); assert("cli_username_exists"@.len() == 19);
    reveal_strlit("cli_username_invalid"); assert("cli_username_invalid"@.len() == 20);
    reveal_strlit("cli_lock_pw"); assert("cli_lock_pw"@.len() == 11);
    reveal_strlit("cli_current_port"); assert("cli_current_port"@.len() == 16);
    reveal_strlit("cli_default_port"); assert("cli_default_port"@.len() == 16);
    reveal_strlit("cli_suggest_port"); assert("cli_suggest_port"@.len() == 16);
    reveal_strlit("cli_port_prompt"); assert("cli_port_prompt"@.len() == 15);
    reveal_strlit("cli_port_invalid"); assert("cli_port_invalid"@.len() == 16);
    reveal_strlit("cli_port_zero"); assert("cli_port_zero"@.len() == 13);
    reveal_strlit("cli_existing_sudo"); assert("cli_ssh_port_info"@[4] == 's'); assert("cli_existing_sudo"@[4] == 'e');
    reveal_strlit("cli_no_sudo"); assert("cli_no_sudo"@.len() == 11);
    reveal_strlit("cli_manual_user"); assert("cli_manual_user"@.len() == 15);
    reveal_strlit("cli_user_prompt"); assert("cli_user_prompt"@.len() == 15);
    reveal_strlit("cli_no_input"); assert("cli_no_input"@.len() == 12);
    reveal_strlit("cli_select_user"); assert("cli_select_user"@.len() == 15);
    reveal_strlit("cli_key_found"); assert("cli_key_found"@.len() == 13);
    reveal_strlit("cli_key_action"); assert("cli_key_action"@.len() == 14);
    reveal_strlit("cli_key_generate"); assert("cli_key_generate"@.len() == 16);
    reveal_strlit("cli_key_paste"); assert("cli_key_paste"@.len() == 13);
    reveal_strlit("cli_key_skip"); assert("cli_key_skip"@.len() == 12);
    reveal_strlit("cli_key_prompt"); assert("cli_key_prompt"@.len() == 14);
    reveal_strlit("{port_str}");
    reveal_strlit("当前 SSH 端口: {port_str}");
    assert("当前 SSH 端口: {port_str}"@.subrange(11, 21) =~= "{port_str}"@);
    assert(match_at("当前 SSH 端口: {port_str}"@, "{port_str}"@, 11));
    reveal_strlit("Current SSH port: {port_str}");
    assert("Current SSH port: {port_str}"@.subrange(18, 28) =~= "{port_str}"@);
    assert(match_at("Current SSH port: {port_str}"@, "{port_str}"@, 18));
    reveal_strlit("當前 SSH 連接埠: {port_str}");
    assert("當前 SSH 連接埠: {port_str}"@.subrange(12, 22) =~= "{port_str}"@);
    assert(match_at("當前 SSH 連接埠: {port_str}"@, "{port_str}"@, 12));
}

proof fn placeholders_cli_ssh_suggest_info()
    ensures
        zh_cn_text("cli_ssh_suggest_info"@) matches Some(t) && contains(t, "{port}"@),
        en_text("cli_ssh_suggest_info"@) matches Some(t) && contains(t, "{port}"@),
        zh_tw_text("cli_ssh_suggest_info"@) matches Some(t) && contains(t, "{port}"@),
{
    reveal_strlit("cli_ssh_suggest_info"); assert("cli_ssh_suggest_info"@.len() == 20);
    reveal_strlit("lang_en"); assert("lang_en"@.len() == 7);
    reveal_strlit("lang_zh_cn"); assert("lang_zh_cn"@.len() == 10);
    reveal_strlit("lang_zh_tw"); assert("lang_zh_tw"@.len() == 10);
    reveal_strlit("select_language"); assert("select_language"@.len() == 15);
    reveal_strlit("select_mode"); assert("select_mode"@.len() == 11);
    reveal_strlit("mode_cli"); assert("mode_cli"@.len() == 8);
    reveal_strlit("mode_tui"); assert("mode_tui"@.len() == 8);
    reveal_strlit("unknown_arg"); assert("unknown_arg"@.len() == 11);
    reveal_strlit("app_title"); assert("app_title"@.len() == 9);
    reveal_strlit("step_system_update"); assert("step_system_update"@.len() == 18);
    reveal_strlit("step_user_creation"); assert("step_user_creation"@.len() == 18);
    reveal_strlit("step_ssh_root_login"); assert("step_ssh_root_login"@.len() == 19);
    reveal_strlit("step_ssh_port_change"); assert("cli_ssh_suggest_info"@[0] == 'c'); assert("step_ssh_port_change"@[0] == 's');
    reveal_strlit("step_ssh_password_auth"); assert("step_ssh_password_auth"@.len() == 22);
    reveal_strlit("step_ssh_key_setup"); assert("step_ssh_key_setup"@.len() == 18);
    reveal_strlit("step_ufw"); assert("step_ufw"@.len() == 8);
    reveal_strlit("step_fail2ban"); assert("step_fail2ban"@.len() == 13);
    reveal_strlit("step_auto_updates"); assert("step_auto_updates"@.len() == 17);
    reveal_strlit("step_security_scan"); assert("step_security_scan"@.len() == 18);
    reveal_strlit("step_log_audit"); assert("step_log_audit"@.len() == 14);
    reveal_strlit("step_restart_ssh"); assert("step_restart_ssh"@.len() == 16);
    reveal_strlit("audit_root"); assert("audit_root"@.len() == 10);
    reveal_strlit("audit_pkg_mgr"); assert("audit_pkg_mgr"@.len() == 13);
    reveal_strlit("audit_ssh_port"); assert("audit_ssh_port"@.len() == 14);
    reveal_strlit("audit_password_auth"); assert("audit_password_auth"@.len() == 19);
    reveal_strlit("audit_root_login"); assert("audit_root_login"@.len() == 16);
    reveal_strlit("audit_sudo_users"); assert("audit_sudo_users"@.len() == 16);
    reveal_strlit("audit_fail2ban"); assert("audit_fail2ban"@.len() == 14);
    reveal_strlit("audit_ufw"); assert("audit_ufw"@.len() == 9);
    reveal_strlit("audit_auto_updates"); assert("audit_auto_updates"@.len() == 18);
    reveal_strlit("audit_sys_update"); assert("audit_sys_update"@.len() == 16);
    reveal_strlit("audit_detail_root_ok"); assert("cli_ssh_suggest_info"@[0] == 'c'); assert("audit_detail_root_ok"@[0] == 'a');
    reveal_strlit("audit_detail_root_missing"); assert("audit_detail_root_missing"@.len() == 25);
    reveal_strlit("audit_detail_pkg"); assert("audit_detail_pkg"@.len() == 16);
    reveal_strlit("audit_detail_port_safe"); assert("audit_detail_port_safe"@.len() == 22);
    reveal_strlit("audit_detail_port_missing"); assert("audit_detail_port_missing"@.len() == 25);
    reveal_strlit("audit_detail_pw_disabled"); assert("audit_detail_pw_disabled"@.len() == 24);
    reveal_strlit("audit_detail_pw_missing"); assert("audit_detail_pw_missing"@.len() == 23);
    reveal_strlit("audit_detail_root_disabled"); assert("audit_detail_root_disabled"@.len() == 26);
    reveal_strlit("audit_detail_root_missing_cfg"); assert("audit_detail_root_missing_cfg"@.len() == 29);
    reveal_strlit("audit_detail_sudo_missing"); assert("audit_detail_sudo_missing"@.len() == 25);
    reveal_strlit("audit_detail_sudo_ok"); assert("cli_ssh_suggest_info"@[0] == 'c'); assert("audit_detail_sudo_ok"@[0] == 'a');
    reveal_strlit("audit_detail_fb_installed"); assert("audit_detail_fb_installed"@.len() == 25);
    reveal_strlit("audit_detail_fb_missing"); assert("audit_detail_fb_missing"@.len() == 23);
    reveal_strlit("audit_detail_ufw_enabled"); assert("audit_detail_ufw_enabled"@.len() == 24);
    reveal_strlit("audit_detail_ufw_missing"); assert("audit_detail_ufw_missing"@.len() == 24);
    reveal_strlit("audit_detail_au_enabled"); assert("audit_detail_au_enabled"@.len() == 23);
    reveal_strlit("audit_detail_au_missing"); assert("audit_detail_au_missing"@.len() == 23);
    reveal_strlit("audit_detail_sys_uptodate"); assert("audit_detail_sys_uptodate"@.len() == 25);
    reveal_strlit("audit_detail_sys_needs_update"); assert("audit_detail_sys_needs_update"@.len() == 29);
    reveal_strlit("status_safe"); assert("status_safe"@.len() == 11);
    reveal_strlit("status_partial"); assert("status_partial"@.len() == 14);
    reveal_strlit("status_missing"); assert("status_missing"@.len() == 14);
    reveal_strlit("status_needs_update"); assert("status_needs_update"@.len() == 19);
    reveal_strlit("pkg_apt"); assert("pkg_apt"@.len() == 7);
    reveal_strlit("pkg_yum"); assert("pkg_yum"@.len() == 7);
    reveal_strlit("pkg_dnf"); assert("pkg_dnf"@.len() == 7);
    reveal_strlit("pkg_unknown"); assert("pkg_unknown"@.len() == 11);
    reveal_strlit("err_permission_denied"); assert("err_permission_denied"@.len() == 21);
    reveal_strlit("err_cmd_failed"); assert("err_cmd_failed"@.len() == 14);
    reveal_strlit("err_parse_error"); assert("err_parse_error"@.len() == 15);
    reveal_strlit("err_precondition_failed"); assert("err_precondition_failed"@.len() == 23);
    reveal_strlit("err_user_aborted"); assert("err_user_aborted"@.len() == 16);
    reveal_strlit("err_unknown_pkg_mgr"); assert("err_unknown_pkg_mgr"@.len() == 19);
    reveal_strlit("err_unsupported_pkg"); assert("err_unsupported_pkg"@.len() == 19);
    reveal_strlit("err_auto_update_only_debian"); assert("err_auto_update_only_debian"@.len() == 27);
    reveal_strlit("err_unknown_pkg_lynis"); assert("err_unknown_pkg_lynis"@.len() == 21);
    reveal_strlit("err_sshd_not_found"); assert("err_sshd_not_found"@.len() == 18);
    reveal_strlit("err_no_username"); assert("err_no_username"@.len() == 15);
    reveal_strlit("err_user_exists"); assert("err_user_exists"@.len() == 15);
    reveal_strlit("err_no_sudo_before_root"); assert("err_no_sudo_before_root"@.len() == 23);
    reveal_strlit("err_no_ssh_port"); assert("err_no_ssh_port"@.len() == 15);
    reveal_strlit("err_port_zero"); assert("err_port_zero"@.len() == 13);
    reveal_strlit("err_no_sudo_before_pw"); assert("err_no_sudo_before_pw"@.len() == 21);
    reveal_strlit("err_no_target_user"); assert("err_no_target_user"@.len() == 18);
    reveal_strlit("err_no_key_action"); assert("err_no_key_action"@.len() == 17);
    reveal_strlit("err_update_failed"); assert("err_update_failed"@.len() == 17);
    reveal_strlit("err_upgrade_failed"); assert("err_upgrade_failed"@.len() == 18);
    reveal_strlit("err_ufw_allow_failed"); assert("cli_ssh_suggest_info"@[0] == 'c'); assert("err_ufw_allow_failed"@[0] == 'e');
    reveal_strlit("err_ufw_enable_failed"); assert("err_ufw_enable_failed"@.len() == 21);
    reveal_strlit("err_install_fail2ban"); assert("cli_ssh_suggest_info"@[0] == 'c'); assert("err_install_fail2ban"@[0] == 'e');
    reveal_strlit("err_install_unattended"); assert("err_install_unattended"@.len() == 22);
    reveal_strlit("err_lynis_exec"); assert("err_lynis_exec"@.len() == 14);
    reveal_strlit("err_sshd_check"); assert("err_sshd_check"@.len() == 14);
    reveal_strlit("err_sshd_syntax"); assert("err_sshd_syntax"@.len() == 15);
    reveal_strlit("err_ssh_restart"); assert("err_ssh_restart"@.len() == 15);
    reveal_strlit("err_backup"); assert("err_backup"@.len() == 10);
    reveal_strlit("err_read"); assert("err_read"@.len() == 8);
    reveal_strlit("err_write"); assert("err_write"@.len() == 9);
    reveal_strlit("err_setup_signal"); assert("err_setup_signal"@.len() == 16);
    reveal_strlit("result_sys_updated"); assert("result_sys_updated"@.len() == 18);
    reveal_strlit("result_user_created"); assert("result_user_created"@.len() == 19);
    reveal_strlit("result_root_login_set"); assert("result_root_login_set"@.len() == 21);
    reveal_strlit("result_ssh_port_set"); assert("result_ssh_port_set"@.len() == 19);
    reveal_strlit("result_pw_auth_disabled"); assert("result_pw_auth_disabled"@.len() == 23);
    reveal_strlit("result_key_generated"); assert("cli_ssh_suggest_info"@[0] == 'c'); assert("result_key_generated"@[0] == 'r');
    reveal_strlit("result_key_pasted"); assert("result_key_pasted"@.len() == 17);
    reveal_strlit("result_ufw_enabled"); assert("result_ufw_enabled"@.len() == 18);
    reveal_strlit("result_fail2ban_installed"); assert("result_fail2ban_installed"@.len() == 25);
    reveal_strlit("result_auto_updates_enabled"); assert("result_auto_updates_enabled"@.len() == 27);
    reveal_strlit("result_lynis_ok"); assert("result_lynis_ok"@.len() == 15);
    reveal_strlit("result_lynis_fail"); assert("result_lynis_fail"@.len() == 17);
    reveal_strlit("result_logwatch_installed"); assert("result_logwatch_installed"@.len() == 25);
    reveal_strlit("result_ssh_restarted"); assert("cli_ssh_suggest_info"@[0] == 'c'); assert("result_ssh_restarted"@[0] == 'r');
    reveal_strlit("result_sshd_cfg_set"); assert("result_sshd_cfg_set"@.len() == 19);
    reveal_strlit("result_sshd_syntax_ok"); assert("result_sshd_syntax_ok"@.len() == 21);
    reveal_strlit("result_sshd_syntax_err"); assert("result_sshd_syntax_err"@.len() == 22);
    reveal_strlit("log_audit"); assert("log_audit"@.len() == 9);
    reveal_strlit("log_operation"); assert("log_operation"@.len() == 13);
    reveal_strlit("log_rollback"); assert("log_rollback"@.len() == 12);
    reveal_strlit("log_audit_start"); assert("log_audit_start"@.len() == 15);
    reveal_strlit("log_audit_done"); assert("log_audit_done"@.len() == 14);
    reveal_strlit("log_step_start"); assert("log_step_start"@.len() == 14);
    reveal_strlit("log_step_complete"); assert("log_step_complete"@.len() == 17);
    reveal_strlit("log_step_failed"); assert("log_step_failed"@.len() == 15);
    reveal_strlit("log_rollback_auto"); assert("log_rollback_auto"@.len() == 17);
    reveal_strlit("undo_user_remove"); assert("undo_user_remove"@.len() == 16);
    reveal_strlit("undo_pkg_remove"); assert("undo_pkg_remove"@.len() == 15);
    reveal_strlit("undo_cmd"); assert("undo_cmd"@.len() == 8);
    reveal_strlit("undo_file_restore"); assert("undo_file_restore"@.len() == 17);
    reveal_strlit("undo_ufw_disable"); assert("undo_ufw_disable"@.len() == 16);
    reveal_strlit("undo_ufw_delete"); assert("undo_ufw_delete"@.len() == 15);
    reveal_strlit("undo_key_delete"); assert("undo_key_delete"@.len() == 15);
    reveal_strlit("cli_welcome"); assert("cli_welcome"@.len() == 11);
    reveal_strlit("cli_auditing"); assert("cli_auditing"@.len() == 12);
    reveal_strlit("cli_audit_done"); assert("cli_audit_done"@.len() == 14);
    reveal_strlit("cli_select_steps"); assert("cli_select_steps"@.len() == 16);
    reveal_strlit("cli_hint_nav"); assert("cli_hint_nav"@.len() == 12);
    reveal_strlit("cli_collecting"); assert("cli_collecting"@.len() == 14);
    reveal_strlit("cli_will_execute"); assert("cli_will_execute"@.len() == 16);
    reveal_strlit("cli_confirm"); assert("cli_confirm"@.len() == 11);
    reveal_strlit("cli_cancelled"); assert("cli_cancelled"@.len() == 13);
    reveal_strlit("cli_no_selection"); assert("cli_no_selection"@.len() == 16);
    reveal_strlit("cli_executing"); assert("cli_executing"@.len() == 13);
    reveal_strlit("cli_summary_title"); assert("cli_summary_title"@.len() == 17);
    reveal_strlit("cli_summary_total"); assert("cli_summary_total"@.len() == 17);
    reveal_strlit("cli_log_saved"); assert("cli_log_saved"@.len() == 13);
    reveal_strlit("cli_create_user"); assert("cli_create_user"@.len() == 15);
    reveal_strlit("cli_username_prompt"); assert("cli_username_prompt"@.len() == 19);
    reveal_strlit("cli_username_empty"); assert("cli_username_empty"@.len() == 18);
    reveal_strlit("cli_username_exists"); assert("cli_username_exists"@.len() == 19);
    reveal_strlit("cli_username_invalid"); assert("cli_ssh_suggest_info"@[4] == 's'); assert("cli_username_invalid"@[4] == 'u');
    reveal_strlit("cli_lock_pw"); assert("cli_lock_pw"@.len() == 11);
    reveal_strlit("cli_current_port"); assert("cli_current_port"@.len() == 16);
    reveal_strlit("cli_default_port"); assert("cli_default_port"@.len() == 16);
    reveal_strlit("cli_suggest_port"); assert("cli_suggest_port"@.len() == 16);
    reveal_strlit("cli_port_prompt"); assert("cli_port_prompt"@.len() == 15);
    reveal_strlit("cli_port_invalid"); assert("cli_port_invalid"@.len() == 16);
    reveal_strlit("cli_port_zero"); assert("cli_port_zero"@.len() == 13);
    reveal_strlit("cli_existing_sudo"); assert("cli_existing_sudo"@.len() == 17);
    reveal_strlit("cli_no_sudo"); assert("cli_no_sudo"@.len() == 11);
    reveal_strlit("cli_manual_user"); assert("cli_manual_user"@.len() == 15);
    reveal_strlit("cli_user_prompt"); assert("cli_user_prompt"@.len() == 15);
    reveal_strlit("cli_no_input"); assert("cli_no_input"@.len() == 12);
    reveal_strlit("cli_select_user"); assert("cli_select_user"@.len() == 15);
    reveal_strlit("cli_key_found"); assert("cli_key_found"@.len() == 13);
    reveal_strlit("cli_key_action"); assert("cli_key_action"@.len() == 14);
    reveal_strlit("cli_key_generate"); assert("cli_key_generate"@.len() == 16);
    reveal_strlit("cli_key_paste"); assert("cli_key_paste"@.len() == 13);
    reveal_strlit("cli_key_skip"); assert("cli_key_skip"@.len() == 12);
    reveal_strlit("cli_key_prompt"); assert("cli_key_prompt"@.len() == 14);
    reveal_strlit("cli_ssh_port_info"); assert("cli_ssh_port_info"@.len() == 17);
    reveal_strlit("{port}");
    reveal_strlit("建议端口: {port}");
    assert("建议端口: {port}"@.subrange(6, 12) =~= "{port}"@);
    assert(match_at("建议端口: {port}"@, "{port}"@, 6));
    reveal_strlit("Suggested port: {port}");
    assert("Suggested port: {port}"@.subrange(16, 22) =~= "{port}"@);
    assert(match_at("Suggested port: {port}"@, "{port}"@, 16));
    reveal_strlit("建議連接埠: {port}");
    assert("建議連接埠: {port}"@.subrange(7, 13) =~= "{port}"@);
    assert(match_at("建議連接埠: {port}"@, "{port}"@, 7));
}

proof fn placeholders_tui_steps_title()
    ensures
        zh_cn_text("tui_steps_title"@) matches Some(t) && contains(t, "{n}"@),
        en_text("tui_steps_title"@) matches Some(t) && contains(t, "{n}"@),
        zh_tw_text("tui_steps_title"@) matches Some(t) && contains(t, "{n}"@),
{
    reveal_strlit("tui_steps_title"); assert("tui_steps_title"@.len() == 15);
    reveal_strlit("lang_en"); assert("lang_en"@.len() == 7);
    reveal_strlit("lang_zh_cn"); assert("lang_zh_cn"@.len() == 10);
    reveal_strlit("lang_zh_tw"); assert("lang_zh_tw"@.len() == 10);
    reveal_strlit("select_language"); assert("tui_steps_title"@[0] == 't'); assert("select_language"@[0] == 's');
    reveal_strlit("select_mode"); assert("select_mode"@.len() == 11);
    reveal_strlit("mode_cli"); assert("mode_cli"@.len() == 8);
    reveal_strlit("mode_tui"); assert("mode_tui"@.len() == 8);
    reveal_strlit("unknown_arg"); assert("unknown_arg"@.len() == 11);
    reveal_strlit("app_title"); assert("app_title"@.len() == 9);
    reveal_strlit("step_system_update"); assert("step_system_update"@.len() == 18);
    reveal_strlit("step_user_creation"); assert("step_user_creation"@.len() == 18);
    reveal_strlit("step_ssh_root_login"); assert("step_ssh_root_login"@.len() == 19);
    reveal_strlit("step_ssh_port_change"); assert("step_ssh_port_change"@.len() == 20);
    reveal_strlit("step_ssh_password_auth"); assert("step_ssh_password_auth"@.len() == 22);
    reveal_strlit("step_ssh_key_setup"); assert("step_ssh_key_setup"@.len() == 18);
    reveal_strlit("step_ufw"); assert("step_ufw"@.len() == 8);
    reveal_strlit("step_fail2ban"); assert("step_fail2ban"@.len() == 13);
    reveal_strlit("step_auto_updates"); assert("step_auto_updates"@.len() == 17);
    reveal_strlit("step_security_scan"); assert("step_security_scan"@.len() == 18);
    reveal_strlit("step_log_audit"); assert("step_log_audit"@.len() == 14);
    reveal_strlit("step_restart_ssh"); assert("step_restart_ssh"@.len() == 16);
    reveal_strlit("audit_root"); assert("audit_root"@.len() == 10);
    reveal_strlit("audit_pkg_mgr"); assert("audit_pkg_mgr"@.len() == 13);
    reveal_strlit("audit_ssh_port"); assert("audit_ssh_port"@.len() == 14);
    reveal_strlit("audit_password_auth"); assert("audit_password_auth"@.len() == 19);
    reveal_strlit("audit_root_login"); assert("audit_root_login"@.len() == 16);
    reveal_strlit("audit_sudo_users"); assert("audit_sudo_users"@.len() == 16);
    reveal_strlit("audit_fail2ban"); assert("audit_fail2ban"@.len() == 14);
    reveal_strlit("audit_ufw"); assert("audit_ufw"@.len() == 9);
    reveal_strlit("audit_auto_updates"); assert("audit_auto_updates"@.len() == 18);
    reveal_strlit("audit_sys_update"); assert("audit_sys_update"@.len() == 16);
    reveal_strlit("audit_detail_root_ok"); assert("audit_detail_root_ok"@.len() == 20);
    reveal_strlit("audit_detail_root_missing"); assert("audit_detail_root_missing"@.len() == 25);
    reveal_strlit("audit_detail_pkg"); assert("audit_detail_pkg"@.len() == 16);
    reveal_strlit("audit_detail_port_safe"); assert("audit_detail_port_safe"@.len() == 22);
    reveal_strlit("audit_detail_port_missing"); assert("audit_detail_port_missing"@.len() == 25);
    reveal_strlit("audit_detail_pw_disabled"); assert("audit_detail_pw_disabled"@.len() == 24);
    reveal_strlit("audit_detail_pw_missing"); assert("audit_detail_pw_missing"@.len() == 23);
    reveal_strlit("audit_detail_root_disabled"); assert("audit_detail_root_disabled"@.len() == 26);
    reveal_strlit("audit_detail_root_missing_cfg"); assert("audit_detail_root_missing_cfg"@.len() == 29);
    reveal_strlit("audit_detail_sudo_missing"); assert("audit_detail_sudo_missing"@.len() == 25);
    reveal_strlit("audit_detail_sudo_ok"); assert("audit_detail_sudo_ok"@.len() == 20);
    reveal_strlit("audit_detail_fb_installed"); assert("audit_detail_fb_installed"@.len() == 25);
    reveal_strlit("audit_detail_fb_missing"); assert("audit_detail_fb_missing"@.len() == 23);
    reveal_strlit("audit_detail_ufw_enabled"); assert("audit_detail_ufw_enabled"@.len() == 24);
    reveal_strlit("audit_detail_ufw_missing"); assert("audit_detail_ufw_missing"@.len() == 24);
    reveal_strlit("audit_detail_au_enabled"); assert("audit_detail_au_enabled"@.len() == 23);
    reveal_strlit("audit_detail_au_missing"); assert("audit_detail_au_missing"@.len() == 23);
    reveal_strlit("audit_detail_sys_uptodate"); assert("audit_detail_sys_uptodate"@.len() == 25);
    reveal_strlit("audit_detail_sys_needs_update"); assert("audit_detail_sys_needs_update"@.len() == 29);
    reveal_strlit("status_safe"); assert("status_safe"@.len() == 11);
    reveal_strlit("status_partial"); assert("status_partial"@.len() == 14);
    reveal_strlit("status_missing"); assert("status_missing"@.len() == 14);
    reveal_strlit("status_needs_update"); assert("status_needs_update"@.len() == 19);
    reveal_strlit("pkg_apt"); assert("pkg_apt"@.len() == 7);
    reveal_strlit("pkg_yum"); assert("pkg_yum"@.len() == 7);
    reveal_strlit("pkg_dnf"); assert("pkg_dnf"@.len() == 7);
    reveal_strlit("pkg_unknown"); assert("pkg_unknown"@.len() == 11);
    reveal_strlit("err_permission_denied"); assert("err_permission_denied"@.len() == 21);
    reveal_strlit("err_cmd_failed"); assert("err_cmd_failed"@.len() == 14);
    reveal_strlit("err_parse_error"); assert("tui_steps_title"@[0] == 't'); assert("err_parse_error"@[0] == 'e');
    reveal_strlit("err_precondition_failed"); assert("err_precondition_failed"@.len() == 23);
    reveal_strlit("err_user_aborted"); assert("err_user_aborted"@.len() == 16);
    reveal_strlit("err_unknown_pkg_mgr"); assert("err_unknown_pkg_mgr"@.len() == 19);
    reveal_strlit("err_unsupported_pkg"); assert("err_unsupported_pkg"@.len() == 19);
    reveal_strlit("err_auto_update_only_debian"); assert("err_auto_update_only_debian"@.len() == 27);
    reveal_strlit("err_unknown_pkg_lynis"); assert("err_unknown_pkg_lynis"@.len() == 21);
    reveal_strlit("err_sshd_not_found"); assert("err_sshd_not_found"@.len() == 18);
    reveal_strlit("err_no_username"); assert("tui_steps_title"@[0] == 't'); assert("err_no_username"@[0] == 'e');
    reveal_strlit("err_user_exists"); assert("tui_steps_title"@[0] == 't'); assert("err_user_exists"@[0] == 'e');
    reveal_strlit("err_no_sudo_before_root"); assert("err_no_sudo_before_root"@.len() == 23);
    reveal_strlit("err_no_ssh_port"); assert("tui_steps_title"@[0] == 't'); assert("err_no_ssh_port"@[0] == 'e');
    reveal_strlit("err_port_zero"); assert("err_port_zero"@.len() == 13);
    reveal_strlit("err_no_sudo_before_pw"); assert("err_no_sudo_before_pw"@.len() == 21);
    reveal_strlit("err_no_target_user"); assert("err_no_target_user"@.len() == 18);
    reveal_strlit("err_no_key_action"); assert("err_no_key_action"@.len() == 17);
    reveal_strlit("err_update_failed"); assert("err_update_failed"@.len() == 17);
    reveal_strlit("err_upgrade_failed"); assert("err_upgrade_failed"@.len() == 18);
    reveal_strlit("err_ufw_allow_failed"); assert("err_ufw_allow_failed"@.len() == 20);
    reveal_strlit("err_ufw_enable_failed"); assert("err_ufw_enable_failed"@.len() == 21);
    reveal_strlit("err_install_fail2ban"); assert("err_install_fail2ban"@.len() == 20);
    reveal_strlit("err_install_unattended"); assert("err_install_unattended"@.len() == 22);
    reveal_strlit("err_lynis_exec"); assert("err_lynis_exec"@.len() == 14);
    reveal_strlit("err_sshd_check"); assert("err_sshd_check"@.len() == 14);
    reveal_strlit("err_sshd_syntax"); assert("tui_steps_title"@[0] == 't'); assert("err_sshd_syntax"@[0] == 'e');
    reveal_strlit("err_ssh_restart"); assert("tui_steps_title"@[0] == 't'); assert("err_ssh_restart"@[0] == 'e');
    reveal_strlit("err_backup"); assert("err_backup"@.len() == 10);
    reveal_strlit("err_read"); assert("err_read"@.len() == 8);
    reveal_strlit("err_write"); assert("err_write"@.len() == 9);
    reveal_strlit("err_setup_signal"); assert("err_setup_signal"@.len() == 16);
    reveal_strlit("result_sys_updated"); assert("result_sys_updated"@.len() == 18);
    reveal_strlit("result_user_created"); assert("result_user_created"@.len() == 19);
    reveal_strlit("result_root_login_set"); assert("result_root_login_set"@.len() == 21);
    reveal_strlit("result_ssh_port_set"); assert("result_ssh_port_set"@.len() == 19);
    reveal_strlit("result_pw_auth_disabled"); assert("result_pw_auth_disabled"@.len() == 23);
    reveal_strlit("result_key_generated"); assert("result_key_generated"@.len() == 20);
    reveal_strlit("result_key_pasted"); assert("result_key_pasted"@.len() == 17);
    reveal_strlit("result_ufw_enabled"); assert("result_ufw_enabled"@.len() == 18);
    reveal_strlit("result_fail2ban_installed"); assert("result_fail2ban_installed"@.len() == 25);
    reveal_strlit("result_auto_updates_enabled"); assert("result_auto_updates_enabled"@.len() == 27);
    reveal_strlit("result_lynis_ok"); assert("tui_steps_title"@[0] == 't'); assert("result_lynis_ok"@[0] == 'r');
    reveal_strlit("result_lynis_fail"); assert("result_lynis_fail"@.len() == 17);
    reveal_strlit("result_logwatch_installed"); assert("result_logwatch_installed"@.len() == 25);
    reveal_strlit("result_ssh_restarted"); assert("result_ssh_restarted"@.len() == 20);
    reveal_strlit("result_sshd_cfg_set"); assert("result_sshd_cfg_set"@.len() == 19);
    reveal_strlit("result_sshd_syntax_ok"); assert("result_sshd_syntax_ok"@.len() == 21);
    reveal_strlit("result_sshd_syntax_err"); assert("result_sshd_syntax_err"@.len() == 22);
    reveal_strlit("log_audit"); assert("log_audit"@.len() == 9);
    reveal_strlit("log_operation"); assert("log_operation"@.len() == 13);
    reveal_strlit("log_rollback"); assert("log_rollback"@.len() == 12);
    reveal_strlit("log_audit_start"); assert("tui_steps_title"@[0] == 't'); assert("log_audit_start"@[0] == 'l');
    reveal_strlit("log_audit_done"); assert("log_audit_done"@.len() == 14);
    reveal_strlit("log_step_start"); assert("log_step_start"@.len() == 14);
    reveal_strlit("log_step_complete"); assert("log_step_complete"@.len() == 17);
    reveal_strlit("log_step_failed"); assert("tui_steps_title"@[0] == 't'); assert("log_step_failed"@[0] == 'l');
    reveal_strlit("log_rollback_auto"); assert("log_rollback_auto"@.len() == 17);
    reveal_strlit("undo_user_remove"); assert("undo_user_remove"@.len() == 16);
    reveal_strlit("undo_pkg_remove"); assert("tui_steps_title"@[0] == 't'); assert("undo_pkg_remove"@[0] == 'u');
    reveal_strlit("undo_cmd"); assert("undo_cmd"@.len() == 8);
    reveal_strlit("undo_file_restore"); assert("undo_file_restore"@.len() == 17);
    reveal_strlit("undo_ufw_disable"); assert("undo_ufw_disable"@.len() == 16);
    reveal_strlit("undo_ufw_delete"); assert("tui_steps_title"@[0] == 't'); assert("undo_ufw_delete"@[0] == 'u');
    reveal_strlit("undo_key_delete"); assert("tui_steps_title"@[0] == 't'); assert("undo_key_delete"@[0] == 'u');
    reveal_strlit("cli_welcome"); assert("cli_welcome"@.len() == 11);
    reveal_strlit("cli_auditing"); assert("cli_auditing"@.len() == 12);
    reveal_strlit("cli_audit_done"); assert("cli_audit_done"@.len() == 14);
    reveal_strlit("cli_select_steps"); assert("cli_select_steps"@.len() == 16);
    reveal_strlit("cli_hint_nav"); assert("cli_hint_nav"@.len() == 12);
    reveal_strlit("cli_collecting"); assert("cli_collecting"@.len() == 14);
    reveal_strlit("cli_will_execute"); assert("cli_will_execute"@.len() == 16);
    reveal_strlit("cli_confirm"); assert("cli_confirm"@.len() == 11);
    reveal_strlit("cli_cancelled"); assert("cli_cancelled"@.len() == 13);
    reveal_strlit("cli_no_selection"); assert("cli_no_selection"@.len() == 16);
    reveal_strlit("cli_executing"); assert("cli_executing"@.len() == 13);
    reveal_strlit("cli_summary_title"); assert("cli_summary_title"@.len() == 17);
    reveal_strlit("cli_summary_total"); assert("cli_summary_total"@.len() == 17);
    reveal_strlit("cli_log_saved"); assert("cli_log_saved"@.len() == 13);
    reveal_strlit("cli_create_user"); assert("tui_steps_title"@[0] == 't'); assert("cli_create_user"@[0] == 'c');
    reveal_strlit("cli_username_prompt"); assert("cli_username_prompt"@.len() == 19);
    reveal_strlit("cli_username_empty"); assert("cli_username_empty"@.len() == 18);
    reveal_strlit("cli_username_exists"); assert("cli_username_exists"@.len() == 19);
    reveal_strlit("cli_username_invalid"); assert("cli_username_invalid"@.len() == 20);
    reveal_strlit("cli_lock_pw"); assert("cli_lock_pw"@.len() == 11);
    reveal_strlit("cli_current_port"); assert("cli_current_port"@.len() == 16);
    reveal_strlit("cli_default_port"); assert("cli_default_port"@.len() == 16);
    reveal_strlit("cli_suggest_port"); assert("cli_suggest_port"@.len() == 16);
    reveal_strlit("cli_port_prompt"); assert("tui_steps_title"@[0] == 't'); assert("cli_port_prompt"@[0] == 'c');
    reveal_strlit("cli_port_invalid"); assert("cli_port_invalid"@.len() == 16);
    reveal_strlit("cli_port_zero"); assert("cli_port_zero"@.len() == 13);
    reveal_strlit("cli_existing_sudo"); assert("cli_existing_sudo"@.len() == 17);
    reveal_strlit("cli_no_sudo"); assert("cli_no_sudo"@.len() == 11);
    reveal_strlit("cli_manual_user"); assert("tui_steps_title"@[0] == 't'); assert("cli_manual_user"@[0] == 'c');
    reveal_strlit("cli_user_prompt"); assert("tui_steps_title"@[0] == 't'); assert("cli_user_prompt"@[0] == 'c');
    reveal_strlit("cli_no_input"); assert("cli_no_input"@.len() == 12);
    reveal_strlit("cli_select_user"); assert("tui_steps_title"@[0] == 't'); assert("cli_select_user"@[0] == 'c');
    reveal_strlit("cli_key_found"); assert("cli_key_found"@.len() == 13);
    reveal_strlit("cli_key_action"); assert("cli_key_action"@.len() == 14);
    reveal_strlit("cli_key_generate"); assert("cli_key_generate"@.len() == 16);
    reveal_strlit("cli_key_paste"); assert("cli_key_paste"@.len() == 13);
    reveal_strlit("cli_key_skip"); assert("cli_key_skip"@.len() == 12);
    reveal_strlit("cli_key_prompt"); assert("cli_key_prompt"@.len() == 14);
    reveal_strlit("cli_ssh_port_info"); assert("cli_ssh_port_info"@.len() == 17);
    reveal_strlit("cli_ssh_suggest_info"); assert("cli_ssh_suggest_info"@.len() == 20);
    reveal_strlit("tui_title"); assert("tui_title"@.len() == 9);
    reveal_strlit("tui_audit_report"); assert("tui_audit_report"@.len() == 16);
    reveal_strlit("{n}");
    reveal_strlit("加固步骤 ({n})");
    assert("加固步骤 ({n})"@.subrange(6, 9) =~= "{n}"@);
    assert(match_at("加固步骤 ({n})"@, "{n}"@, 6));
    reveal_strlit("Steps ({n})");
    assert("Steps ({n})"@.subrange(7, 10) =~= "{n}"@);
    assert(match_at("Steps ({n})"@, "{n}"@, 7));
    reveal_strlit("強化步驟 ({n})");
    assert("強化步驟 ({n})"@.subrange(6, 9) =~= "{n}"@);
    assert(match_at("強化步驟 ({n})"@, "{n}"@, 6));
}

proof fn placeholders_tui_selected_count()
    ensures
        zh_cn_text("tui_selected_count"@) matches Some(t) && contains(t, "{n}"@),
        en_text("tui_selected_count"@) matches Some(t) && contains(t, "{n}"@),
        zh_tw_text("tui_selected_count"@) matches Some(t) && contains(t, "{n}"@),
{
    reveal_strlit("tui_selected_count"); assert("tui_selected_count"@.len() == 18);
    reveal_strlit("lang_en"); assert("lang_en"@.len() == 7);
    reveal_strlit("lang_zh_cn"); assert("lang_zh_cn"@.len() == 10);
    reveal_strlit("lang_zh_tw"); assert("lang_zh_tw"@.len() == 10);
    reveal_strlit("select_language"); assert("select_language"@.len() == 15);
    reveal_strlit("select_mode"); assert("select_mode"@.len() == 11);
    reveal_strlit("mode_cli"); assert("mode_cli"@.len() == 8);
    reveal_strlit("mode_tui"); assert("mode_tui"@.len() == 8);
    reveal_strlit("unknown_arg"); assert("unknown_arg"@.len() == 11);
    reveal_strlit("app_title"); assert("app_title"@.len() == 9);
    reveal_strlit("step_system_update"); assert("tui_selected_count"@[0] == 't'); assert("step_system_update"@[0] == 's');
    reveal_strlit("step_user_creation"); assert("tui_selected_count"@[0] == 't'); assert("step_user_creation"@[0] == 's');
    reveal_strlit("step_ssh_root_login"); assert("step_ssh_root_login"@.len() == 19);
    reveal_strlit("step_ssh_port_change"); assert("step_ssh_port_change"@.len() == 20);
    reveal_strlit("step_ssh_password_auth"); assert("step_ssh_password_auth"@.len() == 22);
    reveal_strlit("step_ssh_key_setup"); assert("tui_selected_count"@[0] == 't'); assert("step_ssh_key_setup"@[0] == 's');
    reveal_strlit("step_ufw"); assert("step_ufw"@.len() == 8);
    reveal_strlit("step_fail2ban"); assert("step_fail2ban"@.len() == 13);
    reveal_strlit("step_auto_updates"); assert("step_auto_updates"@.len() == 17);
    reveal_strlit("step_security_scan"); assert("tui_selected_count"@[0] == 't'); assert("step_security_scan"@[0] == 's');
    reveal_strlit("step_log_audit"); assert("step_log_audit"@.len() == 14);
    reveal_strlit("step_restart_ssh"); assert("step_restart_ssh"@.len() == 16);
    reveal_strlit("audit_root"); assert("audit_root"@.len() == 10);
    reveal_strlit("audit_pkg_mgr"); assert("audit_pkg_mgr"@.len() == 13);
    reveal_strlit("audit_ssh_port"); assert("audit_ssh_port"@.len() == 14);
    reveal_strlit("audit_password_auth"); assert("audit_password_auth"@.len() == 19);
    reveal_strlit("audit_root_login"); assert("audit_root_login"@.len() == 16);
    reveal_strlit("audit_sudo_users"); assert("audit_sudo_users"@.len() == 16);
    reveal_strlit("audit_fail2ban"); assert("audit_fail2ban"@.len() == 14);
    reveal_strlit("audit_ufw"); assert("audit_ufw"@.len() == 9);
    reveal_strlit("audit_auto_updates"); assert("tui_selected_count"@[0] == 't'); assert("audit_auto_updates"@[0] == 'a');
    reveal_strlit("audit_sys_update"); assert("audit_sys_update"@.len() == 16);
    reveal_strlit("audit_detail_root_ok"); assert("audit_detail_root_ok"@.len() == 20);
    reveal_strlit("audit_detail_root_missing"); assert("audit_detail_root_missing"@.len() == 25);
    reveal_strlit("audit_detail_pkg"); assert("audit_detail_pkg"@.len() == 16);
    reveal_strlit("audit_detail_port_safe"); assert("audit_detail_port_safe"@.len() == 22);
    reveal_strlit("audit_detail_port_missing"); assert("audit_detail_port_missing"@.len() == 25);
    reveal_strlit("audit_detail_pw_disabled"); assert("audit_detail_pw_disabled"@.len() == 24);
    reveal_strlit("audit_detail_pw_missing"); assert("audit_detail_pw_missing"@.len() == 23);
    reveal_strlit("audit_detail_root_disabled"); assert("audit_detail_root_disabled"@.len() == 26);
    reveal_strlit("audit_detail_root_missing_cfg"); assert("audit_detail_root_missing_cfg"@.len() == 29);
    reveal_strlit("audit_detail_sudo_missing"); assert("audit_detail_sudo_missing"@.len() == 25);
    reveal_strlit("audit_detail_sudo_ok"); assert("audit_detail_sudo_ok"@.len() == 20);
    reveal_strlit("audit_detail_fb_installed"); assert("audit_detail_fb_installed"@.len() == 25);
    reveal_strlit("audit_detail_fb_missing"); assert("audit_detail_fb_missing"@.len() == 23);
    reveal_strlit("audit_detail_ufw_enabled"); assert("audit_detail_ufw_enabled"@.len() == 24);
    reveal_strlit("audit_detail_ufw_missing"); assert("audit_detail_ufw_missing"@.len() == 24);
    reveal_strlit("audit_detail_au_enabled"); assert("audit_detail_au_enabled"@.len() == 23);
    reveal_strlit("audit_detail_au_missing"); assert("audit_detail_au_missing"@.len() == 23);
    reveal_strlit("audit_detail_sys_uptodate"); assert("audit_detail_sys_uptodate"@.len() == 25);
    reveal_strlit("audit_detail_sys_needs_update"); assert("audit_detail_sys_needs_update"@.len() == 29);
    reveal_strlit("status_safe"); assert("status_safe"@.len() == 11);
    reveal_strlit("status_partial"); assert("status_partial"@.len() == 14);
    reveal_strlit("status_missing"); assert("status_missing"@.len() == 14);
    reveal_strlit("status_needs_update"); assert("status_needs_update"@.len() == 19);
    reveal_strlit("pkg_apt"); assert("pkg_apt"@.len() == 7);
    reveal_strlit("pkg_yum"); assert("pkg_yum"@.len() == 7);
    reveal_strlit("pkg_dnf"); assert("pkg_dnf"@.len() == 7);
    reveal_strlit("pkg_unknown"); assert("pkg_unknown"@.len() == 11);
    reveal_strlit("err_permission_denied"); assert("err_permission_denied"@.len() == 21);
    reveal_strlit("err_cmd_failed"); assert("err_cmd_failed"@.len() == 14);
    reveal_strlit("err_parse_error"); assert("err_parse_error"@.len() == 15);
    reveal_strlit("err_precondition_failed"); assert("err_precondition_failed"@.len() == 23);
    reveal_strlit("err_user_aborted"); assert("err_user_aborted"@.len() == 16);
    reveal_strlit("err_unknown_pkg_mgr"); assert("err_unknown_pkg_mgr"@.len() == 19);
    reveal_strlit("err_unsupported_pkg"); assert("err_unsupported_pkg"@.len() == 19);
    reveal_strlit("err_auto_update_only_debian"); assert("err_auto_update_only_debian"@.len() == 27);
    reveal_strlit("err_unknown_pkg_lynis"); assert("err_unknown_pkg_lynis"@.len() == 21);
    reveal_strlit("err_sshd_not_found"); assert("tui_selected_count"@[0] == 't'); assert("err_sshd_not_found"@[0] == 'e');
    reveal_strlit("err_no_username"); assert("err_no_username"@.len() == 15);
    reveal_strlit("err_user_exists"); assert("err_user_exists"@.len() == 15);
    reveal_strlit("err_no_sudo_before_root"); assert("err_no_sudo_before_root"@.len() == 23);
    reveal_strlit("err_no_ssh_port"); assert("err_no_ssh_port"@.len() == 15);
    reveal_strlit("err_port_zero"); assert("err_port_zero"@.len() == 13);
    reveal_strlit("err_no_sudo_before_pw"); assert("err_no_sudo_before_pw"@.len() == 21);
    reveal_strlit("err_no_target_user"); assert("tui_selected_count"@[0] == 't'); assert("err_no_target_user"@[0] == 'e');
    reveal_strlit("err_no_key_action"); assert("err_no_key_action"@.len() == 17);
    reveal_strlit("err_update_failed"); assert("err_update_failed"@.len() == 17);
    reveal_strlit("err_upgrade_failed"); assert("tui_selected_count"@[0] == 't'); assert("err_upgrade_failed"@[0] == 'e');
    reveal_strlit("err_ufw_allow_failed"); assert("err_ufw_allow_failed"@.len() == 20);
    reveal_strlit("err_ufw_enable_failed"); assert("err_ufw_enable_failed"@.len() == 21);
    reveal_strlit("err_install_fail2ban"); assert("err_install_fail2ban"@.len() == 20);
    reveal_strlit("err_install_unattended"); assert("err_install_unattended"@.len() == 22);
    reveal_strlit("err_lynis_exec"); assert("err_lynis_exec"@.len() == 14);
    reveal_strlit("err_sshd_check"); assert("err_sshd_check"@.len() == 14);
    reveal_strlit("err_sshd_syntax"); assert("err_sshd_syntax"@.len() == 15);
    reveal_strlit("err_ssh_restart"); assert("err_ssh_restart"@.len() == 15);
    reveal_strlit("err_backup"); assert("err_backup"@.len() == 10);
    reveal_strlit("err_read"); assert("err_read"@.len() == 8);
    reveal_strlit("err_write"); assert("err_write"@.len() == 9);
    reveal_strlit("err_setup_signal"); assert("err_setup_signal"@.len() == 16);
    reveal_strlit("result_sys_updated"); assert("tui_selected_count"@[0] == 't'); assert("result_sys_updated"@[0] == 'r');
    reveal_strlit("result_user_created"); assert("result_user_created"@.len() == 19);
    reveal_strlit("result_root_login_set"); assert("result_root_login_set"@.len() == 21);
    reveal_strlit("result_ssh_port_set"); assert("result_ssh_port_set"@.len() == 19);
    reveal_strlit("result_pw_auth_disabled"); assert("result_pw_auth_disabled"@.len() == 23);
    reveal_strlit("result_key_generated"); assert("result_key_generated"@.len() == 20);
    reveal_strlit("result_key_pasted"); assert("result_key_pasted"@.len() == 17);
    reveal_strlit("result_ufw_enabled"); assert("tui_selected_count"@[0] == 't'); assert("result_ufw_enabled"@[0] == 'r');
    reveal_strlit("result_fail2ban_installed"); assert("result_fail2ban_installed"@.len() == 25);
    reveal_strlit("result_auto_updates_enabled"); assert("result_auto_updates_enabled"@.len() == 27);
    reveal_strlit("result_lynis_ok"); assert("result_lynis_ok"@.len() == 15);
    reveal_strlit("result_lynis_fail"); assert("result_lynis_fail"@.len() == 17);
    reveal_strlit("result_logwatch_installed"); assert("result_logwatch_installed"@.len() == 25);
    reveal_strlit("result_ssh_restarted"); assert("result_ssh_restarted"@.len() == 20);
    reveal_strlit("result_sshd_cfg_set"); assert("result_sshd_cfg_set"@.len() == 19);
    reveal_strlit("result_sshd_syntax_ok"); assert("result_sshd_syntax_ok"@.len() == 21);
    reveal_strlit("result_sshd_syntax_err"); assert("result_sshd_syntax_err"@.len() == 22);
    reveal_strlit("log_audit"); assert("log_audit"@.len() == 9);
    reveal_strlit("log_operation"); assert("log_operation"@.len() == 13);
    reveal_strlit("log_rollback"); assert("log_rollback"@.len() == 12);
    reveal_strlit("log_audit_start"); assert("log_audit_start"@.len() == 15);
    reveal_strlit("log_audit_done"); assert("log_audit_done"@.len() == 14);
    reveal_strlit("log_step_start"); assert("log_step_start"@.len() == 14);
    reveal_strlit("log_step_complete"); assert("log_step_complete"@.len() == 17);
    reveal_strlit("log_step_failed"); assert("log_step_failed"@.len() == 15);
    reveal_strlit("log_rollback_auto"); assert("log_rollback_auto"@.len() == 17);
    reveal_strlit("undo_user_remove"); assert("undo_user_remove"@.len() == 16);
    reveal_strlit("undo_pkg_remove"); assert("undo_pkg_remove"@.len() == 15);
    reveal_strlit("undo_cmd"); assert("undo_cmd"@.len() == 8);
    reveal_strlit("undo_file_restore"); assert("undo_file_restore"@.len() == 17);
    reveal_strlit("undo_ufw_disable"); assert("undo_ufw_disable"@.len() == 16);
    reveal_strlit("undo_ufw_delete"); assert("undo_ufw_delete"@.len() == 15);
    reveal_strlit("undo_key_delete"); assert("undo_key_delete"@.len() == 15);
    reveal_strlit("cli_welcome"); assert("cli_welcome"@.len() == 11);
    reveal_strlit("cli_auditing"); assert("cli_auditing"@.len() == 12);
    reveal_strlit("cli_audit_done"); assert("cli_audit_done"@.len() == 14);
    reveal_strlit("cli_select_steps"); assert("cli_select_steps"@.len() == 16);
    reveal_strlit("cli_hint_nav"); assert("cli_hint_nav"@.len() == 12);
    reveal_strlit("cli_collecting"); assert("cli_collecting"@.len() == 14);
    reveal_strlit("cli_will_execute"); assert("cli_will_execute"@.len() == 16);
    reveal_strlit("cli_confirm"); assert("cli_confirm"@.len() == 11);
    reveal_strlit("cli_cancelled"); assert("cli_cancelled"@.len() == 13);
    reveal_strlit("cli_no_selection"); assert("cli_no_selection"@.len() == 16);
    reveal_strlit("cli_executing"); assert("cli_executing"@.len() == 13);
    reveal_strlit("cli_summary_title"); assert("cli_summary_title"@.len() == 17);
    reveal_strlit("cli_summary_total"); assert("cli_summary_total"@.len() == 17);
    reveal_strlit("cli_log_saved"); assert("cli_log_saved"@.len() == 13);
    reveal_strlit("cli_create_user"); assert("cli_create_user"@.len() == 15);
    reveal_strlit("cli_username_prompt"); assert("cli_username_prompt"@.len() == 19);
    reveal_strlit("cli_username_empty"); assert("tui_selected_count"@[0] == 't'); assert("cli_username_empty"@[0] == 'c');
    reveal_strlit("cli_username_exists"); assert("cli_username_exists"@.len() == 19);
    reveal_strlit("cli_username_invalid"); assert("cli_username_invalid"@.len() == 20);
    reveal_strlit("cli_lock_pw"); assert("cli_lock_pw"@.len() == 11);
    reveal_strlit("cli_current_port"); assert("cli_current_port"@.len() == 16);
    reveal_strlit("cli_default_port"); assert("cli_default_port"@.len() == 16);
    reveal_strlit("cli_suggest_port"); assert("cli_suggest_port"@.len() == 16);
    reveal_strlit("cli_port_prompt"); assert("cli_port_prompt"@.len() == 15);
    reveal_strlit("cli_port_invalid"); assert("cli_port_invalid"@.len() == 16);
    reveal_strlit("cli_port_zero"); assert("cli_port_zero"@.len() == 13);
    reveal_strlit("cli_existing_sudo"); assert("cli_existing_sudo"@.len() == 17);
    reveal_strlit("cli_no_sudo"); assert("cli_no_sudo"@.len() == 11);
    reveal_strlit("cli_manual_user"); assert("cli_manual_user"@.len() == 15);
    reveal_strlit("cli_user_prompt"); assert("cli_user_prompt"@.len() == 15);
    reveal_strlit("cli_no_input"); assert("cli_no_input"@.len() == 12);
    reveal_strlit("cli_select_user"); assert("cli_select_user"@.len() == 15);
    reveal_strlit("cli_key_found"); assert("cli_key_found"@.len() == 13);
    reveal_strlit("cli_key_action"); assert("cli_key_action"@.len() == 14);
    reveal_strlit("cli_key_generate"); assert("cli_key_generate"@.len() == 16);
    reveal_strlit("cli_key_paste"); assert("cli_key_paste"@.len() == 13);
    reveal_strlit("cli_key_skip"); assert("cli_key_skip"@.len() == 12);
    reveal_strlit("cli_key_prompt"); assert("cli_key_prompt"@.len() == 14);
    reveal_strlit("cli_ssh_port_info"); assert("cli_ssh_port_info"@.len() == 17);
    reveal_strlit("cli_ssh_suggest_info"); assert("cli_ssh_suggest_info"@.len() == 20);
    reveal_strlit("tui_title"); assert("tui_title"@.len() == 9);
    reveal_strlit("tui_audit_report"); assert("tui_audit_report"@.len() == 16);
    reveal_strlit("tui_steps_title"); assert("tui_steps_title"@.len() == 15);
    reveal_strlit("tui_help_title"); assert("tui_help_title"@.len() == 14);
    reveal_strlit("tui_help_move"); assert("tui_help_move"@.len() == 13);
    reveal_strlit("tui_help_toggle"); assert("tui_help_toggle"@.len() == 15);
    reveal_strlit("tui_help_batch"); assert("tui_help_batch"@.len() == 14);
    reveal_strlit("tui_help_single"); assert("tui_help_single"@.len() == 15);
    reveal_strlit("tui_help_reauth"); assert("tui_help_reauth"@.len() == 15);
    reveal_strlit("tui_help_quit"); assert("tui_help_quit"@.len() == 13);
    reveal_strlit("{n}");
    reveal_strlit("已勾选 {n} 项");
    assert("已勾选 {n} 项"@.subrange(4, 7) =~= "{n}"@);
    assert(match_at("已勾选 {n} 项"@, "{n}"@, 4));
    reveal_strlit("{n} selected");
    assert("{n} selected"@.subrange(0, 3) =~= "{n}"@);
    assert(match_at("{n} selected"@, "{n}"@, 0));
    reveal_strlit("已勾選 {n} 項");
    assert("已勾選 {n} 項"@.subrange(4, 7) =~= "{n}"@);
    assert(match_at("已勾選 {n} 項"@, "{n}"@, 4));
}

proof fn placeholders_tui_exec_running()
    ensures
        zh_cn_text("tui_exec_running"@) matches Some(t) && contains(t, "{step}"@),
        en_text("tui_exec_running"@) matches Some(t) && contains(t, "{step}"@),
        zh_tw_text("tui_exec_running"@) matches Some(t) && contains(t, "{step}"@),
{
    reveal_strlit("tui_exec_running"); assert("tui_exec_running"@.len() == 16);
    reveal_strlit("lang_en"); assert("lang_en"@.len() == 7);
    reveal_strlit("lang_zh_cn"); assert("lang_zh_cn"@.len() == 10);
    reveal_strlit("lang_zh_tw"); assert("lang_zh_tw"@.len() == 10);
    reveal_strlit("select_language"); assert("select_language"@.len() == 15);
    reveal_strlit("select_mode"); assert("select_mode"@.len() == 11);
    reveal_strlit("mode_cli"); assert("mode_cli"@.len() == 8);
    reveal_strlit("mode_tui"); assert("mode_tui"@.len() == 8);
    reveal_strlit("unknown_arg"); assert("unknown_arg"@.len() == 11);
    reveal_strlit("app_title"); assert("app_title"@.len() == 9);
    reveal_strlit("step_system_update"); assert("step_system_update"@.len() == 18);
    reveal_strlit("step_user_creation"); assert("step_user_creation"@.len() == 18);
    reveal_strlit("step_ssh_root_login"); assert("step_ssh_root_login"@.len() == 19);
    reveal_strlit("step_ssh_port_change"); assert("step_ssh_port_change"@.len() == 20);
    reveal_strlit("step_ssh_password_auth"); assert("step_ssh_password_auth"@.len() == 22);
    reveal_strlit("step_ssh_key_setup"); assert("step_ssh_key_setup"@.len() == 18);
    reveal_strlit("step_ufw"); assert("step_ufw"@.len() == 8);
    reveal_strlit("step_fail2ban"); assert("step_fail2ban"@.len() == 13);
    reveal_strlit("step_auto_updates"); assert("step_auto_updates"@.len() == 17);
    reveal_strlit("step_security_scan"); assert("step_security_scan"@.len() == 18);
    reveal_strlit("step_log_audit"); assert("step_log_audit"@.len() == 14);
    reveal_strlit("step_restart_ssh"); assert("tui_exec_running"@[0] == 't'); assert("step_restart_ssh"@[0] == 's');
    reveal_strlit("audit_root"); assert("audit_root"@.len() == 10);
    reveal_strlit("audit_pkg_mgr"); assert("audit_pkg_mgr"@.len() == 13);
    reveal_strlit("audit_ssh_port"); assert("audit_ssh_port"@.len() == 14);
    reveal_strlit("audit_password_auth"); assert("audit_password_auth"@.len() == 19);
    reveal_strlit("audit_root_login"); assert("tui_exec_running"@[0] == 't'); assert("audit_root_login"@[0] == 'a');
    reveal_strlit("audit_sudo_users"); assert("tui_exec_running"@[0] == 't'); assert("audit_sudo_users"@[0] == 'a');
    reveal_strlit("audit_fail2ban"); assert("audit_fail2ban"@.len() == 14);
    reveal_strlit("audit_ufw"); assert("audit_ufw"@.len() == 9);
    reveal_strlit("audit_auto_updates"); assert("audit_auto_updates"@.len() == 18);
    reveal_strlit("audit_sys_update"); assert("tui_exec_running"@[0] == 't'); assert("audit_sys_update"@[0] == 'a');
    reveal_strlit("audit_detail_root_ok"); assert("audit_detail_root_ok"@.len() == 20);
    reveal_strlit("audit_detail_root_missing"); assert("audit_detail_root_missing"@.len() == 25);
    reveal_strlit("audit_detail_pkg"); assert("tui_exec_running"@[0] == 't'); assert("audit_detail_pkg"@[0] == 'a');
    reveal_strlit("audit_detail_port_safe"); assert("audit_detail_port_safe"@.len() == 22);
    reveal_strlit("audit_detail_port_missing"); assert("audit_detail_port_missing"@.len() == 25);
    reveal_strlit("audit_detail_pw_disabled"); assert("audit_detail_pw_disabled"@.len() == 24);
    reveal_strlit("audit_detail_pw_missing"); assert("audit_detail_pw_missing"@.len() == 23);
    reveal_strlit("audit_detail_root_disabled"); assert("audit_detail_root_disabled"@.len() == 26);
    reveal_strlit("audit_detail_root_missing_cfg"); assert("audit_detail_root_missing_cfg"@.len() == 29);
    reveal_strlit("audit_detail_sudo_missing"); assert("audit_detail_sudo_missing"@.len() == 25);
    reveal_strlit("audit_detail_sudo_ok"); assert("audit_detail_sudo_ok"@.len() == 20);
    reveal_strlit("audit_detail_fb_installed"); assert("audit_detail_fb_installed"@.len() == 25);
    reveal_strlit("audit_detail_fb_missing"); assert("audit_detail_fb_missing"@.len() == 23);
    reveal_strlit("audit_detail_ufw_enabled"); assert("audit_detail_ufw_enabled"@.len() == 24);
    reveal_strlit("audit_detail_ufw_missing"); assert("audit_detail_ufw_missing"@.len() == 24);
    reveal_strlit("audit_detail_au_enabled"); assert("audit_detail_au_enabled"@.len() == 23);
    reveal_strlit("audit_detail_au_missing"); assert("audit_detail_au_missing"@.len() == 23);
    reveal_strlit("audit_detail_sys_uptodate"); assert("audit_detail_sys_uptodate"@.len() == 25);
    reveal_strlit("audit_detail_sys_needs_update"); assert("audit_detail_sys_needs_update"@.len() == 29);
    reveal_strlit("status_safe"); assert("status_safe"@.len() == 11);
    reveal_strlit("status_partial"); assert("status_partial"@.len() == 14);
    reveal_strlit("status_missing"); assert("status_missing"@.len() == 14);
    reveal_strlit("status_needs_update"); assert("status_needs_update"@.len() == 19);
    reveal_strlit("pkg_apt"); assert("pkg_apt"@.len() == 7);
    reveal_strlit("pkg_yum"); assert("pkg_yum"@.len() == 7);
    reveal_strlit("pkg_dnf"); assert("pkg_dnf"@.len() == 7);
    reveal_strlit("pkg_unknown"); assert("pkg_unknown"@.len() == 11);
    reveal_strlit("err_permission_denied"); assert("err_permission_denied"@.len() == 21);
    reveal_strlit("err_cmd_failed"); assert("err_cmd_failed"@.len() == 14);
    reveal_strlit("err_parse_error"); assert("err_parse_error"@.len() == 15);
    reveal_strlit("err_precondition_failed"); assert("err_precondition_failed"@.len() == 23);
    reveal_strlit("err_user_aborted"); assert("tui_exec_running"@[0] == 't'); assert("err_user_aborted"@[0] == 'e');
    reveal_strlit("err_unknown_pkg_mgr"); assert("err_unknown_pkg_mgr"@.len() == 19);
    reveal_strlit("err_unsupported_pkg"); assert("err_unsupported_pkg"@.len() == 19);
    reveal_strlit("err_auto_update_only_debian"); assert("err_auto_update_only_debian"@.len() == 27);
    reveal_strlit("err_unknown_pkg_lynis"); assert("err_unknown_pkg_lynis"@.len() == 21);
    reveal_strlit("err_sshd_not_found"); assert("err_sshd_not_found"@.len() == 18);
    reveal_strlit("err_no_username"); assert("err_no_username"@.len() == 15);
    reveal_strlit("err_user_exists"); assert("err_user_exists"@.len() == 15);
    reveal_strlit("err_no_sudo_before_root"); assert("err_no_sudo_before_root"@.len() == 23);
    reveal_strlit("err_no_ssh_port"); assert("err_no_ssh_port"@.len() == 15);
    reveal_strlit("err_port_zero"); assert("err_port_zero"@.len() == 13);
    reveal_strlit("err_no_sudo_before_pw"); assert("err_no_sudo_before_pw"@.len() == 21);
    reveal_strlit("err_no_target_user"); assert("err_no_target_user"@.len() == 18);
    reveal_strlit("err_no_key_action"); assert("err_no_key_action"@.len() == 17);
    reveal_strlit("err_update_failed"); assert("err_update_failed"@.len() == 17);
    reveal_strlit("err_upgrade_failed"); assert("err_upgrade_failed"@.len() == 18);
    reveal_strlit("err_ufw_allow_failed"); assert("err_ufw_allow_failed"@.len() == 20);
    reveal_strlit("err_ufw_enable_failed"); assert("err_ufw_enable_failed"@.len() == 21);
    reveal_strlit("err_install_fail2ban"); assert("err_install_fail2ban"@.len() == 20);
    reveal_strlit("err_install_unattended"); assert("err_install_unattended"@.len() == 22);
    reveal_strlit("err_lynis_exec"); assert("err_lynis_exec"@.len() == 14);
    reveal_strlit("err_sshd_check"); assert("err_sshd_check"@.len() == 14);
    reveal_strlit("err_sshd_syntax"); assert("err_sshd_syntax"@.len() == 15);
    reveal_strlit("err_ssh_restart"); assert("err_ssh_restart"@.len() == 15);
    reveal_strlit("err_backup"); assert("err_backup"@.len() == 10);
    reveal_strlit("err_read"); assert("err_read"@.len() == 8);
    reveal_strlit("err_write"); assert("err_write"@.len() == 9);
    reveal_strlit("err_setup_signal"); assert("tui_exec_running"@[0] == 't'); assert("err_setup_signal"@[0] == 'e');
    reveal_strlit("result_sys_updated"); assert("result_sys_updated"@.len() == 18);
    reveal_strlit("result_user_created"); assert("result_user_created"@.len() == 19);
    reveal_strlit("result_root_login_set"); assert("result_root_login_set"@.len() == 21);
    reveal_strlit("result_ssh_port_set"); assert("result_ssh_port_set"@.len() == 19);
    reveal_strlit("result_pw_auth_disabled"); assert("result_pw_auth_disabled"@.len() == 23);
    reveal_strlit("result_key_generated"); assert("result_key_generated"@.len() == 20);
    reveal_strlit("result_key_pasted"); assert("result_key_pasted"@.len() == 17);
    reveal_strlit("result_ufw_enabled"); assert("result_ufw_enabled"@.len() == 18);
    reveal_strlit("result_fail2ban_installed"); assert("result_fail2ban_installed"@.len() == 25);
    reveal_strlit("result_auto_updates_enabled"); assert("result_auto_updates_enabled"@.len() == 27);
    reveal_strlit("result_lynis_ok"); assert("result_lynis_ok"@.len() == 15);
    reveal_strlit("result_lynis_fail"); assert("result_lynis_fail"@.len() == 17);
    reveal_strlit("result_logwatch_installed"); assert("result_logwatch_installed"@.len() == 25);
    reveal_strlit("result_ssh_restarted"); assert("result_ssh_restarted"@.len() == 20);
    reveal_strlit("result_sshd_cfg_set"); assert("result_sshd_cfg_set"@.len() == 19);
    reveal_strlit("result_sshd_syntax_ok"); assert("result_sshd_syntax_ok"@.len() == 21);
    reveal_strlit("result_sshd_syntax_err"); assert("result_sshd_syntax_err"@.len() == 22);
    reveal_strlit("log_audit"); assert("log_audit"@.len() == 9);
    reveal_strlit("log_operation"); assert("log_operation"@.len() == 13);
    reveal_strlit("log_rollback"); assert("log_rollback"@.len() == 12);
    reveal_strlit("log_audit_start"); assert("log_audit_start"@.len() == 15);
    reveal_strlit("log_audit_done"); assert("log_audit_done"@.len() == 14);
    reveal_strlit("log_step_start"); assert("log_step_start"@.len() == 14);
    reveal_strlit("log_step_complete"); assert("log_step_complete"@.len() == 17);
    reveal_strlit("log_step_failed"); assert("log_step_failed"@.len() == 15);
    reveal_strlit("log_rollback_auto"); assert("log_rollback_auto"@.len() == 17);
    reveal_strlit("undo_user_remove"); assert("tui_exec_running"@[0] == 't'); assert("undo_user_remove"@[0] == 'u');
    reveal_strlit("undo_pkg_remove"); assert("undo_pkg_remove"@.len() == 15);
    reveal_strlit("undo_cmd"); assert("undo_cmd"@.len() == 8);
    reveal_strlit("undo_file_restore"); assert("undo_file_restore"@.len() == 17);
    reveal_strlit("undo_ufw_disable"); assert("tui_exec_running"@[0] == 't'); assert("undo_ufw_disable"@[0] == 'u');
    reveal_strlit("undo_ufw_delete"); assert("undo_ufw_delete"@.len() == 15);
    reveal_strlit("undo_key_delete"); assert("undo_key_delete"@.len() == 15);
    reveal_strlit("cli_welcome"); assert("cli_welcome"@.len() == 11);
    reveal_strlit("cli_auditing"); assert("cli_auditing"@.len() == 12);
    reveal_strlit("cli_audit_done"); assert("cli_audit_done"@.len() == 14);
    reveal_strlit("cli_select_steps"); assert("tui_exec_running"@[0] == 't'); assert("cli_select_steps"@[0] == 'c');
    reveal_strlit("cli_hint_nav"); assert("cli_hint_nav"@.len() == 12);
    reveal_strlit("cli_collecting"); assert("cli_collecting"@.len() == 14);
    reveal_strlit("cli_will_execute"); assert("tui_exec_running"@[0] == 't'); assert("cli_will_execute"@[0] == 'c');
    reveal_strlit("cli_confirm"); assert("cli_confirm"@.len() == 11);
    reveal_strlit("cli_cancelled"); assert("cli_cancelled"@.len() == 13);
    reveal_strlit("cli_no_selection"); assert("tui_exec_running"@[0] == 't'); assert("cli_no_selection"@[0] == 'c');
    reveal_strlit("cli_executing"); assert("cli_executing"@.len() == 13);
    reveal_strlit("cli_summary_title"); assert("cli_summary_title"@.len() == 17);
    reveal_strlit("cli_summary_total"); assert("cli_summary_total"@.len() == 17);
    reveal_strlit("cli_log_saved"); assert("cli_log_saved"@.len() == 13);
    reveal_strlit("cli_create_user"); assert("cli_create_user"@.len() == 15);
    reveal_strlit("cli_username_prompt"); assert("cli_username_prompt"@.len() == 19);
    reveal_strlit("cli_username_empty"); assert("cli_username_empty"@.len() == 18);
    reveal_strlit("cli_username_exists"); assert("cli_username_exists"@.len() == 19);
    reveal_strlit("cli_username_invalid"); assert("cli_username_invalid"@.len() == 20);
    reveal_strlit("cli_lock_pw"); assert("cli_lock_pw"@.len() == 11);
    reveal_strlit("cli_current_port"); assert("tui_exec_running"@[0] == 't'); assert("cli_current_port"@[0] == 'c');
    reveal_strlit("cli_default_port"); assert("tui_exec_running"@[0] == 't'); assert("cli_default_port"@[0] == 'c');
    reveal_strlit("cli_suggest_port"); assert("tui_exec_running"@[0] == 't'); assert("cli_suggest_port"@[0] == 'c');
    reveal_strlit("cli_port_prompt"); assert("cli_port_prompt"@.len() == 15);
    reveal_strlit("cli_port_invalid"); assert("tui_exec_running"@[0] == 't'); assert("cli_port_invalid"@[0] == 'c');
    reveal_strlit("cli_port_zero"); assert("cli_port_zero"@.len() == 13);
    reveal_strlit("cli_existing_sudo"); assert("cli_existing_sudo"@.len() == 17);
    reveal_strlit("cli_no_sudo"); assert("cli_no_sudo"@.len() == 11);
    reveal_strlit("cli_manual_user"); assert("cli_manual_user"@.len() == 15);
    reveal_strlit("cli_user_prompt"); assert("cli_user_prompt"@.len() == 15);
    reveal_strlit("cli_no_input"); assert("cli_no_input"@.len() == 12);
    reveal_strlit("cli_select_user"); assert("cli_select_user"@.len() == 15);
    reveal_strlit("cli_key_found"); assert("cli_key_found"@.len() == 13);
    reveal_strlit("cli_key_action"); assert("cli_key_action"@.len() == 14);
    reveal_strlit("cli_key_generate"); assert("tui_exec_running"@[0] == 't'); assert("cli_key_generate"@[0] == 'c');
    reveal_strlit("cli_key_paste"); assert("cli_key_paste"@.len() == 13);
    reveal_strlit("cli_key_skip"); assert("cli_key_skip"@.len() == 12);
    reveal_strlit("cli_key_prompt"); assert("cli_key_prompt"@.len() == 14);
    reveal_strlit("cli_ssh_port_info"); assert("cli_ssh_port_info"@.len() == 17);
    reveal_strlit("cli_ssh_suggest_info"); assert("cli_ssh_suggest_info"@.len() == 20);
    reveal_strlit("tui_title"); assert("tui_title"@.len() == 9);
    reveal_strlit("tui_audit_report"); assert("tui_exec_running"@[4] == 'e'); assert("tui_audit_report"@[4] == 'a');
    reveal_strlit("tui_steps_title"); assert("tui_steps_title"@.len() == 15);
    reveal_strlit("tui_help_title"); assert("tui_help_title"@.len() == 14);
    reveal_strlit("tui_help_move"); assert("tui_help_move"@.len() == 13);
    reveal_strlit("tui_help_toggle"); assert("tui_help_toggle"@.len() == 15);
    reveal_strlit("tui_help_batch"); assert("tui_help_batch"@.len() == 14);
    reveal_strlit("tui_help_single"); assert("tui_help_single"@.len() == 15);
    reveal_strlit("tui_help_reauth"); assert("tui_help_reauth"@.len() == 15);
    reveal_strlit("tui_help_quit"); assert("tui_help_quit"@.len() == 13);
    reveal_strlit("tui_selected_count"); assert("tui_selected_count"@.len() == 18);
    reveal_strlit("tui_single_hint"); assert("tui_single_hint"@.len() == 15);
    reveal_strlit("tui_exec_title"); assert("tui_exec_title"@.len() == 14);
    reveal_strlit("{step}");
    reveal_strlit("正在执行: {step}");
    assert("正在执行: {step}"@.subrange(6, 12) =~= "{step}"@);
    assert(match_at("正在执行: {step}"@, "{step}"@, 6));
    reveal_strlit("Running: {step}");
    assert("Running: {step}"@.subrange(9, 15) =~= "{step}"@);
    assert(match_at("Running: {step}"@, "{step}"@, 9));
    reveal_strlit("正在執行: {step}");
    assert("正在執行: {step}"@.subrange(6, 12) =~= "{step}"@);
    assert(match_at("正在執行: {step}"@, "{step}"@, 6));
}

proof fn placeholders_tui_exec_done()
    ensures
        zh_cn_text("tui_exec_done"@) matches Some(t) && contains(t, "{step}"@),
        en_text("tui_exec_done"@) matches Some(t) && contains(t, "{step}"@),
        zh_tw_text("tui_exec_done"@) matches Some(t) && contains(t, "{step}"@),
{
    reveal_strlit("tui_exec_done"); assert("tui_exec_done"@.len() == 13);
    reveal_strlit("lang_en"); assert("lang_en"@.len() == 7);
    reveal_strlit("lang_zh_cn"); assert("lang_zh_cn"@.len() == 10);
    reveal_strlit("lang_zh_tw"); assert("lang_zh_tw"@.len() == 10);
    reveal_strlit("select_language"); assert("select_language"@.len() == 15);
    reveal_strlit("select_mode"); assert("select_mode"@.len() == 11);
    reveal_strlit("mode_cli"); assert("mode_cli"@.len() == 8);
    reveal_strlit("mode_tui"); assert("mode_tui"@.len() == 8);
    reveal_strlit("unknown_arg"); assert("unknown_arg"@.len() == 11);
    reveal_strlit("app_title"); assert("app_title"@.len() == 9);
    reveal_strlit("step_system_update"); assert("step_system_update"@.len() == 18);
    reveal_strlit("step_user_creation"); assert("step_user_creation"@.len() == 18);
    reveal_strlit("step_ssh_root_login"); assert("step_ssh_root_login"@.len() == 19);
    reveal_strlit("step_ssh_port_change"); assert("step_ssh_port_change"@.len() == 20);
    reveal_strlit("step_ssh_password_auth"); assert("step_ssh_password_auth"@.len() == 22);
    reveal_strlit("step_ssh_key_setup"); assert("step_ssh_key_setup"@.len() == 18);
    reveal_strlit("step_ufw"); assert("step_ufw"@.len() == 8);
    reveal_strlit("step_fail2ban"); assert("tui_exec_done"@[0] == 't'); assert("step_fail2ban"@[0] == 's');
    reveal_strlit("step_auto_updates"); assert("step_auto_updates"@.len() == 17);
    reveal_strlit("step_security_scan"); assert("step_security_scan"@.len() == 18);
    reveal_strlit("step_log_audit"); assert("step_log_audit"@.len() == 14);
    reveal_strlit("step_restart_ssh"); assert("step_restart_ssh"@.len() == 16);
    reveal_strlit("audit_root"); assert("audit_root"@.len() == 10);
    reveal_strlit("audit_pkg_mgr"); assert("tui_exec_done"@[0] == 't'); assert("audit_pkg_mgr"@[0] == 'a');
    reveal_strlit("audit_ssh_port"); assert("audit_ssh_port"@.len() == 14);
    reveal_strlit("audit_password_auth"); assert("audit_password_auth"@.len() == 19);
    reveal_strlit("audit_root_login"); assert("audit_root_login"@.len() == 16);
    reveal_strlit("audit_sudo_users"); assert("audit_sudo_users"@.len() == 16);
    reveal_strlit("audit_fail2ban"); assert("audit_fail2ban"@.len() == 14);
    reveal_strlit("audit_ufw"); assert("audit_ufw"@.len() == 9);
    reveal_strlit("audit_auto_updates"); assert("audit_auto_updates"@.len() == 18);
    reveal_strlit("audit_sys_update"); assert("audit_sys_update"@.len() == 16);
    reveal_strlit("audit_detail_root_ok"); assert("audit_detail_root_ok"@.len() == 20);
    reveal_strlit("audit_detail_root_missing"); assert("audit_detail_root_missing"@.len() == 25);
    reveal_strlit("audit_detail_pkg"); assert("audit_detail_pkg"@.len() == 16);
    reveal_strlit("audit_detail_port_safe"); assert("audit_detail_port_safe"@.len() == 22);
    reveal_strlit("audit_detail_port_missing"); assert("audit_detail_port_missing"@.len() == 25);
    reveal_strlit("audit_detail_pw_disabled"); assert("audit_detail_pw_disabled"@.len() == 24);
    reveal_strlit("audit_detail_pw_missing"); assert("audit_detail_pw_missing"@.len() == 23);
    reveal_strlit("audit_detail_root_disabled"); assert("audit_detail_root_disabled"@.len() == 26);
    reveal_strlit("audit_detail_root_missing_cfg"); assert("audit_detail_root_missing_cfg"@.len() == 29);
    reveal_strlit("audit_detail_sudo_missing"); assert("audit_detail_sudo_missing"@.len() == 25);
    reveal_strlit("audit_detail_sudo_ok"); assert("audit_detail_sudo_ok"@.len() == 20);
    reveal_strlit("audit_detail_fb_installed"); assert("audit_detail_fb_installed"@.len() == 25);
    reveal_strlit("audit_detail_fb_missing"); assert("audit_detail_fb_missing"@.len() == 23);
    reveal_strlit("audit_detail_ufw_enabled"); assert("audit_detail_ufw_enabled"@.len() == 24);
    reveal_strlit("audit_detail_ufw_missing"); assert("audit_detail_ufw_missing"@.len() == 24);
    reveal_strlit("audit_detail_au_enabled"); assert("audit_detail_au_enabled"@.len() == 23);
    reveal_strlit("audit_detail_au_missing"); assert("audit_detail_au_missing"@.len() == 23);
    reveal_strlit("audit_detail_sys_uptodate"); assert("audit_detail_sys_uptodate"@.len() == 25);
    reveal_strlit("audit_detail_sys_needs_update"); assert("audit_detail_sys_needs_update"@.len() == 29);
    reveal_strlit("status_safe"); assert("status_safe"@.len() == 11);
    reveal_strlit("status_partial"); assert("status_partial"@.len() == 14);
    reveal_strlit("status_missing"); assert("status_missing"@.len() == 14);
    reveal_strlit("status_needs_update"); assert("status_needs_update"@.len() == 19);
    reveal_strlit("pkg_apt"); assert("pkg_apt"@.len() == 7);
    reveal_strlit("pkg_yum"); assert("pkg_yum"@.len() == 7);
    reveal_strlit("pkg_dnf"); assert("pkg_dnf"@.len() == 7);
    reveal_strlit("pkg_unknown"); assert("pkg_unknown"@.len() == 11);
    reveal_strlit("err_permission_denied"); assert("err_permission_denied"@.len() == 21);
    reveal_strlit("err_cmd_failed"); assert("err_cmd_failed"@.len() == 14);
    reveal_strlit("err_parse_error"); assert("err_parse_error"@.len() == 15);
    reveal_strlit("err_precondition_failed"); assert("err_precondition_failed"@.len() == 23);
    reveal_strlit("err_user_aborted"); assert("err_user_aborted"@.len() == 16);
    reveal_strlit("err_unknown_pkg_mgr"); assert("err_unknown_pkg_mgr"@.len() == 19);
    reveal_strlit("err_unsupported_pkg"); assert("err_unsupported_pkg"@.len() == 19);
    reveal_strlit("err_auto_update_only_debian"); assert("err_auto_update_only_debian"@.len() == 27);
    reveal_strlit("err_unknown_pkg_lynis"); assert("err_unknown_pkg_lynis"@.len() == 21);
    reveal_strlit("err_sshd_not_found"); assert("err_sshd_not_found"@.len() == 18);
    reveal_strlit("err_no_username"); assert("err_no_username"@.len() == 15);
    reveal_strlit("err_user_exists"); assert("err_user_exists"@.len() == 15);
    reveal_strlit("err_no_sudo_before_root"); assert("err_no_sudo_before_root"@.len() == 23);
    reveal_strlit("err_no_ssh_port"); assert("err_no_ssh_port"@.len() == 15);
    reveal_strlit("err_port_zero"); assert("tui_exec_done"@[0] == 't'); assert("err_port_zero"@[0] == 'e');
    reveal_strlit("err_no_sudo_before_pw"); assert("err_no_sudo_before_pw"@.len() == 21);
    reveal_strlit("err_no_target_user"); assert("err_no_target_user"@.len() == 18);
    reveal_strlit("err_no_key_action"); assert("err_no_key_action"@.len() == 17);
    reveal_strlit("err_update_failed"); assert("err_update_failed"@.len() == 17);
    reveal_strlit("err_upgrade_failed"); assert("err_upgrade_failed"@.len() == 18);
    reveal_strlit("err_ufw_allow_failed"); assert("err_ufw_allow_failed"@.len() == 20);
    reveal_strlit("err_ufw_enable_failed"); assert("err_ufw_enable_failed"@.len() == 21);
    reveal_strlit("err_install_fail2ban"); assert("err_install_fail2ban"@.len() == 20);
    reveal_strlit("err_install_unattended"); assert("err_install_unattended"@.len() == 22);
    reveal_strlit("err_lynis_exec"); assert("err_lynis_exec"@.len() == 14);
    reveal_strlit("err_sshd_check"); assert("err_sshd_check"@.len() == 14);
    reveal_strlit("err_sshd_syntax"); assert("err_sshd_syntax"@.len() == 15);
    reveal_strlit("err_ssh_restart"); assert("err_ssh_restart"@.len() == 15);
    reveal_strlit("err_backup"); assert("err_backup"@.len() == 10);
    reveal_strlit("err_read"); assert("err_read"@.len() == 8);
    reveal_strlit("err_write"); assert("err_write"@.len() == 9);
    reveal_strlit("err_setup_signal"); assert("err_setup_signal"@.len() == 16);
    reveal_strlit("result_sys_updated"); assert("result_sys_updated"@.len() == 18);
    reveal_strlit("result_user_created"); assert("result_user_created"@.len() == 19);
    reveal_strlit("result_root_login_set"); assert("result_root_login_set"@.len() == 21);
    reveal_strlit("result_ssh_port_set"); assert("result_ssh_port_set"@.len() == 19);
    reveal_strlit("result_pw_auth_disabled"); assert("result_pw_auth_disabled"@.len() == 23);
    reveal_strlit("result_key_generated"); assert("result_key_generated"@.len() == 20);
    reveal_strlit("result_key_pasted"); assert("result_key_pasted"@.len() == 17);
    reveal_strlit("result_ufw_enabled"); assert("result_ufw_enabled"@.len() == 18);
    reveal_strlit("result_fail2ban_installed"); assert("result_fail2ban_installed"@.len() == 25);
    reveal_strlit("result_auto_updates_enabled"); assert("result_auto_updates_enabled"@.len() == 27);
    reveal_strlit("result_lynis_ok"); assert("result_lynis_ok"@.len() == 15);
    reveal_strlit("result_lynis_fail"); assert("result_lynis_fail"@.len() == 17);
    reveal_strlit("result_logwatch_installed"); assert("result_logwatch_installed"@.len() == 25);
    reveal_strlit("result_ssh_restarted"); assert("result_ssh_restarted"@.len() == 20);
    reveal_strlit("result_sshd_cfg_set"); assert("result_sshd_cfg_set"@.len() == 19);
    reveal_strlit("result_sshd_syntax_ok"); assert("result_sshd_syntax_ok"@.len() == 21);
    reveal_strlit("result_sshd_syntax_err"); assert("result_sshd_syntax_err"@.len() == 22);
    reveal_strlit("log_audit"); assert("log_audit"@.len() == 9);
    reveal_strlit("log_operation"); assert("tui_exec_done"@[0] == 't'); assert("log_operation"@[0] == 'l');
    reveal_strlit("log_rollback"); assert("log_rollback"@.len() == 12);
    reveal_strlit("log_audit_start"); assert("log_audit_start"@.len() == 15);
    reveal_strlit("log_audit_done"); assert("log_audit_done"@.len() == 14);
    reveal_strlit("log_step_start"); assert("log_step_start"@.len() == 14);
    reveal_strlit("log_step_complete"); assert("log_step_complete"@.len() == 17);
    reveal_strlit("log_step_failed"); assert("log_step_failed"@.len() == 15);
    reveal_strlit("log_rollback_auto"); assert("log_rollback_auto"@.len() == 17);
    reveal_strlit("undo_user_remove"); assert("undo_user_remove"@.len() == 16);
    reveal_strlit("undo_pkg_remove"); assert("undo_pkg_remove"@.len() == 15);
    reveal_strlit("undo_cmd"); assert("undo_cmd"@.len() == 8);
    reveal_strlit("undo_file_restore"); assert("undo_file_restore"@.len() == 17);
    reveal_strlit("undo_ufw_disable"); assert("undo_ufw_disable"@.len() == 16);
    reveal_strlit("undo_ufw_delete"); assert("undo_ufw_delete"@.len() == 15);
    reveal_strlit("undo_key_delete"); assert("undo_key_delete"@.len() == 15);
    reveal_strlit("cli_welcome"); assert("cli_welcome"@.len() == 11);
    reveal_strlit("cli_auditing"); assert("cli_auditing"@.len() == 12);
    reveal_strlit("cli_audit_done"); assert("cli_audit_done"@.len() == 14);
    reveal_strlit("cli_select_steps"); assert("cli_select_steps"@.len() == 16);
    reveal_strlit("cli_hint_nav"); assert("cli_hint_nav"@.len() == 12);
    reveal_strlit("cli_collecting"); assert("cli_collecting"@.len() == 14);
    reveal_strlit("cli_will_execute"); assert("cli_will_execute"@.len() == 16);
    reveal_strlit("cli_confirm"); assert("cli_confirm"@.len() == 11);
    reveal_strlit("cli_cancelled"); assert("tui_exec_done"@[0] == 't'); assert("cli_cancelled"@[0] == 'c');
    reveal_strlit("cli_no_selection"); assert("cli_no_selection"@.len() == 16);
    reveal_strlit("cli_executing"); assert("tui_exec_done"@[0] == 't'); assert("cli_executing"@[0] == 'c');
    reveal_strlit("cli_summary_title"); assert("cli_summary_title"@.len() == 17);
    reveal_strlit("cli_summary_total"); assert("cli_summary_total"@.len() == 17);
    reveal_strlit("cli_log_saved"); assert("tui_exec_done"@[0] == 't'); assert("cli_log_saved"@[0] == 'c');
    reveal_strlit("cli_create_user"); assert("cli_create_user"@.len() == 15);
    reveal_strlit("cli_username_prompt"); assert("cli_username_prompt"@.len() == 19);
    reveal_strlit("cli_username_empty"); assert("cli_username_empty"@.len() == 18);
    reveal_strlit("cli_username_exists"); assert("cli_username_exists"@.len() == 19);
    reveal_strlit("cli_username_invalid"); assert("cli_username_invalid"@.len() == 20);
    reveal_strlit("cli_lock_pw"); assert("cli_lock_pw"@.len() == 11);
    reveal_strlit("cli_current_port"); assert("cli_current_port"@.len() == 16);
    reveal_strlit("cli_default_port"); assert("cli_default_port"@.len() == 16);
    reveal_strlit("cli_suggest_port"); assert("cli_suggest_port"@.len() == 16);
    reveal_strlit("cli_port_prompt"); assert("cli_port_prompt"@.len() == 15);
    reveal_strlit("cli_port_invalid"); assert("cli_port_invalid"@.len() == 16);
    reveal_strlit("cli_port_zero"); assert("tui_exec_done"@[0] == 't'); assert("cli_port_zero"@[0] == 'c');
    reveal_strlit("cli_existing_sudo"); assert("cli_existing_sudo"@.len() == 17);
    reveal_strlit("cli_no_sudo"); assert("cli_no_sudo"@.len() == 11);
    reveal_strlit("cli_manual_user"); assert("cli_manual_user"@.len() == 15);
    reveal_strlit("cli_user_prompt"); assert("cli_user_prompt"@.len() == 15);
    reveal_strlit("cli_no_input"); assert("cli_no_input"@.len() == 12);
    reveal_strlit("cli_select_user"); assert("cli_select_user"@.len() == 15);
    reveal_strlit("cli_key_found"); assert("tui_exec_done"@[0] == 't'); assert("cli_key_found"@[0] == 'c');
    reveal_strlit("cli_key_action"); assert("cli_key_action"@.len() == 14);
    reveal_strlit("cli_key_generate"); assert("cli_key_generate"@.len() == 16);
    reveal_strlit("cli_key_paste"); assert("tui_exec_done"@[0] == 't'); assert("cli_key_paste"@[0] == 'c');
    reveal_strlit("cli_key_skip"); assert("cli_key_skip"@.len() == 12);
    reveal_strlit("cli_key_prompt"); assert("cli_key_prompt"@.len() == 14);
    reveal_strlit("cli_ssh_port_info"); assert("cli_ssh_port_info"@.len() == 17);
    reveal_strlit("cli_ssh_suggest_info"); assert("cli_ssh_suggest_info"@.len() == 20);
    reveal_strlit("tui_title"); assert("tui_title"@.len() == 9);
    reveal_strlit("tui_audit_report"); assert("tui_audit_report"@.len() == 16);
    reveal_strlit("tui_steps_title"); assert("tui_steps_title"@.len() == 15);
    reveal_strlit("tui_help_title"); assert("tui_help_title"@.len() == 14);
    reveal_strlit("tui_help_move"); assert("tui_exec_done"@[4] == 'e'); assert("tui_help_move"@[4] == 'h');
    reveal_strlit("tui_help_toggle"); assert("tui_help_toggle"@.len() == 15);
    reveal_strlit("tui_help_batch"); assert("tui_help_batch"@.len() == 14);
    reveal_strlit("tui_help_single"); assert("tui_help_single"@.len() == 15);
    reveal_strlit("tui_help_reauth"); assert("tui_help_reauth"@.len() == 15);
    reveal_strlit("tui_help_quit"); assert("tui_exec_done"@[4] == 'e'); assert("tui_help_quit"@[4] == 'h');
    reveal_strlit("tui_selected_count"); assert("tui_selected_count"@.len() == 18);
    reveal_strlit("tui_single_hint"); assert("tui_single_hint"@.len() == 15);
    reveal_strlit("tui_exec_title"); assert("tui_exec_title"@.len() == 14);
    reveal_strlit("tui_exec_running"); assert("tui_exec_running"@.len() == 16);
    reveal_strlit("{step}");
    reveal_strlit("已完成: {step}");
    assert("已完成: {step}"@.subrange(5, 11) =~= "{step}"@);
    assert(match_at("已完成: {step}"@, "{step}"@, 5));
    reveal_strlit("Completed: {step}");
    assert("Completed: {step}"@.subrange(11, 17) =~= "{step}"@);
    assert(match_at("Completed: {step}"@, "{step}"@, 11));
    reveal_strlit("已完成: {step}");
    assert("已完成: {step}"@.subrange(5, 11) =~= "{step}"@);
    assert(match_at("已完成: {step}"@, "{step}"@, 5));
}

proof fn placeholders_tui_exec_skip()
    ensures
        zh_cn_text("tui_exec_skip"@) matches Some(t) && contains(t, "{msg}"@),
        en_text("tui_exec_skip"@) matches Some(t) && contains(t, "{msg}"@),
        zh_tw_text("tui_exec_skip"@) matches Some(t) && contains(t, "{msg}"@),
{
    reveal_strlit("tui_exec_skip"); assert("tui_exec_skip"@.len() == 13);
    reveal_strlit("lang_en"); assert("lang_en"@.len() == 7);
    reveal_strlit("lang_zh_cn"); assert("lang_zh_cn"@.len() == 10);
    reveal_strlit("lang_zh_tw"); assert("lang_zh_tw"@.len() == 10);
    reveal_strlit("select_language"); assert("select_language"@.len() == 15);
    reveal_strlit("select_mode"); assert("select_mode"@.len() == 11);
    reveal_strlit("mode_cli"); assert("mode_cli"@.len() == 8);
    reveal_strlit("mode_tui"); assert("mode_tui"@.len() == 8);
    reveal_strlit("unknown_arg"); assert("unknown_arg"@.len() == 11);
    reveal_strlit("app_title"); assert("app_title"@.len() == 9);
    reveal_strlit("step_system_update"); assert("step_system_update"@.len() == 18);
    reveal_strlit("step_user_creation"); assert("step_user_creation"@.len() == 18);
    reveal_strlit("step_ssh_root_login"); assert("step_ssh_root_login"@.len() == 19);
    reveal_strlit("step_ssh_port_change"); assert("step_ssh_port_change"@.len() == 20);
    reveal_strlit("step_ssh_password_auth"); assert("step_ssh_password_auth"@.len() == 22);
    reveal_strlit("step_ssh_key_setup"); assert("step_ssh_key_setup"@.len() == 18);
    reveal_strlit("step_ufw"); assert("step_ufw"@.len() == 8);
    reveal_strlit("step_fail2ban"); assert("tui_exec_skip"@[0] == 't'); assert("step_fail2ban"@[0] == 's');
    reveal_strlit("step_auto_updates"); assert("step_auto_updates"@.len() == 17);
    reveal_strlit("step_security_scan"); assert("step_security_scan"@.len() == 18);
    reveal_strlit("step_log_audit"); assert("step_log_audit"@.len() == 14);
    reveal_strlit("step_restart_ssh"); assert("step_restart_ssh"@.len() == 16);
    reveal_strlit("audit_root"); assert("audit_root"@.len() == 10);
    reveal_strlit("audit_pkg_mgr"); assert("tui_exec_skip"@[0] == 't'); assert("audit_pkg_mgr"@[0] == 'a');
    reveal_strlit("audit_ssh_port"); assert("audit_ssh_port"@.len() == 14);
    reveal_strlit("audit_password_auth"); assert("audit_password_auth"@.len() == 19);
    reveal_strlit("audit_root_login"); assert("audit_root_login"@.len() == 16);
    reveal_strlit("audit_sudo_users"); assert("audit_sudo_users"@.len() == 16);
    reveal_strlit("audit_fail2ban"); assert("audit_fail2ban"@.len() == 14);
    reveal_strlit("audit_ufw"); assert("audit_ufw"@.len() == 9);
    reveal_strlit("audit_auto_updates"); assert("audit_auto_updates"@.len() == 18);
    reveal_strlit("audit_sys_update"); assert("audit_sys_update"@.len() == 16);
    reveal_strlit("audit_detail_root_ok"); assert("audit_detail_root_ok"@.len() == 20);
    reveal_strlit("audit_detail_root_missing"); assert("audit_detail_root_missing"@.len() == 25);
    reveal_strlit("audit_detail_pkg"); assert("audit_detail_pkg"@.len() == 16);
    reveal_strlit("audit_detail_port_safe"); assert("audit_detail_port_safe"@.len() == 22);
    reveal_strlit("audit_detail_port_missing"); assert("audit_detail_port_missing"@.len() == 25);
    reveal_strlit("audit_detail_pw_disabled"); assert("audit_detail_pw_disabled"@.len() == 24);
    reveal_strlit("audit_detail_pw_missing"); assert("audit_detail_pw_missing"@.len() == 23);
    reveal_strlit("audit_detail_root_disabled"); assert("audit_detail_root_disabled"@.len() == 26);
    reveal_strlit("audit_detail_root_missing_cfg"); assert("audit_detail_root_missing_cfg"@.len() == 29);
    reveal_strlit("audit_detail_sudo_missing"); assert("audit_detail_sudo_missing"@.len() == 25);
    reveal_strlit("audit_detail_sudo_ok"); assert("audit_detail_sudo_ok"@.len() == 20);
    reveal_strlit("audit_detail_fb_installed"); assert("audit_detail_fb_installed"@.len() == 25);
    reveal_strlit("audit_detail_fb_missing"); assert("audit_detail_fb_missing"@.len() == 23);
    reveal_strlit("audit_detail_ufw_enabled"); assert("audit_detail_ufw_enabled"@.len() == 24);
    reveal_strlit("audit_detail_ufw_missing"); assert("audit_detail_ufw_missing"@.len() == 24);
    reveal_strlit("audit_detail_au_enabled"); assert("audit_detail_au_enabled"@.len() == 23);
    reveal_strlit("audit_detail_au_missing"); assert("audit_detail_au_missing"@.len() == 23);
    reveal_strlit("audit_detail_sys_uptodate"); assert("audit_detail_sys_uptodate"@.len() == 25);
    reveal_strlit("audit_detail_sys_needs_update"); assert("audit_detail_sys_needs_update"@.len() == 29);
    reveal_strlit("status_safe"); assert("status_safe"@.len() == 11);
    reveal_strlit("status_partial"); assert("status_partial"@.len() == 14);
    reveal_strlit("status_missing"); assert("status_missing"@.len() == 14);
    reveal_strlit("status_needs_update"); assert("status_needs_update"@.len() == 19);
    reveal_strlit("pkg_apt"); assert("pkg_apt"@.len() == 7);
    reveal_strlit("pkg_yum"); assert("pkg_yum"@.len() == 7);
    reveal_strlit("pkg_dnf"); assert("pkg_dnf"@.len() == 7);
    reveal_strlit("pkg_unknown"); assert("pkg_unknown"@.len() == 11);
    reveal_strlit("err_permission_denied"); assert("err_permission_denied"@.len() == 21);
    reveal_strlit("err_cmd_failed"); assert("err_cmd_failed"@.len() == 14);
    reveal_strlit("err_parse_error"); assert("err_parse_error"@.len() == 15);
    reveal_strlit("err_precondition_failed"); assert("err_precondition_failed"@.len() == 23);
    reveal_strlit("err_user_aborted"); assert("err_user_aborted"@.len() == 16);
    reveal_strlit("err_unknown_pkg_mgr"); assert("err_unknown_pkg_mgr"@.len() == 19);
    reveal_strlit("err_unsupported_pkg"); assert("err_unsupported_pkg"@.len() == 19);
    reveal_strlit("err_auto_update_only_debian"); assert("err_auto_update_only_debian"@.len() == 27);
    reveal_strlit("err_unknown_pkg_lynis"); assert("err_unknown_pkg_lynis"@.len() == 21);
    reveal_strlit("err_sshd_not_found"); assert("err_sshd_not_found"@.len() == 18);
    reveal_strlit("err_no_username"); assert("err_no_username"@.len() == 15);
    reveal_strlit("err_user_exists"); assert("err_user_exists"@.len() == 15);
    reveal_strlit("err_no_sudo_before_root"); assert("err_no_sudo_before_root"@.len() == 23);
    reveal_strlit("err_no_ssh_port"); assert("err_no_ssh_port"@.len() == 15);
    reveal_strlit("err_port_zero"); assert("tui_exec_skip"@[0] == 't'); assert("err_port_zero"@[0] == 'e');
    reveal_strlit("err_no_sudo_before_pw"); assert("err_no_sudo_before_pw"@.len() == 21);
    reveal_strlit("err_no_target_user"); assert("err_no_target_user"@.len() == 18);
    reveal_strlit("err_no_key_action"); assert("err_no_key_action"@.len() == 17);
    reveal_strlit("err_update_failed"); assert("err_update_failed"@.len() == 17);
    reveal_strlit("err_upgrade_failed"); assert("err_upgrade_failed"@.len() == 18);
    reveal_strlit("err_ufw_allow_failed"); assert("err_ufw_allow_failed"@.len() == 20);
    reveal_strlit("err_ufw_enable_failed"); assert("err_ufw_enable_failed"@.len() == 21);
    reveal_strlit("err_install_fail2ban"); assert("err_install_fail2ban"@.len() == 20);
    reveal_strlit("err_install_unattended"); assert("err_install_unattended"@.len() == 22);
    reveal_strlit("err_lynis_exec"); assert("err_lynis_exec"@.len() == 14);
    reveal_strlit("err_sshd_check"); assert("err_sshd_check"@.len() == 14);
    reveal_strlit("err_sshd_syntax"); assert("err_sshd_syntax"@.len() == 15);
    reveal_strlit("err_ssh_restart"); assert("err_ssh_restart"@.len() == 15);
    reveal_strlit("err_backup"); assert("err_backup"@.len() == 10);
    reveal_strlit("err_read"); assert("err_read"@.len() == 8);
    reveal_strlit("err_write"); assert("err_write"@.len() == 9);
    reveal_strlit("err_setup_signal"); assert("err_setup_signal"@.len() == 16);
    reveal_strlit("result_sys_updated"); assert("result_sys_updated"@.len() == 18);
    reveal_strlit("result_user_created"); assert("result_user_created"@.len() == 19);
    reveal_strlit("result_root_login_set"); assert("result_root_login_set"@.len() == 21);
    reveal_strlit("result_ssh_port_set"); assert("result_ssh_port_set"@.len() == 19);
    reveal_strlit("result_pw_auth_disabled"); assert("result_pw_auth_disabled"@.len() == 23);
    reveal_strlit("result_key_generated"); assert("result_key_generated"@.len() == 20);
    reveal_strlit("result_key_pasted"); assert("result_key_pasted"@.len() == 17);
    reveal_strlit("result_ufw_enabled"); assert("result_ufw_enabled"@.len() == 18);
    reveal_strlit("result_fail2ban_installed"); assert("result_fail2ban_installed"@.len() == 25);
    reveal_strlit("result_auto_updates_enabled"); assert("result_auto_updates_enabled"@.len() == 27);
    reveal_strlit("result_lynis_ok"); assert("result_lynis_ok"@.len() == 15);
    reveal_strlit("result_lynis_fail"); assert("result_lynis_fail"@.len() == 17);
    reveal_strlit("result_logwatch_installed"); assert("result_logwatch_installed"@.len() == 25);
    reveal_strlit("result_ssh_restarted"); assert("result_ssh_restarted"@.len() == 20);
    reveal_strlit("result_sshd_cfg_set"); assert("result_sshd_cfg_set"@.len() == 19);
    reveal_strlit("result_sshd_syntax_ok"); assert("result_sshd_syntax_ok"@.len() == 21);
    reveal_strlit("result_sshd_syntax_err"); assert("result_sshd_syntax_err"@.len() == 22);
    reveal_strlit("log_audit"); assert("log_audit"@.len() == 9);
    reveal_strlit("log_operation"); assert("tui_exec_skip"@[0] == 't'); assert("log_operation"@[0] == 'l');
    reveal_strlit("log_rollback"); assert("log_rollback"@.len() == 12);
    reveal_strlit("log_audit_start"); assert("log_audit_start"@.len() == 15);
    reveal_strlit("log_audit_done"); assert("log_audit_done"@.len() == 14);
    reveal_strlit("log_step_start"); assert("log_step_start"@.len() == 14);
    reveal_strlit("log_step_complete"); assert("log_step_complete"@.len() == 17);
    reveal_strlit("log_step_failed"); assert("log_step_failed"@.len() == 15);
    reveal_strlit("log_rollback_auto"); assert("log_rollback_auto"@.len() == 17);
    reveal_strlit("undo_user_remove"); assert("undo_user_remove"@.len() == 16);
    reveal_strlit("undo_pkg_remove"); assert("undo_pkg_remove"@.len() == 15);
    reveal_strlit("undo_cmd"); assert("undo_cmd"@.len() == 8);
    reveal_strlit("undo_file_restore"); assert("undo_file_restore"@.len() == 17);
    reveal_strlit("undo_ufw_disable"); assert("undo_ufw_disable"@.len() == 16);
    reveal_strlit("undo_ufw_delete"); assert("undo_ufw_delete"@.len() == 15);
    reveal_strlit("undo_key_delete"); assert("undo_key_delete"@.len() == 15);
    reveal_strlit("cli_welcome"); assert("cli_welcome"@.len() == 11);
    reveal_strlit("cli_auditing"); assert("cli_auditing"@.len() == 12);
    reveal_strlit("cli_audit_done"); assert("cli_audit_done"@.len() == 14);
    reveal_strlit("cli_select_steps"); assert("cli_select_steps"@.len() == 16);
    reveal_strlit("cli_hint_nav"); assert("cli_hint_nav"@.len() == 12);
    reveal_strlit("cli_collecting"); assert("cli_collecting"@.len() == 14);
    reveal_strlit("cli_will_execute"); assert("cli_will_execute"@.len() == 16);
    reveal_strlit("cli_confirm"); assert("cli_confirm"@.len() == 11);
    reveal_strlit("cli_cancelled"); assert("tui_exec_skip"@[0] == 't'); assert("cli_cancelled"@[0] == 'c');
    reveal_strlit("cli_no_selection"); assert("cli_no_selection"@.len() == 16);
    reveal_strlit("cli_executing"); assert("tui_exec_skip"@[0] == 't'); assert("cli_executing"@[0] == 'c');
    reveal_strlit("cli_summary_title"); assert("cli_summary_title"@.len() == 17);
    reveal_strlit("cli_summary_total"); assert("cli_summary_total"@.len() == 17);
    reveal_strlit("cli_log_saved"); assert("tui_exec_skip"@[0] == 't'); assert("cli_log_saved"@[0] == 'c');
    reveal_strlit("cli_create_user"); assert("cli_create_user"@.len() == 15);
    reveal_strlit("cli_username_prompt"); assert("cli_username_prompt"@.len() == 19);
    reveal_strlit("cli_username_empty"); assert("cli_username_empty"@.len() == 18);
    reveal_strlit("cli_username_exists"); assert("cli_username_exists"@.len() == 19);
    reveal_strlit("cli_username_invalid"); assert("cli_username_invalid"@.len() == 20);
    reveal_strlit("cli_lock_pw"); assert("cli_lock_pw"@.len() == 11);
    reveal_strlit("cli_current_port"); assert("cli_current_port"@.len() == 16);
    reveal_strlit("cli_default_port"); assert("cli_default_port"@.len() == 16);
    reveal_strlit("cli_suggest_port"); assert("cli_suggest_port"@.len() == 16);
    reveal_strlit("cli_port_prompt"); assert("cli_port_prompt"@.len() == 15);
    reveal_strlit("cli_port_invalid"); assert("cli_port_invalid"@.len() == 16);
    reveal_strlit("cli_port_zero"); assert("tui_exec_skip"@[0] == 't'); assert("cli_port_zero"@[0] == 'c');
    reveal_strlit("cli_existing_sudo"); assert("cli_existing_sudo"@.len() == 17);
    reveal_strlit("cli_no_sudo"); assert("cli_no_sudo"@.len() == 11);
    reveal_strlit("cli_manual_user"); assert("cli_manual_user"@.len() == 15);
    reveal_strlit("cli_user_prompt"); assert("cli_user_prompt"@.len() == 15);
    reveal_strlit("cli_no_input"); assert("cli_no_input"@.len() == 12);
    reveal_strlit("cli_select_user"); assert("cli_select_user"@.len() == 15);
    reveal_strlit("cli_key_found"); assert("tui_exec_skip"@[0] == 't'); assert("cli_key_found"@[0] == 'c');
    reveal_strlit("cli_key_action"); assert("cli_key_action"@.len() == 14);
    reveal_strlit("cli_key_generate"); assert("cli_key_generate"@.len() == 16);
    reveal_strlit("cli_key_paste"); assert("tui_exec_skip"@[0] == 't'); assert("cli_key_paste"@[0] == 'c');
    reveal_strlit("cli_key_skip"); assert("cli_key_skip"@.len() == 12);
    reveal_strlit("cli_key_prompt"); assert("cli_key_prompt"@.len() == 14);
    reveal_strlit("cli_ssh_port_info"); assert("cli_ssh_port_info"@.len() == 17);
    reveal_strlit("cli_ssh_suggest_info"); assert("cli_ssh_suggest_info"@.len() == 20);
    reveal_strlit("tui_title"); assert("tui_title"@.len() == 9);
    reveal_strlit("tui_audit_report"); assert("tui_audit_report"@.len() == 16);
    reveal_strlit("tui_steps_title"); assert("tui_steps_title"@.len() == 15);
    reveal_strlit("tui_help_title"); assert("tui_help_title"@.len() == 14);
    reveal_strlit("tui_help_move"); assert("tui_exec_skip"@[4] == 'e'); assert("tui_help_move"@[4] == 'h');
    reveal_strlit("tui_help_toggle"); assert("tui_help_toggle"@.len() == 15);
    reveal_strlit("tui_help_batch"); assert("tui_help_batch"@.len() == 14);
    reveal_strlit("tui_help_single"); assert("tui_help_single"@.len() == 15);
    reveal_strlit("tui_help_reauth"); assert("tui_help_reauth"@.len() == 15);
    reveal_strlit("tui_help_quit"); assert("tui_exec_skip"@[4] == 'e'); assert("tui_help_quit"@[4] == 'h');
    reveal_strlit("tui_selected_count"); assert("tui_selected_count"@.len() == 18);
    reveal_strlit("tui_single_hint"); assert("tui_single_hint"@.len() == 15);
    reveal_strlit("tui_exec_title"); assert("tui_exec_title"@.len() == 14);
    reveal_strlit("tui_exec_running"); assert("tui_exec_running"@.len() == 16);
    reveal_strlit("tui_exec_done"); assert("tui_exec_skip"@[9] == 's'); assert("tui_exec_done"@[9] == 'd');
    reveal_strlit("{msg}");
    reveal_strlit("跳过: {msg}");
    assert("跳过: {msg}"@.subrange(4, 9) =~= "{msg}"@);
    assert(match_at("跳过: {msg}"@, "{msg}"@, 4));
    reveal_strlit("Skipped: {msg}");
    assert("Skipped: {msg}"@.subrange(9, 14) =~= "{msg}"@);
    assert(match_at("Skipped: {msg}"@, "{msg}"@, 9));
    reveal_strlit("跳過: {msg}");
    assert("跳過: {msg}"@.subrange(4, 9) =~= "{msg}"@);
    assert(match_at("跳過: {msg}"@, "{msg}"@, 4));
}

proof fn placeholders_tui_exec_failed()
    ensures
        zh_cn_text("tui_exec_failed"@) matches Some(t) && contains(t, "{err}"@),
        en_text("tui_exec_failed"@) matches Some(t) && contains(t, "{err}"@),
        zh_tw_text("tui_exec_failed"@) matches Some(t) && contains(t, "{err}"@),
{
    reveal_strlit("tui_exec_failed"); assert("tui_exec_failed"@.len() == 15);
    reveal_strlit("lang_en"); assert("lang_en"@.len() == 7);
    reveal_strlit("lang_zh_cn"); assert("lang_zh_cn"@.len() == 10);
    reveal_strlit("lang_zh_tw"); assert("lang_zh_tw"@.len() == 10);
    reveal_strlit("select_language"); assert("tui_exec_failed"@[0] == 't'); assert("select_language"@[0] == 's');
    reveal_strlit("select_mode"); assert("select_mode"@.len() == 11);
    reveal_strlit("mode_cli"); assert("mode_cli"@.len() == 8);
    reveal_strlit("mode_tui"); assert("mode_tui"@.len() == 8);
    reveal_strlit("unknown_arg"); assert("unknown_arg"@.len() == 11);
    reveal_strlit("app_title"); assert("app_title"@.len() == 9);
    reveal_strlit("step_system_update"); assert("step_system_update"@.len() == 18);
    reveal_strlit("step_user_creation"); assert("step_user_creation"@.len() == 18);
    reveal_strlit("step_ssh_root_login"); assert("step_ssh_root_login"@.len() == 19);
    reveal_strlit("step_ssh_port_change"); assert("step_ssh_port_change"@.len() == 20);
    reveal_strlit("step_ssh_password_auth"); assert("step_ssh_password_auth"@.len() == 22);
    reveal_strlit("step_ssh_key_setup"); assert("step_ssh_key_setup"@.len() == 18);
    reveal_strlit("step_ufw"); assert("step_ufw"@.len() == 8);
    reveal_strlit("step_fail2ban"); assert("step_fail2ban"@.len() == 13);
    reveal_strlit("step_auto_updates"); assert("step_auto_updates"@.len() == 17);
    reveal_strlit("step_security_scan"); assert("step_security_scan"@.len() == 18);
    reveal_strlit("step_log_audit"); assert("step_log_audit"@.len() == 14);
    reveal_strlit("step_restart_ssh"); assert("step_restart_ssh"@.len() == 16);
    reveal_strlit("audit_root"); assert("audit_root"@.len() == 10);
    reveal_strlit("audit_pkg_mgr"); assert("audit_pkg_mgr"@.len() == 13);
    reveal_strlit("audit_ssh_port"); assert("audit_ssh_port"@.len() == 14);
    reveal_strlit("audit_password_auth"); assert("audit_password_auth"@.len() == 19);
    reveal_strlit("audit_root_login"); assert("audit_root_login"@.len() == 16);
    reveal_strlit("audit_sudo_users"); assert("audit_sudo_users"@.len() == 16);
    reveal_strlit("audit_fail2ban"); assert("audit_fail2ban"@.len() == 14);
    reveal_strlit("audit_ufw"); assert("audit_ufw"@.len() == 9);
    reveal_strlit("audit_auto_updates"); assert("audit_auto_updates"@.len() == 18);
    reveal_strlit("audit_sys_update"); assert("audit_sys_update"@.len() == 16);
    reveal_strlit("audit_detail_root_ok"); assert("audit_detail_root_ok"@.len() == 20);
    reveal_strlit("audit_detail_root_missing"); assert("audit_detail_root_missing"@.len() == 25);
    reveal_strlit("audit_detail_pkg"); assert("audit_detail_pkg"@.len() == 16);
    reveal_strlit("audit_detail_port_safe"); assert("audit_detail_port_safe"@.len() == 22);
    reveal_strlit("audit_detail_port_missing"); assert("audit_detail_port_missing"@.len() == 25);
    reveal_strlit("audit_detail_pw_disabled"); assert("audit_detail_pw_disabled"@.len() == 24);
    reveal_strlit("audit_detail_pw_missing"); assert("audit_detail_pw_missing"@.len() == 23);
    reveal_strlit("audit_detail_root_disabled"); assert("audit_detail_root_disabled"@.len() == 26);
    reveal_strlit("audit_detail_root_missing_cfg"); assert("audit_detail_root_missing_cfg"@.len() == 29);
    reveal_strlit("audit_detail_sudo_missing"); assert("audit_detail_sudo_missing"@.len() == 25);
    reveal_strlit("audit_detail_sudo_ok"); assert("audit_detail_sudo_ok"@.len() == 20);
    reveal_strlit("audit_detail_fb_installed"); assert("audit_detail_fb_installed"@.len() == 25);
    reveal_strlit("audit_detail_fb_missing"); assert("audit_detail_fb_missing"@.len() == 23);
    reveal_strlit("audit_detail_ufw_enabled"); assert("audit_detail_ufw_enabled"@.len() == 24);
    reveal_strlit("audit_detail_ufw_missing"); assert("audit_detail_ufw_missing"@.len() == 24);
    reveal_strlit("audit_detail_au_enabled"); assert("audit_detail_au_enabled"@.len() == 23);
    reveal_strlit("audit_detail_au_missing"); assert("audit_detail_au_missing"@.len() == 23);
    reveal_strlit("audit_detail_sys_uptodate"); assert("audit_detail_sys_uptodate"@.len() == 25);
    reveal_strlit("audit_detail_sys_needs_update"); assert("audit_detail_sys_needs_update"@.len() == 29);
    reveal_strlit("status_safe"); assert("status_safe"@.len() == 11);
    reveal_strlit("status_partial"); assert("status_partial"@.len() == 14);
    reveal_strlit("status_missing"); assert("status_missing"@.len() == 14);
    reveal_strlit("status_needs_update"); assert("status_needs_update"@.len() == 19);
    reveal_strlit("pkg_apt"); assert("pkg_apt"@.len() == 7);
    reveal_strlit("pkg_yum"); assert("pkg_yum"@.len() == 7);
    reveal_strlit("pkg_dnf"); assert("pkg_dnf"@.len() == 7);
    reveal_strlit("pkg_unknown"); assert("pkg_unknown"@.len() == 11);
    reveal_strlit("err_permission_denied"); assert("err_permission_denied"@.len() == 21);
    reveal_strlit("err_cmd_failed"); assert("err_cmd_failed"@.len() == 14);
    reveal_strlit("err_parse_error"); assert("tui_exec_failed"@[0] == 't'); assert("err_parse_error"@[0] == 'e');
    reveal_strlit("err_precondition_failed"); assert("err_precondition_failed"@.len() == 23);
    reveal_strlit("err_user_aborted"); assert("err_user_aborted"@.len() == 16);
    reveal_strlit("err_unknown_pkg_mgr"); assert("err_unknown_pkg_mgr"@.len() == 19);
    reveal_strlit("err_unsupported_pkg"); assert("err_unsupported_pkg"@.len() == 19);
    reveal_strlit("err_auto_update_only_debian"); assert("err_auto_update_only_debian"@.len() == 27);
    reveal_strlit("err_unknown_pkg_lynis"); assert("err_unknown_pkg_lynis"@.len() == 21);
    reveal_strlit("err_sshd_not_found"); assert("err_sshd_not_found"@.len() == 18);
    reveal_strlit("err_no_username"); assert("tui_exec_failed"@[0] == 't'); assert("err_no_username"@[0] == 'e');
    reveal_strlit("err_user_exists"); assert("tui_exec_failed"@[0] == 't'); assert("err_user_exists"@[0] == 'e');
    reveal_strlit("err_no_sudo_before_root"); assert("err_no_sudo_before_root"@.len() == 23);
    reveal_strlit("err_no_ssh_port"); assert("tui_exec_failed"@[0] == 't'); assert("err_no_ssh_port"@[0] == 'e');
    reveal_strlit("err_port_zero"); assert("err_port_zero"@.len() == 13);
    reveal_strlit("err_no_sudo_before_pw"); assert("err_no_sudo_before_pw"@.len() == 21);
    reveal_strlit("err_no_target_user"); assert("err_no_target_user"@.len() == 18);
    reveal_strlit("err_no_key_action"); assert("err_no_key_action"@.len() == 17);
    reveal_strlit("err_update_failed"); assert("err_update_failed"@.len() == 17);
    reveal_strlit("err_upgrade_failed"); assert("err_upgrade_failed"@.len() == 18);
    reveal_strlit("err_ufw_allow_failed"); assert("err_ufw_allow_failed"@.len() == 20);
    reveal_strlit("err_ufw_enable_failed"); assert("err_ufw_enable_failed"@.len() == 21);
    reveal_strlit("err_install_fail2ban"); assert("err_install_fail2ban"@.len() == 20);
    reveal_strlit("err_install_unattended"); assert("err_install_unattended"@.len() == 22);
    reveal_strlit("err_lynis_exec"); assert("err_lynis_exec"@.len() == 14);
    reveal_strlit("err_sshd_check"); assert("err_sshd_check"@.len() == 14);
    reveal_strlit("err_sshd_syntax"); assert("tui_exec_failed"@[0] == 't'); assert("err_sshd_syntax"@[0] == 'e');
    reveal_strlit("err_ssh_restart"); assert("tui_exec_failed"@[0] == 't'); assert("err_ssh_restart"@[0] == 'e');
    reveal_strlit("err_backup"); assert("err_backup"@.len() == 10);
    reveal_strlit("err_read"); assert("err_read"@.len() == 8);
    reveal_strlit("err_write"); assert("err_write"@.len() == 9);
    reveal_strlit("err_setup_signal"); assert("err_setup_signal"@.len() == 16);
    reveal_strlit("result_sys_updated"); assert("result_sys_updated"@.len() == 18);
    reveal_strlit("result_user_created"); assert("result_user_created"@.len() == 19);
    reveal_strlit("result_root_login_set"); assert("result_root_login_set"@.len() == 21);
    reveal_strlit("result_ssh_port_set"); assert("result_ssh_port_set"@.len() == 19);
    reveal_strlit("result_pw_auth_disabled"); assert("result_pw_auth_disabled"@.len() == 23);
    reveal_strlit("result_key_generated"); assert("result_key_generated"@.len() == 20);
    reveal_strlit("result_key_pasted"); assert("result_key_pasted"@.len() == 17);
    reveal_strlit("result_ufw_enabled"); assert("result_ufw_enabled"@.len() == 18);
    reveal_strlit("result_fail2ban_installed"); assert("result_fail2ban_installed"@.len() == 25);
    reveal_strlit("result_auto_updates_enabled"); assert("result_auto_updates_enabled"@.len() == 27);
    reveal_strlit("result_lynis_ok"); assert("tui_exec_failed"@[0] == 't'); assert("result_lynis_ok"@[0] == 'r');
    reveal_strlit("result_lynis_fail"); assert("result_lynis_fail"@.len() == 17);
    reveal_strlit("result_logwatch_installed"); assert("result_logwatch_installed"@.len() == 25);
    reveal_strlit("result_ssh_restarted"); assert("result_ssh_restarted"@.len() == 20);
    reveal_strlit("result_sshd_cfg_set"); assert("result_sshd_cfg_set"@.len() == 19);
    reveal_strlit("result_sshd_syntax_ok"); assert("result_sshd_syntax_ok"@.len() == 21);
    reveal_strlit("result_sshd_syntax_err"); assert("result_sshd_syntax_err"@.len() == 22);
    reveal_strlit("log_audit"); assert("log_audit"@.len() == 9);
    reveal_strlit("log_operation"); assert("log_operation"@.len() == 13);
    reveal_strlit("log_rollback"); assert("log_rollback"@.len() == 12);
    reveal_strlit("log_audit_start"); assert("tui_exec_failed"@[0] == 't'); assert("log_audit_start"@[0] == 'l');
    reveal_strlit("log_audit_done"); assert("log_audit_done"@.len() == 14);
    reveal_strlit("log_step_start"); assert("log_step_start"@.len() == 14);
    reveal_strlit("log_step_complete"); assert("log_step_complete"@.len() == 17);
    reveal_strlit("log_step_failed"); assert("tui_exec_failed"@[0] == 't'); assert("log_step_failed"@[0] == 'l');
    reveal_strlit("log_rollback_auto"); assert("log_rollback_auto"@.len() == 17);
    reveal_strlit("undo_user_remove"); assert("undo_user_remove"@.len() == 16);
    reveal_strlit("undo_pkg_remove"); assert("tui_exec_failed"@[0] == 't'); assert("undo_pkg_remove"@[0] == 'u');
    reveal_strlit("undo_cmd"); assert("undo_cmd"@.len() == 8);
    reveal_strlit("undo_file_restore"); assert("undo_file_restore"@.len() == 17);
    reveal_strlit("undo_ufw_disable"); assert("undo_ufw_disable"@.len() == 16);
    reveal_strlit("undo_ufw_delete"); assert("tui_exec_failed"@[0] == 't'); assert("undo_ufw_delete"@[0] == 'u');
    reveal_strlit("undo_key_delete"); assert("tui_exec_failed"@[0] == 't'); assert("undo_key_delete"@[0] == 'u');
    reveal_strlit("cli_welcome"); assert("cli_welcome"@.len() == 11);
    reveal_strlit("cli_auditing"); assert("cli_auditing"@.len() == 12);
    reveal_strlit("cli_audit_done"); assert("cli_audit_done"@.len() == 14);
    reveal_strlit("cli_select_steps"); assert("cli_select_steps"@.len() == 16);
    reveal_strlit("cli_hint_nav"); assert("cli_hint_nav"@.len() == 12);
    reveal_strlit("cli_collecting"); assert("cli_collecting"@.len() == 14);
    reveal_strlit("cli_will_execute"); assert("cli_will_execute"@.len() == 16);
    reveal_strlit("cli_confirm"); assert("cli_confirm"@.len() == 11);
    reveal_strlit("cli_cancelled"); assert("cli_cancelled"@.len() == 13);
    reveal_strlit("cli_no_selection"); assert("cli_no_selection"@.len() == 16);
    reveal_strlit("cli_executing"); assert("cli_executing"@.len() == 13);
    reveal_strlit("cli_summary_title"); assert("cli_summary_title"@.len() == 17);
    reveal_strlit("cli_summary_total"); assert("cli_summary_total"@.len() == 17);
    reveal_strlit("cli_log_saved"); assert("cli_log_saved"@.len() == 13);
    reveal_strlit("cli_create_user"); assert("tui_exec_failed"@[0] == 't'); assert("cli_create_user"@[0] == 'c');
    reveal_strlit("cli_username_prompt"); assert("cli_username_prompt"@.len() == 19);
    reveal_strlit("cli_username_empty"); assert("cli_username_empty"@.len() == 18);
    reveal_strlit("cli_username_exists"); assert("cli_username_exists"@.len() == 19);
    reveal_strlit("cli_username_invalid"); assert("cli_username_invalid"@.len() == 20);
    reveal_strlit("cli_lock_pw"); assert("cli_lock_pw"@.len() == 11);
    reveal_strlit("cli_current_port"); assert("cli_current_port"@.len() == 16);
    reveal_strlit("cli_default_port"); assert("cli_default_port"@.len() == 16);
    reveal_strlit("cli_suggest_port"); assert("cli_suggest_port"@.len() == 16);
    reveal_strlit("cli_port_prompt"); assert("tui_exec_failed"@[0] == 't'); assert("cli_port_prompt"@[0] == 'c');
    reveal_strlit("cli_port_invalid"); assert("cli_port_invalid"@.len() == 16);
    reveal_strlit("cli_port_zero"); assert("cli_port_zero"@.len() == 13);
    reveal_strlit("cli_existing_sudo"); assert("cli_existing_sudo"@.len() == 17);
    reveal_strlit("cli_no_sudo"); assert("cli_no_sudo"@.len() == 11);
    reveal_strlit("cli_manual_user"); assert("tui_exec_failed"@[0] == 't'); assert("cli_manual_user"@[0] == 'c');
    reveal_strlit("cli_user_prompt"); assert("tui_exec_failed"@[0] == 't'); assert("cli_user_prompt"@[0] == 'c');
    reveal_strlit("cli_no_input"); assert("cli_no_input"@.len() == 12);
    reveal_strlit("cli_select_user"); assert("tui_exec_failed"@[0] == 't'); assert("cli_select_user"@[0] == 'c');
    reveal_strlit("cli_key_found"); assert("cli_key_found"@.len() == 13);
    reveal_strlit("cli_key_action"); assert("cli_key_action"@.len() == 14);
    reveal_strlit("cli_key_generate"); assert("cli_key_generate"@.len() == 16);
    reveal_strlit("cli_key_paste"); assert("cli_key_paste"@.len() == 13);
    reveal_strlit("cli_key_skip"); assert("cli_key_skip"@.len() == 12);
    reveal_strlit("cli_key_prompt"); assert("cli_key_prompt"@.len() == 14);
    reveal_strlit("cli_ssh_port_info"); assert("cli_ssh_port_info"@.len() == 17);
    reveal_strlit("cli_ssh_suggest_info"); assert("cli_ssh_suggest_info"@.len() == 20);
    reveal_strlit("tui_title"); assert("tui_title"@.len() == 9);
    reveal_strlit("tui_audit_report"); assert("tui_audit_report"@.len() == 16);
    reveal_strlit("tui_steps_title"); assert("tui_exec_failed"@[4] == 'e'); assert("tui_steps_title"@[4] == 's');
    reveal_strlit("tui_help_title"); assert("tui_help_title"@.len() == 14);
    reveal_strlit("tui_help_move"); assert("tui_help_move"@.len() == 13);
    reveal_strlit("tui_help_toggle"); assert("tui_exec_failed"@[4] == 'e'); assert("tui_help_toggle"@[4] == 'h');
    reveal_strlit("tui_help_batch"); assert("tui_help_batch"@.len() == 14);
    reveal_strlit("tui_help_single"); assert("tui_exec_failed"@[4] == 'e'); assert("tui_help_single"@[4] == 'h');
    reveal_strlit("tui_help_reauth"); assert("tui_exec_failed"@[4] == 'e'); assert("tui_help_reauth"@[4] == 'h');
    reveal_strlit("tui_help_quit"); assert("tui_help_quit"@.len() == 13);
    reveal_strlit("tui_selected_count"); assert("tui_selected_count"@.len() == 18);
    reveal_strlit("tui_single_hint"); assert("tui_exec_failed"@[4] == 'e'); assert("tui_single_hint"@[4] == 's');
    reveal_strlit("tui_exec_title"); assert("tui_exec_title"@.len() == 14);
    reveal_strlit("tui_exec_running"); assert("tui_exec_running"@.len() == 16);
    reveal_strlit("tui_exec_done"); assert("tui_exec_done"@.len() == 13);
    reveal_strlit("tui_exec_skip"); assert("tui_exec_skip"@.len() == 13);
    reveal_strlit("{err}");
    reveal_strlit("失败: {err}");
    assert("失败: {err}"@.subrange(4, 9) =~= "{err}"@);
    assert(match_at("失败: {err}"@, "{err}"@, 4));
    reveal_strlit("Failed: {err}");
    assert("Failed: {err}"@.subrange(8, 13) =~= "{err}"@);
    assert(match_at("Failed: {err}"@, "{err}"@, 8));
    reveal_strlit("失敗: {err}");
    assert("失敗: {err}"@.subrange(4, 9) =~= "{err}"@);
    assert(match_at("失敗: {err}"@, "{err}"@, 4));
}

proof fn placeholders_tui_result_summary()
    ensures
        zh_cn_text("tui_result_summary"@) matches Some(t) && contains(t, "{fail}"@),
        zh_cn_text("tui_result_summary"@) matches Some(t) && contains(t, "{ok}"@),
        en_text("tui_result_summary"@) matches Some(t) && contains(t, "{fail}"@),
        en_text("tui_result_summary"@) matches Some(t) && contains(t, "{ok}"@),
        zh_tw_text("tui_result_summary"@) matches Some(t) && contains(t, "{fail}"@),
        zh_tw_text("tui_result_summary"@) matches Some(t) && contains(t, "{ok}"@),
{
    reveal_strlit("tui_result_summary"); assert("tui_result_summary"@.len() == 18);
    reveal_strlit("lang_en"); assert("lang_en"@.len() == 7);
    reveal_strlit("lang_zh_cn"); assert("lang_zh_cn"@.len() == 10);
    reveal_strlit("lang_zh_tw"); assert("lang_zh_tw"@.len() == 10);
    reveal_strlit("select_language"); assert("select_language"@.len() == 15);
    reveal_strlit("select_mode"); assert("select_mode"@.len() == 11);
    reveal_strlit("mode_cli"); assert("mode_cli"@.len() == 8);
    reveal_strlit("mode_tui"); assert("mode_tui"@.len() == 8);
    reveal_strlit("unknown_arg"); assert("unknown_arg"@.len() == 11);
    reveal_strlit("app_title"); assert("app_title"@.len() == 9);
    reveal_strlit("step_system_update"); assert("tui_result_summary"@[0] == 't'); assert("step_system_update"@[0] == 's');
    reveal_strlit("step_user_creation"); assert("tui_result_summary"@[0] == 't'); assert("step_user_creation"@[0] == 's');
    reveal_strlit("step_ssh_root_login"); assert("step_ssh_root_login"@.len() == 19);
    reveal_strlit("step_ssh_port_change"); assert("step_ssh_port_change"@.len() == 20);
    reveal_strlit("step_ssh_password_auth"); assert("step_ssh_password_auth"@.len() == 22);
    reveal_strlit("step_ssh_key_setup"); assert("tui_result_summary"@[0] == 't'); assert("step_ssh_key_setup"@[0] == 's');
    reveal_strlit("step_ufw"); assert("step_ufw"@.len() == 8);
    reveal_strlit("step_fail2ban"); assert("step_fail2ban"@.len() == 13);
    reveal_strlit("step_auto_updates"); assert("step_auto_updates"@.len() == 17);
    reveal_strlit("step_security_scan"); assert("tui_result_summary"@[0] == 't'); assert("step_security_scan"@[0] == 's');
    reveal_strlit("step_log_audit"); assert("step_log_audit"@.len() == 14);
    reveal_strlit("step_restart_ssh"); assert("step_restart_ssh"@.len() == 16);
    reveal_strlit("audit_root"); assert("audit_root"@.len() == 10);
    reveal_strlit("audit_pkg_mgr"); assert("audit_pkg_mgr"@.len() == 13);
    reveal_strlit("audit_ssh_port"); assert("audit_ssh_port"@.len() == 14);
    reveal_strlit("audit_password_auth"); assert("audit_password_auth"@.len() == 19);
    reveal_strlit("audit_root_login"); assert("audit_root_login"@.len() == 16);
    reveal_strlit("audit_sudo_users"); assert("audit_sudo_users"@.len() == 16);
    reveal_strlit("audit_fail2ban"); assert("audit_fail2ban"@.len() == 14);
    reveal_strlit("audit_ufw"); assert("audit_ufw"@.len() == 9);
    reveal_strlit("audit_auto_updates"); assert("tui_result_summary"@[0] == 't'); assert("audit_auto_updates"@[0] == 'a');
    reveal_strlit("audit_sys_update"); assert("audit_sys_update"@.len() == 16);
    reveal_strlit("audit_detail_root_ok"); assert("audit_detail_root_ok"@.len() == 20);
    reveal_strlit("audit_detail_root_missing"); assert("audit_detail_root_missing"@.len() == 25);
    reveal_strlit("audit_detail_pkg"); assert("audit_detail_pkg"@.len() == 16);
    reveal_strlit("audit_detail_port_safe"); assert("audit_detail_port_safe"@.len() == 22);
    reveal_strlit("audit_detail_port_missing"); assert("audit_detail_port_missing"@.len() == 25);
    reveal_strlit("audit_detail_pw_disabled"); assert("audit_detail_pw_disabled"@.len() == 24);
    reveal_strlit("audit_detail_pw_missing"); assert("audit_detail_pw_missing"@.len() == 23);
    reveal_strlit("audit_detail_root_disabled"); assert("audit_detail_root_disabled"@.len() == 26);
    reveal_strlit("audit_detail_root_missing_cfg"); assert("audit_detail_root_missing_cfg"@.len() == 29);
    reveal_strlit("audit_detail_sudo_missing"); assert("audit_detail_sudo_missing"@.len() == 25);
    reveal_strlit("audit_detail_sudo_ok"); assert("audit_detail_sudo_ok"@.len() == 20);
    reveal_strlit("audit_detail_fb_installed"); assert("audit_detail_fb_installed"@.len() == 25);
    reveal_strlit("audit_detail_fb_missing"); assert("audit_detail_fb_missing"@.len() == 23);
    reveal_strlit("audit_detail_ufw_enabled"); assert("audit_detail_ufw_enabled"@.len() == 24);
    reveal_strlit("audit_detail_ufw_missing"); assert("audit_detail_ufw_missing"@.len() == 24);
    reveal_strlit("audit_detail_au_enabled"); assert("audit_detail_au_enabled"@.len() == 23);
    reveal_strlit("audit_detail_au_missing"); assert("audit_detail_au_missing"@.len() == 23);
    reveal_strlit("audit_detail_sys_uptodate"); assert("audit_detail_sys_uptodate"@.len() == 25);
    reveal_strlit("audit_detail_sys_needs_update"); assert("audit_detail_sys_needs_update"@.len() == 29);
    reveal_strlit("status_safe"); assert("status_safe"@.len() == 11);
    reveal_strlit("status_partial"); assert("status_partial"@.len() == 14);
    reveal_strlit("status_missing"); assert("status_missing"@.len() == 14);
    reveal_strlit("status_needs_update"); assert("status_needs_update"@.len() == 19);
    reveal_strlit("pkg_apt"); assert("pkg_apt"@.len() == 7);
    reveal_strlit("pkg_yum"); assert("pkg_yum"@.len() == 7);
    reveal_strlit("pkg_dnf"); assert("pkg_dnf"@.len() == 7);
    reveal_strlit("pkg_unknown"); assert("pkg_unknown"@.len() == 11);
    reveal_strlit("err_permission_denied"); assert("err_permission_denied"@.len() == 21);
    reveal_strlit("err_cmd_failed"); assert("err_cmd_failed"@.len() == 14);
    reveal_strlit("err_parse_error"); assert("err_parse_error"@.len() == 15);
    reveal_strlit("err_precondition_failed"); assert("err_precondition_failed"@.len() == 23);
    reveal_strlit("err_user_aborted"); assert("err_user_aborted"@.len() == 16);
    reveal_strlit("err_unknown_pkg_mgr"); assert("err_unknown_pkg_mgr"@.len() == 19);
    reveal_strlit("err_unsupported_pkg"); assert("err_unsupported_pkg"@.len() == 19);
    reveal_strlit("err_auto_update_only_debian"); assert("err_auto_update_only_debian"@.len() == 27);
    reveal_strlit("err_unknown_pkg_lynis"); assert("err_unknown_pkg_lynis"@.len() == 21);
    reveal_strlit("err_sshd_not_found"); assert("tui_result_summary"@[0] == 't'); assert("err_sshd_not_found"@[0] == 'e');
    reveal_strlit("err_no_username"); assert("err_no_username"@.len() == 15);
    reveal_strlit("err_user_exists"); assert("err_user_exists"@.len() == 15);
    reveal_strlit("err_no_sudo_before_root"); assert("err_no_sudo_before_root"@.len() == 23);
    reveal_strlit("err_no_ssh_port"); assert("err_no_ssh_port"@.len() == 15);
    reveal_strlit("err_port_zero"); assert("err_port_zero"@.len() == 13);
    reveal_strlit("err_no_sudo_before_pw"); assert("err_no_sudo_before_pw"@.len() == 21);
    reveal_strlit("err_no_target_user"); assert("tui_result_summary"@[0] == 't'); assert("err_no_target_user"@[0] == 'e');
    reveal_strlit("err_no_key_action"); assert("err_no_key_action"@.len() == 17);
    reveal_strlit("err_update_failed"); assert("err_update_failed"@.len() == 17);
    reveal_strlit("err_upgrade_failed"); assert("tui_result_summary"@[0] == 't'); assert("err_upgrade_failed"@[0] == 'e');
    reveal_strlit("err_ufw_allow_failed"); assert("err_ufw_allow_failed"@.len() == 20);
    reveal_strlit("err_ufw_enable_failed"); assert("err_ufw_enable_failed"@.len() == 21);
    reveal_strlit("err_install_fail2ban"); assert("err_install_fail2ban"@.len() == 20);
    reveal_strlit("err_install_unattended"); assert("err_install_unattended"@.len() == 22);
    reveal_strlit("err_lynis_exec"); assert("err_lynis_exec"@.len() == 14);
    reveal_strlit("err_sshd_check"); assert("err_sshd_check"@.len() == 14);
    reveal_strlit("err_sshd_syntax"); assert("err_sshd_syntax"@.len() == 15);
    reveal_strlit("err_ssh_restart"); assert("err_ssh_restart"@.len() == 15);
    reveal_strlit("err_backup"); assert("err_backup"@.len() == 10);
    reveal_strlit("err_read"); assert("err_read"@.len() == 8);
    reveal_strlit("err_write"); assert("err_write"@.len() == 9);
    reveal_strlit("err_setup_signal"); assert("err_setup_signal"@.len() == 16);
    reveal_strlit("result_sys_updated"); assert("tui_result_summary"@[0] == 't'); assert("result_sys_updated"@[0] == 'r');
    reveal_strlit("result_user_created"); assert("result_user_created"@.len() == 19);
    reveal_strlit("result_root_login_set"); assert("result_root_login_set"@.len() == 21);
    reveal_strlit("result_ssh_port_set"); assert("result_ssh_port_set"@.len() == 19);
    reveal_strlit("result_pw_auth_disabled"); assert("result_pw_auth_disabled"@.len() == 23);
    reveal_strlit("result_key_generated"); assert("result_key_generated"@.len() == 20);
    reveal_strlit("result_key_pasted"); assert("result_key_pasted"@.len() == 17);
    reveal_strlit("result_ufw_enabled"); assert("tui_result_summary"@[0] == 't'); assert("result_ufw_enabled"@[0] == 'r');
    reveal_strlit("result_fail2ban_installed"); assert("result_fail2ban_installed"@.len() == 25);
    reveal_strlit("result_auto_updates_enabled"); assert("result_auto_updates_enabled"@.len() == 27);
    reveal_strlit("result_lynis_ok"); assert("result_lynis_ok"@.len() == 15);
    reveal_strlit("result_lynis_fail"); assert("result_lynis_fail"@.len() == 17);
    reveal_strlit("result_logwatch_installed"); assert("result_logwatch_installed"@.len() == 25);
    reveal_strlit("result_ssh_restarted"); assert("result_ssh_restarted"@.len() == 20);
    reveal_strlit("result_sshd_cfg_set"); assert("result_sshd_cfg_set"@.len() == 19);
    reveal_strlit("result_sshd_syntax_ok"); assert("result_sshd_syntax_ok"@.len() == 21);
    reveal_strlit("result_sshd_syntax_err"); assert("result_sshd_syntax_err"@.len() == 22);
    reveal_strlit("log_audit"); assert("log_audit"@.len() == 9);
    reveal_strlit("log_operation"); assert("log_operation"@.len() == 13);
    reveal_strlit("log_rollback"); assert("log_rollback"@.len() == 12);
    reveal_strlit("log_audit_start"); assert("log_audit_start"@.len() == 15);
    reveal_strlit("log_audit_done"); assert("log_audit_done"@.len() == 14);
    reveal_strlit("log_step_start"); assert("log_step_start"@.len() == 14);
    reveal_strlit("log_step_complete"); assert("log_step_complete"@.len() == 17);
    reveal_strlit("log_step_failed"); assert("log_step_failed"@.len() == 15);
    reveal_strlit("log_rollback_auto"); assert("log_rollback_auto"@.len() == 17);
    reveal_strlit("undo_user_remove"); assert("undo_user_remove"@.len() == 16);
    reveal_strlit("undo_pkg_remove"); assert("undo_pkg_remove"@.len() == 15);
    reveal_strlit("undo_cmd"); assert("undo_cmd"@.len() == 8);
    reveal_strlit("undo_file_restore"); assert("undo_file_restore"@.len() == 17);
    reveal_strlit("undo_ufw_disable"); assert("undo_ufw_disable"@.len() == 16);
    reveal_strlit("undo_ufw_delete"); assert("undo_ufw_delete"@.len() == 15);
    reveal_strlit("undo_key_delete"); assert("undo_key_delete"@.len() == 15);
    reveal_strlit("cli_welcome"); assert("cli_welcome"@.len() == 11);
    reveal_strlit("cli_auditing"); assert("cli_auditing"@.len() == 12);
    reveal_strlit("cli_audit_done"); assert("cli_audit_done"@.len() == 14);
    reveal_strlit("cli_select_steps"); assert("cli_select_steps"@.len() == 16);
    reveal_strlit("cli_hint_nav"); assert("cli_hint_nav"@.len() == 12);
    reveal_strlit("cli_collecting"); assert("cli_collecting"@.len() == 14);
    reveal_strlit("cli_will_execute"); assert("cli_will_execute"@.len() == 16);
    reveal_strlit("cli_confirm"); assert("cli_confirm"@.len() == 11);
    reveal_strlit("cli_cancelled"); assert("cli_cancelled"@.len() == 13);
    reveal_strlit("cli_no_selection"); assert("cli_no_selection"@.len() == 16);
    reveal_strlit("cli_executing"); assert("cli_executing"@.len() == 13);
    reveal_strlit("cli_summary_title"); assert("cli_summary_title"@.len() == 17);
    reveal_strlit("cli_summary_total"); assert("cli_summary_total"@.len() == 17);
    reveal_strlit("cli_log_saved"); assert("cli_log_saved"@.len() == 13);
    reveal_strlit("cli_create_user"); assert("cli_create_user"@.len() == 15);
    reveal_strlit("cli_username_prompt"); assert("cli_username_prompt"@.len() == 19);
    reveal_strlit("cli_username_empty"); assert("tui_result_summary"@[0] == 't'); assert("cli_username_empty"@[0] == 'c');
    reveal_strlit("cli_username_exists"); assert("cli_username_exists"@.len() == 19);
    reveal_strlit("cli_username_invalid"); assert("cli_username_invalid"@.len() == 20);
    reveal_strlit("cli_lock_pw"); assert("cli_lock_pw"@.len() == 11);
    reveal_strlit("cli_current_port"); assert("cli_current_port"@.len() == 16);
    reveal_strlit("cli_default_port"); assert("cli_default_port"@.len() == 16);
    reveal_strlit("cli_suggest_port"); assert("cli_suggest_port"@.len() == 16);
    reveal_strlit("cli_port_prompt"); assert("cli_port_prompt"@.len() == 15);
    reveal_strlit("cli_port_invalid"); assert("cli_port_invalid"@.len() == 16);
    reveal_strlit("cli_port_zero"); assert("cli_port_zero"@.len() == 13);
    reveal_strlit("cli_existing_sudo"); assert("cli_existing_sudo"@.len() == 17);
    reveal_strlit("cli_no_sudo"); assert("cli_no_sudo"@.len() == 11);
    reveal_strlit("cli_manual_user"); assert("cli_manual_user"@.len() == 15);
    reveal_strlit("cli_user_prompt"); assert("cli_user_prompt"@.len() == 15);
    reveal_strlit("cli_no_input"); assert("cli_no_input"@.len() == 12);
    reveal_strlit("cli_select_user"); assert("cli_select_user"@.len() == 15);
    reveal_strlit("cli_key_found"); assert("cli_key_found"@.len() == 13);
    reveal_strlit("cli_key_action"); assert("cli_key_action"@.len() == 14);
    reveal_strlit("cli_key_generate"); assert("cli_key_generate"@.len() == 16);
    reveal_strlit("cli_key_paste"); assert("cli_key_paste"@.len() == 13);
    reveal_strlit("cli_key_skip"); assert("cli_key_skip"@.len() == 12);
    reveal_strlit("cli_key_prompt"); assert("cli_key_prompt"@.len() == 14);
    reveal_strlit("cli_ssh_port_info"); assert("cli_ssh_port_info"@.len() == 17);
    reveal_strlit("cli_ssh_suggest_info"); assert("cli_ssh_suggest_info"@.len() == 20);
    reveal_strlit("tui_title"); assert("tui_title"@.len() == 9);
    reveal_strlit("tui_audit_report"); assert("tui_audit_report"@.len() == 16);
    reveal_strlit("tui_steps_title"); assert("tui_steps_title"@.len() == 15);
    reveal_strlit("tui_help_title"); assert("tui_help_title"@.len() == 14);
    reveal_strlit("tui_help_move"); assert("tui_help_move"@.len() == 13);
    reveal_strlit("tui_help_toggle"); assert("tui_help_toggle"@.len() == 15);
    reveal_strlit("tui_help_batch"); assert("tui_help_batch"@.len() == 14);
    reveal_strlit("tui_help_single"); assert("tui_help_single"@.len() == 15);
    reveal_strlit("tui_help_reauth"); assert("tui_help_reauth"@.len() == 15);
    reveal_strlit("tui_help_quit"); assert("tui_help_quit"@.len() == 13);
    reveal_strlit("tui_selected_count"); assert("tui_result_summary"@[4] == 'r'); assert("tui_selected_count"@[4] == 's');
    reveal_strlit("tui_single_hint"); assert("tui_single_hint"@.len() == 15);
    reveal_strlit("tui_exec_title"); assert("tui_exec_title"@.len() == 14);
    reveal_strlit("tui_exec_running"); assert("tui_exec_running"@.len() == 16);
    reveal_strlit("tui_exec_done"); assert("tui_exec_done"@.len() == 13);
    reveal_strlit("tui_exec_skip"); assert("tui_exec_skip"@.len() == 13);
    reveal_strlit("tui_exec_failed"); assert("tui_exec_failed"@.len() == 15);
    reveal_strlit("tui_exec_interrupted"); assert("tui_exec_interrupted"@.len() == 20);
    reveal_strlit("tui_result_title"); assert("tui_result_title"@.len() == 16);
    reveal_strlit("{fail}");
    reveal_strlit("{ok}");
    reveal_strlit("总计: {ok} 成功, {fail} 失败/跳过");
    assert("总计: {ok} 成功, {fail} 失败/跳过"@.subrange(13, 19) =~= "{fail}"@);
    assert(match_at("总计: {ok} 成功, {fail} 失败/跳过"@, "{fail}"@, 13));
    assert("总计: {ok} 成功, {fail} 失败/跳过"@.subrange(4, 8) =~= "{ok}"@);
    assert(match_at("总计: {ok} 成功, {fail} 失败/跳过"@, "{ok}"@, 4));
    reveal_strlit("Total: {ok} success, {fail} failed/skipped");
    assert("Total: {ok} success, {fail} failed/skipped"@.subrange(21, 27) =~= "{fail}"@);
    assert(match_at("Total: {ok} success, {fail} failed/skipped"@, "{fail}"@, 21));
    assert("Total: {ok} success, {fail} failed/skipped"@.subrange(7, 11) =~= "{ok}"@);
    assert(match_at("Total: {ok} success, {fail} failed/skipped"@, "{ok}"@, 7));
    reveal_strlit("總計: {ok} 成功, {fail} 失敗/跳過");
    assert("總計: {ok} 成功, {fail} 失敗/跳過"@.subrange(13, 19) =~= "{fail}"@);
    assert(match_at("總計: {ok} 成功, {fail} 失敗/跳過"@, "{fail}"@, 13));
    assert("總計: {ok} 成功, {fail} 失敗/跳過"@.subrange(4, 8) =~= "{ok}"@);
    assert(match_at("總計: {ok} 成功, {fail} 失敗/跳過"@, "{ok}"@, 4));
}

proof fn placeholders_tui_popup_port_suggest()
    ensures
        zh_cn_text("tui_popup_port_suggest"@) matches Some(t) && contains(t, "{port}"@),
        en_text("tui_popup_port_suggest"@) matches Some(t) && contains(t, "{port}"@),
        zh_tw_text("tui_popup_port_suggest"@) matches Some(t) && contains(t, "{port}"@),
{
    reveal_strlit("tui_popup_port_suggest"); assert("tui_popup_port_suggest"@.len() == 22);
    reveal_strlit("lang_en"); assert("lang_en"@.len() == 7);
    reveal_strlit("lang_zh_cn"); assert("lang_zh_cn"@.len() == 10);
    reveal_strlit("lang_zh_tw"); assert("lang_zh_tw"@.len() == 10);
    reveal_strlit("select_language"); assert("select_language"@.len() == 15);
    reveal_strlit("select_mode"); assert("select_mode"@.len() == 11);
    reveal_strlit("mode_cli"); assert("mode_cli"@.len() == 8);
    reveal_strlit("mode_tui"); assert("mode_tui"@.len() == 8);
    reveal_strlit("unknown_arg"); assert("unknown_arg"@.len() == 11);
    reveal_strlit("app_title"); assert("app_title"@.len() == 9);
    reveal_strlit("step_system_update"); assert("step_system_update"@.len() == 18);
    reveal_strlit("step_user_creation"); assert("step_user_creation"@.len() == 18);
    reveal_strlit("step_ssh_root_login"); assert("step_ssh_root_login"@.len() == 19);
    reveal_strlit("step_ssh_port_change"); assert("step_ssh_port_change"@.len() == 20);
    reveal_strlit("step_ssh_password_auth"); assert("tui_popup_port_suggest"@[0] == 't'); assert("step_ssh_password_auth"@[0] == 's');
    reveal_strlit("step_ssh_key_setup"); assert("step_ssh_key_setup"@.len() == 18);
    reveal_strlit("step_ufw"); assert("step_ufw"@.len() == 8);
    reveal_strlit("step_fail2ban"); assert("step_fail2ban"@.len() == 13);
    reveal_strlit("step_auto_updates"); assert("step_auto_updates"@.len() == 17);
    reveal_strlit("step_security_scan"); assert("step_security_scan"@.len() == 18);
    reveal_strlit("step_log_audit"); assert("step_log_audit"@.len() == 14);
    reveal_strlit("step_restart_ssh"); assert("step_restart_ssh"@.len() == 16);
    reveal_strlit("audit_root"); assert("audit_root"@.len() == 10);
    reveal_strlit("audit_pkg_mgr"); assert("audit_pkg_mgr"@.len() == 13);
    reveal_strlit("audit_ssh_port"); assert("audit_ssh_port"@.len() == 14);
    reveal_strlit("audit_password_auth"); assert("audit_password_auth"@.len() == 19);
    reveal_strlit("audit_root_login"); assert("audit_root_login"@.len() == 16);
    reveal_strlit("audit_sudo_users"); assert("audit_sudo_users"@.len() == 16);
    reveal_strlit("audit_fail2ban"); assert("audit_fail2ban"@.len() == 14);
    reveal_strlit("audit_ufw"); assert("audit_ufw"@.len() == 9);
    reveal_strlit("audit_auto_updates"); assert("audit_auto_updates"@.len() == 18);
    reveal_strlit("audit_sys_update"); assert("audit_sys_update"@.len() == 16);
    reveal_strlit("audit_detail_root_ok"); assert("audit_detail_root_ok"@.len() == 20);
    reveal_strlit("audit_detail_root_missing"); assert("audit_detail_root_missing"@.len() == 25);
    reveal_strlit("audit_detail_pkg"); assert("audit_detail_pkg"@.len() == 16);
    reveal_strlit("audit_detail_port_safe"); assert("tui_popup_port_suggest"@[0] == 't'); assert("audit_detail_port_safe"@[0] == 'a');
    reveal_strlit("audit_detail_port_missing"); assert("audit_detail_port_missing"@.len() == 25);
    reveal_strlit("audit_detail_pw_disabled"); assert("audit_detail_pw_disabled"@.len() == 24);
    reveal_strlit("audit_detail_pw_missing"); assert("audit_detail_pw_missing"@.len() == 23);
    reveal_strlit("audit_detail_root_disabled"); assert("audit_detail_root_disabled"@.len() == 26);
    reveal_strlit("audit_detail_root_missing_cfg"); assert("audit_detail_root_missing_cfg"@.len() == 29);
    reveal_strlit("audit_detail_sudo_missing"); assert("audit_detail_sudo_missing"@.len() == 25);
    reveal_strlit("audit_detail_sudo_ok"); assert("audit_detail_sudo_ok"@.len() == 20);
    reveal_strlit("audit_detail_fb_installed"); assert("audit_detail_fb_installed"@.len() == 25);
    reveal_strlit("audit_detail_fb_missing"); assert("audit_detail_fb_missing"@.len() == 23);
    reveal_strlit("audit_detail_ufw_enabled"); assert("audit_detail_ufw_enabled"@.len() == 24);
    reveal_strlit("audit_detail_ufw_missing"); assert("audit_detail_ufw_missing"@.len() == 24);
    reveal_strlit("audit_detail_au_enabled"); assert("audit_detail_au_enabled"@.len() == 23);
    reveal_strlit("audit_detail_au_missing"); assert("audit_detail_au_missing"@.len() == 23);
    reveal_strlit("audit_detail_sys_uptodate"); assert("audit_detail_sys_uptodate"@.len() == 25);
    reveal_strlit("audit_detail_sys_needs_update"); assert("audit_detail_sys_needs_update"@.len() == 29);
    reveal_strlit("status_safe"); assert("status_safe"@.len() == 11);
    reveal_strlit("status_partial"); assert("status_partial"@.len() == 14);
    reveal_strlit("status_missing"); assert("status_missing"@.len() == 14);
    reveal_strlit("status_needs_update"); assert("status_needs_update"@.len() == 19);
    reveal_strlit("pkg_apt"); assert("pkg_apt"@.len() == 7);
    reveal_strlit("pkg_yum"); assert("pkg_yum"@.len() == 7);
    reveal_strlit("pkg_dnf"); assert("pkg_dnf"@.len() == 7);
    reveal_strlit("pkg_unknown"); assert("pkg_unknown"@.len() == 11);
    reveal_strlit("err_permission_denied"); assert("err_permission_denied"@.len() == 21);
    reveal_strlit("err_cmd_failed"); assert("err_cmd_failed"@.len() == 14);
    reveal_strlit("err_parse_error"); assert("err_parse_error"@.len() == 15);
    reveal_strlit("err_precondition_failed"); assert("err_precondition_failed"@.len() == 23);
    reveal_strlit("err_user_aborted"); assert("err_user_aborted"@.len() == 16);
    reveal_strlit("err_unknown_pkg_mgr"); assert("err_unknown_pkg_mgr"@.len() == 19);
    reveal_strlit("err_unsupported_pkg"); assert("err_unsupported_pkg"@.len() == 19);
    reveal_strlit("err_auto_update_only_debian"); assert("err_auto_update_only_debian"@.len() == 27);
    reveal_strlit("err_unknown_pkg_lynis"); assert("err_unknown_pkg_lynis"@.len() == 21);
    reveal_strlit("err_sshd_not_found"); assert("err_sshd_not_found"@.len() == 18);
    reveal_strlit("err_no_username"); assert("err_no_username"@.len() == 15);
    reveal_strlit("err_user_exists"); assert("err_user_exists"@.len() == 15);
    reveal_strlit("err_no_sudo_before_root"); assert("err_no_sudo_before_root"@.len() == 23);
    reveal_strlit("err_no_ssh_port"); assert("err_no_ssh_port"@.len() == 15);
    reveal_strlit("err_port_zero"); assert("err_port_zero"@.len() == 13);
    reveal_strlit("err_no_sudo_before_pw"); assert("err_no_sudo_before_pw"@.len() == 21);
    reveal_strlit("err_no_target_user"); assert("err_no_target_user"@.len() == 18);
    reveal_strlit("err_no_key_action"); assert("err_no_key_action"@.len() == 17);
    reveal_strlit("err_update_failed"); assert("err_update_failed"@.len() == 17);
    reveal_strlit("err_upgrade_failed"); assert("err_upgrade_failed"@.len() == 18);
    reveal_strlit("err_ufw_allow_failed"); assert("err_ufw_allow_failed"@.len() == 20);
    reveal_strlit("err_ufw_enable_failed"); assert("err_ufw_enable_failed"@.len() == 21);
    reveal_strlit("err_install_fail2ban"); assert("err_install_fail2ban"@.len() == 20);
    reveal_strlit("err_install_unattended"); assert("tui_popup_port_suggest"@[0] == 't'); assert("err_install_unattended"@[0] == 'e');
    reveal_strlit("err_lynis_exec"); assert("err_lynis_exec"@.len() == 14);
    reveal_strlit("err_sshd_check"); assert("err_sshd_check"@.len() == 14);
    reveal_strlit("err_sshd_syntax"); assert("err_sshd_syntax"@.len() == 15);
    reveal_strlit("err_ssh_restart"); assert("err_ssh_restart"@.len() == 15);
    reveal_strlit("err_backup"); assert("err_backup"@.len() == 10);
    reveal_strlit("err_read"); assert("err_read"@.len() == 8);
    reveal_strlit("err_write"); assert("err_write"@.len() == 9);
    reveal_strlit("err_setup_signal"); assert("err_setup_signal"@.len() == 16);
    reveal_strlit("result_sys_updated"); assert("result_sys_updated"@.len() == 18);
    reveal_strlit("result_user_created"); assert("result_user_created"@.len() == 19);
    reveal_strlit("result_root_login_set"); assert("result_root_login_set"@.len() == 21);
    reveal_strlit("result_ssh_port_set"); assert("result_ssh_port_set"@.len() == 19);
    reveal_strlit("result_pw_auth_disabled"); assert("result_pw_auth_disabled"@.len() == 23);
    reveal_strlit("result_key_generated"); assert("result_key_generated"@.len() == 20);
    reveal_strlit("result_key_pasted"); assert("result_key_pasted"@.len() == 17);
    reveal_strlit("result_ufw_enabled"); assert("result_ufw_enabled"@.len() == 18);
    reveal_strlit("result_fail2ban_installed"); assert("result_fail2ban_installed"@.len() == 25);
    reveal_strlit("result_auto_updates_enabled"); assert("result_auto_updates_enabled"@.len() == 27);
    reveal_strlit("result_lynis_ok"); assert("result_lynis_ok"@.len() == 15);
    reveal_strlit("result_lynis_fail"); assert("result_lynis_fail"@.len() == 17);
    reveal_strlit("result_logwatch_installed"); assert("result_logwatch_installed"@.len() == 25);
    reveal_strlit("result_ssh_restarted"); assert("result_ssh_restarted"@.len() == 20);
    reveal_strlit("result_sshd_cfg_set"); assert("result_sshd_cfg_set"@.len() == 19);
    reveal_strlit("result_sshd_syntax_ok"); assert("result_sshd_syntax_ok"@.len() == 21);
    reveal_strlit("result_sshd_syntax_err"); assert("tui_popup_port_suggest"@[0] == 't'); assert("result_sshd_syntax_err"@[0] == 'r');
    reveal_strlit("log_audit"); assert("log_audit"@.len() == 9);
    reveal_strlit("log_operation"); assert("log_operation"@.len() == 13);
    reveal_strlit("log_rollback"); assert("log_rollback"@.len() == 12);
    reveal_strlit("log_audit_start"); assert("log_audit_start"@.len() == 15);
    reveal_strlit("log_audit_done"); assert("log_audit_done"@.len() == 14);
    reveal_strlit("log_step_start"); assert("log_step_start"@.len() == 14);
    reveal_strlit("log_step_complete"); assert("log_step_complete"@.len() == 17);
    reveal_strlit("log_step_failed"); assert("log_step_failed"@.len() == 15);
    reveal_strlit("log_rollback_auto"); assert("log_rollback_auto"@.len() == 17);
    reveal_strlit("undo_user_remove"); assert("undo_user_remove"@.len() == 16);
    reveal_strlit("undo_pkg_remove"); assert("undo_pkg_remove"@.len() == 15);
    reveal_strlit("undo_cmd"); assert("undo_cmd"@.len() == 8);
    reveal_strlit("undo_file_restore"); assert("undo_file_restore"@.len() == 17);
    reveal_strlit("undo_ufw_disable"); assert("undo_ufw_disable"@.len() == 16);
    reveal_strlit("undo_ufw_delete"); assert("undo_ufw_delete"@.len() == 15);
    reveal_strlit("undo_key_delete"); assert("undo_key_delete"@.len() == 15);
    reveal_strlit("cli_welcome"); assert("cli_welcome"@.len() == 11);
    reveal_strlit("cli_auditing"); assert("cli_auditing"@.len() == 12);
    reveal_strlit("cli_audit_done"); assert("cli_audit_done"@.len() == 14);
    reveal_strlit("cli_select_steps"); assert("cli_select_steps"@.len() == 16);
    reveal_strlit("cli_hint_nav"); assert("cli_hint_nav"@.len() == 12);
    reveal_strlit("cli_collecting"); assert("cli_collecting"@.len() == 14);
    reveal_strlit("cli_will_execute"); assert("cli_will_execute"@.len() == 16);
    reveal_strlit("cli_confirm"); assert("cli_confirm"@.len() == 11);
    reveal_strlit("cli_cancelled"); assert("cli_cancelled"@.len() == 13);
    reveal_strlit("cli_no_selection"); assert("cli_no_selection"@.len() == 16);
    reveal_strlit("cli_executing"); assert("cli_executing"@.len() == 13);
    reveal_strlit("cli_summary_title"); assert("cli_summary_title"@.len() == 17);
    reveal_strlit("cli_summary_total"); assert("cli_summary_total"@.len() == 17);
    reveal_strlit("cli_log_saved"); assert("cli_log_saved"@.len() == 13);
    reveal_strlit("cli_create_user"); assert("cli_create_user"@.len() == 15);
    reveal_strlit("cli_username_prompt"); assert("cli_username_prompt"@.len() == 19);
    reveal_strlit("cli_username_empty"); assert("cli_username_empty"@.len() == 18);
    reveal_strlit("cli_username_exists"); assert("cli_username_exists"@.len() == 19);
    reveal_strlit("cli_username_invalid"); assert("cli_username_invalid"@.len() == 20);
    reveal_strlit("cli_lock_pw"); assert("cli_lock_pw"@.len() == 11);
    reveal_strlit("cli_current_port"); assert("cli_current_port"@.len() == 16);
    reveal_strlit("cli_default_port"); assert("cli_default_port"@.len() == 16);
    reveal_strlit("cli_suggest_port"); assert("cli_suggest_port"@.len() == 16);
    reveal_strlit("cli_port_prompt"); assert("cli_port_prompt"@.len() == 15);
    reveal_strlit("cli_port_invalid"); assert("cli_port_invalid"@.len() == 16);
    reveal_strlit("cli_port_zero"); assert("cli_port_zero"@.len() == 13);
    reveal_strlit("cli_existing_sudo"); assert("cli_existing_sudo"@.len() == 17);
    reveal_strlit("cli_no_sudo"); assert("cli_no_sudo"@.len() == 11);
    reveal_strlit("cli_manual_user"); assert("cli_manual_user"@.len() == 15);
    reveal_strlit("cli_user_prompt"); assert("cli_user_prompt"@.len() == 15);
    reveal_strlit("cli_no_input"); assert("cli_no_input"@.len() == 12);
    reveal_strlit("cli_select_user"); assert("cli_select_user"@.len() == 15);
    reveal_strlit("cli_key_found"); assert("cli_key_found"@.len() == 13);
    reveal_strlit("cli_key_action"); assert("cli_key_action"@.len() == 14);
    reveal_strlit("cli_key_generate"); assert("cli_key_generate"@.len() == 16);
    reveal_strlit("cli_key_paste"); assert("cli_key_paste"@.len() == 13);
    reveal_strlit("cli_key_skip"); assert("cli_key_skip"@.len() == 12);
    reveal_strlit("cli_key_prompt"); assert("cli_key_prompt"@.len() == 14);
    reveal_strlit("cli_ssh_port_info"); assert("cli_ssh_port_info"@.len() == 17);
    reveal_strlit("cli_ssh_suggest_info"); assert("cli_ssh_suggest_info"@.len() == 20);
    reveal_strlit("tui_title"); assert("tui_title"@.len() == 9);
    reveal_strlit("tui_audit_report"); assert("tui_audit_report"@.len() == 16);
    reveal_strlit("tui_steps_title"); assert("tui_steps_title"@.len() == 15);
    reveal_strlit("tui_help_title"); assert("tui_help_title"@.len() == 14);
    reveal_strlit("tui_help_move"); assert("tui_help_move"@.len() == 13);
    reveal_strlit("tui_help_toggle"); assert("tui_help_toggle"@.len() == 15);
    reveal_strlit("tui_help_batch"); assert("tui_help_batch"@.len() == 14);
    reveal_strlit("tui_help_single"); assert("tui_help_single"@.len() == 15);
    reveal_strlit("tui_help_reauth"); assert("tui_help_reauth"@.len() == 15);
    reveal_strlit("tui_help_quit"); assert("tui_help_quit"@.len() == 13);
    reveal_strlit("tui_selected_count"); assert("tui_selected_count"@.len() == 18);
    reveal_strlit("tui_single_hint"); assert("tui_single_hint"@.len() == 15);
    reveal_strlit("tui_exec_title"); assert("tui_exec_title"@.len() == 14);
    reveal_strlit("tui_exec_running"); assert("tui_exec_running"@.len() == 16);
    reveal_strlit("tui_exec_done"); assert("tui_exec_done"@.len() == 13);
    reveal_strlit("tui_exec_skip"); assert("tui_exec_skip"@.len() == 13);
    reveal_strlit("tui_exec_failed"); assert("tui_exec_failed"@.len() == 15);
    reveal_strlit("tui_exec_interrupted"); assert("tui_exec_interrupted"@.len() == 20);
    reveal_strlit("tui_result_title"); assert("tui_result_title"@.len() == 16);
    reveal_strlit("tui_result_summary"); assert("tui_result_summary"@.len() == 18);
    reveal_strlit("tui_result_return"); assert("tui_result_return"@.len() == 17);
    reveal_strlit("tui_footer_select"); assert("tui_footer_select"@.len() == 17);
    reveal_strlit("tui_footer_exec"); assert("tui_footer_exec"@.len() == 15);
    reveal_strlit("tui_footer_summary"); assert("tui_footer_summary"@.len() == 18);
    reveal_strlit("tui_popup_username"); assert("tui_popup_username"@.len() == 18);
    reveal_strlit("tui_popup_enter_user"); assert("tui_popup_enter_user"@.len() == 20);
    reveal_strlit("tui_popup_select_user"); assert("tui_popup_select_user"@.len() == 21);
    reveal_strlit("tui_popup_select_action"); assert("tui_popup_select_action"@.len() == 23);
    reveal_strlit("tui_popup_gen_key"); assert("tui_popup_gen_key"@.len() == 17);
    reveal_strlit("tui_popup_paste_key"); assert("tui_popup_paste_key"@.len() == 19);
    reveal_strlit("tui_popup_skip"); assert("tui_popup_skip"@.len() == 14);
    reveal_strlit("tui_popup_paste_title"); assert("tui_popup_paste_title"@.len() == 21);
    reveal_strlit("tui_popup_paste_hint"); assert("tui_popup_paste_hint"@.len() == 20);
    reveal_strlit("tui_popup_overwrite_title"); assert("tui_popup_overwrite_title"@.len() == 25);
    reveal_strlit("tui_popup_overwrite_yes"); assert("tui_popup_overwrite_yes"@.len() == 23);
    reveal_strlit("tui_popup_overwrite_no"); assert("tui_popup_port_suggest"@[10] == 'p'); assert("tui_popup_overwrite_no"@[10] == 'o');
    reveal_strlit("tui_popup_new_user"); assert("tui_popup_new_user"@.len() == 18);
    reveal_strlit("tui_popup_lock_title"); assert("tui_popup_lock_title"@.len() == 20);
    reveal_strlit("tui_popup_lock_yes"); assert("tui_popup_lock_yes"@.len() == 18);
    reveal_strlit("tui_popup_lock_no"); assert("tui_popup_lock_no"@.len() == 17);
    reveal_strlit("tui_popup_port_title"); assert("tui_popup_port_title"@.len() == 20);
    reveal_strlit("{port}");
    reveal_strlit("建议端口: {port}");
    assert("建议端口: {port}"@.subrange(6, 12) =~= "{port}"@);
    assert(match_at("建议端口: {port}"@, "{port}"@, 6));
    reveal_strlit("Suggested: {port}");
    assert("Suggested: {port}"@.subrange(11, 17) =~= "{port}"@);
    assert(match_at("Suggested: {port}"@, "{port}"@, 11));
    reveal_strlit("建議連接埠: {port}");
    assert("建議連接埠: {port}"@.subrange(7, 13) =~= "{port}"@);
    assert(match_at("建議連接埠: {port}"@, "{port}"@, 7));
}

proof fn placeholders_tui_popup_port_current()
    ensures
        zh_cn_text("tui_popup_port_current"@) matches Some(t) && contains(t, "{port}"@),
        en_text("tui_popup_port_current"@) matches Some(t) && contains(t, "{port}"@),
        zh_tw_text("tui_popup_port_current"@) matches Some(t) && contains(t, "{port}"@),
{
    reveal_strlit("tui_popup_port_current"); assert("tui_popup_port_current"@.len() == 22);
    reveal_strlit("lang_en"); assert("lang_en"@.len() == 7);
    reveal_strlit("lang_zh_cn"); assert("lang_zh_cn"@.len() == 10);
    reveal_strlit("lang_zh_tw"); assert("lang_zh_tw"@.len() == 10);
    reveal_strlit("select_language"); assert("select_language"@.len() == 15);
    reveal_strlit("select_mode"); assert("select_mode"@.len() == 11);
    reveal_strlit("mode_cli"); assert("mode_cli"@.len() == 8);
    reveal_strlit("mode_tui"); assert("mode_tui"@.len() == 8);
    reveal_strlit("unknown_arg"); assert("unknown_arg"@.len() == 11);
    reveal_strlit("app_title"); assert("app_title"@.len() == 9);
    reveal_strlit("step_system_update"); assert("step_system_update"@.len() == 18);
    reveal_strlit("step_user_creation"); assert("step_user_creation"@.len() == 18);
    reveal_strlit("step_ssh_root_login"); assert("step_ssh_root_login"@.len() == 19);
    reveal_strlit("step_ssh_port_change"); assert("step_ssh_port_change"@.len() == 20);
    reveal_strlit("step_ssh_password_auth"); assert("tui_popup_port_current"@[0] == 't'); assert("step_ssh_password_auth"@[0] == 's');
    reveal_strlit("step_ssh_key_setup"); assert("step_ssh_key_setup"@.len() == 18);
    reveal_strlit("step_ufw"); assert("step_ufw"@.len() == 8);
    reveal_strlit("step_fail2ban"); assert("step_fail2ban"@.len() == 13);
    reveal_strlit("step_auto_updates"); assert("step_auto_updates"@.len() == 17);
    reveal_strlit("step_security_scan"); assert("step_security_scan"@.len() == 18);
    reveal_strlit("step_log_audit"); assert("step_log_audit"@.len() == 14);
    reveal_strlit("step_restart_ssh"); assert("step_restart_ssh"@.len() == 16);
    reveal_strlit("audit_root"); assert("audit_root"@.len() == 10);
    reveal_strlit("audit_pkg_mgr"); assert("audit_pkg_mgr"@.len() == 13);
    reveal_strlit("audit_ssh_port"); assert("audit_ssh_port"@.len() == 14);
    reveal_strlit("audit_password_auth"); assert("audit_password_auth"@.len() == 19);
    reveal_strlit("audit_root_login"); assert("audit_root_login"@.len() == 16);
    reveal_strlit("audit_sudo_users"); assert("audit_sudo_users"@.len() == 16);
    reveal_strlit("audit_fail2ban"); assert("audit_fail2ban"@.len() == 14);
    reveal_strlit("audit_ufw"); assert("audit_ufw"@.len() == 9);
    reveal_strlit("audit_auto_updates"); assert("audit_auto_updates"@.len() == 18);
    reveal_strlit("audit_sys_update"); assert("audit_sys_update"@.len() == 16);
    reveal_strlit("audit_detail_root_ok"); assert("audit_detail_root_ok"@.len() == 20);
    reveal_strlit("audit_detail_root_missing"); assert("audit_detail_root_missing"@.len() == 25);
    reveal_strlit("audit_detail_pkg"); assert("audit_detail_pkg"@.len() == 16);
    reveal_strlit("audit_detail_port_safe"); assert("tui_popup_port_current"@[0] == 't'); assert("audit_detail_port_safe"@[0] == 'a');
    reveal_strlit("audit_detail_port_missing"); assert("audit_detail_port_missing"@.len() == 25);
    reveal_strlit("audit_detail_pw_disabled"); assert("audit_detail_pw_disabled"@.len() == 24);
    reveal_strlit("audit_detail_pw_missing"); assert("audit_detail_pw_missing"@.len() == 23);
    reveal_strlit("audit_detail_root_disabled"); assert("audit_detail_root_disabled"@.len() == 26);
    reveal_strlit("audit_detail_root_missing_cfg"); assert("audit_detail_root_missing_cfg"@.len() == 29);
    reveal_strlit("audit_detail_sudo_missing"); assert("audit_detail_sudo_missing"@.len() == 25);
    reveal_strlit("audit_detail_sudo_ok"); assert("audit_detail_sudo_ok"@.len() == 20);
    reveal_strlit("audit_detail_fb_installed"); assert("audit_detail_fb_installed"@.len() == 25);
    reveal_strlit("audit_detail_fb_missing"); assert("audit_detail_fb_missing"@.len() == 23);
    reveal_strlit("audit_detail_ufw_enabled"); assert("audit_detail_ufw_enabled"@.len() == 24);
    reveal_strlit("audit_detail_ufw_missing"); assert("audit_detail_ufw_missing"@.len() == 24);
    reveal_strlit("audit_detail_au_enabled"); assert("audit_detail_au_enabled"@.len() == 23);
    reveal_strlit("audit_detail_au_missing"); assert("audit_detail_au_missing"@.len() == 23);
    reveal_strlit("audit_detail_sys_uptodate"); assert("audit_detail_sys_uptodate"@.len() == 25);
    reveal_strlit("audit_detail_sys_needs_update"); assert("audit_detail_sys_needs_update"@.len() == 29);
    reveal_strlit("status_safe"); assert("status_safe"@.len() == 11);
    reveal_strlit("status_partial"); assert("status_partial"@.len() == 14);
    reveal_strlit("status_missing"); assert("status_missing"@.len() == 14);
    reveal_strlit("status_needs_update"); assert("status_needs_update"@.len() == 19);
    reveal_strlit("pkg_apt"); assert("pkg_apt"@.len() == 7);
    reveal_strlit("pkg_yum"); assert("pkg_yum"@.len() == 7);
    reveal_strlit("pkg_dnf"); assert("pkg_dnf"@.len() == 7);
    reveal_strlit("pkg_unknown"); assert("pkg_unknown"@.len() == 11);
    reveal_strlit("err_permission_denied"); assert("err_permission_denied"@.len() == 21);
    reveal_strlit("err_cmd_failed"); assert("err_cmd_failed"@.len() == 14);
    reveal_strlit("err_parse_error"); assert("err_parse_error"@.len() == 15);
    reveal_strlit("err_precondition_failed"); assert("err_precondition_failed"@.len() == 23);
    reveal_strlit("err_user_aborted"); assert("err_user_aborted"@.len() == 16);
    reveal_strlit("err_unknown_pkg_mgr"); assert("err_unknown_pkg_mgr"@.len() == 19);
    reveal_strlit("err_unsupported_pkg"); assert("err_unsupported_pkg"@.len() == 19);
    reveal_strlit("err_auto_update_only_debian"); assert("err_auto_update_only_debian"@.len() == 27);
    reveal_strlit("err_unknown_pkg_lynis"); assert("err_unknown_pkg_lynis"@.len() == 21);
    reveal_strlit("err_sshd_not_found"); assert("err_sshd_not_found"@.len() == 18);
    reveal_strlit("err_no_username"); assert("err_no_username"@.len() == 15);
    reveal_strlit("err_user_exists"); assert("err_user_exists"@.len() == 15);
    reveal_strlit("err_no_sudo_before_root"); assert("err_no_sudo_before_root"@.len() == 23);
    reveal_strlit("err_no_ssh_port"); assert("err_no_ssh_port"@.len() == 15);
    reveal_strlit("err_port_zero"); assert("err_port_zero"@.len() == 13);
    reveal_strlit("err_no_sudo_before_pw"); assert("err_no_sudo_before_pw"@.len() == 21);
    reveal_strlit("err_no_target_user"); assert("err_no_target_user"@.len() == 18);
    reveal_strlit("err_no_key_action"); assert("err_no_key_action"@.len() == 17);
    reveal_strlit("err_update_failed"); assert("err_update_failed"@.len() == 17);
    reveal_strlit("err_upgrade_failed"); assert("err_upgrade_failed"@.len() == 18);
    reveal_strlit("err_ufw_allow_failed"); assert("err_ufw_allow_failed"@.len() == 20);
    reveal_strlit("err_ufw_enable_failed"); assert("err_ufw_enable_failed"@.len() == 21);
    reveal_strlit("err_install_fail2ban"); assert("err_install_fail2ban"@.len() == 20);
    reveal_strlit("err_install_unattended"); assert("tui_popup_port_current"@[0] == 't'); assert("err_install_unattended"@[0] == 'e');
    reveal_strlit("err_lynis_exec"); assert("err_lynis_exec"@.len() == 14);
    reveal_strlit("err_sshd_check"); assert("err_sshd_check"@.len() == 14);
    reveal_strlit("err_sshd_syntax"); assert("err_sshd_syntax"@.len() == 15);
    reveal_strlit("err_ssh_restart"); assert("err_ssh_restart"@.len() == 15);
    reveal_strlit("err_backup"); assert("err_backup"@.len() == 10);
    reveal_strlit("err_read"); assert("err_read"@.len() == 8);
    reveal_strlit("err_write"); assert("err_write"@.len() == 9);
    reveal_strlit("err_setup_signal"); assert("err_setup_signal"@.len() == 16);
    reveal_strlit("result_sys_updated"); assert("result_sys_updated"@.len() == 18);
    reveal_strlit("result_user_created"); assert("result_user_created"@.len() == 19);
    reveal_strlit("result_root_login_set"); assert("result_root_login_set"@.len() == 21);
    reveal_strlit("result_ssh_port_set"); assert("result_ssh_port_set"@.len() == 19);
    reveal_strlit("result_pw_auth_disabled"); assert("result_pw_auth_disabled"@.len() == 23);
    reveal_strlit("result_key_generated"); assert("result_key_generated"@.len() == 20);
    reveal_strlit("result_key_pasted"); assert("result_key_pasted"@.len() == 17);
    reveal_strlit("result_ufw_enabled"); assert("result_ufw_enabled"@.len() == 18);
    reveal_strlit("result_fail2ban_installed"); assert("result_fail2ban_installed"@.len() == 25);
    reveal_strlit("result_auto_updates_enabled"); assert("result_auto_updates_enabled"@.len() == 27);
    reveal_strlit("result_lynis_ok"); assert("result_lynis_ok"@.len() == 15);
    reveal_strlit("result_lynis_fail"); assert("result_lynis_fail"@.len() == 17);
    reveal_strlit("result_logwatch_installed"); assert("result_logwatch_installed"@.len() == 25);
    reveal_strlit("result_ssh_restarted"); assert("result_ssh_restarted"@.len() == 20);
    reveal_strlit("result_sshd_cfg_set"); assert("result_sshd_cfg_set"@.len() == 19);
    reveal_strlit("result_sshd_syntax_ok"); assert("result_sshd_syntax_ok"@.len() == 21);
    reveal_strlit("result_sshd_syntax_err"); assert("tui_popup_port_current"@[0] == 't'); assert("result_sshd_syntax_err"@[0] == 'r');
    reveal_strlit("log_audit"); assert("log_audit"@.len() == 9);
    reveal_strlit("log_operation"); assert("log_operation"@.len() == 13);
    reveal_strlit("log_rollback"); assert("log_rollback"@.len() == 12);
    reveal_strlit("log_audit_start"); assert("log_audit_start"@.len() == 15);
    reveal_strlit("log_audit_done"); assert("log_audit_done"@.len() == 14);
    reveal_strlit("log_step_start"); assert("log_step_start"@.len() == 14);
    reveal_strlit("log_step_complete"); assert("log_step_complete"@.len() == 17);
    reveal_strlit("log_step_failed"); assert("log_step_failed"@.len() == 15);
    reveal_strlit("log_rollback_auto"); assert("log_rollback_auto"@.len() == 17);
    reveal_strlit("undo_user_remove"); assert("undo_user_remove"@.len() == 16);
    reveal_strlit("undo_pkg_remove"); assert("undo_pkg_remove"@.len() == 15);
    reveal_strlit("undo_cmd"); assert("undo_cmd"@.len() == 8);
    reveal_strlit("undo_file_restore"); assert("undo_file_restore"@.len() == 17);
    reveal_strlit("undo_ufw_disable"); assert("undo_ufw_disable"@.len() == 16);
    reveal_strlit("undo_ufw_delete"); assert("undo_ufw_delete"@.len() == 15);
    reveal_strlit("undo_key_delete"); assert("undo_key_delete"@.len() == 15);
    reveal_strlit("cli_welcome"); assert("cli_welcome"@.len() == 11);
    reveal_strlit("cli_auditing"); assert("cli_auditing"@.len() == 12);
    reveal_strlit("cli_audit_done"); assert("cli_audit_done"@.len() == 14);
    reveal_strlit("cli_select_steps"); assert("cli_select_steps"@.len() == 16);
    reveal_strlit("cli_hint_nav"); assert("cli_hint_nav"@.len() == 12);
    reveal_strlit("cli_collecting"); assert("cli_collecting"@.len() == 14);
    reveal_strlit("cli_will_execute"); assert("cli_will_execute"@.len() == 16);
    reveal_strlit("cli_confirm"); assert("cli_confirm"@.len() == 11);
    reveal_strlit("cli_cancelled"); assert("cli_cancelled"@.len() == 13);
    reveal_strlit("cli_no_selection"); assert("cli_no_selection"@.len() == 16);
    reveal_strlit("cli_executing"); assert("cli_executing"@.len() == 13);
    reveal_strlit("cli_summary_title"); assert("cli_summary_title"@.len() == 17);
    reveal_strlit("cli_summary_total"); assert("cli_summary_total"@.len() == 17);
    reveal_strlit("cli_log_saved"); assert("cli_log_saved"@.len() == 13);
    reveal_strlit("cli_create_user"); assert("cli_create_user"@.len() == 15);
    reveal_strlit("cli_username_prompt"); assert("cli_username_prompt"@.len() == 19);
    reveal_strlit("cli_username_empty"); assert("cli_username_empty"@.len() == 18);
    reveal_strlit("cli_username_exists"); assert("cli_username_exists"@.len() == 19);
    reveal_strlit("cli_username_invalid"); assert("cli_username_invalid"@.len() == 20);
    reveal_strlit("cli_lock_pw"); assert("cli_lock_pw"@.len() == 11);
    reveal_strlit("cli_current_port"); assert("cli_current_port"@.len() == 16);
    reveal_strlit("cli_default_port"); assert("cli_default_port"@.len() == 16);
    reveal_strlit("cli_suggest_port"); assert("cli_suggest_port"@.len() == 16);
    reveal_strlit("cli_port_prompt"); assert("cli_port_prompt"@.len() == 15);
    reveal_strlit("cli_port_invalid"); assert("cli_port_invalid"@.len() == 16);
    reveal_strlit("cli_port_zero"); assert("cli_port_zero"@.len() == 13);
    reveal_strlit("cli_existing_sudo"); assert("cli_existing_sudo"@.len() == 17);
    reveal_strlit("cli_no_sudo"); assert("cli_no_sudo"@.len() == 11);
    reveal_strlit("cli_manual_user"); assert("cli_manual_user"@.len() == 15);
    reveal_strlit("cli_user_prompt"); assert("cli_user_prompt"@.len() == 15);
    reveal_strlit("cli_no_input"); assert("cli_no_input"@.len() == 12);
    reveal_strlit("cli_select_user"); assert("cli_select_user"@.len() == 15);
    reveal_strlit("cli_key_found"); assert("cli_key_found"@.len() == 13);
    reveal_strlit("cli_key_action"); assert("cli_key_action"@.len() == 14);
    reveal_strlit("cli_key_generate"); assert("cli_key_generate"@.len() == 16);
    reveal_strlit("cli_key_paste"); assert("cli_key_paste"@.len() == 13);
    reveal_strlit("cli_key_skip"); assert("cli_key_skip"@.len() == 12);
    reveal_strlit("cli_key_prompt"); assert("cli_key_prompt"@.len() == 14);
    reveal_strlit("cli_ssh_port_info"); assert("cli_ssh_port_info"@.len() == 17);
    reveal_strlit("cli_ssh_suggest_info"); assert("cli_ssh_suggest_info"@.len() == 20);
    reveal_strlit("tui_title"); assert("tui_title"@.len() == 9);
    reveal_strlit("tui_audit_report"); assert("tui_audit_report"@.len() == 16);
    reveal_strlit("tui_steps_title"); assert("tui_steps_title"@.len() == 15);
    reveal_strlit("tui_help_title"); assert("tui_help_title"@.len() == 14);
    reveal_strlit("tui_help_move"); assert("tui_help_move"@.len() == 13);
    reveal_strlit("tui_help_toggle"); assert("tui_help_toggle"@.len() == 15);
    reveal_strlit("tui_help_batch"); assert("tui_help_batch"@.len() == 14);
    reveal_strlit("tui_help_single"); assert("tui_help_single"@.len() == 15);
    reveal_strlit("tui_help_reauth"); assert("tui_help_reauth"@.len() == 15);
    reveal_strlit("tui_help_quit"); assert("tui_help_quit"@.len() == 13);
    reveal_strlit("tui_selected_count"); assert("tui_selected_count"@.len() == 18);
    reveal_strlit("tui_single_hint"); assert("tui_single_hint"@.len() == 15);
    reveal_strlit("tui_exec_title"); assert("tui_exec_title"@.len() == 14);
    reveal_strlit("tui_exec_running"); assert("tui_exec_running"@.len() == 16);
    reveal_strlit("tui_exec_done"); assert("tui_exec_done"@.len() == 13);
    reveal_strlit("tui_exec_skip"); assert("tui_exec_skip"@.len() == 13);
    reveal_strlit("tui_exec_failed"); assert("tui_exec_failed"@.len() == 15);
    reveal_strlit("tui_exec_interrupted"); assert("tui_exec_interrupted"@.len() == 20);
    reveal_strlit("tui_result_title"); assert("tui_result_title"@.len() == 16);
    reveal_strlit("tui_result_summary"); assert("tui_result_summary"@.len() == 18);
    reveal_strlit("tui_result_return"); assert("tui_result_return"@.len() == 17);
    reveal_strlit("tui_footer_select"); assert("tui_footer_select"@.len() == 17);
    reveal_strlit("tui_footer_exec"); assert("tui_footer_exec"@.len() == 15);
    reveal_strlit("tui_footer_summary"); assert("tui_footer_summary"@.len() == 18);
    reveal_strlit("tui_popup_username"); assert("tui_popup_username"@.len() == 18);
    reveal_strlit("tui_popup_enter_user"); assert("tui_popup_enter_user"@.len() == 20);
    reveal_strlit("tui_popup_select_user"); assert("tui_popup_select_user"@.len() == 21);
    reveal_strlit("tui_popup_select_action"); assert("tui_popup_select_action"@.len() == 23);
    reveal_strlit("tui_popup_gen_key"); assert("tui_popup_gen_key"@.len() == 17);
    reveal_strlit("tui_popup_paste_key"); assert("tui_popup_paste_key"@.len() == 19);
    reveal_strlit("tui_popup_skip"); assert("tui_popup_skip"@.len() == 14);
    reveal_strlit("tui_popup_paste_title"); assert("tui_popup_paste_title"@.len() == 21);
    reveal_strlit("tui_popup_paste_hint"); assert("tui_popup_paste_hint"@.len() == 20);
    reveal_strlit("tui_popup_overwrite_title"); assert("tui_popup_overwrite_title"@.len() == 25);
    reveal_strlit("tui_popup_overwrite_yes"); assert("tui_popup_overwrite_yes"@.len() == 23);
    reveal_strlit("tui_popup_overwrite_no"); assert("tui_popup_port_current"@[10] == 'p'); assert("tui_popup_overwrite_no"@[10] == 'o');
    reveal_strlit("tui_popup_new_user"); assert("tui_popup_new_user"@.len() == 18);
    reveal_strlit("tui_popup_lock_title"); assert("tui_popup_lock_title"@.len() == 20);
    reveal_strlit("tui_popup_lock_yes"); assert("tui_popup_lock_yes"@.len() == 18);
    reveal_strlit("tui_popup_lock_no"); assert("tui_popup_lock_no"@.len() == 17);
    reveal_strlit("tui_popup_port_title"); assert("tui_popup_port_title"@.len() == 20);
    reveal_strlit("tui_popup_port_suggest"); assert("tui_popup_port_current"@[15] == 'c'); assert("tui_popup_port_suggest"@[15] == 's');
    reveal_strlit("{port}");
    reveal_strlit("当前: {port}");
    assert("当前: {port}"@.subrange(4, 10) =~= "{port}"@);
    assert(match_at("当前: {port}"@, "{port}"@, 4));
    reveal_strlit("Current: {port}");
    assert("Current: {port}"@.subrange(9, 15) =~= "{port}"@);
    assert(match_at("Current: {port}"@, "{port}"@, 9));
    reveal_strlit("當前: {port}");
    assert("當前: {port}"@.subrange(4, 10) =~= "{port}"@);
    assert(match_at("當前: {port}"@, "{port}"@, 4));
}

proof fn placeholders_log_running()
    ensures
        zh_cn_text("log_running"@) matches Some(t) && contains(t, "{step}"@),
        en_text("log_running"@) matches Some(t) && contains(t, "{step}"@),
        zh_tw_text("log_running"@) matches Some(t) && contains(t, "{step}"@),
{
    reveal_strlit("log_running"); assert("log_running"@.len() == 11);
    reveal_strlit("lang_en"); assert("lang_en"@.len() == 7);
    reveal_strlit("lang_zh_cn"); assert("lang_zh_cn"@.len() == 10);
    reveal_strlit("lang_zh_tw"); assert("lang_zh_tw"@.len() == 10);
    reveal_strlit("select_language"); assert("select_language"@.len() == 15);
    reveal_strlit("select_mode"); assert("log_running"@[0] == 'l'); assert("select_mode"@[0] == 's');
    reveal_strlit("mode_cli"); assert("mode_cli"@.len() == 8);
    reveal_strlit("mode_tui"); assert("mode_tui"@.len() == 8);
    reveal_strlit("unknown_arg"); assert("log_running"@[0] == 'l'); assert("unknown_arg"@[0] == 'u');
    reveal_strlit("app_title"); assert("app_title"@.len() == 9);
    reveal_strlit("step_system_update"); assert("step_system_update"@.len() == 18);
    reveal_strlit("step_user_creation"); assert("step_user_creation"@.len() == 18);
    reveal_strlit("step_ssh_root_login"); assert("step_ssh_root_login"@.len() == 19);
    reveal_strlit("step_ssh_port_change"); assert("step_ssh_port_change"@.len() == 20);
    reveal_strlit("step_ssh_password_auth"); assert("step_ssh_password_auth"@.len() == 22);
    reveal_strlit("step_ssh_key_setup"); assert("step_ssh_key_setup"@.len() == 18);
    reveal_strlit("step_ufw"); assert("step_ufw"@.len() == 8);
    reveal_strlit("step_fail2ban"); assert("step_fail2ban"@.len() == 13);
    reveal_strlit("step_auto_updates"); assert("step_auto_updates"@.len() == 17);
    reveal_strlit("step_security_scan"); assert("step_security_scan"@.len() == 18);
    reveal_strlit("step_log_audit"); assert("step_log_audit"@.len() == 14);
    reveal_strlit("step_restart_ssh"); assert("step_restart_ssh"@.len() == 16);
    reveal_strlit("audit_root"); assert("audit_root"@.len() == 10);
    reveal_strlit("audit_pkg_mgr"); assert("audit_pkg_mgr"@.len() == 13);
    reveal_strlit("audit_ssh_port"); assert("audit_ssh_port"@.len() == 14);
    reveal_strlit("audit_password_auth"); assert("audit_password_auth"@.len() == 19);
    reveal_strlit("audit_root_login"); assert("audit_root_login"@.len() == 16);
    reveal_strlit("audit_sudo_users"); assert("audit_sudo_users"@.len() == 16);
    reveal_strlit("audit_fail2ban"); assert("audit_fail2ban"@.len() == 14);
    reveal_strlit("audit_ufw"); assert("audit_ufw"@.len() == 9);
    reveal_strlit("audit_auto_updates"); assert("audit_auto_updates"@.len() == 18);
    reveal_strlit("audit_sys_update"); assert("audit_sys_update"@.len() == 16);
    reveal_strlit("audit_detail_root_ok"); assert("audit_detail_root_ok"@.len() == 20);
    reveal_strlit("audit_detail_root_missing"); assert("audit_detail_root_missing"@.len() == 25);
    reveal_strlit("audit_detail_pkg"); assert("audit_detail_pkg"@.len() == 16);
    reveal_strlit("audit_detail_port_safe"); assert("audit_detail_port_safe"@.len() == 22);
    reveal_strlit("audit_detail_port_missing"); assert("audit_detail_port_missing"@.len() == 25);
    reveal_strlit("audit_detail_pw_disabled"); assert("audit_detail_pw_disabled"@.len() == 24);
    reveal_strlit("audit_detail_pw_missing"); assert("audit_detail_pw_missing"@.len() == 23);
    reveal_strlit("audit_detail_root_disabled"); assert("audit_detail_root_disabled"@.len() == 26);
    reveal_strlit("audit_detail_root_missing_cfg"); assert("audit_detail_root_missing_cfg"@.len() == 29);
    reveal_strlit("audit_detail_sudo_missing"); assert("audit_detail_sudo_missing"@.len() == 25);
    reveal_strlit("audit_detail_sudo_ok"); assert("audit_detail_sudo_ok"@.len() == 20);
    reveal_strlit("audit_detail_fb_installed"); assert("audit_detail_fb_installed"@.len() == 25);
    reveal_strlit("audit_detail_fb_missing"); assert("audit_detail_fb_missing"@.len() == 23);
    reveal_strlit("audit_detail_ufw_enabled"); assert("audit_detail_ufw_enabled"@.len() == 24);
    reveal_strlit("audit_detail_ufw_missing"); assert("audit_detail_ufw_missing"@.len() == 24);
    reveal_strlit("audit_detail_au_enabled"); assert("audit_detail_au_enabled"@.len() == 23);
    reveal_strlit("audit_detail_au_missing"); assert("audit_detail_au_missing"@.len() == 23);
    reveal_strlit("audit_detail_sys_uptodate"); assert("audit_detail_sys_uptodate"@.len() == 25);
    reveal_strlit("audit_detail_sys_needs_update"); assert("audit_detail_sys_needs_update"@.len() == 29);
    reveal_strlit("status_safe"); assert("log_running"@[0] == 'l'); assert("status_safe"@[0] == 's');
    reveal_strlit("status_partial"); assert("status_partial"@.len() == 14);
    reveal_strlit("status_missing"); assert("status_missing"@.len() == 14);
    reveal_strlit("status_needs_update"); assert("status_needs_update"@.len() == 19);
    reveal_strlit("pkg_apt"); assert("pkg_apt"@.len() == 7);
    reveal_strlit("pkg_yum"); assert("pkg_yum"@.len() == 7);
    reveal_strlit("pkg_dnf"); assert("pkg_dnf"@.len() == 7);
    reveal_strlit("pkg_unknown"); assert("log_running"@[0] == 'l'); assert("pkg_unknown"@[0] == 'p');
    reveal_strlit("err_permission_denied"); assert("err_permission_denied"@.len() == 21);
    reveal_strlit("err_cmd_failed"); assert("err_cmd_failed"@.len() == 14);
    reveal_strlit("err_parse_error"); assert("err_parse_error"@.len() == 15);
    reveal_strlit("err_precondition_failed"); assert("err_precondition_failed"@.len() == 23);
    reveal_strlit("err_user_aborted"); assert("err_user_aborted"@.len() == 16);
    reveal_strlit("err_unknown_pkg_mgr"); assert("err_unknown_pkg_mgr"@.len() == 19);
    reveal_strlit("err_unsupported_pkg"); assert("err_unsupported_pkg"@.len() == 19);
    reveal_strlit("err_auto_update_only_debian"); assert("err_auto_update_only_debian"@.len() == 27);
    reveal_strlit("err_unknown_pkg_lynis"); assert("err_unknown_pkg_lynis"@.len() == 21);
    reveal_strlit("err_sshd_not_found"); assert("err_sshd_not_found"@.len() == 18);
    reveal_strlit("err_no_username"); assert("err_no_username"@.len() == 15);
    reveal_strlit("err_user_exists"); assert("err_user_exists"@.len() == 15);
    reveal_strlit("err_no_sudo_before_root"); assert("err_no_sudo_before_root"@.len() == 23);
    reveal_strlit("err_no_ssh_port"); assert("err_no_ssh_port"@.len() == 15);
    reveal_strlit("err_port_zero"); assert("err_port_zero"@.len() == 13);
    reveal_strlit("err_no_sudo_before_pw"); assert("err_no_sudo_before_pw"@.len() == 21);
    reveal_strlit("err_no_target_user"); assert("err_no_target_user"@.len() == 18);
    reveal_strlit("err_no_key_action"); assert("err_no_key_action"@.len() == 17);
    reveal_strlit("err_update_failed"); assert("err_update_failed"@.len() == 17);
    reveal_strlit("err_upgrade_failed"); assert("err_upgrade_failed"@.len() == 18);
    reveal_strlit("err_ufw_allow_failed"); assert("err_ufw_allow_failed"@.len() == 20);
    reveal_strlit("err_ufw_enable_failed"); assert("err_ufw_enable_failed"@.len() == 21);
    reveal_strlit("err_install_fail2ban"); assert("err_install_fail2ban"@.len() == 20);
    reveal_strlit("err_install_unattended"); assert("err_install_unattended"@.len() == 22);
    reveal_strlit("err_lynis_exec"); assert("err_lynis_exec"@.len() == 14);
    reveal_strlit("err_sshd_check"); assert("err_sshd_check"@.len() == 14);
    reveal_strlit("err_sshd_syntax"); assert("err_sshd_syntax"@.len() == 15);
    reveal_strlit("err_ssh_restart"); assert("err_ssh_restart"@.len() == 15);
    reveal_strlit("err_backup"); assert("err_backup"@.len() == 10);
    reveal_strlit("err_read"); assert("err_read"@.len() == 8);
    reveal_strlit("err_write"); assert("err_write"@.len() == 9);
    reveal_strlit("err_setup_signal"); assert("err_setup_signal"@.len() == 16);
    reveal_strlit("result_sys_updated"); assert("result_sys_updated"@.len() == 18);
    reveal_strlit("result_user_created"); assert("result_user_created"@.len() == 19);
    reveal_strlit("result_root_login_set"); assert("result_root_login_set"@.len() == 21);
    reveal_strlit("result_ssh_port_set"); assert("result_ssh_port_set"@.len() == 19);
    reveal_strlit("result_pw_auth_disabled"); assert("result_pw_auth_disabled"@.len() == 23);
    reveal_strlit("result_key_generated"); assert("result_key_generated"@.len() == 20);
    reveal_strlit("result_key_pasted"); assert("result_key_pasted"@.len() == 17);
    reveal_strlit("result_ufw_enabled"); assert("result_ufw_enabled"@.len() == 18);
    reveal_strlit("result_fail2ban_installed"); assert("result_fail2ban_installed"@.len() == 25);
    reveal_strlit("result_auto_updates_enabled"); assert("result_auto_updates_enabled"@.len() == 27);
    reveal_strlit("result_lynis_ok"); assert("result_lynis_ok"@.len() == 15);
    reveal_strlit("result_lynis_fail"); assert("result_lynis_fail"@.len() == 17);
    reveal_strlit("result_logwatch_installed"); assert("result_logwatch_installed"@.len() == 25);
    reveal_strlit("result_ssh_restarted"); assert("result_ssh_restarted"@.len() == 20);
    reveal_strlit("result_sshd_cfg_set"); assert("result_sshd_cfg_set"@.len() == 19);
    reveal_strlit("result_sshd_syntax_ok"); assert("result_sshd_syntax_ok"@.len() == 21);
    reveal_strlit("result_sshd_syntax_err"); assert("result_sshd_syntax_err"@.len() == 22);
    reveal_strlit("log_audit"); assert("log_audit"@.len() == 9);
    reveal_strlit("log_operation"); assert("log_operation"@.len() == 13);
    reveal_strlit("log_rollback"); assert("log_rollback"@.len() == 12);
    reveal_strlit("log_audit_start"); assert("log_audit_start"@.len() == 15);
    reveal_strlit("log_audit_done"); assert("log_audit_done"@.len() == 14);
    reveal_strlit("log_step_start"); assert("log_step_start"@.len() == 14);
    reveal_strlit("log_step_complete"); assert("log_step_complete"@.len() == 17);
    reveal_strlit("log_step_failed"); assert("log_step_failed"@.len() == 15);
    reveal_strlit("log_rollback_auto"); assert("log_rollback_auto"@.len() == 17);
    reveal_strlit("undo_user_remove"); assert("undo_user_remove"@.len() == 16);
    reveal_strlit("undo_pkg_remove"); assert("undo_pkg_remove"@.len() == 15);
    reveal_strlit("undo_cmd"); assert("undo_cmd"@.len() == 8);
    reveal_strlit("undo_file_restore"); assert("undo_file_restore"@.len() == 17);
    reveal_strlit("undo_ufw_disable"); assert("undo_ufw_disable"@.len() == 16);
    reveal_strlit("undo_ufw_delete"); assert("undo_ufw_delete"@.len() == 15);
    reveal_strlit("undo_key_delete"); assert("undo_key_delete"@.len() == 15);
    reveal_strlit("cli_welcome"); assert("log_running"@[0] == 'l'); assert("cli_welcome"@[0] == 'c');
    reveal_strlit("cli_auditing"); assert("cli_auditing"@.len() == 12);
    reveal_strlit("cli_audit_done"); assert("cli_audit_done"@.len() == 14);
    reveal_strlit("cli_select_steps"); assert("cli_select_steps"@.len() == 16);
    reveal_strlit("cli_hint_nav"); assert("cli_hint_nav"@.len() == 12);
    reveal_strlit("cli_collecting"); assert("cli_collecting"@.len() == 14);
    reveal_strlit("cli_will_execute"); assert("cli_will_execute"@.len() == 16);
    reveal_strlit("cli_confirm"); assert("log_running"@[0] == 'l'); assert("cli_confirm"@[0] == 'c');
    reveal_strlit("cli_cancelled"); assert("cli_cancelled"@.len() == 13);
    reveal_strlit("cli_no_selection"); assert("cli_no_selection"@.len() == 16);
    reveal_strlit("cli_executing"); assert("cli_executing"@.len() == 13);
    reveal_strlit("cli_summary_title"); assert("cli_summary_title"@.len() == 17);
    reveal_strlit("cli_summary_total"); assert("cli_summary_total"@.len() == 17);
    reveal_strlit("cli_log_saved"); assert("cli_log_saved"@.len() == 13);
    reveal_strlit("cli_create_user"); assert("cli_create_user"@.len() == 15);
    reveal_strlit("cli_username_prompt"); assert("cli_username_prompt"@.len() == 19);
    reveal_strlit("cli_username_empty"); assert("cli_username_empty"@.len() == 18);
    reveal_strlit("cli_username_exists"); assert("cli_username_exists"@.len() == 19);
    reveal_strlit("cli_username_invalid"); assert("cli_username_invalid"@.len() == 20);
    reveal_strlit("cli_lock_pw"); assert("log_running"@[0] == 'l'); assert("cli_lock_pw"@[0] == 'c');
    reveal_strlit("cli_current_port"); assert("cli_current_port"@.len() == 16);
    reveal_strlit("cli_default_port"); assert("cli_default_port"@.len() == 16);
    reveal_strlit("cli_suggest_port"); assert("cli_suggest_port"@.len() == 16);
    reveal_strlit("cli_port_prompt"); assert("cli_port_prompt"@.len() == 15);
    reveal_strlit("cli_port_invalid"); assert("cli_port_invalid"@.len() == 16);
    reveal_strlit("cli_port_zero"); assert("cli_port_zero"@.len() == 13);
    reveal_strlit("cli_existing_sudo"); assert("cli_existing_sudo"@.len() == 17);
    reveal_strlit("cli_no_sudo"); assert("log_running"@[0] == 'l'); assert("cli_no_sudo"@[0] == 'c');
    reveal_strlit("cli_manual_user"); assert("cli_manual_user"@.len() == 15);
    reveal_strlit("cli_user_prompt"); assert("cli_user_prompt"@.len() == 15);
    reveal_strlit("cli_no_input"); assert("cli_no_input"@.len() == 12);
    reveal_strlit("cli_select_user"); assert("cli_select_user"@.len() == 15);
    reveal_strlit("cli_key_found"); assert("cli_key_found"@.len() == 13);
    reveal_strlit("cli_key_action"); assert("cli_key_action"@.len() == 14);
    reveal_strlit("cli_key_generate"); assert("cli_key_generate"@.len() == 16);
    reveal_strlit("cli_key_paste"); assert("cli_key_paste"@.len() == 13);
    reveal_strlit("cli_key_skip"); assert("cli_key_skip"@.len() == 12);
    reveal_strlit("cli_key_prompt"); assert("cli_key_prompt"@.len() == 14);
    reveal_strlit("cli_ssh_port_info"); assert("cli_ssh_port_info"@.len() == 17);
    reveal_strlit("cli_ssh_suggest_info"); assert("cli_ssh_suggest_info"@.len() == 20);
    reveal_strlit("tui_title"); assert("tui_title"@.len() == 9);
    reveal_strlit("tui_audit_report"); assert("tui_audit_report"@.len() == 16);
    reveal_strlit("tui_steps_title"); assert("tui_steps_title"@.len() == 15);
    reveal_strlit("tui_help_title"); assert("tui_help_title"@.len() == 14);
    reveal_strlit("tui_help_move"); assert("tui_help_move"@.len() == 13);
    reveal_strlit("tui_help_toggle"); assert("tui_help_toggle"@.len() == 15);
    reveal_strlit("tui_help_batch"); assert("tui_help_batch"@.len() == 14);
    reveal_strlit("tui_help_single"); assert("tui_help_single"@.len() == 15);
    reveal_strlit("tui_help_reauth"); assert("tui_help_reauth"@.len() == 15);
    reveal_strlit("tui_help_quit"); assert("tui_help_quit"@.len() == 13);
    reveal_strlit("tui_selected_count"); assert("tui_selected_count"@.len() == 18);
    reveal_strlit("tui_single_hint"); assert("tui_single_hint"@.len() == 15);
    reveal_strlit("tui_exec_title"); assert("tui_exec_title"@.len() == 14);
    reveal_strlit("tui_exec_running"); assert("tui_exec_running"@.len() == 16);
    reveal_strlit("tui_exec_done"); assert("tui_exec_done"@.len() == 13);
    reveal_strlit("tui_exec_skip"); assert("tui_exec_skip"@.len() == 13);
    reveal_strlit("tui_exec_failed"); assert("tui_exec_failed"@.len() == 15);
    reveal_strlit("tui_exec_interrupted"); assert("tui_exec_interrupted"@.len() == 20);
    reveal_strlit("tui_result_title"); assert("tui_result_title"@.len() == 16);
    reveal_strlit("tui_result_summary"); assert("tui_result_summary"@.len() == 18);
    reveal_strlit("tui_result_return"); assert("tui_result_return"@.len() == 17);
    reveal_strlit("tui_footer_select"); assert("tui_footer_select"@.len() == 17);
    reveal_strlit("tui_footer_exec"); assert("tui_footer_exec"@.len() == 15);
    reveal_strlit("tui_footer_summary"); assert("tui_footer_summary"@.len() == 18);
    reveal_strlit("tui_popup_username"); assert("tui_popup_username"@.len() == 18);
    reveal_strlit("tui_popup_enter_user"); assert("tui_popup_enter_user"@.len() == 20);
    reveal_strlit("tui_popup_select_user"); assert("tui_popup_select_user"@.len() == 21);
    reveal_strlit("tui_popup_select_action"); assert("tui_popup_select_action"@.len() == 23);
    reveal_strlit("tui_popup_gen_key"); assert("tui_popup_gen_key"@.len() == 17);
    reveal_strlit("tui_popup_paste_key"); assert("tui_popup_paste_key"@.len() == 19);
    reveal_strlit("tui_popup_skip"); assert("tui_popup_skip"@.len() == 14);
    reveal_strlit("tui_popup_paste_title"); assert("tui_popup_paste_title"@.len() == 21);
    reveal_strlit("tui_popup_paste_hint"); assert("tui_popup_paste_hint"@.len() == 20);
    reveal_strlit("tui_popup_overwrite_title"); assert("tui_popup_overwrite_title"@.len() == 25);
    reveal_strlit("tui_popup_overwrite_yes"); assert("tui_popup_overwrite_yes"@.len() == 23);
    reveal_strlit("tui_popup_overwrite_no"); assert("tui_popup_overwrite_no"@.len() == 22);
    reveal_strlit("tui_popup_new_user"); assert("tui_popup_new_user"@.len() == 18);
    reveal_strlit("tui_popup_lock_title"); assert("tui_popup_lock_title"@.len() == 20);
    reveal_strlit("tui_popup_lock_yes"); assert("tui_popup_lock_yes"@.len() == 18);
    reveal_strlit("tui_popup_lock_no"); assert("tui_popup_lock_no"@.len() == 17);
    reveal_strlit("tui_popup_port_title"); assert("tui_popup_port_title"@.len() == 20);
    reveal_strlit("tui_popup_port_suggest"); assert("tui_popup_port_suggest"@.len() == 22);
    reveal_strlit("tui_popup_port_current"); assert("tui_popup_port_current"@.len() == 22);
    reveal_strlit("tui_popup_port_placeholder"); assert("tui_popup_port_placeholder"@.len() == 26);
    reveal_strlit("tui_popup_enter"); assert("tui_popup_enter"@.len() == 15);
    reveal_strlit("tui_popup_esc"); assert("tui_popup_esc"@.len() == 13);
    reveal_strlit("tui_popup_esc_back"); assert("tui_popup_esc_back"@.len() == 18);
    reveal_strlit("tui_popup_updown"); assert("tui_popup_updown"@.len() == 16);
    reveal_strlit("tui_popup_enter_confirm"); assert("tui_popup_enter_confirm"@.len() == 23);
    reveal_strlit("tui_hint_enter_esc"); assert("tui_hint_enter_esc"@.len() == 18);
    reveal_strlit("tui_hint_updown_enter_esc"); assert("tui_hint_updown_enter_esc"@.len() == 25);
    reveal_strlit("tui_hint_enter_esc_back"); assert("tui_hint_enter_esc_back"@.len() == 23);
    reveal_strlit("tui_hint_updown_enter_esc_back"); assert("tui_hint_updown_enter_esc_back"@.len() == 30);
    reveal_strlit("tui_step_status_running"); assert("tui_step_status_running"@.len() == 23);
    reveal_strlit("tui_step_status_done"); assert("tui_step_status_done"@.len() == 20);
    reveal_strlit("tui_step_status_failed"); assert("tui_step_status_failed"@.len() == 22);
    reveal_strlit("{step}");
    reveal_strlit("正在执行: {step}");
    assert("正在执行: {step}"@.subrange(6, 12) =~= "{step}"@);
    assert(match_at("正在执行: {step}"@, "{step}"@, 6));
    reveal_strlit("Running: {step}");
    assert("Running: {step}"@.subrange(9, 15) =~= "{step}"@);
    assert(match_at("Running: {step}"@, "{step}"@, 9));
    reveal_strlit("正在執行: {step}");
    assert("正在執行: {step}"@.subrange(6, 12) =~= "{step}"@);
    assert(match_at("正在執行: {step}"@, "{step}"@, 6));
}

proof fn placeholders_log_completed()
    ensures
        zh_cn_text("log_completed"@) matches Some(t) && contains(t, "{step}"@),
        en_text("log_completed"@) matches Some(t) && contains(t, "{step}"@),
        zh_tw_text("log_completed"@) matches Some(t) && contains(t, "{step}"@),
{
    reveal_strlit("log_completed"); assert("log_completed"@.len() == 13);
    reveal_strlit("lang_en"); assert("lang_en"@.len() == 7);
    reveal_strlit("lang_zh_cn"); assert("lang_zh_cn"@.len() == 10);
    reveal_strlit("lang_zh_tw"); assert("lang_zh_tw"@.len() == 10);
    reveal_strlit("select_language"); assert("select_language"@.len() == 15);
    reveal_strlit("select_mode"); assert("select_mode"@.len() == 11);
    reveal_strlit("mode_cli"); assert("mode_cli"@.len() == 8);
    reveal_strlit("mode_tui"); assert("mode_tui"@.len() == 8);
    reveal_strlit("unknown_arg"); assert("unknown_arg"@.len() == 11);
    reveal_strlit("app_title"); assert("app_title"@.len() == 9);
    reveal_strlit("step_system_update"); assert("step_system_update"@.len() == 18);
    reveal_strlit("step_user_creation"); assert("step_user_creation"@.len() == 18);
    reveal_strlit("step_ssh_root_login"); assert("step_ssh_root_login"@.len() == 19);
    reveal_strlit("step_ssh_port_change"); assert("step_ssh_port_change"@.len() == 20);
    reveal_strlit("step_ssh_password_auth"); assert("step_ssh_password_auth"@.len() == 22);
    reveal_strlit("step_ssh_key_setup"); assert("step_ssh_key_setup"@.len() == 18);
    reveal_strlit("step_ufw"); assert("step_ufw"@.len() == 8);
    reveal_strlit("step_fail2ban"); assert("log_completed"@[0] == 'l'); assert("step_fail2ban"@[0] == 's');
    reveal_strlit("step_auto_updates"); assert("step_auto_updates"@.len() == 17);
    reveal_strlit("step_security_scan"); assert("step_security_scan"@.len() == 18);
    reveal_strlit("step_log_audit"); assert("step_log_audit"@.len() == 14);
    reveal_strlit("step_restart_ssh"); assert("step_restart_ssh"@.len() == 16);
    reveal_strlit("audit_root"); assert("audit_root"@.len() == 10);
    reveal_strlit("audit_pkg_mgr"); assert("log_completed"@[0] == 'l'); assert("audit_pkg_mgr"@[0] == 'a');
    reveal_strlit("audit_ssh_port"); assert("audit_ssh_port"@.len() == 14);
    reveal_strlit("audit_password_auth"); assert("audit_password_auth"@.len() == 19);
    reveal_strlit("audit_root_login"); assert("audit_root_login"@.len() == 16);
    reveal_strlit("audit_sudo_users"); assert("audit_sudo_users"@.len() == 16);
    reveal_strlit("audit_fail2ban"); assert("audit_fail2ban"@.len() == 14);
    reveal_strlit("audit_ufw"); assert("audit_ufw"@.len() == 9);
    reveal_strlit("audit_auto_updates"); assert("audit_auto_updates"@.len() == 18);
    reveal_strlit("audit_sys_update"); assert("audit_sys_update"@.len() == 16);
    reveal_strlit("audit_detail_root_ok"); assert("audit_detail_root_ok"@.len() == 20);
    reveal_strlit("audit_detail_root_missing"); assert("audit_detail_root_missing"@.len() == 25);
    reveal_strlit("audit_detail_pkg"); assert("audit_detail_pkg"@.len() == 16);
    reveal_strlit("audit_detail_port_safe"); assert("audit_detail_port_safe"@.len() == 22);
    reveal_strlit("audit_detail_port_missing"); assert("audit_detail_port_missing"@.len() == 25);
    reveal_strlit("audit_detail_pw_disabled"); assert("audit_detail_pw_disabled"@.len() == 24);
    reveal_strlit("audit_detail_pw_missing"); assert("audit_detail_pw_missing"@.len() == 23);
    reveal_strlit("audit_detail_root_disabled"); assert("audit_detail_root_disabled"@.len() == 26);
    reveal_strlit("audit_detail_root_missing_cfg"); assert("audit_detail_root_missing_cfg"@.len() == 29);
    reveal_strlit("audit_detail_sudo_missing"); assert("audit_detail_sudo_missing"@.len() == 25);
    reveal_strlit("audit_detail_sudo_ok"); assert("audit_detail_sudo_ok"@.len() == 20);
    reveal_strlit("audit_detail_fb_installed"); assert("audit_detail_fb_installed"@.len() == 25);
    reveal_strlit("audit_detail_fb_missing"); assert("audit_detail_fb_missing"@.len() == 23);
    reveal_strlit("audit_detail_ufw_enabled"); assert("audit_detail_ufw_enabled"@.len() == 24);
    reveal_strlit("audit_detail_ufw_missing"); assert("audit_detail_ufw_missing"@.len() == 24);
    reveal_strlit("audit_detail_au_enabled"); assert("audit_detail_au_enabled"@.len() == 23);
    reveal_strlit("audit_detail_au_missing"); assert("audit_detail_au_missing"@.len() == 23);
    reveal_strlit("audit_detail_sys_uptodate"); assert("audit_detail_sys_uptodate"@.len() == 25);
    reveal_strlit("audit_detail_sys_needs_update"); assert("audit_detail_sys_needs_update"@.len() == 29);
    reveal_strlit("status_safe"); assert("status_safe"@.len() == 11);
    reveal_strlit("status_partial"); assert("status_partial"@.len() == 14);
    reveal_strlit("status_missing"); assert("status_missing"@.len() == 14);
    reveal_strlit("status_needs_update"); assert("status_needs_update"@.len() == 19);
    reveal_strlit("pkg_apt"); assert("pkg_apt"@.len() == 7);
    reveal_strlit("pkg_yum"); assert("pkg_yum"@.len() == 7);
    reveal_strlit("pkg_dnf"); assert("pkg_dnf"@.len() == 7);
    reveal_strlit("pkg_unknown"); assert("pkg_unknown"@.len() == 11);
    reveal_strlit("err_permission_denied"); assert("err_permission_denied"@.len() == 21);
    reveal_strlit("err_cmd_failed"); assert("err_cmd_failed"@.len() == 14);
    reveal_strlit("err_parse_error"); assert("err_parse_error"@.len() == 15);
    reveal_strlit("err_precondition_failed"); assert("err_precondition_failed"@.len() == 23);
    reveal_strlit("err_user_aborted"); assert("err_user_aborted"@.len() == 16);
    reveal_strlit("err_unknown_pkg_mgr"); assert("err_unknown_pkg_mgr"@.len() == 19);
    reveal_strlit("err_unsupported_pkg"); assert("err_unsupported_pkg"@.len() == 19);
    reveal_strlit("err_auto_update_only_debian"); assert("err_auto_update_only_debian"@.len() == 27);
    reveal_strlit("err_unknown_pkg_lynis"); assert("err_unknown_pkg_lynis"@.len() == 21);
    reveal_strlit("err_sshd_not_found"); assert("err_sshd_not_found"@.len() == 18);
    reveal_strlit("err_no_username"); assert("err_no_username"@.len() == 15);
    reveal_strlit("err_user_exists"); assert("err_user_exists"@.len() == 15);
    reveal_strlit("err_no_sudo_before_root"); assert("err_no_sudo_before_root"@.len() == 23);
    reveal_strlit("err_no_ssh_port"); assert("err_no_ssh_port"@.len() == 15);
    reveal_strlit("err_port_zero"); assert("log_completed"@[0] == 'l'); assert("err_port_zero"@[0] == 'e');
    reveal_strlit("err_no_sudo_before_pw"); assert("err_no_sudo_before_pw"@.len() == 21);
    reveal_strlit("err_no_target_user"); assert("err_no_target_user"@.len() == 18);
    reveal_strlit("err_no_key_action"); assert("err_no_key_action"@.len() == 17);
    reveal_strlit("err_update_failed"); assert("err_update_failed"@.len() == 17);
    reveal_strlit("err_upgrade_failed"); assert("err_upgrade_failed"@.len() == 18);
    reveal_strlit("err_ufw_allow_failed"); assert("err_ufw_allow_failed"@.len() == 20);
    reveal_strlit("err_ufw_enable_failed"); assert("err_ufw_enable_failed"@.len() == 21);
    reveal_strlit("err_install_fail2ban"); assert("err_install_fail2ban"@.len() == 20);
    reveal_strlit("err_install_unattended"); assert("err_install_unattended"@.len() == 22);
    reveal_strlit("err_lynis_exec"); assert("err_lynis_exec"@.len() == 14);
    reveal_strlit("err_sshd_check"); assert("err_sshd_check"@.len() == 14);
    reveal_strlit("err_sshd_syntax"); assert("err_sshd_syntax"@.len() == 15);
    reveal_strlit("err_ssh_restart"); assert("err_ssh_restart"@.len() == 15);
    reveal_strlit("err_backup"); assert("err_backup"@.len() == 10);
    reveal_strlit("err_read"); assert("err_read"@.len() == 8);
    reveal_strlit("err_write"); assert("err_write"@.len() == 9);
    reveal_strlit("err_setup_signal"); assert("err_setup_signal"@.len() == 16);
    reveal_strlit("result_sys_updated"); assert("result_sys_updated"@.len() == 18);
    reveal_strlit("result_user_created"); assert("result_user_created"@.len() == 19);
    reveal_strlit("result_root_login_set"); assert("result_root_login_set"@.len() == 21);
    reveal_strlit("result_ssh_port_set"); assert("result_ssh_port_set"@.len() == 19);
    reveal_strlit("result_pw_auth_disabled"); assert("result_pw_auth_disabled"@.len() == 23);
    reveal_strlit("result_key_generated"); assert("result_key_generated"@.len() == 20);
    reveal_strlit("result_key_pasted"); assert("result_key_pasted"@.len() == 17);
    reveal_strlit("result_ufw_enabled"); assert("result_ufw_enabled"@.len() == 18);
    reveal_strlit("result_fail2ban_installed"); assert("result_fail2ban_installed"@.len() == 25);
    reveal_strlit("result_auto_updates_enabled"); assert("result_auto_updates_enabled"@.len() == 27);
    reveal_strlit("result_lynis_ok"); assert("result_lynis_ok"@.len() == 15);
    reveal_strlit("result_lynis_fail"); assert("result_lynis_fail"@.len() == 17);
    reveal_strlit("result_logwatch_installed"); assert("result_logwatch_installed"@.len() == 25);
    reveal_strlit("result_ssh_restarted"); assert("result_ssh_restarted"@.len() == 20);
    reveal_strlit("result_sshd_cfg_set"); assert("result_sshd_cfg_set"@.len() == 19);
    reveal_strlit("result_sshd_syntax_ok"); assert("result_sshd_syntax_ok"@.len() == 21);
    reveal_strlit("result_sshd_syntax_err"); assert("result_sshd_syntax_err"@.len() == 22);
    reveal_strlit("log_audit"); assert("log_audit"@.len() == 9);
    reveal_strlit("log_operation"); assert("log_completed"@[4] == 'c'); assert("log_operation"@[4] == 'o');
    reveal_strlit("log_rollback"); assert("log_rollback"@.len() == 12);
    reveal_strlit("log_audit_start"); assert("log_audit_start"@.len() == 15);
    reveal_strlit("log_audit_done"); assert("log_audit_done"@.len() == 14);
    reveal_strlit("log_step_start"); assert("log_step_start"@.len() == 14);
    reveal_strlit("log_step_complete"); assert("log_step_complete"@.len() == 17);
    reveal_strlit("log_step_failed"); assert("log_step_failed"@.len() == 15);
    reveal_strlit("log_rollback_auto"); assert("log_rollback_auto"@.len() == 17);
    reveal_strlit("undo_user_remove"); assert("undo_user_remove"@.len() == 16);
    reveal_strlit("undo_pkg_remove"); assert("undo_pkg_remove"@.len() == 15);
    reveal_strlit("undo_cmd"); assert("undo_cmd"@.len() == 8);
    reveal_strlit("undo_file_restore"); assert("undo_file_restore"@.len() == 17);
    reveal_strlit("undo_ufw_disable"); assert("undo_ufw_disable"@.len() == 16);
    reveal_strlit("undo_ufw_delete"); assert("undo_ufw_delete"@.len() == 15);
    reveal_strlit("undo_key_delete"); assert("undo_key_delete"@.len() == 15);
    reveal_strlit("cli_welcome"); assert("cli_welcome"@.len() == 11);
    reveal_strlit("cli_auditing"); assert("cli_auditing"@.len() == 12);
    reveal_strlit("cli_audit_done"); assert("cli_audit_done"@.len() == 14);
    reveal_strlit("cli_select_steps"); assert("cli_select_steps"@.len() == 16);
    reveal_strlit("cli_hint_nav"); assert("cli_hint_nav"@.len() == 12);
    reveal_strlit("cli_collecting"); assert("cli_collecting"@.len() == 14);
    reveal_strlit("cli_will_execute"); assert("cli_will_execute"@.len() == 16);
    reveal_strlit("cli_confirm"); assert("cli_confirm"@.len() == 11);
    reveal_strlit("cli_cancelled"); assert("log_completed"@[0] == 'l'); assert("cli_cancelled"@[0] == 'c');
    reveal_strlit("cli_no_selection"); assert("cli_no_selection"@.len() == 16);
    reveal_strlit("cli_executing"); assert("log_completed"@[0] == 'l'); assert("cli_executing"@[0] == 'c');
    reveal_strlit("cli_summary_title"); assert("cli_summary_title"@.len() == 17);
    reveal_strlit("cli_summary_total"); assert("cli_summary_total"@.len() == 17);
    reveal_strlit("cli_log_saved"); assert("log_completed"@[0] == 'l'); assert("cli_log_saved"@[0] == 'c');
    reveal_strlit("cli_create_user"); assert("cli_create_user"@.len() == 15);
    reveal_strlit("cli_username_prompt"); assert("cli_username_prompt"@.len() == 19);
    reveal_strlit("cli_username_empty"); assert("cli_username_empty"@.len() == 18);
    reveal_strlit("cli_username_exists"); assert("cli_username_exists"@.len() == 19);
    reveal_strlit("cli_username_invalid"); assert("cli_username_invalid"@.len() == 20);
    reveal_strlit("cli_lock_pw"); assert("cli_lock_pw"@.len() == 11);
    reveal_strlit("cli_current_port"); assert("cli_current_port"@.len() == 16);
    reveal_strlit("cli_default_port"); assert("cli_default_port"@.len() == 16);
    reveal_strlit("cli_suggest_port"); assert("cli_suggest_port"@.len() == 16);
    reveal_strlit("cli_port_prompt"); assert("cli_port_prompt"@.len() == 15);
    reveal_strlit("cli_port_invalid"); assert("cli_port_invalid"@.len() == 16);
    reveal_strlit("cli_port_zero"); assert("log_completed"@[0] == 'l'); assert("cli_port_zero"@[0] == 'c');
    reveal_strlit("cli_existing_sudo"); assert("cli_existing_sudo"@.len() == 17);
    reveal_strlit("cli_no_sudo"); assert("cli_no_sudo"@.len() == 11);
    reveal_strlit("cli_manual_user"); assert("cli_manual_user"@.len() == 15);
    reveal_strlit("cli_user_prompt"); assert("cli_user_prompt"@.len() == 15);
    reveal_strlit("cli_no_input"); assert("cli_no_input"@.len() == 12);
    reveal_strlit("cli_select_user"); assert("cli_select_user"@.len() == 15);
    reveal_strlit("cli_key_found"); assert("log_completed"@[0] == 'l'); assert("cli_key_found"@[0] == 'c');
    reveal_strlit("cli_key_action"); assert("cli_key_action"@.len() == 14);
    reveal_strlit("cli_key_generate"); assert("cli_key_generate"@.len() == 16);
    reveal_strlit("cli_key_paste"); assert("log_completed"@[0] == 'l'); assert("cli_key_paste"@[0] == 'c');
    reveal_strlit("cli_key_skip"); assert("cli_key_skip"@.len() == 12);
    reveal_strlit("cli_key_prompt"); assert("cli_key_prompt"@.len() == 14);
    reveal_strlit("cli_ssh_port_info"); assert("cli_ssh_port_info"@.len() == 17);
    reveal_strlit("cli_ssh_suggest_info"); assert("cli_ssh_suggest_info"@.len() == 20);
    reveal_strlit("tui_title"); assert("tui_title"@.len() == 9);
    reveal_strlit("tui_audit_report"); assert("tui_audit_report"@.len() == 16);
    reveal_strlit("tui_steps_title"); assert("tui_steps_title"@.len() == 15);
    reveal_strlit("tui_help_title"); assert("tui_help_title"@.len() == 14);
    reveal_strlit("tui_help_move"); assert("log_completed"@[0] == 'l'); assert("tui_help_move"@[0] == 't');
    reveal_strlit("tui_help_toggle"); assert("tui_help_toggle"@.len() == 15);
    reveal_strlit("tui_help_batch"); assert("tui_help_batch"@.len() == 14);
    reveal_strlit("tui_help_single"); assert("tui_help_single"@.len() == 15);
    reveal_strlit("tui_help_reauth"); assert("tui_help_reauth"@.len() == 15);
    reveal_strlit("tui_help_quit"); assert("log_completed"@[0] == 'l'); assert("tui_help_quit"@[0] == 't');
    reveal_strlit("tui_selected_count"); assert("tui_selected_count"@.len() == 18);
    reveal_strlit("tui_single_hint"); assert("tui_single_hint"@.len() == 15);
    reveal_strlit("tui_exec_title"); assert("tui_exec_title"@.len() == 14);
    reveal_strlit("tui_exec_running"); assert("tui_exec_running"@.len() == 16);
    reveal_strlit("tui_exec_done"); assert("log_completed"@[0] == 'l'); assert("tui_exec_done"@[0] == 't');
    reveal_strlit("tui_exec_skip"); assert("log_completed"@[0] == 'l'); assert("tui_exec_skip"@[0] == 't');
    reveal_strlit("tui_exec_failed"); assert("tui_exec_failed"@.len() == 15);
    reveal_strlit("tui_exec_interrupted"); assert("tui_exec_interrupted"@.len() == 20);
    reveal_strlit("tui_result_title"); assert("tui_result_title"@.len() == 16);
    reveal_strlit("tui_result_summary"); assert("tui_result_summary"@.len() == 18);
    reveal_strlit("tui_result_return"); assert("tui_result_return"@.len() == 17);
    reveal_strlit("tui_footer_select"); assert("tui_footer_select"@.len() == 17);
    reveal_strlit("tui_footer_exec"); assert("tui_footer_exec"@.len() == 15);
    reveal_strlit("tui_footer_summary"); assert("tui_footer_summary"@.len() == 18);
    reveal_strlit("tui_popup_username"); assert("tui_popup_username"@.len() == 18);
    reveal_strlit("tui_popup_enter_user"); assert("tui_popup_enter_user"@.len() == 20);
    reveal_strlit("tui_popup_select_user"); assert("tui_popup_select_user"@.len() == 21);
    reveal_strlit("tui_popup_select_action"); assert("tui_popup_select_action"@.len() == 23);
    reveal_strlit("tui_popup_gen_key"); assert("tui_popup_gen_key"@.len() == 17);
    reveal_strlit("tui_popup_paste_key"); assert("tui_popup_paste_key"@.len() == 19);
    reveal_strlit("tui_popup_skip"); assert("tui_popup_skip"@.len() == 14);
    reveal_strlit("tui_popup_paste_title"); assert("tui_popup_paste_title"@.len() == 21);
    reveal_strlit("tui_popup_paste_hint"); assert("tui_popup_paste_hint"@.len() == 20);
    reveal_strlit("tui_popup_overwrite_title"); assert("tui_popup_overwrite_title"@.len() == 25);
    reveal_strlit("tui_popup_overwrite_yes"); assert("tui_popup_overwrite_yes"@.len() == 23);
    reveal_strlit("tui_popup_overwrite_no"); assert("tui_popup_overwrite_no"@.len() == 22);
    reveal_strlit("tui_popup_new_user"); assert("tui_popup_new_user"@.len() == 18);
    reveal_strlit("tui_popup_lock_title"); assert("tui_popup_lock_title"@.len() == 20);
    reveal_strlit("tui_popup_lock_yes"); assert("tui_popup_lock_yes"@.len() == 18);
    reveal_strlit("tui_popup_lock_no"); assert("tui_popup_lock_no"@.len() == 17);
    reveal_strlit("tui_popup_port_title"); assert("tui_popup_port_title"@.len() == 20);
    reveal_strlit("tui_popup_port_suggest"); assert("tui_popup_port_suggest"@.len() == 22);
    reveal_strlit("tui_popup_port_current"); assert("tui_popup_port_current"@.len() == 22);
    reveal_strlit("tui_popup_port_placeholder"); assert("tui_popup_port_placeholder"@.len() == 26);
    reveal_strlit("tui_popup_enter"); assert("tui_popup_enter"@.len() == 15);
    reveal_strlit("tui_popup_esc"); assert("log_completed"@[0] == 'l'); assert("tui_popup_esc"@[0] == 't');
    reveal_strlit("tui_popup_esc_back"); assert("tui_popup_esc_back"@.len() == 18);
    reveal_strlit("tui_popup_updown"); assert("tui_popup_updown"@.len() == 16);
    reveal_strlit("tui_popup_enter_confirm"); assert("tui_popup_enter_confirm"@.len() == 23);
    reveal_strlit("tui_hint_enter_esc"); assert("tui_hint_enter_esc"@.len() == 18);
    reveal_strlit("tui_hint_updown_enter_esc"); assert("tui_hint_updown_enter_esc"@.len() == 25);
    reveal_strlit("tui_hint_enter_esc_back"); assert("tui_hint_enter_esc_back"@.len() == 23);
    reveal_strlit("tui_hint_updown_enter_esc_back"); assert("tui_hint_updown_enter_esc_back"@.len() == 30);
    reveal_strlit("tui_step_status_running"); assert("tui_step_status_running"@.len() == 23);
    reveal_strlit("tui_step_status_done"); assert("tui_step_status_done"@.len() == 20);
    reveal_strlit("tui_step_status_failed"); assert("tui_step_status_failed"@.len() == 22);
    reveal_strlit("log_running"); assert("log_running"@.len() == 11);
    reveal_strlit("{step}");
    reveal_strlit("已完成: {step}");
    assert("已完成: {step}"@.subrange(5, 11) =~= "{step}"@);
    assert(match_at("已完成: {step}"@, "{step}"@, 5));
    reveal_strlit("Completed: {step}");
    assert("Completed: {step}"@.subrange(11, 17) =~= "{step}"@);
    assert(match_at("Completed: {step}"@, "{step}"@, 11));
    reveal_strlit("已完成: {step}");
    assert("已完成: {step}"@.subrange(5, 11) =~= "{step}"@);
    assert(match_at("已完成: {step}"@, "{step}"@, 5));
}

proof fn placeholders_log_skip()
    ensures
        zh_cn_text("log_skip"@) matches Some(t) && contains(t, "{msg}"@),
        en_text("log_skip"@) matches Some(t) && contains(t, "{msg}"@),
        zh_tw_text("log_skip"@) matches Some(t) && contains(t, "{msg}"@),
{
    reveal_strlit("log_skip"); assert("log_skip"@.len() == 8);
    reveal_strlit("lang_en"); assert("lang_en"@.len() == 7);
    reveal_strlit("lang_zh_cn"); assert("lang_zh_cn"@.len() == 10);
    reveal_strlit("lang_zh_tw"); assert("lang_zh_tw"@.len() == 10);
    reveal_strlit("select_language"); assert("select_language"@.len() == 15);
    reveal_strlit("select_mode"); assert("select_mode"@.len() == 11);
    reveal_strlit("mode_cli"); assert("log_skip"@[0] == 'l'); assert("mode_cli"@[0] == 'm');
    reveal_strlit("mode_tui"); assert("log_skip"@[0] == 'l'); assert("mode_tui"@[0] == 'm');
    reveal_strlit("unknown_arg"); assert("unknown_arg"@.len() == 11);
    reveal_strlit("app_title"); assert("app_title"@.len() == 9);
    reveal_strlit("step_system_update"); assert("step_system_update"@.len() == 18);
    reveal_strlit("step_user_creation"); assert("step_user_creation"@.len() == 18);
    reveal_strlit("step_ssh_root_login"); assert("step_ssh_root_login"@.len() == 19);
    reveal_strlit("step_ssh_port_change"); assert("step_ssh_port_change"@.len() == 20);
    reveal_strlit("step_ssh_password_auth"); assert("step_ssh_password_auth"@.len() == 22);
    reveal_strlit("step_ssh_key_setup"); assert("step_ssh_key_setup"@.len() == 18);
    reveal_strlit("step_ufw"); assert("log_skip"@[0] == 'l'); assert("step_ufw"@[0] == 's');
    reveal_strlit("step_fail2ban"); assert("step_fail2ban"@.len() == 13);
    reveal_strlit("step_auto_updates"); assert("step_auto_updates"@.len() == 17);
    reveal_strlit("step_security_scan"); assert("step_security_scan"@.len() == 18);
    reveal_strlit("step_log_audit"); assert("step_log_audit"@.len() == 14);
    reveal_strlit("step_restart_ssh"); assert("step_restart_ssh"@.len() == 16);
    reveal_strlit("audit_root"); assert("audit_root"@.len() == 10);
    reveal_strlit("audit_pkg_mgr"); assert("audit_pkg_mgr"@.len() == 13);
    reveal_strlit("audit_ssh_port"); assert("audit_ssh_port"@.len() == 14);
    reveal_strlit("audit_password_auth"); assert("audit_password_auth"@.len() == 19);
    reveal_strlit("audit_root_login"); assert("audit_root_login"@.len() == 16);
    reveal_strlit("audit_sudo_users"); assert("audit_sudo_users"@.len() == 16);
    reveal_strlit("audit_fail2ban"); assert("audit_fail2ban"@.len() == 14);
    reveal_strlit("audit_ufw"); assert("audit_ufw"@.len() == 9);
    reveal_strlit("audit_auto_updates"); assert("audit_auto_updates"@.len() == 18);
    reveal_strlit("audit_sys_update"); assert("audit_sys_update"@.len() == 16);
    reveal_strlit("audit_detail_root_ok"); assert("audit_detail_root_ok"@.len() == 20);
    reveal_strlit("audit_detail_root_missing"); assert("audit_detail_root_missing"@.len() == 25);
    reveal_strlit("audit_detail_pkg"); assert("audit_detail_pkg"@.len() == 16);
    reveal_strlit("audit_detail_port_safe"); assert("audit_detail_port_safe"@.len() == 22);
    reveal_strlit("audit_detail_port_missing"); assert("audit_detail_port_missing"@.len() == 25);
    reveal_strlit("audit_detail_pw_disabled"); assert("audit_detail_pw_disabled"@.len() == 24);
    reveal_strlit("audit_detail_pw_missing"); assert("audit_detail_pw_missing"@.len() == 23);
    reveal_strlit("audit_detail_root_disabled"); assert("audit_detail_root_disabled"@.len() == 26);
    reveal_strlit("audit_detail_root_missing_cfg"); assert("audit_detail_root_missing_cfg"@.len() == 29);
    reveal_strlit("audit_detail_sudo_missing"); assert("audit_detail_sudo_missing"@.len() == 25);
    reveal_strlit("audit_detail_sudo_ok"); assert("audit_detail_sudo_ok"@.len() == 20);
    reveal_strlit("audit_detail_fb_installed"); assert("audit_detail_fb_installed"@.len() == 25);
    reveal_strlit("audit_detail_fb_missing"); assert("audit_detail_fb_missing"@.len() == 23);
    reveal_strlit("audit_detail_ufw_enabled"); assert("audit_detail_ufw_enabled"@.len() == 24);
    reveal_strlit("audit_detail_ufw_missing"); assert("audit_detail_ufw_missing"@.len() == 24);
    reveal_strlit("audit_detail_au_enabled"); assert("audit_detail_au_enabled"@.len() == 23);
    reveal_strlit("audit_detail_au_missing"); assert("audit_detail_au_missing"@.len() == 23);
    reveal_strlit("audit_detail_sys_uptodate"); assert("audit_detail_sys_uptodate"@.len() == 25);
    reveal_strlit("audit_detail_sys_needs_update"); assert("audit_detail_sys_needs_update"@.len() == 29);
    reveal_strlit("status_safe"); assert("status_safe"@.len() == 11);
    reveal_strlit("status_partial"); assert("status_partial"@.len() == 14);
    reveal_strlit("status_missing"); assert("status_missing"@.len() == 14);
    reveal_strlit("status_needs_update"); assert("status_needs_update"@.len() == 19);
    reveal_strlit("pkg_apt"); assert("pkg_apt"@.len() == 7);
    reveal_strlit("pkg_yum"); assert("pkg_yum"@.len() == 7);
    reveal_strlit("pkg_dnf"); assert("pkg_dnf"@.len() == 7);
    reveal_strlit("pkg_unknown"); assert("pkg_unknown"@.len() == 11);
    reveal_strlit("err_permission_denied"); assert("err_permission_denied"@.len() == 21);
    reveal_strlit("err_cmd_failed"); assert("err_cmd_failed"@.len() == 14);
    reveal_strlit("err_parse_error"); assert("err_parse_error"@.len() == 15);
    reveal_strlit("err_precondition_failed"); assert("err_precondition_failed"@.len() == 23);
    reveal_strlit("err_user_aborted"); assert("err_user_aborted"@.len() == 16);
    reveal_strlit("err_unknown_pkg_mgr"); assert("err_unknown_pkg_mgr"@.len() == 19);
    reveal_strlit("err_unsupported_pkg"); assert("err_unsupported_pkg"@.len() == 19);
    reveal_strlit("err_auto_update_only_debian"); assert("err_auto_update_only_debian"@.len() == 27);
    reveal_strlit("err_unknown_pkg_lynis"); assert("err_unknown_pkg_lynis"@.len() == 21);
    reveal_strlit("err_sshd_not_found"); assert("err_sshd_not_found"@.len() == 18);
    reveal_strlit("err_no_username"); assert("err_no_username"@.len() == 15);
    reveal_strlit("err_user_exists"); assert("err_user_exists"@.len() == 15);
    reveal_strlit("err_no_sudo_before_root"); assert("err_no_sudo_before_root"@.len() == 23);
    reveal_strlit("err_no_ssh_port"); assert("err_no_ssh_port"@.len() == 15);
    reveal_strlit("err_port_zero"); assert("err_port_zero"@.len() == 13);
    reveal_strlit("err_no_sudo_before_pw"); assert("err_no_sudo_before_pw"@.len() == 21);
    reveal_strlit("err_no_target_user"); assert("err_no_target_user"@.len() == 18);
    reveal_strlit("err_no_key_action"); assert("err_no_key_action"@.len() == 17);
    reveal_strlit("err_update_failed"); assert("err_update_failed"@.len() == 17);
    reveal_strlit("err_upgrade_failed"); assert("err_upgrade_failed"@.len() == 18);
    reveal_strlit("err_ufw_allow_failed"); assert("err_ufw_allow_failed"@.len() == 20);
    reveal_strlit("err_ufw_enable_failed"); assert("err_ufw_enable_failed"@.len() == 21);
    reveal_strlit("err_install_fail2ban"); assert("err_install_fail2ban"@.len() == 20);
    reveal_strlit("err_install_unattended"); assert("err_install_unattended"@.len() == 22);
    reveal_strlit("err_lynis_exec"); assert("err_lynis_exec"@.len() == 14);
    reveal_strlit("err_sshd_check"); assert("err_sshd_check"@.len() == 14);
    reveal_strlit("err_sshd_syntax"); assert("err_sshd_syntax"@.len() == 15);
    reveal_strlit("err_ssh_restart"); assert("err_ssh_restart"@.len() == 15);
    reveal_strlit("err_backup"); assert("err_backup"@.len() == 10);
    reveal_strlit("err_read"); assert("log_skip"@[0] == 'l'); assert("err_read"@[0] == 'e');
    reveal_strlit("err_write"); assert("err_write"@.len() == 9);
    reveal_strlit("err_setup_signal"); assert("err_setup_signal"@.len() == 16);
    reveal_strlit("result_sys_updated"); assert("result_sys_updated"@.len() == 18);
    reveal_strlit("result_user_created"); assert("result_user_created"@.len() == 19);
    reveal_strlit("result_root_login_set"); assert("result_root_login_set"@.len() == 21);
    reveal_strlit("result_ssh_port_set"); assert("result_ssh_port_set"@.len() == 19);
    reveal_strlit("result_pw_auth_disabled"); assert("result_pw_auth_disabled"@.len() == 23);
    reveal_strlit("result_key_generated"); assert("result_key_generated"@.len() == 20);
    reveal_strlit("result_key_pasted"); assert("result_key_pasted"@.len() == 17);
    reveal_strlit("result_ufw_enabled"); assert("result_ufw_enabled"@.len() == 18);
    reveal_strlit("result_fail2ban_installed"); assert("result_fail2ban_installed"@.len() == 25);
    reveal_strlit("result_auto_updates_enabled"); assert("result_auto_updates_enabled"@.len() == 27);
    reveal_strlit("result_lynis_ok"); assert("result_lynis_ok"@.len() == 15);
    reveal_strlit("result_lynis_fail"); assert("result_lynis_fail"@.len() == 17);
    reveal_strlit("result_logwatch_installed"); assert("result_logwatch_installed"@.len() == 25);
    reveal_strlit("result_ssh_restarted"); assert("result_ssh_restarted"@.len() == 20);
    reveal_strlit("result_sshd_cfg_set"); assert("result_sshd_cfg_set"@.len() == 19);
    reveal_strlit("result_sshd_syntax_ok"); assert("result_sshd_syntax_ok"@.len() == 21);
    reveal_strlit("result_sshd_syntax_err"); assert("result_sshd_syntax_err"@.len() == 22);
    reveal_strlit("log_audit"); assert("log_audit"@.len() == 9);
    reveal_strlit("log_operation"); assert("log_operation"@.len() == 13);
    reveal_strlit("log_rollback"); assert("log_rollback"@.len() == 12);
    reveal_strlit("log_audit_start"); assert("log_audit_start"@.len() == 15);
    reveal_strlit("log_audit_done"); assert("log_audit_done"@.len() == 14);
    reveal_strlit("log_step_start"); assert("log_step_start"@.len() == 14);
    reveal_strlit("log_step_complete"); assert("log_step_complete"@.len() == 17);
    reveal_strlit("log_step_failed"); assert("log_step_failed"@.len() == 15);
    reveal_strlit("log_rollback_auto"); assert("log_rollback_auto"@.len() == 17);
    reveal_strlit("undo_user_remove"); assert("undo_user_remove"@.len() == 16);
    reveal_strlit("undo_pkg_remove"); assert("undo_pkg_remove"@.len() == 15);
    reveal_strlit("undo_cmd"); assert("log_skip"@[0] == 'l'); assert("undo_cmd"@[0] == 'u');
    reveal_strlit("undo_file_restore"); assert("undo_file_restore"@.len() == 17);
    reveal_strlit("undo_ufw_disable"); assert("undo_ufw_disable"@.len() == 16);
    reveal_strlit("undo_ufw_delete"); assert("undo_ufw_delete"@.len() == 15);
    reveal_strlit("undo_key_delete"); assert("undo_key_delete"@.len() == 15);
    reveal_strlit("cli_welcome"); assert("cli_welcome"@.len() == 11);
    reveal_strlit("cli_auditing"); assert("cli_auditing"@.len() == 12);
    reveal_strlit("cli_audit_done"); assert("cli_audit_done"@.len() == 14);
    reveal_strlit("cli_select_steps"); assert("cli_select_steps"@.len() == 16);
    reveal_strlit("cli_hint_nav"); assert("cli_hint_nav"@.len() == 12);
    reveal_strlit("cli_collecting"); assert("cli_collecting"@.len() == 14);
    reveal_strlit("cli_will_execute"); assert("cli_will_execute"@.len() == 16);
    reveal_strlit("cli_confirm"); assert("cli_confirm"@.len() == 11);
    reveal_strlit("cli_cancelled"); assert("cli_cancelled"@.len() == 13);
    reveal_strlit("cli_no_selection"); assert("cli_no_selection"@.len() == 16);
    reveal_strlit("cli_executing"); assert("cli_executing"@.len() == 13);
    reveal_strlit("cli_summary_title"); assert("cli_summary_title"@.len() == 17);
    reveal_strlit("cli_summary_total"); assert("cli_summary_total"@.len() == 17);
    reveal_strlit("cli_log_saved"); assert("cli_log_saved"@.len() == 13);
    reveal_strlit("cli_create_user"); assert("cli_create_user"@.len() == 15);
    reveal_strlit("cli_username_prompt"); assert("cli_username_prompt"@.len() == 19);
    reveal_strlit("cli_username_empty"); assert("cli_username_empty"@.len() == 18);
    reveal_strlit("cli_username_exists"); assert("cli_username_exists"@.len() == 19);
    reveal_strlit("cli_username_invalid"); assert("cli_username_invalid"@.len() == 20);
    reveal_strlit("cli_lock_pw"); assert("cli_lock_pw"@.len() == 11);
    reveal_strlit("cli_current_port"); assert("cli_current_port"@.len() == 16);
    reveal_strlit("cli_default_port"); assert("cli_default_port"@.len() == 16);
    reveal_strlit("cli_suggest_port"); assert("cli_suggest_port"@.len() == 16);
    reveal_strlit("cli_port_prompt"); assert("cli_port_prompt"@.len() == 15);
    reveal_strlit("cli_port_invalid"); assert("cli_port_invalid"@.len() == 16);
    reveal_strlit("cli_port_zero"); assert("cli_port_zero"@.len() == 13);
    reveal_strlit("cli_existing_sudo"); assert("cli_existing_sudo"@.len() == 17);
    reveal_strlit("cli_no_sudo"); assert("cli_no_sudo"@.len() == 11);
    reveal_strlit("cli_manual_user"); assert("cli_manual_user"@.len() == 15);
    reveal_strlit("cli_user_prompt"); assert("cli_user_prompt"@.len() == 15);
    reveal_strlit("cli_no_input"); assert("cli_no_input"@.len() == 12);
    reveal_strlit("cli_select_user"); assert("cli_select_user"@.len() == 15);
    reveal_strlit("cli_key_found"); assert("cli_key_found"@.len() == 13);
    reveal_strlit("cli_key_action"); assert("cli_key_action"@.len() == 14);
    reveal_strlit("cli_key_generate"); assert("cli_key_generate"@.len() == 16);
    reveal_strlit("cli_key_paste"); assert("cli_key_paste"@.len() == 13);
    reveal_strlit("cli_key_skip"); assert("cli_key_skip"@.len() == 12);
    reveal_strlit("cli_key_prompt"); assert("cli_key_prompt"@.len() == 14);
    reveal_strlit("cli_ssh_port_info"); assert("cli_ssh_port_info"@.len() == 17);
    reveal_strlit("cli_ssh_suggest_info"); assert("cli_ssh_suggest_info"@.len() == 20);
    reveal_strlit("tui_title"); assert("tui_title"@.len() == 9);
    reveal_strlit("tui_audit_report"); assert("tui_audit_report"@.len() == 16);
    reveal_strlit("tui_steps_title"); assert("tui_steps_title"@.len() == 15);
    reveal_strlit("tui_help_title"); assert("tui_help_title"@.len() == 14);
    reveal_strlit("tui_help_move"); assert("tui_help_move"@.len() == 13);
    reveal_strlit("tui_help_toggle"); assert("tui_help_toggle"@.len() == 15);
    reveal_strlit("tui_help_batch"); assert("tui_help_batch"@.len() == 14);
    reveal_strlit("tui_help_single"); assert("tui_help_single"@.len() == 15);
    reveal_strlit("tui_help_reauth"); assert("tui_help_reauth"@.len() == 15);
    reveal_strlit("tui_help_quit"); assert("tui_help_quit"@.len() == 13);
    reveal_strlit("tui_selected_count"); assert("tui_selected_count"@.len() == 18);
    reveal_strlit("tui_single_hint"); assert("tui_single_hint"@.len() == 15);
    reveal_strlit("tui_exec_title"); assert("tui_exec_title"@.len() == 14);
    reveal_strlit("tui_exec_running"); assert("tui_exec_running"@.len() == 16);
    reveal_strlit("tui_exec_done"); assert("tui_exec_done"@.len() == 13);
    reveal_strlit("tui_exec_skip"); assert("tui_exec_skip"@.len() == 13);
    reveal_strlit("tui_exec_failed"); assert("tui_exec_failed"@.len() == 15);
    reveal_strlit("tui_exec_interrupted"); assert("tui_exec_interrupted"@.len() == 20);
    reveal_strlit("tui_result_title"); assert("tui_result_title"@.len() == 16);
    reveal_strlit("tui_result_summary"); assert("tui_result_summary"@.len() == 18);
    reveal_strlit("tui_result_return"); assert("tui_result_return"@.len() == 17);
    reveal_strlit("tui_footer_select"); assert("tui_footer_select"@.len() == 17);
    reveal_strlit("tui_footer_exec"); assert("tui_footer_exec"@.len() == 15);
    reveal_strlit("tui_footer_summary"); assert("tui_footer_summary"@.len() == 18);
    reveal_strlit("tui_popup_username"); assert("tui_popup_username"@.len() == 18);
    reveal_strlit("tui_popup_enter_user"); assert("tui_popup_enter_user"@.len() == 20);
    reveal_strlit("tui_popup_select_user"); assert("tui_popup_select_user"@.len() == 21);
    reveal_strlit("tui_popup_select_action"); assert("tui_popup_select_action"@.len() == 23);
    reveal_strlit("tui_popup_gen_key"); assert("tui_popup_gen_key"@.len() == 17);
    reveal_strlit("tui_popup_paste_key"); assert("tui_popup_paste_key"@.len() == 19);
    reveal_strlit("tui_popup_skip"); assert("tui_popup_skip"@.len() == 14);
    reveal_strlit("tui_popup_paste_title"); assert("tui_popup_paste_title"@.len() == 21);
    reveal_strlit("tui_popup_paste_hint"); assert("tui_popup_paste_hint"@.len() == 20);
    reveal_strlit("tui_popup_overwrite_title"); assert("tui_popup_overwrite_title"@.len() == 25);
    reveal_strlit("tui_popup_overwrite_yes"); assert("tui_popup_overwrite_yes"@.len() == 23);
    reveal_strlit("tui_popup_overwrite_no"); assert("tui_popup_overwrite_no"@.len() == 22);
    reveal_strlit("tui_popup_new_user"); assert("tui_popup_new_user"@.len() == 18);
    reveal_strlit("tui_popup_lock_title"); assert("tui_popup_lock_title"@.len() == 20);
    reveal_strlit("tui_popup_lock_yes"); assert("tui_popup_lock_yes"@.len() == 18);
    reveal_strlit("tui_popup_lock_no"); assert("tui_popup_lock_no"@.len() == 17);
    reveal_strlit("tui_popup_port_title"); assert("tui_popup_port_title"@.len() == 20);
    reveal_strlit("tui_popup_port_suggest"); assert("tui_popup_port_suggest"@.len() == 22);
    reveal_strlit("tui_popup_port_current"); assert("tui_popup_port_current"@.len() == 22);
    reveal_strlit("tui_popup_port_placeholder"); assert("tui_popup_port_placeholder"@.len() == 26);
    reveal_strlit("tui_popup_enter"); assert("tui_popup_enter"@.len() == 15);
    reveal_strlit("tui_popup_esc"); assert("tui_popup_esc"@.len() == 13);
    reveal_strlit("tui_popup_esc_back"); assert("tui_popup_esc_back"@.len() == 18);
    reveal_strlit("tui_popup_updown"); assert("tui_popup_updown"@.len() == 16);
    reveal_strlit("tui_popup_enter_confirm"); assert("tui_popup_enter_confirm"@.len() == 23);
    reveal_strlit("tui_hint_enter_esc"); assert("tui_hint_enter_esc"@.len() == 18);
    reveal_strlit("tui_hint_updown_enter_esc"); assert("tui_hint_updown_enter_esc"@.len() == 25);
    reveal_strlit("tui_hint_enter_esc_back"); assert("tui_hint_enter_esc_back"@.len() == 23);
    reveal_strlit("tui_hint_updown_enter_esc_back"); assert("tui_hint_updown_enter_esc_back"@.len() == 30);
    reveal_strlit("tui_step_status_running"); assert("tui_step_status_running"@.len() == 23);
    reveal_strlit("tui_step_status_done"); assert("tui_step_status_done"@.len() == 20);
    reveal_strlit("tui_step_status_failed"); assert("tui_step_status_failed"@.len() == 22);
    reveal_strlit("log_running"); assert("log_running"@.len() == 11);
    reveal_strlit("log_completed"); assert("log_completed"@.len() == 13);
    reveal_strlit("{msg}");
    reveal_strlit("跳过: {msg}");
    assert("跳过: {msg}"@.subrange(4, 9) =~= "{msg}"@);
    assert(match_at("跳过: {msg}"@, "{msg}"@, 4));
    reveal_strlit("Skipped: {msg}");
    assert("Skipped: {msg}"@.subrange(9, 14) =~= "{msg}"@);
    assert(match_at("Skipped: {msg}"@, "{msg}"@, 9));
    reveal_strlit("跳過: {msg}");
    assert("跳過: {msg}"@.subrange(4, 9) =~= "{msg}"@);
    assert(match_at("跳過: {msg}"@, "{msg}"@, 4));
}

proof fn placeholders_log_failed()
    ensures
        zh_cn_text("log_failed"@) matches Some(t) && contains(t, "{err}"@),
        en_text("log_failed"@) matches Some(t) && contains(t, "{err}"@),
        zh_tw_text("log_failed"@) matches Some(t) && contains(t, "{err}"@),
{
    reveal_strlit("log_failed"); assert("log_failed"@.len() == 10);
    reveal_strlit("lang_en"); assert("lang_en"@.len() == 7);
    reveal_strlit("lang_zh_cn"); assert("log_failed"@[1] == 'o'); assert("lang_zh_cn"@[1] == 'a');
    reveal_strlit("lang_zh_tw"); assert("log_failed"@[1] == 'o'); assert("lang_zh_tw"@[1] == 'a');
    reveal_strlit("select_language"); assert("select_language"@.len() == 15);
    reveal_strlit("select_mode"); assert("select_mode"@.len() == 11);
    reveal_strlit("mode_cli"); assert("mode_cli"@.len() == 8);
    reveal_strlit("mode_tui"); assert("mode_tui"@.len() == 8);
    reveal_strlit("unknown_arg"); assert("unknown_arg"@.len() == 11);
    reveal_strlit("app_title"); assert("app_title"@.len() == 9);
    reveal_strlit("step_system_update"); assert("step_system_update"@.len() == 18);
    reveal_strlit("step_user_creation"); assert("step_user_creation"@.len() == 18);
    reveal_strlit("step_ssh_root_login"); assert("step_ssh_root_login"@.len() == 19);
    reveal_strlit("step_ssh_port_change"); assert("step_ssh_port_change"@.len() == 20);
    reveal_strlit("step_ssh_password_auth"); assert("step_ssh_password_auth"@.len() == 22);
    reveal_strlit("step_ssh_key_setup"); assert("step_ssh_key_setup"@.len() == 18);
    reveal_strlit("step_ufw"); assert("step_ufw"@.len() == 8);
    reveal_strlit("step_fail2ban"); assert("step_fail2ban"@.len() == 13);
    reveal_strlit("step_auto_updates"); assert("step_auto_updates"@.len() == 17);
    reveal_strlit("step_security_scan"); assert("step_security_scan"@.len() == 18);
    reveal_strlit("step_log_audit"); assert("step_log_audit"@.len() == 14);
    reveal_strlit("step_restart_ssh"); assert("step_restart_ssh"@.len() == 16);
    reveal_strlit("audit_root"); assert("log_failed"@[0] == 'l'); assert("audit_root"@[0] == 'a');
    reveal_strlit("audit_pkg_mgr"); assert("audit_pkg_mgr"@.len() == 13);
    reveal_strlit("audit_ssh_port"); assert("audit_ssh_port"@.len() == 14);
    reveal_strlit("audit_password_auth"); assert("audit_password_auth"@.len() == 19);
    reveal_strlit("audit_root_login"); assert("audit_root_login"@.len() == 16);
    reveal_strlit("audit_sudo_users"); assert("audit_sudo_users"@.len() == 16);
    reveal_strlit("audit_fail2ban"); assert("audit_fail2ban"@.len() == 14);
    reveal_strlit("audit_ufw"); assert("audit_ufw"@.len() == 9);
    reveal_strlit("audit_auto_updates"); assert("audit_auto_updates"@.len() == 18);
    reveal_strlit("audit_sys_update"); assert("audit_sys_update"@.len() == 16);
    reveal_strlit("audit_detail_root_ok"); assert("audit_detail_root_ok"@.len() == 20);
    reveal_strlit("audit_detail_root_missing"); assert("audit_detail_root_missing"@.len() == 25);
    reveal_strlit("audit_detail_pkg"); assert("audit_detail_pkg"@.len() == 16);
    reveal_strlit("audit_detail_port_safe"); assert("audit_detail_port_safe"@.len() == 22);
    reveal_strlit("audit_detail_port_missing"); assert("audit_detail_port_missing"@.len() == 25);
    reveal_strlit("audit_detail_pw_disabled"); assert("audit_detail_pw_disabled"@.len() == 24);
    reveal_strlit("audit_detail_pw_missing"); assert("audit_detail_pw_missing"@.len() == 23);
    reveal_strlit("audit_detail_root_disabled"); assert("audit_detail_root_disabled"@.len() == 26);
    reveal_strlit("audit_detail_root_missing_cfg"); assert("audit_detail_root_missing_cfg"@.len() == 29);
    reveal_strlit("audit_detail_sudo_missing"); assert("audit_detail_sudo_missing"@.len() == 25);
    reveal_strlit("audit_detail_sudo_ok"); assert("audit_detail_sudo_ok"@.len() == 20);
    reveal_strlit("audit_detail_fb_installed"); assert("audit_detail_fb_installed"@.len() == 25);
    reveal_strlit("audit_detail_fb_missing"); assert("audit_detail_fb_missing"@.len() == 23);
    reveal_strlit("audit_detail_ufw_enabled"); assert("audit_detail_ufw_enabled"@.len() == 24);
    reveal_strlit("audit_detail_ufw_missing"); assert("audit_detail_ufw_missing"@.len() == 24);
    reveal_strlit("audit_detail_au_enabled"); assert("audit_detail_au_enabled"@.len() == 23);
    reveal_strlit("audit_detail_au_missing"); assert("audit_detail_au_missing"@.len() == 23);
    reveal_strlit("audit_detail_sys_uptodate"); assert("audit_detail_sys_uptodate"@.len() == 25);
    reveal_strlit("audit_detail_sys_needs_update"); assert("audit_detail_sys_needs_update"@.len() == 29);
    reveal_strlit("status_safe"); assert("status_safe"@.len() == 11);
    reveal_strlit("status_partial"); assert("status_partial"@.len() == 14);
    reveal_strlit("status_missing"); assert("status_missing"@.len() == 14);
    reveal_strlit("status_needs_update"); assert("status_needs_update"@.len() == 19);
    reveal_strlit("pkg_apt"); assert("pkg_apt"@.len() == 7);
    reveal_strlit("pkg_yum"); assert("pkg_yum"@.len() == 7);
    reveal_strlit("pkg_dnf"); assert("pkg_dnf"@.len() == 7);
    reveal_strlit("pkg_unknown"); assert("pkg_unknown"@.len() == 11);
    reveal_strlit("err_permission_denied"); assert("err_permission_denied"@.len() == 21);
    reveal_strlit("err_cmd_failed"); assert("err_cmd_failed"@.len() == 14);
    reveal_strlit("err_parse_error"); assert("err_parse_error"@.len() == 15);
    reveal_strlit("err_precondition_failed"); assert("err_precondition_failed"@.len() == 23);
    reveal_strlit("err_user_aborted"); assert("err_user_aborted"@.len() == 16);
    reveal_strlit("err_unknown_pkg_mgr"); assert("err_unknown_pkg_mgr"@.len() == 19);
    reveal_strlit("err_unsupported_pkg"); assert("err_unsupported_pkg"@.len() == 19);
    reveal_strlit("err_auto_update_only_debian"); assert("err_auto_update_only_debian"@.len() == 27);
    reveal_strlit("err_unknown_pkg_lynis"); assert("err_unknown_pkg_lynis"@.len() == 21);
    reveal_strlit("err_sshd_not_found"); assert("err_sshd_not_found"@.len() == 18);
    reveal_strlit("err_no_username"); assert("err_no_username"@.len() == 15);
    reveal_strlit("err_user_exists"); assert("err_user_exists"@.len() == 15);
    reveal_strlit("err_no_sudo_before_root"); assert("err_no_sudo_before_root"@.len() == 23);
    reveal_strlit("err_no_ssh_port"); assert("err_no_ssh_port"@.len() == 15);
    reveal_strlit("err_port_zero"); assert("err_port_zero"@.len() == 13);
    reveal_strlit("err_no_sudo_before_pw"); assert("err_no_sudo_before_pw"@.len() == 21);
    reveal_strlit("err_no_target_user"); assert("err_no_target_user"@.len() == 18);
    reveal_strlit("err_no_key_action"); assert("err_no_key_action"@.len() == 17);
    reveal_strlit("err_update_failed"); assert("err_update_failed"@.len() == 17);
    reveal_strlit("err_upgrade_failed"); assert("err_upgrade_failed"@.len() == 18);
    reveal_strlit("err_ufw_allow_failed"); assert("err_ufw_allow_failed"@.len() == 20);
    reveal_strlit("err_ufw_enable_failed"); assert("err_ufw_enable_failed"@.len() == 21);
    reveal_strlit("err_install_fail2ban"); assert("err_install_fail2ban"@.len() == 20);
    reveal_strlit("err_install_unattended"); assert("err_install_unattended"@.len() == 22);
    reveal_strlit("err_lynis_exec"); assert("err_lynis_exec"@.len() == 14);
    reveal_strlit("err_sshd_check"); assert("err_sshd_check"@.len() == 14);
    reveal_strlit("err_sshd_syntax"); assert("err_sshd_syntax"@.len() == 15);
    reveal_strlit("err_ssh_restart"); assert("err_ssh_restart"@.len() == 15);
    reveal_strlit("err_backup"); assert("log_failed"@[0] == 'l'); assert("err_backup"@[0] == 'e');
    reveal_strlit("err_read"); assert("err_read"@.len() == 8);
    reveal_strlit("err_write"); assert("err_write"@.len() == 9);
    reveal_strlit("err_setup_signal"); assert("err_setup_signal"@.len() == 16);
    reveal_strlit("result_sys_updated"); assert("result_sys_updated"@.len() == 18);
    reveal_strlit("result_user_created"); assert("result_user_created"@.len() == 19);
    reveal_strlit("result_root_login_set"); assert("result_root_login_set"@.len() == 21);
    reveal_strlit("result_ssh_port_set"); assert("result_ssh_port_set"@.len() == 19);
    reveal_strlit("result_pw_auth_disabled"); assert("result_pw_auth_disabled"@.len() == 23);
    reveal_strlit("result_key_generated"); assert("result_key_generated"@.len() == 20);
    reveal_strlit("result_key_pasted"); assert("result_key_pasted"@.len() == 17);
    reveal_strlit("result_ufw_enabled"); assert("result_ufw_enabled"@.len() == 18);
    reveal_strlit("result_fail2ban_installed"); assert("result_fail2ban_installed"@.len() == 25);
    reveal_strlit("result_auto_updates_enabled"); assert("result_auto_updates_enabled"@.len() == 27);
    reveal_strlit("result_lynis_ok"); assert("result_lynis_ok"@.len() == 15);
    reveal_strlit("result_lynis_fail"); assert("result_lynis_fail"@.len() == 17);
    reveal_strlit("result_logwatch_installed"); assert("result_logwatch_installed"@.len() == 25);
    reveal_strlit("result_ssh_restarted"); assert("result_ssh_restarted"@.len() == 20);
    reveal_strlit("result_sshd_cfg_set"); assert("result_sshd_cfg_set"@.len() == 19);
    reveal_strlit("result_sshd_syntax_ok"); assert("result_sshd_syntax_ok"@.len() == 21);
    reveal_strlit("result_sshd_syntax_err"); assert("result_sshd_syntax_err"@.len() == 22);
    reveal_strlit("log_audit"); assert("log_audit"@.len() == 9);
    reveal_strlit("log_operation"); assert("log_operation"@.len() == 13);
    reveal_strlit("log_rollback"); assert("log_rollback"@.len() == 12);
    reveal_strlit("log_audit_start"); assert("log_audit_start"@.len() == 15);
    reveal_strlit("log_audit_done"); assert("log_audit_done"@.len() == 14);
    reveal_strlit("log_step_start"); assert("log_step_start"@.len() == 14);
    reveal_strlit("log_step_complete"); assert("log_step_complete"@.len() == 17);
    reveal_strlit("log_step_failed"); assert("log_step_failed"@.len() == 15);
    reveal_strlit("log_rollback_auto"); assert("log_rollback_auto"@.len() == 17);
    reveal_strlit("undo_user_remove"); assert("undo_user_remove"@.len() == 16);
    reveal_strlit("undo_pkg_remove"); assert("undo_pkg_remove"@.len() == 15);
    reveal_strlit("undo_cmd"); assert("undo_cmd"@.len() == 8);
    reveal_strlit("undo_file_restore"); assert("undo_file_restore"@.len() == 17);
    reveal_strlit("undo_ufw_disable"); assert("undo_ufw_disable"@.len() == 16);
    reveal_strlit("undo_ufw_delete"); assert("undo_ufw_delete"@.len() == 15);
    reveal_strlit("undo_key_delete"); assert("undo_key_delete"@.len() == 15);
    reveal_strlit("cli_welcome"); assert("cli_welcome"@.len() == 11);
    reveal_strlit("cli_auditing"); assert("cli_auditing"@.len() == 12);
    reveal_strlit("cli_audit_done"); assert("cli_audit_done"@.len() == 14);
    reveal_strlit("cli_select_steps"); assert("cli_select_steps"@.len() == 16);
    reveal_strlit("cli_hint_nav"); assert("cli_hint_nav"@.len() == 12);
    reveal_strlit("cli_collecting"); assert("cli_collecting"@.len() == 14);
    reveal_strlit("cli_will_execute"); assert("cli_will_execute"@.len() == 16);
    reveal_strlit("cli_confirm"); assert("cli_confirm"@.len() == 11);
    reveal_strlit("cli_cancelled"); assert("cli_cancelled"@.len() == 13);
    reveal_strlit("cli_no_selection"); assert("cli_no_selection"@.len() == 16);
    reveal_strlit("cli_executing"); assert("cli_executing"@.len() == 13);
    reveal_strlit("cli_summary_title"); assert("cli_summary_title"@.len() == 17);
    reveal_strlit("cli_summary_total"); assert("cli_summary_total"@.len() == 17);
    reveal_strlit("cli_log_saved"); assert("cli_log_saved"@.len() == 13);
    reveal_strlit("cli_create_user"); assert("cli_create_user"@.len() == 15);
    reveal_strlit("cli_username_prompt"); assert("cli_username_prompt"@.len() == 19);
    reveal_strlit("cli_username_empty"); assert("cli_username_empty"@.len() == 18);
    reveal_strlit("cli_username_exists"); assert("cli_username_exists"@.len() == 19);
    reveal_strlit("cli_username_invalid"); assert("cli_username_invalid"@.len() == 20);
    reveal_strlit("cli_lock_pw"); assert("cli_lock_pw"@.len() == 11);
    reveal_strlit("cli_current_port"); assert("cli_current_port"@.len() == 16);
    reveal_strlit("cli_default_port"); assert("cli_default_port"@.len() == 16);
    reveal_strlit("cli_suggest_port"); assert("cli_suggest_port"@.len() == 16);
    reveal_strlit("cli_port_prompt"); assert("cli_port_prompt"@.len() == 15);
    reveal_strlit("cli_port_invalid"); assert("cli_port_invalid"@.len() == 16);
    reveal_strlit("cli_port_zero"); assert("cli_port_zero"@.len() == 13);
    reveal_strlit("cli_existing_sudo"); assert("cli_existing_sudo"@.len() == 17);
    reveal_strlit("cli_no_sudo"); assert("cli_no_sudo"@.len() == 11);
    reveal_strlit("cli_manual_user"); assert("cli_manual_user"@.len() == 15);
    reveal_strlit("cli_user_prompt"); assert("cli_user_prompt"@.len() == 15);
    reveal_strlit("cli_no_input"); assert("cli_no_input"@.len() == 12);
    reveal_strlit("cli_select_user"); assert("cli_select_user"@.len() == 15);
    reveal_strlit("cli_key_found"); assert("cli_key_found"@.len() == 13);
    reveal_strlit("cli_key_action"); assert("cli_key_action"@.len() == 14);
    reveal_strlit("cli_key_generate"); assert("cli_key_generate"@.len() == 16);
    reveal_strlit("cli_key_paste"); assert("cli_key_paste"@.len() == 13);
    reveal_strlit("cli_key_skip"); assert("cli_key_skip"@.len() == 12);
    reveal_strlit("cli_key_prompt"); assert("cli_key_prompt"@.len() == 14);
    reveal_strlit("cli_ssh_port_info"); assert("cli_ssh_port_info"@.len() == 17);
    reveal_strlit("cli_ssh_suggest_info"); assert("cli_ssh_suggest_info"@.len() == 20);
    reveal_strlit("tui_title"); assert("tui_title"@.len() == 9);
    reveal_strlit("tui_audit_report"); assert("tui_audit_report"@.len() == 16);
    reveal_strlit("tui_steps_title"); assert("tui_steps_title"@.len() == 15);
    reveal_strlit("tui_help_title"); assert("tui_help_title"@.len() == 14);
    reveal_strlit("tui_help_move"); assert("tui_help_move"@.len() == 13);
    reveal_strlit("tui_help_toggle"); assert("tui_help_toggle"@.len() == 15);
    reveal_strlit("tui_help_batch"); assert("tui_help_batch"@.len() == 14);
    reveal_strlit("tui_help_single"); assert("tui_help_single"@.len() == 15);
    reveal_strlit("tui_help_reauth"); assert("tui_help_reauth"@.len() == 15);
    reveal_strlit("tui_help_quit"); assert("tui_help_quit"@.len() == 13);
    reveal_strlit("tui_selected_count"); assert("tui_selected_count"@.len() == 18);
    reveal_strlit("tui_single_hint"); assert("tui_single_hint"@.len() == 15);
    reveal_strlit("tui_exec_title"); assert("tui_exec_title"@.len() == 14);
    reveal_strlit("tui_exec_running"); assert("tui_exec_running"@.len() == 16);
    reveal_strlit("tui_exec_done"); assert("tui_exec_done"@.len() == 13);
    reveal_strlit("tui_exec_skip"); assert("tui_exec_skip"@.len() == 13);
    reveal_strlit("tui_exec_failed"); assert("tui_exec_failed"@.len() == 15);
    reveal_strlit("tui_exec_interrupted"); assert("tui_exec_interrupted"@.len() == 20);
    reveal_strlit("tui_result_title"); assert("tui_result_title"@.len() == 16);
    reveal_strlit("tui_result_summary"); assert("tui_result_summary"@.len() == 18);
    reveal_strlit("tui_result_return"); assert("tui_result_return"@.len() == 17);
    reveal_strlit("tui_footer_select"); assert("tui_footer_select"@.len() == 17);
    reveal_strlit("tui_footer_exec"); assert("tui_footer_exec"@.len() == 15);
    reveal_strlit("tui_footer_summary"); assert("tui_footer_summary"@.len() == 18);
    reveal_strlit("tui_popup_username"); assert("tui_popup_username"@.len() == 18);
    reveal_strlit("tui_popup_enter_user"); assert("tui_popup_enter_user"@.len() == 20);
    reveal_strlit("tui_popup_select_user"); assert("tui_popup_select_user"@.len() == 21);
    reveal_strlit("tui_popup_select_action"); assert("tui_popup_select_action"@.len() == 23);
    reveal_strlit("tui_popup_gen_key"); assert("tui_popup_gen_key"@.len() == 17);
    reveal_strlit("tui_popup_paste_key"); assert("tui_popup_paste_key"@.len() == 19);
    reveal_strlit("tui_popup_skip"); assert("tui_popup_skip"@.len() == 14);
    reveal_strlit("tui_popup_paste_title"); assert("tui_popup_paste_title"@.len() == 21);
    reveal_strlit("tui_popup_paste_hint"); assert("tui_popup_paste_hint"@.len() == 20);
    reveal_strlit("tui_popup_overwrite_title"); assert("tui_popup_overwrite_title"@.len() == 25);
    reveal_strlit("tui_popup_overwrite_yes"); assert("tui_popup_overwrite_yes"@.len() == 23);
    reveal_strlit("tui_popup_overwrite_no"); assert("tui_popup_overwrite_no"@.len() == 22);
    reveal_strlit("tui_popup_new_user"); assert("tui_popup_new_user"@.len() == 18);
    reveal_strlit("tui_popup_lock_title"); assert("tui_popup_lock_title"@.len() == 20);
    reveal_strlit("tui_popup_lock_yes"); assert("tui_popup_lock_yes"@.len() == 18);
    reveal_strlit("tui_popup_lock_no"); assert("tui_popup_lock_no"@.len() == 17);
    reveal_strlit("tui_popup_port_title"); assert("tui_popup_port_title"@.len() == 20);
    reveal_strlit("tui_popup_port_suggest"); assert("tui_popup_port_suggest"@.len() == 22);
    reveal_strlit("tui_popup_port_current"); assert("tui_popup_port_current"@.len() == 22);
    reveal_strlit("tui_popup_port_placeholder"); assert("tui_popup_port_placeholder"@.len() == 26);
    reveal_strlit("tui_popup_enter"); assert("tui_popup_enter"@.len() == 15);
    reveal_strlit("tui_popup_esc"); assert("tui_popup_esc"@.len() == 13);
    reveal_strlit("tui_popup_esc_back"); assert("tui_popup_esc_back"@.len() == 18);
    reveal_strlit("tui_popup_updown"); assert("tui_popup_updown"@.len() == 16);
    reveal_strlit("tui_popup_enter_confirm"); assert("tui_popup_enter_confirm"@.len() == 23);
    reveal_strlit("tui_hint_enter_esc"); assert("tui_hint_enter_esc"@.len() == 18);
    reveal_strlit("tui_hint_updown_enter_esc"); assert("tui_hint_updown_enter_esc"@.len() == 25);
    reveal_strlit("tui_hint_enter_esc_back"); assert("tui_hint_enter_esc_back"@.len() == 23);
    reveal_strlit("tui_hint_updown_enter_esc_back"); assert("tui_hint_updown_enter_esc_back"@.len() == 30);
    reveal_strlit("tui_step_status_running"); assert("tui_step_status_running"@.len() == 23);
    reveal_strlit("tui_step_status_done"); assert("tui_step_status_done"@.len() == 20);
    reveal_strlit("tui_step_status_failed"); assert("tui_step_status_failed"@.len() == 22);
    reveal_strlit("log_running"); assert("log_running"@.len() == 11);
    reveal_strlit("log_completed"); assert("log_completed"@.len() == 13);
    reveal_strlit("log_skip"); assert("log_skip"@.len() == 8);
    reveal_strlit("{err}");
    reveal_strlit("失败: {err}");
    assert("失败: {err}"@.subrange(4, 9) =~= "{err}"@);
    assert(match_at("失败: {err}"@, "{err}"@, 4));
    reveal_strlit("Failed: {err}");
    assert("Failed: {err}"@.subrange(8, 13) =~= "{err}"@);
    assert(match_at("Failed: {err}"@, "{err}"@, 8));
    reveal_strlit("失敗: {err}");
    assert("失敗: {err}"@.subrange(4, 9) =~= "{err}"@);
    assert(match_at("失敗: {err}"@, "{err}"@, 4));
}

/// The placeholders, as `{name}`, that each entry's text holds.
pub open spec fn listed_placeholder(key: Seq<char>, p: Seq<char>) -> bool {
    ||| (key == "unknown_arg"@ && p == "{arg}"@)
    ||| (key == "audit_detail_pkg"@ && p == "{pkg}"@)
    ||| (key == "audit_detail_port_safe"@ && p == "{port}"@)
    ||| (key == "audit_detail_sudo_ok"@ && p == "{users}"@)
    ||| (key == "err_cmd_failed"@ && p == "{msg}"@)
    ||| (key == "err_parse_error"@ && p == "{msg}"@)
    ||| (key == "err_precondition_failed"@ && p == "{msg}"@)
    ||| (key == "err_user_exists"@ && p == "{user}"@)
    ||| (key == "result_user_created"@ && p == "{user}"@)
    ||| (key == "result_root_login_set"@ && p == "{bak}"@)
    ||| (key == "result_ssh_port_set"@ && p == "{msg}"@)
    ||| (key == "result_ssh_port_set"@ && p == "{port}"@)
    ||| (key == "result_key_generated"@ && p == "{key}"@)
    ||| (key == "result_key_generated"@ && p == "{priv}"@)
    ||| (key == "result_key_generated"@ && p == "{pub}"@)
    ||| (key == "result_key_pasted"@ && p == "{user}"@)
    ||| (key == "result_ufw_enabled"@ && p == "{port}"@)
    ||| (key == "result_fail2ban_installed"@ && p == "{port}"@)
    ||| (key == "result_lynis_ok"@ && p == "{suggs}"@)
    ||| (key == "result_lynis_ok"@ && p == "{warns}"@)
    ||| (key == "result_logwatch_installed"@ && p == "{installed}"@)
    ||| (key == "result_ssh_restarted"@ && p == "{status}"@)
    ||| (key == "result_sshd_cfg_set"@ && p == "{bak}"@)
    ||| (key == "result_sshd_cfg_set"@ && p == "{key}"@)
    ||| (key == "result_sshd_cfg_set"@ && p == "{value}"@)
    ||| (key == "result_sshd_syntax_err"@ && p == "{err}"@)
    ||| (key == "log_audit_done"@ && p == "{n}"@)
    ||| (key == "undo_user_remove"@ && p == "{user}"@)
    ||| (key == "undo_pkg_remove"@ && p == "{pkg}"@)
    ||| (key == "undo_cmd"@ && p == "{desc}"@)
    ||| (key == "undo_file_restore"@ && p == "{key}"@)
    ||| (key == "undo_ufw_delete"@ && p == "{port}"@)
    ||| (key == "undo_key_delete"@ && p == "{user}"@)
    ||| (key == "cli_welcome"@ && p == "{ver}"@)
    ||| (key == "cli_summary_total"@ && p == "{fail}"@)
    ||| (key == "cli_summary_total"@ && p == "{ok}"@)
    ||| (key == "cli_current_port"@ && p == "{port}"@)
    ||| (key == "cli_suggest_port"@ && p == "{port}"@)
    ||| (key == "cli_existing_sudo"@ && p == "{users}"@)
    ||| (key == "cli_key_found"@ && p == "{fp}"@)
    ||| (key == "cli_key_found"@ && p == "{user}"@)
    ||| (key == "cli_key_action"@ && p == "{user}"@)
    ||| (key == "cli_ssh_port_info"@ && p == "{port_str}"@)
    ||| (key == "cli_ssh_suggest_info"@ && p == "{port}"@)
    ||| (key == "tui_steps_title"@ && p == "{n}"@)
    ||| (key == "tui_selected_count"@ && p == "{n}"@)
    ||| (key == "tui_exec_running"@ && p == "{step}"@)
    ||| (key == "tui_exec_done"@ && p == "{step}"@)
    ||| (key == "tui_exec_skip"@ && p == "{msg}"@)
    ||| (key == "tui_exec_failed"@ && p == "{err}"@)
    ||| (key == "tui_result_summary"@ && p == "{fail}"@)
    ||| (key == "tui_result_summary"@ && p == "{ok}"@)
    ||| (key == "tui_popup_port_suggest"@ && p == "{port}"@)
    ||| (key == "tui_popup_port_current"@ && p == "{port}"@)
    ||| (key == "log_running"@ && p == "{step}"@)
    ||| (key == "log_completed"@ && p == "{step}"@)
    ||| (key == "log_skip"@ && p == "{msg}"@)
    ||| (key == "log_failed"@ && p == "{err}"@)
}

/// Every listed placeholder of an entry is in the entry's text in all three
/// languages, so replacing it works whichever language is in use.
pub proof fn law_placeholders_in_every_language(key: Seq<char>, p: Seq<char>)
    requires
        listed_placeholder(key, p),
    ensures
        zh_cn_text(key) matches Some(t) && contains(t, p),
        en_text(key) matches Some(t) && contains(t, p),
        zh_tw_text(key) matches Some(t) && contains(t, p),
{
    if key == "unknown_arg"@ && p == "{arg}"@ {
        placeholders_unknown_arg();
    } else if key == "audit_detail_pkg"@ && p == "{pkg}"@ {
        placeholders_audit_detail_pkg();
    } else if key == "audit_detail_port_safe"@ && p == "{port}"@ {
        placeholders_audit_detail_port_safe();
    } else if key == "audit_detail_sudo_ok"@ && p == "{users}"@ {
        placeholders_audit_detail_sudo_ok();
    } else if key == "err_cmd_failed"@ && p == "{msg}"@ {
        placeholders_err_cmd_failed();
    } else if key == "err_parse_error"@ && p == "{msg}"@ {
        placeholders_err_parse_error();
    } else if key == "err_precondition_failed"@ && p == "{msg}"@ {
        placeholders_err_precondition_failed();
    } else if key == "err_user_exists"@ && p == "{user}"@ {
        placeholders_err_user_exists();
    } else if key == "result_user_created"@ && p == "{user}"@ {
        placeholders_result_user_created();
    } else if key == "result_root_login_set"@ && p == "{bak}"@ {
        placeholders_result_root_login_set();
    } else if key == "result_ssh_port_set"@ && p == "{msg}"@ {
        placeholders_result_ssh_port_set();
    } else if key == "result_ssh_port_set"@ && p == "{port}"@ {
        placeholders_result_ssh_port_set();
    } else if key == "result_key_generated"@ && p == "{key}"@ {
        placeholders_result_key_generated();
    } else if key == "result_key_generated"@ && p == "{priv}"@ {
        placeholders_result_key_generated();
    } else if key == "result_key_generated"@ && p == "{pub}"@ {
        placeholders_result_key_generated();
    } else if key == "result_key_pasted"@ && p == "{user}"@ {
        placeholders_result_key_pasted();
    } else if key == "result_ufw_enabled"@ && p == "{port}"@ {
        placeholders_result_ufw_enabled();
    } else if key == "result_fail2ban_installed"@ && p == "{port}"@ {
        placeholders_result_fail2ban_installed();
    } else if key == "result_lynis_ok"@ && p == "{suggs}"@ {
        placeholders_result_lynis_ok();
    } else if key == "result_lynis_ok"@ && p == "{warns}"@ {
        placeholders_result_lynis_ok();
    } else if key == "result_logwatch_installed"@ && p == "{installed}"@ {
        placeholders_result_logwatch_installed();
    } else if key == "result_ssh_restarted"@ && p == "{status}"@ {
        placeholders_result_ssh_restarted();
    } else if key == "result_sshd_cfg_set"@ && p == "{bak}"@ {
        placeholders_result_sshd_cfg_set();
    } else if key == "result_sshd_cfg_set"@ && p == "{key}"@ {
        placeholders_result_sshd_cfg_set();
    } else if key == "result_sshd_cfg_set"@ && p == "{value}"@ {
        placeholders_result_sshd_cfg_set();
    } else if key == "result_sshd_syntax_err"@ && p == "{err}"@ {
        placeholders_result_sshd_syntax_err();
    } else if key == "log_audit_done"@ && p == "{n}"@ {
        placeholders_log_audit_done();
    } else if key == "undo_user_remove"@ && p == "{user}"@ {
        placeholders_undo_user_remove();
    } else if key == "undo_pkg_remove"@ && p == "{pkg}"@ {
        placeholders_undo_pkg_remove();
    } else if key == "undo_cmd"@ && p == "{desc}"@ {
        placeholders_undo_cmd();
    } else if key == "undo_file_restore"@ && p == "{key}"@ {
        placeholders_undo_file_restore();
    } else if key == "undo_ufw_delete"@ && p == "{port}"@ {
        placeholders_undo_ufw_delete();
    } else if key == "undo_key_delete"@ && p == "{user}"@ {
        placeholders_undo_key_delete();
    } else if key == "cli_welcome"@ && p == "{ver}"@ {
        placeholders_cli_welcome();
    } else if key == "cli_summary_total"@ && p == "{fail}"@ {
        placeholders_cli_summary_total();
    } else if key == "cli_summary_total"@ && p == "{ok}"@ {
        placeholders_cli_summary_total();
    } else if key == "cli_current_port"@ && p == "{port}"@ {
        placeholders_cli_current_port();
    } else if key == "cli_suggest_port"@ && p == "{port}"@ {
        placeholders_cli_suggest_port();
    } else if key == "cli_existing_sudo"@ && p == "{users}"@ {
        placeholders_cli_existing_sudo();
    } else if key == "cli_key_found"@ && p == "{fp}"@ {
        placeholders_cli_key_found();
    } else if key == "cli_key_found"@ && p == "{user}"@ {
        placeholders_cli_key_found();
    } else if key == "cli_key_action"@ && p == "{user}"@ {
        placeholders_cli_key_action();
    } else if key == "cli_ssh_port_info"@ && p == "{port_str}"@ {
        placeholders_cli_ssh_port_info();
    } else if key == "cli_ssh_suggest_info"@ && p == "{port}"@ {
        placeholders_cli_ssh_suggest_info();
    } else if key == "tui_steps_title"@ && p == "{n}"@ {
        placeholders_tui_steps_title();
    } else if key == "tui_selected_count"@ && p == "{n}"@ {
        placeholders_tui_selected_count();
    } else if key == "tui_exec_running"@ && p == "{step}"@ {
        placeholders_tui_exec_running();
    } else if key == "tui_exec_done"@ && p == "{step}"@ {
        placeholders_tui_exec_done();
    } else if key == "tui_exec_skip"@ && p == "{msg}"@ {
        placeholders_tui_exec_skip();
    } else if key == "tui_exec_failed"@ && p == "{err}"@ {
        placeholders_tui_exec_failed();
    } else if key == "tui_result_summary"@ && p == "{fail}"@ {
        placeholders_tui_result_summary();
    } else if key == "tui_result_summary"@ && p == "{ok}"@ {
        placeholders_tui_result_summary();
    } else if key == "tui_popup_port_suggest"@ && p == "{port}"@ {
        placeholders_tui_popup_port_suggest();
    } else if key == "tui_popup_port_current"@ && p == "{port}"@ {
        placeholders_tui_popup_port_current();
    } else if key == "log_running"@ && p == "{step}"@ {
        placeholders_log_running();
    } else if key == "log_completed"@ && p == "{step}"@ {
        placeholders_log_completed();
    } else if key == "log_skip"@ && p == "{msg}"@ {
        placeholders_log_skip();
    } else if key == "log_failed"@ && p == "{err}"@ {
        placeholders_log_failed();
    }
}

} // verus!
