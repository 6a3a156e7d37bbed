//! Translation tables for the user interface (English, Simplified and Traditional Chinese).
//!
//! Each table is a spec function from key to text; the executable lookups are
//! proved to return exactly what the tables say, and `translate` falls back to
//! the key itself when a table has no entry.
use vstd::prelude::*;

use crate::text::{chars_of, chars_eq};

verus! {

/// Interface language.
#[derive(Clone, Copy, Debug, PartialEq, Eq, Structural)]
pub enum Lang {
    /// English
    En,
    /// Simplified Chinese
    ZhCn,
    /// Traditional Chinese
    ZhTw,
}

impl Lang {
    /// The languages offered for selection, in menu order.
    pub fn all() -> (r: &'static [Lang])
        ensures
            r@ == seq![Lang::ZhCn, Lang::ZhTw, Lang::En],
    {
        let r: &'static [Lang] = &[Lang::ZhCn, Lang::ZhTw, Lang::En];
        assert(r@ =~= seq![Lang::ZhCn, Lang::ZhTw, Lang::En]);
        r
    }

    /// The language's own name.
    pub fn label(&self) -> (r: &'static str)
        ensures
            r@ == lang_label(*self),
    {
        match self {
            Lang::En => "English",
            Lang::ZhCn => "简体中文",
            Lang::ZhTw => "繁體中文",
        }
    }
}

pub open spec fn lang_label(l: Lang) -> Seq<char> {
    match l {
        Lang::En => "English"@,
        Lang::ZhCn => "简体中文"@,
        Lang::ZhTw => "繁體中文"@,
    }
}

/// The text that `lang`'s table holds for `key`, if any.
pub open spec fn table_text(lang: Lang, key: Seq<char>) -> Option<Seq<char>> {
    match lang {
        Lang::En => en_text(key),
        Lang::ZhCn => zh_cn_text(key),
        Lang::ZhTw => zh_tw_text(key),
    }
}

/// What `translate` returns: the table's text, or the key itself when the table has none.
pub open spec fn translation(lang: Lang, key: Seq<char>) -> Seq<char> {
    match table_text(lang, key) {
        Some(t) => t,
        None => key,
    }
}

/// Looks `key` up in the table of `lang`; an unknown key is returned unchanged.
pub fn translate(lang: Lang, key: &'static str) -> (r: &'static str)
    ensures
        r@ == translation(lang, key@),
{
    let found = match lang {
        Lang::En => en(key),
        Lang::ZhCn => zh_cn(key),
        Lang::ZhTw => zh_tw(key),
    };
    match found {
        Some(t) => t,
        None => key,
    }
}

/// Short alias of [`translate`].
pub fn tr(lang: Lang, key: &'static str) -> (r: &'static str)
    ensures
        r@ == translation(lang, key@),
{
    translate(lang, key)
}

/// The interface language of a run, chosen at most once; until it is chosen it is
/// Simplified Chinese.
pub struct LanguageSetting {
    chosen: Option<Lang>,
}

impl View for LanguageSetting {
    type V = Option<Lang>;

    closed spec fn view(&self) -> Option<Lang> {
        self.chosen
    }
}

/// The language in use under a setting.
pub open spec fn language_in_use(chosen: Option<Lang>) -> Lang {
    match chosen {
        Some(l) => l,
        None => Lang::ZhCn,
    }
}

impl LanguageSetting {
    /// Nothing chosen yet.
    pub fn new() -> (r: Self)
        ensures
            r@ is None,
    {
        LanguageSetting { chosen: None }
    }

    /// Chooses `lang`, unless a language was chosen before: the first choice stays.
    pub fn init(&mut self, lang: Lang)
        ensures
            final(self)@ == match old(self)@ {
                Some(l) => Some(l),
                None => Some(lang),
            },
    {
        if self.chosen.is_none() {
            self.chosen = Some(lang);
        }
    }

    /// The language in use.
    pub fn current(&self) -> (r: Lang)
        ensures
            r == language_in_use(self@),
    {
        match self.chosen {
            Some(l) => l,
            None => Lang::ZhCn,
        }
    }
}

/// A key without an entry translates to itself, in every language.
pub proof fn law_unknown_key_is_kept(lang: Lang, key: Seq<char>)
    requires
        table_text(lang, key) is None,
    ensures
        translation(lang, key) == key,
{
}

/// The three tables have entries for the same keys, except `err_setup_signal`,
/// which only the Simplified Chinese table has.
#[verifier::rlimit(100)]
pub proof fn law_tables_share_keys(key: Seq<char>)
    ensures
        zh_tw_text(key) is Some <==> en_text(key) is Some,
        zh_tw_text(key) is Some ==> zh_cn_text(key) is Some,
        zh_cn_text(key) is Some && key != "err_setup_signal"@ ==> zh_tw_text(key) is Some,
{
}

fn key_is(key: &Vec<char>, lit: &str) -> (r: bool)
    ensures
        r == (key@ == lit@),
{
    let l = chars_of(lit);
    chars_eq(key, &l)
}

pub open spec fn opt_view(o: Option<&'static str>) -> Option<Seq<char>> {
    match o {
        Some(s) => Some(s@),
        None => None,
    }
}


pub open spec fn zh_cn_text_0(key: Seq<char>) -> Option<Seq<char>> {
    if key == "lang_en"@ {
        Some("English"@)
    } else if key == "lang_zh_cn"@ {
        Some("简体中文"@)
    } else if key == "lang_zh_tw"@ {
        Some("繁體中文"@)
    } else if key == "select_language"@ {
        Some("选择语言"@)
    } else if key == "select_mode"@ {
        Some("请选择启动模式"@)
    } else if key == "mode_cli"@ {
        Some("CLI 模式（传统交互式）"@)
    } else if key == "mode_tui"@ {
        Some("TUI 模式（终端图形界面）"@)
    } else if key == "unknown_arg"@ {
        Some("未知参数: {arg}，使用 -c (CLI) 或 -t (TUI)"@)
    } else if key == "app_title"@ {
        Some("U2Secure — Linux 服务器安全加固工具"@)
    } else if key == "step_system_update"@ {
        Some("系统更新"@)
    } else if key == "step_user_creation"@ {
        Some("非 root 用户创建"@)
    } else if key == "step_ssh_root_login"@ {
        Some("禁止 root SSH 登录"@)
    } else if key == "step_ssh_port_change"@ {
        Some("SSH 端口修改"@)
    } else if key == "step_ssh_password_auth"@ {
        Some("禁止密码登录"@)
    } else if key == "step_ssh_key_setup"@ {
        Some("ED25519 密钥设置"@)
    } else if key == "step_ufw"@ {
        Some("UFW 防火墙配置"@)
    } else if key == "step_fail2ban"@ {
        Some("Fail2ban 安装配置"@)
    } else if key == "step_auto_updates"@ {
        Some("自动安全更新"@)
    } else if key == "step_security_scan"@ {
        Some("安全扫描"@)
    } else if key == "step_log_audit"@ {
        Some("日志与审计增强"@)
    } else if key == "step_restart_ssh"@ {
        Some("SSH 服务重启与验证"@)
    } else if key == "audit_root"@ {
        Some("当前用户权限"@)
    } else if key == "audit_pkg_mgr"@ {
        Some("包管理器"@)
    } else if key == "audit_ssh_port"@ {
        Some("SSH 端口"@)
    } else if key == "audit_password_auth"@ {
        Some("密码登录"@)
    } else if key == "audit_root_login"@ {
        Some("root 登录"@)
    } else if key == "audit_sudo_users"@ {
        Some("sudo 用户"@)
    } else if key == "audit_fail2ban"@ {
        Some("Fail2ban"@)
    } else {
        None
    }
}

fn zh_cn_part_0(key: &Vec<char>) -> (r: Option<&'static str>)
    ensures
        opt_view(r) == zh_cn_text_0(key@),
{
    if key_is(key, "lang_en") {
        return Some("English");
    }
    if key_is(key, "lang_zh_cn") {
        return Some("简体中文");
    }
    if key_is(key, "lang_zh_tw") {
        return Some("繁體中文");
    }
    if key_is(key, "select_language") {
        return Some("选择语言");
    }
    if key_is(key, "select_mode") {
        return Some("请选择启动模式");
    }
    if key_is(key, "mode_cli") {
        return Some("CLI 模式（传统交互式）");
    }
    if key_is(key, "mode_tui") {
        return Some("TUI 模式（终端图形界面）");
    }
    if key_is(key, "unknown_arg") {
        return Some("未知参数: {arg}，使用 -c (CLI) 或 -t (TUI)");
    }
    if key_is(key, "app_title") {
        return Some("U2Secure — Linux 服务器安全加固工具");
    }
    if key_is(key, "step_system_update") {
        return Some("系统更新");
    }
    if key_is(key, "step_user_creation") {
        return Some("非 root 用户创建");
    }
    if key_is(key, "step_ssh_root_login") {
        return Some("禁止 root SSH 登录");
    }
    if key_is(key, "step_ssh_port_change") {
        return Some("SSH 端口修改");
    }
    if key_is(key, "step_ssh_password_auth") {
        return Some("禁止密码登录");
    }
    if key_is(key, "step_ssh_key_setup") {
        return Some("ED25519 密钥设置");
    }
    if key_is(key, "step_ufw") {
        return Some("UFW 防火墙配置");
    }
    if key_is(key, "step_fail2ban") {
        return Some("Fail2ban 安装配置");
    }
    if key_is(key, "step_auto_updates") {
        return Some("自动安全更新");
    }
    if key_is(key, "step_security_scan") {
        return Some("安全扫描");
    }
    if key_is(key, "step_log_audit") {
        return Some("日志与审计增强");
    }
    if key_is(key, "step_restart_ssh") {
        return Some("SSH 服务重启与验证");
    }
    if key_is(key, "audit_root") {
        return Some("当前用户权限");
    }
    if key_is(key, "audit_pkg_mgr") {
        return Some("包管理器");
    }
    if key_is(key, "audit_ssh_port") {
        return Some("SSH 端口");
    }
    if key_is(key, "audit_password_auth") {
        return Some("密码登录");
    }
    if key_is(key, "audit_root_login") {
        return Some("root 登录");
    }
    if key_is(key, "audit_sudo_users") {
        return Some("sudo 用户");
    }
    if key_is(key, "audit_fail2ban") {
        return Some("Fail2ban");
    }
    None
}

pub open spec fn zh_cn_text_1(key: Seq<char>) -> Option<Seq<char>> {
    if key == "audit_ufw"@ {
        Some("UFW 防火墙"@)
    } else if key == "audit_auto_updates"@ {
        Some("自动安全更新"@)
    } else if key == "audit_sys_update"@ {
        Some("系统更新状态"@)
    } else if key == "audit_detail_root_ok"@ {
        Some("已以 root 运行"@)
    } else if key == "audit_detail_root_missing"@ {
        Some("非 root 用户，需要 root 权限"@)
    } else if key == "audit_detail_pkg"@ {
        Some("检测到 {pkg}"@)
    } else if key == "audit_detail_port_safe"@ {
        Some("已自定义为 {port}"@)
    } else if key == "audit_detail_port_missing"@ {
        Some("默认端口 22"@)
    } else if key == "audit_detail_pw_disabled"@ {
        Some("已禁用"@)
    } else if key == "audit_detail_pw_missing"@ {
        Some("密码登录未禁用"@)
    } else if key == "audit_detail_root_disabled"@ {
        Some("已禁止"@)
    } else if key == "audit_detail_root_missing_cfg"@ {
        Some("root 登录未禁止"@)
    } else if key == "audit_detail_sudo_missing"@ {
        Some("未检测到非 root 管理用户"@)
    } else if key == "audit_detail_sudo_ok"@ {
        Some("已存在: {users}"@)
    } else if key == "audit_detail_fb_installed"@ {
        Some("已安装"@)
    } else if key == "audit_detail_fb_missing"@ {
        Some("未安装"@)
    } else if key == "audit_detail_ufw_enabled"@ {
        Some("已启用"@)
    } else if key == "audit_detail_ufw_missing"@ {
        Some("未启用"@)
    } else if key == "audit_detail_au_enabled"@ {
        Some("已启用"@)
    } else if key == "audit_detail_au_missing"@ {
        Some("未启用"@)
    } else if key == "audit_detail_sys_uptodate"@ {
        Some("缓存未过期"@)
    } else if key == "audit_detail_sys_needs_update"@ {
        Some("缓存已过期，建议更新"@)
    } else if key == "status_safe"@ {
        Some("✅"@)
    } else if key == "status_partial"@ {
        Some("⚠️"@)
    } else if key == "status_missing"@ {
        Some("❌"@)
    } else if key == "status_needs_update"@ {
        Some("🔄"@)
    } else if key == "pkg_apt"@ {
        Some("apt"@)
    } else if key == "pkg_yum"@ {
        Some("yum"@)
    } else {
        None
    }
}

fn zh_cn_part_1(key: &Vec<char>) -> (r: Option<&'static str>)
    ensures
        opt_view(r) == zh_cn_text_1(key@),
{
    if key_is(key, "audit_ufw") {
        return Some("UFW 防火墙");
    }
    if key_is(key, "audit_auto_updates") {
        return Some("自动安全更新");
    }
    if key_is(key, "audit_sys_update") {
        return Some("系统更新状态");
    }
    if key_is(key, "audit_detail_root_ok") {
        return Some("已以 root 运行");
    }
    if key_is(key, "audit_detail_root_missing") {
        return Some("非 root 用户，需要 root 权限");
    }
    if key_is(key, "audit_detail_pkg") {
        return Some("检测到 {pkg}");
    }
    if key_is(key, "audit_detail_port_safe") {
        return Some("已自定义为 {port}");
    }
    if key_is(key, "audit_detail_port_missing") {
        return Some("默认端口 22");
    }
    if key_is(key, "audit_detail_pw_disabled") {
        return Some("已禁用");
    }
    if key_is(key, "audit_detail_pw_missing") {
        return Some("密码登录未禁用");
    }
    if key_is(key, "audit_detail_root_disabled") {
        return Some("已禁止");
    }
    if key_is(key, "audit_detail_root_missing_cfg") {
        return Some("root 登录未禁止");
    }
    if key_is(key, "audit_detail_sudo_missing") {
        return Some("未检测到非 root 管理用户");
    }
    if key_is(key, "audit_detail_sudo_ok") {
        return Some("已存在: {users}");
    }
    if key_is(key, "audit_detail_fb_installed") {
        return Some("已安装");
    }
    if key_is(key, "audit_detail_fb_missing") {
        return Some("未安装");
    }
    if key_is(key, "audit_detail_ufw_enabled") {
        return Some("已启用");
    }
    if key_is(key, "audit_detail_ufw_missing") {
        return Some("未启用");
    }
    if key_is(key, "audit_detail_au_enabled") {
        return Some("已启用");
    }
    if key_is(key, "audit_detail_au_missing") {
        return Some("未启用");
    }
    if key_is(key, "audit_detail_sys_uptodate") {
        return Some("缓存未过期");
    }
    if key_is(key, "audit_detail_sys_needs_update") {
        return Some("缓存已过期，建议更新");
    }
    if key_is(key, "status_safe") {
        return Some("✅");
    }
    if key_is(key, "status_partial") {
        return Some("⚠️");
    }
    if key_is(key, "status_missing") {
        return Some("❌");
    }
    if key_is(key, "status_needs_update") {
        return Some("🔄");
    }
    if key_is(key, "pkg_apt") {
        return Some("apt");
    }
    if key_is(key, "pkg_yum") {
        return Some("yum");
    }
    None
}

pub open spec fn zh_cn_text_2(key: Seq<char>) -> Option<Seq<char>> {
    if key == "pkg_dnf"@ {
        Some("dnf"@)
    } else if key == "pkg_unknown"@ {
        Some("unknown"@)
    } else if key == "err_permission_denied"@ {
        Some("需要 root 权限运行"@)
    } else if key == "err_cmd_failed"@ {
        Some("系统命令执行失败: {msg}"@)
    } else if key == "err_parse_error"@ {
        Some("配置解析错误: {msg}"@)
    } else if key == "err_precondition_failed"@ {
        Some("前置条件不满足: {msg}"@)
    } else if key == "err_user_aborted"@ {
        Some("用户取消操作"@)
    } else if key == "err_unknown_pkg_mgr"@ {
        Some("无法识别的包管理器"@)
    } else if key == "err_unsupported_pkg"@ {
        Some("不支持的包管理器"@)
    } else if key == "err_auto_update_only_debian"@ {
        Some("自动安全更新仅支持 Debian/Ubuntu"@)
    } else if key == "err_unknown_pkg_lynis"@ {
        Some("无法确定包管理器，请手动安装 lynis"@)
    } else if key == "err_sshd_not_found"@ {
        Some("sshd_config 不存在"@)
    } else if key == "err_no_username"@ {
        Some("未提供用户名"@)
    } else if key == "err_user_exists"@ {
        Some("用户 '{user}' 已存在"@)
    } else if key == "err_no_sudo_before_root"@ {
        Some("禁止 root 登录前请先创建 sudo 用户"@)
    } else if key == "err_no_ssh_port"@ {
        Some("未提供新 SSH 端口"@)
    } else if key == "err_port_zero"@ {
        Some("端口 0 无效"@)
    } else if key == "err_no_sudo_before_pw"@ {
        Some("禁止密码登录前请先创建 sudo 用户"@)
    } else if key == "err_no_target_user"@ {
        Some("未提供目标用户名"@)
    } else if key == "err_no_key_action"@ {
        Some("未选择密钥操作"@)
    } else if key == "err_update_failed"@ {
        Some("update 失败"@)
    } else if key == "err_upgrade_failed"@ {
        Some("upgrade 失败"@)
    } else if key == "err_ufw_allow_failed"@ {
        Some("ufw allow 失败"@)
    } else if key == "err_ufw_enable_failed"@ {
        Some("ufw enable 失败"@)
    } else if key == "err_install_fail2ban"@ {
        Some("安装 fail2ban 失败"@)
    } else if key == "err_install_unattended"@ {
        Some("安装 unattended-upgrades 失败"@)
    } else if key == "err_lynis_exec"@ {
        Some("lynis 执行失败"@)
    } else if key == "err_sshd_check"@ {
        Some("sshd 语法检查失败"@)
    } else {
        None
    }
}

fn zh_cn_part_2(key: &Vec<char>) -> (r: Option<&'static str>)
    ensures
        opt_view(r) == zh_cn_text_2(key@),
{
    if key_is(key, "pkg_dnf") {
        return Some("dnf");
    }
    if key_is(key, "pkg_unknown") {
        return Some("unknown");
    }
    if key_is(key, "err_permission_denied") {
        return Some("需要 root 权限运行");
    }
    if key_is(key, "err_cmd_failed") {
        return Some("系统命令执行失败: {msg}");
    }
    if key_is(key, "err_parse_error") {
        return Some("配置解析错误: {msg}");
    }
    if key_is(key, "err_precondition_failed") {
        return Some("前置条件不满足: {msg}");
    }
    if key_is(key, "err_user_aborted") {
        return Some("用户取消操作");
    }
    if key_is(key, "err_unknown_pkg_mgr") {
        return Some("无法识别的包管理器");
    }
    if key_is(key, "err_unsupported_pkg") {
        return Some("不支持的包管理器");
    }
    if key_is(key, "err_auto_update_only_debian") {
        return Some("自动安全更新仅支持 Debian/Ubuntu");
    }
    if key_is(key, "err_unknown_pkg_lynis") {
        return Some("无法确定包管理器，请手动安装 lynis");
    }
    if key_is(key, "err_sshd_not_found") {
        return Some("sshd_config 不存在");
    }
    if key_is(key, "err_no_username") {
        return Some("未提供用户名");
    }
    if key_is(key, "err_user_exists") {
        return Some("用户 '{user}' 已存在");
    }
    if key_is(key, "err_no_sudo_before_root") {
        return Some("禁止 root 登录前请先创建 sudo 用户");
    }
    if key_is(key, "err_no_ssh_port") {
        return Some("未提供新 SSH 端口");
    }
    if key_is(key, "err_port_zero") {
        return Some("端口 0 无效");
    }
    if key_is(key, "err_no_sudo_before_pw") {
        return Some("禁止密码登录前请先创建 sudo 用户");
    }
    if key_is(key, "err_no_target_user") {
        return Some("未提供目标用户名");
    }
    if key_is(key, "err_no_key_action") {
        return Some("未选择密钥操作");
    }
    if key_is(key, "err_update_failed") {
        return Some("update 失败");
    }
    if key_is(key, "err_upgrade_failed") {
        return Some("upgrade 失败");
    }
    if key_is(key, "err_ufw_allow_failed") {
        return Some("ufw allow 失败");
    }
    if key_is(key, "err_ufw_enable_failed") {
        return Some("ufw enable 失败");
    }
    if key_is(key, "err_install_fail2ban") {
        return Some("安装 fail2ban 失败");
    }
    if key_is(key, "err_install_unattended") {
        return Some("安装 unattended-upgrades 失败");
    }
    if key_is(key, "err_lynis_exec") {
        return Some("lynis 执行失败");
    }
    if key_is(key, "err_sshd_check") {
        return Some("sshd 语法检查失败");
    }
    None
}

pub open spec fn zh_cn_text_3(key: Seq<char>) -> Option<Seq<char>> {
    if key == "err_sshd_syntax"@ {
        Some("sshd_config 语法错误，请检查配置"@)
    } else if key == "err_ssh_restart"@ {
        Some("重启 SSH 服务失败"@)
    } else if key == "err_backup"@ {
        Some("备份失败"@)
    } else if key == "err_read"@ {
        Some("读取失败"@)
    } else if key == "err_write"@ {
        Some("写入失败"@)
    } else if key == "err_setup_signal"@ {
        Some("无法注册 Ctrl+C 信号处理器"@)
    } else if key == "result_sys_updated"@ {
        Some("系统更新完成"@)
    } else if key == "result_user_created"@ {
        Some("用户 '{user}' 已创建并加入 sudo 组，密钥已设置（私钥: ~/.ssh/id_ed25519）"@)
    } else if key == "result_root_login_set"@ {
        Some("PermitRootLogin 已设置为 prohibit-password（备份: {bak}）"@)
    } else if key == "result_ssh_port_set"@ {
        Some("SSH 端口已修改为 {port}（{msg}）"@)
    } else if key == "result_pw_auth_disabled"@ {
        Some("密码登录已禁用（仅允许密钥登录）"@)
    } else if key == "result_key_generated"@ {
        Some("ED25519 密钥对已生成\n  私钥: {priv}\n  公钥: {pub}\n  ⚠️  私钥无密码短语保护，建议手动加密：ssh-keygen -p -f {key}\n  请立即复制私钥并安全保存！"@)
    } else if key == "result_key_pasted"@ {
        Some("公钥已添加到 {user} 的 authorized_keys"@)
    } else if key == "result_ufw_enabled"@ {
        Some("UFW 已启用，SSH 端口 {port} 已放行"@)
    } else if key == "result_fail2ban_installed"@ {
        Some("Fail2ban 已安装并运行，SSH 端口 {port} 已加入监控"@)
    } else if key == "result_auto_updates_enabled"@ {
        Some("自动安全更新已启用（每日检查，自动安装安全补丁）"@)
    } else if key == "result_lynis_ok"@ {
        Some("lynis 安全扫描完成（{warns} 个警告, {suggs} 个建议）\n  详细报告: /var/log/lynis.log"@)
    } else if key == "result_lynis_fail"@ {
        Some("lynis 无法自动安装，请手动安装后重新运行"@)
    } else if key == "result_logwatch_installed"@ {
        Some("日志与审计增强完成\n  已安装/配置: {installed}\n  logwatch: 每日邮件报告\n  aide: 文件完整性检查已初始化"@)
    } else if key == "result_ssh_restarted"@ {
        Some("SSH 服务已重启（状态: {status}）\n  ⚠️  请在另一终端验证连接后再关闭当前会话！\n  🔄 如需回滚：systemctl restart sshd 或恢复备份 /etc/ssh/sshd_config.bak.*"@)
    } else if key == "result_sshd_cfg_set"@ {
        Some("{key} 已设置为 {value}（备份: {bak}）"@)
    } else if key == "result_sshd_syntax_ok"@ {
        Some("sshd_config 语法检查通过"@)
    } else if key == "result_sshd_syntax_err"@ {
        Some("sshd_config 语法错误，请检查配置: {err}"@)
    } else if key == "log_audit"@ {
        Some("[审计]"@)
    } else if key == "log_operation"@ {
        Some("[操作]"@)
    } else if key == "log_rollback"@ {
        Some("[回退]"@)
    } else if key == "log_audit_start"@ {
        Some("开始环境审计..."@)
    } else if key == "log_audit_done"@ {
        Some("完成，共 {n} 项检测"@)
    } else {
        None
    }
}

fn zh_cn_part_3(key: &Vec<char>) -> (r: Option<&'static str>)
    ensures
        opt_view(r) == zh_cn_text_3(key@),
{
    if key_is(key, "err_sshd_syntax") {
        return Some("sshd_config 语法错误，请检查配置");
    }
    if key_is(key, "err_ssh_restart") {
        return Some("重启 SSH 服务失败");
    }
    if key_is(key, "err_backup") {
        return Some("备份失败");
    }
    if key_is(key, "err_read") {
        return Some("读取失败");
    }
    if key_is(key, "err_write") {
        return Some("写入失败");
    }
    if key_is(key, "err_setup_signal") {
        return Some("无法注册 Ctrl+C 信号处理器");
    }
    if key_is(key, "result_sys_updated") {
        return Some("系统更新完成");
    }
    if key_is(key, "result_user_created") {
        return Some("用户 '{user}' 已创建并加入 sudo 组，密钥已设置（私钥: ~/.ssh/id_ed25519）");
    }
    if key_is(key, "result_root_login_set") {
        return Some("PermitRootLogin 已设置为 prohibit-password（备份: {bak}）");
    }
    if key_is(key, "result_ssh_port_set") {
        return Some("SSH 端口已修改为 {port}（{msg}）");
    }
    if key_is(key, "result_pw_auth_disabled") {
        return Some("密码登录已禁用（仅允许密钥登录）");
    }
    if key_is(key, "result_key_generated") {
        return Some("ED25519 密钥对已生成\n  私钥: {priv}\n  公钥: {pub}\n  ⚠️  私钥无密码短语保护，建议手动加密：ssh-keygen -p -f {key}\n  请立即复制私钥并安全保存！");
    }
    if key_is(key, "result_key_pasted") {
        return Some("公钥已添加到 {user} 的 authorized_keys");
    }
    if key_is(key, "result_ufw_enabled") {
        return Some("UFW 已启用，SSH 端口 {port} 已放行");
    }
    if key_is(key, "result_fail2ban_installed") {
        return Some("Fail2ban 已安装并运行，SSH 端口 {port} 已加入监控");
    }
    if key_is(key, "result_auto_updates_enabled") {
        return Some("自动安全更新已启用（每日检查，自动安装安全补丁）");
    }
    if key_is(key, "result_lynis_ok") {
        return Some("lynis 安全扫描完成（{warns} 个警告, {suggs} 个建议）\n  详细报告: /var/log/lynis.log");
    }
    if key_is(key, "result_lynis_fail") {
        return Some("lynis 无法自动安装，请手动安装后重新运行");
    }
    if key_is(key, "result_logwatch_installed") {
        return Some("日志与审计增强完成\n  已安装/配置: {installed}\n  logwatch: 每日邮件报告\n  aide: 文件完整性检查已初始化");
    }
    if key_is(key, "result_ssh_restarted") {
        return Some("SSH 服务已重启（状态: {status}）\n  ⚠️  请在另一终端验证连接后再关闭当前会话！\n  🔄 如需回滚：systemctl restart sshd 或恢复备份 /etc/ssh/sshd_config.bak.*");
    }
    if key_is(key, "result_sshd_cfg_set") {
        return Some("{key} 已设置为 {value}（备份: {bak}）");
    }
    if key_is(key, "result_sshd_syntax_ok") {
        return Some("sshd_config 语法检查通过");
    }
    if key_is(key, "result_sshd_syntax_err") {
        return Some("sshd_config 语法错误，请检查配置: {err}");
    }
    if key_is(key, "log_audit") {
        return Some("[审计]");
    }
    if key_is(key, "log_operation") {
        return Some("[操作]");
    }
    if key_is(key, "log_rollback") {
        return Some("[回退]");
    }
    if key_is(key, "log_audit_start") {
        return Some("开始环境审计...");
    }
    if key_is(key, "log_audit_done") {
        return Some("完成，共 {n} 项检测");
    }
    None
}

pub open spec fn zh_cn_text_4(key: Seq<char>) -> Option<Seq<char>> {
    if key == "log_step_start"@ {
        Some("开始执行"@)
    } else if key == "log_step_complete"@ {
        Some("完成"@)
    } else if key == "log_step_failed"@ {
        Some("失败"@)
    } else if key == "log_rollback_auto"@ {
        Some("步骤失败，自动回退所有已注册的修改"@)
    } else if key == "undo_user_remove"@ {
        Some("删除用户 '{user}'"@)
    } else if key == "undo_pkg_remove"@ {
        Some("删除 {pkg}"@)
    } else if key == "undo_cmd"@ {
        Some("{desc}"@)
    } else if key == "undo_file_restore"@ {
        Some("恢复 sshd_config（{key}）"@)
    } else if key == "undo_ufw_disable"@ {
        Some("关闭 UFW 防火墙"@)
    } else if key == "undo_ufw_delete"@ {
        Some("删除 UFW 端口 {port} 放行规则"@)
    } else if key == "undo_key_delete"@ {
        Some("删除 {user} 的密钥文件"@)
    } else if key == "cli_welcome"@ {
        Some("U2Secure - Linux 服务器安全加固工具 v{ver}"@)
    } else if key == "cli_auditing"@ {
        Some("正在执行环境审计..."@)
    } else if key == "cli_audit_done"@ {
        Some("环境审计完成："@)
    } else if key == "cli_select_steps"@ {
        Some("请选择要执行的加固步骤（已安全配置的默认不勾选）："@)
    } else if key == "cli_hint_nav"@ {
        Some("提示：方向键上下移动，空格选择，回车确认"@)
    } else if key == "cli_collecting"@ {
        Some("开始收集配置参数..."@)
    } else if key == "cli_will_execute"@ {
        Some("以下步骤将被执行："@)
    } else if key == "cli_confirm"@ {
        Some("是否继续？"@)
    } else if key == "cli_cancelled"@ {
        Some("用户取消。"@)
    } else if key == "cli_no_selection"@ {
        Some("未选择任何步骤，退出。"@)
    } else if key == "cli_executing"@ {
        Some("开始执行加固步骤..."@)
    } else if key == "cli_summary_title"@ {
        Some("本次加固总结报告"@)
    } else if key == "cli_summary_total"@ {
        Some("总计: {ok} 成功, {fail} 失败/跳过"@)
    } else if key == "cli_log_saved"@ {
        Some("日志已保存至 /var/log/secure-init.log"@)
    } else if key == "cli_create_user"@ {
        Some("是否创建新的管理用户？"@)
    } else if key == "cli_username_prompt"@ {
        Some("请输入新用户名"@)
    } else if key == "cli_username_empty"@ {
        Some("用户名不能为空"@)
    } else {
        None
    }
}

fn zh_cn_part_4(key: &Vec<char>) -> (r: Option<&'static str>)
    ensures
        opt_view(r) == zh_cn_text_4(key@),
{
    if key_is(key, "log_step_start") {
        return Some("开始执行");
    }
    if key_is(key, "log_step_complete") {
        return Some("完成");
    }
    if key_is(key, "log_step_failed") {
        return Some("失败");
    }
    if key_is(key, "log_rollback_auto") {
        return Some("步骤失败，自动回退所有已注册的修改");
    }
    if key_is(key, "undo_user_remove") {
        return Some("删除用户 '{user}'");
    }
    if key_is(key, "undo_pkg_remove") {
        return Some("删除 {pkg}");
    }
    if key_is(key, "undo_cmd") {
        return Some("{desc}");
    }
    if key_is(key, "undo_file_restore") {
        return Some("恢复 sshd_config（{key}）");
    }
    if key_is(key, "undo_ufw_disable") {
        return Some("关闭 UFW 防火墙");
    }
    if key_is(key, "undo_ufw_delete") {
        return Some("删除 UFW 端口 {port} 放行规则");
    }
    if key_is(key, "undo_key_delete") {
        return Some("删除 {user} 的密钥文件");
    }
    if key_is(key, "cli_welcome") {
        return Some("U2Secure - Linux 服务器安全加固工具 v{ver}");
    }
    if key_is(key, "cli_auditing") {
        return Some("正在执行环境审计...");
    }
    if key_is(key, "cli_audit_done") {
        return Some("环境审计完成：");
    }
    if key_is(key, "cli_select_steps") {
        return Some("请选择要执行的加固步骤（已安全配置的默认不勾选）：");
    }
    if key_is(key, "cli_hint_nav") {
        return Some("提示：方向键上下移动，空格选择，回车确认");
    }
    if key_is(key, "cli_collecting") {
        return Some("开始收集配置参数...");
    }
    if key_is(key, "cli_will_execute") {
        return Some("以下步骤将被执行：");
    }
    if key_is(key, "cli_confirm") {
        return Some("是否继续？");
    }
    if key_is(key, "cli_cancelled") {
        return Some("用户取消。");
    }
    if key_is(key, "cli_no_selection") {
        return Some("未选择任何步骤，退出。");
    }
    if key_is(key, "cli_executing") {
        return Some("开始执行加固步骤...");
    }
    if key_is(key, "cli_summary_title") {
        return Some("本次加固总结报告");
    }
    if key_is(key, "cli_summary_total") {
        return Some("总计: {ok} 成功, {fail} 失败/跳过");
    }
    if key_is(key, "cli_log_saved") {
        return Some("日志已保存至 /var/log/secure-init.log");
    }
    if key_is(key, "cli_create_user") {
        return Some("是否创建新的管理用户？");
    }
    if key_is(key, "cli_username_prompt") {
        return Some("请输入新用户名");
    }
    if key_is(key, "cli_username_empty") {
        return Some("用户名不能为空");
    }
    None
}

pub open spec fn zh_cn_text_5(key: Seq<char>) -> Option<Seq<char>> {
    if key == "cli_username_exists"@ {
        Some("用户已存在"@)
    } else if key == "cli_username_invalid"@ {
        Some("用户名只能包含字母、数字、- 和 _"@)
    } else if key == "cli_lock_pw"@ {
        Some("锁定密码（强制密钥登录）？"@)
    } else if key == "cli_current_port"@ {
        Some("当前 SSH 端口: {port}"@)
    } else if key == "cli_default_port"@ {
        Some("22（默认）"@)
    } else if key == "cli_suggest_port"@ {
        Some("建议端口: {port}"@)
    } else if key == "cli_port_prompt"@ {
        Some("请输入新 SSH 端口（输入 0 跳过）"@)
    } else if key == "cli_port_invalid"@ {
        Some("请输入有效数字"@)
    } else if key == "cli_port_zero"@ {
        Some("端口 0 无效"@)
    } else if key == "cli_existing_sudo"@ {
        Some("已有 sudo 用户: {users}"@)
    } else if key == "cli_no_sudo"@ {
        Some("没有可用的 sudo 用户，跳过密钥设置"@)
    } else if key == "cli_manual_user"@ {
        Some("未检测到 sudo 用户，请输入要设置密钥的目标用户名"@)
    } else if key == "cli_user_prompt"@ {
        Some("目标用户名"@)
    } else if key == "cli_no_input"@ {
        Some("未输入用户名，跳过密钥设置"@)
    } else if key == "cli_select_user"@ {
        Some("选择要设置密钥的用户"@)
    } else if key == "cli_key_found"@ {
        Some("用户 {user} 已有公钥: {fp}"@)
    } else if key == "cli_key_action"@ {
        Some("为 {user} 设置 SSH 密钥"@)
    } else if key == "cli_key_generate"@ {
        Some("生成新密钥对"@)
    } else if key == "cli_key_paste"@ {
        Some("粘贴已有公钥"@)
    } else if key == "cli_key_skip"@ {
        Some("跳过"@)
    } else if key == "cli_key_prompt"@ {
        Some("请粘贴公钥内容（ssh-ed25519 AAA...）"@)
    } else if key == "cli_ssh_port_info"@ {
        Some("当前 SSH 端口: {port_str}"@)
    } else if key == "cli_ssh_suggest_info"@ {
        Some("建议端口: {port}"@)
    } else if key == "tui_title"@ {
        Some("U2Secure — Linux 服务器安全加固工具"@)
    } else if key == "tui_audit_report"@ {
        Some("审计报告"@)
    } else if key == "tui_steps_title"@ {
        Some("加固步骤 ({n})"@)
    } else if key == "tui_help_title"@ {
        Some("操作提示"@)
    } else if key == "tui_help_move"@ {
        Some("移动光标"@)
    } else {
        None
    }
}

fn zh_cn_part_5(key: &Vec<char>) -> (r: Option<&'static str>)
    ensures
        opt_view(r) == zh_cn_text_5(key@),
{
    if key_is(key, "cli_username_exists") {
        return Some("用户已存在");
    }
    if key_is(key, "cli_username_invalid") {
        return Some("用户名只能包含字母、数字、- 和 _");
    }
    if key_is(key, "cli_lock_pw") {
        return Some("锁定密码（强制密钥登录）？");
    }
    if key_is(key, "cli_current_port") {
        return Some("当前 SSH 端口: {port}");
    }
    if key_is(key, "cli_default_port") {
        return Some("22（默认）");
    }
    if key_is(key, "cli_suggest_port") {
        return Some("建议端口: {port}");
    }
    if key_is(key, "cli_port_prompt") {
        return Some("请输入新 SSH 端口（输入 0 跳过）");
    }
    if key_is(key, "cli_port_invalid") {
        return Some("请输入有效数字");
    }
    if key_is(key, "cli_port_zero") {
        return Some("端口 0 无效");
    }
    if key_is(key, "cli_existing_sudo") {
        return Some("已有 sudo 用户: {users}");
    }
    if key_is(key, "cli_no_sudo") {
        return Some("没有可用的 sudo 用户，跳过密钥设置");
    }
    if key_is(key, "cli_manual_user") {
        return Some("未检测到 sudo 用户，请输入要设置密钥的目标用户名");
    }
    if key_is(key, "cli_user_prompt") {
        return Some("目标用户名");
    }
    if key_is(key, "cli_no_input") {
        return Some("未输入用户名，跳过密钥设置");
    }
    if key_is(key, "cli_select_user") {
        return Some("选择要设置密钥的用户");
    }
    if key_is(key, "cli_key_found") {
        return Some("用户 {user} 已有公钥: {fp}");
    }
    if key_is(key, "cli_key_action") {
        return Some("为 {user} 设置 SSH 密钥");
    }
    if key_is(key, "cli_key_generate") {
        return Some("生成新密钥对");
    }
    if key_is(key, "cli_key_paste") {
        return Some("粘贴已有公钥");
    }
    if key_is(key, "cli_key_skip") {
        return Some("跳过");
    }
    if key_is(key, "cli_key_prompt") {
        return Some("请粘贴公钥内容（ssh-ed25519 AAA...）");
    }
    if key_is(key, "cli_ssh_port_info") {
        return Some("当前 SSH 端口: {port_str}");
    }
    if key_is(key, "cli_ssh_suggest_info") {
        return Some("建议端口: {port}");
    }
    if key_is(key, "tui_title") {
        return Some("U2Secure — Linux 服务器安全加固工具");
    }
    if key_is(key, "tui_audit_report") {
        return Some("审计报告");
    }
    if key_is(key, "tui_steps_title") {
        return Some("加固步骤 ({n})");
    }
    if key_is(key, "tui_help_title") {
        return Some("操作提示");
    }
    if key_is(key, "tui_help_move") {
        return Some("移动光标");
    }
    None
}

pub open spec fn zh_cn_text_6(key: Seq<char>) -> Option<Seq<char>> {
    if key == "tui_help_toggle"@ {
        Some("切换选择 / 取消"@)
    } else if key == "tui_help_batch"@ {
        Some("批量执行选中的步骤"@)
    } else if key == "tui_help_single"@ {
        Some("立即执行当前步骤"@)
    } else if key == "tui_help_reauth"@ {
        Some("重新审计"@)
    } else if key == "tui_help_quit"@ {
        Some("退出"@)
    } else if key == "tui_selected_count"@ {
        Some("已勾选 {n} 项"@)
    } else if key == "tui_single_hint"@ {
        Some("按 e 可强制执行任意单项"@)
    } else if key == "tui_exec_title"@ {
        Some("执行状态"@)
    } else if key == "tui_exec_running"@ {
        Some("正在执行: {step}"@)
    } else if key == "tui_exec_done"@ {
        Some("已完成: {step}"@)
    } else if key == "tui_exec_skip"@ {
        Some("跳过: {msg}"@)
    } else if key == "tui_exec_failed"@ {
        Some("失败: {err}"@)
    } else if key == "tui_exec_interrupted"@ {
        Some("用户中断"@)
    } else if key == "tui_result_title"@ {
        Some("执行结果"@)
    } else if key == "tui_result_summary"@ {
        Some("总计: {ok} 成功, {fail} 失败/跳过"@)
    } else if key == "tui_result_return"@ {
        Some("按任意键返回步骤列表"@)
    } else if key == "tui_footer_select"@ {
        Some("↑↓/jk 移动 | Space 选择 | Enter 批量执行 | e 单项执行 | r 重新审计 | q 退出"@)
    } else if key == "tui_footer_exec"@ {
        Some("执行中... 按 Ctrl+C 中断"@)
    } else if key == "tui_footer_summary"@ {
        Some("执行完毕 | 按任意键返回步骤列表"@)
    } else if key == "tui_popup_username"@ {
        Some("目标用户名"@)
    } else if key == "tui_popup_enter_user"@ {
        Some("输入用户名..."@)
    } else if key == "tui_popup_select_user"@ {
        Some("选择用户"@)
    } else if key == "tui_popup_select_action"@ {
        Some("选择操作"@)
    } else if key == "tui_popup_gen_key"@ {
        Some("生成新密钥对"@)
    } else if key == "tui_popup_paste_key"@ {
        Some("粘贴已有公钥"@)
    } else if key == "tui_popup_skip"@ {
        Some("跳过"@)
    } else if key == "tui_popup_paste_title"@ {
        Some("粘贴公钥"@)
    } else if key == "tui_popup_paste_hint"@ {
        Some("粘贴 ssh-ed25519 / ssh-rsa 公钥内容..."@)
    } else {
        None
    }
}

fn zh_cn_part_6(key: &Vec<char>) -> (r: Option<&'static str>)
    ensures
        opt_view(r) == zh_cn_text_6(key@),
{
    if key_is(key, "tui_help_toggle") {
        return Some("切换选择 / 取消");
    }
    if key_is(key, "tui_help_batch") {
        return Some("批量执行选中的步骤");
    }
    if key_is(key, "tui_help_single") {
        return Some("立即执行当前步骤");
    }
    if key_is(key, "tui_help_reauth") {
        return Some("重新审计");
    }
    if key_is(key, "tui_help_quit") {
        return Some("退出");
    }
    if key_is(key, "tui_selected_count") {
        return Some("已勾选 {n} 项");
    }
    if key_is(key, "tui_single_hint") {
        return Some("按 e 可强制执行任意单项");
    }
    if key_is(key, "tui_exec_title") {
        return Some("执行状态");
    }
    if key_is(key, "tui_exec_running") {
        return Some("正在执行: {step}");
    }
    if key_is(key, "tui_exec_done") {
        return Some("已完成: {step}");
    }
    if key_is(key, "tui_exec_skip") {
        return Some("跳过: {msg}");
    }
    if key_is(key, "tui_exec_failed") {
        return Some("失败: {err}");
    }
    if key_is(key, "tui_exec_interrupted") {
        return Some("用户中断");
    }
    if key_is(key, "tui_result_title") {
        return Some("执行结果");
    }
    if key_is(key, "tui_result_summary") {
        return Some("总计: {ok} 成功, {fail} 失败/跳过");
    }
    if key_is(key, "tui_result_return") {
        return Some("按任意键返回步骤列表");
    }
    if key_is(key, "tui_footer_select") {
        return Some("↑↓/jk 移动 | Space 选择 | Enter 批量执行 | e 单项执行 | r 重新审计 | q 退出");
    }
    if key_is(key, "tui_footer_exec") {
        return Some("执行中... 按 Ctrl+C 中断");
    }
    if key_is(key, "tui_footer_summary") {
        return Some("执行完毕 | 按任意键返回步骤列表");
    }
    if key_is(key, "tui_popup_username") {
        return Some("目标用户名");
    }
    if key_is(key, "tui_popup_enter_user") {
        return Some("输入用户名...");
    }
    if key_is(key, "tui_popup_select_user") {
        return Some("选择用户");
    }
    if key_is(key, "tui_popup_select_action") {
        return Some("选择操作");
    }
    if key_is(key, "tui_popup_gen_key") {
        return Some("生成新密钥对");
    }
    if key_is(key, "tui_popup_paste_key") {
        return Some("粘贴已有公钥");
    }
    if key_is(key, "tui_popup_skip") {
        return Some("跳过");
    }
    if key_is(key, "tui_popup_paste_title") {
        return Some("粘贴公钥");
    }
    if key_is(key, "tui_popup_paste_hint") {
        return Some("粘贴 ssh-ed25519 / ssh-rsa 公钥内容...");
    }
    None
}

pub open spec fn zh_cn_text_7(key: Seq<char>) -> Option<Seq<char>> {
    if key == "tui_popup_overwrite_title"@ {
        Some("密钥已存在"@)
    } else if key == "tui_popup_overwrite_yes"@ {
        Some("重新创建 (覆盖现有密钥)"@)
    } else if key == "tui_popup_overwrite_no"@ {
        Some("取消"@)
    } else if key == "tui_popup_new_user"@ {
        Some("新用户名"@)
    } else if key == "tui_popup_lock_title"@ {
        Some("锁定密码"@)
    } else if key == "tui_popup_lock_yes"@ {
        Some("是 (锁定密码, 强制密钥登录)"@)
    } else if key == "tui_popup_lock_no"@ {
        Some("否 (不锁定密码)"@)
    } else if key == "tui_popup_port_title"@ {
        Some("新 SSH 端口"@)
    } else if key == "tui_popup_port_suggest"@ {
        Some("建议端口: {port}"@)
    } else if key == "tui_popup_port_current"@ {
        Some("当前: {port}"@)
    } else if key == "tui_popup_port_placeholder"@ {
        Some("输入 0-65535..."@)
    } else if key == "tui_popup_enter"@ {
        Some("Enter 确认"@)
    } else if key == "tui_popup_esc"@ {
        Some("Esc 取消"@)
    } else if key == "tui_popup_esc_back"@ {
        Some("Esc 返回"@)
    } else if key == "tui_popup_updown"@ {
        Some("↑↓ 选择"@)
    } else if key == "tui_popup_enter_confirm"@ {
        Some("Enter 确认"@)
    } else if key == "tui_hint_enter_esc"@ {
        Some("Enter 确认  Esc 取消"@)
    } else if key == "tui_hint_updown_enter_esc"@ {
        Some("↑↓ 选择  Enter 确认  Esc 取消"@)
    } else if key == "tui_hint_enter_esc_back"@ {
        Some("Enter 确认  Esc 返回"@)
    } else if key == "tui_hint_updown_enter_esc_back"@ {
        Some("↑↓ 选择  Enter 确认  Esc 返回"@)
    } else if key == "tui_step_status_running"@ {
        Some("▶"@)
    } else if key == "tui_step_status_done"@ {
        Some("✓"@)
    } else if key == "tui_step_status_failed"@ {
        Some("✗"@)
    } else if key == "log_running"@ {
        Some("正在执行: {step}"@)
    } else if key == "log_completed"@ {
        Some("已完成: {step}"@)
    } else if key == "log_skip"@ {
        Some("跳过: {msg}"@)
    } else if key == "log_failed"@ {
        Some("失败: {err}"@)
    } else if key == "log_interrupted"@ {
        Some("用户中断"@)
    } else {
        None
    }
}

fn zh_cn_part_7(key: &Vec<char>) -> (r: Option<&'static str>)
    ensures
        opt_view(r) == zh_cn_text_7(key@),
{
    if key_is(key, "tui_popup_overwrite_title") {
        return Some("密钥已存在");
    }
    if key_is(key, "tui_popup_overwrite_yes") {
        return Some("重新创建 (覆盖现有密钥)");
    }
    if key_is(key, "tui_popup_overwrite_no") {
        return Some("取消");
    }
    if key_is(key, "tui_popup_new_user") {
        return Some("新用户名");
    }
    if key_is(key, "tui_popup_lock_title") {
        return Some("锁定密码");
    }
    if key_is(key, "tui_popup_lock_yes") {
        return Some("是 (锁定密码, 强制密钥登录)");
    }
    if key_is(key, "tui_popup_lock_no") {
        return Some("否 (不锁定密码)");
    }
    if key_is(key, "tui_popup_port_title") {
        return Some("新 SSH 端口");
    }
    if key_is(key, "tui_popup_port_suggest") {
        return Some("建议端口: {port}");
    }
    if key_is(key, "tui_popup_port_current") {
        return Some("当前: {port}");
    }
    if key_is(key, "tui_popup_port_placeholder") {
        return Some("输入 0-65535...");
    }
    if key_is(key, "tui_popup_enter") {
        return Some("Enter 确认");
    }
    if key_is(key, "tui_popup_esc") {
        return Some("Esc 取消");
    }
    if key_is(key, "tui_popup_esc_back") {
        return Some("Esc 返回");
    }
    if key_is(key, "tui_popup_updown") {
        return Some("↑↓ 选择");
    }
    if key_is(key, "tui_popup_enter_confirm") {
        return Some("Enter 确认");
    }
    if key_is(key, "tui_hint_enter_esc") {
        return Some("Enter 确认  Esc 取消");
    }
    if key_is(key, "tui_hint_updown_enter_esc") {
        return Some("↑↓ 选择  Enter 确认  Esc 取消");
    }
    if key_is(key, "tui_hint_enter_esc_back") {
        return Some("Enter 确认  Esc 返回");
    }
    if key_is(key, "tui_hint_updown_enter_esc_back") {
        return Some("↑↓ 选择  Enter 确认  Esc 返回");
    }
    if key_is(key, "tui_step_status_running") {
        return Some("▶");
    }
    if key_is(key, "tui_step_status_done") {
        return Some("✓");
    }
    if key_is(key, "tui_step_status_failed") {
        return Some("✗");
    }
    if key_is(key, "log_running") {
        return Some("正在执行: {step}");
    }
    if key_is(key, "log_completed") {
        return Some("已完成: {step}");
    }
    if key_is(key, "log_skip") {
        return Some("跳过: {msg}");
    }
    if key_is(key, "log_failed") {
        return Some("失败: {err}");
    }
    if key_is(key, "log_interrupted") {
        return Some("用户中断");
    }
    None
}

/// The Simplified Chinese (the default language of the interface) table.
pub open spec fn zh_cn_text(key: Seq<char>) -> Option<Seq<char>> {
    match zh_cn_text_0(key) {
        Some(t) => Some(t),
        None => match zh_cn_text_1(key) {
        Some(t) => Some(t),
        None => match zh_cn_text_2(key) {
        Some(t) => Some(t),
        None => match zh_cn_text_3(key) {
        Some(t) => Some(t),
        None => match zh_cn_text_4(key) {
        Some(t) => Some(t),
        None => match zh_cn_text_5(key) {
        Some(t) => Some(t),
        None => match zh_cn_text_6(key) {
        Some(t) => Some(t),
        None => zh_cn_text_7(key),
    },
    },
    },
    },
    },
    },
    }
}

/// Entry of the Simplified Chinese (the default language of the interface) table for `key`.
pub fn zh_cn(key: &str) -> (r: Option<&'static str>)
    ensures
        opt_view(r) == zh_cn_text(key@),
{
    let k = chars_of(key);
    let r0 = zh_cn_part_0(&k);
    if r0.is_some() {
        return r0;
    }
    let r1 = zh_cn_part_1(&k);
    if r1.is_some() {
        return r1;
    }
    let r2 = zh_cn_part_2(&k);
    if r2.is_some() {
        return r2;
    }
    let r3 = zh_cn_part_3(&k);
    if r3.is_some() {
        return r3;
    }
    let r4 = zh_cn_part_4(&k);
    if r4.is_some() {
        return r4;
    }
    let r5 = zh_cn_part_5(&k);
    if r5.is_some() {
        return r5;
    }
    let r6 = zh_cn_part_6(&k);
    if r6.is_some() {
        return r6;
    }
    let r7 = zh_cn_part_7(&k);
    if r7.is_some() {
        return r7;
    }
    None
}

pub open spec fn en_text_0(key: Seq<char>) -> Option<Seq<char>> {
    if key == "lang_en"@ {
        Some("English"@)
    } else if key == "lang_zh_cn"@ {
        Some("简体中文"@)
    } else if key == "lang_zh_tw"@ {
        Some("繁體中文"@)
    } else if key == "select_language"@ {
        Some("Select Language"@)
    } else if key == "select_mode"@ {
        Some("Select Launch Mode"@)
    } else if key == "mode_cli"@ {
        Some("CLI Mode (Traditional Interactive)"@)
    } else if key == "mode_tui"@ {
        Some("TUI Mode (Terminal GUI)"@)
    } else if key == "unknown_arg"@ {
        Some("Unknown argument: {arg}, use -c (CLI) or -t (TUI)"@)
    } else if key == "app_title"@ {
        Some("U2Secure — Linux Server Security Hardening Tool"@)
    } else if key == "step_system_update"@ {
        Some("System Update"@)
    } else if key == "step_user_creation"@ {
        Some("Non-root User Creation"@)
    } else if key == "step_ssh_root_login"@ {
        Some("Disable Root SSH Login"@)
    } else if key == "step_ssh_port_change"@ {
        Some("SSH Port Change"@)
    } else if key == "step_ssh_password_auth"@ {
        Some("Disable Password Auth"@)
    } else if key == "step_ssh_key_setup"@ {
        Some("ED25519 Key Setup"@)
    } else if key == "step_ufw"@ {
        Some("UFW Firewall Config"@)
    } else if key == "step_fail2ban"@ {
        Some("Fail2ban Install & Config"@)
    } else if key == "step_auto_updates"@ {
        Some("Auto Security Updates"@)
    } else if key == "step_security_scan"@ {
        Some("Security Scan"@)
    } else if key == "step_log_audit"@ {
        Some("Log & Audit Enhancement"@)
    } else if key == "step_restart_ssh"@ {
        Some("SSH Restart & Verify"@)
    } else if key == "audit_root"@ {
        Some("Current User Privilege"@)
    } else if key == "audit_pkg_mgr"@ {
        Some("Package Manager"@)
    } else if key == "audit_ssh_port"@ {
        Some("SSH Port"@)
    } else if key == "audit_password_auth"@ {
        Some("Password Auth"@)
    } else if key == "audit_root_login"@ {
        Some("Root Login"@)
    } else if key == "audit_sudo_users"@ {
        Some("Sudo Users"@)
    } else if key == "audit_fail2ban"@ {
        Some("Fail2ban"@)
    } else {
        None
    }
}

fn en_part_0(key: &Vec<char>) -> (r: Option<&'static str>)
    ensures
        opt_view(r) == en_text_0(key@),
{
    if key_is(key, "lang_en") {
        return Some("English");
    }
    if key_is(key, "lang_zh_cn") {
        return Some("简体中文");
    }
    if key_is(key, "lang_zh_tw") {
        return Some("繁體中文");
    }
    if key_is(key, "select_language") {
        return Some("Select Language");
    }
    if key_is(key, "select_mode") {
        return Some("Select Launch Mode");
    }
    if key_is(key, "mode_cli") {
        return Some("CLI Mode (Traditional Interactive)");
    }
    if key_is(key, "mode_tui") {
        return Some("TUI Mode (Terminal GUI)");
    }
    if key_is(key, "unknown_arg") {
        return Some("Unknown argument: {arg}, use -c (CLI) or -t (TUI)");
    }
    if key_is(key, "app_title") {
        return Some("U2Secure — Linux Server Security Hardening Tool");
    }
    if key_is(key, "step_system_update") {
        return Some("System Update");
    }
    if key_is(key, "step_user_creation") {
        return Some("Non-root User Creation");
    }
    if key_is(key, "step_ssh_root_login") {
        return Some("Disable Root SSH Login");
    }
    if key_is(key, "step_ssh_port_change") {
        return Some("SSH Port Change");
    }
    if key_is(key, "step_ssh_password_auth") {
        return Some("Disable Password Auth");
    }
    if key_is(key, "step_ssh_key_setup") {
        return Some("ED25519 Key Setup");
    }
    if key_is(key, "step_ufw") {
        return Some("UFW Firewall Config");
    }
    if key_is(key, "step_fail2ban") {
        return Some("Fail2ban Install & Config");
    }
    if key_is(key, "step_auto_updates") {
        return Some("Auto Security Updates");
    }
    if key_is(key, "step_security_scan") {
        return Some("Security Scan");
    }
    if key_is(key, "step_log_audit") {
        return Some("Log & Audit Enhancement");
    }
    if key_is(key, "step_restart_ssh") {
        return Some("SSH Restart & Verify");
    }
    if key_is(key, "audit_root") {
        return Some("Current User Privilege");
    }
    if key_is(key, "audit_pkg_mgr") {
        return Some("Package Manager");
    }
    if key_is(key, "audit_ssh_port") {
        return Some("SSH Port");
    }
    if key_is(key, "audit_password_auth") {
        return Some("Password Auth");
    }
    if key_is(key, "audit_root_login") {
        return Some("Root Login");
    }
    if key_is(key, "audit_sudo_users") {
        return Some("Sudo Users");
    }
    if key_is(key, "audit_fail2ban") {
        return Some("Fail2ban");
    }
    None
}

pub open spec fn en_text_1(key: Seq<char>) -> Option<Seq<char>> {
    if key == "audit_ufw"@ {
        Some("UFW Firewall"@)
    } else if key == "audit_auto_updates"@ {
        Some("Auto Security Updates"@)
    } else if key == "audit_sys_update"@ {
        Some("System Update Status"@)
    } else if key == "audit_detail_root_ok"@ {
        Some("Running as root"@)
    } else if key == "audit_detail_root_missing"@ {
        Some("Not running as root, root required"@)
    } else if key == "audit_detail_pkg"@ {
        Some("Detected {pkg}"@)
    } else if key == "audit_detail_port_safe"@ {
        Some("Customized to {port}"@)
    } else if key == "audit_detail_port_missing"@ {
        Some("Default port 22"@)
    } else if key == "audit_detail_pw_disabled"@ {
        Some("Disabled"@)
    } else if key == "audit_detail_pw_missing"@ {
        Some("Password auth not disabled"@)
    } else if key == "audit_detail_root_disabled"@ {
        Some("Disabled"@)
    } else if key == "audit_detail_root_missing_cfg"@ {
        Some("Root login not disabled"@)
    } else if key == "audit_detail_sudo_missing"@ {
        Some("No non-root admin users"@)
    } else if key == "audit_detail_sudo_ok"@ {
        Some("Existing: {users}"@)
    } else if key == "audit_detail_fb_installed"@ {
        Some("Installed"@)
    } else if key == "audit_detail_fb_missing"@ {
        Some("Not installed"@)
    } else if key == "audit_detail_ufw_enabled"@ {
        Some("Enabled"@)
    } else if key == "audit_detail_ufw_missing"@ {
        Some("Not enabled"@)
    } else if key == "audit_detail_au_enabled"@ {
        Some("Enabled"@)
    } else if key == "audit_detail_au_missing"@ {
        Some("Not enabled"@)
    } else if key == "audit_detail_sys_uptodate"@ {
        Some("Cache not expired"@)
    } else if key == "audit_detail_sys_needs_update"@ {
        Some("Cache expired, update recommended"@)
    } else if key == "status_safe"@ {
        Some("✅"@)
    } else if key == "status_partial"@ {
        Some("⚠️"@)
    } else if key == "status_missing"@ {
        Some("❌"@)
    } else if key == "status_needs_update"@ {
        Some("🔄"@)
    } else if key == "pkg_apt"@ {
        Some("apt"@)
    } else if key == "pkg_yum"@ {
        Some("yum"@)
    } else {
        None
    }
}

fn en_part_1(key: &Vec<char>) -> (r: Option<&'static str>)
    ensures
        opt_view(r) == en_text_1(key@),
{
    if key_is(key, "audit_ufw") {
        return Some("UFW Firewall");
    }
    if key_is(key, "audit_auto_updates") {
        return Some("Auto Security Updates");
    }
    if key_is(key, "audit_sys_update") {
        return Some("System Update Status");
    }
    if key_is(key, "audit_detail_root_ok") {
        return Some("Running as root");
    }
    if key_is(key, "audit_detail_root_missing") {
        return Some("Not running as root, root required");
    }
    if key_is(key, "audit_detail_pkg") {
        return Some("Detected {pkg}");
    }
    if key_is(key, "audit_detail_port_safe") {
        return Some("Customized to {port}");
    }
    if key_is(key, "audit_detail_port_missing") {
        return Some("Default port 22");
    }
    if key_is(key, "audit_detail_pw_disabled") {
        return Some("Disabled");
    }
    if key_is(key, "audit_detail_pw_missing") {
        return Some("Password auth not disabled");
    }
    if key_is(key, "audit_detail_root_disabled") {
        return Some("Disabled");
    }
    if key_is(key, "audit_detail_root_missing_cfg") {
        return Some("Root login not disabled");
    }
    if key_is(key, "audit_detail_sudo_missing") {
        return Some("No non-root admin users");
    }
    if key_is(key, "audit_detail_sudo_ok") {
        return Some("Existing: {users}");
    }
    if key_is(key, "audit_detail_fb_installed") {
        return Some("Installed");
    }
    if key_is(key, "audit_detail_fb_missing") {
        return Some("Not installed");
    }
    if key_is(key, "audit_detail_ufw_enabled") {
        return Some("Enabled");
    }
    if key_is(key, "audit_detail_ufw_missing") {
        return Some("Not enabled");
    }
    if key_is(key, "audit_detail_au_enabled") {
        return Some("Enabled");
    }
    if key_is(key, "audit_detail_au_missing") {
        return Some("Not enabled");
    }
    if key_is(key, "audit_detail_sys_uptodate") {
        return Some("Cache not expired");
    }
    if key_is(key, "audit_detail_sys_needs_update") {
        return Some("Cache expired, update recommended");
    }
    if key_is(key, "status_safe") {
        return Some("✅");
    }
    if key_is(key, "status_partial") {
        return Some("⚠️");
    }
    if key_is(key, "status_missing") {
        return Some("❌");
    }
    if key_is(key, "status_needs_update") {
        return Some("🔄");
    }
    if key_is(key, "pkg_apt") {
        return Some("apt");
    }
    if key_is(key, "pkg_yum") {
        return Some("yum");
    }
    None
}

pub open spec fn en_text_2(key: Seq<char>) -> Option<Seq<char>> {
    if key == "pkg_dnf"@ {
        Some("dnf"@)
    } else if key == "pkg_unknown"@ {
        Some("unknown"@)
    } else if key == "err_permission_denied"@ {
        Some("Root permission required"@)
    } else if key == "err_cmd_failed"@ {
        Some("System command failed: {msg}"@)
    } else if key == "err_parse_error"@ {
        Some("Config parse error: {msg}"@)
    } else if key == "err_precondition_failed"@ {
        Some("Precondition not met: {msg}"@)
    } else if key == "err_user_aborted"@ {
        Some("User cancelled operation"@)
    } else if key == "err_unknown_pkg_mgr"@ {
        Some("Unrecognized package manager"@)
    } else if key == "err_unsupported_pkg"@ {
        Some("Unsupported package manager"@)
    } else if key == "err_auto_update_only_debian"@ {
        Some("Auto security updates only support Debian/Ubuntu"@)
    } else if key == "err_unknown_pkg_lynis"@ {
        Some("Cannot determine package manager, please install lynis manually"@)
    } else if key == "err_sshd_not_found"@ {
        Some("sshd_config not found"@)
    } else if key == "err_no_username"@ {
        Some("No username provided"@)
    } else if key == "err_user_exists"@ {
        Some("User '{user}' already exists"@)
    } else if key == "err_no_sudo_before_root"@ {
        Some("Please create a sudo user before disabling root login"@)
    } else if key == "err_no_ssh_port"@ {
        Some("No SSH port provided"@)
    } else if key == "err_port_zero"@ {
        Some("Port 0 is invalid"@)
    } else if key == "err_no_sudo_before_pw"@ {
        Some("Please create a sudo user before disabling password auth"@)
    } else if key == "err_no_target_user"@ {
        Some("No target username provided"@)
    } else if key == "err_no_key_action"@ {
        Some("No key action selected"@)
    } else if key == "err_update_failed"@ {
        Some("update failed"@)
    } else if key == "err_upgrade_failed"@ {
        Some("upgrade failed"@)
    } else if key == "err_ufw_allow_failed"@ {
        Some("ufw allow failed"@)
    } else if key == "err_ufw_enable_failed"@ {
        Some("ufw enable failed"@)
    } else if key == "err_install_fail2ban"@ {
        Some("Installing fail2ban failed"@)
    } else if key == "err_install_unattended"@ {
        Some("Installing unattended-upgrades failed"@)
    } else if key == "err_lynis_exec"@ {
        Some("Lynis execution failed"@)
    } else if key == "err_sshd_check"@ {
        Some("sshd syntax check failed"@)
    } else {
        None
    }
}

fn en_part_2(key: &Vec<char>) -> (r: Option<&'static str>)
    ensures
        opt_view(r) == en_text_2(key@),
{
    if key_is(key, "pkg_dnf") {
        return Some("dnf");
    }
    if key_is(key, "pkg_unknown") {
        return Some("unknown");
    }
    if key_is(key, "err_permission_denied") {
        return Some("Root permission required");
    }
    if key_is(key, "err_cmd_failed") {
        return Some("System command failed: {msg}");
    }
    if key_is(key, "err_parse_error") {
        return Some("Config parse error: {msg}");
    }
    if key_is(key, "err_precondition_failed") {
        return Some("Precondition not met: {msg}");
    }
    if key_is(key, "err_user_aborted") {
        return Some("User cancelled operation");
    }
    if key_is(key, "err_unknown_pkg_mgr") {
        return Some("Unrecognized package manager");
    }
    if key_is(key, "err_unsupported_pkg") {
        return Some("Unsupported package manager");
    }
    if key_is(key, "err_auto_update_only_debian") {
        return Some("Auto security updates only support Debian/Ubuntu");
    }
    if key_is(key, "err_unknown_pkg_lynis") {
        return Some("Cannot determine package manager, please install lynis manually");
    }
    if key_is(key, "err_sshd_not_found") {
        return Some("sshd_config not found");
    }
    if key_is(key, "err_no_username") {
        return Some("No username provided");
    }
    if key_is(key, "err_user_exists") {
        return Some("User '{user}' already exists");
    }
    if key_is(key, "err_no_sudo_before_root") {
        return Some("Please create a sudo user before disabling root login");
    }
    if key_is(key, "err_no_ssh_port") {
        return Some("No SSH port provided");
    }
    if key_is(key, "err_port_zero") {
        return Some("Port 0 is invalid");
    }
    if key_is(key, "err_no_sudo_before_pw") {
        return Some("Please create a sudo user before disabling password auth");
    }
    if key_is(key, "err_no_target_user") {
        return Some("No target username provided");
    }
    if key_is(key, "err_no_key_action") {
        return Some("No key action selected");
    }
    if key_is(key, "err_update_failed") {
        return Some("update failed");
    }
    if key_is(key, "err_upgrade_failed") {
        return Some("upgrade failed");
    }
    if key_is(key, "err_ufw_allow_failed") {
        return Some("ufw allow failed");
    }
    if key_is(key, "err_ufw_enable_failed") {
        return Some("ufw enable failed");
    }
    if key_is(key, "err_install_fail2ban") {
        return Some("Installing fail2ban failed");
    }
    if key_is(key, "err_install_unattended") {
        return Some("Installing unattended-upgrades failed");
    }
    if key_is(key, "err_lynis_exec") {
        return Some("Lynis execution failed");
    }
    if key_is(key, "err_sshd_check") {
        return Some("sshd syntax check failed");
    }
    None
}

pub open spec fn en_text_3(key: Seq<char>) -> Option<Seq<char>> {
    if key == "err_sshd_syntax"@ {
        Some("sshd_config syntax error, please check configuration"@)
    } else if key == "err_ssh_restart"@ {
        Some("SSH service restart failed"@)
    } else if key == "err_backup"@ {
        Some("Backup failed"@)
    } else if key == "err_read"@ {
        Some("Read failed"@)
    } else if key == "err_write"@ {
        Some("Write failed"@)
    } else if key == "result_sys_updated"@ {
        Some("System update completed"@)
    } else if key == "result_user_created"@ {
        Some("User '{user}' created with sudo, SSH key set (private key: ~/.ssh/id_ed25519)"@)
    } else if key == "result_root_login_set"@ {
        Some("PermitRootLogin set to prohibit-password (backup: {bak})"@)
    } else if key == "result_ssh_port_set"@ {
        Some("SSH port changed to {port} ({msg})"@)
    } else if key == "result_pw_auth_disabled"@ {
        Some("Password auth disabled (key-only login)"@)
    } else if key == "result_key_generated"@ {
        Some("ED25519 key pair generated\n  Private: {priv}\n  Public: {pub}\n  ⚠️  No passphrase set, encrypt manually: ssh-keygen -p -f {key}\n  Copy and save the private key now!"@)
    } else if key == "result_key_pasted"@ {
        Some("Public key added to {user}'s authorized_keys"@)
    } else if key == "result_ufw_enabled"@ {
        Some("UFW enabled, SSH port {port} allowed"@)
    } else if key == "result_fail2ban_installed"@ {
        Some("Fail2ban installed and running, SSH port {port} monitored"@)
    } else if key == "result_auto_updates_enabled"@ {
        Some("Auto security updates enabled (daily check, auto-install patches)"@)
    } else if key == "result_lynis_ok"@ {
        Some("Lynis security scan completed ({warns} warnings, {suggs} suggestions)\n  Full report: /var/log/lynis.log"@)
    } else if key == "result_lynis_fail"@ {
        Some("Lynis could not be auto-installed, please install manually"@)
    } else if key == "result_logwatch_installed"@ {
        Some("Log & audit enhancement complete\n  Installed/configured: {installed}\n  logwatch: daily email report\n  aide: file integrity check initialized"@)
    } else if key == "result_ssh_restarted"@ {
        Some("SSH service restarted (status: {status})\n  ⚠️  Verify connection in another terminal before closing this session!\n  🔄 Rollback: systemctl restart sshd or restore /etc/ssh/sshd_config.bak.*"@)
    } else if key == "result_sshd_cfg_set"@ {
        Some("{key} set to {value} (backup: {bak})"@)
    } else if key == "result_sshd_syntax_ok"@ {
        Some("sshd_config syntax check passed"@)
    } else if key == "result_sshd_syntax_err"@ {
        Some("sshd_config syntax error: {err}"@)
    } else if key == "log_audit"@ {
        Some("[Audit]"@)
    } else if key == "log_operation"@ {
        Some("[Operation]"@)
    } else if key == "log_rollback"@ {
        Some("[Rollback]"@)
    } else if key == "log_audit_start"@ {
        Some("Starting environment audit..."@)
    } else if key == "log_audit_done"@ {
        Some("Completed, {n} items checked"@)
    } else if key == "log_step_start"@ {
        Some("Starting"@)
    } else {
        None
    }
}

fn en_part_3(key: &Vec<char>) -> (r: Option<&'static str>)
    ensures
        opt_view(r) == en_text_3(key@),
{
    if key_is(key, "err_sshd_syntax") {
        return Some("sshd_config syntax error, please check configuration");
    }
    if key_is(key, "err_ssh_restart") {
        return Some("SSH service restart failed");
    }
    if key_is(key, "err_backup") {
        return Some("Backup failed");
    }
    if key_is(key, "err_read") {
        return Some("Read failed");
    }
    if key_is(key, "err_write") {
        return Some("Write failed");
    }
    if key_is(key, "result_sys_updated") {
        return Some("System update completed");
    }
    if key_is(key, "result_user_created") {
        return Some("User '{user}' created with sudo, SSH key set (private key: ~/.ssh/id_ed25519)");
    }
    if key_is(key, "result_root_login_set") {
        return Some("PermitRootLogin set to prohibit-password (backup: {bak})");
    }
    if key_is(key, "result_ssh_port_set") {
        return Some("SSH port changed to {port} ({msg})");
    }
    if key_is(key, "result_pw_auth_disabled") {
        return Some("Password auth disabled (key-only login)");
    }
    if key_is(key, "result_key_generated") {
        return Some("ED25519 key pair generated\n  Private: {priv}\n  Public: {pub}\n  ⚠️  No passphrase set, encrypt manually: ssh-keygen -p -f {key}\n  Copy and save the private key now!");
    }
    if key_is(key, "result_key_pasted") {
        return Some("Public key added to {user}'s authorized_keys");
    }
    if key_is(key, "result_ufw_enabled") {
        return Some("UFW enabled, SSH port {port} allowed");
    }
    if key_is(key, "result_fail2ban_installed") {
        return Some("Fail2ban installed and running, SSH port {port} monitored");
    }
    if key_is(key, "result_auto_updates_enabled") {
        return Some("Auto security updates enabled (daily check, auto-install patches)");
    }
    if key_is(key, "result_lynis_ok") {
        return Some("Lynis security scan completed ({warns} warnings, {suggs} suggestions)\n  Full report: /var/log/lynis.log");
    }
    if key_is(key, "result_lynis_fail") {
        return Some("Lynis could not be auto-installed, please install manually");
    }
    if key_is(key, "result_logwatch_installed") {
        return Some("Log & audit enhancement complete\n  Installed/configured: {installed}\n  logwatch: daily email report\n  aide: file integrity check initialized");
    }
    if key_is(key, "result_ssh_restarted") {
        return Some("SSH service restarted (status: {status})\n  ⚠️  Verify connection in another terminal before closing this session!\n  🔄 Rollback: systemctl restart sshd or restore /etc/ssh/sshd_config.bak.*");
    }
    if key_is(key, "result_sshd_cfg_set") {
        return Some("{key} set to {value} (backup: {bak})");
    }
    if key_is(key, "result_sshd_syntax_ok") {
        return Some("sshd_config syntax check passed");
    }
    if key_is(key, "result_sshd_syntax_err") {
        return Some("sshd_config syntax error: {err}");
    }
    if key_is(key, "log_audit") {
        return Some("[Audit]");
    }
    if key_is(key, "log_operation") {
        return Some("[Operation]");
    }
    if key_is(key, "log_rollback") {
        return Some("[Rollback]");
    }
    if key_is(key, "log_audit_start") {
        return Some("Starting environment audit...");
    }
    if key_is(key, "log_audit_done") {
        return Some("Completed, {n} items checked");
    }
    if key_is(key, "log_step_start") {
        return Some("Starting");
    }
    None
}

pub open spec fn en_text_4(key: Seq<char>) -> Option<Seq<char>> {
    if key == "log_step_complete"@ {
        Some("Completed"@)
    } else if key == "log_step_failed"@ {
        Some("Failed"@)
    } else if key == "log_rollback_auto"@ {
        Some("Step failed, auto-rolling back all registered changes"@)
    } else if key == "undo_user_remove"@ {
        Some("Remove user '{user}'"@)
    } else if key == "undo_pkg_remove"@ {
        Some("Remove {pkg}"@)
    } else if key == "undo_cmd"@ {
        Some("{desc}"@)
    } else if key == "undo_file_restore"@ {
        Some("Restore sshd_config ({key})"@)
    } else if key == "undo_ufw_disable"@ {
        Some("Disable UFW firewall"@)
    } else if key == "undo_ufw_delete"@ {
        Some("Delete UFW port {port} allow rule"@)
    } else if key == "undo_key_delete"@ {
        Some("Delete SSH keys for {user}"@)
    } else if key == "cli_welcome"@ {
        Some("U2Secure - Linux Server Security Hardening Tool v{ver}"@)
    } else if key == "cli_auditing"@ {
        Some("Running environment audit..."@)
    } else if key == "cli_audit_done"@ {
        Some("Environment audit completed:"@)
    } else if key == "cli_select_steps"@ {
        Some("Select hardening steps to execute (secure items are unchecked by default):"@)
    } else if key == "cli_hint_nav"@ {
        Some("Hint: arrow keys to move, space to select, enter to confirm"@)
    } else if key == "cli_collecting"@ {
        Some("Collecting configuration parameters..."@)
    } else if key == "cli_will_execute"@ {
        Some("The following steps will be executed:"@)
    } else if key == "cli_confirm"@ {
        Some("Continue?"@)
    } else if key == "cli_cancelled"@ {
        Some("Cancelled."@)
    } else if key == "cli_no_selection"@ {
        Some("No steps selected, exiting."@)
    } else if key == "cli_executing"@ {
        Some("Starting hardening steps..."@)
    } else if key == "cli_summary_title"@ {
        Some("Hardening Summary Report"@)
    } else if key == "cli_summary_total"@ {
        Some("Total: {ok} success, {fail} failed/skipped"@)
    } else if key == "cli_log_saved"@ {
        Some("Log saved to /var/log/secure-init.log"@)
    } else if key == "cli_create_user"@ {
        Some("Create a new admin user?"@)
    } else if key == "cli_username_prompt"@ {
        Some("Enter new username"@)
    } else if key == "cli_username_empty"@ {
        Some("Username cannot be empty"@)
    } else if key == "cli_username_exists"@ {
        Some("User already exists"@)
    } else {
        None
    }
}

fn en_part_4(key: &Vec<char>) -> (r: Option<&'static str>)
    ensures
        opt_view(r) == en_text_4(key@),
{
    if key_is(key, "log_step_complete") {
        return Some("Completed");
    }
    if key_is(key, "log_step_failed") {
        return Some("Failed");
    }
    if key_is(key, "log_rollback_auto") {
        return Some("Step failed, auto-rolling back all registered changes");
    }
    if key_is(key, "undo_user_remove") {
        return Some("Remove user '{user}'");
    }
    if key_is(key, "undo_pkg_remove") {
        return Some("Remove {pkg}");
    }
    if key_is(key, "undo_cmd") {
        return Some("{desc}");
    }
    if key_is(key, "undo_file_restore") {
        return Some("Restore sshd_config ({key})");
    }
    if key_is(key, "undo_ufw_disable") {
        return Some("Disable UFW firewall");
    }
    if key_is(key, "undo_ufw_delete") {
        return Some("Delete UFW port {port} allow rule");
    }
    if key_is(key, "undo_key_delete") {
        return Some("Delete SSH keys for {user}");
    }
    if key_is(key, "cli_welcome") {
        return Some("U2Secure - Linux Server Security Hardening Tool v{ver}");
    }
    if key_is(key, "cli_auditing") {
        return Some("Running environment audit...");
    }
    if key_is(key, "cli_audit_done") {
        return Some("Environment audit completed:");
    }
    if key_is(key, "cli_select_steps") {
        return Some("Select hardening steps to execute (secure items are unchecked by default):");
    }
    if key_is(key, "cli_hint_nav") {
        return Some("Hint: arrow keys to move, space to select, enter to confirm");
    }
    if key_is(key, "cli_collecting") {
        return Some("Collecting configuration parameters...");
    }
    if key_is(key, "cli_will_execute") {
        return Some("The following steps will be executed:");
    }
    if key_is(key, "cli_confirm") {
        return Some("Continue?");
    }
    if key_is(key, "cli_cancelled") {
        return Some("Cancelled.");
    }
    if key_is(key, "cli_no_selection") {
        return Some("No steps selected, exiting.");
    }
    if key_is(key, "cli_executing") {
        return Some("Starting hardening steps...");
    }
    if key_is(key, "cli_summary_title") {
        return Some("Hardening Summary Report");
    }
    if key_is(key, "cli_summary_total") {
        return Some("Total: {ok} success, {fail} failed/skipped");
    }
    if key_is(key, "cli_log_saved") {
        return Some("Log saved to /var/log/secure-init.log");
    }
    if key_is(key, "cli_create_user") {
        return Some("Create a new admin user?");
    }
    if key_is(key, "cli_username_prompt") {
        return Some("Enter new username");
    }
    if key_is(key, "cli_username_empty") {
        return Some("Username cannot be empty");
    }
    if key_is(key, "cli_username_exists") {
        return Some("User already exists");
    }
    None
}

pub open spec fn en_text_5(key: Seq<char>) -> Option<Seq<char>> {
    if key == "cli_username_invalid"@ {
        Some("Username can only contain letters, numbers, - and _"@)
    } else if key == "cli_lock_pw"@ {
        Some("Lock password (force key login)?"@)
    } else if key == "cli_current_port"@ {
        Some("Current SSH port: {port}"@)
    } else if key == "cli_default_port"@ {
        Some("22 (default)"@)
    } else if key == "cli_suggest_port"@ {
        Some("Suggested port: {port}"@)
    } else if key == "cli_port_prompt"@ {
        Some("Enter new SSH port (enter 0 to skip)"@)
    } else if key == "cli_port_invalid"@ {
        Some("Enter a valid number"@)
    } else if key == "cli_port_zero"@ {
        Some("Port 0 is invalid"@)
    } else if key == "cli_existing_sudo"@ {
        Some("Existing sudo users: {users}"@)
    } else if key == "cli_no_sudo"@ {
        Some("No sudo users available, skipping key setup"@)
    } else if key == "cli_manual_user"@ {
        Some("No sudo users detected, enter target username for key setup"@)
    } else if key == "cli_user_prompt"@ {
        Some("Target username"@)
    } else if key == "cli_no_input"@ {
        Some("No username entered, skipping key setup"@)
    } else if key == "cli_select_user"@ {
        Some("Select user for key setup"@)
    } else if key == "cli_key_found"@ {
        Some("User {user} already has a public key: {fp}"@)
    } else if key == "cli_key_action"@ {
        Some("Set up SSH key for {user}"@)
    } else if key == "cli_key_generate"@ {
        Some("Generate new key pair"@)
    } else if key == "cli_key_paste"@ {
        Some("Paste existing public key"@)
    } else if key == "cli_key_skip"@ {
        Some("Skip"@)
    } else if key == "cli_key_prompt"@ {
        Some("Paste public key content (ssh-ed25519 AAA...)"@)
    } else if key == "cli_ssh_port_info"@ {
        Some("Current SSH port: {port_str}"@)
    } else if key == "cli_ssh_suggest_info"@ {
        Some("Suggested port: {port}"@)
    } else if key == "tui_title"@ {
        Some("U2Secure — Linux Server Security Hardening Tool"@)
    } else if key == "tui_audit_report"@ {
        Some("Audit Report"@)
    } else if key == "tui_steps_title"@ {
        Some("Steps ({n})"@)
    } else if key == "tui_help_title"@ {
        Some("Help"@)
    } else if key == "tui_help_move"@ {
        Some("Move cursor"@)
    } else if key == "tui_help_toggle"@ {
        Some("Toggle select / unselect"@)
    } else {
        None
    }
}

fn en_part_5(key: &Vec<char>) -> (r: Option<&'static str>)
    ensures
        opt_view(r) == en_text_5(key@),
{
    if key_is(key, "cli_username_invalid") {
        return Some("Username can only contain letters, numbers, - and _");
    }
    if key_is(key, "cli_lock_pw") {
        return Some("Lock password (force key login)?");
    }
    if key_is(key, "cli_current_port") {
        return Some("Current SSH port: {port}");
    }
    if key_is(key, "cli_default_port") {
        return Some("22 (default)");
    }
    if key_is(key, "cli_suggest_port") {
        return Some("Suggested port: {port}");
    }
    if key_is(key, "cli_port_prompt") {
        return Some("Enter new SSH port (enter 0 to skip)");
    }
    if key_is(key, "cli_port_invalid") {
        return Some("Enter a valid number");
    }
    if key_is(key, "cli_port_zero") {
        return Some("Port 0 is invalid");
    }
    if key_is(key, "cli_existing_sudo") {
        return Some("Existing sudo users: {users}");
    }
    if key_is(key, "cli_no_sudo") {
        return Some("No sudo users available, skipping key setup");
    }
    if key_is(key, "cli_manual_user") {
        return Some("No sudo users detected, enter target username for key setup");
    }
    if key_is(key, "cli_user_prompt") {
        return Some("Target username");
    }
    if key_is(key, "cli_no_input") {
        return Some("No username entered, skipping key setup");
    }
    if key_is(key, "cli_select_user") {
        return Some("Select user for key setup");
    }
    if key_is(key, "cli_key_found") {
        return Some("User {user} already has a public key: {fp}");
    }
    if key_is(key, "cli_key_action") {
        return Some("Set up SSH key for {user}");
    }
    if key_is(key, "cli_key_generate") {
        return Some("Generate new key pair");
    }
    if key_is(key, "cli_key_paste") {
        return Some("Paste existing public key");
    }
    if key_is(key, "cli_key_skip") {
        return Some("Skip");
    }
    if key_is(key, "cli_key_prompt") {
        return Some("Paste public key content (ssh-ed25519 AAA...)");
    }
    if key_is(key, "cli_ssh_port_info") {
        return Some("Current SSH port: {port_str}");
    }
    if key_is(key, "cli_ssh_suggest_info") {
        return Some("Suggested port: {port}");
    }
    if key_is(key, "tui_title") {
        return Some("U2Secure — Linux Server Security Hardening Tool");
    }
    if key_is(key, "tui_audit_report") {
        return Some("Audit Report");
    }
    if key_is(key, "tui_steps_title") {
        return Some("Steps ({n})");
    }
    if key_is(key, "tui_help_title") {
        return Some("Help");
    }
    if key_is(key, "tui_help_move") {
        return Some("Move cursor");
    }
    if key_is(key, "tui_help_toggle") {
        return Some("Toggle select / unselect");
    }
    None
}

pub open spec fn en_text_6(key: Seq<char>) -> Option<Seq<char>> {
    if key == "tui_help_batch"@ {
        Some("Batch execute selected steps"@)
    } else if key == "tui_help_single"@ {
        Some("Execute current step immediately"@)
    } else if key == "tui_help_reauth"@ {
        Some("Re-run audit"@)
    } else if key == "tui_help_quit"@ {
        Some("Quit"@)
    } else if key == "tui_selected_count"@ {
        Some("{n} selected"@)
    } else if key == "tui_single_hint"@ {
        Some("Press e to execute any single step"@)
    } else if key == "tui_exec_title"@ {
        Some("Execution Status"@)
    } else if key == "tui_exec_running"@ {
        Some("Running: {step}"@)
    } else if key == "tui_exec_done"@ {
        Some("Completed: {step}"@)
    } else if key == "tui_exec_skip"@ {
        Some("Skipped: {msg}"@)
    } else if key == "tui_exec_failed"@ {
        Some("Failed: {err}"@)
    } else if key == "tui_exec_interrupted"@ {
        Some("Interrupted"@)
    } else if key == "tui_result_title"@ {
        Some("Execution Result"@)
    } else if key == "tui_result_summary"@ {
        Some("Total: {ok} success, {fail} failed/skipped"@)
    } else if key == "tui_result_return"@ {
        Some("Press any key to return to step list"@)
    } else if key == "tui_footer_select"@ {
        Some("↑↓/jk Move | Space Toggle | Enter Batch | e Single | r Re-audit | q Quit"@)
    } else if key == "tui_footer_exec"@ {
        Some("Running... Press Ctrl+C to interrupt"@)
    } else if key == "tui_footer_summary"@ {
        Some("Done | Press any key to return"@)
    } else if key == "tui_popup_username"@ {
        Some("Target Username"@)
    } else if key == "tui_popup_enter_user"@ {
        Some("Enter username..."@)
    } else if key == "tui_popup_select_user"@ {
        Some("Select User"@)
    } else if key == "tui_popup_select_action"@ {
        Some("Select Action"@)
    } else if key == "tui_popup_gen_key"@ {
        Some("Generate new key pair"@)
    } else if key == "tui_popup_paste_key"@ {
        Some("Paste existing public key"@)
    } else if key == "tui_popup_skip"@ {
        Some("Skip"@)
    } else if key == "tui_popup_paste_title"@ {
        Some("Paste Public Key"@)
    } else if key == "tui_popup_paste_hint"@ {
        Some("Paste ssh-ed25519 / ssh-rsa public key..."@)
    } else if key == "tui_popup_overwrite_title"@ {
        Some("Key Exists"@)
    } else {
        None
    }
}

fn en_part_6(key: &Vec<char>) -> (r: Option<&'static str>)
    ensures
        opt_view(r) == en_text_6(key@),
{
    if key_is(key, "tui_help_batch") {
        return Some("Batch execute selected steps");
    }
    if key_is(key, "tui_help_single") {
        return Some("Execute current step immediately");
    }
    if key_is(key, "tui_help_reauth") {
        return Some("Re-run audit");
    }
    if key_is(key, "tui_help_quit") {
        return Some("Quit");
    }
    if key_is(key, "tui_selected_count") {
        return Some("{n} selected");
    }
    if key_is(key, "tui_single_hint") {
        return Some("Press e to execute any single step");
    }
    if key_is(key, "tui_exec_title") {
        return Some("Execution Status");
    }
    if key_is(key, "tui_exec_running") {
        return Some("Running: {step}");
    }
    if key_is(key, "tui_exec_done") {
        return Some("Completed: {step}");
    }
    if key_is(key, "tui_exec_skip") {
        return Some("Skipped: {msg}");
    }
    if key_is(key, "tui_exec_failed") {
        return Some("Failed: {err}");
    }
    if key_is(key, "tui_exec_interrupted") {
        return Some("Interrupted");
    }
    if key_is(key, "tui_result_title") {
        return Some("Execution Result");
    }
    if key_is(key, "tui_result_summary") {
        return Some("Total: {ok} success, {fail} failed/skipped");
    }
    if key_is(key, "tui_result_return") {
        return Some("Press any key to return to step list");
    }
    if key_is(key, "tui_footer_select") {
        return Some("↑↓/jk Move | Space Toggle | Enter Batch | e Single | r Re-audit | q Quit");
    }
    if key_is(key, "tui_footer_exec") {
        return Some("Running... Press Ctrl+C to interrupt");
    }
    if key_is(key, "tui_footer_summary") {
        return Some("Done | Press any key to return");
    }
    if key_is(key, "tui_popup_username") {
        return Some("Target Username");
    }
    if key_is(key, "tui_popup_enter_user") {
        return Some("Enter username...");
    }
    if key_is(key, "tui_popup_select_user") {
        return Some("Select User");
    }
    if key_is(key, "tui_popup_select_action") {
        return Some("Select Action");
    }
    if key_is(key, "tui_popup_gen_key") {
        return Some("Generate new key pair");
    }
    if key_is(key, "tui_popup_paste_key") {
        return Some("Paste existing public key");
    }
    if key_is(key, "tui_popup_skip") {
        return Some("Skip");
    }
    if key_is(key, "tui_popup_paste_title") {
        return Some("Paste Public Key");
    }
    if key_is(key, "tui_popup_paste_hint") {
        return Some("Paste ssh-ed25519 / ssh-rsa public key...");
    }
    if key_is(key, "tui_popup_overwrite_title") {
        return Some("Key Exists");
    }
    None
}

pub open spec fn en_text_7(key: Seq<char>) -> Option<Seq<char>> {
    if key == "tui_popup_overwrite_yes"@ {
        Some("Recreate (overwrite existing key)"@)
    } else if key == "tui_popup_overwrite_no"@ {
        Some("Cancel"@)
    } else if key == "tui_popup_new_user"@ {
        Some("New Username"@)
    } else if key == "tui_popup_lock_title"@ {
        Some("Lock Password"@)
    } else if key == "tui_popup_lock_yes"@ {
        Some("Yes (lock password, force key login)"@)
    } else if key == "tui_popup_lock_no"@ {
        Some("No (do not lock password)"@)
    } else if key == "tui_popup_port_title"@ {
        Some("New SSH Port"@)
    } else if key == "tui_popup_port_suggest"@ {
        Some("Suggested: {port}"@)
    } else if key == "tui_popup_port_current"@ {
        Some("Current: {port}"@)
    } else if key == "tui_popup_port_placeholder"@ {
        Some("Enter 0-65535..."@)
    } else if key == "tui_popup_enter"@ {
        Some("Enter confirm"@)
    } else if key == "tui_popup_esc"@ {
        Some("Esc cancel"@)
    } else if key == "tui_popup_esc_back"@ {
        Some("Esc back"@)
    } else if key == "tui_popup_updown"@ {
        Some("↑↓ select"@)
    } else if key == "tui_popup_enter_confirm"@ {
        Some("Enter confirm"@)
    } else if key == "tui_hint_enter_esc"@ {
        Some("Enter confirm  Esc cancel"@)
    } else if key == "tui_hint_updown_enter_esc"@ {
        Some("↑↓ select  Enter confirm  Esc cancel"@)
    } else if key == "tui_hint_enter_esc_back"@ {
        Some("Enter confirm  Esc back"@)
    } else if key == "tui_hint_updown_enter_esc_back"@ {
        Some("↑↓ select  Enter confirm  Esc back"@)
    } else if key == "tui_step_status_running"@ {
        Some("▶"@)
    } else if key == "tui_step_status_done"@ {
        Some("✓"@)
    } else if key == "tui_step_status_failed"@ {
        Some("✗"@)
    } else if key == "log_running"@ {
        Some("Running: {step}"@)
    } else if key == "log_completed"@ {
        Some("Completed: {step}"@)
    } else if key == "log_skip"@ {
        Some("Skipped: {msg}"@)
    } else if key == "log_failed"@ {
        Some("Failed: {err}"@)
    } else if key == "log_interrupted"@ {
        Some("Interrupted"@)
    } else {
        None
    }
}

fn en_part_7(key: &Vec<char>) -> (r: Option<&'static str>)
    ensures
        opt_view(r) == en_text_7(key@),
{
    if key_is(key, "tui_popup_overwrite_yes") {
        return Some("Recreate (overwrite existing key)");
    }
    if key_is(key, "tui_popup_overwrite_no") {
        return Some("Cancel");
    }
    if key_is(key, "tui_popup_new_user") {
        return Some("New Username");
    }
    if key_is(key, "tui_popup_lock_title") {
        return Some("Lock Password");
    }
    if key_is(key, "tui_popup_lock_yes") {
        return Some("Yes (lock password, force key login)");
    }
    if key_is(key, "tui_popup_lock_no") {
        return Some("No (do not lock password)");
    }
    if key_is(key, "tui_popup_port_title") {
        return Some("New SSH Port");
    }
    if key_is(key, "tui_popup_port_suggest") {
        return Some("Suggested: {port}");
    }
    if key_is(key, "tui_popup_port_current") {
        return Some("Current: {port}");
    }
    if key_is(key, "tui_popup_port_placeholder") {
        return Some("Enter 0-65535...");
    }
    if key_is(key, "tui_popup_enter") {
        return Some("Enter confirm");
    }
    if key_is(key, "tui_popup_esc") {
        return Some("Esc cancel");
    }
    if key_is(key, "tui_popup_esc_back") {
        return Some("Esc back");
    }
    if key_is(key, "tui_popup_updown") {
        return Some("↑↓ select");
    }
    if key_is(key, "tui_popup_enter_confirm") {
        return Some("Enter confirm");
    }
    if key_is(key, "tui_hint_enter_esc") {
        return Some("Enter confirm  Esc cancel");
    }
    if key_is(key, "tui_hint_updown_enter_esc") {
        return Some("↑↓ select  Enter confirm  Esc cancel");
    }
    if key_is(key, "tui_hint_enter_esc_back") {
        return Some("Enter confirm  Esc back");
    }
    if key_is(key, "tui_hint_updown_enter_esc_back") {
        return Some("↑↓ select  Enter confirm  Esc back");
    }
    if key_is(key, "tui_step_status_running") {
        return Some("▶");
    }
    if key_is(key, "tui_step_status_done") {
        return Some("✓");
    }
    if key_is(key, "tui_step_status_failed") {
        return Some("✗");
    }
    if key_is(key, "log_running") {
        return Some("Running: {step}");
    }
    if key_is(key, "log_completed") {
        return Some("Completed: {step}");
    }
    if key_is(key, "log_skip") {
        return Some("Skipped: {msg}");
    }
    if key_is(key, "log_failed") {
        return Some("Failed: {err}");
    }
    if key_is(key, "log_interrupted") {
        return Some("Interrupted");
    }
    None
}

/// The English table.
pub open spec fn en_text(key: Seq<char>) -> Option<Seq<char>> {
    match en_text_0(key) {
        Some(t) => Some(t),
        None => match en_text_1(key) {
        Some(t) => Some(t),
        None => match en_text_2(key) {
        Some(t) => Some(t),
        None => match en_text_3(key) {
        Some(t) => Some(t),
        None => match en_text_4(key) {
        Some(t) => Some(t),
        None => match en_text_5(key) {
        Some(t) => Some(t),
        None => match en_text_6(key) {
        Some(t) => Some(t),
        None => en_text_7(key),
    },
    },
    },
    },
    },
    },
    }
}

/// Entry of the English table for `key`.
pub fn en(key: &str) -> (r: Option<&'static str>)
    ensures
        opt_view(r) == en_text(key@),
{
    let k = chars_of(key);
    let r0 = en_part_0(&k);
    if r0.is_some() {
        return r0;
    }
    let r1 = en_part_1(&k);
    if r1.is_some() {
        return r1;
    }
    let r2 = en_part_2(&k);
    if r2.is_some() {
        return r2;
    }
    let r3 = en_part_3(&k);
    if r3.is_some() {
        return r3;
    }
    let r4 = en_part_4(&k);
    if r4.is_some() {
        return r4;
    }
    let r5 = en_part_5(&k);
    if r5.is_some() {
        return r5;
    }
    let r6 = en_part_6(&k);
    if r6.is_some() {
        return r6;
    }
    let r7 = en_part_7(&k);
    if r7.is_some() {
        return r7;
    }
    None
}

pub open spec fn zh_tw_text_0(key: Seq<char>) -> Option<Seq<char>> {
    if key == "lang_en"@ {
        Some("English"@)
    } else if key == "lang_zh_cn"@ {
        Some("简体中文"@)
    } else if key == "lang_zh_tw"@ {
        Some("繁體中文"@)
    } else if key == "select_language"@ {
        Some("選擇語言"@)
    } else if key == "select_mode"@ {
        Some("請選擇啟動模式"@)
    } else if key == "mode_cli"@ {
        Some("CLI 模式（傳統互動式）"@)
    } else if key == "mode_tui"@ {
        Some("TUI 模式（終端圖形界面）"@)
    } else if key == "unknown_arg"@ {
        Some("未知參數: {arg}，使用 -c (CLI) 或 -t (TUI)"@)
    } else if key == "app_title"@ {
        Some("U2Secure — Linux 伺服器安全強化工具"@)
    } else if key == "step_system_update"@ {
        Some("系統更新"@)
    } else if key == "step_user_creation"@ {
        Some("非 root 用戶創建"@)
    } else if key == "step_ssh_root_login"@ {
        Some("禁止 root SSH 登入"@)
    } else if key == "step_ssh_port_change"@ {
        Some("SSH 連接埠修改"@)
    } else if key == "step_ssh_password_auth"@ {
        Some("禁止密碼登入"@)
    } else if key == "step_ssh_key_setup"@ {
        Some("ED25519 金鑰設定"@)
    } else if key == "step_ufw"@ {
        Some("UFW 防火牆配置"@)
    } else if key == "step_fail2ban"@ {
        Some("Fail2ban 安裝配置"@)
    } else if key == "step_auto_updates"@ {
        Some("自動安全更新"@)
    } else if key == "step_security_scan"@ {
        Some("安全掃描"@)
    } else if key == "step_log_audit"@ {
        Some("日誌與稽核增強"@)
    } else if key == "step_restart_ssh"@ {
        Some("SSH 服務重啟與驗證"@)
    } else if key == "audit_root"@ {
        Some("當前用戶權限"@)
    } else if key == "audit_pkg_mgr"@ {
        Some("套件管理器"@)
    } else if key == "audit_ssh_port"@ {
        Some("SSH 連接埠"@)
    } else if key == "audit_password_auth"@ {
        Some("密碼登入"@)
    } else if key == "audit_root_login"@ {
        Some("root 登入"@)
    } else if key == "audit_sudo_users"@ {
        Some("sudo 用戶"@)
    } else if key == "audit_fail2ban"@ {
        Some("Fail2ban"@)
    } else {
        None
    }
}

fn zh_tw_part_0(key: &Vec<char>) -> (r: Option<&'static str>)
    ensures
        opt_view(r) == zh_tw_text_0(key@),
{
    if key_is(key, "lang_en") {
        return Some("English");
    }
    if key_is(key, "lang_zh_cn") {
        return Some("简体中文");
    }
    if key_is(key, "lang_zh_tw") {
        return Some("繁體中文");
    }
    if key_is(key, "select_language") {
        return Some("選擇語言");
    }
    if key_is(key, "select_mode") {
        return Some("請選擇啟動模式");
    }
    if key_is(key, "mode_cli") {
        return Some("CLI 模式（傳統互動式）");
    }
    if key_is(key, "mode_tui") {
        return Some("TUI 模式（終端圖形界面）");
    }
    if key_is(key, "unknown_arg") {
        return Some("未知參數: {arg}，使用 -c (CLI) 或 -t (TUI)");
    }
    if key_is(key, "app_title") {
        return Some("U2Secure — Linux 伺服器安全強化工具");
    }
    if key_is(key, "step_system_update") {
        return Some("系統更新");
    }
    if key_is(key, "step_user_creation") {
        return Some("非 root 用戶創建");
    }
    if key_is(key, "step_ssh_root_login") {
        return Some("禁止 root SSH 登入");
    }
    if key_is(key, "step_ssh_port_change") {
        return Some("SSH 連接埠修改");
    }
    if key_is(key, "step_ssh_password_auth") {
        return Some("禁止密碼登入");
    }
    if key_is(key, "step_ssh_key_setup") {
        return Some("ED25519 金鑰設定");
    }
    if key_is(key, "step_ufw") {
        return Some("UFW 防火牆配置");
    }
    if key_is(key, "step_fail2ban") {
        return Some("Fail2ban 安裝配置");
    }
    if key_is(key, "step_auto_updates") {
        return Some("自動安全更新");
    }
    if key_is(key, "step_security_scan") {
        return Some("安全掃描");
    }
    if key_is(key, "step_log_audit") {
        return Some("日誌與稽核增強");
    }
    if key_is(key, "step_restart_ssh") {
        return Some("SSH 服務重啟與驗證");
    }
    if key_is(key, "audit_root") {
        return Some("當前用戶權限");
    }
    if key_is(key, "audit_pkg_mgr") {
        return Some("套件管理器");
    }
    if key_is(key, "audit_ssh_port") {
        return Some("SSH 連接埠");
    }
    if key_is(key, "audit_password_auth") {
        return Some("密碼登入");
    }
    if key_is(key, "audit_root_login") {
        return Some("root 登入");
    }
    if key_is(key, "audit_sudo_users") {
        return Some("sudo 用戶");
    }
    if key_is(key, "audit_fail2ban") {
        return Some("Fail2ban");
    }
    None
}

pub open spec fn zh_tw_text_1(key: Seq<char>) -> Option<Seq<char>> {
    if key == "audit_ufw"@ {
        Some("UFW 防火牆"@)
    } else if key == "audit_auto_updates"@ {
        Some("自動安全更新"@)
    } else if key == "audit_sys_update"@ {
        Some("系統更新狀態"@)
    } else if key == "audit_detail_root_ok"@ {
        Some("已以 root 執行"@)
    } else if key == "audit_detail_root_missing"@ {
        Some("非 root 用戶，需要 root 權限"@)
    } else if key == "audit_detail_pkg"@ {
        Some("檢測到 {pkg}"@)
    } else if key == "audit_detail_port_safe"@ {
        Some("已自訂為 {port}"@)
    } else if key == "audit_detail_port_missing"@ {
        Some("預設連接埠 22"@)
    } else if key == "audit_detail_pw_disabled"@ {
        Some("已停用"@)
    } else if key == "audit_detail_pw_missing"@ {
        Some("密碼登入未停用"@)
    } else if key == "audit_detail_root_disabled"@ {
        Some("已禁止"@)
    } else if key == "audit_detail_root_missing_cfg"@ {
        Some("root 登入未禁止"@)
    } else if key == "audit_detail_sudo_missing"@ {
        Some("未檢測到非 root 管理用戶"@)
    } else if key == "audit_detail_sudo_ok"@ {
        Some("已存在: {users}"@)
    } else if key == "audit_detail_fb_installed"@ {
        Some("已安裝"@)
    } else if key == "audit_detail_fb_missing"@ {
        Some("未安裝"@)
    } else if key == "audit_detail_ufw_enabled"@ {
        Some("已啟用"@)
    } else if key == "audit_detail_ufw_missing"@ {
        Some("未啟用"@)
    } else if key == "audit_detail_au_enabled"@ {
        Some("已啟用"@)
    } else if key == "audit_detail_au_missing"@ {
        Some("未啟用"@)
    } else if key == "audit_detail_sys_uptodate"@ {
        Some("快取未過期"@)
    } else if key == "audit_detail_sys_needs_update"@ {
        Some("快取已過期，建議更新"@)
    } else if key == "status_safe"@ {
        Some("✅"@)
    } else if key == "status_partial"@ {
        Some("⚠️"@)
    } else if key == "status_missing"@ {
        Some("❌"@)
    } else if key == "status_needs_update"@ {
        Some("🔄"@)
    } else if key == "pkg_apt"@ {
        Some("apt"@)
    } else if key == "pkg_yum"@ {
        Some("yum"@)
    } else {
        None
    }
}

fn zh_tw_part_1(key: &Vec<char>) -> (r: Option<&'static str>)
    ensures
        opt_view(r) == zh_tw_text_1(key@),
{
    if key_is(key, "audit_ufw") {
        return Some("UFW 防火牆");
    }
    if key_is(key, "audit_auto_updates") {
        return Some("自動安全更新");
    }
    if key_is(key, "audit_sys_update") {
        return Some("系統更新狀態");
    }
    if key_is(key, "audit_detail_root_ok") {
        return Some("已以 root 執行");
    }
    if key_is(key, "audit_detail_root_missing") {
        return Some("非 root 用戶，需要 root 權限");
    }
    if key_is(key, "audit_detail_pkg") {
        return Some("檢測到 {pkg}");
    }
    if key_is(key, "audit_detail_port_safe") {
        return Some("已自訂為 {port}");
    }
    if key_is(key, "audit_detail_port_missing") {
        return Some("預設連接埠 22");
    }
    if key_is(key, "audit_detail_pw_disabled") {
        return Some("已停用");
    }
    if key_is(key, "audit_detail_pw_missing") {
        return Some("密碼登入未停用");
    }
    if key_is(key, "audit_detail_root_disabled") {
        return Some("已禁止");
    }
    if key_is(key, "audit_detail_root_missing_cfg") {
        return Some("root 登入未禁止");
    }
    if key_is(key, "audit_detail_sudo_missing") {
        return Some("未檢測到非 root 管理用戶");
    }
    if key_is(key, "audit_detail_sudo_ok") {
        return Some("已存在: {users}");
    }
    if key_is(key, "audit_detail_fb_installed") {
        return Some("已安裝");
    }
    if key_is(key, "audit_detail_fb_missing") {
        return Some("未安裝");
    }
    if key_is(key, "audit_detail_ufw_enabled") {
        return Some("已啟用");
    }
    if key_is(key, "audit_detail_ufw_missing") {
        return Some("未啟用");
    }
    if key_is(key, "audit_detail_au_enabled") {
        return Some("已啟用");
    }
    if key_is(key, "audit_detail_au_missing") {
        return Some("未啟用");
    }
    if key_is(key, "audit_detail_sys_uptodate") {
        return Some("快取未過期");
    }
    if key_is(key, "audit_detail_sys_needs_update") {
        return Some("快取已過期，建議更新");
    }
    if key_is(key, "status_safe") {
        return Some("✅");
    }
    if key_is(key, "status_partial") {
        return Some("⚠️");
    }
    if key_is(key, "status_missing") {
        return Some("❌");
    }
    if key_is(key, "status_needs_update") {
        return Some("🔄");
    }
    if key_is(key, "pkg_apt") {
        return Some("apt");
    }
    if key_is(key, "pkg_yum") {
        return Some("yum");
    }
    None
}

pub open spec fn zh_tw_text_2(key: Seq<char>) -> Option<Seq<char>> {
    if key == "pkg_dnf"@ {
        Some("dnf"@)
    } else if key == "pkg_unknown"@ {
        Some("unknown"@)
    } else if key == "err_permission_denied"@ {
        Some("需要 root 權限執行"@)
    } else if key == "err_cmd_failed"@ {
        Some("系統命令執行失敗: {msg}"@)
    } else if key == "err_parse_error"@ {
        Some("配置解析錯誤: {msg}"@)
    } else if key == "err_precondition_failed"@ {
        Some("前置條件不滿足: {msg}"@)
    } else if key == "err_user_aborted"@ {
        Some("用戶取消操作"@)
    } else if key == "err_unknown_pkg_mgr"@ {
        Some("無法識別的套件管理器"@)
    } else if key == "err_unsupported_pkg"@ {
        Some("不支援的套件管理器"@)
    } else if key == "err_auto_update_only_debian"@ {
        Some("自動安全更新僅支援 Debian/Ubuntu"@)
    } else if key == "err_unknown_pkg_lynis"@ {
        Some("無法確定套件管理器，請手動安裝 lynis"@)
    } else if key == "err_sshd_not_found"@ {
        Some("sshd_config 不存在"@)
    } else if key == "err_no_username"@ {
        Some("未提供用戶名"@)
    } else if key == "err_user_exists"@ {
        Some("用戶 '{user}' 已存在"@)
    } else if key == "err_no_sudo_before_root"@ {
        Some("禁止 root 登入前請先創建 sudo 用戶"@)
    } else if key == "err_no_ssh_port"@ {
        Some("未提供新 SSH 連接埠"@)
    } else if key == "err_port_zero"@ {
        Some("連接埠 0 無效"@)
    } else if key == "err_no_sudo_before_pw"@ {
        Some("禁止密碼登入前請先創建 sudo 用戶"@)
    } else if key == "err_no_target_user"@ {
        Some("未提供目標用戶名"@)
    } else if key == "err_no_key_action"@ {
        Some("未選擇金鑰操作"@)
    } else if key == "err_update_failed"@ {
        Some("update 失敗"@)
    } else if key == "err_upgrade_failed"@ {
        Some("upgrade 失敗"@)
    } else if key == "err_ufw_allow_failed"@ {
        Some("ufw allow 失敗"@)
    } else if key == "err_ufw_enable_failed"@ {
        Some("ufw enable 失敗"@)
    } else if key == "err_install_fail2ban"@ {
        Some("安裝 fail2ban 失敗"@)
    } else if key == "err_install_unattended"@ {
        Some("安裝 unattended-upgrades 失敗"@)
    } else if key == "err_lynis_exec"@ {
        Some("lynis 執行失敗"@)
    } else if key == "err_sshd_check"@ {
        Some("sshd 語法檢查失敗"@)
    } else {
        None
    }
}

fn zh_tw_part_2(key: &Vec<char>) -> (r: Option<&'static str>)
    ensures
        opt_view(r) == zh_tw_text_2(key@),
{
    if key_is(key, "pkg_dnf") {
        return Some("dnf");
    }
    if key_is(key, "pkg_unknown") {
        return Some("unknown");
    }
    if key_is(key, "err_permission_denied") {
        return Some("需要 root 權限執行");
    }
    if key_is(key, "err_cmd_failed") {
        return Some("系統命令執行失敗: {msg}");
    }
    if key_is(key, "err_parse_error") {
        return Some("配置解析錯誤: {msg}");
    }
    if key_is(key, "err_precondition_failed") {
        return Some("前置條件不滿足: {msg}");
    }
    if key_is(key, "err_user_aborted") {
        return Some("用戶取消操作");
    }
    if key_is(key, "err_unknown_pkg_mgr") {
        return Some("無法識別的套件管理器");
    }
    if key_is(key, "err_unsupported_pkg") {
        return Some("不支援的套件管理器");
    }
    if key_is(key, "err_auto_update_only_debian") {
        return Some("自動安全更新僅支援 Debian/Ubuntu");
    }
    if key_is(key, "err_unknown_pkg_lynis") {
        return Some("無法確定套件管理器，請手動安裝 lynis");
    }
    if key_is(key, "err_sshd_not_found") {
        return Some("sshd_config 不存在");
    }
    if key_is(key, "err_no_username") {
        return Some("未提供用戶名");
    }
    if key_is(key, "err_user_exists") {
        return Some("用戶 '{user}' 已存在");
    }
    if key_is(key, "err_no_sudo_before_root") {
        return Some("禁止 root 登入前請先創建 sudo 用戶");
    }
    if key_is(key, "err_no_ssh_port") {
        return Some("未提供新 SSH 連接埠");
    }
    if key_is(key, "err_port_zero") {
        return Some("連接埠 0 無效");
    }
    if key_is(key, "err_no_sudo_before_pw") {
        return Some("禁止密碼登入前請先創建 sudo 用戶");
    }
    if key_is(key, "err_no_target_user") {
        return Some("未提供目標用戶名");
    }
    if key_is(key, "err_no_key_action") {
        return Some("未選擇金鑰操作");
    }
    if key_is(key, "err_update_failed") {
        return Some("update 失敗");
    }
    if key_is(key, "err_upgrade_failed") {
        return Some("upgrade 失敗");
    }
    if key_is(key, "err_ufw_allow_failed") {
        return Some("ufw allow 失敗");
    }
    if key_is(key, "err_ufw_enable_failed") {
        return Some("ufw enable 失敗");
    }
    if key_is(key, "err_install_fail2ban") {
        return Some("安裝 fail2ban 失敗");
    }
    if key_is(key, "err_install_unattended") {
        return Some("安裝 unattended-upgrades 失敗");
    }
    if key_is(key, "err_lynis_exec") {
        return Some("lynis 執行失敗");
    }
    if key_is(key, "err_sshd_check") {
        return Some("sshd 語法檢查失敗");
    }
    None
}

pub open spec fn zh_tw_text_3(key: Seq<char>) -> Option<Seq<char>> {
    if key == "err_sshd_syntax"@ {
        Some("sshd_config 語法錯誤，請檢查配置"@)
    } else if key == "err_ssh_restart"@ {
        Some("重啟 SSH 服務失敗"@)
    } else if key == "err_backup"@ {
        Some("備份失敗"@)
    } else if key == "err_read"@ {
        Some("讀取失敗"@)
    } else if key == "err_write"@ {
        Some("寫入失敗"@)
    } else if key == "result_sys_updated"@ {
        Some("系統更新完成"@)
    } else if key == "result_user_created"@ {
        Some("用戶 '{user}' 已創建並加入 sudo 群組，金鑰已設定（私鑰: ~/.ssh/id_ed25519）"@)
    } else if key == "result_root_login_set"@ {
        Some("PermitRootLogin 已設定為 prohibit-password（備份: {bak}）"@)
    } else if key == "result_ssh_port_set"@ {
        Some("SSH 連接埠已修改為 {port}（{msg}）"@)
    } else if key == "result_pw_auth_disabled"@ {
        Some("密碼登入已停用（僅允許金鑰登入）"@)
    } else if key == "result_key_generated"@ {
        Some("ED25519 金鑰對已生成\n  私鑰: {priv}\n  公鑰: {pub}\n  ⚠️  私鑰無密碼短語保護，建議手動加密：ssh-keygen -p -f {key}\n  請立即複製私鑰並安全儲存！"@)
    } else if key == "result_key_pasted"@ {
        Some("公鑰已添加到 {user} 的 authorized_keys"@)
    } else if key == "result_ufw_enabled"@ {
        Some("UFW 已啟用，SSH 連接埠 {port} 已放行"@)
    } else if key == "result_fail2ban_installed"@ {
        Some("Fail2ban 已安裝並執行，SSH 連接埠 {port} 已加入監控"@)
    } else if key == "result_auto_updates_enabled"@ {
        Some("自動安全更新已啟用（每日檢查，自動安裝安全修補程式）"@)
    } else if key == "result_lynis_ok"@ {
        Some("lynis 安全掃描完成（{warns} 個警告, {suggs} 個建議）\n  詳細報告: /var/log/lynis.log"@)
    } else if key == "result_lynis_fail"@ {
        Some("lynis 無法自動安裝，請手動安裝後重新執行"@)
    } else if key == "result_logwatch_installed"@ {
        Some("日誌與稽核增強完成\n  已安裝/配置: {installed}\n  logwatch: 每日郵件報告\n  aide: 檔案完整性檢查已初始化"@)
    } else if key == "result_ssh_restarted"@ {
        Some("SSH 服務已重新啟動（狀態: {status}）\n  ⚠️  請在另一個終端驗證連線後再關閉當前會話！\n  🔄 如需回退：systemctl restart sshd 或恢復備份 /etc/ssh/sshd_config.bak.*"@)
    } else if key == "result_sshd_cfg_set"@ {
        Some("{key} 已設定為 {value}（備份: {bak}）"@)
    } else if key == "result_sshd_syntax_ok"@ {
        Some("sshd_config 語法檢查通過"@)
    } else if key == "result_sshd_syntax_err"@ {
        Some("sshd_config 語法錯誤，請檢查配置: {err}"@)
    } else if key == "log_audit"@ {
        Some("[稽核]"@)
    } else if key == "log_operation"@ {
        Some("[操作]"@)
    } else if key == "log_rollback"@ {
        Some("[回退]"@)
    } else if key == "log_audit_start"@ {
        Some("開始環境稽核..."@)
    } else if key == "log_audit_done"@ {
        Some("完成，共 {n} 項檢測"@)
    } else if key == "log_step_start"@ {
        Some("開始執行"@)
    } else {
        None
    }
}

fn zh_tw_part_3(key: &Vec<char>) -> (r: Option<&'static str>)
    ensures
        opt_view(r) == zh_tw_text_3(key@),
{
    if key_is(key, "err_sshd_syntax") {
        return Some("sshd_config 語法錯誤，請檢查配置");
    }
    if key_is(key, "err_ssh_restart") {
        return Some("重啟 SSH 服務失敗");
    }
    if key_is(key, "err_backup") {
        return Some("備份失敗");
    }
    if key_is(key, "err_read") {
        return Some("讀取失敗");
    }
    if key_is(key, "err_write") {
        return Some("寫入失敗");
    }
    if key_is(key, "result_sys_updated") {
        return Some("系統更新完成");
    }
    if key_is(key, "result_user_created") {
        return Some("用戶 '{user}' 已創建並加入 sudo 群組，金鑰已設定（私鑰: ~/.ssh/id_ed25519）");
    }
    if key_is(key, "result_root_login_set") {
        return Some("PermitRootLogin 已設定為 prohibit-password（備份: {bak}）");
    }
    if key_is(key, "result_ssh_port_set") {
        return Some("SSH 連接埠已修改為 {port}（{msg}）");
    }
    if key_is(key, "result_pw_auth_disabled") {
        return Some("密碼登入已停用（僅允許金鑰登入）");
    }
    if key_is(key, "result_key_generated") {
        return Some("ED25519 金鑰對已生成\n  私鑰: {priv}\n  公鑰: {pub}\n  ⚠️  私鑰無密碼短語保護，建議手動加密：ssh-keygen -p -f {key}\n  請立即複製私鑰並安全儲存！");
    }
    if key_is(key, "result_key_pasted") {
        return Some("公鑰已添加到 {user} 的 authorized_keys");
    }
    if key_is(key, "result_ufw_enabled") {
        return Some("UFW 已啟用，SSH 連接埠 {port} 已放行");
    }
    if key_is(key, "result_fail2ban_installed") {
        return Some("Fail2ban 已安裝並執行，SSH 連接埠 {port} 已加入監控");
    }
    if key_is(key, "result_auto_updates_enabled") {
        return Some("自動安全更新已啟用（每日檢查，自動安裝安全修補程式）");
    }
    if key_is(key, "result_lynis_ok") {
        return Some("lynis 安全掃描完成（{warns} 個警告, {suggs} 個建議）\n  詳細報告: /var/log/lynis.log");
    }
    if key_is(key, "result_lynis_fail") {
        return Some("lynis 無法自動安裝，請手動安裝後重新執行");
    }
    if key_is(key, "result_logwatch_installed") {
        return Some("日誌與稽核增強完成\n  已安裝/配置: {installed}\n  logwatch: 每日郵件報告\n  aide: 檔案完整性檢查已初始化");
    }
    if key_is(key, "result_ssh_restarted") {
        return Some("SSH 服務已重新啟動（狀態: {status}）\n  ⚠️  請在另一個終端驗證連線後再關閉當前會話！\n  🔄 如需回退：systemctl restart sshd 或恢復備份 /etc/ssh/sshd_config.bak.*");
    }
    if key_is(key, "result_sshd_cfg_set") {
        return Some("{key} 已設定為 {value}（備份: {bak}）");
    }
    if key_is(key, "result_sshd_syntax_ok") {
        return Some("sshd_config 語法檢查通過");
    }
    if key_is(key, "result_sshd_syntax_err") {
        return Some("sshd_config 語法錯誤，請檢查配置: {err}");
    }
    if key_is(key, "log_audit") {
        return Some("[稽核]");
    }
    if key_is(key, "log_operation") {
        return Some("[操作]");
    }
    if key_is(key, "log_rollback") {
        return Some("[回退]");
    }
    if key_is(key, "log_audit_start") {
        return Some("開始環境稽核...");
    }
    if key_is(key, "log_audit_done") {
        return Some("完成，共 {n} 項檢測");
    }
    if key_is(key, "log_step_start") {
        return Some("開始執行");
    }
    None
}

pub open spec fn zh_tw_text_4(key: Seq<char>) -> Option<Seq<char>> {
    if key == "log_step_complete"@ {
        Some("完成"@)
    } else if key == "log_step_failed"@ {
        Some("失敗"@)
    } else if key == "log_rollback_auto"@ {
        Some("步驟失敗，自動回退所有已註冊的修改"@)
    } else if key == "undo_user_remove"@ {
        Some("刪除用戶 '{user}'"@)
    } else if key == "undo_pkg_remove"@ {
        Some("刪除 {pkg}"@)
    } else if key == "undo_cmd"@ {
        Some("{desc}"@)
    } else if key == "undo_file_restore"@ {
        Some("恢復 sshd_config（{key}）"@)
    } else if key == "undo_ufw_disable"@ {
        Some("關閉 UFW 防火牆"@)
    } else if key == "undo_ufw_delete"@ {
        Some("刪除 UFW 連接埠 {port} 放行規則"@)
    } else if key == "undo_key_delete"@ {
        Some("刪除 {user} 的金鑰檔案"@)
    } else if key == "cli_welcome"@ {
        Some("U2Secure - Linux 伺服器安全強化工具 v{ver}"@)
    } else if key == "cli_auditing"@ {
        Some("正在執行環境稽核..."@)
    } else if key == "cli_audit_done"@ {
        Some("環境稽核完成："@)
    } else if key == "cli_select_steps"@ {
        Some("請選擇要執行的強化步驟（已安全配置的預設不勾選）："@)
    } else if key == "cli_hint_nav"@ {
        Some("提示：方向鍵上下移動，空格選擇，回車確認"@)
    } else if key == "cli_collecting"@ {
        Some("開始收集配置參數..."@)
    } else if key == "cli_will_execute"@ {
        Some("以下步驟將被執行："@)
    } else if key == "cli_confirm"@ {
        Some("是否繼續？"@)
    } else if key == "cli_cancelled"@ {
        Some("用戶取消。"@)
    } else if key == "cli_no_selection"@ {
        Some("未選擇任何步驟，退出。"@)
    } else if key == "cli_executing"@ {
        Some("開始執行強化步驟..."@)
    } else if key == "cli_summary_title"@ {
        Some("本次強化總結報告"@)
    } else if key == "cli_summary_total"@ {
        Some("總計: {ok} 成功, {fail} 失敗/跳過"@)
    } else if key == "cli_log_saved"@ {
        Some("日誌已儲存至 /var/log/secure-init.log"@)
    } else if key == "cli_create_user"@ {
        Some("是否創建新的管理用戶？"@)
    } else if key == "cli_username_prompt"@ {
        Some("請輸入新用戶名"@)
    } else if key == "cli_username_empty"@ {
        Some("用戶名不能為空"@)
    } else if key == "cli_username_exists"@ {
        Some("用戶已存在"@)
    } else {
        None
    }
}

fn zh_tw_part_4(key: &Vec<char>) -> (r: Option<&'static str>)
    ensures
        opt_view(r) == zh_tw_text_4(key@),
{
    if key_is(key, "log_step_complete") {
        return Some("完成");
    }
    if key_is(key, "log_step_failed") {
        return Some("失敗");
    }
    if key_is(key, "log_rollback_auto") {
        return Some("步驟失敗，自動回退所有已註冊的修改");
    }
    if key_is(key, "undo_user_remove") {
        return Some("刪除用戶 '{user}'");
    }
    if key_is(key, "undo_pkg_remove") {
        return Some("刪除 {pkg}");
    }
    if key_is(key, "undo_cmd") {
        return Some("{desc}");
    }
    if key_is(key, "undo_file_restore") {
        return Some("恢復 sshd_config（{key}）");
    }
    if key_is(key, "undo_ufw_disable") {
        return Some("關閉 UFW 防火牆");
    }
    if key_is(key, "undo_ufw_delete") {
        return Some("刪除 UFW 連接埠 {port} 放行規則");
    }
    if key_is(key, "undo_key_delete") {
        return Some("刪除 {user} 的金鑰檔案");
    }
    if key_is(key, "cli_welcome") {
        return Some("U2Secure - Linux 伺服器安全強化工具 v{ver}");
    }
    if key_is(key, "cli_auditing") {
        return Some("正在執行環境稽核...");
    }
    if key_is(key, "cli_audit_done") {
        return Some("環境稽核完成：");
    }
    if key_is(key, "cli_select_steps") {
        return Some("請選擇要執行的強化步驟（已安全配置的預設不勾選）：");
    }
    if key_is(key, "cli_hint_nav") {
        return Some("提示：方向鍵上下移動，空格選擇，回車確認");
    }
    if key_is(key, "cli_collecting") {
        return Some("開始收集配置參數...");
    }
    if key_is(key, "cli_will_execute") {
        return Some("以下步驟將被執行：");
    }
    if key_is(key, "cli_confirm") {
        return Some("是否繼續？");
    }
    if key_is(key, "cli_cancelled") {
        return Some("用戶取消。");
    }
    if key_is(key, "cli_no_selection") {
        return Some("未選擇任何步驟，退出。");
    }
    if key_is(key, "cli_executing") {
        return Some("開始執行強化步驟...");
    }
    if key_is(key, "cli_summary_title") {
        return Some("本次強化總結報告");
    }
    if key_is(key, "cli_summary_total") {
        return Some("總計: {ok} 成功, {fail} 失敗/跳過");
    }
    if key_is(key, "cli_log_saved") {
        return Some("日誌已儲存至 /var/log/secure-init.log");
    }
    if key_is(key, "cli_create_user") {
        return Some("是否創建新的管理用戶？");
    }
    if key_is(key, "cli_username_prompt") {
        return Some("請輸入新用戶名");
    }
    if key_is(key, "cli_username_empty") {
        return Some("用戶名不能為空");
    }
    if key_is(key, "cli_username_exists") {
        return Some("用戶已存在");
    }
    None
}

pub open spec fn zh_tw_text_5(key: Seq<char>) -> Option<Seq<char>> {
    if key == "cli_username_invalid"@ {
        Some("用戶名只能包含字母、數字、- 和 _"@)
    } else if key == "cli_lock_pw"@ {
        Some("鎖定密碼（強制金鑰登入）？"@)
    } else if key == "cli_current_port"@ {
        Some("當前 SSH 連接埠: {port}"@)
    } else if key == "cli_default_port"@ {
        Some("22（預設）"@)
    } else if key == "cli_suggest_port"@ {
        Some("建議連接埠: {port}"@)
    } else if key == "cli_port_prompt"@ {
        Some("請輸入新 SSH 連接埠（輸入 0 跳過）"@)
    } else if key == "cli_port_invalid"@ {
        Some("請輸入有效數字"@)
    } else if key == "cli_port_zero"@ {
        Some("連接埠 0 無效"@)
    } else if key == "cli_existing_sudo"@ {
        Some("已有 sudo 用戶: {users}"@)
    } else if key == "cli_no_sudo"@ {
        Some("沒有可用的 sudo 用戶，跳過金鑰設定"@)
    } else if key == "cli_manual_user"@ {
        Some("未檢測到 sudo 用戶，請輸入要設定金鑰的目標用戶名"@)
    } else if key == "cli_user_prompt"@ {
        Some("目標用戶名"@)
    } else if key == "cli_no_input"@ {
        Some("未輸入用戶名，跳過金鑰設定"@)
    } else if key == "cli_select_user"@ {
        Some("選擇要設定金鑰的用戶"@)
    } else if key == "cli_key_found"@ {
        Some("用戶 {user} 已有公鑰: {fp}"@)
    } else if key == "cli_key_action"@ {
        Some("為 {user} 設定 SSH 金鑰"@)
    } else if key == "cli_key_generate"@ {
        Some("生成新金鑰對"@)
    } else if key == "cli_key_paste"@ {
        Some("貼上已有公鑰"@)
    } else if key == "cli_key_skip"@ {
        Some("跳過"@)
    } else if key == "cli_key_prompt"@ {
        Some("請貼上公鑰內容（ssh-ed25519 AAA...）"@)
    } else if key == "cli_ssh_port_info"@ {
        Some("當前 SSH 連接埠: {port_str}"@)
    } else if key == "cli_ssh_suggest_info"@ {
        Some("建議連接埠: {port}"@)
    } else if key == "tui_title"@ {
        Some("U2Secure — Linux 伺服器安全強化工具"@)
    } else if key == "tui_audit_report"@ {
        Some("稽核報告"@)
    } else if key == "tui_steps_title"@ {
        Some("強化步驟 ({n})"@)
    } else if key == "tui_help_title"@ {
        Some("操作提示"@)
    } else if key == "tui_help_move"@ {
        Some("移動游標"@)
    } else if key == "tui_help_toggle"@ {
        Some("切換選擇 / 取消"@)
    } else {
        None
    }
}

fn zh_tw_part_5(key: &Vec<char>) -> (r: Option<&'static str>)
    ensures
        opt_view(r) == zh_tw_text_5(key@),
{
    if key_is(key, "cli_username_invalid") {
        return Some("用戶名只能包含字母、數字、- 和 _");
    }
    if key_is(key, "cli_lock_pw") {
        return Some("鎖定密碼（強制金鑰登入）？");
    }
    if key_is(key, "cli_current_port") {
        return Some("當前 SSH 連接埠: {port}");
    }
    if key_is(key, "cli_default_port") {
        return Some("22（預設）");
    }
    if key_is(key, "cli_suggest_port") {
        return Some("建議連接埠: {port}");
    }
    if key_is(key, "cli_port_prompt") {
        return Some("請輸入新 SSH 連接埠（輸入 0 跳過）");
    }
    if key_is(key, "cli_port_invalid") {
        return Some("請輸入有效數字");
    }
    if key_is(key, "cli_port_zero") {
        return Some("連接埠 0 無效");
    }
    if key_is(key, "cli_existing_sudo") {
        return Some("已有 sudo 用戶: {users}");
    }
    if key_is(key, "cli_no_sudo") {
        return Some("沒有可用的 sudo 用戶，跳過金鑰設定");
    }
    if key_is(key, "cli_manual_user") {
        return Some("未檢測到 sudo 用戶，請輸入要設定金鑰的目標用戶名");
    }
    if key_is(key, "cli_user_prompt") {
        return Some("目標用戶名");
    }
    if key_is(key, "cli_no_input") {
        return Some("未輸入用戶名，跳過金鑰設定");
    }
    if key_is(key, "cli_select_user") {
        return Some("選擇要設定金鑰的用戶");
    }
    if key_is(key, "cli_key_found") {
        return Some("用戶 {user} 已有公鑰: {fp}");
    }
    if key_is(key, "cli_key_action") {
        return Some("為 {user} 設定 SSH 金鑰");
    }
    if key_is(key, "cli_key_generate") {
        return Some("生成新金鑰對");
    }
    if key_is(key, "cli_key_paste") {
        return Some("貼上已有公鑰");
    }
    if key_is(key, "cli_key_skip") {
        return Some("跳過");
    }
    if key_is(key, "cli_key_prompt") {
        return Some("請貼上公鑰內容（ssh-ed25519 AAA...）");
    }
    if key_is(key, "cli_ssh_port_info") {
        return Some("當前 SSH 連接埠: {port_str}");
    }
    if key_is(key, "cli_ssh_suggest_info") {
        return Some("建議連接埠: {port}");
    }
    if key_is(key, "tui_title") {
        return Some("U2Secure — Linux 伺服器安全強化工具");
    }
    if key_is(key, "tui_audit_report") {
        return Some("稽核報告");
    }
    if key_is(key, "tui_steps_title") {
        return Some("強化步驟 ({n})");
    }
    if key_is(key, "tui_help_title") {
        return Some("操作提示");
    }
    if key_is(key, "tui_help_move") {
        return Some("移動游標");
    }
    if key_is(key, "tui_help_toggle") {
        return Some("切換選擇 / 取消");
    }
    None
}

pub open spec fn zh_tw_text_6(key: Seq<char>) -> Option<Seq<char>> {
    if key == "tui_help_batch"@ {
        Some("批次執行選中的步驟"@)
    } else if key == "tui_help_single"@ {
        Some("立即執行當前步驟"@)
    } else if key == "tui_help_reauth"@ {
        Some("重新稽核"@)
    } else if key == "tui_help_quit"@ {
        Some("退出"@)
    } else if key == "tui_selected_count"@ {
        Some("已勾選 {n} 項"@)
    } else if key == "tui_single_hint"@ {
        Some("按 e 可強制執行任意單項"@)
    } else if key == "tui_exec_title"@ {
        Some("執行狀態"@)
    } else if key == "tui_exec_running"@ {
        Some("正在執行: {step}"@)
    } else if key == "tui_exec_done"@ {
        Some("已完成: {step}"@)
    } else if key == "tui_exec_skip"@ {
        Some("跳過: {msg}"@)
    } else if key == "tui_exec_failed"@ {
        Some("失敗: {err}"@)
    } else if key == "tui_exec_interrupted"@ {
        Some("用戶中斷"@)
    } else if key == "tui_result_title"@ {
        Some("執行結果"@)
    } else if key == "tui_result_summary"@ {
        Some("總計: {ok} 成功, {fail} 失敗/跳過"@)
    } else if key == "tui_result_return"@ {
        Some("按任意鍵返回步驟列表"@)
    } else if key == "tui_footer_select"@ {
        Some("↑↓/jk 移動 | Space 選擇 | Enter 批次執行 | e 單項執行 | r 重新稽核 | q 退出"@)
    } else if key == "tui_footer_exec"@ {
        Some("執行中... 按 Ctrl+C 中斷"@)
    } else if key == "tui_footer_summary"@ {
        Some("執行完畢 | 按任意鍵返回步驟列表"@)
    } else if key == "tui_popup_username"@ {
        Some("目標用戶名"@)
    } else if key == "tui_popup_enter_user"@ {
        Some("輸入用戶名..."@)
    } else if key == "tui_popup_select_user"@ {
        Some("選擇用戶"@)
    } else if key == "tui_popup_select_action"@ {
        Some("選擇操作"@)
    } else if key == "tui_popup_gen_key"@ {
        Some("生成新金鑰對"@)
    } else if key == "tui_popup_paste_key"@ {
        Some("貼上已有公鑰"@)
    } else if key == "tui_popup_skip"@ {
        Some("跳過"@)
    } else if key == "tui_popup_paste_title"@ {
        Some("貼上公鑰"@)
    } else if key == "tui_popup_paste_hint"@ {
        Some("貼上 ssh-ed25519 / ssh-rsa 公鑰內容..."@)
    } else if key == "tui_popup_overwrite_title"@ {
        Some("金鑰已存在"@)
    } else {
        None
    }
}

fn zh_tw_part_6(key: &Vec<char>) -> (r: Option<&'static str>)
    ensures
        opt_view(r) == zh_tw_text_6(key@),
{
    if key_is(key, "tui_help_batch") {
        return Some("批次執行選中的步驟");
    }
    if key_is(key, "tui_help_single") {
        return Some("立即執行當前步驟");
    }
    if key_is(key, "tui_help_reauth") {
        return Some("重新稽核");
    }
    if key_is(key, "tui_help_quit") {
        return Some("退出");
    }
    if key_is(key, "tui_selected_count") {
        return Some("已勾選 {n} 項");
    }
    if key_is(key, "tui_single_hint") {
        return Some("按 e 可強制執行任意單項");
    }
    if key_is(key, "tui_exec_title") {
        return Some("執行狀態");
    }
    if key_is(key, "tui_exec_running") {
        return Some("正在執行: {step}");
    }
    if key_is(key, "tui_exec_done") {
        return Some("已完成: {step}");
    }
    if key_is(key, "tui_exec_skip") {
        return Some("跳過: {msg}");
    }
    if key_is(key, "tui_exec_failed") {
        return Some("失敗: {err}");
    }
    if key_is(key, "tui_exec_interrupted") {
        return Some("用戶中斷");
    }
    if key_is(key, "tui_result_title") {
        return Some("執行結果");
    }
    if key_is(key, "tui_result_summary") {
        return Some("總計: {ok} 成功, {fail} 失敗/跳過");
    }
    if key_is(key, "tui_result_return") {
        return Some("按任意鍵返回步驟列表");
    }
    if key_is(key, "tui_footer_select") {
        return Some("↑↓/jk 移動 | Space 選擇 | Enter 批次執行 | e 單項執行 | r 重新稽核 | q 退出");
    }
    if key_is(key, "tui_footer_exec") {
        return Some("執行中... 按 Ctrl+C 中斷");
    }
    if key_is(key, "tui_footer_summary") {
        return Some("執行完畢 | 按任意鍵返回步驟列表");
    }
    if key_is(key, "tui_popup_username") {
        return Some("目標用戶名");
    }
    if key_is(key, "tui_popup_enter_user") {
        return Some("輸入用戶名...");
    }
    if key_is(key, "tui_popup_select_user") {
        return Some("選擇用戶");
    }
    if key_is(key, "tui_popup_select_action") {
        return Some("選擇操作");
    }
    if key_is(key, "tui_popup_gen_key") {
        return Some("生成新金鑰對");
    }
    if key_is(key, "tui_popup_paste_key") {
        return Some("貼上已有公鑰");
    }
    if key_is(key, "tui_popup_skip") {
        return Some("跳過");
    }
    if key_is(key, "tui_popup_paste_title") {
        return Some("貼上公鑰");
    }
    if key_is(key, "tui_popup_paste_hint") {
        return Some("貼上 ssh-ed25519 / ssh-rsa 公鑰內容...");
    }
    if key_is(key, "tui_popup_overwrite_title") {
        return Some("金鑰已存在");
    }
    None
}

pub open spec fn zh_tw_text_7(key: Seq<char>) -> Option<Seq<char>> {
    if key == "tui_popup_overwrite_yes"@ {
        Some("重新建立 (覆蓋現有金鑰)"@)
    } else if key == "tui_popup_overwrite_no"@ {
        Some("取消"@)
    } else if key == "tui_popup_new_user"@ {
        Some("新用戶名"@)
    } else if key == "tui_popup_lock_title"@ {
        Some("鎖定密碼"@)
    } else if key == "tui_popup_lock_yes"@ {
        Some("是 (鎖定密碼, 強制金鑰登入)"@)
    } else if key == "tui_popup_lock_no"@ {
        Some("否 (不鎖定密碼)"@)
    } else if key == "tui_popup_port_title"@ {
        Some("新 SSH 連接埠"@)
    } else if key == "tui_popup_port_suggest"@ {
        Some("建議連接埠: {port}"@)
    } else if key == "tui_popup_port_current"@ {
        Some("當前: {port}"@)
    } else if key == "tui_popup_port_placeholder"@ {
        Some("輸入 0-65535..."@)
    } else if key == "tui_popup_enter"@ {
        Some("Enter 確認"@)
    } else if key == "tui_popup_esc"@ {
        Some("Esc 取消"@)
    } else if key == "tui_popup_esc_back"@ {
        Some("Esc 返回"@)
    } else if key == "tui_popup_updown"@ {
        Some("↑↓ 選擇"@)
    } else if key == "tui_popup_enter_confirm"@ {
        Some("Enter 確認"@)
    } else if key == "tui_hint_enter_esc"@ {
        Some("Enter 確認  Esc 取消"@)
    } else if key == "tui_hint_updown_enter_esc"@ {
        Some("↑↓ 選擇  Enter 確認  Esc 取消"@)
    } else if key == "tui_hint_enter_esc_back"@ {
        Some("Enter 確認  Esc 返回"@)
    } else if key == "tui_hint_updown_enter_esc_back"@ {
        Some("↑↓ 選擇  Enter 確認  Esc 返回"@)
    } else if key == "tui_step_status_running"@ {
        Some("▶"@)
    } else if key == "tui_step_status_done"@ {
        Some("✓"@)
    } else if key == "tui_step_status_failed"@ {
        Some("✗"@)
    } else if key == "log_running"@ {
        Some("正在執行: {step}"@)
    } else if key == "log_completed"@ {
        Some("已完成: {step}"@)
    } else if key == "log_skip"@ {
        Some("跳過: {msg}"@)
    } else if key == "log_failed"@ {
        Some("失敗: {err}"@)
    } else if key == "log_interrupted"@ {
        Some("用戶中斷"@)
    } else {
        None
    }
}

fn zh_tw_part_7(key: &Vec<char>) -> (r: Option<&'static str>)
    ensures
        opt_view(r) == zh_tw_text_7(key@),
{
    if key_is(key, "tui_popup_overwrite_yes") {
        return Some("重新建立 (覆蓋現有金鑰)");
    }
    if key_is(key, "tui_popup_overwrite_no") {
        return Some("取消");
    }
    if key_is(key, "tui_popup_new_user") {
        return Some("新用戶名");
    }
    if key_is(key, "tui_popup_lock_title") {
        return Some("鎖定密碼");
    }
    if key_is(key, "tui_popup_lock_yes") {
        return Some("是 (鎖定密碼, 強制金鑰登入)");
    }
    if key_is(key, "tui_popup_lock_no") {
        return Some("否 (不鎖定密碼)");
    }
    if key_is(key, "tui_popup_port_title") {
        return Some("新 SSH 連接埠");
    }
    if key_is(key, "tui_popup_port_suggest") {
        return Some("建議連接埠: {port}");
    }
    if key_is(key, "tui_popup_port_current") {
        return Some("當前: {port}");
    }
    if key_is(key, "tui_popup_port_placeholder") {
        return Some("輸入 0-65535...");
    }
    if key_is(key, "tui_popup_enter") {
        return Some("Enter 確認");
    }
    if key_is(key, "tui_popup_esc") {
        return Some("Esc 取消");
    }
    if key_is(key, "tui_popup_esc_back") {
        return Some("Esc 返回");
    }
    if key_is(key, "tui_popup_updown") {
        return Some("↑↓ 選擇");
    }
    if key_is(key, "tui_popup_enter_confirm") {
        return Some("Enter 確認");
    }
    if key_is(key, "tui_hint_enter_esc") {
        return Some("Enter 確認  Esc 取消");
    }
    if key_is(key, "tui_hint_updown_enter_esc") {
        return Some("↑↓ 選擇  Enter 確認  Esc 取消");
    }
    if key_is(key, "tui_hint_enter_esc_back") {
        return Some("Enter 確認  Esc 返回");
    }
    if key_is(key, "tui_hint_updown_enter_esc_back") {
        return Some("↑↓ 選擇  Enter 確認  Esc 返回");
    }
    if key_is(key, "tui_step_status_running") {
        return Some("▶");
    }
    if key_is(key, "tui_step_status_done") {
        return Some("✓");
    }
    if key_is(key, "tui_step_status_failed") {
        return Some("✗");
    }
    if key_is(key, "log_running") {
        return Some("正在執行: {step}");
    }
    if key_is(key, "log_completed") {
        return Some("已完成: {step}");
    }
    if key_is(key, "log_skip") {
        return Some("跳過: {msg}");
    }
    if key_is(key, "log_failed") {
        return Some("失敗: {err}");
    }
    if key_is(key, "log_interrupted") {
        return Some("用戶中斷");
    }
    None
}

/// The Traditional Chinese table.
pub open spec fn zh_tw_text(key: Seq<char>) -> Option<Seq<char>> {
    match zh_tw_text_0(key) {
        Some(t) => Some(t),
        None => match zh_tw_text_1(key) {
        Some(t) => Some(t),
        None => match zh_tw_text_2(key) {
        Some(t) => Some(t),
        None => match zh_tw_text_3(key) {
        Some(t) => Some(t),
        None => match zh_tw_text_4(key) {
        Some(t) => Some(t),
        None => match zh_tw_text_5(key) {
        Some(t) => Some(t),
        None => match zh_tw_text_6(key) {
        Some(t) => Some(t),
        None => zh_tw_text_7(key),
    },
    },
    },
    },
    },
    },
    }
}

/// Entry of the Traditional Chinese table for `key`.
pub fn zh_tw(key: &str) -> (r: Option<&'static str>)
    ensures
        opt_view(r) == zh_tw_text(key@),
{
    let k = chars_of(key);
    let r0 = zh_tw_part_0(&k);
    if r0.is_some() {
        return r0;
    }
    let r1 = zh_tw_part_1(&k);
    if r1.is_some() {
        return r1;
    }
    let r2 = zh_tw_part_2(&k);
    if r2.is_some() {
        return r2;
    }
    let r3 = zh_tw_part_3(&k);
    if r3.is_some() {
        return r3;
    }
    let r4 = zh_tw_part_4(&k);
    if r4.is_some() {
        return r4;
    }
    let r5 = zh_tw_part_5(&k);
    if r5.is_some() {
        return r5;
    }
    let r6 = zh_tw_part_6(&k);
    if r6.is_some() {
        return r6;
    }
    let r7 = zh_tw_part_7(&k);
    if r7.is_some() {
        return r7;
    }
    None
}

} // verus!
