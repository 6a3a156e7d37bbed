//! The audit report: what was found on the host and how each hardening step stands.
use vstd::prelude::*;

use crate::domain::steps::StepKind;
use crate::text::{chars_of, string_of};

verus! {

/// State of one audit item.
#[derive(Debug, Clone, Copy, PartialEq, Eq, Structural)]
pub enum AuditStatus {
    /// Configured securely
    Safe,
    /// Partly configured, or a similar tool is present
    Partial,
    /// Not configured
    Missing,
    /// Needs an update
    NeedsUpdate,
}

pub open spec fn status_icon(s: AuditStatus) -> Seq<char> {
    match s {
        AuditStatus::Safe => "✅"@,
        AuditStatus::Partial => "⚠️"@,
        AuditStatus::Missing => "❌"@,
        AuditStatus::NeedsUpdate => "🔄"@,
    }
}

impl AuditStatus {
    /// The icon shown next to an item in this state.
    pub fn icon(&self) -> (r: &'static str)
        ensures
            r@ == status_icon(*self),
    {
        match self {
            AuditStatus::Safe => "✅",
            AuditStatus::Partial => "⚠️",
            AuditStatus::Missing => "❌",
            AuditStatus::NeedsUpdate => "🔄",
        }
    }
}

/// One line of the audit report.
#[derive(Debug, Clone)]
pub struct AuditItem {
    pub name: &'static str,
    pub status: AuditStatus,
    pub detail: String,
}

impl AuditItem {
    pub fn new(name: &'static str, status: AuditStatus, detail: String) -> (r: Self)
        ensures
            r.name == name,
            r.status == status,
            r.detail == detail,
    {
        AuditItem { name, status, detail }
    }

    pub fn safe(name: &'static str, detail: String) -> (r: Self)
        ensures
            r.name == name,
            r.status == AuditStatus::Safe,
            r.detail == detail,
    {
        Self::new(name, AuditStatus::Safe, detail)
    }

    pub fn missing(name: &'static str, detail: String) -> (r: Self)
        ensures
            r.name == name,
            r.status == AuditStatus::Missing,
            r.detail == detail,
    {
        Self::new(name, AuditStatus::Missing, detail)
    }

    pub fn partial(name: &'static str, detail: String) -> (r: Self)
        ensures
            r.name == name,
            r.status == AuditStatus::Partial,
            r.detail == detail,
    {
        Self::new(name, AuditStatus::Partial, detail)
    }

    pub fn needs_update(name: &'static str, detail: String) -> (r: Self)
        ensures
            r.name == name,
            r.status == AuditStatus::NeedsUpdate,
            r.detail == detail,
    {
        Self::new(name, AuditStatus::NeedsUpdate, detail)
    }
}

/// Supported package managers.
#[derive(Debug, Clone, Copy, PartialEq, Eq, Structural)]
pub enum PackageManager {
    Apt,
    Yum,
    Dnf,
    Unknown,
}

pub open spec fn pm_name(pm: PackageManager) -> Seq<char> {
    match pm {
        PackageManager::Apt => "apt"@,
        PackageManager::Yum => "yum"@,
        PackageManager::Dnf => "dnf"@,
        PackageManager::Unknown => "unknown"@,
    }
}

/// The command line that refreshes the package lists.
pub open spec fn pm_update_args(pm: PackageManager) -> Seq<Seq<char>> {
    match pm {
        PackageManager::Apt => seq!["apt"@, "update"@],
        PackageManager::Yum => seq!["yum"@, "update"@, "-y"@],
        PackageManager::Dnf => seq!["dnf"@, "update"@, "-y"@],
        PackageManager::Unknown => seq![],
    }
}

/// The command line that upgrades the installed packages.
pub open spec fn pm_upgrade_args(pm: PackageManager) -> Seq<Seq<char>> {
    match pm {
        PackageManager::Apt => seq!["apt"@, "upgrade"@, "-y"@],
        PackageManager::Yum => seq!["yum"@, "upgrade"@, "-y"@],
        PackageManager::Dnf => seq!["dnf"@, "upgrade"@, "-y"@],
        PackageManager::Unknown => seq![],
    }
}

pub open spec fn str_views(v: Seq<&'static str>) -> Seq<Seq<char>> {
    v.map_values(|s: &'static str| s@)
}

impl PackageManager {
    /// The manager's command name.
    pub fn name(&self) -> (r: &'static str)
        ensures
            r@ == pm_name(*self),
    {
        match self {
            PackageManager::Apt => "apt",
            PackageManager::Yum => "yum",
            PackageManager::Dnf => "dnf",
            PackageManager::Unknown => "unknown",
        }
    }

    /// The name as an owned string (what `Display` printed).
    pub fn to_string(&self) -> (r: String)
        ensures
            r@ == pm_name(*self),
    {
        let c = chars_of(self.name());
        string_of(&c)
    }

    pub fn update_cmd(&self) -> (r: &'static [&'static str])
        ensures
            str_views(r@) == pm_update_args(*self),
    {
        match self {
            PackageManager::Apt => {
                let r: &'static [&'static str] = &["apt", "update"];
                assert(str_views(r@) =~= pm_update_args(*self));
                r
            },
            PackageManager::Yum => {
                let r: &'static [&'static str] = &["yum", "update", "-y"];
                assert(str_views(r@) =~= pm_update_args(*self));
                r
            },
            PackageManager::Dnf => {
                let r: &'static [&'static str] = &["dnf", "update", "-y"];
                assert(str_views(r@) =~= pm_update_args(*self));
                r
            },
            PackageManager::Unknown => {
                let r: &'static [&'static str] = &[];
                assert(str_views(r@) =~= pm_update_args(*self));
                r
            },
        }
    }

    pub fn upgrade_cmd(&self) -> (r: &'static [&'static str])
        ensures
            str_views(r@) == pm_upgrade_args(*self),
    {
        match self {
            PackageManager::Apt => {
                let r: &'static [&'static str] = &["apt", "upgrade", "-y"];
                assert(str_views(r@) =~= pm_upgrade_args(*self));
                r
            },
            PackageManager::Yum => {
                let r: &'static [&'static str] = &["yum", "upgrade", "-y"];
                assert(str_views(r@) =~= pm_upgrade_args(*self));
                r
            },
            PackageManager::Dnf => {
                let r: &'static [&'static str] = &["dnf", "upgrade", "-y"];
                assert(str_views(r@) =~= pm_upgrade_args(*self));
                r
            },
            PackageManager::Unknown => {
                let r: &'static [&'static str] = &[];
                assert(str_views(r@) =~= pm_upgrade_args(*self));
                r
            },
        }
    }
}

/// The audit report of a host.
#[derive(Debug, Clone)]
pub struct AuditReport {
    /// The items, in the order they are shown
    pub items: Vec<AuditItem>,
    /// Running as root
    pub is_root: bool,
    pub package_manager: PackageManager,
    /// SSH port (22 by default)
    pub ssh_port: u16,
    pub password_auth_disabled: bool,
    pub root_login_disabled: bool,
    /// Non-system members of the sudo group
    pub sudo_users: Vec<String>,
    pub fail2ban_installed: bool,
    pub ufw_enabled: bool,
    pub auto_updates_enabled: bool,
    /// Package lists refreshed recently
    pub system_up_to_date: bool,
}

/// How a step stands according to the report.
pub open spec fn report_status(r: AuditReport, step: StepKind) -> AuditStatus {
    match step {
        StepKind::SystemUpdate => if r.system_up_to_date { AuditStatus::Safe } else { AuditStatus::NeedsUpdate },
        StepKind::UserCreation => if r.sudo_users@.len() == 0 { AuditStatus::Missing } else { AuditStatus::Safe },
        StepKind::SshRootLogin => if r.root_login_disabled { AuditStatus::Safe } else { AuditStatus::Missing },
        StepKind::SshPortChange => if r.ssh_port != 22 { AuditStatus::Safe } else { AuditStatus::Missing },
        StepKind::SshPasswordAuth => if r.password_auth_disabled { AuditStatus::Safe } else { AuditStatus::Missing },
        StepKind::SshKeySetup => if r.sudo_users@.len() == 0 { AuditStatus::Missing } else { AuditStatus::Partial },
        StepKind::Ufw => if r.ufw_enabled { AuditStatus::Safe } else { AuditStatus::Missing },
        StepKind::Fail2ban => if r.fail2ban_installed { AuditStatus::Safe } else { AuditStatus::Missing },
        StepKind::AutoUpdates => if r.auto_updates_enabled { AuditStatus::Safe } else { AuditStatus::Missing },
        StepKind::SecurityScan => AuditStatus::Missing,
        StepKind::LogAudit => AuditStatus::Missing,
        StepKind::RestartSsh => AuditStatus::Missing,
    }
}

/// The kinds summarised by `summary_lines`, in order.
pub open spec fn summary_kinds() -> Seq<StepKind> {
    seq![
        StepKind::SystemUpdate,
        StepKind::UserCreation,
        StepKind::SshRootLogin,
        StepKind::SshPortChange,
        StepKind::SshPasswordAuth,
        StepKind::Ufw,
        StepKind::Fail2ban,
        StepKind::AutoUpdates,
    ]
}

pub open spec fn summary_labels() -> Seq<Seq<char>> {
    seq![
        "系统更新"@,
        "非 root 用户创建"@,
        "禁止 root SSH 登录"@,
        "SSH 端口修改"@,
        "禁止密码登录"@,
        "UFW 防火墙"@,
        "Fail2ban"@,
        "自动安全更新"@,
    ]
}

impl AuditReport {
    /// One line per configurable area: its label and its state.
    pub fn summary_lines(&self) -> (r: Vec<(&'static str, AuditStatus)>)
        ensures
            r@.len() == 8,
            forall|i: int| 0 <= i < 8 ==> (#[trigger] r@[i]).0@ == summary_labels()[i]
                && r@[i].1 == report_status(*self, summary_kinds()[i]),
    {
        let r = vec![
            ("系统更新", self.status_for(StepKind::SystemUpdate)),
            ("非 root 用户创建", self.status_for(StepKind::UserCreation)),
            ("禁止 root SSH 登录", self.status_for(StepKind::SshRootLogin)),
            ("SSH 端口修改", self.status_for(StepKind::SshPortChange)),
            ("禁止密码登录", self.status_for(StepKind::SshPasswordAuth)),
            ("UFW 防火墙", self.status_for(StepKind::Ufw)),
            ("Fail2ban", self.status_for(StepKind::Fail2ban)),
            ("自动安全更新", self.status_for(StepKind::AutoUpdates)),
        ];
        r
    }

    /// How `step` stands according to this report.
    pub fn status_for(&self, step: StepKind) -> (r: AuditStatus)
        ensures
            r == report_status(*self, step),
    {
        match step {
            StepKind::SystemUpdate => {
                if self.system_up_to_date { AuditStatus::Safe } else { AuditStatus::NeedsUpdate }
            },
            StepKind::UserCreation => {
                if self.sudo_users.len() == 0 { AuditStatus::Missing } else { AuditStatus::Safe }
            },
            StepKind::SshRootLogin => {
                if self.root_login_disabled { AuditStatus::Safe } else { AuditStatus::Missing }
            },
            StepKind::SshPortChange => {
                if self.ssh_port != 22 { AuditStatus::Safe } else { AuditStatus::Missing }
            },
            StepKind::SshPasswordAuth => {
                if self.password_auth_disabled { AuditStatus::Safe } else { AuditStatus::Missing }
            },
            StepKind::SshKeySetup => {
                // having a sudo user suggests a key may already be set up
                if self.sudo_users.len() == 0 { AuditStatus::Missing } else { AuditStatus::Partial }
            },
            StepKind::Ufw => {
                if self.ufw_enabled { AuditStatus::Safe } else { AuditStatus::Missing }
            },
            StepKind::Fail2ban => {
                if self.fail2ban_installed { AuditStatus::Safe } else { AuditStatus::Missing }
            },
            StepKind::AutoUpdates => {
                if self.auto_updates_enabled { AuditStatus::Safe } else { AuditStatus::Missing }
            },
            StepKind::SecurityScan | StepKind::LogAudit | StepKind::RestartSsh => {
                AuditStatus::Missing
            },
        }
    }
}

} // verus!
