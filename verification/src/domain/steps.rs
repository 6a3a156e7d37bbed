//! Hardening step kinds, their parameters and results.
use vstd::prelude::*;

use crate::domain::audit::{report_status, AuditReport, AuditStatus};
use crate::text::{chars_of, string_of};

verus! {

/// The kind of a hardening step.
#[derive(Debug, Clone, Copy, PartialEq, Eq, Hash, Structural)]
pub enum StepKind {
    SystemUpdate,
    UserCreation,
    SshRootLogin,
    SshPortChange,
    SshPasswordAuth,
    SshKeySetup,
    Ufw,
    Fail2ban,
    AutoUpdates,
    SecurityScan,
    LogAudit,
    RestartSsh,
}

pub open spec fn kind_label(k: StepKind) -> Seq<char> {
    match k {
        StepKind::SystemUpdate => "系统更新"@,
        StepKind::UserCreation => "非 root 用户创建"@,
        StepKind::SshRootLogin => "禁止 root SSH 登录"@,
        StepKind::SshPortChange => "SSH 端口修改"@,
        StepKind::SshPasswordAuth => "禁止密码登录"@,
        StepKind::SshKeySetup => "ED25519 密钥设置"@,
        StepKind::Ufw => "UFW 防火墙配置"@,
        StepKind::Fail2ban => "Fail2ban 安装配置"@,
        StepKind::AutoUpdates => "自动安全更新"@,
        StepKind::SecurityScan => "安全扫描"@,
        StepKind::LogAudit => "日志与审计增强"@,
        StepKind::RestartSsh => "SSH 服务重启与验证"@,
    }
}

/// All step kinds, in execution order.
pub open spec fn all_kinds() -> Seq<StepKind> {
    seq![
        StepKind::SystemUpdate,
        StepKind::UserCreation,
        StepKind::SshRootLogin,
        StepKind::SshPortChange,
        StepKind::SshPasswordAuth,
        StepKind::SshKeySetup,
        StepKind::Ufw,
        StepKind::Fail2ban,
        StepKind::AutoUpdates,
        StepKind::SecurityScan,
        StepKind::LogAudit,
        StepKind::RestartSsh,
    ]
}

/// Position of a kind in the execution order.
pub open spec fn kind_index(k: StepKind) -> int {
    match k {
        StepKind::SystemUpdate => 0,
        StepKind::UserCreation => 1,
        StepKind::SshRootLogin => 2,
        StepKind::SshPortChange => 3,
        StepKind::SshPasswordAuth => 4,
        StepKind::SshKeySetup => 5,
        StepKind::Ufw => 6,
        StepKind::Fail2ban => 7,
        StepKind::AutoUpdates => 8,
        StepKind::SecurityScan => 9,
        StepKind::LogAudit => 10,
        StepKind::RestartSsh => 11,
    }
}

/// Every kind appears in `all_kinds` exactly once, at its `kind_index`.
pub proof fn lemma_all_kinds_index(k: StepKind)
    ensures
        0 <= kind_index(k) < 12,
        all_kinds()[kind_index(k)] == k,
        forall|i: int| 0 <= i < 12 && #[trigger] all_kinds()[i] == k ==> i == kind_index(k),
{
}

impl StepKind {
    /// The step's name as shown to the user.
    pub fn label(&self) -> (r: &'static str)
        ensures
            r@ == kind_label(*self),
    {
        match self {
            StepKind::SystemUpdate => "系统更新",
            StepKind::UserCreation => "非 root 用户创建",
            StepKind::SshRootLogin => "禁止 root SSH 登录",
            StepKind::SshPortChange => "SSH 端口修改",
            StepKind::SshPasswordAuth => "禁止密码登录",
            StepKind::SshKeySetup => "ED25519 密钥设置",
            StepKind::Ufw => "UFW 防火墙配置",
            StepKind::Fail2ban => "Fail2ban 安装配置",
            StepKind::AutoUpdates => "自动安全更新",
            StepKind::SecurityScan => "安全扫描",
            StepKind::LogAudit => "日志与审计增强",
            StepKind::RestartSsh => "SSH 服务重启与验证",
        }
    }

    /// The label as an owned string (what `Display` printed).
    pub fn to_string(&self) -> (r: String)
        ensures
            r@ == kind_label(*self),
    {
        let c = chars_of(self.label());
        string_of(&c)
    }

    /// All step kinds, in execution order.
    pub fn all() -> (r: &'static [StepKind])
        ensures
            r@ == all_kinds(),
    {
        let r: &'static [StepKind] = &[
            StepKind::SystemUpdate,
            StepKind::UserCreation,
            StepKind::SshRootLogin,
            StepKind::SshPortChange,
            StepKind::SshPasswordAuth,
            StepKind::SshKeySetup,
            StepKind::Ufw,
            StepKind::Fail2ban,
            StepKind::AutoUpdates,
            StepKind::SecurityScan,
            StepKind::LogAudit,
            StepKind::RestartSsh,
        ];
        assert(r@ =~= all_kinds());
        r
    }

    /// The state this step is shown with before anything runs.
    pub fn check_default_status(&self, report: &AuditReport) -> (r: AuditStatus)
        ensures
            r == report_status(*report, *self),
    {
        report.status_for(*self)
    }
}

/// What a step did.
#[derive(Debug, Clone)]
pub struct StepResult {
    pub kind: StepKind,
    pub changes_made: bool,
    pub message: String,
}

/// What to do about SSH keys.
#[derive(Debug, Clone)]
pub enum SshKeyAction {
    /// Generate a new ED25519 key pair
    GenerateNew,
    /// Add the given public key to authorized_keys
    PasteKey(String),
}

/// The values that interactive steps need.
#[derive(Debug, Clone)]
pub struct ExecuteParams {
    pub new_username: Option<String>,
    pub lock_password: bool,
    pub new_ssh_port: Option<u16>,
    pub ssh_key_username: Option<String>,
    pub ssh_key_action: Option<SshKeyAction>,
}

impl Default for ExecuteParams {
    fn default() -> (r: Self)
        ensures
            r.new_username is None,
            !r.lock_password,
            r.new_ssh_port is None,
            r.ssh_key_username is None,
            r.ssh_key_action is None,
    {
        ExecuteParams {
            new_username: None,
            lock_password: false,
            new_ssh_port: None,
            ssh_key_username: None,
            ssh_key_action: None,
        }
    }
}

/// What the host-dependent status checks observed.
#[derive(Debug, Clone, Copy, PartialEq, Eq, Structural)]
pub struct HostState {
    /// `~/.ssh/authorized_keys` exists for the invoking user
    pub authorized_keys_present: bool,
    pub lynis_installed: bool,
    pub logwatch_installed: bool,
    pub aide_installed: bool,
}

/// A hardening step: its kind and how it judges the current state.
pub trait HardeningStep {
    spec fn spec_kind(&self) -> StepKind;

    spec fn spec_status(&self, report: AuditReport, host: HostState) -> AuditStatus;

    fn kind(&self) -> (k: StepKind)
        ensures
            k == self.spec_kind(),
    ;

    fn check_status(&self, report: &AuditReport, host: &HostState) -> (s: AuditStatus)
        ensures
            s == self.spec_status(*report, *host),
    ;
}

} // verus!
