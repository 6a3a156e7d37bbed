//! How the steps that probe, edit and run in turn are carried out: each is a
//! machine that names the next host operation (`Act`) and is told how it went
//! (`Reply`), until it finishes with the step's result. The caller performs the
//! operations; the order, the checks between them and the results are decided here.
use vstd::prelude::*;

use crate::application::steps::{
    check_command, command_failure, count_lines_with, install_args, install_command, lynis_apt_script, to_strings,
    trim_end_matches, ufw_allow_command, AutoUpdatesStep, CommandOutcome, Fail2banStep, LogAuditStep,
    RestartSshStep, SecurityScanStep, SshKeySetupStep, SshPasswordAuthStep, SshPortChangeStep, SshRootLoginStep,
    SystemUpdateStep, UfwStep, UserCreationStep,
};
use crate::domain::audit::{pm_name, pm_update_args, pm_upgrade_args, PackageManager};
use crate::domain::errors::DomainError;
use crate::domain::steps::{ExecuteParams, SshKeyAction, StepKind, StepResult};
use crate::i18n::{translate, translation, Lang};
use crate::text::{chars_of, decimal, decimal_string, join, lines, push_str, replace, replace_str, string_of, strings_view, trim};

verus! {

/// A host operation the caller performs next.
#[derive(Debug)]
pub enum Act {
    /// List the sudo users (reply `SudoUsers`)
    SudoUsers,
    /// Read the configured SSH port (reply `SshPort`)
    SshPort,
    /// Find the package manager (reply `PackageManager`)
    PackageManager,
    /// Is UFW enabled? (reply `Answer`)
    UfwEnabled,
    /// Does the user exist? (reply `Answer`)
    UserExists(String),
    /// Register deleting the user with its home directory (reply `Done`)
    RegisterUserRemoval(String),
    /// Generate the user's key pair (reply `KeyPath` with the public key's path)
    GenerateKey(String),
    /// Add the public key in the file, if it can be read, to the user's authorized keys (reply `Outcome`)
    AuthorizeKeyFile { user: String, public_key_path: String },
    /// Add the given public key to the user's authorized keys (reply `Outcome`)
    AuthorizeKey { user: String, key: String },
    /// Is the command on the PATH? (reply `Answer`)
    Installed(String),
    /// Write the file; a failure is ignored (reply `Done`)
    WriteFile { path: String, content: String },
    /// Register removing the package (reply `Done`)
    RegisterPackageRemoval { description: String, package: String },
    /// Back sshd_config up, set the directive, register the restore (reply `Edited`)
    EditSshd { key: String, value: String },
    /// Run the command line (reply `Ran`)
    Run(Vec<String>),
    /// Register an undo action that runs the command line (reply `Done`)
    RegisterUndo { description: String, argv: Vec<String> },
    /// The step is over with this result
    Finish(Result<StepResult, DomainError>),
}

/// How a host operation went.
pub enum Reply {
    SudoUsers(Vec<String>),
    SshPort(u16),
    PackageManager(PackageManager),
    Answer(bool),
    Outcome(Result<(), DomainError>),
    KeyPath(Result<String, DomainError>),
    Edited(Result<StepResult, DomainError>),
    Ran(CommandOutcome),
    Done,
}

/// The reply each act expects.
#[derive(PartialEq, Eq, Structural)]
pub enum ReplyKind {
    SudoUsers,
    SshPort,
    PackageManager,
    Answer,
    Outcome,
    KeyPath,
    Edited,
    Ran,
    Done,
    /// The step is over: nothing more is accepted
    Nothing,
}

pub open spec fn reply_kind(r: Reply) -> ReplyKind {
    match r {
        Reply::SudoUsers(_) => ReplyKind::SudoUsers,
        Reply::SshPort(_) => ReplyKind::SshPort,
        Reply::PackageManager(_) => ReplyKind::PackageManager,
        Reply::Answer(_) => ReplyKind::Answer,
        Reply::Outcome(_) => ReplyKind::Outcome,
        Reply::KeyPath(_) => ReplyKind::KeyPath,
        Reply::Edited(_) => ReplyKind::Edited,
        Reply::Ran(_) => ReplyKind::Ran,
        Reply::Done => ReplyKind::Done,
    }
}

/// An error as plain values.
pub enum ErrView {
    PermissionDenied,
    CommandFailed(Seq<char>),
    Parse(Seq<char>),
    Precondition(Seq<char>),
    Aborted,
}

pub open spec fn err_view(e: DomainError) -> ErrView {
    match e {
        DomainError::PermissionDenied => ErrView::PermissionDenied,
        DomainError::SystemCommandFailed(m) => ErrView::CommandFailed(m@),
        DomainError::ParseError(m) => ErrView::Parse(m@),
        DomainError::PreconditionFailed(m) => ErrView::Precondition(m@),
        DomainError::UserAborted => ErrView::Aborted,
    }
}

/// A step result as plain values: kind, whether it changed anything, message.
pub open spec fn outcome_view(r: Result<StepResult, DomainError>) -> Result<(StepKind, bool, Seq<char>), ErrView> {
    match r {
        Ok(s) => Ok((s.kind, s.changes_made, s.message@)),
        Err(e) => Err(err_view(e)),
    }
}

/// A successful result of `kind` with `message`.
pub open spec fn done_view(kind: StepKind, message: Seq<char>) -> Result<(StepKind, bool, Seq<char>), ErrView> {
    Ok((kind, true, message))
}

pub enum ActView {
    SudoUsers,
    SshPort,
    PackageManager,
    UfwEnabled,
    UserExists(Seq<char>),
    RegisterUserRemoval(Seq<char>),
    GenerateKey(Seq<char>),
    AuthorizeKeyFile(Seq<char>, Seq<char>),
    AuthorizeKey(Seq<char>, Seq<char>),
    Installed(Seq<char>),
    WriteFile(Seq<char>, Seq<char>),
    RegisterPackageRemoval(Seq<char>, Seq<char>),
    EditSshd(Seq<char>, Seq<char>),
    Run(Seq<Seq<char>>),
    RegisterUndo(Seq<char>, Seq<Seq<char>>),
    Finish(Result<(StepKind, bool, Seq<char>), ErrView>),
}

impl View for Act {
    type V = ActView;

    open spec fn view(&self) -> ActView {
        match self {
            Act::SudoUsers => ActView::SudoUsers,
            Act::SshPort => ActView::SshPort,
            Act::PackageManager => ActView::PackageManager,
            Act::UfwEnabled => ActView::UfwEnabled,
            Act::UserExists(u) => ActView::UserExists(u@),
            Act::RegisterUserRemoval(u) => ActView::RegisterUserRemoval(u@),
            Act::GenerateKey(u) => ActView::GenerateKey(u@),
            Act::AuthorizeKeyFile { user, public_key_path } => ActView::AuthorizeKeyFile(user@, public_key_path@),
            Act::AuthorizeKey { user, key } => ActView::AuthorizeKey(user@, key@),
            Act::Installed(c) => ActView::Installed(c@),
            Act::WriteFile { path, content } => ActView::WriteFile(path@, content@),
            Act::RegisterPackageRemoval { description, package } => ActView::RegisterPackageRemoval(
                description@,
                package@,
            ),
            Act::EditSshd { key, value } => ActView::EditSshd(key@, value@),
            Act::Run(argv) => ActView::Run(strings_view(argv@)),
            Act::RegisterUndo { description, argv } => ActView::RegisterUndo(description@, strings_view(argv@)),
            Act::Finish(r) => ActView::Finish(outcome_view(*r)),
        }
    }
}

/// Where a step stands.
pub struct FlowView {
    pub kind: StepKind,
    /// Position in the step's sequence (`DONE` once finished)
    pub phase: u8,
    /// The user the step works for
    pub user: Seq<char>,
    pub lock: bool,
    pub port: u16,
    pub pm: PackageManager,
    /// The message of the sshd_config edit
    pub note: Seq<char>,
    /// The tool was present before the step began (fail2ban, unattended-upgrades)
    pub present: bool,
    /// Log audit: which of logwatch (0) and aide (1) is being handled
    pub tool: u8,
    /// Log audit: the tools present so far
    pub installed: Seq<Seq<char>>,
    pub lang: Lang,
}

pub open spec fn done_phase() -> u8 {
    100
}

/// Number of positions in a step's sequence.
pub open spec fn phases(kind: StepKind) -> u8 {
    match kind {
        StepKind::SystemUpdate => 3,
        StepKind::UserCreation => 7,
        StepKind::SshRootLogin => 2,
        StepKind::SshPasswordAuth => 3,
        StepKind::SshPortChange => 4,
        StepKind::Ufw => 6,
        StepKind::SshKeySetup => 2,
        StepKind::Fail2ban => 8,
        StepKind::AutoUpdates => 7,
        StepKind::SecurityScan => 7,
        StepKind::LogAudit => 8,
        StepKind::RestartSsh => 5,
    }
}

/// A machine's state: at a position of its step's sequence, or done.
pub open spec fn flow_wf(s: FlowView) -> bool {
    &&& (s.phase < phases(s.kind) || s.phase == done_phase())
    &&& (s.kind == StepKind::SystemUpdate && 0 < s.phase < phases(s.kind) ==> s.pm != PackageManager::Unknown)
    &&& s.tool <= 1
}

pub open spec fn at(s: FlowView, phase: u8) -> FlowView {
    FlowView { phase, ..s }
}

pub open spec fn finish(s: FlowView, r: Result<(StepKind, bool, Seq<char>), ErrView>) -> (FlowView, ActView) {
    (at(s, done_phase()), ActView::Finish(r))
}

pub open spec fn fail_cmd(s: FlowView, m: Seq<char>) -> (FlowView, ActView) {
    finish(s, Err(ErrView::CommandFailed(m)))
}

/// The reply that answers an act (a finished step takes none).
pub open spec fn answers(a: ActView) -> ReplyKind {
    match a {
        ActView::SudoUsers => ReplyKind::SudoUsers,
        ActView::SshPort => ReplyKind::SshPort,
        ActView::PackageManager => ReplyKind::PackageManager,
        ActView::UfwEnabled | ActView::UserExists(_) | ActView::Installed(_) => ReplyKind::Answer,
        ActView::AuthorizeKeyFile(..) | ActView::AuthorizeKey(..) => ReplyKind::Outcome,
        ActView::GenerateKey(_) => ReplyKind::KeyPath,
        ActView::EditSshd(..) => ReplyKind::Edited,
        ActView::Run(_) => ReplyKind::Ran,
        ActView::RegisterUserRemoval(_) | ActView::WriteFile(..) | ActView::RegisterPackageRemoval(..)
        | ActView::RegisterUndo(..) => ReplyKind::Done,
        ActView::Finish(_) => ReplyKind::Nothing,
    }
}

/// The reply the step waits for.
pub open spec fn expects(s: FlowView) -> ReplyKind {
    if s.phase == done_phase() {
        ReplyKind::Nothing
    } else {
        match s.kind {
            StepKind::SystemUpdate => if s.phase == 0 {
                ReplyKind::PackageManager
            } else {
                ReplyKind::Ran
            },
            StepKind::UserCreation => if s.phase == 0 {
                ReplyKind::Answer
            } else if s.phase == 2 {
                ReplyKind::Done
            } else if s.phase == 5 {
                ReplyKind::KeyPath
            } else if s.phase == 6 {
                ReplyKind::Outcome
            } else {
                ReplyKind::Ran
            },
            StepKind::SshRootLogin | StepKind::SshPasswordAuth => if s.phase == 0 {
                ReplyKind::SudoUsers
            } else {
                ReplyKind::Edited
            },
            StepKind::SshPortChange => if s.phase == 0 {
                ReplyKind::Edited
            } else if s.phase == 1 {
                ReplyKind::Answer
            } else if s.phase == 2 {
                ReplyKind::Ran
            } else {
                ReplyKind::Done
            },
            StepKind::Ufw => if s.phase == 0 {
                ReplyKind::SshPort
            } else if s.phase == 1 || s.phase == 4 {
                ReplyKind::Ran
            } else if s.phase == 3 {
                ReplyKind::Answer
            } else {
                ReplyKind::Done
            },
            StepKind::SshKeySetup => if s.phase == 0 {
                ReplyKind::KeyPath
            } else {
                ReplyKind::Outcome
            },
            StepKind::Fail2ban => if s.phase == 0 {
                ReplyKind::Answer
            } else if s.phase == 1 {
                ReplyKind::PackageManager
            } else if s.phase == 2 || s.phase == 6 {
                ReplyKind::Ran
            } else if s.phase == 4 {
                ReplyKind::SshPort
            } else {
                ReplyKind::Done
            },
            StepKind::AutoUpdates => if s.phase == 0 {
                ReplyKind::PackageManager
            } else if s.phase == 1 {
                ReplyKind::Answer
            } else if s.phase == 2 || s.phase == 5 {
                ReplyKind::Ran
            } else {
                ReplyKind::Done
            },
            StepKind::SecurityScan => if s.phase == 0 || s.phase == 3 || s.phase == 4 {
                ReplyKind::Answer
            } else if s.phase == 1 {
                ReplyKind::PackageManager
            } else if s.phase == 2 || s.phase == 5 {
                ReplyKind::Ran
            } else {
                ReplyKind::Done
            },
            StepKind::LogAudit => if s.phase == 0 || s.phase == 3 {
                ReplyKind::Answer
            } else if s.phase == 1 {
                ReplyKind::PackageManager
            } else if s.phase == 2 || s.phase == 6 || s.phase == 7 {
                ReplyKind::Ran
            } else {
                ReplyKind::Done
            },
            StepKind::RestartSsh => ReplyKind::Ran,
        }
    }
}

// ---------------------------------------------------------------------------
// The steps' sequences
// ---------------------------------------------------------------------------

pub open spec fn user_created_message(u: Seq<char>) -> Seq<char> {
    "用户 '"@ + u + "' 已创建并加入 sudo 组，密钥已设置（私钥: ~/.ssh/id_ed25519）"@
}

pub open spec fn port_changed_message(p: u16, note: Seq<char>) -> Seq<char> {
    "SSH 端口已修改为 "@ + decimal(p as nat) + "（"@ + note + "）"@
}

pub open spec fn ufw_enabled_message(p: u16) -> Seq<char> {
    "UFW 已启用，SSH 端口 "@ + decimal(p as nat) + " 已放行"@
}

pub open spec fn restarted_message(state: Seq<char>) -> Seq<char> {
    "SSH 服务已重启（状态: "@ + state
        + "）\n  ⚠️  请在另一终端验证连接后再关闭当前会话！\n  🔄 如需回滚：systemctl restart sshd 或恢复备份 /etc/ssh/sshd_config.bak.*"@
}

/// What `systemctl is-active` reported.
pub open spec fn service_state_of(o: CommandOutcome) -> Seq<char> {
    match o {
        CommandOutcome::SpawnFailed(_) => "unknown"@,
        CommandOutcome::Exited { stdout, .. } => trim(stdout@),
    }
}

/// `ufw delete allow <port>`, described in the interface language.
pub open spec fn ufw_delete_undo(s: FlowView) -> ActView {
    ActView::RegisterUndo(
        replace(translation(s.lang, "undo_ufw_delete"@), "{port}"@, decimal(s.port as nat)),
        seq!["ufw"@, "delete"@, "allow"@, decimal(s.port as nat)],
    )
}

/// How a step begins: system update asks for the package manager; user creation
/// needs a user name and asks whether it exists; root and password login list
/// the sudo users; the port change needs a non-zero port and edits `Port`; UFW
/// reads the SSH port; the restart checks the configuration with `sshd -t`.
pub open spec fn flow_start(kind: StepKind, params: ExecuteParams, lang: Lang) -> (FlowView, ActView) {
    let s = FlowView {
        kind,
        phase: 0,
        user: seq![],
        lock: false,
        port: 0,
        pm: PackageManager::Unknown,
        note: seq![],
        present: false,
        tool: 0,
        installed: seq![],
        lang,
    };
    match kind {
        StepKind::SystemUpdate => (s, ActView::PackageManager),
        StepKind::UserCreation => match params.new_username {
            None => finish(s, Err(ErrView::Precondition("未提供用户名"@))),
            Some(u) => (FlowView { user: u@, lock: params.lock_password, ..s }, ActView::UserExists(u@)),
        },
        StepKind::SshRootLogin | StepKind::SshPasswordAuth => (s, ActView::SudoUsers),
        StepKind::SshPortChange => match params.new_ssh_port {
            None => finish(s, Err(ErrView::Precondition("未提供新 SSH 端口"@))),
            Some(p) => if p == 0 {
                finish(s, Err(ErrView::Precondition("端口 0 无效"@)))
            } else {
                (FlowView { port: p, ..s }, ActView::EditSshd("Port"@, decimal(p as nat)))
            },
        },
        StepKind::Ufw => (s, ActView::SshPort),
        StepKind::SshKeySetup => match (params.ssh_key_username, params.ssh_key_action) {
            (None, _) => finish(s, Err(ErrView::Precondition("未提供目标用户名"@))),
            (Some(_), None) => finish(s, Err(ErrView::Precondition("未选择密钥操作"@))),
            (Some(u), Some(SshKeyAction::GenerateNew)) => (FlowView { user: u@, ..s }, ActView::GenerateKey(u@)),
            (Some(u), Some(SshKeyAction::PasteKey(k))) => (
                FlowView { phase: 1, user: u@, ..s },
                ActView::AuthorizeKey(u@, k@),
            ),
        },
        StepKind::Fail2ban => (s, ActView::Installed("fail2ban-server"@)),
        StepKind::AutoUpdates => (s, ActView::PackageManager),
        StepKind::SecurityScan => (s, ActView::Installed("lynis"@)),
        StepKind::LogAudit => (s, ActView::Installed("logwatch"@)),
        StepKind::RestartSsh => (s, ActView::Run(seq!["sshd"@, "-t"@])),
    }
}

/// System update: refresh the lists, then upgrade; a command that fails ends the step.
pub open spec fn system_update_next(s: FlowView, r: Reply) -> (FlowView, ActView) {
    match (s.phase, r) {
        (0, Reply::PackageManager(pm)) => if pm == PackageManager::Unknown {
            fail_cmd(s, "无法识别的包管理器"@)
        } else {
            (FlowView { phase: 1, pm, ..s }, ActView::Run(pm_update_args(pm)))
        },
        (1, Reply::Ran(o)) => match command_failure("update 失败: "@, "update 失败: "@, o) {
            Some(m) => fail_cmd(s, m),
            None => (at(s, 2), ActView::Run(pm_upgrade_args(s.pm))),
        },
        (2, Reply::Ran(o)) => match command_failure("upgrade 失败: "@, "upgrade 失败: "@, o) {
            Some(m) => fail_cmd(s, m),
            None => finish(s, done_view(StepKind::SystemUpdate, "系统更新完成"@)),
        },
        _ => (s, ActView::SudoUsers),
    }
}

/// User creation: an existing user is refused; otherwise the user is added
/// (`useradd`), its deletion registered at once, then it joins the sudo group
/// (`usermod`), its password is locked when asked (`passwd -l`), and a key pair is
/// generated and authorized. A command that fails ends the step.
pub open spec fn user_creation_next(s: FlowView, r: Reply) -> (FlowView, ActView) {
    let cmds = crate::application::steps::user_setup_args(s.user, true);
    match (s.phase, r) {
        (0, Reply::Answer(exists)) => if exists {
            finish(s, Err(ErrView::Precondition("用户 '"@ + s.user + "' 已存在"@)))
        } else {
            (at(s, 1), ActView::Run(cmds[0]))
        },
        (1, Reply::Ran(o)) => match command_failure("useradd 失败: "@, "useradd 失败: "@, o) {
            Some(m) => fail_cmd(s, m),
            None => (at(s, 2), ActView::RegisterUserRemoval(s.user)),
        },
        (2, Reply::Done) => (at(s, 3), ActView::Run(cmds[1])),
        (3, Reply::Ran(o)) => match command_failure("usermod 失败: "@, "usermod 失败: "@, o) {
            Some(m) => fail_cmd(s, m),
            None => if s.lock {
                (at(s, 4), ActView::Run(cmds[2]))
            } else {
                (at(s, 5), ActView::GenerateKey(s.user))
            },
        },
        (4, Reply::Ran(o)) => match command_failure("passwd 失败: "@, "passwd 失败: "@, o) {
            Some(m) => fail_cmd(s, m),
            None => (at(s, 5), ActView::GenerateKey(s.user)),
        },
        (5, Reply::KeyPath(k)) => match k {
            Err(e) => finish(s, Err(err_view(e))),
            Ok(p) => (at(s, 6), ActView::AuthorizeKeyFile(s.user, p@)),
        },
        (6, Reply::Outcome(o)) => match o {
            Err(e) => finish(s, Err(err_view(e))),
            Ok(_) => finish(s, done_view(StepKind::UserCreation, user_created_message(s.user))),
        },
        _ => (s, ActView::SudoUsers),
    }
}

/// Root login: refused without a sudo user; otherwise `PermitRootLogin
/// prohibit-password` is written and the edit's result is the step's result.
pub open spec fn root_login_next(s: FlowView, r: Reply) -> (FlowView, ActView) {
    match (s.phase, r) {
        (0, Reply::SudoUsers(users)) => if users@.len() == 0 {
            finish(s, Err(ErrView::Precondition("禁止 root 登录前请先创建 sudo 用户"@)))
        } else {
            (at(s, 1), ActView::EditSshd("PermitRootLogin"@, "prohibit-password"@))
        },
        (1, Reply::Edited(e)) => finish(s, outcome_view(e)),
        _ => (s, ActView::SudoUsers),
    }
}

/// Password login: refused without a sudo user; otherwise both
/// `PasswordAuthentication` and `ChallengeResponseAuthentication` are set to `no`.
pub open spec fn password_auth_next(s: FlowView, r: Reply) -> (FlowView, ActView) {
    match (s.phase, r) {
        (0, Reply::SudoUsers(users)) => if users@.len() == 0 {
            finish(s, Err(ErrView::Precondition("禁止密码登录前请先创建 sudo 用户"@)))
        } else {
            (at(s, 1), ActView::EditSshd("PasswordAuthentication"@, "no"@))
        },
        (1, Reply::Edited(e)) => match e {
            Err(x) => finish(s, Err(err_view(x))),
            Ok(_) => (at(s, 2), ActView::EditSshd("ChallengeResponseAuthentication"@, "no"@)),
        },
        (2, Reply::Edited(e)) => match e {
            Err(x) => finish(s, Err(err_view(x))),
            Ok(_) => finish(s, done_view(StepKind::SshPasswordAuth, "密码登录已禁用（仅允许密钥登录）"@)),
        },
        _ => (s, ActView::SudoUsers),
    }
}

/// Port change: after the edit, when UFW is enabled the new port is allowed, and
/// only an allow that succeeded registers its removal.
pub open spec fn port_change_next(s: FlowView, r: Reply) -> (FlowView, ActView) {
    let done = done_view(StepKind::SshPortChange, port_changed_message(s.port, s.note));
    match (s.phase, r) {
        (0, Reply::Edited(e)) => match e {
            Err(x) => finish(s, Err(err_view(x))),
            Ok(res) => (FlowView { phase: 1, note: res.message@, ..s }, ActView::UfwEnabled),
        },
        (1, Reply::Answer(enabled)) => if enabled {
            (at(s, 2), ActView::Run(seq!["ufw"@, "allow"@, decimal(s.port as nat)]))
        } else {
            finish(s, done)
        },
        (2, Reply::Ran(o)) => if o matches CommandOutcome::Exited { success: true, .. } {
            (at(s, 3), ufw_delete_undo(s))
        } else {
            finish(s, done)
        },
        (3, Reply::Done) => finish(s, done),
        _ => (s, ActView::SudoUsers),
    }
}

/// UFW: allow the SSH port and register its removal, then enable the firewall
/// when it is off and register turning it off again.
pub open spec fn ufw_next(s: FlowView, r: Reply) -> (FlowView, ActView) {
    let done = done_view(StepKind::Ufw, ufw_enabled_message(s.port));
    match (s.phase, r) {
        (0, Reply::SshPort(p)) => (
            FlowView { phase: 1, port: p, ..s },
            ActView::Run(seq!["ufw"@, "allow"@, decimal(p as nat)]),
        ),
        (1, Reply::Ran(o)) => match command_failure("ufw allow 失败: "@, "ufw allow 失败: "@, o) {
            Some(m) => fail_cmd(s, m),
            None => (at(s, 2), ufw_delete_undo(s)),
        },
        (2, Reply::Done) => (at(s, 3), ActView::UfwEnabled),
        (3, Reply::Answer(enabled)) => if enabled {
            finish(s, done)
        } else {
            (at(s, 4), ActView::Run(seq!["ufw"@, "--force"@, "enable"@]))
        },
        (4, Reply::Ran(o)) => match command_failure("ufw enable 失败: "@, "ufw enable 失败: "@, o) {
            Some(m) => fail_cmd(s, m),
            None => (
                at(s, 5),
                ActView::RegisterUndo(translation(s.lang, "undo_ufw_disable"@), seq!["ufw"@, "disable"@]),
            ),
        },
        (5, Reply::Done) => finish(s, done),
        _ => (s, ActView::SudoUsers),
    }
}

/// Restart: a failed `sshd -t` ends the step before any restart; the `sshd` unit
/// is restarted (the `ssh` unit when `sshd` cannot be asked), then its state is read.
pub open spec fn restart_next(s: FlowView, r: Reply) -> (FlowView, ActView) {
    match (s.phase, r) {
        (0, Reply::Ran(o)) => match command_failure(
            "sshd 语法检查失败: "@,
            "sshd_config 语法错误，请检查配置: "@,
            o,
        ) {
            Some(m) => fail_cmd(s, m),
            None => (at(s, 1), ActView::Run(seq!["systemctl"@, "restart"@, "sshd"@])),
        },
        (1, Reply::Ran(o)) => if o is SpawnFailed {
            (at(s, 2), ActView::Run(seq!["systemctl"@, "restart"@, "ssh"@]))
        } else {
            match command_failure("重启 SSH 服务失败: "@, "重启 SSH 服务失败: "@, o) {
                Some(m) => fail_cmd(s, m),
                None => (at(s, 3), ActView::Run(seq!["systemctl"@, "is-active"@, "sshd"@])),
            }
        },
        (2, Reply::Ran(o)) => match command_failure("重启 SSH 服务失败: "@, "重启 SSH 服务失败: "@, o) {
            Some(m) => fail_cmd(s, m),
            None => (at(s, 3), ActView::Run(seq!["systemctl"@, "is-active"@, "sshd"@])),
        },
        (3, Reply::Ran(o)) => if o is SpawnFailed {
            (at(s, 4), ActView::Run(seq!["systemctl"@, "is-active"@, "ssh"@]))
        } else {
            finish(s, done_view(StepKind::RestartSsh, restarted_message(service_state_of(o))))
        },
        (4, Reply::Ran(o)) => finish(s, done_view(StepKind::RestartSsh, restarted_message(service_state_of(o)))),
        _ => (s, ActView::SudoUsers),
    }
}

/// The undo description for removing `package`, in the interface language.
pub open spec fn package_removal(s: FlowView, package: Seq<char>) -> ActView {
    ActView::RegisterPackageRemoval(replace(translation(s.lang, "undo_pkg_remove"@), "{pkg}"@, package), package)
}

/// Stopping `service` again: `systemctl stop <service>`.
pub open spec fn service_stop(service: Seq<char>) -> ActView {
    ActView::RegisterUndo("停止 "@ + service + " 服务"@, seq!["systemctl"@, "stop"@, service])
}

pub open spec fn key_generated_message(p: Seq<char>) -> Seq<char> {
    "ED25519 密钥对已生成\n  私钥: "@ + trim_end_matches(p, ".pub"@) + "\n  公钥: "@ + p
        + ".pub\n  请立即复制私钥并安全保存！"@
}

/// Key setup: generate a pair, or add the pasted key.
pub open spec fn key_setup_next(s: FlowView, r: Reply) -> (FlowView, ActView) {
    match (s.phase, r) {
        (0, Reply::KeyPath(k)) => match k {
            Err(e) => finish(s, Err(err_view(e))),
            Ok(p) => finish(s, done_view(StepKind::SshKeySetup, key_generated_message(p@))),
        },
        (1, Reply::Outcome(o)) => match o {
            Err(e) => finish(s, Err(err_view(e))),
            Ok(_) => finish(s, done_view(StepKind::SshKeySetup, "公钥已添加到 "@ + s.user + " 的 authorized_keys"@)),
        },
        _ => (s, ActView::SudoUsers),
    }
}

pub open spec fn fail2ban_done(s: FlowView) -> Result<(StepKind, bool, Seq<char>), ErrView> {
    done_view(StepKind::Fail2ban, "Fail2ban 已安装并运行，SSH 端口 "@ + decimal(s.port as nat) + " 已加入监控"@)
}

/// Fail2ban: installed (and its removal registered) when missing, then the sshd
/// jail is written for the SSH port and the service enabled; stopping it again is
/// registered only when the step installed it.
pub open spec fn fail2ban_next(s: FlowView, r: Reply) -> (FlowView, ActView) {
    match (s.phase, r) {
        (0, Reply::Answer(present)) => if present {
            (FlowView { phase: 4, present: true, ..s }, ActView::SshPort)
        } else {
            (at(s, 1), ActView::PackageManager)
        },
        (1, Reply::PackageManager(pm)) => if pm == PackageManager::Unknown {
            fail_cmd(s, "不支持的包管理器"@)
        } else {
            (at(s, 2), ActView::Run(install_args(pm_name(pm), "fail2ban"@)))
        },
        (2, Reply::Ran(o)) => match command_failure("安装 fail2ban 失败: "@, "安装 fail2ban 失败: "@, o) {
            Some(m) => fail_cmd(s, m),
            None => (at(s, 3), package_removal(s, "fail2ban"@)),
        },
        (3, Reply::Done) => (at(s, 4), ActView::SshPort),
        (4, Reply::SshPort(p)) => (
            FlowView { phase: 5, port: p, ..s },
            ActView::WriteFile("/etc/fail2ban/jail.local"@, "[sshd]\nenabled = true\nport = "@ + decimal(p as nat) + "\n"@),
        ),
        (5, Reply::Done) => (at(s, 6), ActView::Run(seq!["systemctl"@, "enable"@, "--now"@, "fail2ban"@])),
        (6, Reply::Ran(_)) => if s.present {
            finish(s, fail2ban_done(s))
        } else {
            (at(s, 7), service_stop("fail2ban"@))
        },
        (7, Reply::Done) => finish(s, fail2ban_done(s)),
        _ => (s, ActView::SudoUsers),
    }
}

pub open spec fn apt_periodic_text() -> Seq<char> {
    "APT::Periodic::Update-Package-Lists \"1\";\nAPT::Periodic::Unattended-Upgrade \"1\";\nAPT::Periodic::Download-Upgradeable-Packages \"1\";\nAPT::Periodic::AutocleanInterval \"7\";\n"@
}

/// Automatic updates (apt only): whether unattended-upgrades is already there is
/// noted, the package installed, the periodic configuration written and the
/// service enabled; removing the package and stopping the service are registered
/// only when the step installed it.
pub open spec fn auto_updates_next(s: FlowView, r: Reply) -> (FlowView, ActView) {
    let done = done_view(StepKind::AutoUpdates, "自动安全更新已启用（每日检查，自动安装安全补丁）"@);
    match (s.phase, r) {
        (0, Reply::PackageManager(pm)) => if pm != PackageManager::Apt {
            fail_cmd(s, "自动安全更新仅支持 Debian/Ubuntu"@)
        } else {
            (at(s, 1), ActView::Installed("unattended-upgrade"@))
        },
        (1, Reply::Answer(present)) => (
            FlowView { phase: 2, present, ..s },
            ActView::Run(install_args("apt"@, "unattended-upgrades"@)),
        ),
        (2, Reply::Ran(o)) => match command_failure(
            "安装 unattended-upgrades 失败: "@,
            "安装 unattended-upgrades 失败: "@,
            o,
        ) {
            Some(m) => fail_cmd(s, m),
            None => if s.present {
                (at(s, 4), auto_upgrades_config())
            } else {
                (at(s, 3), package_removal(s, "unattended-upgrades"@))
            },
        },
        (3, Reply::Done) => (at(s, 4), auto_upgrades_config()),
        (4, Reply::Done) => (
            at(s, 5),
            ActView::Run(seq!["systemctl"@, "enable"@, "--now"@, "unattended-upgrades"@]),
        ),
        (5, Reply::Ran(_)) => if s.present {
            finish(s, done)
        } else {
            (at(s, 6), service_stop("unattended-upgrades"@))
        },
        (6, Reply::Done) => finish(s, done),
        _ => (s, ActView::SudoUsers),
    }
}

/// Writing the periodic apt configuration.
pub open spec fn auto_upgrades_config() -> ActView {
    ActView::WriteFile("/etc/apt/apt.conf.d/20auto-upgrades"@, apt_periodic_text())
}

/// How lynis is installed with `pm`.
pub open spec fn lynis_install_args(pm: PackageManager) -> Seq<Seq<char>> {
    if pm == PackageManager::Apt {
        seq!["sh"@, "-c"@, lynis_apt_script()]
    } else {
        install_args(pm_name(pm), "lynis"@)
    }
}

pub open spec fn lynis_message(out: Seq<char>) -> Seq<char> {
    "lynis 安全扫描完成（"@ + decimal(count_lines_with(lines(out), "Warning"@)) + " 个警告, "@ + decimal(
        count_lines_with(lines(out), "Suggestion"@),
    ) + " 个建议）\n  详细报告: /var/log/lynis.log"@
}

/// Security scan: install lynis when missing (registering its removal only when
/// it then is present); without lynis the step reports it could not install it;
/// otherwise the quick audit runs and its warnings and suggestions are counted.
pub open spec fn security_scan_next(s: FlowView, r: Reply) -> (FlowView, ActView) {
    match (s.phase, r) {
        (0, Reply::Answer(present)) => if present {
            (at(s, 4), ActView::Installed("lynis"@))
        } else {
            (at(s, 1), ActView::PackageManager)
        },
        (1, Reply::PackageManager(pm)) => if pm == PackageManager::Unknown {
            fail_cmd(s, "无法确定包管理器，请手动安装 lynis"@)
        } else {
            (at(s, 2), ActView::Run(lynis_install_args(pm)))
        },
        (2, Reply::Ran(_)) => (at(s, 3), ActView::Installed("lynis"@)),
        (3, Reply::Answer(present)) => if present {
            (at(s, 6), package_removal(s, "lynis"@))
        } else {
            (at(s, 4), ActView::Installed("lynis"@))
        },
        (6, Reply::Done) => (at(s, 4), ActView::Installed("lynis"@)),
        (4, Reply::Answer(present)) => if present {
            (at(s, 5), ActView::Run(seq!["lynis"@, "audit"@, "system"@, "--quick"@]))
        } else {
            finish(s, Ok((StepKind::SecurityScan, false, "lynis 无法自动安装，请手动安装后重新运行"@)))
        },
        (5, Reply::Ran(o)) => match o {
            CommandOutcome::SpawnFailed(e) => fail_cmd(s, "lynis 执行失败: "@ + e@),
            CommandOutcome::Exited { stdout, .. } => finish(s, done_view(StepKind::SecurityScan, lynis_message(stdout@))),
        },
        _ => (s, ActView::SudoUsers),
    }
}

/// The log audit tools, in order.
pub open spec fn tool_name(t: u8) -> Seq<char> {
    if t == 0 {
        "logwatch"@
    } else {
        "aide"@
    }
}

/// After a tool: the next tool, or the cron report once both are handled.
pub open spec fn after_tool(s: FlowView) -> (FlowView, ActView) {
    if s.tool == 0 {
        (FlowView { phase: 0, tool: 1, ..s }, ActView::Installed("aide"@))
    } else {
        (
            at(s, 5),
            ActView::WriteFile(
                "/etc/cron.daily/00logwatch"@,
                "#!/bin/bash\n/usr/sbin/logwatch --output mail --format html --range today\n"@,
            ),
        )
    }
}

/// Log audit: for logwatch, then aide, a present tool is kept; a missing one is
/// installed, and kept (its removal registered) only when it then is present.
/// Then the daily report is set up and aide's database initialised.
pub open spec fn log_audit_next(s: FlowView, r: Reply) -> (FlowView, ActView) {
    let tool = tool_name(s.tool);
    match (s.phase, r) {
        (0, Reply::Answer(present)) => if present {
            after_tool(FlowView { installed: s.installed.push(tool), ..s })
        } else {
            (at(s, 1), ActView::PackageManager)
        },
        (1, Reply::PackageManager(pm)) => (at(s, 2), ActView::Run(install_args(pm_name(pm), tool))),
        (2, Reply::Ran(_)) => (at(s, 3), ActView::Installed(tool)),
        (3, Reply::Answer(present)) => if present {
            (at(s, 4), package_removal(s, tool))
        } else {
            after_tool(s)
        },
        (4, Reply::Done) => after_tool(FlowView { installed: s.installed.push(tool), ..s }),
        (5, Reply::Done) => (at(s, 6), ActView::Run(seq!["chmod"@, "+x"@, "/etc/cron.daily/00logwatch"@])),
        (6, Reply::Ran(_)) => (at(s, 7), ActView::Run(seq!["aideinit"@, "--yes"@])),
        (7, Reply::Ran(_)) => finish(
            s,
            done_view(
                StepKind::LogAudit,
                "日志与审计增强完成\n  已安装/配置: "@ + join(s.installed, ", "@)
                    + "\n  logwatch: 每日邮件报告\n  aide: 文件完整性检查已初始化"@,
            ),
        ),
        _ => (s, ActView::SudoUsers),
    }
}

/// The next state and act after reply `r`. (The last arm of each step is never
/// reached: `Flow::next` only takes the reply the step waits for.)
pub open spec fn flow_next(s: FlowView, r: Reply) -> (FlowView, ActView) {
    match s.kind {
        StepKind::SystemUpdate => system_update_next(s, r),
        StepKind::UserCreation => user_creation_next(s, r),
        StepKind::SshRootLogin => root_login_next(s, r),
        StepKind::SshPasswordAuth => password_auth_next(s, r),
        StepKind::SshPortChange => port_change_next(s, r),
        StepKind::Ufw => ufw_next(s, r),
        StepKind::SshKeySetup => key_setup_next(s, r),
        StepKind::Fail2ban => fail2ban_next(s, r),
        StepKind::AutoUpdates => auto_updates_next(s, r),
        StepKind::SecurityScan => security_scan_next(s, r),
        StepKind::LogAudit => log_audit_next(s, r),
        StepKind::RestartSsh => restart_next(s, r),
    }
}

/// The reply lists no sudo user.
pub open spec fn no_sudo_users(r: Reply) -> bool {
    r matches Reply::SudoUsers(users) && users@.len() == 0
}

/// The reply is a failed `sshd -t`.
pub open spec fn syntax_check_failed(r: Reply) -> bool {
    r matches Reply::Ran(o) && command_failure("sshd 语法检查失败: "@, "sshd_config 语法错误，请检查配置: "@, o) is Some
}

/// The act ends the step with an error.
pub open spec fn fails(a: ActView) -> bool {
    a matches ActView::Finish(res) && res is Err
}

/// The checks come before the changes: without a sudo user neither root nor
/// password login is touched; a failed `sshd -t` ends the restart before any
/// restart; the removal of the port change's UFW rule is registered only after
/// `ufw allow` succeeded; an existing user is not created again.
pub proof fn law_checks_before_changes(s: FlowView, r: Reply)
    requires
        flow_wf(s),
        reply_kind(r) == expects(s),
    ensures
        (s.kind == StepKind::SshRootLogin || s.kind == StepKind::SshPasswordAuth) && s.phase == 0 && no_sudo_users(r)
            ==> fails(flow_next(s, r).1),
        s.kind == StepKind::RestartSsh && s.phase == 0 && syntax_check_failed(r) ==> fails(flow_next(s, r).1),
        s.kind == StepKind::SshPortChange && flow_next(s, r).1 is RegisterUndo ==> (r matches Reply::Ran(
            CommandOutcome::Exited { success: true, .. },
        )),
        s.kind == StepKind::UserCreation && s.phase == 0 && r == Reply::Answer(true) ==> fails(flow_next(s, r).1),
{
}

proof fn lemma_answered_systemupdate(s: FlowView, r: Reply)
    requires
        s.kind == StepKind::SystemUpdate,
        flow_wf(s),
        reply_kind(r) == expects(s),
    ensures
        flow_wf(flow_next(s, r).0),
        expects(flow_next(s, r).0) == answers(flow_next(s, r).1),
{
}

proof fn lemma_answered_usercreation(s: FlowView, r: Reply)
    requires
        s.kind == StepKind::UserCreation,
        flow_wf(s),
        reply_kind(r) == expects(s),
    ensures
        flow_wf(flow_next(s, r).0),
        expects(flow_next(s, r).0) == answers(flow_next(s, r).1),
{
}

proof fn lemma_answered_sshrootlogin(s: FlowView, r: Reply)
    requires
        s.kind == StepKind::SshRootLogin,
        flow_wf(s),
        reply_kind(r) == expects(s),
    ensures
        flow_wf(flow_next(s, r).0),
        expects(flow_next(s, r).0) == answers(flow_next(s, r).1),
{
}

proof fn lemma_answered_sshpasswordauth(s: FlowView, r: Reply)
    requires
        s.kind == StepKind::SshPasswordAuth,
        flow_wf(s),
        reply_kind(r) == expects(s),
    ensures
        flow_wf(flow_next(s, r).0),
        expects(flow_next(s, r).0) == answers(flow_next(s, r).1),
{
}

proof fn lemma_answered_sshportchange(s: FlowView, r: Reply)
    requires
        s.kind == StepKind::SshPortChange,
        flow_wf(s),
        reply_kind(r) == expects(s),
    ensures
        flow_wf(flow_next(s, r).0),
        expects(flow_next(s, r).0) == answers(flow_next(s, r).1),
{
}

proof fn lemma_answered_ufw(s: FlowView, r: Reply)
    requires
        s.kind == StepKind::Ufw,
        flow_wf(s),
        reply_kind(r) == expects(s),
    ensures
        flow_wf(flow_next(s, r).0),
        expects(flow_next(s, r).0) == answers(flow_next(s, r).1),
{
}

proof fn lemma_answered_sshkeysetup(s: FlowView, r: Reply)
    requires
        s.kind == StepKind::SshKeySetup,
        flow_wf(s),
        reply_kind(r) == expects(s),
    ensures
        flow_wf(flow_next(s, r).0),
        expects(flow_next(s, r).0) == answers(flow_next(s, r).1),
{
}

proof fn lemma_answered_fail2ban(s: FlowView, r: Reply)
    requires
        s.kind == StepKind::Fail2ban,
        flow_wf(s),
        reply_kind(r) == expects(s),
    ensures
        flow_wf(flow_next(s, r).0),
        expects(flow_next(s, r).0) == answers(flow_next(s, r).1),
{
}

proof fn lemma_answered_autoupdates(s: FlowView, r: Reply)
    requires
        s.kind == StepKind::AutoUpdates,
        flow_wf(s),
        reply_kind(r) == expects(s),
    ensures
        flow_wf(flow_next(s, r).0),
        expects(flow_next(s, r).0) == answers(flow_next(s, r).1),
{
}

proof fn lemma_answered_securityscan(s: FlowView, r: Reply)
    requires
        s.kind == StepKind::SecurityScan,
        flow_wf(s),
        reply_kind(r) == expects(s),
    ensures
        flow_wf(flow_next(s, r).0),
        expects(flow_next(s, r).0) == answers(flow_next(s, r).1),
{
}

proof fn lemma_answered_logaudit(s: FlowView, r: Reply)
    requires
        s.kind == StepKind::LogAudit,
        flow_wf(s),
        reply_kind(r) == expects(s),
    ensures
        flow_wf(flow_next(s, r).0),
        expects(flow_next(s, r).0) == answers(flow_next(s, r).1),
{
}

proof fn lemma_answered_restartssh(s: FlowView, r: Reply)
    requires
        s.kind == StepKind::RestartSsh,
        flow_wf(s),
        reply_kind(r) == expects(s),
    ensures
        flow_wf(flow_next(s, r).0),
        expects(flow_next(s, r).0) == answers(flow_next(s, r).1),
{
}

/// The state after a reply waits for exactly the reply that answers the next act.
proof fn lemma_next_answered(s: FlowView, r: Reply)
    requires
        flow_wf(s),
        reply_kind(r) == expects(s),
    ensures
        flow_wf(flow_next(s, r).0),
        expects(flow_next(s, r).0) == answers(flow_next(s, r).1),
{
    match s.kind {
        StepKind::SystemUpdate => lemma_answered_systemupdate(s, r),
        StepKind::UserCreation => lemma_answered_usercreation(s, r),
        StepKind::SshRootLogin => lemma_answered_sshrootlogin(s, r),
        StepKind::SshPasswordAuth => lemma_answered_sshpasswordauth(s, r),
        StepKind::SshPortChange => lemma_answered_sshportchange(s, r),
        StepKind::Ufw => lemma_answered_ufw(s, r),
        StepKind::SshKeySetup => lemma_answered_sshkeysetup(s, r),
        StepKind::Fail2ban => lemma_answered_fail2ban(s, r),
        StepKind::AutoUpdates => lemma_answered_autoupdates(s, r),
        StepKind::SecurityScan => lemma_answered_securityscan(s, r),
        StepKind::LogAudit => lemma_answered_logaudit(s, r),
        StepKind::RestartSsh => lemma_answered_restartssh(s, r),
    }
}

/// Every act is followed by a state that waits for exactly the reply that answers
/// it, and stays well-formed: a caller that answers each act never hands a step
/// a reply it does not wait for.
pub proof fn law_every_act_is_answered(kind: StepKind, params: ExecuteParams, lang: Lang, s: FlowView, r: Reply)
    ensures
        flow_wf(flow_start(kind, params, lang).0),
        expects(flow_start(kind, params, lang).0) == answers(flow_start(kind, params, lang).1),
        flow_wf(s) && reply_kind(r) == expects(s) ==> flow_wf(flow_next(s, r).0) && expects(flow_next(s, r).0)
            == answers(flow_next(s, r).1),
{
    if flow_wf(s) && reply_kind(r) == expects(s) {
        lemma_next_answered(s, r);
    }
}

// ---------------------------------------------------------------------------
// Runs
// ---------------------------------------------------------------------------

/// The acts that follow the replies `rs`, one per reply, from state `s`.
pub open spec fn acts_after(s: FlowView, rs: Seq<Reply>) -> Seq<ActView>
    decreases rs.len(),
{
    if rs.len() == 0 {
        seq![]
    } else {
        seq![flow_next(s, rs[0]).1] + acts_after(flow_next(s, rs[0]).0, rs.drop_first())
    }
}

/// Each reply of `rs` is the one awaited when it comes.
pub open spec fn answered(s: FlowView, rs: Seq<Reply>) -> bool
    decreases rs.len(),
{
    rs.len() == 0 || (reply_kind(rs[0]) == expects(s) && answered(flow_next(s, rs[0]).0, rs.drop_first()))
}

/// The acts of a run of step `kind`: the first act, then one act per reply of `rs`
/// (`rs[i]` answers act `i`).
pub open spec fn run_acts(kind: StepKind, params: ExecuteParams, lang: Lang, rs: Seq<Reply>) -> Seq<ActView> {
    seq![flow_start(kind, params, lang).1] + acts_after(flow_start(kind, params, lang).0, rs)
}

/// `rs` answers the acts of a run of step `kind`, each with the reply it waits for.
pub open spec fn is_run(kind: StepKind, params: ExecuteParams, lang: Lang, rs: Seq<Reply>) -> bool {
    answered(flow_start(kind, params, lang).0, rs)
}

/// A finished step takes no further reply.
proof fn lemma_done_takes_nothing(s: FlowView, rs: Seq<Reply>)
    requires
        s.phase == done_phase(),
        answered(s, rs),
    ensures
        rs.len() == 0,
{
    if rs.len() > 0 {
        assert(expects(s) == ReplyKind::Nothing);
        assert(reply_kind(rs[0]) != ReplyKind::Nothing);
    }
}

/// One step of a run: the first act and what follows.
proof fn lemma_run_step(s: FlowView, rs: Seq<Reply>)
    requires
        rs.len() > 0,
    ensures
        acts_after(s, rs) == seq![flow_next(s, rs[0]).1] + acts_after(flow_next(s, rs[0]).0, rs.drop_first()),
        answered(s, rs) == (reply_kind(rs[0]) == expects(s) && answered(flow_next(s, rs[0]).0, rs.drop_first())),
{
}

/// A successful run of the password-login step lists the sudo users, sets
/// `PasswordAuthentication no`, then `ChallengeResponseAuthentication no`, and
/// only after both edits succeeded reports password login disabled. (What the two
/// edits leave in sshd_config is `law_password_step_is_audited`.)
pub proof fn law_password_login_sets_both_directives(params: ExecuteParams, lang: Lang, rs: Seq<Reply>)
    requires
        is_run(StepKind::SshPasswordAuth, params, lang, rs),
        run_acts(StepKind::SshPasswordAuth, params, lang, rs).last() matches ActView::Finish(Ok(_)),
    ensures
        rs.len() == 3,
        run_acts(StepKind::SshPasswordAuth, params, lang, rs) == seq![
            ActView::SudoUsers,
            ActView::EditSshd("PasswordAuthentication"@, "no"@),
            ActView::EditSshd("ChallengeResponseAuthentication"@, "no"@),
            ActView::Finish(Ok((StepKind::SshPasswordAuth, true, "密码登录已禁用（仅允许密钥登录）"@))),
        ],
        rs[0] matches Reply::SudoUsers(users) && users@.len() > 0,
        rs[1] matches Reply::Edited(Ok(_)),
        rs[2] matches Reply::Edited(Ok(_)),
{
    let k = StepKind::SshPasswordAuth;
    let s0 = flow_start(k, params, lang).0;
    assert(flow_start(k, params, lang).1 == ActView::SudoUsers);
    let all = run_acts(k, params, lang, rs);
    if rs.len() == 0 {
        assert(all == seq![ActView::SudoUsers]);
        assert(false);
    }
    lemma_run_step(s0, rs);
    let (s1, a1) = flow_next(s0, rs[0]);
    let r1 = rs.drop_first();
    if !(rs[0] matches Reply::SudoUsers(users) && users@.len() > 0) {
        lemma_done_takes_nothing(s1, r1);
        assert(all =~= seq![ActView::SudoUsers, a1]);
        assert(false);
    }
    assert(a1 == ActView::EditSshd("PasswordAuthentication"@, "no"@));
    if r1.len() == 0 {
        assert(all =~= seq![ActView::SudoUsers, a1]);
        assert(false);
    }
    lemma_run_step(s1, r1);
    let (s2, a2) = flow_next(s1, r1[0]);
    let r2 = r1.drop_first();
    if !(rs[1] matches Reply::Edited(Ok(_))) {
        lemma_done_takes_nothing(s2, r2);
        assert(all =~= seq![ActView::SudoUsers, a1, a2]);
        assert(false);
    }
    assert(a2 == ActView::EditSshd("ChallengeResponseAuthentication"@, "no"@));
    if r2.len() == 0 {
        assert(all =~= seq![ActView::SudoUsers, a1, a2]);
        assert(false);
    }
    lemma_run_step(s2, r2);
    let (s3, a3) = flow_next(s2, r2[0]);
    let r3 = r2.drop_first();
    lemma_done_takes_nothing(s3, r3);
    assert(acts_after(s3, r3) =~= Seq::<ActView>::empty());
    assert(all =~= seq![ActView::SudoUsers, a1, a2, a3]);
    if !(rs[2] matches Reply::Edited(Ok(_))) {
        assert(false);
    }
}

/// The act is no successful finish, or one whose result is `res`.
pub open spec fn success_is(a: ActView, res: (StepKind, bool, Seq<char>)) -> bool {
    a matches ActView::Finish(Ok(x)) ==> x == res
}

/// What the UFW step reports when it has enabled the firewall with port `p` allowed.
pub open spec fn ufw_success(p: u16) -> (StepKind, bool, Seq<char>) {
    (StepKind::Ufw, true, "UFW 已启用，SSH 端口 "@ + decimal(p as nat) + " 已放行"@)
}

/// In the UFW step, every finish that reports success names port `p`.
proof fn lemma_ufw_reports_port(s: FlowView, rs: Seq<Reply>, p: u16)
    requires
        s.kind == StepKind::Ufw,
        s.port == p,
        s.phase != 0,
    ensures
        forall|i: int| 0 <= i < acts_after(s, rs).len() ==> success_is(#[trigger] acts_after(s, rs)[i], ufw_success(p)),
    decreases rs.len(),
{
    if rs.len() > 0 {
        lemma_run_step(s, rs);
        let (t, a) = flow_next(s, rs[0]);
        lemma_ufw_reports_port(t, rs.drop_first(), p);
        assert forall|i: int| 0 <= i < acts_after(s, rs).len() implies success_is(
            #[trigger] acts_after(s, rs)[i],
            ufw_success(p),
        ) by {
            if i > 0 {
                assert(acts_after(s, rs)[i] == acts_after(t, rs.drop_first())[i - 1]);
            }
        }
    }
}

/// The UFW step allows the SSH port it is given: right after `SshPort(p)` it runs
/// `ufw allow p`, and whenever it reports success it names that same port.
pub proof fn law_ufw_allows_the_ssh_port(params: ExecuteParams, lang: Lang, rs: Seq<Reply>, p: u16)
    requires
        rs.len() > 0,
        rs[0] == Reply::SshPort(p),
    ensures
        run_acts(StepKind::Ufw, params, lang, rs)[1] == ActView::Run(seq!["ufw"@, "allow"@, decimal(p as nat)]),
        forall|i: int|
            0 <= i < run_acts(StepKind::Ufw, params, lang, rs).len() ==> success_is(
                #[trigger] run_acts(StepKind::Ufw, params, lang, rs)[i],
                ufw_success(p),
            ),
{
    let k = StepKind::Ufw;
    let s0 = flow_start(k, params, lang).0;
    lemma_run_step(s0, rs);
    let (s1, a1) = flow_next(s0, rs[0]);
    lemma_ufw_reports_port(s1, rs.drop_first(), p);
    let all = run_acts(k, params, lang, rs);
    assert(all[1] == a1);
    assert forall|i: int| 0 <= i < all.len() implies success_is(#[trigger] all[i], ufw_success(p)) by {
        if i > 1 {
            assert(all[i] == acts_after(s1, rs.drop_first())[i - 2]);
        }
    }
}

/// The act writes the file at `path`.
pub open spec fn writes(a: ActView, path: Seq<char>) -> bool {
    a matches ActView::WriteFile(p, _) && p == path
}

/// Fail2ban's jail is written for the SSH port the step was given, and the act
/// after writing it starts the service now (`systemctl enable --now fail2ban`).
pub proof fn law_fail2ban_jail_then_started(s: FlowView, r: Reply, r2: Reply)
    requires
        flow_wf(s),
        s.kind == StepKind::Fail2ban,
        reply_kind(r) == expects(s),
        writes(flow_next(s, r).1, "/etc/fail2ban/jail.local"@),
        reply_kind(r2) == expects(flow_next(s, r).0),
    ensures
        r matches Reply::SshPort(p) && flow_next(s, r).1 == ActView::WriteFile(
            "/etc/fail2ban/jail.local"@,
            "[sshd]\nenabled = true\nport = "@ + decimal(p as nat) + "\n"@,
        ),
        flow_next(flow_next(s, r).0, r2).1 == ActView::Run(seq!["systemctl"@, "enable"@, "--now"@, "fail2ban"@]),
{
}

/// The act after writing the periodic apt configuration starts the
/// unattended-upgrades service now (`systemctl enable --now unattended-upgrades`).
pub proof fn law_auto_updates_config_then_started(s: FlowView, r: Reply, r2: Reply)
    requires
        flow_wf(s),
        s.kind == StepKind::AutoUpdates,
        reply_kind(r) == expects(s),
        writes(flow_next(s, r).1, "/etc/apt/apt.conf.d/20auto-upgrades"@),
        reply_kind(r2) == expects(flow_next(s, r).0),
    ensures
        flow_next(flow_next(s, r).0, r2).1 == ActView::Run(
            seq!["systemctl"@, "enable"@, "--now"@, "unattended-upgrades"@],
        ),
{
}

/// The act concerns user `u` only: every act of user creation that names a user
/// names `u` (the commands end with it).
pub open spec fn about_user(a: ActView, u: Seq<char>) -> bool {
    match a {
        ActView::UserExists(x) => x == u,
        ActView::RegisterUserRemoval(x) => x == u,
        ActView::GenerateKey(x) => x == u,
        ActView::AuthorizeKeyFile(x, _) => x == u,
        ActView::Run(argv) => argv.len() > 0 && argv.last() == u,
        ActView::Finish(Ok((_, _, m))) => m == "用户 '"@ + u + "' 已创建并加入 sudo 组，密钥已设置（私钥: ~/.ssh/id_ed25519）"@,
        _ => true,
    }
}

/// If the act authorizes a public key file, it is the one reply `r` gave the path of.
pub open spec fn authorizes_key_of(a: ActView, r: Reply) -> bool {
    a matches ActView::AuthorizeKeyFile(_, pk) ==> (r matches Reply::KeyPath(Ok(q)) && q@ == pk)
}

proof fn lemma_user_acts(s: FlowView, rs: Seq<Reply>, u: Seq<char>)
    requires
        s.kind == StepKind::UserCreation,
        s.user == u,
    ensures
        acts_after(s, rs).len() == rs.len(),
        forall|i: int| 0 <= i < acts_after(s, rs).len() ==> about_user(#[trigger] acts_after(s, rs)[i], u),
        forall|i: int| 0 <= i < acts_after(s, rs).len() ==> authorizes_key_of(#[trigger] acts_after(s, rs)[i], rs[i]),
    decreases rs.len(),
{
    if rs.len() > 0 {
        lemma_run_step(s, rs);
        let (t, a) = flow_next(s, rs[0]);
        lemma_user_acts(t, rs.drop_first(), u);
        let cmds = crate::application::steps::user_setup_args(u, true);
        assert(cmds[0].last() == u && cmds[1].last() == u && cmds[2].last() == u);
        assert(about_user(a, u));
        assert forall|i: int| 0 <= i < acts_after(s, rs).len() implies about_user(#[trigger] acts_after(s, rs)[i], u) by {
            if i > 0 {
                assert(acts_after(s, rs)[i] == acts_after(t, rs.drop_first())[i - 1]);
            }
        }
        assert forall|i: int| 0 <= i < acts_after(s, rs).len() implies authorizes_key_of(
            #[trigger] acts_after(s, rs)[i],
            rs[i],
        ) by {
            if i > 0 {
                assert(acts_after(s, rs)[i] == acts_after(t, rs.drop_first())[i - 1]);
                assert(rs[i] == rs.drop_first()[i - 1]);
            }
        }
    }
}

/// User creation works on the requested user throughout: it checks, adds, puts in
/// sudo, locks, generates a key pair for and authorizes the key of that user, the
/// key authorized is the public key just generated, and success names the user.
pub proof fn law_user_creation_acts_on_the_new_user(params: ExecuteParams, lang: Lang, rs: Seq<Reply>, name: String)
    requires
        params.new_username == Some(name),
    ensures
        forall|i: int|
            0 <= i < run_acts(StepKind::UserCreation, params, lang, rs).len() ==> about_user(
                #[trigger] run_acts(StepKind::UserCreation, params, lang, rs)[i],
                name@,
            ),
        forall|i: int|
            1 <= i < run_acts(StepKind::UserCreation, params, lang, rs).len() ==> authorizes_key_of(
                #[trigger] run_acts(StepKind::UserCreation, params, lang, rs)[i],
                rs[i - 1],
            ),
{
    let k = StepKind::UserCreation;
    let s0 = flow_start(k, params, lang).0;
    lemma_user_acts(s0, rs, name@);
    let all = run_acts(k, params, lang, rs);
    assert forall|i: int| 0 <= i < all.len() implies about_user(#[trigger] all[i], name@) by {
        if i > 0 {
            assert(all[i] == acts_after(s0, rs)[i - 1]);
        }
    }
    assert forall|i: int| 1 <= i < all.len() implies authorizes_key_of(#[trigger] all[i], rs[i - 1]) by {
        assert(all[i] == acts_after(s0, rs)[i - 1]);
    }
}

// ---------------------------------------------------------------------------
// The machine
// ---------------------------------------------------------------------------

/// A step being carried out.
pub struct Flow {
    kind: StepKind,
    phase: u8,
    user: String,
    lock: bool,
    port: u16,
    pm: PackageManager,
    note: String,
    present: bool,
    tool: u8,
    installed: Vec<String>,
    lang: Lang,
}

impl View for Flow {
    type V = FlowView;

    closed spec fn view(&self) -> FlowView {
        FlowView {
            kind: self.kind,
            phase: self.phase,
            user: self.user@,
            lock: self.lock,
            port: self.port,
            pm: self.pm,
            note: self.note@,
            present: self.present,
            tool: self.tool,
            installed: strings_view(self.installed@),
            lang: self.lang,
        }
    }
}

/// The kind of a reply.
pub fn kind_of(r: &Reply) -> (k: ReplyKind)
    ensures
        k == reply_kind(*r),
{
    match r {
        Reply::SudoUsers(_) => ReplyKind::SudoUsers,
        Reply::SshPort(_) => ReplyKind::SshPort,
        Reply::PackageManager(_) => ReplyKind::PackageManager,
        Reply::Answer(_) => ReplyKind::Answer,
        Reply::Outcome(_) => ReplyKind::Outcome,
        Reply::KeyPath(_) => ReplyKind::KeyPath,
        Reply::Edited(_) => ReplyKind::Edited,
        Reply::Ran(_) => ReplyKind::Ran,
        Reply::Done => ReplyKind::Done,
    }
}

fn argv(parts: &[&str]) -> (r: Vec<String>)
    ensures
        strings_view(r@) == parts@.map_values(|s: &str| s@),
{
    to_strings(parts)
}

impl Flow {
    /// Begins step `kind` with the given inputs, in language `lang`.
    pub fn start(kind: StepKind, params: &ExecuteParams, lang: Lang) -> (r: (Flow, Act))
        ensures
            (r.0@, r.1@) == flow_start(kind, *params, lang),
            flow_wf(r.0@),
            expects(r.0@) == answers(r.1@),
    {
        let mut f = Flow {
            kind,
            phase: 0,
            user: String::new(),
            lock: false,
            port: 0,
            pm: PackageManager::Unknown,
            note: String::new(),
            present: false,
            tool: 0,
            installed: Vec::new(),
            lang,
        };
        assert(strings_view(f.installed@) =~= Seq::<Seq<char>>::empty());
        let act = match kind {
            StepKind::SystemUpdate => Act::PackageManager,
            StepKind::UserCreation => match UserCreationStep::requested_username(params) {
                Err(e) => f.finish(Err(e)),
                Ok(u) => {
                    f.user = u.clone();
                    f.lock = params.lock_password;
                    Act::UserExists(u)
                },
            },
            StepKind::SshRootLogin | StepKind::SshPasswordAuth => Act::SudoUsers,
            StepKind::SshPortChange => match SshPortChangeStep::requested_port(params) {
                Err(e) => f.finish(Err(e)),
                Ok(p) => {
                    f.port = p;
                    Act::EditSshd { key: string_of(&chars_of("Port")), value: decimal_string(p as u64) }
                },
            },
            StepKind::Ufw => Act::SshPort,
            StepKind::SshKeySetup => match SshKeySetupStep::request(params) {
                Err(e) => f.finish(Err(e)),
                Ok((u, SshKeyAction::GenerateNew)) => {
                    f.user = u.clone();
                    Act::GenerateKey(u)
                },
                Ok((u, SshKeyAction::PasteKey(k))) => {
                    f.user = u.clone();
                    f.phase = 1;
                    Act::AuthorizeKey { user: u, key: k }
                },
            },
            StepKind::Fail2ban => Act::Installed(string_of(&chars_of("fail2ban-server"))),
            StepKind::AutoUpdates => Act::PackageManager,
            StepKind::SecurityScan => Act::Installed(string_of(&chars_of("lynis"))),
            StepKind::LogAudit => Act::Installed(string_of(&chars_of("logwatch"))),
            StepKind::RestartSsh => {
                let a = argv(&["sshd", "-t"]);
                assert(strings_view(a@) =~= seq!["sshd"@, "-t"@]);
                Act::Run(a)
            },
        };
        (f, act)
    }

    /// Whether the machine is in a state of its step and `reply` is what it waits
    /// for (a finished step waits for nothing): what `next` requires.
    pub fn accepts(&self, reply: &Reply) -> (r: bool)
        ensures
            r == (flow_wf(self@) && reply_kind(*reply) == expects(self@)),
    {
        let n: u8 = match self.kind {
            StepKind::SystemUpdate => 3,
            StepKind::UserCreation => 7,
            StepKind::SshRootLogin => 2,
            StepKind::SshPasswordAuth => 3,
            StepKind::SshPortChange => 4,
            StepKind::Ufw => 6,
            StepKind::SshKeySetup => 2,
            StepKind::Fail2ban => 8,
            StepKind::AutoUpdates => 7,
            StepKind::SecurityScan => 7,
            StepKind::LogAudit => 8,
            StepKind::RestartSsh => 5,
        };
        let wf = (self.phase < n || self.phase == 100) && (!(self.kind == StepKind::SystemUpdate && 0 < self.phase
            && self.phase < n) || self.pm != PackageManager::Unknown) && self.tool <= 1;
        wf && self.expected() == kind_of(reply)
    }

    /// The reply the step waits for.
    pub fn expected(&self) -> (r: ReplyKind)
        ensures
            r == expects(self@),
    {
        if self.phase == 100 {
            return ReplyKind::Nothing;
        }
        match self.kind {
            StepKind::SystemUpdate => if self.phase == 0 {
                ReplyKind::PackageManager
            } else {
                ReplyKind::Ran
            },
            StepKind::UserCreation => if self.phase == 0 {
                ReplyKind::Answer
            } else if self.phase == 2 {
                ReplyKind::Done
            } else if self.phase == 5 {
                ReplyKind::KeyPath
            } else if self.phase == 6 {
                ReplyKind::Outcome
            } else {
                ReplyKind::Ran
            },
            StepKind::SshRootLogin | StepKind::SshPasswordAuth => if self.phase == 0 {
                ReplyKind::SudoUsers
            } else {
                ReplyKind::Edited
            },
            StepKind::SshPortChange => if self.phase == 0 {
                ReplyKind::Edited
            } else if self.phase == 1 {
                ReplyKind::Answer
            } else if self.phase == 2 {
                ReplyKind::Ran
            } else {
                ReplyKind::Done
            },
            StepKind::Ufw => if self.phase == 0 {
                ReplyKind::SshPort
            } else if self.phase == 1 || self.phase == 4 {
                ReplyKind::Ran
            } else if self.phase == 3 {
                ReplyKind::Answer
            } else {
                ReplyKind::Done
            },
            StepKind::SshKeySetup => if self.phase == 0 {
                ReplyKind::KeyPath
            } else {
                ReplyKind::Outcome
            },
            StepKind::Fail2ban => if self.phase == 0 {
                ReplyKind::Answer
            } else if self.phase == 1 {
                ReplyKind::PackageManager
            } else if self.phase == 2 || self.phase == 6 {
                ReplyKind::Ran
            } else if self.phase == 4 {
                ReplyKind::SshPort
            } else {
                ReplyKind::Done
            },
            StepKind::AutoUpdates => if self.phase == 0 {
                ReplyKind::PackageManager
            } else if self.phase == 1 {
                ReplyKind::Answer
            } else if self.phase == 2 || self.phase == 5 {
                ReplyKind::Ran
            } else {
                ReplyKind::Done
            },
            StepKind::SecurityScan => if self.phase == 0 || self.phase == 3 || self.phase == 4 {
                ReplyKind::Answer
            } else if self.phase == 1 {
                ReplyKind::PackageManager
            } else if self.phase == 2 || self.phase == 5 {
                ReplyKind::Ran
            } else {
                ReplyKind::Done
            },
            StepKind::LogAudit => if self.phase == 0 || self.phase == 3 {
                ReplyKind::Answer
            } else if self.phase == 1 {
                ReplyKind::PackageManager
            } else if self.phase == 2 || self.phase == 6 || self.phase == 7 {
                ReplyKind::Ran
            } else {
                ReplyKind::Done
            },
            StepKind::RestartSsh => ReplyKind::Ran,
        }
    }

    fn finish(&mut self, r: Result<StepResult, DomainError>) -> (a: Act)
        ensures
            final(self)@ == at(old(self)@, done_phase()),
            a@ == ActView::Finish(outcome_view(r)),
    {
        self.phase = 100;
        Act::Finish(r)
    }

    fn goto(&mut self, phase: u8, a: Act) -> (r: Act)
        ensures
            final(self)@ == at(old(self)@, phase),
            r == a,
    {
        self.phase = phase;
        a
    }

    fn delete_undo(&self) -> (a: Act)
        ensures
            a@ == ufw_delete_undo(self@),
    {
        proof {
            reveal_strlit("{port}");
        }
        let t = translate(self.lang, "undo_ufw_delete");
        let p = decimal_string(self.port as u64);
        let description = replace_str(t, "{port}", p.as_str());
        let a = argv(&["ufw", "delete", "allow"]);
        assert(strings_view(a@) =~= seq!["ufw"@, "delete"@, "allow"@]);
        let ghost pv = p@;
        let mut v = a;
        v.push(p);
        assert(strings_view(v@) =~= strings_view(a@).push(pv));
        assert(strings_view(v@) =~= seq!["ufw"@, "delete"@, "allow"@, decimal(self.port as nat)]);
        Act::RegisterUndo { description, argv: v }
    }

    /// Takes the reply to the last act and gives the next one.
    pub fn next(&mut self, reply: Reply) -> (r: Act)
        requires
            flow_wf(old(self)@),
            reply_kind(reply) == expects(old(self)@),
        ensures
            (final(self)@, r@) == flow_next(old(self)@, reply),
            flow_wf(final(self)@),
            expects(final(self)@) == answers(r@),
    {
        proof {
            lemma_next_answered(old(self)@, reply);
        }
        match self.kind {
            StepKind::SystemUpdate => self.system_update(reply),
            StepKind::UserCreation => self.user_creation(reply),
            StepKind::SshRootLogin => self.root_login(reply),
            StepKind::SshPasswordAuth => self.password_auth(reply),
            StepKind::SshPortChange => self.port_change(reply),
            StepKind::Ufw => self.ufw(reply),
            StepKind::SshKeySetup => self.key_setup(reply),
            StepKind::Fail2ban => self.fail2ban(reply),
            StepKind::AutoUpdates => self.auto_updates(reply),
            StepKind::SecurityScan => self.security_scan(reply),
            StepKind::LogAudit => self.log_audit(reply),
            StepKind::RestartSsh => self.restart(reply),
        }
    }

    fn system_update(&mut self, reply: Reply) -> (r: Act)
        requires
            old(self)@.kind == StepKind::SystemUpdate,
            flow_wf(old(self)@),
            reply_kind(reply) == expects(old(self)@),
        ensures
            (final(self)@, r@) == system_update_next(old(self)@, reply),
    {
        match reply {
            Reply::PackageManager(pm) => match SystemUpdateStep::commands(pm) {
                Err(e) => self.finish(Err(e)),
                Ok((update, _)) => {
                    self.pm = pm;
                    self.goto(1, Act::Run(update))
                },
            },
            Reply::Ran(o) => {
                if self.phase == 1 {
                    match check_command("update 失败: ", "update 失败: ", &o) {
                        Err(e) => self.finish(Err(e)),
                        Ok(()) => {
                            let c = SystemUpdateStep::commands(self.pm);
                            match c {
                                Ok((_, upgrade)) => self.goto(2, Act::Run(upgrade)),
                                Err(e) => self.finish(Err(e)),
                            }
                        },
                    }
                } else {
                    match check_command("upgrade 失败: ", "upgrade 失败: ", &o) {
                        Err(e) => self.finish(Err(e)),
                        Ok(()) => self.finish(Ok(SystemUpdateStep::finished())),
                    }
                }
            },
            _ => Act::SudoUsers,
        }
    }

    /// Command line `i` of adding the user (add, join sudo, lock the password).
    fn user_command(&self, i: usize) -> (r: Vec<String>)
        requires
            i < 3,
        ensures
            strings_view(r@) == crate::application::steps::user_setup_args(self.user@, true)[i as int],
    {
        let mut c = UserCreationStep::setup_commands(self.user.as_str(), true);
        assert(crate::application::steps::user_setup_args(self.user@, true).len() == 3);
        assert(crate::application::steps::commands_view(c@).len() == c@.len());
        assert(crate::application::steps::commands_view(c@)[i as int] == strings_view(c@[i as int]@));
        c.remove(i)
    }

    fn user_creation(&mut self, reply: Reply) -> (r: Act)
        requires
            old(self)@.kind == StepKind::UserCreation,
            flow_wf(old(self)@),
            reply_kind(reply) == expects(old(self)@),
        ensures
            (final(self)@, r@) == user_creation_next(old(self)@, reply),
    {
        let u = self.user.clone();
        match reply {
            Reply::Answer(exists) => {
                if exists {
                    self.finish(Err(UserCreationStep::already_exists(u.as_str())))
                } else {
                    let c = self.user_command(0);
                    self.goto(1, Act::Run(c))
                }
            },
            Reply::Ran(o) => {
                if self.phase == 1 {
                    match check_command("useradd 失败: ", "useradd 失败: ", &o) {
                        Err(e) => self.finish(Err(e)),
                        Ok(()) => self.goto(2, Act::RegisterUserRemoval(u)),
                    }
                } else if self.phase == 3 {
                    match check_command("usermod 失败: ", "usermod 失败: ", &o) {
                        Err(e) => self.finish(Err(e)),
                        Ok(()) => {
                            if self.lock {
                                let c = self.user_command(2);
                                self.goto(4, Act::Run(c))
                            } else {
                                self.goto(5, Act::GenerateKey(u))
                            }
                        },
                    }
                } else {
                    match check_command("passwd 失败: ", "passwd 失败: ", &o) {
                        Err(e) => self.finish(Err(e)),
                        Ok(()) => self.goto(5, Act::GenerateKey(u)),
                    }
                }
            },
            Reply::Done => {
                let c = self.user_command(1);
                self.goto(3, Act::Run(c))
            },
            Reply::KeyPath(k) => match k {
                Err(e) => self.finish(Err(e)),
                Ok(p) => self.goto(6, Act::AuthorizeKeyFile { user: u, public_key_path: p }),
            },
            Reply::Outcome(o) => match o {
                Err(e) => self.finish(Err(e)),
                Ok(()) => self.finish(Ok(UserCreationStep::finished(u.as_str()))),
            },
            _ => Act::SudoUsers,
        }
    }

    fn root_login(&mut self, reply: Reply) -> (r: Act)
        requires
            old(self)@.kind == StepKind::SshRootLogin,
            flow_wf(old(self)@),
            reply_kind(reply) == expects(old(self)@),
        ensures
            (final(self)@, r@) == root_login_next(old(self)@, reply),
    {
        match reply {
            Reply::SudoUsers(users) => match SshRootLoginStep::precondition(&users) {
                Err(e) => self.finish(Err(e)),
                Ok(()) => self.goto(
                    1,
                    Act::EditSshd {
                        key: string_of(&chars_of("PermitRootLogin")),
                        value: string_of(&chars_of("prohibit-password")),
                    },
                ),
            },
            Reply::Edited(e) => self.finish(e),
            _ => Act::SudoUsers,
        }
    }

    fn password_auth(&mut self, reply: Reply) -> (r: Act)
        requires
            old(self)@.kind == StepKind::SshPasswordAuth,
            flow_wf(old(self)@),
            reply_kind(reply) == expects(old(self)@),
        ensures
            (final(self)@, r@) == password_auth_next(old(self)@, reply),
    {
        match reply {
            Reply::SudoUsers(users) => match SshPasswordAuthStep::precondition(&users) {
                Err(e) => self.finish(Err(e)),
                Ok(()) => self.goto(
                    1,
                    Act::EditSshd {
                        key: string_of(&chars_of("PasswordAuthentication")),
                        value: string_of(&chars_of("no")),
                    },
                ),
            },
            Reply::Edited(e) => match e {
                Err(x) => self.finish(Err(x)),
                Ok(_) => {
                    if self.phase == 1 {
                        self.goto(
                            2,
                            Act::EditSshd {
                                key: string_of(&chars_of("ChallengeResponseAuthentication")),
                                value: string_of(&chars_of("no")),
                            },
                        )
                    } else {
                        self.finish(Ok(SshPasswordAuthStep::finished()))
                    }
                },
            },
            _ => Act::SudoUsers,
        }
    }

    fn port_change(&mut self, reply: Reply) -> (r: Act)
        requires
            old(self)@.kind == StepKind::SshPortChange,
            flow_wf(old(self)@),
            reply_kind(reply) == expects(old(self)@),
        ensures
            (final(self)@, r@) == port_change_next(old(self)@, reply),
    {
        match reply {
            Reply::Edited(e) => match e {
                Err(x) => self.finish(Err(x)),
                Ok(res) => {
                    self.note = res.message;
                    self.goto(1, Act::UfwEnabled)
                },
            },
            Reply::Answer(enabled) => {
                if enabled {
                    self.goto(2, Act::Run(ufw_allow_command(self.port)))
                } else {
                    let d = SshPortChangeStep::finished(self.port, self.note.as_str());
                    self.finish(Ok(d))
                }
            },
            Reply::Ran(o) => {
                let allowed = match o {
                    CommandOutcome::Exited { success, .. } => success,
                    CommandOutcome::SpawnFailed(_) => false,
                };
                if allowed {
                    let a = self.delete_undo();
                    self.goto(3, a)
                } else {
                    let d = SshPortChangeStep::finished(self.port, self.note.as_str());
                    self.finish(Ok(d))
                }
            },
            Reply::Done => {
                let d = SshPortChangeStep::finished(self.port, self.note.as_str());
                self.finish(Ok(d))
            },
            _ => Act::SudoUsers,
        }
    }

    fn ufw(&mut self, reply: Reply) -> (r: Act)
        requires
            old(self)@.kind == StepKind::Ufw,
            flow_wf(old(self)@),
            reply_kind(reply) == expects(old(self)@),
        ensures
            (final(self)@, r@) == ufw_next(old(self)@, reply),
    {
        match reply {
            Reply::SshPort(p) => {
                self.port = p;
                self.goto(1, Act::Run(ufw_allow_command(p)))
            },
            Reply::Ran(o) => {
                if self.phase == 1 {
                    match check_command("ufw allow 失败: ", "ufw allow 失败: ", &o) {
                        Err(e) => self.finish(Err(e)),
                        Ok(()) => {
                            let a = self.delete_undo();
                            self.goto(2, a)
                        },
                    }
                } else {
                    match check_command("ufw enable 失败: ", "ufw enable 失败: ", &o) {
                        Err(e) => self.finish(Err(e)),
                        Ok(()) => {
                            let d = translate(self.lang, "undo_ufw_disable");
                            let a = argv(&["ufw", "disable"]);
                            assert(strings_view(a@) =~= seq!["ufw"@, "disable"@]);
                            self.goto(5, Act::RegisterUndo { description: string_of(&chars_of(d)), argv: a })
                        },
                    }
                }
            },
            Reply::Done => {
                if self.phase == 2 {
                    self.goto(3, Act::UfwEnabled)
                } else {
                    self.finish(Ok(UfwStep::finished(self.port)))
                }
            },
            Reply::Answer(enabled) => {
                if enabled {
                    self.finish(Ok(UfwStep::finished(self.port)))
                } else {
                    self.goto(4, Act::Run(UfwStep::enable_command()))
                }
            },
            _ => Act::SudoUsers,
        }
    }

    fn package_removal(&self, package: &str) -> (a: Act)
        ensures
            a@ == package_removal(self@, package@),
    {
        proof {
            reveal_strlit("{pkg}");
        }
        let t = translate(self.lang, "undo_pkg_remove");
        let description = replace_str(t, "{pkg}", package);
        Act::RegisterPackageRemoval { description, package: string_of(&chars_of(package)) }
    }

    fn service_stop(service: &str) -> (a: Act)
        ensures
            a@ == service_stop(service@),
    {
        let mut d = chars_of("停止 ");
        push_str(&mut d, service);
        push_str(&mut d, " 服务");
        let mut v = argv(&["systemctl", "stop"]);
        let ghost before = v@;
        let name = string_of(&chars_of(service));
        let ghost nv = name@;
        v.push(name);
        assert(strings_view(v@) =~= strings_view(before).push(nv));
        assert(strings_view(v@) =~= seq!["systemctl"@, "stop"@, service@]);
        Act::RegisterUndo { description: string_of(&d), argv: v }
    }

    fn key_setup(&mut self, reply: Reply) -> (r: Act)
        requires
            old(self)@.kind == StepKind::SshKeySetup,
            flow_wf(old(self)@),
            reply_kind(reply) == expects(old(self)@),
        ensures
            (final(self)@, r@) == key_setup_next(old(self)@, reply),
    {
        match reply {
            Reply::KeyPath(k) => match k {
                Err(e) => self.finish(Err(e)),
                Ok(p) => self.finish(Ok(SshKeySetupStep::generated(p.as_str()))),
            },
            Reply::Outcome(o) => match o {
                Err(e) => self.finish(Err(e)),
                Ok(()) => {
                    let u = self.user.clone();
                    self.finish(Ok(SshKeySetupStep::key_added(u.as_str())))
                },
            },
            _ => Act::SudoUsers,
        }
    }

    fn fail2ban(&mut self, reply: Reply) -> (r: Act)
        requires
            old(self)@.kind == StepKind::Fail2ban,
            flow_wf(old(self)@),
            reply_kind(reply) == expects(old(self)@),
        ensures
            (final(self)@, r@) == fail2ban_next(old(self)@, reply),
    {
        match reply {
            Reply::Answer(present) => {
                if present {
                    self.present = true;
                    self.goto(4, Act::SshPort)
                } else {
                    self.goto(1, Act::PackageManager)
                }
            },
            Reply::PackageManager(pm) => match Fail2banStep::install(pm) {
                Err(e) => self.finish(Err(e)),
                Ok(c) => self.goto(2, Act::Run(c)),
            },
            Reply::Ran(o) => {
                if self.phase == 2 {
                    match check_command("安装 fail2ban 失败: ", "安装 fail2ban 失败: ", &o) {
                        Err(e) => self.finish(Err(e)),
                        Ok(()) => {
                            let a = self.package_removal("fail2ban");
                            self.goto(3, a)
                        },
                    }
                } else if self.present {
                    self.finish(Ok(Fail2banStep::finished(self.port)))
                } else {
                    self.goto(7, Self::service_stop("fail2ban"))
                }
            },
            Reply::Done => {
                if self.phase == 3 {
                    self.goto(4, Act::SshPort)
                } else if self.phase == 5 {
                    let a = argv(&["systemctl", "enable", "--now", "fail2ban"]);
                    assert(strings_view(a@) =~= seq!["systemctl"@, "enable"@, "--now"@, "fail2ban"@]);
                    self.goto(6, Act::Run(a))
                } else {
                    self.finish(Ok(Fail2banStep::finished(self.port)))
                }
            },
            Reply::SshPort(p) => {
                self.port = p;
                let path = string_of(&chars_of("/etc/fail2ban/jail.local"));
                self.goto(5, Act::WriteFile { path, content: Fail2banStep::jail_local(p) })
            },
            _ => Act::SudoUsers,
        }
    }

    fn auto_upgrades_config() -> (a: Act)
        ensures
            a@ == auto_upgrades_config(),
    {
        let path = string_of(&chars_of("/etc/apt/apt.conf.d/20auto-upgrades"));
        let content = string_of(&chars_of(AutoUpdatesStep::apt_periodic_config()));
        Act::WriteFile { path, content }
    }

    fn auto_updates(&mut self, reply: Reply) -> (r: Act)
        requires
            old(self)@.kind == StepKind::AutoUpdates,
            flow_wf(old(self)@),
            reply_kind(reply) == expects(old(self)@),
        ensures
            (final(self)@, r@) == auto_updates_next(old(self)@, reply),
    {
        match reply {
            Reply::PackageManager(pm) => match AutoUpdatesStep::require_apt(pm) {
                Err(e) => self.finish(Err(e)),
                Ok(()) => self.goto(1, Act::Installed(string_of(&chars_of("unattended-upgrade")))),
            },
            Reply::Answer(present) => {
                self.present = present;
                proof {
                    reveal_strlit("apt");
                }
                self.goto(2, Act::Run(install_command(PackageManager::Apt, "unattended-upgrades")))
            },
            Reply::Ran(o) => {
                if self.phase == 2 {
                    match check_command("安装 unattended-upgrades 失败: ", "安装 unattended-upgrades 失败: ", &o) {
                        Err(e) => self.finish(Err(e)),
                        Ok(()) => {
                            if self.present {
                                self.goto(4, Self::auto_upgrades_config())
                            } else {
                                let a = self.package_removal("unattended-upgrades");
                                self.goto(3, a)
                            }
                        },
                    }
                } else if self.present {
                    self.finish(Ok(AutoUpdatesStep::finished()))
                } else {
                    self.goto(6, Self::service_stop("unattended-upgrades"))
                }
            },
            Reply::Done => {
                if self.phase == 3 {
                    self.goto(4, Self::auto_upgrades_config())
                } else if self.phase == 4 {
                    let a = argv(&["systemctl", "enable", "--now", "unattended-upgrades"]);
                    assert(strings_view(a@) =~= seq!["systemctl"@, "enable"@, "--now"@, "unattended-upgrades"@]);
                    self.goto(5, Act::Run(a))
                } else {
                    self.finish(Ok(AutoUpdatesStep::finished()))
                }
            },
            _ => Act::SudoUsers,
        }
    }

    fn security_scan(&mut self, reply: Reply) -> (r: Act)
        requires
            old(self)@.kind == StepKind::SecurityScan,
            flow_wf(old(self)@),
            reply_kind(reply) == expects(old(self)@),
        ensures
            (final(self)@, r@) == security_scan_next(old(self)@, reply),
    {
        let lynis = string_of(&chars_of("lynis"));
        match reply {
            Reply::Answer(present) => {
                if self.phase == 0 {
                    if present {
                        self.goto(4, Act::Installed(lynis))
                    } else {
                        self.goto(1, Act::PackageManager)
                    }
                } else if self.phase == 3 {
                    if present {
                        let a = self.package_removal("lynis");
                        self.goto(6, a)
                    } else {
                        self.goto(4, Act::Installed(lynis))
                    }
                } else {
                    if present {
                        let a = argv(&["lynis", "audit", "system", "--quick"]);
                        assert(strings_view(a@) =~= seq!["lynis"@, "audit"@, "system"@, "--quick"@]);
                        self.goto(5, Act::Run(a))
                    } else {
                        self.finish(Ok(SecurityScanStep::not_installed()))
                    }
                }
            },
            Reply::PackageManager(pm) => match SecurityScanStep::install(pm) {
                Err(e) => self.finish(Err(e)),
                Ok(c) => self.goto(2, Act::Run(c)),
            },
            Reply::Ran(o) => {
                if self.phase == 2 {
                    self.goto(3, Act::Installed(lynis))
                } else {
                    match o {
                        CommandOutcome::SpawnFailed(e) => {
                            let mut m = chars_of("lynis 执行失败: ");
                            push_str(&mut m, e.as_str());
                            self.finish(Err(DomainError::SystemCommandFailed(string_of(&m))))
                        },
                        CommandOutcome::Exited { stdout, .. } => {
                            self.finish(Ok(SecurityScanStep::finished(stdout.as_str())))
                        },
                    }
                }
            },
            Reply::Done => self.goto(4, Act::Installed(lynis)),
            _ => Act::SudoUsers,
        }
    }

    fn tool(&self) -> (r: String)
        ensures
            r@ == tool_name(self.tool),
    {
        if self.tool == 0 {
            string_of(&chars_of("logwatch"))
        } else {
            string_of(&chars_of("aide"))
        }
    }

    fn keep_tool(&mut self)
        ensures
            final(self)@ == (FlowView { installed: old(self)@.installed.push(tool_name(old(self)@.tool)), ..old(self)@ }),
    {
        let t = self.tool();
        let ghost tv = t@;
        let ghost before = self.installed@;
        self.installed.push(t);
        assert(strings_view(self.installed@) =~= strings_view(before).push(tv));
    }

    fn after_tool(&mut self) -> (r: Act)
        requires
            old(self)@.tool <= 1,
        ensures
            (final(self)@, r@) == after_tool(old(self)@),
    {
        if self.tool == 0 {
            self.tool = 1;
            self.phase = 0;
            Act::Installed(string_of(&chars_of("aide")))
        } else {
            self.phase = 5;
            Act::WriteFile {
                path: string_of(&chars_of("/etc/cron.daily/00logwatch")),
                content: string_of(&chars_of(LogAuditStep::cron_script())),
            }
        }
    }

    fn log_audit(&mut self, reply: Reply) -> (r: Act)
        requires
            old(self)@.kind == StepKind::LogAudit,
            flow_wf(old(self)@),
            reply_kind(reply) == expects(old(self)@),
        ensures
            (final(self)@, r@) == log_audit_next(old(self)@, reply),
    {
        match reply {
            Reply::Answer(present) => {
                if self.phase == 0 {
                    if present {
                        self.keep_tool();
                        self.after_tool()
                    } else {
                        self.goto(1, Act::PackageManager)
                    }
                } else {
                    if present {
                        let t = self.tool();
                        let a = self.package_removal(t.as_str());
                        self.goto(4, a)
                    } else {
                        self.after_tool()
                    }
                }
            },
            Reply::PackageManager(pm) => {
                let t = self.tool();
                self.goto(2, Act::Run(install_command(pm, t.as_str())))
            },
            Reply::Ran(_) => {
                if self.phase == 2 {
                    let t = self.tool();
                    self.goto(3, Act::Installed(t))
                } else if self.phase == 6 {
                    let a = argv(&["aideinit", "--yes"]);
                    assert(strings_view(a@) =~= seq!["aideinit"@, "--yes"@]);
                    self.goto(7, Act::Run(a))
                } else {
                    let done = LogAuditStep::finished(&self.installed);
                    self.finish(Ok(done))
                }
            },
            Reply::Done => {
                if self.phase == 4 {
                    self.keep_tool();
                    self.after_tool()
                } else {
                    let a = argv(&["chmod", "+x", "/etc/cron.daily/00logwatch"]);
                    assert(strings_view(a@) =~= seq!["chmod"@, "+x"@, "/etc/cron.daily/00logwatch"@]);
                    self.goto(6, Act::Run(a))
                }
            },
            _ => Act::SudoUsers,
        }
    }

    fn restart(&mut self, reply: Reply) -> (r: Act)
        requires
            old(self)@.kind == StepKind::RestartSsh,
            flow_wf(old(self)@),
            reply_kind(reply) == expects(old(self)@),
        ensures
            (final(self)@, r@) == restart_next(old(self)@, reply),
    {
        let o = match reply {
            Reply::Ran(o) => o,
            _ => {
                return Act::SudoUsers;
            },
        };
        let spawn_failed = match o {
            CommandOutcome::SpawnFailed(_) => true,
            _ => false,
        };
        if self.phase == 0 {
            match RestartSshStep::check_syntax(&o) {
                Err(e) => self.finish(Err(e)),
                Ok(()) => {
                    let a = argv(&["systemctl", "restart", "sshd"]);
                    assert(strings_view(a@) =~= seq!["systemctl"@, "restart"@, "sshd"@]);
                    self.goto(1, Act::Run(a))
                },
            }
        } else if self.phase == 1 && spawn_failed {
            let a = argv(&["systemctl", "restart", "ssh"]);
            assert(strings_view(a@) =~= seq!["systemctl"@, "restart"@, "ssh"@]);
            self.goto(2, Act::Run(a))
        } else if self.phase == 1 || self.phase == 2 {
            match RestartSshStep::check_restart(&o) {
                Err(e) => self.finish(Err(e)),
                Ok(()) => {
                    let a = argv(&["systemctl", "is-active", "sshd"]);
                    assert(strings_view(a@) =~= seq!["systemctl"@, "is-active"@, "sshd"@]);
                    self.goto(3, Act::Run(a))
                },
            }
        } else if self.phase == 3 && spawn_failed {
            let a = argv(&["systemctl", "is-active", "ssh"]);
            assert(strings_view(a@) =~= seq!["systemctl"@, "is-active"@, "ssh"@]);
            self.goto(4, Act::Run(a))
        } else {
            let state = RestartSshStep::service_state(&o);
            self.finish(Ok(RestartSshStep::finished(state.as_str())))
        }
    }
}

} // verus!
