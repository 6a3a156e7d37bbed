//! The twelve hardening steps: their kinds, how each judges the current state,
//! and the pure parts of carrying them out (argument checks, command lines,
//! file contents, result messages). Running commands and touching files is done
//! by the caller, which feeds the outcomes back into these functions.
use vstd::prelude::*;

use crate::domain::audit::{pm_name, report_status, AuditReport, AuditStatus, PackageManager};
use crate::domain::errors::DomainError;
use crate::domain::steps::{
    all_kinds, ExecuteParams, HardeningStep, HostState, SshKeyAction, StepKind, StepResult,
};
use crate::text::{
    chars_of, contains, contains_str, decimal, decimal_vec, join, join_strings, lines,
    lines_vec, push_all, push_str, string_of, strings_view,
};

verus! {


/// Step: SystemUpdate (judged from the audit report).
#[derive(Debug, Clone, Copy)]
pub struct SystemUpdateStep;

impl HardeningStep for SystemUpdateStep {
    open spec fn spec_kind(&self) -> StepKind {
        StepKind::SystemUpdate
    }

    open spec fn spec_status(&self, report: AuditReport, host: HostState) -> AuditStatus {
        report_status(report, StepKind::SystemUpdate)
    }

    fn kind(&self) -> (k: StepKind) {
        StepKind::SystemUpdate
    }

    fn check_status(&self, report: &AuditReport, host: &HostState) -> (s: AuditStatus) {
        report.status_for(StepKind::SystemUpdate)
    }
}

/// Step: UserCreation (judged from the audit report).
#[derive(Debug, Clone, Copy)]
pub struct UserCreationStep;

impl HardeningStep for UserCreationStep {
    open spec fn spec_kind(&self) -> StepKind {
        StepKind::UserCreation
    }

    open spec fn spec_status(&self, report: AuditReport, host: HostState) -> AuditStatus {
        report_status(report, StepKind::UserCreation)
    }

    fn kind(&self) -> (k: StepKind) {
        StepKind::UserCreation
    }

    fn check_status(&self, report: &AuditReport, host: &HostState) -> (s: AuditStatus) {
        report.status_for(StepKind::UserCreation)
    }
}

/// Step: SshRootLogin (judged from the audit report).
#[derive(Debug, Clone, Copy)]
pub struct SshRootLoginStep;

impl HardeningStep for SshRootLoginStep {
    open spec fn spec_kind(&self) -> StepKind {
        StepKind::SshRootLogin
    }

    open spec fn spec_status(&self, report: AuditReport, host: HostState) -> AuditStatus {
        report_status(report, StepKind::SshRootLogin)
    }

    fn kind(&self) -> (k: StepKind) {
        StepKind::SshRootLogin
    }

    fn check_status(&self, report: &AuditReport, host: &HostState) -> (s: AuditStatus) {
        report.status_for(StepKind::SshRootLogin)
    }
}

/// Step: SshPortChange (judged from the audit report).
#[derive(Debug, Clone, Copy)]
pub struct SshPortChangeStep;

impl HardeningStep for SshPortChangeStep {
    open spec fn spec_kind(&self) -> StepKind {
        StepKind::SshPortChange
    }

    open spec fn spec_status(&self, report: AuditReport, host: HostState) -> AuditStatus {
        report_status(report, StepKind::SshPortChange)
    }

    fn kind(&self) -> (k: StepKind) {
        StepKind::SshPortChange
    }

    fn check_status(&self, report: &AuditReport, host: &HostState) -> (s: AuditStatus) {
        report.status_for(StepKind::SshPortChange)
    }
}

/// Step: SshPasswordAuth (judged from the audit report).
#[derive(Debug, Clone, Copy)]
pub struct SshPasswordAuthStep;

impl HardeningStep for SshPasswordAuthStep {
    open spec fn spec_kind(&self) -> StepKind {
        StepKind::SshPasswordAuth
    }

    open spec fn spec_status(&self, report: AuditReport, host: HostState) -> AuditStatus {
        report_status(report, StepKind::SshPasswordAuth)
    }

    fn kind(&self) -> (k: StepKind) {
        StepKind::SshPasswordAuth
    }

    fn check_status(&self, report: &AuditReport, host: &HostState) -> (s: AuditStatus) {
        report.status_for(StepKind::SshPasswordAuth)
    }
}

/// Step: SshKeySetup (judged from whether `authorized_keys` exists).
#[derive(Debug, Clone, Copy)]
pub struct SshKeySetupStep;

impl HardeningStep for SshKeySetupStep {
    open spec fn spec_kind(&self) -> StepKind {
        StepKind::SshKeySetup
    }

    open spec fn spec_status(&self, report: AuditReport, host: HostState) -> AuditStatus {
        if host.authorized_keys_present { AuditStatus::Safe } else { AuditStatus::Missing }
    }

    fn kind(&self) -> (k: StepKind) {
        StepKind::SshKeySetup
    }

    fn check_status(&self, report: &AuditReport, host: &HostState) -> (s: AuditStatus) {
        if host.authorized_keys_present { AuditStatus::Safe } else { AuditStatus::Missing }
    }
}

/// Step: Ufw (judged from the audit report).
#[derive(Debug, Clone, Copy)]
pub struct UfwStep;

impl HardeningStep for UfwStep {
    open spec fn spec_kind(&self) -> StepKind {
        StepKind::Ufw
    }

    open spec fn spec_status(&self, report: AuditReport, host: HostState) -> AuditStatus {
        report_status(report, StepKind::Ufw)
    }

    fn kind(&self) -> (k: StepKind) {
        StepKind::Ufw
    }

    fn check_status(&self, report: &AuditReport, host: &HostState) -> (s: AuditStatus) {
        report.status_for(StepKind::Ufw)
    }
}

/// Step: Fail2ban (judged from the audit report).
#[derive(Debug, Clone, Copy)]
pub struct Fail2banStep;

impl HardeningStep for Fail2banStep {
    open spec fn spec_kind(&self) -> StepKind {
        StepKind::Fail2ban
    }

    open spec fn spec_status(&self, report: AuditReport, host: HostState) -> AuditStatus {
        report_status(report, StepKind::Fail2ban)
    }

    fn kind(&self) -> (k: StepKind) {
        StepKind::Fail2ban
    }

    fn check_status(&self, report: &AuditReport, host: &HostState) -> (s: AuditStatus) {
        report.status_for(StepKind::Fail2ban)
    }
}

/// Step: AutoUpdates (judged from the audit report).
#[derive(Debug, Clone, Copy)]
pub struct AutoUpdatesStep;

impl HardeningStep for AutoUpdatesStep {
    open spec fn spec_kind(&self) -> StepKind {
        StepKind::AutoUpdates
    }

    open spec fn spec_status(&self, report: AuditReport, host: HostState) -> AuditStatus {
        report_status(report, StepKind::AutoUpdates)
    }

    fn kind(&self) -> (k: StepKind) {
        StepKind::AutoUpdates
    }

    fn check_status(&self, report: &AuditReport, host: &HostState) -> (s: AuditStatus) {
        report.status_for(StepKind::AutoUpdates)
    }
}

/// Step: SecurityScan (judged from whether lynis is installed).
#[derive(Debug, Clone, Copy)]
pub struct SecurityScanStep;

impl HardeningStep for SecurityScanStep {
    open spec fn spec_kind(&self) -> StepKind {
        StepKind::SecurityScan
    }

    open spec fn spec_status(&self, report: AuditReport, host: HostState) -> AuditStatus {
        if host.lynis_installed { AuditStatus::Safe } else { AuditStatus::Missing }
    }

    fn kind(&self) -> (k: StepKind) {
        StepKind::SecurityScan
    }

    fn check_status(&self, report: &AuditReport, host: &HostState) -> (s: AuditStatus) {
        if host.lynis_installed { AuditStatus::Safe } else { AuditStatus::Missing }
    }
}

/// Step: LogAudit (judged from whether logwatch and aide are both installed).
#[derive(Debug, Clone, Copy)]
pub struct LogAuditStep;

impl HardeningStep for LogAuditStep {
    open spec fn spec_kind(&self) -> StepKind {
        StepKind::LogAudit
    }

    open spec fn spec_status(&self, report: AuditReport, host: HostState) -> AuditStatus {
        if host.logwatch_installed && host.aide_installed { AuditStatus::Safe } else { AuditStatus::Missing }
    }

    fn kind(&self) -> (k: StepKind) {
        StepKind::LogAudit
    }

    fn check_status(&self, report: &AuditReport, host: &HostState) -> (s: AuditStatus) {
        if host.logwatch_installed && host.aide_installed { AuditStatus::Safe } else { AuditStatus::Missing }
    }
}

/// Step: RestartSsh (always offered).
#[derive(Debug, Clone, Copy)]
pub struct RestartSshStep;

impl HardeningStep for RestartSshStep {
    open spec fn spec_kind(&self) -> StepKind {
        StepKind::RestartSsh
    }

    open spec fn spec_status(&self, report: AuditReport, host: HostState) -> AuditStatus {
        AuditStatus::Missing
    }

    fn kind(&self) -> (k: StepKind) {
        StepKind::RestartSsh
    }

    fn check_status(&self, report: &AuditReport, host: &HostState) -> (s: AuditStatus) {
        AuditStatus::Missing
    }
}

/// All steps, in execution order.
pub struct AllSteps {
    steps: Vec<Box<dyn HardeningStep>>,
}

impl AllSteps {
    pub closed spec fn kinds(&self) -> Seq<StepKind> {
        self.steps@.map_values(|s: Box<dyn HardeningStep>| s.spec_kind())
    }

    /// Every step once, in the order of `StepKind::all`.
    pub fn new() -> (r: Self)
        ensures
            r.kinds() == all_kinds(),
    {
        let steps: Vec<Box<dyn HardeningStep>> = vec![
            Box::new(SystemUpdateStep),
            Box::new(UserCreationStep),
            Box::new(SshRootLoginStep),
            Box::new(SshPortChangeStep),
            Box::new(SshPasswordAuthStep),
            Box::new(SshKeySetupStep),
            Box::new(UfwStep),
            Box::new(Fail2banStep),
            Box::new(AutoUpdatesStep),
            Box::new(SecurityScanStep),
            Box::new(LogAuditStep),
            Box::new(RestartSshStep),
        ];
        let r = AllSteps { steps };
        assert(r.kinds() =~= all_kinds());
        r
    }

    /// The steps, in execution order.
    pub fn steps(&self) -> (r: &[Box<dyn HardeningStep>])
        ensures
            r@.map_values(|s: Box<dyn HardeningStep>| s.spec_kind()) == self.kinds(),
    {
        self.steps.as_slice()
    }
}


// ---------------------------------------------------------------------------
// Shared pieces
// ---------------------------------------------------------------------------

/// How a command run ended.
#[derive(Debug, Clone)]
pub enum CommandOutcome {
    /// The program could not be started; the text says why
    SpawnFailed(String),
    /// The program ran to completion
    Exited { success: bool, stdout: String, stderr: String },
}

/// The message of the error a command outcome causes, if any: a start failure is
/// reported after `spawn_prefix`, a failed exit after `exit_prefix` with the
/// command's error output.
pub open spec fn command_failure(spawn_prefix: Seq<char>, exit_prefix: Seq<char>, o: CommandOutcome) -> Option<Seq<char>> {
    match o {
        CommandOutcome::SpawnFailed(e) => Some(spawn_prefix + e@),
        CommandOutcome::Exited { success, stderr, .. } => if success {
            None
        } else {
            Some(exit_prefix + stderr@)
        },
    }
}

/// `r` is a command failure with message `msg`.
pub open spec fn is_command_failure<T>(r: Result<T, DomainError>, msg: Seq<char>) -> bool {
    r matches Err(DomainError::SystemCommandFailed(m)) && m@ == msg
}

/// `r` is a failed precondition with message `msg`.
pub open spec fn is_precondition_failure<T>(r: Result<T, DomainError>, msg: Seq<char>) -> bool {
    r matches Err(DomainError::PreconditionFailed(m)) && m@ == msg
}

fn own(s: &str) -> (r: String)
    ensures
        r@ == s@,
{
    let c = chars_of(s);
    string_of(&c)
}

fn concat(a: &str, b: &str) -> (r: String)
    ensures
        r@ == a@ + b@,
{
    let mut v = chars_of(a);
    push_str(&mut v, b);
    string_of(&v)
}

fn concat3(a: &str, b: &str, c: &str) -> (r: String)
    ensures
        r@ == a@ + b@ + c@,
{
    let mut v = chars_of(a);
    push_str(&mut v, b);
    push_str(&mut v, c);
    string_of(&v)
}

fn concat4(a: &str, b: &str, c: &str, d: &str) -> (r: String)
    ensures
        r@ == a@ + b@ + c@ + d@,
{
    let mut v = chars_of(a);
    push_str(&mut v, b);
    push_str(&mut v, c);
    push_str(&mut v, d);
    string_of(&v)
}

/// Owned copies of the given strings, in order.
pub fn to_strings(parts: &[&str]) -> (r: Vec<String>)
    ensures
        strings_view(r@) == parts@.map_values(|s: &str| s@),
{
    let mut out: Vec<String> = Vec::new();
    let mut i: usize = 0;
    while i < parts.len()
        invariant
            i <= parts.len(),
            strings_view(out@) == parts@.map_values(|s: &str| s@).take(i as int),
        decreases parts.len() - i,
    {
        let x = own(parts[i]);
        let ghost before = out@;
        out.push(x);
        assert(strings_view(out@) =~= strings_view(before).push(x@));
        i = i + 1;
        assert(parts@.map_values(|s: &str| s@).take(i as int) =~= parts@.map_values(|s: &str| s@).take(
            i - 1,
        ).push(parts@[i - 1]@));
    }
    assert(parts@.map_values(|s: &str| s@).take(parts.len() as int) =~= parts@.map_values(|s: &str| s@));
    out
}

/// Turns a command outcome into success or the error it causes.
pub fn check_command(spawn_prefix: &str, exit_prefix: &str, outcome: &CommandOutcome) -> (r: Result<(), DomainError>)
    ensures
        match command_failure(spawn_prefix@, exit_prefix@, *outcome) {
            None => r is Ok,
            Some(m) => is_command_failure(r, m),
        },
{
    match outcome {
        CommandOutcome::SpawnFailed(e) => Err(DomainError::SystemCommandFailed(concat(spawn_prefix, e.as_str()))),
        CommandOutcome::Exited { success, stderr, .. } => {
            if *success {
                Ok(())
            } else {
                Err(DomainError::SystemCommandFailed(concat(exit_prefix, stderr.as_str())))
            }
        },
    }
}

fn done(kind: StepKind, message: String) -> (r: StepResult)
    ensures
        r.kind == kind,
        r.changes_made,
        r.message == message,
{
    StepResult { kind, changes_made: true, message }
}

fn port_text(port: u16) -> (r: String)
    ensures
        r@ == decimal(port as nat),
{
    let d = decimal_vec(port as u64);
    string_of(&d)
}

/// Requires at least one sudo user, failing with `message` otherwise.
pub fn require_sudo_user(sudo_users: &Vec<String>, message: &str) -> (r: Result<(), DomainError>)
    ensures
        sudo_users@.len() > 0 <==> r is Ok,
        sudo_users@.len() == 0 ==> is_precondition_failure(r, message@),
{
    if sudo_users.len() == 0 {
        Err(DomainError::PreconditionFailed(own(message)))
    } else {
        Ok(())
    }
}

// ---------------------------------------------------------------------------
// sshd_config edits
// ---------------------------------------------------------------------------

/// Where sshd_config is backed up before an edit made at `stamp`.
pub open spec fn sshd_backup_path(stamp: Seq<char>) -> Seq<char> {
    "/etc/ssh/sshd_config.bak."@ + stamp
}

pub fn backup_path_for(stamp: &str) -> (r: String)
    ensures
        r@ == sshd_backup_path(stamp@),
{
    concat("/etc/ssh/sshd_config.bak.", stamp)
}

/// The message recording an sshd_config edit: `key 已设置为 value（备份: backup）`.
pub open spec fn sshd_change_message(key: Seq<char>, value: Seq<char>, backup: Seq<char>) -> Seq<char> {
    key + " 已设置为 "@ + value + "（备份: "@ + backup + "）"@
}

pub fn sshd_change_result(key: &str, value: &str, backup: &str) -> (r: StepResult)
    ensures
        r.kind == StepKind::SshRootLogin,
        r.changes_made,
        r.message@ == sshd_change_message(key@, value@, backup@),
{
    let mut v = chars_of(key);
    push_str(&mut v, " 已设置为 ");
    push_str(&mut v, value);
    push_str(&mut v, "（备份: ");
    push_str(&mut v, backup);
    push_str(&mut v, "）");
    done(StepKind::SshRootLogin, string_of(&v))
}

// ---------------------------------------------------------------------------
// Step 1: system update
// ---------------------------------------------------------------------------

impl SystemUpdateStep {
    /// The refresh and upgrade command lines for `pm`; an unknown manager is an error.
    pub fn commands(pm: PackageManager) -> (r: Result<(Vec<String>, Vec<String>), DomainError>)
        ensures
            pm == PackageManager::Unknown ==> is_command_failure(r, "无法识别的包管理器"@),
            pm != PackageManager::Unknown ==> (r matches Ok((u, g)) && strings_view(u@)
                == crate::domain::audit::pm_update_args(pm) && strings_view(g@)
                == crate::domain::audit::pm_upgrade_args(pm)),
    {
        if pm == PackageManager::Unknown {
            return Err(DomainError::SystemCommandFailed(own("无法识别的包管理器")));
        }
        Ok((to_strings(pm.update_cmd()), to_strings(pm.upgrade_cmd())))
    }

    pub fn finished() -> (r: StepResult)
        ensures
            r.kind == StepKind::SystemUpdate,
            r.changes_made,
            r.message@ == "系统更新完成"@,
    {
        done(StepKind::SystemUpdate, own("系统更新完成"))
    }
}

// ---------------------------------------------------------------------------
// Step 2: non-root user
// ---------------------------------------------------------------------------

/// Home directory of a user: `/root` for root, `/home/<user>` otherwise.
pub open spec fn home_of(user: Seq<char>) -> Seq<char> {
    if user == "root"@ {
        "/root"@
    } else {
        "/home/"@ + user
    }
}

pub fn home_dir(username: &str) -> (r: String)
    ensures
        r@ == home_of(username@),
{
    if crate::text::str_eq(username, "root") {
        own("/root")
    } else {
        concat("/home/", username)
    }
}

/// The user's private key: `<home>/.ssh/id_ed25519`.
pub open spec fn private_key_of(user: Seq<char>) -> Seq<char> {
    home_of(user) + "/.ssh/id_ed25519"@
}

pub fn private_key_path(username: &str) -> (r: String)
    ensures
        r@ == private_key_of(username@),
{
    let h = home_dir(username);
    concat(h.as_str(), "/.ssh/id_ed25519")
}

/// The user's `authorized_keys` file.
pub open spec fn authorized_keys_of(user: Seq<char>) -> Seq<char> {
    home_of(user) + "/.ssh/authorized_keys"@
}

pub fn authorized_keys_path(username: &str) -> (r: String)
    ensures
        r@ == authorized_keys_of(username@),
{
    let h = home_dir(username);
    concat(h.as_str(), "/.ssh/authorized_keys")
}

/// `ssh-keygen -t ed25519 -f <private key> -N "" -q`
pub open spec fn keygen_args(user: Seq<char>) -> Seq<Seq<char>> {
    seq!["ssh-keygen"@, "-t"@, "ed25519"@, "-f"@, private_key_of(user), "-N"@, ""@, "-q"@]
}

pub fn keygen_command(username: &str) -> (r: Vec<String>)
    ensures
        strings_view(r@) == keygen_args(username@),
{
    let k = private_key_path(username);
    let r = vec![own("ssh-keygen"), own("-t"), own("ed25519"), own("-f"), k, own("-N"), own(""), own("-q")];
    assert(strings_view(r@) =~= keygen_args(username@));
    r
}

/// `useradd -m -s /bin/bash <user>`, `usermod -aG sudo <user>`, then `passwd -l <user>`
/// when the password is to be locked.
pub open spec fn user_setup_args(user: Seq<char>, lock: bool) -> Seq<Seq<Seq<char>>> {
    let base = seq![
        seq!["useradd"@, "-m"@, "-s"@, "/bin/bash"@, user],
        seq!["usermod"@, "-aG"@, "sudo"@, user],
    ];
    if lock {
        base.push(seq!["passwd"@, "-l"@, user])
    } else {
        base
    }
}

pub open spec fn commands_view(v: Seq<Vec<String>>) -> Seq<Seq<Seq<char>>> {
    v.map_values(|c: Vec<String>| strings_view(c@))
}

impl UserCreationStep {
    /// The user to create; missing is a failed precondition.
    pub fn requested_username(params: &ExecuteParams) -> (r: Result<String, DomainError>)
        ensures
            match params.new_username {
                Some(u) => r matches Ok(v) && v@ == u@,
                None => is_precondition_failure(r, "未提供用户名"@),
            },
    {
        match &params.new_username {
            Some(u) => Ok(u.clone()),
            None => Err(DomainError::PreconditionFailed(own("未提供用户名"))),
        }
    }

    /// The error for a user that already exists: `用户 '<user>' 已存在`.
    pub fn already_exists(username: &str) -> (r: DomainError)
        ensures
            r matches DomainError::PreconditionFailed(m) && m@ == "用户 '"@ + username@ + "' 已存在"@,
    {
        DomainError::PreconditionFailed(concat3("用户 '", username, "' 已存在"))
    }

    /// Command lines that create the user, add it to sudo, and optionally lock its password.
    pub fn setup_commands(username: &str, lock_password: bool) -> (r: Vec<Vec<String>>)
        ensures
            commands_view(r@) == user_setup_args(username@, lock_password),
    {
        let a = vec![own("useradd"), own("-m"), own("-s"), own("/bin/bash"), own(username)];
        assert(strings_view(a@) =~= seq!["useradd"@, "-m"@, "-s"@, "/bin/bash"@, username@]);
        let b = vec![own("usermod"), own("-aG"), own("sudo"), own(username)];
        assert(strings_view(b@) =~= seq!["usermod"@, "-aG"@, "sudo"@, username@]);
        let mut r = vec![a, b];
        if lock_password {
            let c = vec![own("passwd"), own("-l"), own(username)];
            assert(strings_view(c@) =~= seq!["passwd"@, "-l"@, username@]);
            r.push(c);
        }
        assert(commands_view(r@) =~= user_setup_args(username@, lock_password));
        r
    }

    pub fn finished(username: &str) -> (r: StepResult)
        ensures
            r.kind == StepKind::UserCreation,
            r.changes_made,
            r.message@ == "用户 '"@ + username@ + "' 已创建并加入 sudo 组，密钥已设置（私钥: ~/.ssh/id_ed25519）"@,
    {
        done(StepKind::UserCreation, concat3("用户 '", username, "' 已创建并加入 sudo 组，密钥已设置（私钥: ~/.ssh/id_ed25519）"))
    }
}

// ---------------------------------------------------------------------------
// Steps 3 and 5: root login and password login
// ---------------------------------------------------------------------------

impl SshRootLoginStep {
    /// Root login may only be restricted once a sudo user exists.
    pub fn precondition(sudo_users: &Vec<String>) -> (r: Result<(), DomainError>)
        ensures
            sudo_users@.len() > 0 <==> r is Ok,
            sudo_users@.len() == 0 ==> is_precondition_failure(r, "禁止 root 登录前请先创建 sudo 用户"@),
    {
        require_sudo_user(sudo_users, "禁止 root 登录前请先创建 sudo 用户")
    }
}

impl SshPasswordAuthStep {
    /// Password login may only be turned off once a sudo user exists.
    pub fn precondition(sudo_users: &Vec<String>) -> (r: Result<(), DomainError>)
        ensures
            sudo_users@.len() > 0 <==> r is Ok,
            sudo_users@.len() == 0 ==> is_precondition_failure(r, "禁止密码登录前请先创建 sudo 用户"@),
    {
        require_sudo_user(sudo_users, "禁止密码登录前请先创建 sudo 用户")
    }

    pub fn finished() -> (r: StepResult)
        ensures
            r.kind == StepKind::SshPasswordAuth,
            r.changes_made,
            r.message@ == "密码登录已禁用（仅允许密钥登录）"@,
    {
        done(StepKind::SshPasswordAuth, own("密码登录已禁用（仅允许密钥登录）"))
    }
}

// ---------------------------------------------------------------------------
// Step 4: SSH port
// ---------------------------------------------------------------------------

impl SshPortChangeStep {
    /// The new port; missing or zero is a failed precondition.
    pub fn requested_port(params: &ExecuteParams) -> (r: Result<u16, DomainError>)
        ensures
            match params.new_ssh_port {
                None => is_precondition_failure(r, "未提供新 SSH 端口"@),
                Some(p) => if p == 0 {
                    is_precondition_failure(r, "端口 0 无效"@)
                } else {
                    r == Ok::<u16, DomainError>(p)
                },
            },
    {
        match params.new_ssh_port {
            None => Err(DomainError::PreconditionFailed(own("未提供新 SSH 端口"))),
            Some(p) => {
                if p == 0 {
                    Err(DomainError::PreconditionFailed(own("端口 0 无效")))
                } else {
                    Ok(p)
                }
            },
        }
    }

    pub fn finished(port: u16, edit_message: &str) -> (r: StepResult)
        ensures
            r.kind == StepKind::SshPortChange,
            r.changes_made,
            r.message@ == "SSH 端口已修改为 "@ + decimal(port as nat) + "（"@ + edit_message@ + "）"@,
    {
        let p = port_text(port);
        let mut v = chars_of("SSH 端口已修改为 ");
        push_str(&mut v, p.as_str());
        push_str(&mut v, "（");
        push_str(&mut v, edit_message);
        push_str(&mut v, "）");
        done(StepKind::SshPortChange, string_of(&v))
    }
}

/// `ufw allow <port>`
pub fn ufw_allow_command(port: u16) -> (r: Vec<String>)
    ensures
        strings_view(r@) == seq!["ufw"@, "allow"@, decimal(port as nat)],
{
    let r = vec![own("ufw"), own("allow"), port_text(port)];
    assert(strings_view(r@) =~= seq!["ufw"@, "allow"@, decimal(port as nat)]);
    r
}

// ---------------------------------------------------------------------------
// Step 6: SSH key
// ---------------------------------------------------------------------------

/// `s` without every trailing occurrence of `suffix` (what `trim_end_matches` returns).
pub open spec fn trim_end_matches(s: Seq<char>, suffix: Seq<char>) -> Seq<char>
    decreases s.len(),
{
    if suffix.len() > 0 && suffix.len() <= s.len() && s.skip(s.len() - suffix.len()) == suffix {
        trim_end_matches(s.take(s.len() - suffix.len()), suffix)
    } else {
        s
    }
}

fn trim_end_matches_vec(s: &Vec<char>, suffix: &Vec<char>) -> (r: Vec<char>)
    ensures
        r@ == trim_end_matches(s@, suffix@),
{
    let mut end = s.len();
    assert(s@.take(end as int) =~= s@);
    while suffix.len() > 0 && suffix.len() <= end && crate::text::matches_at(s, suffix, end - suffix.len())
        invariant
            end <= s.len(),
            trim_end_matches(s@, suffix@) == trim_end_matches(s@.take(end as int), suffix@),
        decreases end,
    {
        proof {
            let t = s@.take(end as int);
            assert(t.skip(t.len() - suffix@.len()) =~= s@.subrange(end - suffix@.len(), end as int));
            assert(t.take(t.len() - suffix@.len()) =~= s@.take(end - suffix@.len()));
        }
        end = end - suffix.len();
    }
    proof {
        let t = s@.take(end as int);
        if suffix@.len() > 0 && suffix@.len() <= end {
            assert(t.skip(t.len() - suffix@.len()) =~= s@.subrange(end - suffix@.len(), end as int));
        }
    }
    crate::text::slice_vec(s, 0, end)
}

impl SshKeySetupStep {
    /// The target user and the chosen action; either missing is a failed precondition.
    pub fn request(params: &ExecuteParams) -> (r: Result<(String, SshKeyAction), DomainError>)
        ensures
            match (params.ssh_key_username, params.ssh_key_action) {
                (None, _) => is_precondition_failure(r, "未提供目标用户名"@),
                (Some(_), None) => is_precondition_failure(r, "未选择密钥操作"@),
                (Some(u), Some(a)) => r matches Ok((v, b)) && v@ == u@ && match (a, b) {
                    (SshKeyAction::GenerateNew, SshKeyAction::GenerateNew) => true,
                    (SshKeyAction::PasteKey(k), SshKeyAction::PasteKey(l)) => k@ == l@,
                    _ => false,
                },
            },
    {
        let u = match &params.ssh_key_username {
            Some(u) => u.clone(),
            None => {
                return Err(DomainError::PreconditionFailed(own("未提供目标用户名")));
            },
        };
        match &params.ssh_key_action {
            Some(SshKeyAction::GenerateNew) => Ok((u, SshKeyAction::GenerateNew)),
            Some(SshKeyAction::PasteKey(k)) => Ok((u, SshKeyAction::PasteKey(k.clone()))),
            None => Err(DomainError::PreconditionFailed(own("未选择密钥操作"))),
        }
    }

    /// Result after generating a key pair whose public key is at `pub_key_path`.
    pub fn generated(pub_key_path: &str) -> (r: StepResult)
        ensures
            r.kind == StepKind::SshKeySetup,
            r.changes_made,
            r.message@ == "ED25519 密钥对已生成\n  私钥: "@ + trim_end_matches(pub_key_path@, ".pub"@)
                + "\n  公钥: "@ + pub_key_path@ + ".pub\n  请立即复制私钥并安全保存！"@,
    {
        let p = chars_of(pub_key_path);
        let suf = chars_of(".pub");
        let private = trim_end_matches_vec(&p, &suf);
        let mut v = chars_of("ED25519 密钥对已生成\n  私钥: ");
        push_all(&mut v, &private);
        push_str(&mut v, "\n  公钥: ");
        push_str(&mut v, pub_key_path);
        push_str(&mut v, ".pub\n  请立即复制私钥并安全保存！");
        done(StepKind::SshKeySetup, string_of(&v))
    }

    /// Result after adding a pasted key for `username`.
    pub fn key_added(username: &str) -> (r: StepResult)
        ensures
            r.kind == StepKind::SshKeySetup,
            r.changes_made,
            r.message@ == "公钥已添加到 "@ + username@ + " 的 authorized_keys"@,
    {
        done(StepKind::SshKeySetup, concat3("公钥已添加到 ", username, " 的 authorized_keys"))
    }
}

// ---------------------------------------------------------------------------
// Step 7: UFW
// ---------------------------------------------------------------------------

impl UfwStep {
    /// `ufw --force enable`
    pub fn enable_command() -> (r: Vec<String>)
        ensures
            strings_view(r@) == seq!["ufw"@, "--force"@, "enable"@],
    {
        let r = vec![own("ufw"), own("--force"), own("enable")];
        assert(strings_view(r@) =~= seq!["ufw"@, "--force"@, "enable"@]);
        r
    }

    pub fn finished(port: u16) -> (r: StepResult)
        ensures
            r.kind == StepKind::Ufw,
            r.changes_made,
            r.message@ == "UFW 已启用，SSH 端口 "@ + decimal(port as nat) + " 已放行"@,
    {
        let p = port_text(port);
        done(StepKind::Ufw, concat3("UFW 已启用，SSH 端口 ", p.as_str(), " 已放行"))
    }
}

// ---------------------------------------------------------------------------
// Package installation
// ---------------------------------------------------------------------------

/// `<manager> install -y <package>`
pub open spec fn install_args(pm: Seq<char>, package: Seq<char>) -> Seq<Seq<char>> {
    seq![pm, "install"@, "-y"@, package]
}

/// `<manager> install -y <package>` with the manager's command name, known or not.
pub fn install_command(pm: PackageManager, package: &str) -> (r: Vec<String>)
    ensures
        strings_view(r@) == install_args(pm_name(pm), package@),
{
    let r = vec![own(pm.name()), own("install"), own("-y"), own(package)];
    assert(strings_view(r@) =~= install_args(pm_name(pm), package@));
    r
}

impl Fail2banStep {
    /// How to install fail2ban; only apt, yum and dnf are supported.
    pub fn install(pm: PackageManager) -> (r: Result<Vec<String>, DomainError>)
        ensures
            pm == PackageManager::Unknown ==> is_command_failure(r, "不支持的包管理器"@),
            pm != PackageManager::Unknown ==> (r matches Ok(c) && strings_view(c@) == install_args(
                pm_name(pm),
                "fail2ban"@,
            )),
    {
        match pm {
            PackageManager::Unknown => Err(DomainError::SystemCommandFailed(own("不支持的包管理器"))),
            _ => Ok(install_command(pm, "fail2ban")),
        }
    }

    /// `/etc/fail2ban/jail.local`: the sshd jail on the SSH port.
    pub fn jail_local(port: u16) -> (r: String)
        ensures
            r@ == "[sshd]\nenabled = true\nport = "@ + decimal(port as nat) + "\n"@,
    {
        let p = port_text(port);
        concat3("[sshd]\nenabled = true\nport = ", p.as_str(), "\n")
    }

    pub fn finished(port: u16) -> (r: StepResult)
        ensures
            r.kind == StepKind::Fail2ban,
            r.changes_made,
            r.message@ == "Fail2ban 已安装并运行，SSH 端口 "@ + decimal(port as nat) + " 已加入监控"@,
    {
        let p = port_text(port);
        done(StepKind::Fail2ban, concat3("Fail2ban 已安装并运行，SSH 端口 ", p.as_str(), " 已加入监控"))
    }
}

impl AutoUpdatesStep {
    /// Automatic updates are set up with apt only.
    pub fn require_apt(pm: PackageManager) -> (r: Result<(), DomainError>)
        ensures
            pm == PackageManager::Apt <==> r is Ok,
            pm != PackageManager::Apt ==> is_command_failure(r, "自动安全更新仅支持 Debian/Ubuntu"@),
    {
        if pm != PackageManager::Apt {
            return Err(DomainError::SystemCommandFailed(own("自动安全更新仅支持 Debian/Ubuntu")));
        }
        Ok(())
    }

    /// `/etc/apt/apt.conf.d/20auto-upgrades`: daily list refresh, unattended
    /// upgrades and downloads, weekly autoclean.
    pub fn apt_periodic_config() -> (r: &'static str)
        ensures
            r@ == "APT::Periodic::Update-Package-Lists \"1\";\nAPT::Periodic::Unattended-Upgrade \"1\";\nAPT::Periodic::Download-Upgradeable-Packages \"1\";\nAPT::Periodic::AutocleanInterval \"7\";\n"@,
    {
        "APT::Periodic::Update-Package-Lists \"1\";\nAPT::Periodic::Unattended-Upgrade \"1\";\nAPT::Periodic::Download-Upgradeable-Packages \"1\";\nAPT::Periodic::AutocleanInterval \"7\";\n"
    }

    pub fn finished() -> (r: StepResult)
        ensures
            r.kind == StepKind::AutoUpdates,
            r.changes_made,
            r.message@ == "自动安全更新已启用（每日检查，自动安装安全补丁）"@,
    {
        done(StepKind::AutoUpdates, own("自动安全更新已启用（每日检查，自动安装安全补丁）"))
    }
}

// ---------------------------------------------------------------------------
// Step 10: security scan
// ---------------------------------------------------------------------------

/// Number of lines of `text` that contain `word`.
pub open spec fn count_lines_with(ls: Seq<Seq<char>>, word: Seq<char>) -> nat
    decreases ls.len(),
{
    if ls.len() == 0 {
        0
    } else {
        count_lines_with(ls.drop_last(), word) + if contains(ls.last(), word) {
            1nat
        } else {
            0nat
        }
    }
}

/// Counts the lines of `text` that contain `word`.
pub fn count_lines_containing(text: &str, word: &str) -> (r: usize)
    ensures
        r == count_lines_with(lines(text@), word@),
{
    let c = chars_of(text);
    let w = chars_of(word);
    let ls = lines_vec(&c);
    let ghost lv = ls@.map_values(|l: Vec<char>| l@);
    let mut n: usize = 0;
    let mut i: usize = 0;
    while i < ls.len()
        invariant
            i <= ls.len(),
            lv == ls@.map_values(|l: Vec<char>| l@),
            n == count_lines_with(lv.take(i as int), w@),
            n <= i,
        decreases ls.len() - i,
    {
        proof {
            crate::text::lemma_find(ls@[i as int]@, w@);
            assert(lv.take(i + 1).drop_last() =~= lv.take(i as int));
            assert(lv.take(i + 1).last() == ls@[i as int]@);
        }
        if crate::text::find_vec(&ls[i], &w).is_some() {
            n = n + 1;
        }
        i = i + 1;
    }
    assert(lv.take(ls.len() as int) =~= lv);
    n
}

/// The shell script that installs lynis on apt systems: curl, the CISOfy signing
/// key and repository, then the package.
pub open spec fn lynis_apt_script() -> Seq<char> {
    "apt install -y curl && curl -fsSL https://packages.cisofy.com/keys/cisofy-software-public.key | apt-key add - 2>/dev/null && echo 'deb https://packages.cisofy.com/community/lynis/deb/ stable main' > /etc/apt/sources.list.d/lynis.list && apt update && apt install -y lynis"@
}

impl SecurityScanStep {
    /// How to install lynis: apt adds the CISOfy repository through a shell
    /// script; yum and dnf install it directly; an unknown manager is an error.
    pub fn install(pm: PackageManager) -> (r: Result<Vec<String>, DomainError>)
        ensures
            pm == PackageManager::Unknown ==> is_command_failure(r, "无法确定包管理器，请手动安装 lynis"@),
            pm == PackageManager::Apt ==> (r matches Ok(c) && strings_view(c@) == seq![
                "sh"@,
                "-c"@,
                lynis_apt_script(),
            ]),
            (pm == PackageManager::Yum || pm == PackageManager::Dnf) ==> (r matches Ok(c) && strings_view(c@)
                == install_args(pm_name(pm), "lynis"@)),
    {
        match pm {
            PackageManager::Apt => {
                let c = vec![own("sh"), own("-c"), own(
                    "apt install -y curl && curl -fsSL https://packages.cisofy.com/keys/cisofy-software-public.key | apt-key add - 2>/dev/null && echo 'deb https://packages.cisofy.com/community/lynis/deb/ stable main' > /etc/apt/sources.list.d/lynis.list && apt update && apt install -y lynis",
                )];
                assert(strings_view(c@) =~= seq!["sh"@, "-c"@, lynis_apt_script()]);
                Ok(c)
            },
            PackageManager::Yum | PackageManager::Dnf => Ok(install_command(pm, "lynis")),
            PackageManager::Unknown => Err(DomainError::SystemCommandFailed(own("无法确定包管理器，请手动安装 lynis"))),
        }
    }

    /// Result when lynis is still missing after the installation attempt.
    pub fn not_installed() -> (r: StepResult)
        ensures
            r.kind == StepKind::SecurityScan,
            !r.changes_made,
            r.message@ == "lynis 无法自动安装，请手动安装后重新运行"@,
    {
        StepResult { kind: StepKind::SecurityScan, changes_made: false, message: own("lynis 无法自动安装，请手动安装后重新运行") }
    }

    /// Result of a scan: the number of warning and suggestion lines in lynis' output.
    pub fn finished(scan_output: &str) -> (r: StepResult)
        ensures
            r.kind == StepKind::SecurityScan,
            r.changes_made,
            r.message@ == "lynis 安全扫描完成（"@ + decimal(count_lines_with(lines(scan_output@), "Warning"@))
                + " 个警告, "@ + decimal(count_lines_with(lines(scan_output@), "Suggestion"@))
                + " 个建议）\n  详细报告: /var/log/lynis.log"@,
    {
        let w = count_lines_containing(scan_output, "Warning");
        let s = count_lines_containing(scan_output, "Suggestion");
        let wt = decimal_vec(w as u64);
        let st = decimal_vec(s as u64);
        let mut v = chars_of("lynis 安全扫描完成（");
        push_all(&mut v, &wt);
        push_str(&mut v, " 个警告, ");
        push_all(&mut v, &st);
        push_str(&mut v, " 个建议）\n  详细报告: /var/log/lynis.log");
        done(StepKind::SecurityScan, string_of(&v))
    }
}

// ---------------------------------------------------------------------------
// Step 11: logging and audit tools
// ---------------------------------------------------------------------------

impl LogAuditStep {
    /// The daily logwatch cron script.
    pub fn cron_script() -> (r: &'static str)
        ensures
            r@ == "#!/bin/bash\n/usr/sbin/logwatch --output mail --format html --range today\n"@,
    {
        "#!/bin/bash\n/usr/sbin/logwatch --output mail --format html --range today\n"
    }

    /// Result listing the tools that ended up installed.
    pub fn finished(installed: &Vec<String>) -> (r: StepResult)
        ensures
            r.kind == StepKind::LogAudit,
            r.changes_made,
            r.message@ == "日志与审计增强完成\n  已安装/配置: "@ + join(strings_view(installed@), ", "@)
                + "\n  logwatch: 每日邮件报告\n  aide: 文件完整性检查已初始化"@,
    {
        let j = join_strings(installed, ", ");
        done(
            StepKind::LogAudit,
            concat3("日志与审计增强完成\n  已安装/配置: ", j.as_str(), "\n  logwatch: 每日邮件报告\n  aide: 文件完整性检查已初始化"),
        )
    }
}

// ---------------------------------------------------------------------------
// Step 12: restart SSH
// ---------------------------------------------------------------------------

impl RestartSshStep {
    /// The syntax check (`sshd -t`) must pass before a restart.
    pub fn check_syntax(outcome: &CommandOutcome) -> (r: Result<(), DomainError>)
        ensures
            match command_failure("sshd 语法检查失败: "@, "sshd_config 语法错误，请检查配置: "@, *outcome) {
                None => r is Ok,
                Some(m) => is_command_failure(r, m),
            },
    {
        check_command("sshd 语法检查失败: ", "sshd_config 语法错误，请检查配置: ", outcome)
    }

    /// The restart must succeed.
    pub fn check_restart(outcome: &CommandOutcome) -> (r: Result<(), DomainError>)
        ensures
            match command_failure("重启 SSH 服务失败: "@, "重启 SSH 服务失败: "@, *outcome) {
                None => r is Ok,
                Some(m) => is_command_failure(r, m),
            },
    {
        check_command("重启 SSH 服务失败: ", "重启 SSH 服务失败: ", outcome)
    }

    /// The service state reported by `systemctl is-active`, or `unknown` when it
    /// could not be asked.
    pub fn service_state(outcome: &CommandOutcome) -> (r: String)
        ensures
            r@ == match *outcome {
                CommandOutcome::SpawnFailed(_) => "unknown"@,
                CommandOutcome::Exited { stdout, .. } => crate::text::trim(stdout@),
            },
    {
        match outcome {
            CommandOutcome::SpawnFailed(_) => own("unknown"),
            CommandOutcome::Exited { stdout, .. } => {
                let c = chars_of(stdout.as_str());
                let t = crate::text::trim_vec(&c);
                string_of(&t)
            },
        }
    }

    pub fn finished(state: &str) -> (r: StepResult)
        ensures
            r.kind == StepKind::RestartSsh,
            r.changes_made,
            r.message@ == "SSH 服务已重启（状态: "@ + state@
                + "）\n  ⚠️  请在另一终端验证连接后再关闭当前会话！\n  🔄 如需回滚：systemctl restart sshd 或恢复备份 /etc/ssh/sshd_config.bak.*"@,
    {
        done(
            StepKind::RestartSsh,
            concat3(
                "SSH 服务已重启（状态: ",
                state,
                "）\n  ⚠️  请在另一终端验证连接后再关闭当前会话！\n  🔄 如需回滚：systemctl restart sshd 或恢复备份 /etc/ssh/sshd_config.bak.*",
            ),
        )
    }
}

} // verus!
