//! The step list shown by the terminal interface: which steps are ticked, where
//! the cursor is, and how each step's execution went.
use vstd::prelude::*;

use crate::application::orchestrator::{failure_message, failure_result};
use crate::domain::audit::{report_status, status_icon, AuditReport, AuditStatus};
use crate::domain::errors::DomainError;
use crate::domain::steps::{all_kinds, kind_label, StepKind, StepResult};
use crate::i18n::Lang;
use crate::text::{chars_of, push_str, string_of};

verus! {

/// Execution state of a listed step.
#[derive(Debug, Clone, Copy, PartialEq, Eq, Structural)]
pub enum StepExecState {
    /// Not run (or skipped)
    Idle,
    Running,
    Success,
    Failure,
}

/// One line of the step list.
#[derive(Debug, Clone, Copy, PartialEq, Eq, Structural)]
pub struct StepItem {
    pub kind: StepKind,
    /// Ticked for execution
    pub checked: bool,
    pub state: StepExecState,
}

/// A step is ticked by default unless the audit found it already secure.
pub open spec fn default_checked(report: AuditReport, k: StepKind) -> bool {
    report_status(report, k) != AuditStatus::Safe
}

/// Every step, in execution order, ticked by default unless already secure, idle.
pub fn init_steps(report: &AuditReport) -> (r: Vec<StepItem>)
    ensures
        r@.len() == 12,
        forall|i: int|
            0 <= i < 12 ==> (#[trigger] r@[i]).kind == all_kinds()[i] && r@[i].checked == default_checked(
                *report,
                all_kinds()[i],
            ) && r@[i].state == StepExecState::Idle,
{
    let all = StepKind::all();
    let mut out: Vec<StepItem> = Vec::new();
    let mut i: usize = 0;
    while i < all.len()
        invariant
            all@ == all_kinds(),
            i <= all.len(),
            out@.len() == i,
            forall|j: int|
                0 <= j < i ==> (#[trigger] out@[j]).kind == all_kinds()[j] && out@[j].checked == default_checked(
                    *report,
                    all_kinds()[j],
                ) && out@[j].state == StepExecState::Idle,
        decreases all.len() - i,
    {
        let kind = all[i];
        let checked = kind.check_default_status(report) != AuditStatus::Safe;
        out.push(StepItem { kind, checked, state: StepExecState::Idle });
        i = i + 1;
    }
    out
}

/// Sets the state of the first listed item of `kind`; the rest is unchanged.
pub fn mark_step_state(items: &mut Vec<StepItem>, kind: StepKind, state: StepExecState)
    ensures
        final(items)@.len() == old(items)@.len(),
        forall|i: int| 0 <= i < old(items)@.len() ==> {
            let first = (#[trigger] old(items)@[i]).kind == kind && forall|j: int|
                0 <= j < i ==> old(items)@[j].kind != kind;
            final(items)@[i] == if first {
                StepItem { state, ..old(items)@[i] }
            } else {
                old(items)@[i]
            }
        },
{
    let mut i: usize = 0;
    while i < items.len()
        invariant
            i <= items.len(),
            items@ == old(items)@,
            forall|j: int| 0 <= j < i ==> items@[j].kind != kind,
        decreases items.len() - i,
    {
        if items[i].kind == kind {
            let item = StepItem { state, ..items[i] };
            items.set(i, item);
            assert forall|k: int| 0 <= k < old(items)@.len() implies {
                let first = (#[trigger] old(items)@[k]).kind == kind && forall|j: int|
                    0 <= j < k ==> old(items)@[j].kind != kind;
                items@[k] == if first {
                    StepItem { state, ..old(items)@[k] }
                } else {
                    old(items)@[k]
                }
            } by {
                if k > i {
                    assert(old(items)@[i as int].kind == kind);
                }
            }
            return;
        }
        i = i + 1;
    }
}

/// Flips the tick of the item under the cursor; a cursor past the end changes nothing.
pub fn toggle_checked(items: &mut Vec<StepItem>, cursor: usize)
    ensures
        cursor < old(items)@.len() ==> final(items)@ == old(items)@.update(
            cursor as int,
            StepItem { checked: !old(items)@[cursor as int].checked, ..old(items)@[cursor as int] },
        ),
        cursor >= old(items)@.len() ==> final(items)@ == old(items)@,
{
    if cursor < items.len() {
        let item = StepItem { checked: !items[cursor].checked, ..items[cursor] };
        items.set(cursor, item);
    }
}

/// The ticked kinds, in list order.
pub open spec fn ticked(items: Seq<StepItem>) -> Seq<StepKind>
    decreases items.len(),
{
    if items.len() == 0 {
        seq![]
    } else if items.last().checked {
        ticked(items.drop_last()).push(items.last().kind)
    } else {
        ticked(items.drop_last())
    }
}

pub fn selected_kinds(items: &Vec<StepItem>) -> (r: Vec<StepKind>)
    ensures
        r@ == ticked(items@),
{
    let mut out: Vec<StepKind> = Vec::new();
    let mut i: usize = 0;
    while i < items.len()
        invariant
            i <= items.len(),
            out@ == ticked(items@.take(i as int)),
        decreases items.len() - i,
    {
        assert(items@.take(i + 1).drop_last() =~= items@.take(i as int));
        if items[i].checked {
            out.push(items[i].kind);
        }
        i = i + 1;
    }
    assert(items@.take(items.len() as int) =~= items@);
    out
}

/// Cursor moved up one line, stopping at the top.
pub fn cursor_up(cursor: usize) -> (r: usize)
    ensures
        r == if cursor == 0 {
            0
        } else {
            cursor - 1
        },
{
    if cursor == 0 {
        0
    } else {
        cursor - 1
    }
}

/// Cursor moved down one line, stopping at the last of `len` lines.
pub fn cursor_down(cursor: usize, len: usize) -> (r: usize)
    ensures
        len == 0 ==> r == 0,
        len > 0 ==> r == if cursor + 1 < len {
            cursor + 1
        } else {
            len - 1
        },
{
    let last = if len == 0 { 0 } else { len - 1 };
    if cursor < last {
        cursor + 1
    } else {
        last
    }
}

/// The state shown after a step finished: success when it made changes, idle
/// (skipped) when it made none, failure when it returned an error.
pub fn state_after(outcome_ok: bool, changes_made: bool) -> (r: StepExecState)
    ensures
        r == if !outcome_ok {
            StepExecState::Failure
        } else if changes_made {
            StepExecState::Success
        } else {
            StepExecState::Idle
        },
{
    if !outcome_ok {
        StepExecState::Failure
    } else if changes_made {
        StepExecState::Success
    } else {
        StepExecState::Idle
    }
}

// ---------------------------------------------------------------------------
// What the list and the execution log show
// ---------------------------------------------------------------------------

/// The marker in front of a listed step: running, succeeded, failed, or none.
pub open spec fn state_marker(s: StepExecState) -> Seq<char> {
    match s {
        StepExecState::Running => "▶ "@,
        StepExecState::Success => "✓ "@,
        StepExecState::Failure => "✗ "@,
        StepExecState::Idle => "  "@,
    }
}

/// One line of the step list: ` <marker> <[✓] or [ ]> <label> <audit icon>`.
pub open spec fn step_line_text(item: StepItem, report: AuditReport) -> Seq<char> {
    " "@ + state_marker(item.state) + " "@ + (if item.checked {
        "[✓]"@
    } else {
        "[ ]"@
    }) + " "@ + kind_label(item.kind) + " "@ + status_icon(report_status(report, item.kind))
}

pub fn step_line(item: &StepItem, report: &AuditReport) -> (r: String)
    ensures
        r@ == step_line_text(*item, *report),
{
    let marker = match item.state {
        StepExecState::Running => "▶ ",
        StepExecState::Success => "✓ ",
        StepExecState::Failure => "✗ ",
        StepExecState::Idle => "  ",
    };
    let mut v = chars_of(" ");
    push_str(&mut v, marker);
    push_str(&mut v, " ");
    push_str(&mut v, if item.checked { "[✓]" } else { "[ ]" });
    push_str(&mut v, " ");
    push_str(&mut v, item.kind.label());
    push_str(&mut v, " ");
    push_str(&mut v, item.kind.check_default_status(report).icon());
    string_of(&v)
}

/// An execution-log entry: an icon and a message.
pub struct LogLine {
    pub icon: &'static str,
    pub message: String,
}

/// `▶ 正在执行: <label>`
pub fn started_line(kind: StepKind) -> (r: LogLine)
    ensures
        r.icon@ == "▶"@,
        r.message@ == "正在执行: "@ + kind_label(kind),
{
    let mut v = chars_of("正在执行: ");
    push_str(&mut v, kind.label());
    LogLine { icon: "▶", message: string_of(&v) }
}

/// A step that returned: `✅ 已完成: <label>` when it made changes, otherwise
/// `⏭ 跳过: <its message>`.
pub fn finished_line(result: &StepResult) -> (r: LogLine)
    ensures
        result.changes_made ==> r.icon@ == "✅"@ && r.message@ == "已完成: "@ + kind_label(result.kind),
        !result.changes_made ==> r.icon@ == "⏭"@ && r.message@ == "跳过: "@ + result.message@,
{
    if result.changes_made {
        let mut v = chars_of("已完成: ");
        push_str(&mut v, result.kind.label());
        LogLine { icon: "✅", message: string_of(&v) }
    } else {
        let mut v = chars_of("跳过: ");
        push_str(&mut v, result.message.as_str());
        LogLine { icon: "⏭", message: string_of(&v) }
    }
}

/// A step that failed: `❌ 失败: <error>`.
pub fn failed_line(kind: StepKind, e: &DomainError, lang: Lang) -> (r: LogLine)
    ensures
        r.icon@ == "❌"@,
        r.message@ == failure_message(*e, lang),
{
    let f = failure_result(kind, e, lang);
    LogLine { icon: "❌", message: f.message }
}

/// The run was interrupted: `⚠️ 用户中断`.
pub fn interrupted_line() -> (r: LogLine)
    ensures
        r.icon@ == "⚠️"@,
        r.message@ == "用户中断"@,
{
    LogLine { icon: "⚠️", message: string_of(&chars_of("用户中断")) }
}

} // verus!
