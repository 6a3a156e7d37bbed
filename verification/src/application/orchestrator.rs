//! Orchestration of a hardening run.
//!
//! A run executes the selected steps in the fixed step order. It is a state
//! machine: the caller asks for the next action, carries it out (running a step,
//! or rolling back every registered change), and reports a step's outcome back.
//! A failed step, or an interruption, stops the run and asks for one rollback.
use vstd::prelude::*;

use crate::domain::errors::{error_message, DomainError};
use crate::domain::steps::{all_kinds, kind_index, lemma_all_kinds_index, StepKind, StepResult};
use crate::i18n::Lang;
use crate::text::{chars_of, push_str, string_of};

verus! {

/// The kinds of `ks` that occur in `selected`, in the order of `ks`.
pub open spec fn select_from(ks: Seq<StepKind>, selected: Seq<StepKind>) -> Seq<StepKind>
    decreases ks.len(),
{
    if ks.len() == 0 {
        seq![]
    } else {
        let rest = select_from(ks.drop_last(), selected);
        if selected.contains(ks.last()) {
            rest.push(ks.last())
        } else {
            rest
        }
    }
}

/// The steps a run executes: the selected kinds, each once, in execution order.
pub open spec fn plan_of(selected: Seq<StepKind>) -> Seq<StepKind> {
    select_from(all_kinds(), selected)
}

fn is_selected(selected: &[StepKind], k: StepKind) -> (r: bool)
    ensures
        r == selected@.contains(k),
{
    let mut i: usize = 0;
    while i < selected.len()
        invariant
            i <= selected.len(),
            forall|j: int| 0 <= j < i ==> selected@[j] != k,
        decreases selected.len() - i,
    {
        if selected[i] == k {
            return true;
        }
        i = i + 1;
    }
    false
}

/// The execution plan for a selection.
pub fn plan_steps(selected: &[StepKind]) -> (r: Vec<StepKind>)
    ensures
        r@ == plan_of(selected@),
{
    let all = StepKind::all();
    let mut out: Vec<StepKind> = Vec::new();
    let mut i: usize = 0;
    while i < all.len()
        invariant
            all@ == all_kinds(),
            i <= all.len(),
            out@ == select_from(all_kinds().take(i as int), selected@),
        decreases all.len() - i,
    {
        proof {
            assert(all_kinds().take(i + 1).drop_last() =~= all_kinds().take(i as int));
            assert(all_kinds().take(i + 1).last() == all@[i as int]);
        }
        if is_selected(selected, all[i]) {
            out.push(all[i]);
        }
        i = i + 1;
    }
    assert(all_kinds().take(12) =~= all_kinds());
    out
}

proof fn lemma_select_from(ks: Seq<StepKind>, selected: Seq<StepKind>)
    requires
        forall|i: int, j: int| 0 <= i < j < ks.len() ==> kind_index(#[trigger] ks[i]) < kind_index(#[trigger] ks[j]),
    ensures
        forall|i: int, j: int|
            0 <= i < j < select_from(ks, selected).len() ==> kind_index(#[trigger] select_from(ks, selected)[i])
                < kind_index(#[trigger] select_from(ks, selected)[j]),
        forall|k: StepKind| select_from(ks, selected).contains(k) <==> (ks.contains(k) && selected.contains(k)),
    decreases ks.len(),
{
    if ks.len() > 0 {
        let d = ks.drop_last();
        assert forall|i: int, j: int| 0 <= i < j < d.len() implies kind_index(#[trigger] d[i]) < kind_index(#[trigger] d[j]) by {
            assert(d[i] == ks[i] && d[j] == ks[j]);
        }
        lemma_select_from(d, selected);
        let rest = select_from(d, selected);
        let r = select_from(ks, selected);
        assert forall|k: StepKind| r.contains(k) <==> (ks.contains(k) && selected.contains(k)) by {
            if ks.contains(k) {
                let w = choose|w: int| 0 <= w < ks.len() && ks[w] == k;
                if w < ks.len() - 1 {
                    assert(d[w] == k);
                }
            }
            if d.contains(k) {
                let w = choose|w: int| 0 <= w < d.len() && d[w] == k;
                assert(ks[w] == k);
            }
            if selected.contains(ks.last()) {
                if r.contains(k) {
                    let w = choose|w: int| 0 <= w < r.len() && r[w] == k;
                    if w < rest.len() {
                        assert(rest[w] == k);
                    }
                }
                if rest.contains(k) {
                    let w = choose|w: int| 0 <= w < rest.len() && rest[w] == k;
                    assert(r[w] == k);
                }
                assert(r[r.len() - 1] == ks.last());
            }
        }
        if selected.contains(ks.last()) {
            assert forall|i: int, j: int| 0 <= i < j < r.len() implies kind_index(#[trigger] r[i]) < kind_index(#[trigger] r[j]) by {
                if j == r.len() - 1 {
                    assert(r[i] == rest[i]);
                    assert(rest.contains(rest[i]));
                    assert(d.contains(rest[i]));
                    let w = choose|w: int| 0 <= w < d.len() && d[w] == rest[i];
                    assert(ks[w] == d[w]);
                    assert(r[j] == ks[ks.len() - 1]);
                    assert(kind_index(ks[w]) < kind_index(ks[ks.len() - 1]));
                } else {
                    assert(r[i] == rest[i] && r[j] == rest[j]);
                }
            }
        }
    }
}

/// The plan runs every selected step exactly once, nothing else, in the fixed
/// step order, whatever order and repetitions the selection has.
pub proof fn law_plan_is_canonical(selected: Seq<StepKind>)
    ensures
        forall|k: StepKind| plan_of(selected).contains(k) <==> selected.contains(k),
        forall|i: int, j: int|
            0 <= i < j < plan_of(selected).len() ==> kind_index(#[trigger] plan_of(selected)[i]) < kind_index(
                #[trigger] plan_of(selected)[j],
            ),
        forall|i: int, j: int|
            0 <= i < j < plan_of(selected).len() ==> plan_of(selected)[i] != plan_of(selected)[j],
{
    assert forall|i: int, j: int| 0 <= i < j < all_kinds().len() implies kind_index(#[trigger] all_kinds()[i])
        < kind_index(#[trigger] all_kinds()[j]) by {
        lemma_all_kinds_index(all_kinds()[i]);
        lemma_all_kinds_index(all_kinds()[j]);
    }
    lemma_select_from(all_kinds(), selected);
    assert forall|k: StepKind| #[trigger] all_kinds().contains(k) by {
        lemma_all_kinds_index(k);
    }
}

// ---------------------------------------------------------------------------
// The run state machine
// ---------------------------------------------------------------------------

/// Where a run stands.
#[derive(Debug, Clone, Copy, PartialEq, Eq, Structural)]
pub enum Phase {
    /// Executing the plan
    Running,
    /// A step failed: the rollback is still to be done
    RollbackPending,
    /// Nothing more to do
    Done,
}

/// What the caller is to do next.
#[derive(Debug, Clone, Copy, PartialEq, Eq, Structural)]
pub enum BatchAction {
    /// Run this step, then report its outcome with `record`
    Execute(StepKind),
    /// Carry out every registered undo action (most recent first)
    Rollback,
    /// The run is over
    Finish,
}

/// Abstract state of a run.
pub struct BatchView {
    pub plan: Seq<StepKind>,
    /// Number of steps executed so far
    pub next: nat,
    /// One result per executed step, in order
    pub results: Seq<StepResult>,
    pub phase: Phase,
    /// The run was stopped by an interruption
    pub interrupted: bool,
    /// A step failed
    pub failed: bool,
}

/// The initial state of a run over `plan`.
pub open spec fn batch_init(plan: Seq<StepKind>) -> BatchView {
    BatchView { plan, next: 0, results: seq![], phase: Phase::Running, interrupted: false, failed: false }
}

/// The next action, and the state after handing it out. An interruption noticed
/// while running stops the run and asks for a rollback.
pub open spec fn batch_next(s: BatchView, interrupted: bool) -> (BatchView, BatchAction) {
    match s.phase {
        Phase::Done => (s, BatchAction::Finish),
        Phase::RollbackPending => (BatchView { phase: Phase::Done, ..s }, BatchAction::Rollback),
        Phase::Running => if interrupted {
            (BatchView { phase: Phase::Done, interrupted: true, ..s }, BatchAction::Rollback)
        } else if s.next < s.plan.len() {
            (s, BatchAction::Execute(s.plan[s.next as int]))
        } else {
            (BatchView { phase: Phase::Done, ..s }, BatchAction::Finish)
        },
    }
}

/// The state after the step being executed reported result `r` (`ok` when it
/// succeeded). Outside of a pending step nothing changes.
pub open spec fn batch_record(s: BatchView, r: StepResult, ok: bool) -> BatchView {
    if s.phase == Phase::Running && s.next < s.plan.len() {
        BatchView {
            next: s.next + 1,
            results: s.results.push(r),
            phase: if ok {
                Phase::Running
            } else {
                Phase::RollbackPending
            },
            failed: s.failed || !ok,
            ..s
        }
    } else {
        s
    }
}

/// What every reachable state satisfies.
pub open spec fn batch_inv(s: BatchView) -> bool {
    &&& s.next <= s.plan.len()
    &&& s.results.len() == s.next
    &&& (s.failed ==> s.phase != Phase::Running)
    &&& (s.interrupted ==> s.phase == Phase::Done)
}

/// The message recorded for a failed step: `失败: <error>`.
pub open spec fn failure_message(e: DomainError, lang: Lang) -> Seq<char> {
    "失败: "@ + error_message(e, lang)
}

/// The result recorded for a step that failed with `e`.
pub fn failure_result(kind: StepKind, e: &DomainError, lang: Lang) -> (r: StepResult)
    ensures
        r.kind == kind,
        !r.changes_made,
        r.message@ == failure_message(*e, lang),
{
    let mut v = chars_of("失败: ");
    let m = e.message(lang);
    push_str(&mut v, m.as_str());
    StepResult { kind, changes_made: false, message: string_of(&v) }
}

/// A hardening run.
pub struct BatchRun {
    plan: Vec<StepKind>,
    next: usize,
    results: Vec<StepResult>,
    phase: Phase,
    interrupted: bool,
    failed: bool,
}

impl View for BatchRun {
    type V = BatchView;

    closed spec fn view(&self) -> BatchView {
        BatchView {
            plan: self.plan@,
            next: self.next as nat,
            results: self.results@,
            phase: self.phase,
            interrupted: self.interrupted,
            failed: self.failed,
        }
    }
}

impl BatchRun {
    /// A run of the selected steps.
    pub fn new(selected: &[StepKind]) -> (r: Self)
        ensures
            r@ == batch_init(plan_of(selected@)),
    {
        BatchRun {
            plan: plan_steps(selected),
            next: 0,
            results: Vec::new(),
            phase: Phase::Running,
            interrupted: false,
            failed: false,
        }
    }

    /// The next thing to do; `interrupted` tells whether the user asked to stop.
    pub fn next_action(&mut self, interrupted: bool) -> (r: BatchAction)
        ensures
            (final(self)@, r) == batch_next(old(self)@, interrupted),
    {
        match self.phase {
            Phase::Done => BatchAction::Finish,
            Phase::RollbackPending => {
                self.phase = Phase::Done;
                BatchAction::Rollback
            },
            Phase::Running => {
                if interrupted {
                    self.phase = Phase::Done;
                    self.interrupted = true;
                    BatchAction::Rollback
                } else if self.next < self.plan.len() {
                    BatchAction::Execute(self.plan[self.next])
                } else {
                    self.phase = Phase::Done;
                    BatchAction::Finish
                }
            },
        }
    }

    /// Reports the outcome of the step handed out by `next_action`. A failure is
    /// recorded as `失败: <error>` and stops the run.
    pub fn record(&mut self, outcome: Result<StepResult, DomainError>, lang: Lang)
        ensures
            old(self)@.phase == Phase::Running && old(self)@.next < old(self)@.plan.len() ==> {
                let last = final(self)@.results.last();
                &&& final(self)@ == batch_record(old(self)@, last, outcome is Ok)
                &&& match outcome {
                    Ok(res) => last == res,
                    Err(e) => last.kind == old(self)@.plan[old(self)@.next as int] && !last.changes_made
                        && last.message@ == failure_message(e, lang),
                }
            },
            !(old(self)@.phase == Phase::Running && old(self)@.next < old(self)@.plan.len()) ==> final(self)@
                == old(self)@,
    {
        if !(self.phase == Phase::Running && self.next < self.plan.len()) {
            return;
        }
        let kind = self.plan[self.next];
        match outcome {
            Ok(res) => {
                self.results.push(res);
            },
            Err(e) => {
                let r = failure_result(kind, &e, lang);
                self.results.push(r);
                self.phase = Phase::RollbackPending;
                self.failed = true;
            },
        }
        self.next = self.next + 1;
    }

    /// The results recorded so far, one per executed step.
    pub fn results(&self) -> (r: &Vec<StepResult>)
        ensures
            r@ == self@.results,
    {
        &self.results
    }

    /// Consumes the run, giving its results.
    pub fn into_results(self) -> (r: Vec<StepResult>)
        ensures
            r@ == self@.results,
    {
        self.results
    }

    /// The planned steps.
    pub fn plan(&self) -> (r: &Vec<StepKind>)
        ensures
            r@ == self@.plan,
    {
        &self.plan
    }

    /// Whether the run was stopped by an interruption.
    pub fn was_interrupted(&self) -> (r: bool)
        ensures
            r == self@.interrupted,
    {
        self.interrupted
    }
}

/// The initial state satisfies the run invariant, and both transitions keep it.
pub proof fn law_batch_invariant(s: BatchView, interrupted: bool, r: StepResult, ok: bool, plan: Seq<StepKind>)
    ensures
        batch_inv(batch_init(plan)),
        batch_inv(s) ==> batch_inv(batch_next(s, interrupted).0),
        batch_inv(s) ==> batch_inv(batch_record(s, r, ok)),
{
}

/// While nothing fails and nobody interrupts, the run hands out the planned
/// steps one after the other, in plan order.
pub proof fn law_batch_runs_plan_in_order(s: BatchView)
    requires
        batch_inv(s),
        s.phase == Phase::Running,
        s.next < s.plan.len(),
    ensures
        batch_next(s, false) == (s, BatchAction::Execute(s.plan[s.next as int])),
        forall|r: StepResult| #[trigger] batch_record(s, r, true).next == s.next + 1 && batch_record(s, r, true).phase
            == Phase::Running,
{
}

/// After a failure no further step is executed: the next action is a rollback,
/// and after it the run only finishes.
pub proof fn law_failure_stops_and_rolls_back_once(s: BatchView, r: StepResult, i1: bool, i2: bool)
    requires
        batch_inv(s),
        s.phase == Phase::Running,
        s.next < s.plan.len(),
    ensures
        ({
            let f = batch_record(s, r, false);
            let (g, a) = batch_next(f, i1);
            &&& a == BatchAction::Rollback
            &&& g.phase == Phase::Done
            &&& batch_next(g, i2) == (g, BatchAction::Finish)
        }),
{
}

/// An interruption stops the run with one rollback; afterwards the run only finishes.
pub proof fn law_interrupt_rolls_back_once(s: BatchView, i2: bool)
    requires
        batch_inv(s),
        s.phase == Phase::Running,
    ensures
        ({
            let (g, a) = batch_next(s, true);
            &&& a == BatchAction::Rollback
            &&& g.interrupted
            &&& g.next == s.next
            &&& batch_next(g, i2) == (g, BatchAction::Finish)
        }),
{
}

/// A run in which every step succeeds and nobody interrupts executes the whole
/// plan and never asks for a rollback.
pub proof fn law_success_runs_everything(s: BatchView)
    requires
        batch_inv(s),
        s.phase == Phase::Running,
        s.next == s.plan.len(),
    ensures
        batch_next(s, false).1 == BatchAction::Finish,
        !batch_next(s, false).0.failed,
{
}

/// Number of results that made changes, and number that did not.
pub open spec fn count_changed(rs: Seq<StepResult>) -> nat
    decreases rs.len(),
{
    if rs.len() == 0 {
        0
    } else {
        count_changed(rs.drop_last()) + if rs.last().changes_made {
            1nat
        } else {
            0nat
        }
    }
}

/// Hardening needs root: anyone else is refused with `PermissionDenied`.
pub fn root_required(is_root: bool) -> (r: Result<(), DomainError>)
    ensures
        is_root ==> r is Ok,
        !is_root ==> r matches Err(DomainError::PermissionDenied),
{
    if is_root {
        Ok(())
    } else {
        Err(DomainError::PermissionDenied)
    }
}

/// Successes and failures in a run's results (a result that made no change counts
/// as a failure in the summary).
pub fn summary_counts(results: &Vec<StepResult>) -> (r: (usize, usize))
    ensures
        r.0 == count_changed(results@),
        r.0 + r.1 == results@.len(),
{
    let mut ok: usize = 0;
    let mut fail: usize = 0;
    let mut i: usize = 0;
    while i < results.len()
        invariant
            i <= results.len(),
            ok == count_changed(results@.take(i as int)),
            ok + fail == i,
        decreases results.len() - i,
    {
        assert(results@.take(i + 1).drop_last() =~= results@.take(i as int));
        if results[i].changes_made {
            ok = ok + 1;
        } else {
            fail = fail + 1;
        }
        i = i + 1;
    }
    assert(results@.take(results.len() as int) =~= results@);
    (ok, fail)
}

} // verus!
