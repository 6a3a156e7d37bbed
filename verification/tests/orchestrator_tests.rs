use u2secure::application::orchestrator::{plan_steps, root_required, summary_counts, BatchAction, BatchRun};
use u2secure::domain::errors::DomainError;
use u2secure::domain::steps::{StepKind, StepResult};
use u2secure::i18n::Lang;

fn ok(kind: StepKind) -> Result<StepResult, DomainError> {
    Ok(StepResult { kind, changes_made: true, message: "done".into() })
}

#[test]
fn test_plan_follows_step_order_and_dedups() {
    let plan = plan_steps(&[StepKind::RestartSsh, StepKind::Ufw, StepKind::SystemUpdate, StepKind::Ufw]);
    assert_eq!(plan, vec![StepKind::SystemUpdate, StepKind::Ufw, StepKind::RestartSsh]);
    assert!(plan_steps(&[]).is_empty());
}

#[test]
fn test_batch_runs_all_steps_in_order() {
    let mut run = BatchRun::new(&[StepKind::Ufw, StepKind::SystemUpdate]);
    assert_eq!(run.next_action(false), BatchAction::Execute(StepKind::SystemUpdate));
    run.record(ok(StepKind::SystemUpdate), Lang::ZhCn);
    assert_eq!(run.next_action(false), BatchAction::Execute(StepKind::Ufw));
    run.record(ok(StepKind::Ufw), Lang::ZhCn);
    assert_eq!(run.next_action(false), BatchAction::Finish);
    assert_eq!(run.next_action(false), BatchAction::Finish);
    assert_eq!(run.results().len(), 2);
}

#[test]
fn test_batch_failure_stops_and_rolls_back_once() {
    let mut run = BatchRun::new(&[StepKind::SystemUpdate, StepKind::Ufw]);
    assert_eq!(run.next_action(false), BatchAction::Execute(StepKind::SystemUpdate));
    run.record(Err(DomainError::SystemCommandFailed("x".into())), Lang::ZhCn);
    assert_eq!(run.next_action(false), BatchAction::Rollback);
    assert_eq!(run.next_action(false), BatchAction::Finish);
    let results = run.into_results();
    assert_eq!(results.len(), 1);
    assert_eq!(results[0].kind, StepKind::SystemUpdate);
    assert!(!results[0].changes_made);
    assert_eq!(results[0].message, "失败: 系统命令执行失败: x");
}

#[test]
fn test_batch_interrupt_rolls_back() {
    let mut run = BatchRun::new(&[StepKind::SystemUpdate, StepKind::Ufw]);
    assert_eq!(run.next_action(false), BatchAction::Execute(StepKind::SystemUpdate));
    run.record(ok(StepKind::SystemUpdate), Lang::En);
    assert_eq!(run.next_action(true), BatchAction::Rollback);
    assert!(run.was_interrupted());
    assert_eq!(run.next_action(false), BatchAction::Finish);
    assert_eq!(run.results().len(), 1);
}

#[test]
fn test_record_outside_a_step_changes_nothing() {
    let mut run = BatchRun::new(&[]);
    run.record(ok(StepKind::Ufw), Lang::En);
    assert!(run.results().is_empty());
    assert_eq!(run.next_action(false), BatchAction::Finish);
}

#[test]
fn test_summary_counts() {
    let rs = vec![
        StepResult { kind: StepKind::Ufw, changes_made: true, message: "".into() },
        StepResult { kind: StepKind::Fail2ban, changes_made: false, message: "".into() },
        StepResult { kind: StepKind::LogAudit, changes_made: true, message: "".into() },
    ];
    assert_eq!(summary_counts(&rs), (2, 1));
}

#[test]
fn test_root_required() {
    assert!(root_required(true).is_ok());
    assert!(matches!(root_required(false), Err(DomainError::PermissionDenied)));
}
