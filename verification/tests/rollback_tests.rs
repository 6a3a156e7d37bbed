use u2secure::domain::undo::{Effect, UndoAction, UndoKind};
use u2secure::infrastructure::rollback::UndoStack;

fn run_argv(e: &Effect) -> Option<Vec<String>> {
    match e {
        Effect::Run { argv } => Some(argv.clone()),
        _ => None,
    }
}

#[test]
fn test_undo_action_execute() {
    let action = UndoAction::new(
        "测试撤销".into(),
        UndoKind::RunCommand { argv: vec!["rm".into(), "-f".into(), "/tmp/x".into()] },
    );
    let effects = action.effects();
    assert_eq!(effects.len(), 1);
    assert_eq!(run_argv(&effects[0]), Some(vec!["rm".to_string(), "-f".to_string(), "/tmp/x".to_string()]));
}

#[test]
fn test_undo_action_description() {
    let action = UndoAction::new("描述文本".into(), UndoKind::RemoveUser { username: "u".into() });
    assert_eq!(action.description, "描述文本");
}

#[test]
fn test_rollback_manager_global_workflow() {
    let mut stack = UndoStack::new();

    // 1. an empty stack rolls back nothing
    let plan = stack.begin_undo().expect("not running");
    assert!(plan.is_empty());
    stack.finish_undo();

    // 2. LIFO order
    stack.register_undo(UndoAction::new("撤销 1".into(), UndoKind::RemoveUser { username: "a".into() }));
    stack.register_undo(UndoAction::new("撤销 2".into(), UndoKind::RemoveUser { username: "b".into() }));
    let plan = stack.begin_undo().expect("not running");
    assert_eq!(plan.len(), 2);
    assert_eq!(plan[0].description, "撤销 2", "undo2 应先执行（LIFO）");
    assert_eq!(plan[1].description, "撤销 1", "undo1 应后执行");
    stack.finish_undo();

    // 3. no action is handed out twice
    stack.register_undo(UndoAction::new("计数".into(), UndoKind::RemoveUser { username: "c".into() }));
    let plan = stack.begin_undo().expect("not running");
    assert_eq!(plan.len(), 1);
    stack.finish_undo();
    let plan = stack.begin_undo().expect("not running");
    assert_eq!(plan.len(), 0, "不应重复执行撤销");
    stack.finish_undo();

    // 4. re-entrancy is refused while a rollback runs
    stack.register_undo(UndoAction::new("自旋".into(), UndoKind::RemoveUser { username: "d".into() }));
    let plan = stack.begin_undo().expect("not running");
    assert_eq!(plan.len(), 1);
    assert!(stack.is_running());
    assert!(stack.begin_undo().is_none(), "重入应被阻止");
    stack.finish_undo();
    assert!(!stack.is_running());

    // 5. file backup restore
    stack.register_file_backup("恢复测试文件".into(), "/tmp/f.bak".into(), "/tmp/f".into());
    let plan = stack.begin_undo().expect("not running");
    let effects = plan[0].effects();
    assert_eq!(effects.len(), 2);
    match &effects[0] {
        Effect::CopyFile { from, to } => {
            assert_eq!(from, "/tmp/f.bak");
            assert_eq!(to, "/tmp/f");
        }
        _ => panic!("expected a copy"),
    }
    match &effects[1] {
        Effect::RemoveFile { path } => assert_eq!(path, "/tmp/f.bak"),
        _ => panic!("expected a removal"),
    }
    stack.finish_undo();

    // 6. command undo
    stack.register_command_undo("删除测试文件".into(), vec!["rm".into(), "-f".into(), "/tmp/g".into()]);
    let plan = stack.begin_undo().expect("not running");
    assert_eq!(run_argv(&plan[0].effects()[0]), Some(vec!["rm".to_string(), "-f".to_string(), "/tmp/g".to_string()]));
    stack.finish_undo();
}

#[test]
fn test_undo_depth_counts_registrations() {
    let mut stack = UndoStack::new();
    assert_eq!(stack.undo_depth(), 0);
    stack.register_package_remove("删除 fail2ban".into(), "fail2ban".into());
    stack.register_user_remove("deploy".into());
    assert_eq!(stack.undo_depth(), 2);
    let plan = stack.begin_undo().unwrap();
    assert_eq!(stack.undo_depth(), 0);
    assert_eq!(plan[0].description, "删除用户 'deploy'");
    assert_eq!(plan[1].description, "删除 fail2ban");
}

#[test]
fn test_package_remove_effects_try_every_manager() {
    let a = UndoAction::new("x".into(), UndoKind::RemovePackage { package: "lynis".into() });
    let cmds: Vec<Vec<String>> = a.effects().iter().filter_map(run_argv).collect();
    assert_eq!(
        cmds,
        vec![
            vec!["apt", "remove", "-y", "lynis"],
            vec!["yum", "remove", "-y", "lynis"],
            vec!["dnf", "remove", "-y", "lynis"],
        ]
        .into_iter()
        .map(|v| v.into_iter().map(String::from).collect::<Vec<String>>())
        .collect::<Vec<_>>()
    );
}

#[test]
fn test_short_command_undo_does_nothing() {
    let a = UndoAction::new("x".into(), UndoKind::RunCommand { argv: vec!["true".into()] });
    assert!(a.effects().is_empty());
    let u = UndoAction::new("x".into(), UndoKind::RemoveUser { username: "bob".into() });
    assert_eq!(run_argv(&u.effects()[0]), Some(vec!["userdel".to_string(), "-r".to_string(), "bob".to_string()]));
}
