use anti_clean::report::ExecutionResult;
use anti_clean::runner::{
    run_anti_clean, run_anti_clean_unix, Action, Event, Platform, ScriptRunner, SCRIPT_MODE,
};

const SCRIPT: &str = "#!/bin/bash\necho done\n";

/// Runs the machine to its end against a host that answers each action with
/// `reply`, and returns the actions it asked for and the result it handed out.
fn drive(mut runner: ScriptRunner, reply: impl Fn(&Action) -> Event) -> (Vec<Action>, Result<String, String>) {
    let mut asked = Vec::new();
    for _ in 0..16 {
        let action = runner.action();
        if let Action::Finish { result } = action {
            return (asked, result);
        }
        let event = reply(&action);
        asked.push(action);
        runner = runner.advance(event);
    }
    panic!("the run did not end");
}

/// A host on which everything works and the script exits as given.
fn exits(success: bool, stdout: &'static [u8], stderr: &'static [u8]) -> impl Fn(&Action) -> Event {
    move |action| match action {
        Action::Execute { .. } => Event::Exited(ExecutionResult {
            success,
            stdout: stdout.to_vec(),
            stderr: stderr.to_vec(),
        }),
        _ => Event::Completed,
    }
}

fn removals(asked: &[Action]) -> usize {
    asked.iter().filter(|action| matches!(action, Action::RemoveScript { .. })).count()
}

fn executions(asked: &[Action]) -> usize {
    asked.iter().filter(|action| matches!(action, Action::Execute { .. })).count()
}

#[test]
fn unsupported_platform_fails_without_side_effects() {
    for force in [false, true] {
        let runner = run_anti_clean(force, Platform::Other, b"/tmp", SCRIPT);
        let (asked, result) = drive(runner, |_| Event::Completed);
        assert!(asked.is_empty());
        assert_eq!(result, Err("该功能仅支持 macOS/Linux".to_string()));
    }
}

#[test]
fn unsupported_platform_ignores_every_report() {
    let mut runner = run_anti_clean(true, Platform::Other, b"/tmp", SCRIPT);
    runner = runner.advance(Event::Completed);
    runner = runner.advance(Event::Failed("x".to_string()));
    runner = runner.advance(Event::Exited(ExecutionResult {
        success: true,
        stdout: b"done".to_vec(),
        stderr: Vec::new(),
    }));
    assert_eq!(
        runner.action(),
        Action::Finish { result: Err("该功能仅支持 macOS/Linux".to_string()) }
    );
}

#[test]
fn every_unix_like_platform_begins_with_the_write() {
    assert!(Platform::UnixLike.is_supported());
    for force in [false, true] {
        let runner = run_anti_clean(force, Platform::UnixLike, b"/tmp", SCRIPT);
        assert_eq!(
            runner.action(),
            Action::WriteScript {
                path: b"/tmp/anti-clean.sh".to_vec(),
                contents: SCRIPT.to_string(),
            }
        );
    }
}

#[test]
fn only_unix_like_platforms_are_supported() {
    assert!(!Platform::Other.is_supported());
    assert_ne!(Platform::UnixLike, Platform::Other);
    let runner = run_anti_clean(false, Platform::Other, b"/tmp", SCRIPT);
    assert!(matches!(runner.action(), Action::Finish { result: Err(_) }));
}

#[test]
fn unix_like_platform_runs_the_script_once() {
    for force in [false, true] {
        let runner = run_anti_clean(force, Platform::UnixLike, b"/tmp", SCRIPT);
        let (asked, result) = drive(runner, exits(true, b"cleaned", b""));
        assert_eq!(result, Ok("cleaned".to_string()));
        assert_eq!(executions(&asked), 1);
        assert_eq!(removals(&asked), 1);
        assert!(matches!(asked[0], Action::WriteScript { .. }));
    }
}

#[test]
fn successful_script_reports_its_output() {
    let runner = run_anti_clean(false, Platform::UnixLike, b"/tmp", SCRIPT);
    let (asked, result) = drive(runner, exits(true, b"done", b""));
    assert_eq!(result, Ok("done".to_string()));
    assert_eq!(
        asked,
        vec![
            Action::WriteScript { path: b"/tmp/anti-clean.sh".to_vec(), contents: SCRIPT.to_string() },
            Action::SetPermissions { path: b"/tmp/anti-clean.sh".to_vec(), mode: 0o700 },
            Action::Execute {
                program: "/bin/bash".to_string(),
                arguments: vec![b"/tmp/anti-clean.sh".to_vec()],
            },
            Action::RemoveScript { path: b"/tmp/anti-clean.sh".to_vec() },
        ]
    );
}

#[test]
fn successful_output_is_trimmed() {
    let runner = run_anti_clean(false, Platform::UnixLike, b"/tmp", SCRIPT);
    let (_, result) = drive(runner, exits(true, b"done\n\n", b""));
    assert_eq!(result, Ok("done".to_string()));
}

#[test]
fn successful_script_may_print_nothing() {
    let runner = run_anti_clean_unix(false, b"/tmp", SCRIPT);
    let (_, result) = drive(runner, exits(true, b" \n", b"ignored on success"));
    assert_eq!(result, Ok(String::new()));
}

#[test]
fn failed_script_with_only_stderr() {
    let runner = run_anti_clean(false, Platform::UnixLike, b"/tmp", SCRIPT);
    let (asked, result) = drive(runner, exits(false, b"", b"boom"));
    assert_eq!(result, Err("boom".to_string()));
    assert_eq!(removals(&asked), 1);
}

#[test]
fn failed_script_with_only_stdout() {
    let runner = run_anti_clean(false, Platform::UnixLike, b"/tmp", SCRIPT);
    let (_, result) = drive(runner, exits(false, b"partial", b""));
    assert_eq!(result, Err("partial".to_string()));
}

#[test]
fn failed_script_with_both_streams() {
    let runner = run_anti_clean(false, Platform::UnixLike, b"/tmp", SCRIPT);
    let (_, result) = drive(runner, exits(false, b"A", b"B"));
    let diagnostic = result.unwrap_err();
    let a = diagnostic.find('A').unwrap();
    let b = diagnostic.find('B').unwrap();
    assert!(a < b);
    assert_eq!(diagnostic, "A\nB");
}

#[test]
fn failed_script_with_no_output() {
    let runner = run_anti_clean(false, Platform::UnixLike, b"/tmp", SCRIPT);
    let (_, result) = drive(runner, exits(false, b"\n", b"  "));
    assert_eq!(result, Err(String::new()));
}

#[test]
fn force_flag_is_the_last_argument() {
    let runner = run_anti_clean(true, Platform::UnixLike, b"/tmp", SCRIPT);
    let (asked, _) = drive(runner, exits(true, b"done", b""));
    let mut seen = 0;
    for action in &asked {
        if let Action::Execute { program, arguments } = action {
            seen += 1;
            assert_eq!(program, "/bin/bash");
            assert_eq!(arguments, &vec![b"/tmp/anti-clean.sh".to_vec(), b"--force".to_vec()]);
            assert_eq!(arguments.last().unwrap(), b"--force");
        }
    }
    assert_eq!(seen, 1);
}

#[test]
fn no_force_flag_without_force() {
    let runner = run_anti_clean(false, Platform::UnixLike, b"/tmp", SCRIPT);
    let (asked, _) = drive(runner, exits(true, b"done", b""));
    let mut seen = 0;
    for action in &asked {
        if let Action::Execute { arguments, .. } = action {
            seen += 1;
            assert!(!arguments.iter().any(|argument| argument == b"--force"));
            assert_eq!(arguments.len(), 1);
        }
    }
    assert_eq!(seen, 1);
}

#[test]
fn script_is_removed_after_success_and_after_failure() {
    for (success, force) in [(true, false), (true, true), (false, false), (false, true)] {
        let runner = run_anti_clean(force, Platform::UnixLike, b"/var/tmp", SCRIPT);
        let (asked, _) = drive(runner, exits(success, b"out", b"err"));
        assert_eq!(
            asked.last(),
            Some(&Action::RemoveScript { path: b"/var/tmp/anti-clean.sh".to_vec() })
        );
        assert_eq!(removals(&asked), 1);
        assert_eq!(executions(&asked), 1);
    }
}

#[test]
fn failed_removal_is_not_reported() {
    let runner = run_anti_clean(false, Platform::UnixLike, b"/tmp", SCRIPT);
    let (asked, result) = drive(runner, |action| match action {
        Action::Execute { .. } => Event::Exited(ExecutionResult {
            success: true,
            stdout: b"done".to_vec(),
            stderr: Vec::new(),
        }),
        Action::RemoveScript { .. } => Event::Failed("busy".to_string()),
        _ => Event::Completed,
    });
    assert_eq!(result, Ok("done".to_string()));
    assert_eq!(removals(&asked), 1);
}

#[test]
fn failed_write_ends_the_run() {
    let runner = run_anti_clean(true, Platform::UnixLike, b"/tmp", SCRIPT);
    let (asked, result) = drive(runner, |action| match action {
        Action::WriteScript { .. } => Event::Failed("No space left on device (os error 28)".to_string()),
        _ => Event::Completed,
    });
    assert_eq!(result, Err("写入临时脚本失败: No space left on device (os error 28)".to_string()));
    assert_eq!(asked.len(), 1);
    assert_eq!(executions(&asked), 0);
    assert_eq!(removals(&asked), 0);
}

#[test]
fn failed_permission_change_removes_the_script_and_runs_nothing() {
    let runner = run_anti_clean(true, Platform::UnixLike, b"/tmp", SCRIPT);
    let (asked, result) = drive(runner, |action| match action {
        Action::SetPermissions { .. } => Event::Failed("Operation not permitted (os error 1)".to_string()),
        _ => Event::Completed,
    });
    assert_eq!(result, Err("设置脚本权限失败: Operation not permitted (os error 1)".to_string()));
    assert_eq!(executions(&asked), 0);
    assert_eq!(asked.len(), 3);
    assert_eq!(asked[2], Action::RemoveScript { path: b"/tmp/anti-clean.sh".to_vec() });
}

#[test]
fn failed_launch_removes_the_script() {
    let runner = run_anti_clean(false, Platform::UnixLike, b"/tmp", SCRIPT);
    let (asked, result) = drive(runner, |action| match action {
        Action::Execute { .. } => Event::Failed("No such file or directory (os error 2)".to_string()),
        _ => Event::Completed,
    });
    assert_eq!(result, Err("执行脚本失败: No such file or directory (os error 2)".to_string()));
    assert_eq!(executions(&asked), 1);
    assert_eq!(asked.len(), 4);
    assert_eq!(asked[3], Action::RemoveScript { path: b"/tmp/anti-clean.sh".to_vec() });
}

#[test]
fn script_permissions_are_owner_only() {
    assert_eq!(SCRIPT_MODE, 448);
    let runner = run_anti_clean_unix(false, b"/tmp", SCRIPT).advance(Event::Completed);
    assert_eq!(
        runner.action(),
        Action::SetPermissions { path: b"/tmp/anti-clean.sh".to_vec(), mode: 0o700 }
    );
}

#[test]
fn reports_that_answer_nothing_change_nothing() {
    let execution = || Event::Exited(ExecutionResult { success: true, stdout: Vec::new(), stderr: Vec::new() });

    let start = run_anti_clean_unix(true, b"/tmp", SCRIPT);
    let start = start.advance(execution());
    assert_eq!(start, run_anti_clean_unix(true, b"/tmp", SCRIPT));

    let written = start.advance(Event::Completed).advance(execution());
    assert_eq!(
        written,
        ScriptRunner::ScriptWritten { force: true, script_path: b"/tmp/anti-clean.sh".to_vec() }
    );

    let executable = written.advance(Event::Completed).advance(Event::Completed);
    assert_eq!(
        executable,
        ScriptRunner::ScriptExecutable { force: true, script_path: b"/tmp/anti-clean.sh".to_vec() }
    );

    let executed = executable.advance(execution()).advance(execution());
    assert_eq!(
        executed,
        ScriptRunner::ScriptExecuted {
            script_path: b"/tmp/anti-clean.sh".to_vec(),
            result: Ok(String::new()),
        }
    );

    let cleaned = executed.advance(Event::Completed).advance(Event::Failed("late".to_string()));
    assert_eq!(cleaned, ScriptRunner::Cleaned { result: Ok(String::new()) });
}

#[test]
fn every_run_ends_within_four_reports() {
    let replies: [fn() -> Event; 3] = [
        || Event::Completed,
        || Event::Failed("no".to_string()),
        || Event::Exited(ExecutionResult { success: false, stdout: b"o".to_vec(), stderr: b"e".to_vec() }),
    ];
    for a in 0..3 {
        for b in 0..3 {
            for c in 0..3 {
                for d in 0..3 {
                    let mut runner = run_anti_clean_unix(false, b"/tmp", SCRIPT);
                    let mut answered = 0;
                    let mut wrote = false;
                    let mut removed = false;
                    for choice in [a, b, c, d] {
                        let before = runner.action();
                        let event = replies[choice]();
                        let answers = match (&before, &event) {
                            (Action::Finish { .. }, _) => false,
                            (Action::Execute { .. }, Event::Completed) => false,
                            (Action::Execute { .. }, _) => true,
                            (_, Event::Exited(_)) => false,
                            _ => true,
                        };
                        runner = runner.advance(event);
                        if answers {
                            answered += 1;
                            if matches!(before, Action::WriteScript { .. }) {
                                wrote = matches!(runner, ScriptRunner::ScriptWritten { .. });
                            }
                            if matches!(before, Action::RemoveScript { .. }) {
                                removed = true;
                            }
                        } else {
                            assert_eq!(runner.action(), before);
                        }
                    }
                    if answered == 4 {
                        assert!(matches!(runner, ScriptRunner::Cleaned { .. }));
                    }
                    if matches!(runner, ScriptRunner::Cleaned { .. }) {
                        assert_eq!(wrote, removed);
                    }
                }
            }
        }
    }
}
