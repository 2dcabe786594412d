use alchemist::config::{resolve, AlchemistConfig};
use alchemist::error::{AlchemistError, AssertionError, ErrorContext, ResultContext};
use alchemist::tasks::{
    aggregate_parallel_results, AlchemistBasicTask, AlchemistParallelTasks, AlchemistSerialTasks,
    AlchemistShellTask, AlchemistTaskType, ProcessOutcome, RunnableTask, SerialAction, SpawnAction,
};
use indexmap::IndexMap;

fn sh_task(script: &str) -> AlchemistBasicTask {
    AlchemistBasicTask {
        command: "sh".to_string(),
        args: Some(vec!["-c".to_string(), script.to_string()]),
        env: None,
        hide: None,
    }
}

fn boom() -> AlchemistError {
    AlchemistError::AssertionErrorVariant(ErrorContext(AssertionError("boom".to_string()), None))
}

fn assertion_message(err: &AlchemistError) -> &str {
    match err {
        AlchemistError::AssertionErrorVariant(ErrorContext(assertion, None)) => {
            assertion.message()
        }
        _ => panic!("expected a plain assertion error"),
    }
}

//
// BasicTask outcomes:
//

#[test]
fn basic_task_zero_exit_succeeds() {
    let basic = sh_task("true");
    let ret = basic.classify_outcome("name", ProcessOutcome::Exited(true));
    assert!(ret.is_ok());
}

#[test]
fn basic_task_nonzero_exit_code_message() {
    let basic = sh_task("false");
    let ret = basic.classify_outcome("name", ProcessOutcome::Exited(false));
    assert_eq!(
        assertion_message(&ret.unwrap_err()),
        "While running basic task name, command `sh -c false` failed (non-zero exit code)."
    );
}

#[test]
fn basic_task_spawn_failure_keeps_cause_and_context() {
    let basic = AlchemistBasicTask {
        command: "/etc/passwd".to_string(),
        args: None,
        env: None,
        hide: None,
    };
    let denied = std::io::Error::new(std::io::ErrorKind::PermissionDenied, "permission denied");
    let ret = basic.classify_outcome("name", ProcessOutcome::SpawnFailure(denied));
    match ret.unwrap_err() {
        AlchemistError::IOErrorVariant(ErrorContext(cause, context)) => {
            assert_eq!(cause.kind(), std::io::ErrorKind::PermissionDenied);
            assert_eq!(
                context,
                Some(
                    "Starting basic task name with command `/etc/passwd` either not found or \
                     insufficient permissions to run."
                        .to_string()
                )
            );
        }
        _ => panic!("a spawn failure is an IO error"),
    }
}

#[test]
fn basic_task_wait_failure_keeps_cause_and_context() {
    let basic = sh_task("true");
    let lost = std::io::Error::new(std::io::ErrorKind::Other, "wait failed");
    let ret = basic.classify_outcome("name", ProcessOutcome::WaitFailure(lost));
    match ret.unwrap_err() {
        AlchemistError::IOErrorVariant(ErrorContext(_, context)) => {
            assert_eq!(
                context,
                Some(
                    "While running basic task name, command `sh -c true` failed to wait(pid) on \
                     started process."
                        .to_string()
                )
            );
        }
        _ => panic!("a wait failure is an IO error"),
    }
}

#[test]
fn basic_task_env_vars_reach_the_plan() {
    let basic = AlchemistBasicTask {
        command: "sh".to_string(),
        args: Some(vec!["-c".to_string(), "echo $ALCHEMIST_TASKS_TEST_VAR".to_string()]),
        env: Some(vec![("ALCHEMIST_TASKS_TEST_VAR".to_string(), "VAR_VALUE".to_string())]),
        hide: None,
    };
    let plan = basic.plan();
    assert_eq!(plan.program, "sh");
    assert_eq!(plan.args, vec!["-c".to_string(), "echo $ALCHEMIST_TASKS_TEST_VAR".to_string()]);
    assert_eq!(
        plan.env,
        vec![("ALCHEMIST_TASKS_TEST_VAR".to_string(), "VAR_VALUE".to_string())]
    );
}

#[test]
fn basic_task_without_args_or_env_plans_empty() {
    let basic = AlchemistBasicTask {
        command: "make".to_string(),
        args: None,
        env: None,
        hide: None,
    };
    let plan = basic.plan();
    assert_eq!(plan.program, "make");
    assert!(plan.args.is_empty());
    assert!(plan.env.is_empty());
    assert_eq!(basic.command_str(), "make");
    assert_eq!(sh_task("false").command_str(), "sh -c false");
}

//
// ShellTask outcomes:
//

#[test]
fn shell_task_zero_exit_succeeds() {
    let shell = AlchemistShellTask { shell_script: "true".to_string(), hide: None };
    let plan = shell.plan();
    assert_eq!(plan.program, "sh");
    assert_eq!(plan.args, vec!["-c".to_string(), "true".to_string()]);
    assert!(plan.env.is_empty());
    let ret = shell.classify_outcome("name", ProcessOutcome::Exited(true));
    assert!(ret.is_ok());
}

#[test]
fn shell_task_nonzero_exit_code_message() {
    let shell = AlchemistShellTask { shell_script: "false".to_string(), hide: None };
    let ret = shell.classify_outcome("name", ProcessOutcome::Exited(false));
    assert_eq!(
        assertion_message(&ret.unwrap_err()),
        "Shell script 'name' exited with non-zero exit code."
    );
}

//
// SerialTasks decisions:
//

#[test]
fn serial_task_empty_finishes_at_once() {
    let serial = AlchemistSerialTasks { serial_tasks: Vec::new(), hide: None };
    let config = AlchemistConfig { tasks: IndexMap::new() };
    assert!(matches!(serial.next_step("name", 0, Ok(()), &config), SerialAction::Finished));
}

#[test]
fn serial_tasks_run_in_declared_order() {
    let serial = AlchemistSerialTasks {
        serial_tasks: vec!["one".to_string(), "two".to_string()],
        hide: None,
    };
    let mut tasks: IndexMap<String, AlchemistTaskType> = IndexMap::new();
    tasks.insert("one".to_string(), sh_task("echo one").into());
    tasks.insert("two".to_string(), sh_task("echo two").into());
    let config = AlchemistConfig { tasks };

    match serial.next_step("name", 0, Ok(()), &config) {
        SerialAction::RunStep(step) => assert_eq!(step, "one"),
        _ => panic!("the first declared step runs first"),
    }
    match serial.next_step("name", 1, Ok(()), &config) {
        SerialAction::RunStep(step) => assert_eq!(step, "two"),
        _ => panic!("the second declared step runs second"),
    }
    assert!(matches!(serial.next_step("name", 2, Ok(()), &config), SerialAction::Finished));
}

#[test]
fn serial_task_aborts_after_a_failed_step() {
    let serial = AlchemistSerialTasks {
        serial_tasks: vec!["one".to_string(), "two".to_string()],
        hide: None,
    };
    let mut tasks: IndexMap<String, AlchemistTaskType> = IndexMap::new();
    tasks.insert("one".to_string(), sh_task("true").into());
    tasks.insert("two".to_string(), sh_task("false").into());
    let config = AlchemistConfig { tasks };

    let failed = sh_task("false").classify_outcome("two", ProcessOutcome::Exited(false));
    match serial.next_step("name", 2, failed, &config) {
        SerialAction::Abort(err) => assert_eq!(
            assertion_message(&err),
            "While running basic task two, command `sh -c false` failed (non-zero exit code)."
        ),
        _ => panic!("a failed step aborts the sequence with its own error"),
    }
}

#[test]
fn serial_task_invalid_reference_message() {
    let serial = AlchemistSerialTasks { serial_tasks: vec!["ghost".to_string()], hide: None };
    let config = AlchemistConfig { tasks: IndexMap::new() };
    match serial.next_step("name", 0, Ok(()), &config) {
        SerialAction::Abort(err) => assert_eq!(
            assertion_message(&err),
            "Serial task 'name' has an invalid subtask 'ghost'"
        ),
        _ => panic!("an unresolved step fails the sequence"),
    }
}

//
// ParallelTasks decisions:
//

#[test]
fn parallel_task_empty_succeeds() {
    let parallel = AlchemistParallelTasks { parallel_tasks: Vec::new(), hide: None };
    let config = AlchemistConfig { tasks: IndexMap::new() };
    assert!(matches!(parallel.next_spawn("name", 0, &config), SpawnAction::AllSpawned));
    assert!(aggregate_parallel_results(&Vec::new()).is_ok());
}

#[test]
fn parallel_tasks_one_fail_aggregates() {
    let results = vec![Ok(()), Err(boom())];
    let ret = aggregate_parallel_results(&results);
    assert_eq!(
        assertion_message(&ret.unwrap_err()),
        "One or more errors occoured in parallel tasks"
    );
    assert!(aggregate_parallel_results(&vec![Ok(()), Ok(())]).is_ok());
}

#[test]
fn parallel_task_invalid_reference_message() {
    let parallel = AlchemistParallelTasks {
        parallel_tasks: vec!["one".to_string(), "ghost".to_string()],
        hide: None,
    };
    let mut tasks: IndexMap<String, AlchemistTaskType> = IndexMap::new();
    tasks.insert("one".to_string(), sh_task("true").into());
    let config = AlchemistConfig { tasks };

    match parallel.next_spawn("name", 0, &config) {
        SpawnAction::SpawnStep(member) => assert_eq!(member, "one"),
        _ => panic!("a resolvable member is spawned"),
    }
    match parallel.next_spawn("name", 1, &config) {
        SpawnAction::Abort(err) => assert_eq!(
            assertion_message(&err),
            "Parallel task 'name' has an invalid subtask 'ghost'"
        ),
        _ => panic!("an unresolved member aborts the spawn loop"),
    }
}

//
// Descriptions, visibility, conversions:
//

#[test]
fn describe_every_variant() {
    let basic = AlchemistBasicTask {
        command: "echo".to_string(),
        args: Some(vec!["hello".to_string(), "world".to_string()]),
        env: None,
        hide: None,
    };
    assert_eq!(basic.describe(), "echo hello world");
    let bare = AlchemistBasicTask {
        command: "true".to_string(),
        args: None,
        env: None,
        hide: None,
    };
    assert_eq!(bare.describe(), "true ");
    let serial = AlchemistSerialTasks {
        serial_tasks: vec!["one".to_string(), "two".to_string()],
        hide: None,
    };
    assert_eq!(serial.describe(), "SERIAL: one -> two");
    let single = AlchemistSerialTasks { serial_tasks: vec!["one".to_string()], hide: None };
    assert_eq!(single.describe(), "SERIAL: one");
    let none = AlchemistSerialTasks { serial_tasks: Vec::new(), hide: None };
    assert_eq!(none.describe(), "SERIAL: ");
    let parallel = AlchemistParallelTasks {
        parallel_tasks: vec!["one".to_string(), "two".to_string()],
        hide: None,
    };
    assert_eq!(parallel.describe(), "PARALLEL: one & two");
    let shell = AlchemistShellTask { shell_script: "make all".to_string(), hide: None };
    assert_eq!(shell.describe(), "Shell: \nmake all\n");
    let as_variant: AlchemistTaskType = shell.into();
    assert_eq!(as_variant.describe(), "Shell: \nmake all\n");
}

#[test]
fn hidden_tasks_are_not_shown() {
    let shown: AlchemistTaskType = AlchemistShellTask {
        shell_script: "true".to_string(),
        hide: None,
    }
    .into();
    assert!(shown.is_shown());
    let explicit: AlchemistTaskType = AlchemistShellTask {
        shell_script: "true".to_string(),
        hide: Some(false),
    }
    .into();
    assert!(explicit.is_shown());
    let hidden: AlchemistTaskType = AlchemistShellTask {
        shell_script: "true".to_string(),
        hide: Some(true),
    }
    .into();
    assert!(!hidden.is_shown());
}

#[test]
fn task_conversions_pick_the_right_variant() {
    let basic: AlchemistTaskType = sh_task("true").into();
    assert!(matches!(basic, AlchemistTaskType::AlchemistBasicTask(_)));
    let serial: AlchemistTaskType =
        AlchemistSerialTasks { serial_tasks: Vec::new(), hide: None }.into();
    assert!(matches!(serial, AlchemistTaskType::AlchemistSerialTasks(_)));
    let parallel: AlchemistTaskType =
        AlchemistParallelTasks { parallel_tasks: Vec::new(), hide: None }.into();
    assert!(matches!(parallel, AlchemistTaskType::AlchemistParallelTasks(_)));
    let shell: AlchemistTaskType =
        AlchemistShellTask { shell_script: "true".to_string(), hide: None }.into();
    assert!(matches!(shell, AlchemistTaskType::AlchemistShellTask(_)));
}

#[test]
fn error_msg_adds_context_only_to_failures() {
    let ok: Result<u8, std::io::Error> = Ok(7);
    assert_eq!(ok.error_msg("context").unwrap(), 7);
    let err: Result<u8, std::io::Error> =
        Err(std::io::Error::new(std::io::ErrorKind::NotFound, "gone"));
    let wrapped = err.error_msg("Could not read the config file").unwrap_err();
    assert_eq!(wrapped.1, Some("Could not read the config file".to_string()));
    assert_eq!(wrapped.0.kind(), std::io::ErrorKind::NotFound);
}

#[test]
fn error_kind_labels() {
    assert_eq!(boom().kind_label(), "AssertionError");
    let io_err = AlchemistError::IOErrorVariant(ErrorContext(
        std::io::Error::new(std::io::ErrorKind::NotFound, "gone"),
        None,
    ));
    assert_eq!(io_err.kind_label(), "IOError");
}

#[test]
fn classification_is_repeatable() {
    let mut tasks: IndexMap<String, AlchemistTaskType> = IndexMap::new();
    tasks.insert("one".to_string(), sh_task("false").into());
    let config = AlchemistConfig { tasks };

    let classify = || match resolve(&config, "one") {
        Some(AlchemistTaskType::AlchemistBasicTask(t)) => {
            t.classify_outcome("one", ProcessOutcome::Exited(false)).is_err()
        }
        _ => panic!("the task resolves to the basic task that was inserted"),
    };
    assert_eq!(classify(), classify());
}
