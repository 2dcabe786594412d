use alchemist::config::{resolve, AlchemistConfig};
use alchemist::interface::{
    assert_only_ansi_colors, describe_all, extract_ansi_escapes, grapheme_length,
    grapheme_length_colored, grapheme_length_colored_checked, graphemes_in_range_safe,
    next_batch_action, BatchAction,
};
use alchemist::tasks::{AlchemistBasicTask, AlchemistShellTask, AlchemistTaskType};
use indexmap::IndexMap;
use owo_colors::OwoColorize;

const S: &str = "😀🥹🤣😇";

fn basic_task_named(script: &str) -> AlchemistTaskType {
    AlchemistTaskType::AlchemistBasicTask(AlchemistBasicTask {
        command: "sh".to_string(),
        args: Some(vec!["-c".to_string(), script.to_string()]),
        env: None,
        hide: None,
    })
}

#[test]
fn test_graphemes_in_range_safe() {
    // Test length.
    assert_eq!(grapheme_length(S), 4);
    assert_eq!(S.len(), 16);

    // Test happy-path cases.
    assert_eq!(graphemes_in_range_safe(S, None, None), "😀🥹🤣😇");
    assert_eq!(graphemes_in_range_safe(S, Some(0), Some(5)), "😀🥹🤣😇");
    assert_eq!(graphemes_in_range_safe(S, Some(1), Some(4)), "🥹🤣😇");
    assert_eq!(graphemes_in_range_safe(S, Some(1), Some(3)), "🥹🤣");
    assert_eq!(graphemes_in_range_safe(S, Some(1), Some(2)), "🥹");
    assert_eq!(graphemes_in_range_safe(S, Some(1), Some(1)), "");
    assert_eq!(graphemes_in_range_safe(S, Some(0), Some(0)), "");
    assert_eq!(graphemes_in_range_safe(S, None, Some(2)), "😀🥹");
    assert_eq!(graphemes_in_range_safe(S, Some(2), None), "🤣😇");

    // Test safety (out of bounds, wrong indices).
    assert_eq!(graphemes_in_range_safe(S, Some(10), None), "");
    assert_eq!(graphemes_in_range_safe(S, Some(3), Some(2)), "");
    assert_eq!(graphemes_in_range_safe(S, Some(10), Some(5)), "");
    assert_eq!(graphemes_in_range_safe(S, Some(0), Some(10)), "😀🥹🤣😇");
    assert_eq!(graphemes_in_range_safe(S, Some(10), Some(20)), "");
}

#[test]
fn test_grapheme_length_colored() {
    assert_eq!(grapheme_length_colored(S), 4, "grapheme length");
    assert_eq!("a".red().to_string().len(), 11, "colored string length");
    assert_eq!(grapheme_length_colored(&"a".red().to_string()), 1, "ONE");
    assert_eq!(grapheme_length_colored(&"a".green().to_string()), 1);
    assert_eq!(grapheme_length_colored(&"ab".blue().to_string()), 2);
}

#[test]
fn extract_ansi_escapes_finds_color_codes() {
    let colored = "a".red().to_string();
    let escapes = extract_ansi_escapes(&colored);
    assert_eq!(escapes.len(), 2);
    assert_eq!(escapes[0].fullmatch, "\x1b[31m");
    assert_eq!(escapes[0].params, "31");
    assert_eq!(escapes[0].code, 'm');
    assert_eq!(escapes[1].params, "39");
    assert_eq!(escapes[1].code, 'm');
    assert!(extract_ansi_escapes("plain text").is_empty());
}

#[test]
fn only_color_escapes_are_accepted() {
    assert!(assert_only_ansi_colors("plain"));
    assert!(assert_only_ansi_colors(&"x".blue().to_string()));
    // A cursor-up escape is not a colour escape.
    assert!(!assert_only_ansi_colors("\x1b[2Aup"));
    assert_eq!(grapheme_length_colored_checked("\x1b[2Aup"), None);
    assert_eq!(grapheme_length_colored_checked(&"ab".blue().to_string()), Some(2));
}

#[test]
fn batch_actions_follow_the_request_order() {
    let mut tasks: IndexMap<String, AlchemistTaskType> = IndexMap::new();
    tasks.insert("one".to_string(), basic_task_named("true"));
    let config = AlchemistConfig { tasks };
    let commands = vec!["one".to_string(), "ghost".to_string()];

    match next_batch_action(&commands, 0, Ok(()), &config) {
        BatchAction::RunTask(name) => assert_eq!(name, "one"),
        _ => panic!("expected the first requested task to run"),
    }
    match next_batch_action(&commands, 1, Ok(()), &config) {
        BatchAction::SkipMissing(name) => assert_eq!(name, "ghost"),
        _ => panic!("an unknown name is only warned about"),
    }
    assert!(matches!(next_batch_action(&commands, 2, Ok(()), &config), BatchAction::Finished));
}

#[test]
fn batch_aborts_on_a_failed_task() {
    let config = AlchemistConfig { tasks: IndexMap::new() };
    let commands = vec!["one".to_string(), "two".to_string()];
    let failure = alchemist::tasks::aggregate_parallel_results(&vec![Err(
        alchemist::error::AlchemistError::AssertionErrorVariant(alchemist::error::ErrorContext(
            alchemist::error::AssertionError("boom".to_string()),
            None,
        )),
    )])
    .unwrap_err();
    match next_batch_action(&commands, 1, Err(failure), &config) {
        BatchAction::Abort(_) => {}
        _ => panic!("a failure aborts the remaining requested names"),
    }
}

#[test]
fn listing_keeps_registry_order_and_hides_hidden_tasks() {
    let mut tasks: IndexMap<String, AlchemistTaskType> = IndexMap::new();
    tasks.insert(
        "build".to_string(),
        AlchemistTaskType::AlchemistBasicTask(AlchemistBasicTask {
            command: "make".to_string(),
            args: None,
            env: None,
            hide: None,
        }),
    );
    tasks.insert(
        "secret".to_string(),
        AlchemistTaskType::AlchemistShellTask(AlchemistShellTask {
            shell_script: "id".to_string(),
            hide: Some(true),
        }),
    );
    tasks.insert(
        "test".to_string(),
        AlchemistTaskType::AlchemistShellTask(AlchemistShellTask {
            shell_script: "cargo test".to_string(),
            hide: None,
        }),
    );
    let config = AlchemistConfig { tasks };

    let shown = describe_all(&config, false);
    assert_eq!(shown.len(), 2);
    assert_eq!(shown[0].0, "build");
    assert_eq!(shown[0].1, "make ");
    assert_eq!(shown[1].0, "test");
    assert_eq!(shown[1].1, "Shell: \ncargo test\n");

    let all = describe_all(&config, true);
    assert_eq!(all.len(), 3);
    assert_eq!(all[1].0, "secret");
}

#[test]
fn resolution_is_idempotent() {
    let mut tasks: IndexMap<String, AlchemistTaskType> = IndexMap::new();
    tasks.insert("one".to_string(), basic_task_named("true"));
    let config = AlchemistConfig { tasks };

    let first = resolve(&config, "one").is_some();
    let second = resolve(&config, "one").is_some();
    assert_eq!(first, second);
    assert!(first);
    assert!(resolve(&config, "ghost").is_none());
    assert!(resolve(&config, "ghost").is_none());
}
