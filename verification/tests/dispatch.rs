use devver_cli::shared::{AppState, CommandHandler, SharedLogic};

fn words(list: &[&str]) -> Vec<String> {
    list.iter().map(|w| w.to_string()).collect()
}

#[test]
fn hello_greets_the_world_without_a_name() {
    let mut logic = SharedLogic::new();
    assert_eq!(logic.dispatch("hello"), Some("Hello, World!".to_string()));
}

#[test]
fn hello_greets_the_given_name() {
    let mut logic = SharedLogic::new();
    assert_eq!(logic.dispatch("hello Ada"), Some("Hello, Ada!".to_string()));
}

#[test]
fn hello_greets_the_first_name_only() {
    let mut logic = SharedLogic::new();
    assert_eq!(logic.dispatch("hello Ada Lovelace"), Some("Hello, Ada!".to_string()));
}

#[test]
fn count_counts_up_within_a_session() {
    let mut logic = SharedLogic::new();
    assert_eq!(logic.dispatch("count"), Some("Counter is now: 1".to_string()));
    assert_eq!(logic.dispatch("count"), Some("Counter is now: 2".to_string()));
    assert_eq!(logic.state.counter, 2);
}

#[test]
fn count_saturates_at_the_largest_value() {
    let mut logic = SharedLogic::new();
    logic.state.counter = u32::MAX - 1;
    assert_eq!(logic.dispatch("count"), Some("Counter is now: 4294967295".to_string()));
    assert_eq!(logic.dispatch("count"), Some("Counter is now: 4294967295".to_string()));
    assert_eq!(logic.state.counter, u32::MAX);
}

#[test]
fn count_ignores_its_arguments() {
    let mut logic = SharedLogic::new();
    assert_eq!(logic.dispatch("count 5"), Some("Counter is now: 1".to_string()));
}

#[test]
fn echo_without_words_says_empty() {
    let mut logic = SharedLogic::new();
    assert_eq!(logic.dispatch("echo"), Some("(empty)".to_string()));
}

#[test]
fn echo_joins_its_words() {
    let mut logic = SharedLogic::new();
    assert_eq!(logic.dispatch("echo a b c"), Some("a b c".to_string()));
}

#[test]
fn echo_loses_the_width_of_whitespace() {
    let mut logic = SharedLogic::new();
    assert_eq!(logic.dispatch("  echo   a \t b\n"), Some("a b".to_string()));
}

#[test]
fn echo_splits_on_unicode_whitespace() {
    let mut logic = SharedLogic::new();
    assert_eq!(logic.dispatch("echo\u{3000}a\u{a0}b\u{2003}c"), Some("a b c".to_string()));
}

#[test]
fn help_lists_the_commands() {
    let mut logic = SharedLogic::new();
    assert_eq!(
        logic.dispatch("help"),
        Some("Available commands: hello [name], count, echo <text>, help".to_string())
    );
}

#[test]
fn unknown_command_is_named_verbatim() {
    let mut logic = SharedLogic::new();
    assert_eq!(
        logic.dispatch("frobnicate now"),
        Some("Unknown command: 'frobnicate'. Type 'help' for available commands.".to_string())
    );
    assert_eq!(logic.state.counter, 0);
}

#[test]
fn command_names_are_case_sensitive() {
    let mut logic = SharedLogic::new();
    assert_eq!(
        logic.dispatch("Hello Ada"),
        Some("Unknown command: 'Hello'. Type 'help' for available commands.".to_string())
    );
    assert_eq!(
        logic.dispatch("COUNT"),
        Some("Unknown command: 'COUNT'. Type 'help' for available commands.".to_string())
    );
    assert_eq!(logic.state.counter, 0);
}

#[test]
fn blank_lines_dispatch_nothing() {
    let mut logic = SharedLogic::new();
    assert_eq!(logic.dispatch(""), None);
    assert_eq!(logic.dispatch("   \t\n"), None);
    assert_eq!(logic.state.counter, 0);
}

#[test]
fn only_count_changes_the_state() {
    let mut logic = SharedLogic::new();
    logic.dispatch("count");
    logic.dispatch("hello");
    logic.dispatch("echo x");
    logic.dispatch("help");
    logic.dispatch("nope");
    assert_eq!(logic.state.counter, 1);
}

#[test]
fn handle_command_takes_name_and_arguments() {
    let mut logic = SharedLogic::new();
    assert_eq!(logic.handle_command("echo", words(&["a", "b"])), "a b");
    assert_eq!(logic.handle_command("hello", words(&["Ada", "x"])), "Hello, Ada!");
    assert_eq!(logic.handle_command("hello", words(&[])), "Hello, World!");
    assert_eq!(logic.handle_command("count", words(&[])), "Counter is now: 1");
}

#[test]
fn handle_command_matches_names_exactly() {
    let mut logic = SharedLogic::new();
    assert_eq!(
        logic.handle_command("", words(&[])),
        "Unknown command: ''. Type 'help' for available commands."
    );
    assert_eq!(
        logic.handle_command("echo ", words(&["a"])),
        "Unknown command: 'echo '. Type 'help' for available commands."
    );
}

#[test]
fn process_hello_formats_the_greeting() {
    let logic = SharedLogic::new();
    assert_eq!(logic.process_hello(Some("Grace")), "Hello, Grace!");
    assert_eq!(logic.process_hello(Some("")), "Hello, !");
    assert_eq!(logic.process_hello(None), "Hello, World!");
}

#[test]
fn process_count_reports_the_new_value() {
    let mut logic = SharedLogic::new();
    logic.state.counter = 9;
    assert_eq!(logic.process_count(), "Counter is now: 10");
    assert_eq!(logic.state.counter, 10);
}

#[test]
fn process_echo_keeps_each_argument_whole() {
    let logic = SharedLogic::new();
    assert_eq!(logic.process_echo(&words(&["a b", "", "c"])), "a b  c");
    assert_eq!(logic.process_echo(&words(&["solo"])), "solo");
    assert_eq!(logic.process_echo(&[]), "(empty)");
}

#[test]
fn app_state_starts_at_zero_and_increments() {
    let mut state = AppState::new();
    assert_eq!(state.counter, 0);
    state.increment();
    state.increment();
    assert_eq!(state.counter, 2);
    assert_eq!(AppState::default().counter, 0);
    assert_eq!(SharedLogic::default().state.counter, 0);
}

#[test]
fn app_state_increment_saturates() {
    let mut state = AppState { counter: u32::MAX };
    state.increment();
    assert_eq!(state.counter, u32::MAX);
}
