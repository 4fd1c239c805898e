use u404shell::action::{prompt, working_dir_failure, Action};
use u404shell::command::{
    clear_screen, command_target, delete_selected, dispatch, help, make_file, make_folder,
    run_command, select_file, uprint,
};
use u404shell::state::ShellState;

fn line(text: &str) -> Action {
    Action::PrintLine(text.to_string())
}

#[test]
fn a_new_session_has_no_selection() {
    assert_eq!(ShellState::new().selected(), None);
}

#[test]
fn select_stores_the_path_without_looking_for_it() {
    let mut state = ShellState::new();
    state.select("no/such/file.txt");
    assert_eq!(state.selected(), Some("no/such/file.txt"));
    state.select("other.txt");
    assert_eq!(state.selected(), Some("other.txt"));
}

#[test]
fn empty_line_does_nothing() {
    let mut state = ShellState::new();
    assert_eq!(run_command("", &mut state), Action::Nothing);
    assert_eq!(run_command("   \t ", &mut state), Action::Nothing);
    assert!(run_command("", &mut state).continues());
    assert_eq!(state.selected(), None);
}

#[test]
fn select_file_stores_and_confirms() {
    let mut state = ShellState::new();
    assert_eq!(run_command("select-file notes.txt", &mut state), line("Selected notes.txt"));
    assert_eq!(state.selected(), Some("notes.txt"));
    assert_eq!(run_command("  select-file   b.txt  ignored", &mut state), line("Selected b.txt"));
    assert_eq!(state.selected(), Some("b.txt"));
    let mut other = ShellState::new();
    assert_eq!(select_file(&mut other, "c.txt"), line("Selected c.txt"));
    assert_eq!(other.selected(), Some("c.txt"));
}

#[test]
fn select_file_without_path_prints_usage() {
    let mut state = ShellState::new();
    state.select("kept.txt");
    assert_eq!(run_command("select-file", &mut state), line("Usage: select-file <file>"));
    assert_eq!(state.selected(), Some("kept.txt"));
}

#[test]
fn delete_without_selection_only_reports() {
    let mut state = ShellState::new();
    assert_eq!(run_command("delete", &mut state), line("No file selected"));
    assert_eq!(state.selected(), None);
    assert_eq!(delete_selected(&state, true), line("No file selected"));
    assert_eq!(delete_selected(&state, false), line("No file selected"));
    assert_eq!(dispatch(&["delete"], &mut state, true), line("No file selected"));
}

#[test]
fn delete_removes_what_exists_and_reports_what_does_not() {
    let mut state = ShellState::new();
    state.select("foo.txt");
    assert_eq!(delete_selected(&state, true), Action::RemoveFile("foo.txt".to_string()));
    assert_eq!(delete_selected(&state, false), line("foo.txt does not exist"));
    assert_eq!(dispatch(&["delete"], &mut state, true), Action::RemoveFile("foo.txt".to_string()));
    assert_eq!(dispatch(&["delete"], &mut state, false), line("foo.txt does not exist"));
    assert_eq!(state.selected(), Some("foo.txt"));
}

#[test]
fn delete_asks_the_file_system() {
    let mut state = ShellState::new();
    state.select("no/such/entry/anywhere.txt");
    assert_eq!(run_command("delete", &mut state), line("no/such/entry/anywhere.txt does not exist"));
    state.select(".");
    assert_eq!(run_command("delete", &mut state), Action::RemoveFile(".".to_string()));
}

#[test]
fn only_delete_with_a_selection_has_a_target() {
    let mut state = ShellState::new();
    assert_eq!(command_target(&["delete"], &state), None);
    state.select("a.txt");
    assert_eq!(command_target(&["delete"], &state), Some("a.txt"));
    assert_eq!(command_target(&["delete", "b.txt"], &state), Some("a.txt"));
    assert_eq!(command_target(&["makefile", "a.txt"], &state), None);
    assert_eq!(command_target(&[], &state), None);
}

#[test]
fn makefile_asks_for_a_file() {
    let mut state = ShellState::new();
    assert_eq!(run_command("makefile foo.txt", &mut state), Action::CreateFile("foo.txt".to_string()));
    assert_eq!(run_command("makefile", &mut state), line("Usage: makefile <file>"));
    assert_eq!(make_file("bar.txt"), Action::CreateFile("bar.txt".to_string()));
}

#[test]
fn makefolder_asks_for_a_directory() {
    let mut state = ShellState::new();
    assert_eq!(run_command("makefolder a/b/c", &mut state), Action::CreateDir("a/b/c".to_string()));
    assert_eq!(run_command("makefolder", &mut state), line("Usage: makefolder <folder>"));
    assert_eq!(make_folder("d"), Action::CreateDir("d".to_string()));
}

#[test]
fn listing_and_working_directory() {
    let mut state = ShellState::new();
    assert_eq!(run_command("ls", &mut state), Action::ListDir);
    assert_eq!(run_command("ls -l", &mut state), Action::ListDir);
    assert_eq!(run_command("pwd", &mut state), Action::PrintWorkingDir);
}

#[test]
fn clear_emits_the_control_sequence() {
    let mut state = ShellState::new();
    assert_eq!(run_command("clear", &mut state), Action::Print("\u{1b}[2J\u{1b}[H".to_string()));
    assert_eq!(clear_screen(), Action::Print("\u{1b}[2J\u{1b}[H".to_string()));
}

#[test]
fn uprint_joins_with_single_spaces() {
    let mut state = ShellState::new();
    assert_eq!(run_command("uprint hello   world", &mut state), line("hello world"));
    assert_eq!(run_command("uprint A", &mut state), line("A"));
    assert_eq!(run_command("  uprint \t a  b\tc  ", &mut state), line("a b c"));
    assert_eq!(uprint(&["x", "y", "z"]), line("x y z"));
    assert_eq!(uprint(&["x"]), line("x"));
}

#[test]
fn uprint_without_words_prints_an_empty_line() {
    let mut state = ShellState::new();
    assert_eq!(run_command("uprint", &mut state), line(""));
    assert_eq!(uprint(&[]), line(""));
}

#[test]
fn execute_script_asks_for_the_script() {
    let mut state = ShellState::new();
    assert_eq!(
        run_command("execute_script setup.sh", &mut state),
        Action::RunScript("setup.sh".to_string())
    );
    assert_eq!(run_command("execute_script", &mut state), line("Usage: execute_script <file>"));
}

#[test]
fn help_lists_the_commands() {
    let mut state = ShellState::new();
    let expected = [
        "Available commands:",
        "  select-file <file>",
        "  delete",
        "  makefile <file>",
        "  makefolder <folder>",
        "  ls",
        "  pwd",
        "  clear",
        "  uprint <message>",
        "  execute_script <file>",
        "  help",
        "  exit",
    ]
    .join("\n");
    assert_eq!(run_command("help", &mut state), Action::PrintLine(expected.clone()));
    assert_eq!(help(), Action::PrintLine(expected));
}

#[test]
fn exit_stops_the_session() {
    let mut state = ShellState::new();
    let action = run_command("exit", &mut state);
    assert_eq!(action, Action::Exit);
    assert!(!action.continues());
    assert_eq!(run_command(" exit now ", &mut state), Action::Exit);
}

#[test]
fn every_other_action_continues() {
    let mut state = ShellState::new();
    for text in ["", "ls", "pwd", "help", "clear", "uprint x", "bogus", "delete", "makefile a"] {
        assert!(run_command(text, &mut state).continues(), "{:?}", text);
    }
}

#[test]
fn unknown_command_is_reported() {
    let mut state = ShellState::new();
    assert_eq!(run_command("frobnicate now", &mut state), line("Unknown command: frobnicate"));
    assert_eq!(run_command("EXIT", &mut state), line("Unknown command: EXIT"));
    assert_eq!(run_command("if", &mut state), line("Unknown command: if"));
    assert!(run_command("frobnicate", &mut state).continues());
    assert_eq!(state.selected(), None);
}

#[test]
fn confirmations_follow_the_file_system_actions() {
    assert_eq!(
        Action::RemoveFile("foo.txt".to_string()).confirmation(),
        Some("Deleted foo.txt".to_string())
    );
    assert_eq!(
        Action::CreateFile("foo.txt".to_string()).confirmation(),
        Some("Created foo.txt".to_string())
    );
    assert_eq!(
        Action::CreateDir("a/b".to_string()).confirmation(),
        Some("Created directory a/b".to_string())
    );
    assert_eq!(Action::ListDir.confirmation(), None);
    assert_eq!(Action::Exit.confirmation(), None);
    assert_eq!(Action::PrintLine("x".to_string()).confirmation(), None);
    assert_eq!(Action::RunScript("s".to_string()).confirmation(), None);
}

#[test]
fn working_directory_failure_is_reported() {
    assert_eq!(working_dir_failure("permission denied"), "pwd: permission denied");
}

#[test]
fn make_select_delete_and_delete_again() {
    let mut state = ShellState::new();
    let tokens = |text: &'static str| -> Vec<&'static str> { text.split_whitespace().collect() };
    let made = dispatch(&tokens("makefile foo.txt"), &mut state, false);
    assert_eq!(made, Action::CreateFile("foo.txt".to_string()));
    assert_eq!(made.confirmation(), Some("Created foo.txt".to_string()));
    let selected = dispatch(&tokens("select-file foo.txt"), &mut state, false);
    assert_eq!(selected, line("Selected foo.txt"));
    // The file is there: it is to be removed, and the removal confirmed.
    let deleted = dispatch(&tokens("delete"), &mut state, true);
    assert_eq!(deleted, Action::RemoveFile("foo.txt".to_string()));
    assert_eq!(deleted.confirmation(), Some("Deleted foo.txt".to_string()));
    // It is gone: a second `delete` reports so and asks for nothing else.
    let again = dispatch(&tokens("delete"), &mut state, false);
    assert_eq!(again, line("foo.txt does not exist"));
    assert!(again.continues());
    assert_eq!(state.selected(), Some("foo.txt"));
}

#[test]
fn prompt_is_written_without_line_break() {
    assert_eq!(prompt(), Action::Print("> ".to_string()));
    assert!(prompt().continues());
}
