use u404shell::action::Action;
use u404shell::script::{parse_line, Interpreter, LineKind};
use u404shell::state::ShellState;

const MISSING: &str = "no/such/entry/anywhere.txt";

/// Runs the lines in order and collects what they print, stopping as a
/// caller does when a line leaves `Exit`.
fn printed(lines: &[&str], shell: &mut ShellState) -> Vec<String> {
    let mut script = Interpreter::new();
    let mut out = Vec::new();
    for text in lines {
        match script.step(text, shell) {
            Action::PrintLine(s) => out.push(s),
            Action::Exit => break,
            _ => {}
        }
    }
    out
}

#[test]
fn lines_are_told_apart() {
    assert_eq!(parse_line("").kind, LineKind::Blank);
    assert_eq!(parse_line("  \t ").kind, LineKind::Blank);
    assert_eq!(parse_line("if is_even 2").kind, LineKind::If);
    assert_eq!(parse_line("  if   is_even   2  ").kind, LineKind::If);
    assert_eq!(parse_line("else").kind, LineKind::Else);
    assert_eq!(parse_line("\telse  ").kind, LineKind::Else);
    assert_eq!(parse_line("endif").kind, LineKind::Endif);
    assert_eq!(parse_line(" endif\r").kind, LineKind::Endif);
    assert_eq!(parse_line("uprint x").kind, LineKind::Command);
}

#[test]
fn near_keywords_are_commands() {
    assert_eq!(parse_line("if").kind, LineKind::Command);
    assert_eq!(parse_line("if ").kind, LineKind::Command);
    assert_eq!(parse_line("if\tis_even 2").kind, LineKind::Command);
    assert_eq!(parse_line("iffy").kind, LineKind::Command);
    assert_eq!(parse_line("else x").kind, LineKind::Command);
    assert_eq!(parse_line("endif x").kind, LineKind::Command);
    assert_eq!(parse_line("ELSE").kind, LineKind::Command);
    assert_eq!(parse_line("elseif").kind, LineKind::Command);
}

#[test]
fn tokens_of_a_line() {
    assert_eq!(parse_line("  if   is_greater  3\t2 ").tokens, vec!["is_greater", "3", "2"]);
    assert_eq!(parse_line("if x").tokens, vec!["x"]);
    assert_eq!(parse_line(" uprint a  b ").tokens, vec!["uprint", "a", "b"]);
    assert_eq!(parse_line("else").tokens, Vec::<&str>::new());
    assert_eq!(parse_line("endif").tokens, Vec::<&str>::new());
    assert_eq!(parse_line("").tokens, Vec::<&str>::new());
    assert_eq!(parse_line("if\tx").tokens, vec!["if", "x"]);
}

#[test]
fn a_new_interpreter_is_enabled() {
    let script = Interpreter::new();
    assert!(script.enabled());
    assert_eq!(script.depth(), 0);
    assert!(!script.halted());
}

#[test]
fn else_branch_runs_when_the_file_is_missing() {
    let mut shell = ShellState::new();
    let lines = [
        "if file_exists no/such/entry/anywhere.txt",
        "uprint A",
        "else",
        "uprint B",
        "endif",
        "uprint C",
    ];
    assert_eq!(printed(&lines, &mut shell), vec!["B", "C"]);
}

#[test]
fn then_branch_runs_when_the_file_exists() {
    let mut shell = ShellState::new();
    let lines = ["if file_exists .", "uprint A", "else", "uprint B", "endif", "uprint C"];
    assert_eq!(printed(&lines, &mut shell), vec!["A", "C"]);
}

#[test]
fn branches_follow_the_answer_given() {
    for found in [true, false] {
        let mut shell = ShellState::new();
        let mut script = Interpreter::new();
        let opening = parse_line("if file_exists data.txt");
        assert_eq!(script.probe_target(&opening, &shell), Some("data.txt"));
        assert_eq!(script.apply(&opening, &mut shell, found), Action::Nothing);
        assert_eq!(script.enabled(), found);
        assert_eq!(script.depth(), 1);
        let first = script.apply(&parse_line("uprint A"), &mut shell, false);
        assert_eq!(first, if found { Action::PrintLine("A".to_string()) } else { Action::Nothing });
        script.apply(&parse_line("else"), &mut shell, false);
        assert_eq!(script.enabled(), !found);
        script.apply(&parse_line("endif"), &mut shell, false);
        assert!(script.enabled());
        assert_eq!(script.depth(), 0);
    }
}

#[test]
fn unbalanced_endif_is_ignored() {
    let mut shell = ShellState::new();
    let mut script = Interpreter::new();
    assert_eq!(script.step("endif", &mut shell), Action::Nothing);
    assert!(script.enabled());
    assert_eq!(script.depth(), 0);
    assert!(!script.halted());
    script.leave_if();
    assert!(script.enabled());
    assert_eq!(script.depth(), 0);
    assert_eq!(script.step("uprint still here", &mut shell), Action::PrintLine("still here".to_string()));
}

#[test]
fn unbalanced_else_is_ignored() {
    let mut shell = ShellState::new();
    let mut script = Interpreter::new();
    assert_eq!(script.step("else", &mut shell), Action::Nothing);
    assert!(script.enabled());
    assert_eq!(script.depth(), 0);
    script.flip_else();
    assert!(script.enabled());
    assert_eq!(printed(&["else", "uprint x", "endif", "uprint y"], &mut shell), vec!["x", "y"]);
}

#[test]
fn blocks_nest() {
    let mut shell = ShellState::new();
    let lines = [
        "if is_even 2",
        "uprint outer",
        "if is_even 3",
        "uprint inner-then",
        "else",
        "uprint inner-else",
        "endif",
        "uprint outer-again",
        "else",
        "uprint never",
        "endif",
        "uprint done",
    ];
    assert_eq!(printed(&lines, &mut shell), vec!["outer", "inner-else", "outer-again", "done"]);
}

#[test]
fn nothing_runs_inside_a_disabled_block() {
    let mut shell = ShellState::new();
    let lines = [
        "if is_even 1",
        "uprint a",
        "if is_even 2",
        "uprint b",
        "else",
        "uprint c",
        "endif",
        "select-file hidden.txt",
        "exit",
        "else",
        "uprint d",
        "endif",
        "uprint e",
    ];
    assert_eq!(printed(&lines, &mut shell), vec!["d", "e"]);
    assert_eq!(shell.selected(), None);
}

#[test]
fn transitions_save_and_restore() {
    let mut script = Interpreter::new();
    script.enter_if(true);
    assert!(script.enabled());
    assert_eq!(script.depth(), 1);
    script.enter_if(false);
    assert!(!script.enabled());
    assert_eq!(script.depth(), 2);
    script.enter_if(true);
    assert!(!script.enabled());
    assert_eq!(script.depth(), 3);
    script.flip_else();
    assert!(!script.enabled());
    script.leave_if();
    assert!(!script.enabled());
    assert_eq!(script.depth(), 2);
    script.flip_else();
    assert!(script.enabled());
    script.flip_else();
    assert!(!script.enabled());
    script.leave_if();
    assert!(script.enabled());
    script.leave_if();
    assert!(script.enabled());
    assert_eq!(script.depth(), 0);
}

#[test]
fn blank_lines_are_skipped() {
    let mut shell = ShellState::new();
    assert_eq!(printed(&["", "   ", "uprint x", "\t", "uprint y"], &mut shell), vec!["x", "y"]);
}

#[test]
fn malformed_conditions_are_false() {
    let mut shell = ShellState::new();
    let lines = ["if bogus 1 2", "uprint then", "else", "uprint else", "endif"];
    assert_eq!(printed(&lines, &mut shell), vec!["else"]);
    let lines = ["if is_greater 1", "uprint then", "else", "uprint else", "endif"];
    assert_eq!(printed(&lines, &mut shell), vec!["else"]);
    let lines = ["if is_even x", "uprint then", "else", "uprint else", "endif"];
    assert_eq!(printed(&lines, &mut shell), vec!["then"]);
}

#[test]
fn exit_ends_the_script() {
    let mut shell = ShellState::new();
    let mut script = Interpreter::new();
    assert_eq!(script.step("uprint before", &mut shell), Action::PrintLine("before".to_string()));
    assert_eq!(script.step("exit", &mut shell), Action::Exit);
    assert!(script.halted());
    for text in ["uprint after", "select-file x.txt", "if is_even 2", "else", "endif", "", "exit"] {
        assert_eq!(script.step(text, &mut shell), Action::Exit, "{:?}", text);
        assert!(script.halted());
        assert_eq!(script.depth(), 0);
    }
    assert_eq!(shell.selected(), None);
    assert_eq!(printed(&["uprint a", "exit", "uprint b", "uprint c"], &mut shell), vec!["a"]);
}

#[test]
fn exit_in_a_skipped_branch_does_not_end_the_script() {
    let mut shell = ShellState::new();
    let lines = ["if is_even 1", "exit", "endif", "uprint alive", "if is_even 2", "exit", "endif", "uprint dead"];
    assert_eq!(printed(&lines, &mut shell), vec!["alive"]);
}

#[test]
fn delete_in_a_script_without_selection() {
    let mut shell = ShellState::new();
    assert_eq!(printed(&["delete"], &mut shell), vec!["No file selected"]);
}

#[test]
fn delete_in_a_script_asks_only_when_it_runs() {
    let mut shell = ShellState::new();
    shell.select("data.txt");
    let mut script = Interpreter::new();
    let delete = parse_line("delete");
    assert_eq!(script.probe_target(&delete, &shell), Some("data.txt"));
    assert_eq!(script.apply(&delete, &mut shell, true), Action::RemoveFile("data.txt".to_string()));
    assert_eq!(
        script.apply(&delete, &mut shell, false),
        Action::PrintLine("data.txt does not exist".to_string())
    );
    script.enter_if(false);
    assert_eq!(script.probe_target(&delete, &shell), None);
    assert_eq!(script.apply(&delete, &mut shell, true), Action::Nothing);
    script.leave_if();
    script.apply(&parse_line("exit"), &mut shell, false);
    assert_eq!(script.probe_target(&delete, &shell), None);
    assert_eq!(script.probe_target(&parse_line("if file_exists a"), &shell), None);
}

#[test]
fn selection_made_in_a_nested_script_persists() {
    let mut shell = ShellState::new();
    let mut outer = Interpreter::new();
    assert_eq!(
        outer.step("execute_script inner.sh", &mut shell),
        Action::RunScript("inner.sh".to_string())
    );
    // The caller runs the nested script on the same session.
    let mut inner = Interpreter::new();
    assert_eq!(
        inner.step("select-file x.txt", &mut shell),
        Action::PrintLine("Selected x.txt".to_string())
    );
    assert_eq!(inner.step("exit", &mut shell), Action::Exit);
    // An `exit` in the nested script ends that script alone.
    assert!(!outer.halted());
    assert_eq!(shell.selected(), Some("x.txt"));
    assert_eq!(outer.step("delete", &mut shell), Action::PrintLine("x.txt does not exist".to_string()));
}

#[test]
fn missing_selection_is_reported_in_a_script() {
    let mut shell = ShellState::new();
    shell.select(MISSING);
    assert_eq!(printed(&["delete"], &mut shell), vec![format!("{} does not exist", MISSING)]);
}

#[test]
fn a_whole_script_read_as_text() {
    let text = "uprint start\r\nif is_greater 3 2\r\n  uprint bigger\r\nelse\r\n  uprint smaller\r\nendif\r\n\r\nselect-file out.txt\r\nexit\r\nuprint never\r\n";
    let mut shell = ShellState::new();
    let lines = u404shell::text::split_lines(text);
    assert_eq!(lines.len(), 10);
    assert_eq!(printed(&lines, &mut shell), vec!["start", "bigger", "Selected out.txt"]);
    assert_eq!(shell.selected(), Some("out.txt"));
}
