//! The command table: from a line to the action it asks for.
//!
//! The first token of a line names the command and the tokens after it are
//! its arguments. A line never fails: a missing argument yields the usage
//! line of the command, an unknown name yields a line that says so.

use vstd::prelude::*;
use vstd::slice::slice_subrange;
use crate::action::{Action, ActionView};
use crate::disk::path_exists;
use crate::state::ShellState;
use crate::text::{same_text, texts};
use crate::tokens::{tokenize, tokens_of};

verus! {

/// The words, with one space between each two.
pub open spec fn joined(words: Seq<Seq<char>>) -> Seq<char>
    decreases words.len(),
{
    if words.len() == 0 {
        Seq::empty()
    } else if words.len() == 1 {
        words[0]
    } else {
        joined(words.drop_last()) + seq![' '] + words.last()
    }
}

/// The list of commands that `help` prints.
pub open spec fn help_text() -> Seq<char> {
    "Available commands:\n  select-file <file>\n  delete\n  makefile <file>\n  makefolder <folder>\n  ls\n  pwd\n  clear\n  uprint <message>\n  execute_script <file>\n  help\n  exit"@
}

/// The control sequence that clears the terminal and moves the cursor home.
pub open spec fn clear_sequence() -> Seq<char> {
    "\x1B[2J\x1B[H"@
}

/// What `delete` asks for: a report where nothing is selected or nothing is
/// found at the selected path, else the removal of that path.
pub open spec fn deletion(selection: Option<Seq<char>>, found: bool) -> ActionView {
    match selection {
        None => ActionView::PrintLine("No file selected"@),
        Some(path) => if found {
            ActionView::RemoveFile(path)
        } else {
            ActionView::PrintLine(path + " does not exist"@)
        },
    }
}

/// The action that a tokenized line asks for, in a session with the given
/// selection, where `found` says whether something exists at the path the
/// command asks about.
pub open spec fn command_action(
    tokens: Seq<Seq<char>>,
    selection: Option<Seq<char>>,
    found: bool,
) -> ActionView {
    if tokens.len() == 0 {
        ActionView::Nothing
    } else if tokens[0] == "select-file"@ {
        if tokens.len() >= 2 {
            ActionView::PrintLine("Selected "@ + tokens[1])
        } else {
            ActionView::PrintLine("Usage: select-file <file>"@)
        }
    } else if tokens[0] == "delete"@ {
        deletion(selection, found)
    } else if tokens[0] == "makefile"@ {
        if tokens.len() >= 2 {
            ActionView::CreateFile(tokens[1])
        } else {
            ActionView::PrintLine("Usage: makefile <file>"@)
        }
    } else if tokens[0] == "makefolder"@ {
        if tokens.len() >= 2 {
            ActionView::CreateDir(tokens[1])
        } else {
            ActionView::PrintLine("Usage: makefolder <folder>"@)
        }
    } else if tokens[0] == "ls"@ {
        ActionView::ListDir
    } else if tokens[0] == "pwd"@ {
        ActionView::PrintWorkingDir
    } else if tokens[0] == "clear"@ {
        ActionView::Print(clear_sequence())
    } else if tokens[0] == "uprint"@ {
        ActionView::PrintLine(joined(tokens.skip(1)))
    } else if tokens[0] == "execute_script"@ {
        if tokens.len() >= 2 {
            ActionView::RunScript(tokens[1])
        } else {
            ActionView::PrintLine("Usage: execute_script <file>"@)
        }
    } else if tokens[0] == "help"@ {
        ActionView::PrintLine(help_text())
    } else if tokens[0] == "exit"@ {
        ActionView::Exit
    } else {
        ActionView::PrintLine("Unknown command: "@ + tokens[0])
    }
}

/// The selection after a tokenized line: the argument of `select-file`
/// where the line is one with an argument, else the selection as it was.
pub open spec fn selection_after(tokens: Seq<Seq<char>>, selection: Option<Seq<char>>) -> Option<
    Seq<char>,
> {
    if tokens.len() >= 2 && tokens[0] == "select-file"@ {
        Some(tokens[1])
    } else {
        selection
    }
}

/// The path that a tokenized line asks the file system about: the selected
/// path, for `delete`.
pub open spec fn command_probe(tokens: Seq<Seq<char>>, selection: Option<Seq<char>>) -> Option<
    Seq<char>,
> {
    if tokens.len() >= 1 && tokens[0] == "delete"@ {
        selection
    } else {
        None
    }
}

/// `delete` in a session without a selection asks nothing of the file
/// system, whose answer makes no difference: the line leaves the report
/// that no file is selected, and no file is selected after it.
pub proof fn lemma_delete_without_selection(tokens: Seq<Seq<char>>, found: bool)
    requires
        tokens.len() > 0,
        tokens[0] == "delete"@,
    ensures
        command_probe(tokens, None) is None,
        command_action(tokens, None, found) == ActionView::PrintLine("No file selected"@),
        selection_after(tokens, None) is None,
{
    reveal_strlit("delete");
    reveal_strlit("select-file");
    assert("delete"@.len() == 6);
    assert("select-file"@.len() == 11);
}

/// A line whose first token is `exit` leaves `Exit`, whatever follows the
/// token and whatever is selected.
pub proof fn lemma_exit_leaves_exit(
    tokens: Seq<Seq<char>>,
    selection: Option<Seq<char>>,
    found: bool,
)
    requires
        tokens.len() > 0,
        tokens[0] == "exit"@,
    ensures
        command_action(tokens, selection, found) == ActionView::Exit,
        selection_after(tokens, selection) == selection,
        command_probe(tokens, selection) is None,
{
    reveal_strlit("exit");
    reveal_strlit("select-file");
    reveal_strlit("delete");
    reveal_strlit("makefile");
    reveal_strlit("makefolder");
    reveal_strlit("ls");
    reveal_strlit("pwd");
    reveal_strlit("clear");
    reveal_strlit("uprint");
    reveal_strlit("execute_script");
    reveal_strlit("help");
    let exit = "exit"@;
    assert(exit.len() == 4 && exit[0] == 'e');
    assert("select-file"@.len() == 11);
    assert("delete"@.len() == 6);
    assert("makefile"@.len() == 8);
    assert("makefolder"@.len() == 10);
    assert("ls"@.len() == 2);
    assert("pwd"@.len() == 3);
    assert("clear"@.len() == 5);
    assert("uprint"@.len() == 6);
    assert("execute_script"@.len() == 14);
    assert("help"@[0] == 'h');
}

/// Selects `file` and confirms it.
pub fn select_file(state: &mut ShellState, file: &str) -> (action: Action)
    ensures
        final(state).selection() == Some(file@),
        action@ == ActionView::PrintLine("Selected "@ + file@),
{
    state.select(file);
    Action::PrintLine("Selected ".to_owned().concat(file))
}

/// What is to be done about the selected file, where `found` says whether
/// it exists.
pub fn delete_selected(state: &ShellState, found: bool) -> (action: Action)
    ensures
        action@ == deletion(state.selection(), found),
{
    match state.selected() {
        None => Action::PrintLine("No file selected".to_owned()),
        Some(path) => {
            if found {
                Action::RemoveFile(path.to_owned())
            } else {
                Action::PrintLine(path.to_owned().concat(" does not exist"))
            }
        },
    }
}

/// Asks for an empty file named `name`.
pub fn make_file(name: &str) -> (action: Action)
    ensures
        action@ == ActionView::CreateFile(name@),
{
    Action::CreateFile(name.to_owned())
}

/// Asks for a directory named `name`.
pub fn make_folder(name: &str) -> (action: Action)
    ensures
        action@ == ActionView::CreateDir(name@),
{
    Action::CreateDir(name.to_owned())
}

/// Asks for the terminal to be cleared.
pub fn clear_screen() -> (action: Action)
    ensures
        action@ == ActionView::Print(clear_sequence()),
{
    Action::Print("\x1B[2J\x1B[H".to_owned())
}

/// Asks for a line that holds `args` with one space between each two.
pub fn uprint(args: &[&str]) -> (action: Action)
    ensures
        action@ == ActionView::PrintLine(joined(texts(args@))),
{
    let mut line = String::new();
    let mut i: usize = 0;
    while i < args.len()
        invariant
            i <= args@.len(),
            line@ == joined(texts(args@).take(i as int)),
        decreases args@.len() - i,
    {
        proof {
            reveal_strlit(" ");
            assert(" "@ =~= seq![' ']);
            let upto = texts(args@).take(i + 1);
            assert(upto.drop_last() =~= texts(args@).take(i as int));
            assert(upto.last() == args@[i as int]@);
        }
        if i > 0 {
            line.append(" ");
        }
        line.append(args[i]);
        i += 1;
    }
    assert(texts(args@).take(i as int) =~= texts(args@));
    Action::PrintLine(line)
}

/// Asks for the list of commands.
pub fn help() -> (action: Action)
    ensures
        action@ == ActionView::PrintLine(help_text()),
{
    Action::PrintLine(
        "Available commands:\n  select-file <file>\n  delete\n  makefile <file>\n  makefolder <folder>\n  ls\n  pwd\n  clear\n  uprint <message>\n  execute_script <file>\n  help\n  exit".to_owned(),
    )
}

/// The path that the command in `tokens` asks the file system about.
pub fn command_target<'a>(tokens: &[&str], state: &'a ShellState) -> (path: Option<&'a str>)
    ensures
        match path {
            Some(p) => command_probe(texts(tokens@), state.selection()) == Some(p@),
            None => command_probe(texts(tokens@), state.selection()) is None,
        },
{
    if tokens.len() >= 1 && same_text(tokens[0], "delete") {
        state.selected()
    } else {
        None
    }
}

/// Carries out the command in `tokens` as far as the session goes and
/// returns what is left to do, given the answer of the file system.
pub fn dispatch(tokens: &[&str], state: &mut ShellState, found: bool) -> (action: Action)
    ensures
        action@ == command_action(texts(tokens@), old(state).selection(), found),
        final(state).selection() == selection_after(texts(tokens@), old(state).selection()),
{
    if tokens.len() == 0 {
        return Action::Nothing;
    }
    let name = tokens[0];
    if same_text(name, "select-file") {
        if tokens.len() >= 2 {
            select_file(state, tokens[1])
        } else {
            Action::PrintLine("Usage: select-file <file>".to_owned())
        }
    } else if same_text(name, "delete") {
        delete_selected(state, found)
    } else if same_text(name, "makefile") {
        if tokens.len() >= 2 {
            make_file(tokens[1])
        } else {
            Action::PrintLine("Usage: makefile <file>".to_owned())
        }
    } else if same_text(name, "makefolder") {
        if tokens.len() >= 2 {
            make_folder(tokens[1])
        } else {
            Action::PrintLine("Usage: makefolder <folder>".to_owned())
        }
    } else if same_text(name, "ls") {
        Action::ListDir
    } else if same_text(name, "pwd") {
        Action::PrintWorkingDir
    } else if same_text(name, "clear") {
        clear_screen()
    } else if same_text(name, "uprint") {
        let args = slice_subrange(tokens, 1, tokens.len());
        assert(texts(args@) =~= texts(tokens@).skip(1));
        uprint(args)
    } else if same_text(name, "execute_script") {
        if tokens.len() >= 2 {
            Action::RunScript(tokens[1].to_owned())
        } else {
            Action::PrintLine("Usage: execute_script <file>".to_owned())
        }
    } else if same_text(name, "help") {
        help()
    } else if same_text(name, "exit") {
        Action::Exit
    } else {
        Action::PrintLine("Unknown command: ".to_owned().concat(name))
    }
}

/// Runs one line of input: carries it out as far as the session goes, and
/// returns what is left to do.
///
/// Only `delete` on a selected path asks the file system, and the action is
/// then the one that [`dispatch`] gives for the answer that came.
pub fn run_command(line: &str, state: &mut ShellState) -> (action: Action)
    ensures
        final(state).selection() == selection_after(tokens_of(line@), old(state).selection()),
        command_probe(tokens_of(line@), old(state).selection()) is None ==> action@
            == command_action(tokens_of(line@), old(state).selection(), false),
        command_probe(tokens_of(line@), old(state).selection()) is Some ==> (action@
            == command_action(tokens_of(line@), old(state).selection(), true) || action@
            == command_action(tokens_of(line@), old(state).selection(), false)),
{
    let tokens = tokenize(line);
    let found = match command_target(tokens.as_slice(), state) {
        Some(path) => path_exists(path),
        None => false,
    };
    dispatch(tokens.as_slice(), state, found)
}

} // verus!
