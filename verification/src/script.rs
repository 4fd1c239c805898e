//! The script interpreter: which lines of a script run.
//!
//! A script is read line by line. `if <condition>` opens a block, `else`
//! switches to its other branch and `endif` closes it; blocks nest. Every
//! other line is a command, and runs only while the line is enabled: while
//! the branch it stands in was chosen and every enclosing block is enabled
//! too. An `else` or an `endif` without an open block is ignored. Once an
//! `exit` has run, the script is over and no further line has any effect.

use vstd::prelude::*;
use crate::action::{Action, ActionView};
use crate::command::{command_action, command_probe, command_target, dispatch,
    lemma_exit_leaves_exit, selection_after};
use crate::condition::{condition_probe, condition_value, evaluate_with, probe_target};
use crate::disk::path_exists;
use crate::state::ShellState;
use crate::text::{same_text, texts, trim, trimmed};
use crate::tokens::{lemma_first_token_leads, lemma_tokens_of_trimmed, tokenize, tokens_of};

verus! {

/// What a line of a script is.
#[derive(Debug, Clone, Copy, PartialEq, Eq, Structural)]
pub enum LineKind {
    /// Nothing but white space.
    Blank,
    /// `if`, a space and a condition.
    If,
    /// The word `else` alone.
    Else,
    /// The word `endif` alone.
    Endif,
    /// Anything else: a command for the dispatcher.
    Command,
}

/// Whether a trimmed line begins with `if` and a space.
pub open spec fn opens_block(text: Seq<char>) -> bool {
    text.len() >= 3 && text[0] == 'i' && text[1] == 'f' && text[2] == ' '
}

/// The kind of a line, which is decided on the line without the white space
/// around it.
pub open spec fn line_kind(line: Seq<char>) -> LineKind {
    let text = trimmed(line);
    if text.len() == 0 {
        LineKind::Blank
    } else if opens_block(text) {
        LineKind::If
    } else if text == "else"@ {
        LineKind::Else
    } else if text == "endif"@ {
        LineKind::Endif
    } else {
        LineKind::Command
    }
}

/// The tokens that matter on a line: those of the condition after `if`,
/// those of a command, and none on any other line.
pub open spec fn line_tokens(line: Seq<char>) -> Seq<Seq<char>> {
    match line_kind(line) {
        LineKind::If => tokens_of(trimmed(line).skip(3)),
        LineKind::Command => tokens_of(trimmed(line)),
        _ => Seq::empty(),
    }
}

/// A line of a script, taken apart.
pub struct ScriptLine<'a> {
    /// What the line is.
    pub kind: LineKind,
    /// The tokens of its condition or command.
    pub tokens: Vec<&'a str>,
}

/// Takes a line of a script apart.
pub fn parse_line<'a>(line: &'a str) -> (parsed: ScriptLine<'a>)
    ensures
        parsed.kind == line_kind(line@),
        texts(parsed.tokens@) == line_tokens(line@),
{
    let text = trim(line);
    let n = text.unicode_len();
    if n == 0 {
        let parsed = ScriptLine { kind: LineKind::Blank, tokens: Vec::new() };
        assert(texts(parsed.tokens@) =~= Seq::<Seq<char>>::empty());
        parsed
    } else if n >= 3 && text.get_char(0) == 'i' && text.get_char(1) == 'f' && text.get_char(2)
        == ' ' {
        ScriptLine { kind: LineKind::If, tokens: tokenize(text.substring_char(3, n)) }
    } else if same_text(text, "else") {
        let parsed = ScriptLine { kind: LineKind::Else, tokens: Vec::new() };
        assert(texts(parsed.tokens@) =~= Seq::<Seq<char>>::empty());
        parsed
    } else if same_text(text, "endif") {
        let parsed = ScriptLine { kind: LineKind::Endif, tokens: Vec::new() };
        assert(texts(parsed.tokens@) =~= Seq::<Seq<char>>::empty());
        parsed
    } else {
        ScriptLine { kind: LineKind::Command, tokens: tokenize(text) }
    }
}

/// The state of a script that is being run.
pub struct InterpreterView {
    /// Whether a command on the next line would run.
    pub enabled: bool,
    /// For each open block, outermost first, whether lines were enabled
    /// just before its `if`.
    pub saved: Seq<bool>,
    /// Whether an `exit` has run.
    pub halted: bool,
}

impl InterpreterView {
    /// The state before the first line: enabled, with no open block.
    pub open spec fn start() -> Self {
        InterpreterView { enabled: true, saved: Seq::empty(), halted: false }
    }

    /// Lines are enabled only inside enabled blocks: where lines were
    /// disabled before an `if`, they were so before every `if` inside it,
    /// and are so now.
    pub open spec fn well_nested(self) -> bool {
        &&& forall|i: int, j: int|
            0 <= i <= j < self.saved.len() ==> (#[trigger] self.saved[j] ==> #[trigger] self.saved[i])
        &&& self.enabled ==> forall|i: int| 0 <= i < self.saved.len() ==> #[trigger] self.saved[i]
    }

    /// After an `if` whose condition has the value `cond`.
    pub open spec fn enter(self, cond: bool) -> Self {
        InterpreterView {
            enabled: self.enabled && cond,
            saved: self.saved.push(self.enabled),
            halted: self.halted,
        }
    }

    /// After an `else`.
    pub open spec fn otherwise(self) -> Self {
        if self.saved.len() > 0 {
            InterpreterView {
                enabled: self.saved.last() && !self.enabled,
                saved: self.saved,
                halted: self.halted,
            }
        } else {
            self
        }
    }

    /// After an `endif`.
    pub open spec fn leave(self) -> Self {
        if self.saved.len() > 0 {
            InterpreterView {
                enabled: self.saved.last(),
                saved: self.saved.drop_last(),
                halted: self.halted,
            }
        } else {
            self
        }
    }

    /// Whether a line of the given kind is handed to the dispatcher.
    pub open spec fn runs(self, kind: LineKind) -> bool {
        !self.halted && self.enabled && kind == LineKind::Command
    }

    /// The path that a line asks the file system about, if it asks.
    pub open spec fn probe(
        self,
        kind: LineKind,
        tokens: Seq<Seq<char>>,
        selection: Option<Seq<char>>,
    ) -> Option<Seq<char>> {
        if self.halted {
            None
        } else if kind == LineKind::If {
            condition_probe(tokens)
        } else if self.runs(kind) {
            command_probe(tokens, selection)
        } else {
            None
        }
    }

    /// What a line leaves to do.
    pub open spec fn action(
        self,
        kind: LineKind,
        tokens: Seq<Seq<char>>,
        selection: Option<Seq<char>>,
        found: bool,
    ) -> ActionView {
        if self.halted {
            ActionView::Exit
        } else if self.runs(kind) {
            command_action(tokens, selection, found)
        } else {
            ActionView::Nothing
        }
    }

    /// The selection after a line.
    pub open spec fn selects(
        self,
        kind: LineKind,
        tokens: Seq<Seq<char>>,
        selection: Option<Seq<char>>,
    ) -> Option<Seq<char>> {
        if self.runs(kind) {
            selection_after(tokens, selection)
        } else {
            selection
        }
    }

    /// The state after a line.
    pub open spec fn next(
        self,
        kind: LineKind,
        tokens: Seq<Seq<char>>,
        selection: Option<Seq<char>>,
        found: bool,
    ) -> Self {
        if self.halted {
            self
        } else {
            match kind {
                LineKind::Blank => self,
                LineKind::If => self.enter(condition_value(tokens, found)),
                LineKind::Else => self.otherwise(),
                LineKind::Endif => self.leave(),
                LineKind::Command => if self.enabled && command_action(tokens, selection, found)
                    == ActionView::Exit {
                    InterpreterView { enabled: self.enabled, saved: self.saved, halted: true }
                } else {
                    self
                },
            }
        }
    }
}

/// Runs a script, one line at a time.
pub struct Interpreter {
    enabled: bool,
    saved: Vec<bool>,
    halted: bool,
}

impl View for Interpreter {
    type V = InterpreterView;

    closed spec fn view(&self) -> InterpreterView {
        InterpreterView { enabled: self.enabled, saved: self.saved@, halted: self.halted }
    }
}

impl Interpreter {
    /// An interpreter before the first line of a script.
    pub fn new() -> (fresh: Self)
        ensures
            fresh@ == InterpreterView::start(),
            fresh@.well_nested(),
    {
        Interpreter { enabled: true, saved: Vec::new(), halted: false }
    }

    /// Whether a command on the next line would run, were there no `exit`
    /// before it.
    pub fn enabled(&self) -> (enabled: bool)
        ensures
            enabled == self@.enabled,
    {
        self.enabled
    }

    /// The number of blocks that are open.
    pub fn depth(&self) -> (depth: usize)
        ensures
            depth == self@.saved.len(),
    {
        self.saved.len()
    }

    /// Whether an `exit` has run.
    pub fn halted(&self) -> (halted: bool)
        ensures
            halted == self@.halted,
    {
        self.halted
    }

    /// Opens a block whose condition has the value `cond`.
    pub fn enter_if(&mut self, cond: bool)
        ensures
            final(self)@ == old(self)@.enter(cond),
            old(self)@.well_nested() ==> final(self)@.well_nested(),
    {
        self.saved.push(self.enabled);
        self.enabled = self.enabled && cond;
        proof {
            if old(self)@.well_nested() {
                lemma_blocks_keep_nesting(old(self)@, cond);
            }
        }
    }

    /// Switches to the other branch of the innermost open block; does
    /// nothing where no block is open.
    pub fn flip_else(&mut self)
        ensures
            final(self)@ == old(self)@.otherwise(),
            old(self)@.well_nested() ==> final(self)@.well_nested(),
    {
        let depth = self.saved.len();
        if depth > 0 {
            self.enabled = self.saved[depth - 1] && !self.enabled;
        }
        proof {
            if old(self)@.well_nested() {
                lemma_blocks_keep_nesting(old(self)@, true);
            }
        }
    }

    /// Closes the innermost open block; does nothing where no block is open.
    pub fn leave_if(&mut self)
        ensures
            final(self)@ == old(self)@.leave(),
            old(self)@.well_nested() ==> final(self)@.well_nested(),
    {
        match self.saved.pop() {
            Some(before) => {
                self.enabled = before;
            },
            None => {},
        }
        proof {
            if old(self)@.well_nested() {
                lemma_blocks_keep_nesting(old(self)@, true);
            }
        }
    }

    /// The path that `line` asks the file system about, if it asks.
    pub fn probe_target<'a>(&self, line: &ScriptLine<'a>, shell: &'a ShellState) -> (path: Option<
        &'a str,
    >)
        ensures
            match path {
                Some(p) => self@.probe(line.kind, texts(line.tokens@), shell.selection()) == Some(
                    p@,
                ),
                None => self@.probe(line.kind, texts(line.tokens@), shell.selection()) is None,
            },
    {
        if self.halted {
            None
        } else {
            match line.kind {
                LineKind::If => probe_target(line.tokens.as_slice()),
                LineKind::Command => {
                    if self.enabled {
                        command_target(line.tokens.as_slice(), shell)
                    } else {
                        None
                    }
                },
                _ => None,
            }
        }
    }

    /// Takes one line of the script into account, given the answer of the
    /// file system, and returns what the line leaves to do.
    pub fn apply(&mut self, line: &ScriptLine, shell: &mut ShellState, found: bool) -> (action:
        Action)
        ensures
            final(self)@ == old(self)@.next(
                line.kind,
                texts(line.tokens@),
                old(shell).selection(),
                found,
            ),
            final(shell).selection() == old(self)@.selects(
                line.kind,
                texts(line.tokens@),
                old(shell).selection(),
            ),
            action@ == old(self)@.action(
                line.kind,
                texts(line.tokens@),
                old(shell).selection(),
                found,
            ),
            old(self)@.well_nested() ==> final(self)@.well_nested(),
    {
        if self.halted {
            return Action::Exit;
        }
        match line.kind {
            LineKind::Blank => Action::Nothing,
            LineKind::If => {
                let cond = evaluate_with(line.tokens.as_slice(), found);
                self.enter_if(cond);
                Action::Nothing
            },
            LineKind::Else => {
                self.flip_else();
                Action::Nothing
            },
            LineKind::Endif => {
                self.leave_if();
                Action::Nothing
            },
            LineKind::Command => {
                if self.enabled {
                    let action = dispatch(line.tokens.as_slice(), shell, found);
                    if !action.continues() {
                        self.halted = true;
                    }
                    action
                } else {
                    Action::Nothing
                }
            },
        }
    }

    /// Runs one line of the script and returns what it leaves to do.
    ///
    /// Only an `if file_exists` and a `delete` that runs ask the file
    /// system, and the outcome is then the one that [`Interpreter::apply`]
    /// gives for the answer that came.
    pub fn step(&mut self, line: &str, shell: &mut ShellState) -> (action: Action)
        ensures
            old(self)@.well_nested() ==> final(self)@.well_nested(),
            ({
                let before = Session { script: old(self)@, selection: old(shell).selection() };
                let after = Session { script: final(self)@, selection: final(shell).selection() };
                &&& session_probe(before, line@) is None ==> {
                    &&& after == session_step(before, line@, false)
                    &&& action@ == session_action(before, line@, false)
                }
                &&& session_probe(before, line@) is Some ==> {
                    ||| {
                        &&& after == session_step(before, line@, true)
                        &&& action@ == session_action(before, line@, true)
                    }
                    ||| {
                        &&& after == session_step(before, line@, false)
                        &&& action@ == session_action(before, line@, false)
                    }
                }
            }),
    {
        let parsed = parse_line(line);
        let found = match self.probe_target(&parsed, shell) {
            Some(path) => path_exists(path),
            None => false,
        };
        self.apply(&parsed, shell, found)
    }
}

/// A script that is being run together with the session it runs in.
pub struct Session {
    pub script: InterpreterView,
    pub selection: Option<Seq<char>>,
}

/// The path that `line` asks the file system about, if it asks.
pub open spec fn session_probe(s: Session, line: Seq<char>) -> Option<Seq<char>> {
    s.script.probe(line_kind(line), line_tokens(line), s.selection)
}

/// What `line` leaves to do, where `found` is the answer of the file system.
pub open spec fn session_action(s: Session, line: Seq<char>, found: bool) -> ActionView {
    s.script.action(line_kind(line), line_tokens(line), s.selection, found)
}

/// The script and the session after `line`.
pub open spec fn session_step(s: Session, line: Seq<char>, found: bool) -> Session {
    Session {
        script: s.script.next(line_kind(line), line_tokens(line), s.selection, found),
        selection: s.script.selects(line_kind(line), line_tokens(line), s.selection),
    }
}

/// The script and the session after the lines of `lines`, in order, where
/// `found[k]` is the answer of the file system on line `k`.
pub open spec fn session_after(start: Session, lines: Seq<Seq<char>>, found: Seq<bool>) -> Session
    decreases lines.len(),
{
    if lines.len() == 0 {
        start
    } else {
        session_step(
            session_after(start, lines.drop_last(), found.drop_last()),
            lines.last(),
            found.last(),
        )
    }
}

/// What line `k` of `lines` leaves to do when the lines are run in order.
pub open spec fn action_at(start: Session, lines: Seq<Seq<char>>, found: Seq<bool>, k: int) -> ActionView {
    session_action(session_after(start, lines.take(k), found.take(k)), lines[k], found[k])
}

/// A script starts well nested, and `if`, `else` and `endif` keep it so.
pub proof fn lemma_blocks_keep_nesting(st: InterpreterView, cond: bool)
    requires
        st.well_nested(),
    ensures
        InterpreterView::start().well_nested(),
        st.enter(cond).well_nested(),
        st.otherwise().well_nested(),
        st.leave().well_nested(),
{
}

/// Every line keeps a script well nested.
pub proof fn lemma_step_keeps_nesting(s: Session, line: Seq<char>, found: bool)
    requires
        s.script.well_nested(),
    ensures
        session_step(s, line, found).script.well_nested(),
{
    lemma_blocks_keep_nesting(s.script, condition_value(line_tokens(line), found));
}

/// A command that runs in a script does what the same line does at the
/// prompt: the white space around it makes no difference.
pub proof fn lemma_command_runs_as_typed(s: Session, line: Seq<char>, found: bool)
    requires
        s.script.runs(line_kind(line)),
    ensures
        session_probe(s, line) == command_probe(tokens_of(line), s.selection),
        session_action(s, line, found) == command_action(tokens_of(line), s.selection, found),
        session_step(s, line, found).selection == selection_after(tokens_of(line), s.selection),
{
    lemma_tokens_of_trimmed(line);
}

/// A line whose first token is `exit` is a command, and where it is met
/// enabled in a script that is not over, it leaves `Exit` and ends the
/// script.
pub proof fn lemma_exit_runs(s: Session, line: Seq<char>, found: bool)
    requires
        s.script.enabled,
        !s.script.halted,
        tokens_of(line).len() > 0,
        tokens_of(line)[0] == "exit"@,
    ensures
        line_kind(line) == LineKind::Command,
        session_action(s, line, found) == ActionView::Exit,
        session_step(s, line, found).script.halted,
        session_step(s, line, found).selection == s.selection,
{
    lemma_first_token_leads(line);
    lemma_tokens_of_trimmed(line);
    lemma_exit_leaves_exit(tokens_of(line), s.selection, found);
    reveal_strlit("exit");
    reveal_strlit("else");
    reveal_strlit("endif");
    let text = trimmed(line);
    let word = tokens_of(line)[0];
    assert(text.take(4)[0] == 'e' && text.take(4)[1] == 'x');
    assert(text[0] == 'e' && text[1] == 'x');
    assert("else"@[1] == 'l');
    assert("endif"@[1] == 'n');
}

/// An `endif` restores the state in which its `if` was met, whether or not
/// there was an `else` between them.
pub proof fn lemma_block_restores(st: InterpreterView, cond: bool)
    ensures
        st.enter(cond).leave() == st,
        st.enter(cond).otherwise().leave() == st,
{
    assert(st.saved.push(st.enabled).drop_last() =~= st.saved);
}

/// Of the two branches of a block, the first is enabled where the block is
/// met enabled and its condition holds, the second where the block is met
/// enabled and its condition fails: never both, and neither inside a
/// disabled block.
pub proof fn lemma_one_branch_runs(st: InterpreterView, cond: bool)
    ensures
        st.enter(cond).enabled == (st.enabled && cond),
        st.enter(cond).otherwise().enabled == (st.enabled && !cond),
{
}

/// An `else` or an `endif` outside every block changes nothing and leaves
/// nothing to do.
pub proof fn lemma_unmatched_close(s: Session, line: Seq<char>, found: bool)
    requires
        s.script.saved.len() == 0,
        line_kind(line) == LineKind::Else || line_kind(line) == LineKind::Endif,
    ensures
        session_step(s, line, found) == s,
        !s.script.halted ==> session_action(s, line, found) == ActionView::Nothing,
{
}

/// A line leaves `Exit` exactly when the script is over after it, and a
/// script that is over stays as it is.
pub proof fn lemma_exit_is_final(s: Session, line: Seq<char>, found: bool)
    ensures
        session_step(s, line, found).script.halted == (session_action(s, line, found)
            == ActionView::Exit),
        s.script.halted ==> session_step(s, line, found) == s && session_action(s, line, found)
            == ActionView::Exit,
{
}

/// Once a line has left `Exit`, no later line of the script has any effect:
/// the script and the session stay as that line left them, and every later
/// line leaves `Exit` too, whatever it holds.
pub proof fn lemma_exit_ends_script(
    start: Session,
    lines: Seq<Seq<char>>,
    found: Seq<bool>,
    k: int,
    j: int,
)
    requires
        lines.len() == found.len(),
        0 <= k < j <= lines.len(),
        action_at(start, lines, found, k) == ActionView::Exit,
    ensures
        session_after(start, lines.take(j), found.take(j)) == session_after(
            start,
            lines.take(k + 1),
            found.take(k + 1),
        ),
        session_after(start, lines.take(j), found.take(j)).script.halted,
        j < lines.len() ==> action_at(start, lines, found, j) == ActionView::Exit,
    decreases j - k,
{
    let upto = session_after(start, lines.take(j), found.take(j));
    assert(lines.take(j).drop_last() =~= lines.take(j - 1));
    assert(found.take(j).drop_last() =~= found.take(j - 1));
    let before = session_after(start, lines.take(j - 1), found.take(j - 1));
    assert(upto == session_step(before, lines[j - 1], found[j - 1]));
    lemma_exit_is_final(before, lines[j - 1], found[j - 1]);
    if j > k + 1 {
        lemma_exit_ends_script(start, lines, found, k, j - 1);
    }
    if j < lines.len() {
        lemma_exit_is_final(upto, lines[j], found[j]);
    }
}

} // verus!
