//! What the shell asks its caller to do.
//!
//! The library never touches the terminal or changes the file system. Each
//! line it is given yields one [`Action`], and the caller carries it out.

use vstd::prelude::*;

verus! {

/// One thing to do on behalf of a line of input.
#[derive(Debug, PartialEq, Eq)]
pub enum Action {
    /// Do nothing.
    Nothing,
    /// Write the text to standard output as it is.
    Print(String),
    /// Write the text to standard output, followed by a line break.
    PrintLine(String),
    /// Remove the file at the path, which was found to exist.
    RemoveFile(String),
    /// Create an empty file at the path, truncating one that is there.
    CreateFile(String),
    /// Create the directory at the path, with the ancestors it lacks.
    CreateDir(String),
    /// Write the names of the entries of the current directory, one a line.
    ListDir,
    /// Write the path of the current directory.
    PrintWorkingDir,
    /// Run the script at the path, on the same session.
    RunScript(String),
    /// Stop: take no further line from this input.
    Exit,
}

/// An [`Action`] with each string as a sequence of characters.
pub enum ActionView {
    Nothing,
    Print(Seq<char>),
    PrintLine(Seq<char>),
    RemoveFile(Seq<char>),
    CreateFile(Seq<char>),
    CreateDir(Seq<char>),
    ListDir,
    PrintWorkingDir,
    RunScript(Seq<char>),
    Exit,
}

impl View for Action {
    type V = ActionView;

    open spec fn view(&self) -> ActionView {
        match self {
            Action::Nothing => ActionView::Nothing,
            Action::Print(text) => ActionView::Print(text@),
            Action::PrintLine(text) => ActionView::PrintLine(text@),
            Action::RemoveFile(path) => ActionView::RemoveFile(path@),
            Action::CreateFile(path) => ActionView::CreateFile(path@),
            Action::CreateDir(path) => ActionView::CreateDir(path@),
            Action::ListDir => ActionView::ListDir,
            Action::PrintWorkingDir => ActionView::PrintWorkingDir,
            Action::RunScript(path) => ActionView::RunScript(path@),
            Action::Exit => ActionView::Exit,
        }
    }
}

/// The line that confirms an action once it has succeeded. Only the three
/// actions that change the file system are confirmed.
pub open spec fn confirmation_of(action: ActionView) -> Option<Seq<char>> {
    match action {
        ActionView::RemoveFile(path) => Some("Deleted "@ + path),
        ActionView::CreateFile(path) => Some("Created "@ + path),
        ActionView::CreateDir(path) => Some("Created directory "@ + path),
        _ => None,
    }
}

impl Action {
    /// Whether the session goes on after this action: it does after every
    /// action but `Exit`.
    pub fn continues(&self) -> (go_on: bool)
        ensures
            go_on == !(self@ is Exit),
    {
        match self {
            Action::Exit => false,
            _ => true,
        }
    }

    /// The line to write once this action has succeeded, if it is one that
    /// is confirmed.
    pub fn confirmation(&self) -> (line: Option<String>)
        ensures
            match line {
                Some(text) => confirmation_of(self@) == Some(text@),
                None => confirmation_of(self@) is None,
            },
    {
        match self {
            Action::RemoveFile(path) => Some("Deleted ".to_owned().concat(path.as_str())),
            Action::CreateFile(path) => Some("Created ".to_owned().concat(path.as_str())),
            Action::CreateDir(path) => Some("Created directory ".to_owned().concat(path.as_str())),
            _ => None,
        }
    }
}

/// What is written before each line is read from the terminal: the prompt,
/// with no line break after it.
pub fn prompt() -> (action: Action)
    ensures
        action@ == ActionView::Print("> "@),
{
    Action::Print("> ".to_owned())
}

/// The line that reports that the current directory could not be read,
/// for the standard error stream.
pub fn working_dir_failure(reason: &str) -> (line: String)
    ensures
        line@ == "pwd: "@ + reason@,
{
    "pwd: ".to_owned().concat(reason)
}

} // verus!
