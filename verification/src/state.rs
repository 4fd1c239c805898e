//! The session data that outlives a single command.

use vstd::prelude::*;

verus! {

/// What a session remembers between commands: the path chosen by the last
/// `select-file`, if there was one.
pub struct ShellState {
    selected_file: Option<String>,
}

impl ShellState {
    /// The selected path as a sequence of characters, `None` while nothing
    /// has been selected.
    pub closed spec fn selection(&self) -> Option<Seq<char>> {
        match self.selected_file {
            Some(path) => Some(path@),
            None => None,
        }
    }

    /// A fresh session: nothing is selected.
    pub fn new() -> (state: Self)
        ensures
            state.selection() == None::<Seq<char>>,
    {
        ShellState { selected_file: None }
    }

    /// Stores `path` as the selection, whatever was selected before and
    /// whether or not anything exists at that path.
    pub fn select(&mut self, path: &str)
        ensures
            final(self).selection() == Some(path@),
    {
        self.selected_file = Some(path.to_owned());
    }

    /// The path that is currently selected.
    pub fn selected(&self) -> (path: Option<&str>)
        ensures
            match path {
                Some(p) => self.selection() == Some(p@),
                None => self.selection() == None::<Seq<char>>,
            },
    {
        match &self.selected_file {
            Some(p) => Some(p.as_str()),
            None => None,
        }
    }
}

} // verus!
