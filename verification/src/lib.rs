//! A small command shell with a line-oriented scripting language.
//!
//! The library holds everything the shell decides: how a line is cut into
//! tokens, which command a line names, what a condition evaluates to and how
//! nested `if` / `else` / `endif` blocks enable and disable the lines of a
//! script. Input, output and changes to the file system stay with the
//! caller, which is handed an action for each line and carries it out. All
//! the library itself asks of the file system is whether a path exists.

pub mod state;
pub mod text;
pub mod tokens;
pub mod number;
pub mod action;
mod disk;
pub mod condition;
pub mod command;
pub mod script;
