//! The conditions of `if` lines.
//!
//! A condition is a predicate name followed by its arguments. It never
//! fails: an unknown predicate or a missing argument makes it false, and an
//! argument that should be an integer but is none counts as zero.

use vstd::prelude::*;
use crate::disk::path_exists;
use crate::number::{decimal, integer_of, integer_or_zero, lemma_decimal_reads_back, parse_or_zero};
use crate::state::ShellState;
use crate::text::{same_text, texts};

verus! {

/// The path whose existence decides the condition, for the one predicate
/// that looks at the file system.
pub open spec fn condition_probe(parts: Seq<Seq<char>>) -> Option<Seq<char>> {
    if parts.len() >= 2 && parts[0] == "file_exists"@ {
        Some(parts[1])
    } else {
        None
    }
}

/// The value of a condition, where `found` says whether something exists at
/// the path it asks about.
pub open spec fn condition_value(parts: Seq<Seq<char>>, found: bool) -> bool {
    if parts.len() == 0 {
        false
    } else if parts[0] == "file_exists"@ {
        parts.len() >= 2 && found
    } else if parts[0] == "is_greater"@ {
        parts.len() >= 3 && integer_or_zero(parts[1]) > integer_or_zero(parts[2])
    } else if parts[0] == "is_even"@ {
        parts.len() >= 2 && integer_or_zero(parts[1]) % 2 == 0
    } else {
        false
    }
}

/// The path that `parts` asks the file system about, if it asks.
pub fn probe_target<'a>(parts: &[&'a str]) -> (path: Option<&'a str>)
    ensures
        match path {
            Some(p) => condition_probe(texts(parts@)) == Some(p@),
            None => condition_probe(texts(parts@)) is None,
        },
{
    if parts.len() >= 2 && same_text(parts[0], "file_exists") {
        Some(parts[1])
    } else {
        None
    }
}

/// Evaluates a condition, given the answer of the file system.
pub fn evaluate_with(parts: &[&str], found: bool) -> (holds: bool)
    ensures
        holds == condition_value(texts(parts@), found),
{
    if parts.len() == 0 {
        false
    } else if same_text(parts[0], "file_exists") {
        parts.len() >= 2 && found
    } else if same_text(parts[0], "is_greater") {
        parts.len() >= 3 && parse_or_zero(parts[1]) > parse_or_zero(parts[2])
    } else if same_text(parts[0], "is_even") {
        parts.len() >= 2 && parse_or_zero(parts[1]) % 2 == 0
    } else {
        false
    }
}

/// Evaluates a condition, asking the file system where the condition does.
///
/// The result is fixed for every condition that does not ask. For one that
/// does, it is what [`evaluate_with`] makes of the answer, and either answer
/// may come. The session is not read: no predicate depends on the selection.
pub fn evaluate_condition(parts: &[&str], state: &ShellState) -> (holds: bool)
    ensures
        condition_probe(texts(parts@)) is None ==> holds == condition_value(texts(parts@), false),
{
    let found = match probe_target(parts) {
        Some(path) => path_exists(path),
        None => false,
    };
    evaluate_with(parts, found)
}

/// The three predicate names are three different words.
proof fn lemma_predicate_names_differ()
    ensures
        "file_exists"@ != "is_greater"@,
        "file_exists"@ != "is_even"@,
        "is_greater"@ != "is_even"@,
{
    reveal_strlit("file_exists");
    reveal_strlit("is_greater");
    reveal_strlit("is_even");
    assert("file_exists"@.len() == 11);
    assert("is_greater"@.len() == 10);
    assert("is_even"@.len() == 7);
}

/// `is_even` holds of the decimal spelling of an integer exactly when the
/// integer is even.
pub proof fn lemma_is_even(n: int, found: bool)
    requires
        i64::MIN <= n <= i64::MAX,
    ensures
        condition_value(seq!["is_even"@, decimal(n)], found) == (n % 2 == 0),
{
    lemma_predicate_names_differ();
    lemma_decimal_reads_back(n);
    let parts = seq!["is_even"@, decimal(n)];
    assert(parts[0] == "is_even"@ && parts[1] == decimal(n));
}

/// `is_even` holds of every argument that is not an integer, since such an
/// argument counts as zero.
pub proof fn lemma_is_even_of_no_integer(word: Seq<char>, found: bool)
    requires
        integer_of(word) is None,
    ensures
        condition_value(seq!["is_even"@, word], found),
{
    lemma_predicate_names_differ();
    let parts = seq!["is_even"@, word];
    assert(parts[0] == "is_even"@ && parts[1] == word);
}

/// `is_greater` holds of the decimal spellings of two integers exactly when
/// the first integer is greater than the second.
pub proof fn lemma_is_greater(a: int, b: int, found: bool)
    requires
        i64::MIN <= a <= i64::MAX,
        i64::MIN <= b <= i64::MAX,
    ensures
        condition_value(seq!["is_greater"@, decimal(a), decimal(b)], found) == (a > b),
{
    lemma_predicate_names_differ();
    lemma_decimal_reads_back(a);
    lemma_decimal_reads_back(b);
    let parts = seq!["is_greater"@, decimal(a), decimal(b)];
    assert(parts[0] == "is_greater"@ && parts[1] == decimal(a) && parts[2] == decimal(b));
}

/// A condition without tokens is false, and so is one whose first token is
/// none of the three predicate names, whatever follows it.
pub proof fn lemma_no_such_predicate(parts: Seq<Seq<char>>, found: bool)
    requires
        parts.len() > 0 ==> {
            &&& parts[0] != "file_exists"@
            &&& parts[0] != "is_greater"@
            &&& parts[0] != "is_even"@
        },
    ensures
        !condition_value(parts, found),
{
}

} // verus!
