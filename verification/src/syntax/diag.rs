//! The messages of syntax errors: `error[<code>] at line L, col C: <message>`.
//! A message that names the token it found gives the text that the token
//! kind's `Debug` output gives.
//!
//! | Code  | Meaning                       |
//! |-------|-------------------------------|
//! | E1001 | Expected token                |
//! | E1002 | Unexpected top-level item     |
//! | E1003 | Unexpected expression token   |
//! | E1004 | Bad method receiver           |
//! | E1005 | Bad import declaration        |
//! | E1006 | Bad test block header         |
//! | E1007 | Bad array length              |

use vstd::prelude::*;
use crate::syntax::chars::{
    decimal, push_decimal, push_str, text,
};

verus! {

/// `error[<code>] at line L, col C: <msg>`.
pub open spec fn diagnostic(code: Seq<char>, line: usize, col: usize, msg: Seq<char>) -> Seq<char> {
    "error["@ + code + "] at line "@ + decimal(line as nat) + ", col "@ + decimal(col as nat) + ": "@
        + msg
}

/// E1001: `Expected <what>, got <found>`.
pub open spec fn expected_text(line: usize, col: usize, what: Seq<char>, found: Seq<char>) -> Seq<char> {
    diagnostic("E1001"@, line, col, "Expected "@ + what + ", got "@ + found)
}

/// E1002: `Unexpected token at top-level: <found>`.
pub open spec fn unexpected_top_level_text(line: usize, col: usize, found: Seq<char>) -> Seq<char> {
    diagnostic("E1002"@, line, col, "Unexpected token at top-level: "@ + found)
}

/// E1003: `Unexpected prefix expression token <found>`.
pub open spec fn unexpected_prefix_text(line: usize, col: usize, found: Seq<char>) -> Seq<char> {
    diagnostic("E1003"@, line, col, "Unexpected prefix expression token "@ + found)
}

/// E1004: `Expected 'self' in method receiver, got <found>`.
pub open spec fn bad_receiver_text(line: usize, col: usize, found: Seq<char>) -> Seq<char> {
    diagnostic("E1004"@, line, col, "Expected 'self' in method receiver, got "@ + found)
}

/// E1005: a bad import declaration, described by `msg`.
pub open spec fn bad_import_text(line: usize, col: usize, msg: Seq<char>) -> Seq<char> {
    diagnostic("E1005"@, line, col, msg)
}

/// E1006: `Expected string description for test block`.
pub open spec fn bad_test_header_text(line: usize, col: usize) -> Seq<char> {
    diagnostic("E1006"@, line, col, "Expected string description for test block"@)
}

/// E1007: `Expected integer array length, got <found>`.
pub open spec fn bad_array_length_text(line: usize, col: usize, found: Seq<char>) -> Seq<char> {
    diagnostic("E1007"@, line, col, "Expected integer array length, got "@ + found)
}

/// The message with code `code` at line `line`, column `col`.
pub fn diagnostic_message(code: &str, line: usize, col: usize, msg: &str) -> (m: String)
    ensures
        m@ == diagnostic(code@, line, col, msg@),
{
    let mut m = text("error[");
    push_str(&mut m, code);
    push_str(&mut m, "] at line ");
    push_decimal(&mut m, line);
    push_str(&mut m, ", col ");
    push_decimal(&mut m, col);
    push_str(&mut m, ": ");
    push_str(&mut m, msg);
    assert(m@ =~= diagnostic(code@, line, col, msg@));
    m
}

/// `prefix` followed by `found`.
pub fn joined(prefix: &str, found: &str) -> (m: String)
    ensures
        m@ == prefix@ + found@,
{
    let mut m = text(prefix);
    push_str(&mut m, found);
    m
}

/// The message for a missing token: `what` was expected at line `line`,
/// column `col`, where the token `found` stands.
pub fn expected_token_error(line: usize, col: usize, what: &str, found: &str) -> (m: String)
    ensures
        m@ == expected_text(line, col, what@, found@),
{
    let mut msg = text("Expected ");
    push_str(&mut msg, what);
    push_str(&mut msg, ", got ");
    push_str(&mut msg, found);
    assert(msg@ =~= "Expected "@ + what@ + ", got "@ + found@);
    diagnostic_message("E1001", line, col, msg.as_str())
}

/// The message for a token `found` that cannot start a declaration.
pub fn unexpected_top_level_error(line: usize, col: usize, found: &str) -> (m: String)
    ensures
        m@ == unexpected_top_level_text(line, col, found@),
{
    let msg = joined("Unexpected token at top-level: ", found);
    diagnostic_message("E1002", line, col, msg.as_str())
}

/// The message for a token `found` that cannot start an expression.
pub fn unexpected_prefix_error(line: usize, col: usize, found: &str) -> (m: String)
    ensures
        m@ == unexpected_prefix_text(line, col, found@),
{
    let msg = joined("Unexpected prefix expression token ", found);
    diagnostic_message("E1003", line, col, msg.as_str())
}

/// The message for a receiver `&` or `&mut` that `found` follows in place of `self`.
pub fn bad_receiver_error(line: usize, col: usize, found: &str) -> (m: String)
    ensures
        m@ == bad_receiver_text(line, col, found@),
{
    let msg = joined("Expected 'self' in method receiver, got ", found);
    diagnostic_message("E1004", line, col, msg.as_str())
}

/// The message for a bad import declaration, described by `msg`.
pub fn bad_import_error(line: usize, col: usize, msg: &str) -> (m: String)
    ensures
        m@ == bad_import_text(line, col, msg@),
{
    diagnostic_message("E1005", line, col, msg)
}

/// The message for a `test` not followed by its description.
pub fn bad_test_header_error(line: usize, col: usize) -> (m: String)
    ensures
        m@ == bad_test_header_text(line, col),
{
    diagnostic_message("E1006", line, col, "Expected string description for test block")
}

/// The message for an array length `found` that is not an integer literal.
pub fn bad_array_length_error(line: usize, col: usize, found: &str) -> (m: String)
    ensures
        m@ == bad_array_length_text(line, col, found@),
{
    let msg = joined("Expected integer array length, got ", found);
    diagnostic_message("E1007", line, col, msg.as_str())
}

} // verus!
