//! The lines that the launcher prints for a service: what the service
//! writes, each line behind the name of the service.

use vstd::prelude::*;
use vstd::string::*;

verus! {

/// The mark of a line that a service wrote to its standard output.
pub const STDOUT_KEY: &'static str = "O";

/// The mark of a line that a service wrote to its standard error.
pub const STDERR_KEY: &'static str = "E";

/// What switches a terminal to bold red.
pub const RED_BOLD: &'static str = "\x1B[1;31m";

/// What switches a terminal back to plain text.
pub const RESET: &'static str = "\x1B[0m";

/// A text as a terminal shows it in bold red.
pub open spec fn red_bold(s: Seq<char>) -> Seq<char> {
    RED_BOLD@ + s + RESET@
}

/// What stands before each line of a service: its name, and in brackets
/// the mark of where the line came from.
pub open spec fn line_prefix(id: Seq<char>, key: Seq<char>) -> Seq<char> {
    id + "("@ + key + "): "@
}

/// `ansi_term::Colour::Red.bold().paint(..)`, written out: the text
/// between the code that switches to bold red and the code that resets.
#[verifier::external_body]
fn paint_red_bold(s: &str) -> (r: String)
    ensures
        r@ == red_bold(s@),
{
    format!("{}", ansi_term::Colour::Red.bold().paint(s))
}

/// What stands before each line of the service `id` from the source that
/// `key` marks.
pub fn output_format(id: &str, key: &str) -> (r: String)
    ensures
        r@ == line_prefix(id@, key@),
{
    let mut out = id.to_owned();
    out.append("(");
    out.append(key);
    out.append("): ");
    out
}

/// The line to print for a line that the service `id` wrote to its
/// standard output.
pub fn pipe_stdout(id: &str, line: &str) -> (r: String)
    ensures
        r@ == line_prefix(id@, STDOUT_KEY@) + line@,
{
    let mut out = output_format(id, STDOUT_KEY);
    out.append(line);
    out
}

/// The line to print for a line that the service `id` wrote to its
/// standard error: the line in bold red.
pub fn pipe_stderr(id: &str, line: &str) -> (r: String)
    ensures
        r@ == line_prefix(id@, STDERR_KEY@) + red_bold(line@),
{
    let mut out = output_format(id, STDERR_KEY);
    let painted = paint_red_bold(line);
    out.append(painted.as_str());
    out
}

} // verus!
