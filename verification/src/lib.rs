//! Greeting text.
//!
//! Builds the line `Hello, {name}!` for a given name, and the fixed
//! `Hello, Rustacean!` line that the program writes to standard output.
//! The contracts pin the produced text down to the exact sequence of
//! characters; the single write itself is left to the program around
//! the library.

use vstd::prelude::*;
use vstd::string::*;

verus! {

/// The characters of the greeting for `name`: `Hello, `, the name, `!`.
pub open spec fn greeting_chars(name: Seq<char>) -> Seq<char> {
    "Hello, "@ + name + "!"@
}

/// The characters of the full output line for `name`: the greeting
/// followed by a line terminator.
pub open spec fn greeting_line_chars(name: Seq<char>) -> Seq<char> {
    greeting_chars(name) + "\n"@
}

/// Builds the greeting text `Hello, {name}!` for the given name.
pub fn greeting(name: &str) -> (text: String)
    ensures
        text@ == greeting_chars(name@),
{
    let mut text = String::from_str("Hello, ");
    text.append(name);
    text.append("!");
    text
}

/// Builds the full output line for the given name: the greeting text
/// followed by a newline.
pub fn greeting_line(name: &str) -> (line: String)
    ensures
        line@ == greeting_line_chars(name@),
{
    let mut line = greeting(name);
    line.append("\n");
    line
}

/// The exact line the program writes when run: it always greets the
/// fixed, non-configurable name `Rustacean`.
pub fn entry_line() -> (line: String)
    ensures
        line@ == greeting_line_chars("Rustacean"@),
{
    let user: &str = "Rustacean";
    greeting_line(user)
}

/// The greeting is exactly `Hello, `, then the name, then `!`: no
/// characters stand before or after.
pub proof fn lemma_greeting_shape(name: Seq<char>)
    ensures
        greeting_chars(name).len() == name.len() + 8,
        greeting_chars(name).subrange(0, 7) == "Hello, "@,
        greeting_chars(name).subrange(7, name.len() as int + 7) == name,
        greeting_chars(name).subrange(name.len() as int + 7, name.len() as int + 8) == "!"@,
{
    reveal_strlit("Hello, ");
    reveal_strlit("!");
}

/// The greeting is determined by the name alone: two texts that both
/// meet the greeting's contract for the same name are equal, so
/// building the greeting twice with the same input gives the same
/// line twice.
pub proof fn lemma_greeting_deterministic(name: Seq<char>, first: Seq<char>, second: Seq<char>)
    requires
        first == greeting_chars(name),
        second == greeting_chars(name),
    ensures
        first == second,
{
}

} // verus!
