//! Formatting with ANSI escape codes.

use vstd::prelude::*;
use vstd::string::StringExecFns;
use crate::words::char_to_string;

verus! {

/// `content` over a green background: the letter between the escape code
/// that turns the green background on and the one that resets it.
pub fn format_green_bg(content: char) -> (r: String)
    ensures
        r@ == "\x1b[48;5;2m"@ + seq![content] + "\x1b[0m"@,
{
    let mut r = String::from_str("\x1b[48;5;2m");
    r.append(char_to_string(content).as_str());
    r.append("\x1b[0m");
    r
}

/// `content` over a yellow background: the letter between the escape code
/// that turns the yellow background on and the one that resets it.
pub fn format_yellow_bg(content: char) -> (r: String)
    ensures
        r@ == "\x1b[48;5;3m"@ + seq![content] + "\x1b[0m"@,
{
    let mut r = String::from_str("\x1b[48;5;3m");
    r.append(char_to_string(content).as_str());
    r.append("\x1b[0m");
    r
}

} // verus!
