//! The grammar of the yes/no confirmation prompt.
//!
//! The front end prints the prompt, reads a line, lowercases and trims it,
//! and asks this module what the answer means; an unrecognised answer makes
//! it ask again.

use vstd::prelude::*;

use crate::text::str_eq;

verus! {

/// What a trimmed, lowercased answer line means: an empty line takes the
/// prompt's default, `y`/`yes` accepts, `n`/`no` declines, and anything else
/// is not an answer.
pub open spec fn spec_answer(s: Seq<char>, default: bool) -> Option<bool> {
    if s == ""@ {
        Some(default)
    } else if s == "y"@ || s == "yes"@ {
        Some(true)
    } else if s == "n"@ || s == "no"@ {
        Some(false)
    } else {
        None
    }
}

/// Interprets one trimmed, lowercased answer line to the confirmation
/// prompt. `None` means the prompt must be repeated.
pub fn interpret_answer(answer: &str, default: bool) -> (r: Option<bool>)
    ensures
        r == spec_answer(answer@, default),
{
    if str_eq(answer, "") {
        Some(default)
    } else if str_eq(answer, "y") || str_eq(answer, "yes") {
        Some(true)
    } else if str_eq(answer, "n") || str_eq(answer, "no") {
        Some(false)
    } else {
        None
    }
}

} // verus!
