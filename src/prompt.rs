//! Reading replies to prompts.

use vstd::prelude::*;
use vstd::string::{axiom_spec_iter, next_postcondition};

verus! {

/// The answer that a reply to a yes/no question gives: its first letter,
/// `y` or `n` in either case, decides; anything else is no answer.
pub open spec fn spec_yes_no(reply: Seq<char>) -> Option<bool> {
    if reply.len() == 0 {
        None
    } else if reply[0] == 'y' || reply[0] == 'Y' {
        Some(true)
    } else if reply[0] == 'n' || reply[0] == 'N' {
        Some(false)
    } else {
        None
    }
}

/// Reads the answer of a reply to a yes/no question.
pub fn parse_yes_no(reply: &str) -> (r: Option<bool>)
    ensures
        r == spec_yes_no(reply@),
{
    broadcast use {axiom_spec_iter, next_postcondition};

    let mut chars = reply.chars();
    match chars.next() {
        Some(c) => if c == 'y' || c == 'Y' {
            Some(true)
        } else if c == 'n' || c == 'N' {
            Some(false)
        } else {
            None
        },
        None => None,
    }
}

} // verus!
