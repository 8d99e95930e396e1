//! Decisions behind the terminal frontend: which color an agent action is
//! reported in, and how a typed confirmation answer is classified. The
//! actual terminal I/O lives outside the library.

use vstd::prelude::*;

verus! {

/// The kind of action an agent reports on the terminal.
#[derive(Debug, PartialEq, Eq, Structural, Clone, Copy)]
pub enum PrintCommand {
    APICall,
    Issue,
    UnitTest,
}

/// The color an agent action is reported in.
#[derive(Debug, PartialEq, Eq, Structural, Clone, Copy)]
pub enum ActionColor {
    DarkBlue,
    Green,
    Red,
}

impl PrintCommand {
    /// The color of this kind of action.
    pub open spec fn spec_action_color(&self) -> ActionColor {
        match self {
            PrintCommand::APICall => ActionColor::DarkBlue,
            PrintCommand::UnitTest => ActionColor::Green,
            PrintCommand::Issue => ActionColor::Red,
        }
    }

    pub fn action_color(&self) -> (color: ActionColor)
        ensures
            color == self.spec_action_color(),
    {
        match self {
            PrintCommand::APICall => ActionColor::DarkBlue,
            PrintCommand::UnitTest => ActionColor::Green,
            PrintCommand::Issue => ActionColor::Red,
        }
    }
}

/// How one confirmation answer is read, after trimming and lowercasing:
/// approval, rejection, or no decision at all — the question must then be
/// asked again.
pub open spec fn spec_approval_choice(choice: Seq<char>) -> Option<bool> {
    if choice == "1"@ || choice == "y"@ || choice == "ok"@ {
        Some(true)
    } else if choice == "2"@ || choice == "n"@ || choice == "no"@ {
        Some(false)
    } else {
        None
    }
}

/// Classifies a trimmed, lowercased confirmation answer: `1`, `y` and `ok`
/// approve, `2`, `n` and `no` reject, anything else is no decision.
pub fn classify_approval_choice(choice: &str) -> (approval: Option<bool>)
    ensures
        approval == spec_approval_choice(choice@),
{
    let answer: String = choice.to_owned();
    if string_is(&answer, "1") || string_is(&answer, "y") || string_is(&answer, "ok") {
        Some(true)
    } else if string_is(&answer, "2") || string_is(&answer, "n") || string_is(&answer, "no") {
        Some(false)
    } else {
        None
    }
}

/// Whether a string's contents are exactly the given literal.
fn string_is(text: &String, literal: &str) -> (equal: bool)
    ensures
        equal == (text@ == literal@),
{
    *text == literal.to_owned()
}

} // verus!
