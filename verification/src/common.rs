//! Shared pieces: turning a prompt template into the role-tagged message
//! sent to the model, and the outcome of one HTTP probe, which both agents
//! consume when they validate URLs and endpoints.

use vstd::prelude::*;
use vstd::string::StringExecFns;

use crate::large_language_model::Message;

verus! {

/// What one bounded-timeout HTTP GET came back with: a numeric status code,
/// or a transport-level error (connection refused, timeout) before any
/// status was received.
#[derive(Debug, PartialEq, Eq, Structural, Clone, Copy)]
pub enum ProbeOutcome {
    Status(u16),
    TransportError,
}

/// The full prompt handed to the model for one task: the task's template
/// framed by the fixed function-printer instruction, with the caller's
/// context spliced in.
pub open spec fn spec_extended_prompt(template: Seq<char>, fn_arg: Seq<char>) -> Seq<char> {
    "FUNCTION "@ + template
        + "\nINSTRUCTION: You are a function printer. You ONLY print the result of functions. Nothing else. No commentary. Here is the input of the function: "@
        + fn_arg + ".\nPrint out what the function will return.\n"@
}

/// Wraps a task's prompt template and its context into the single system
/// message that every model request carries.
pub fn extend_ai_func(ai_func_template: &str, fn_arg: &str) -> (msg: Message)
    ensures
        msg.role@ == "system"@,
        msg.content@ == spec_extended_prompt(ai_func_template@, fn_arg@),
{
    let mut content: String = "FUNCTION ".to_owned();
    content.append(ai_func_template);
    content.append(
        "\nINSTRUCTION: You are a function printer. You ONLY print the result of functions. Nothing else. No commentary. Here is the input of the function: ",
    );
    content.append(fn_arg);
    content.append(".\nPrint out what the function will return.\n");

    Message { role: "system".to_owned(), content }
}

} // verus!
