//! What the process owes its caller once a command has ended: the exit status
//! and, after a failure, the line for standard error.

use vstd::prelude::*;
use crate::error::CliError;

verus! {

/// The exit status after a success, which includes a usage text shown.
pub const EXIT_SUCCESS: i32 = 0;

/// The exit status after the failure of a handler.
pub const EXIT_FAILURE: i32 = 1;

/// The exit status of the process for the result of a command.
pub fn exit_code<T>(result: &Result<T, CliError>) -> (code: i32)
    ensures
        code == if result is Ok {
            EXIT_SUCCESS
        } else {
            EXIT_FAILURE
        },
{
    match result {
        Ok(_) => EXIT_SUCCESS,
        Err(_) => EXIT_FAILURE,
    }
}

/// The line for standard error after a failure, without its line break: the
/// words `Application error: ` and the message shown for the failure.
pub open spec fn application_error_line(message: Seq<char>) -> Seq<char> {
    "Application error: "@ + message
}

/// The line for standard error after a failure, without its line break.
pub fn application_error(error: &CliError) -> (line: String)
    ensures
        line@ == application_error_line(error@.message()),
{
    let message = error.message();
    String::from_str("Application error: ").concat(message.as_str())
}

/// Settles an attempt to show a usage text, of which `rendered` tells whether
/// the text could be rendered. The command has succeeded either way: a usage
/// text that could not be shown is no failure of the command, and what went
/// wrong with it has no part in the result.
pub fn usage_rendered(rendered: Result<(), String>) -> (result: Result<(), CliError>)
    ensures
        result == Ok::<(), CliError>(()),
{
    match rendered {
        Ok(()) => Ok(()),
        Err(_) => Ok(()),
    }
}

} // verus!
