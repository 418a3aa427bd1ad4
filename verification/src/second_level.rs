//! The handler of the nested sub-command.

use vstd::prelude::*;
use crate::command::Level;
use crate::error::{missing_flag_message, CliError, ErrorView};

verus! {

/// What the dispatcher asks of a second-level handler. The dispatcher knows a
/// handler by this one operation alone, so that any implementation can stand
/// in for [`SecondLevel`].
pub trait SecondLevelTrait {
    /// Handles the flag of the nested sub-command. On success the result is
    /// the text that the handler writes to standard output, which may be
    /// empty.
    fn second_level_method(&self, second_level_flag: Option<String>) -> Result<String, CliError>;
}

/// The handler that reports the value it was given.
pub struct SecondLevel {}

/// The words with which [`SecondLevel`] introduces a flag value.
pub open spec fn second_level_words() -> Seq<char> {
    "Here is the second flag value: "@
}

/// The text that [`SecondLevel`] writes for a flag value: the words that
/// introduce it, the value as it is, and a line break.
pub open spec fn second_level_text(value: Seq<char>) -> Seq<char> {
    second_level_words() + value + "\n"@
}

impl SecondLevelTrait for SecondLevel {
    /// A present flag value is reported on a line of its own; an absent one is
    /// a failure.
    fn second_level_method(&self, second_level_flag: Option<String>) -> (result: Result<
        String,
        CliError,
    >)
        ensures
            match second_level_flag {
                Some(value) => result matches Ok(text) && text@ == second_level_text(value@),
                None => result matches Err(error) && error@ == ErrorView::root(
                    missing_flag_message(Level::Second),
                ),
            },
    {
        match second_level_flag {
            Some(value) => {
                let text = String::from_str("Here is the second flag value: ").concat(
                    value.as_str(),
                ).concat("\n");
                Ok(text)
            },
            None => Err(CliError::missing_flag(Level::Second)),
        }
    }
}

/// The text written for a flag value begins with the words that introduce
/// it, holds the value right behind them, and ends with a line break.
pub proof fn lemma_second_level_text_holds_value(value: Seq<char>)
    ensures
        second_level_text(value).len() == second_level_words().len() + value.len() + 1,
        second_level_text(value).take(second_level_words().len() as int) == second_level_words(),
        second_level_text(value).skip(second_level_words().len() as int).take(value.len() as int)
            == value,
        second_level_text(value).last() == '\n',
{
    reveal_strlit("\n");
}

} // verus!
