//! The handler of the top-level sub-command.

use vstd::prelude::*;
use crate::command::Level;
use crate::error::{missing_flag_message, CliError, ErrorView};

verus! {

/// What the dispatcher asks of a first-level handler. The dispatcher knows a
/// handler by this one operation alone, so that any implementation can stand
/// in for [`FirstLevel`].
pub trait FirstLevelTrait {
    /// Handles the flag of the top-level sub-command. On success the result is
    /// the text that the handler writes to standard output, which may be
    /// empty.
    fn first_level_method(&self, first_level_flag: Option<String>) -> Result<String, CliError>;
}

/// The handler that reports the value it was given.
pub struct FirstLevel {}

/// The words with which [`FirstLevel`] introduces a flag value.
pub open spec fn first_level_words() -> Seq<char> {
    "Here is the first flag value: "@
}

/// The text that [`FirstLevel`] writes for a flag value: the words that
/// introduce it, the value as it is, and a line break.
pub open spec fn first_level_text(value: Seq<char>) -> Seq<char> {
    first_level_words() + value + "\n"@
}

impl FirstLevelTrait for FirstLevel {
    /// A present flag value is reported on a line of its own; an absent one is
    /// a failure.
    fn first_level_method(&self, first_level_flag: Option<String>) -> (result: Result<
        String,
        CliError,
    >)
        ensures
            match first_level_flag {
                Some(value) => result matches Ok(text) && text@ == first_level_text(value@),
                None => result matches Err(error) && error@ == ErrorView::root(
                    missing_flag_message(Level::First),
                ),
            },
    {
        match first_level_flag {
            Some(value) => {
                let text = String::from_str("Here is the first flag value: ").concat(
                    value.as_str(),
                ).concat("\n");
                Ok(text)
            },
            None => Err(CliError::missing_flag(Level::First)),
        }
    }
}

/// The text written for a flag value begins with the words that introduce
/// it, holds the value right behind them, and ends with a line break.
pub proof fn lemma_first_level_text_holds_value(value: Seq<char>)
    ensures
        first_level_text(value).len() == first_level_words().len() + value.len() + 1,
        first_level_text(value).take(first_level_words().len() as int) == first_level_words(),
        first_level_text(value).skip(first_level_words().len() as int).take(value.len() as int)
            == value,
        first_level_text(value).last() == '\n',
{
    reveal_strlit("\n");
}

} // verus!
