//! The failures of a command.
//!
//! A failure keeps the message of its cause and, in the order in which they
//! were put on, the annotations of the boundaries it crossed on its way out.

use vstd::prelude::*;
use crate::command::Level;

verus! {

/// The boundary that a failure crossed.
#[derive(Clone, Copy, Debug, PartialEq, Eq, Structural)]
pub enum Context {
    /// The entry of the dispatcher.
    ExecuteCliCommands,
    /// The top-level sub-command.
    FirstLevelSubCommand,
    /// The nested sub-command.
    SecondLevelSubCommand,
}

impl Context {
    /// The message of this annotation.
    pub open spec fn spec_text(self) -> Seq<char> {
        match self {
            Context::ExecuteCliCommands => "execute cli commands error"@,
            Context::FirstLevelSubCommand => "first level sub command error"@,
            Context::SecondLevelSubCommand => "second level sub command error"@,
        }
    }

    /// The message of this annotation.
    pub fn text(self) -> (text: &'static str)
        ensures
            text@ == self.spec_text(),
    {
        match self {
            Context::ExecuteCliCommands => "execute cli commands error",
            Context::FirstLevelSubCommand => "first level sub command error",
            Context::SecondLevelSubCommand => "second level sub command error",
        }
    }
}

/// The message of the failure of a handler that was given no flag value.
pub open spec fn missing_flag_message(level: Level) -> Seq<char> {
    match level {
        Level::First => "first level flag is empty"@,
        Level::Second => "second level flag is empty"@,
    }
}

/// What a failure says: the message of its cause, and the annotations put on
/// it since, the first one put on first.
pub struct ErrorView {
    /// The message of the cause.
    pub cause: Seq<char>,
    /// The boundaries crossed since, the innermost first.
    pub contexts: Seq<Context>,
}

impl ErrorView {
    /// A failure that crossed no boundary yet.
    pub open spec fn root(cause: Seq<char>) -> ErrorView {
        ErrorView { cause, contexts: Seq::empty() }
    }

    /// This failure after it crossed one more boundary.
    pub open spec fn annotated(self, context: Context) -> ErrorView {
        ErrorView { cause: self.cause, contexts: self.contexts.push(context) }
    }

    /// The message shown for this failure: that of the last annotation, or
    /// that of the cause where there is none.
    pub open spec fn message(self) -> Seq<char> {
        if self.contexts.len() > 0 {
            self.contexts.last().spec_text()
        } else {
            self.cause
        }
    }
}

/// The failure of a command.
#[derive(Debug, PartialEq, Eq)]
pub struct CliError {
    /// The message of the cause.
    pub cause: String,
    /// The boundaries crossed since, the innermost first.
    pub contexts: Vec<Context>,
}

impl View for CliError {
    type V = ErrorView;

    open spec fn view(&self) -> ErrorView {
        ErrorView { cause: self.cause@, contexts: self.contexts@ }
    }
}

impl CliError {
    /// A failure with the given cause, which crossed no boundary yet.
    pub fn new(cause: String) -> (error: CliError)
        ensures
            error@ == ErrorView::root(cause@),
    {
        CliError { cause, contexts: Vec::new() }
    }

    /// The failure of the handler of `level` that was given no flag value.
    pub fn missing_flag(level: Level) -> (error: CliError)
        ensures
            error@ == ErrorView::root(missing_flag_message(level)),
    {
        match level {
            Level::First => CliError::new(String::from_str("first level flag is empty")),
            Level::Second => CliError::new(String::from_str("second level flag is empty")),
        }
    }

    /// Annotates this failure with the boundary it crosses. The cause and the
    /// earlier annotations stay as they are.
    pub fn context(self, context: Context) -> (error: CliError)
        ensures
            error@ == self@.annotated(context),
    {
        let mut contexts = self.contexts;
        contexts.push(context);
        CliError { cause: self.cause, contexts }
    }

    /// The message shown for this failure: that of the outermost annotation,
    /// or that of the cause where the failure crossed no boundary.
    pub fn message(&self) -> (message: String)
        ensures
            message@ == self@.message(),
    {
        let n: usize = self.contexts.len();
        if n > 0 {
            String::from_str(self.contexts[n - 1].text())
        } else {
            self.cause.clone()
        }
    }
}

/// The two handlers fail with different messages where the flag is absent.
pub proof fn lemma_missing_flag_message_tells_level(a: Level, b: Level)
    ensures
        missing_flag_message(a) == missing_flag_message(b) <==> a == b,
{
    reveal_strlit("first level flag is empty");
    reveal_strlit("second level flag is empty");
    assert(missing_flag_message(Level::First).len() == 25);
    assert(missing_flag_message(Level::Second).len() == 26);
}

} // verus!
