//! The command tree, as it stands once the arguments of the process are
//! parsed, and what a command leaves for standard output.

use vstd::prelude::*;

verus! {

/// One of the two levels of the command tree.
#[derive(Clone, Copy, Debug, PartialEq, Eq, Structural)]
pub enum Level {
    /// The top-level sub-command.
    First,
    /// The sub-command nested in the top-level one.
    Second,
}

/// The nested sub-command, with its own flag.
#[derive(Debug, PartialEq, Eq)]
pub struct SecondLevelSubCommand {
    /// Second level flag
    pub second_level_flag: Option<String>,
}

/// The sub-commands below the top-level one.
#[derive(Debug, PartialEq, Eq)]
pub enum FirstLevelCommands {
    SecondLevelSubCommand(SecondLevelSubCommand),
}

/// The top-level sub-command: its flag and, where one was selected, the
/// nested sub-command.
#[derive(Debug, PartialEq, Eq)]
pub struct FirstLevelSubCommand {
    /// First level flag
    pub first_level_flag: Option<String>,
    pub command: Option<FirstLevelCommands>,
}

/// The sub-commands of the program.
#[derive(Debug, PartialEq, Eq)]
pub enum Commands {
    FirstLevelSubCommand(FirstLevelSubCommand),
}

/// The root of the command tree.
#[derive(Debug, PartialEq, Eq)]
pub struct Cli {
    pub command: Commands,
}

/// Where a command goes: to the usage text of a level, or to the handler of a
/// level with the value of that level's flag.
pub enum Route {
    Usage(Level),
    Handler(Level, String),
}

impl SecondLevelSubCommand {
    /// The nested sub-command goes to its handler where its flag is present,
    /// and to its usage text where it is absent.
    pub open spec fn route(self) -> Route {
        match self.second_level_flag {
            Some(value) => Route::Handler(Level::Second, value),
            None => Route::Usage(Level::Second),
        }
    }
}

impl FirstLevelSubCommand {
    /// A nested sub-command, where one was selected, decides alone. Without
    /// one the top-level flag goes to the first-level handler, and a command
    /// with neither goes to the top-level usage text.
    pub open spec fn route(self) -> Route {
        match self.command {
            Some(FirstLevelCommands::SecondLevelSubCommand(nested)) => nested.route(),
            None => match self.first_level_flag {
                Some(value) => Route::Handler(Level::First, value),
                None => Route::Usage(Level::First),
            },
        }
    }
}

impl Cli {
    /// Where the one sub-command of the program goes.
    pub open spec fn route(self) -> Route {
        match self.command {
            Commands::FirstLevelSubCommand(top) => top.route(),
        }
    }
}

/// What a command leaves for standard output.
#[derive(Debug, PartialEq, Eq)]
pub enum Output {
    /// The usage text of the given level is to be shown.
    Usage(Level),
    /// A handler ran, and this is the text it writes.
    Text(String),
}

/// An [`Output`] with its text as a sequence of characters.
pub enum OutputView {
    Usage(Level),
    Text(Seq<char>),
}

impl View for Output {
    type V = OutputView;

    open spec fn view(&self) -> OutputView {
        match *self {
            Output::Usage(level) => OutputView::Usage(level),
            Output::Text(text) => OutputView::Text(text@),
        }
    }
}

} // verus!
