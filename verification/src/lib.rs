//! A two-level command-line dispatcher: the command tree, the handlers of its
//! two levels, and the rules that pick a handler or a usage text.
//!
//! Nothing here reads the arguments of the process or writes to its streams.
//! The dispatcher takes the parsed command tree and answers with what is to
//! appear on standard output: the text that a handler wrote, or the level
//! whose usage text is to be shown.

pub mod command;
pub mod error;
pub mod first_level;
pub mod outcome;
pub mod report;
pub mod second_level;

use vstd::prelude::*;
use crate::command::{
    Cli, Commands, FirstLevelCommands, FirstLevelSubCommand, Level, Output, OutputView, Route,
    SecondLevelSubCommand,
};
use crate::error::{CliError, Context, ErrorView};
use crate::first_level::{first_level_text, FirstLevel, FirstLevelTrait};
use crate::outcome::{
    annotate, first_level_handled, lemma_first_level_crosses, lemma_second_level_crosses,
    outcome_of, relay, second_level_handled, Outcome,
};
use crate::second_level::{second_level_text, SecondLevel, SecondLevelTrait};

verus! {

/// Runs the nested sub-command. With its flag absent the usage text of the
/// nested level is to be shown and no handler runs. With the flag present the
/// second-level handler is given the flag, and its result is relayed.
pub fn run_second_level_sub_command<S: SecondLevelTrait>(
    second_level_sub_command: SecondLevelSubCommand,
    second_level: &S,
) -> (result: Result<Output, CliError>)
    ensures
        match second_level_sub_command.second_level_flag {
            None => outcome_of(result) == Ok::<OutputView, ErrorView>(
                OutputView::Usage(Level::Second),
            ),
            Some(_) => second_level_handled(
                second_level,
                second_level_sub_command.second_level_flag,
                seq![Context::SecondLevelSubCommand],
                outcome_of(result),
            ),
        },
{
    if second_level_sub_command.second_level_flag.is_none() {
        return Ok(Output::Usage(Level::Second));
    }
    let handled = second_level.second_level_method(second_level_sub_command.second_level_flag);
    relay(handled, Context::SecondLevelSubCommand)
}

/// Runs the nested sub-command and passes its result across the boundary of
/// the nested level.
pub fn process_second_level_sub_command<S: SecondLevelTrait>(
    second_level_sub_command: SecondLevelSubCommand,
    second_level: &S,
) -> (result: Result<Output, CliError>)
    ensures
        match second_level_sub_command.second_level_flag {
            None => outcome_of(result) == Ok::<OutputView, ErrorView>(
                OutputView::Usage(Level::Second),
            ),
            Some(_) => second_level_handled(
                second_level,
                second_level_sub_command.second_level_flag,
                seq![Context::SecondLevelSubCommand, Context::SecondLevelSubCommand],
                outcome_of(result),
            ),
        },
{
    let ghost flag = second_level_sub_command.second_level_flag;
    let inner = run_second_level_sub_command(second_level_sub_command, second_level);
    proof {
        if flag is Some {
            lemma_second_level_crosses(
                second_level,
                flag,
                seq![Context::SecondLevelSubCommand],
                Context::SecondLevelSubCommand,
                outcome_of(inner),
            );
            assert(seq![Context::SecondLevelSubCommand].push(Context::SecondLevelSubCommand)
                =~= seq![Context::SecondLevelSubCommand, Context::SecondLevelSubCommand]);
        }
    }
    annotate(inner, Context::SecondLevelSubCommand)
}

/// Runs the top-level sub-command by itself. With neither a flag nor a nested
/// sub-command the top-level usage text is to be shown and no handler runs.
/// Otherwise the first-level handler is given the flag, present or not, and
/// its result is relayed.
pub fn process_first_level_command<F: FirstLevelTrait>(
    first_level_sub_command: FirstLevelSubCommand,
    first_level: &F,
) -> (result: Result<Output, CliError>)
    ensures
        if first_level_sub_command.first_level_flag is None
            && first_level_sub_command.command is None {
            outcome_of(result) == Ok::<OutputView, ErrorView>(OutputView::Usage(Level::First))
        } else {
            first_level_handled(
                first_level,
                first_level_sub_command.first_level_flag,
                seq![Context::FirstLevelSubCommand],
                outcome_of(result),
            )
        },
{
    if first_level_sub_command.first_level_flag.is_none()
        && first_level_sub_command.command.is_none() {
        return Ok(Output::Usage(Level::First));
    }
    let handled = first_level.first_level_method(first_level_sub_command.first_level_flag);
    relay(handled, Context::FirstLevelSubCommand)
}

/// `outcome` is what a command on `route` comes to when a failure of the
/// first-level handler crosses `first_contexts` and one of the second-level
/// handler crosses `second_contexts`: the usage text of a level, with no word
/// of either handler, or one call of the handler that the route names on the
/// value that it names.
pub open spec fn dispatched<F: FirstLevelTrait, S: SecondLevelTrait>(
    route: Route,
    first_level: &F,
    second_level: &S,
    first_contexts: Seq<Context>,
    second_contexts: Seq<Context>,
    outcome: Outcome,
) -> bool {
    match route {
        Route::Usage(level) => outcome == Ok::<OutputView, ErrorView>(OutputView::Usage(level)),
        Route::Handler(Level::First, value) => first_level_handled(
            first_level,
            Some(value),
            first_contexts,
            outcome,
        ),
        Route::Handler(Level::Second, value) => second_level_handled(
            second_level,
            Some(value),
            second_contexts,
            outcome,
        ),
    }
}

/// Runs the top-level sub-command. A nested sub-command, where one was
/// selected, is run in its place, whatever the top-level flag holds.
pub fn run_first_level_sub_command<F: FirstLevelTrait, S: SecondLevelTrait>(
    first_level_sub_command: FirstLevelSubCommand,
    first_level: &F,
    second_level: &S,
) -> (result: Result<Output, CliError>)
    ensures
        dispatched(
            first_level_sub_command.route(),
            first_level,
            second_level,
            seq![Context::FirstLevelSubCommand],
            seq![Context::SecondLevelSubCommand, Context::SecondLevelSubCommand],
            outcome_of(result),
        ),
{
    match first_level_sub_command.command {
        Some(FirstLevelCommands::SecondLevelSubCommand(second_level_sub_command)) => {
            process_second_level_sub_command(second_level_sub_command, second_level)
        },
        None => process_first_level_command(first_level_sub_command, first_level),
    }
}

/// Dispatches a parsed command line to the two handlers, and passes the result
/// across the boundary of the top-level sub-command.
///
/// A command whose route is a usage text comes to that usage text and to
/// nothing else, whatever the handlers are. Any other command comes to one
/// call of the handler of its route, on a present flag value.
pub fn execute_cli_commands<F: FirstLevelTrait, S: SecondLevelTrait>(
    cli: Cli,
    first_level: &F,
    second_level: &S,
) -> (result: Result<Output, CliError>)
    ensures
        dispatched(
            cli.route(),
            first_level,
            second_level,
            seq![Context::FirstLevelSubCommand, Context::FirstLevelSubCommand],
            seq![
                Context::SecondLevelSubCommand,
                Context::SecondLevelSubCommand,
                Context::FirstLevelSubCommand,
            ],
            outcome_of(result),
        ),
{
    let ghost route = cli.route();
    match cli.command {
        Commands::FirstLevelSubCommand(first_level_sub_command) => {
            let inner = run_first_level_sub_command(
                first_level_sub_command,
                first_level,
                second_level,
            );
            proof {
                match route {
                    Route::Usage(_) => {},
                    Route::Handler(Level::First, value) => {
                        lemma_first_level_crosses(
                            first_level,
                            Some(value),
                            seq![Context::FirstLevelSubCommand],
                            Context::FirstLevelSubCommand,
                            outcome_of(inner),
                        );
                        assert(seq![Context::FirstLevelSubCommand].push(
                            Context::FirstLevelSubCommand,
                        ) =~= seq![Context::FirstLevelSubCommand, Context::FirstLevelSubCommand]);
                    },
                    Route::Handler(Level::Second, value) => {
                        lemma_second_level_crosses(
                            second_level,
                            Some(value),
                            seq![Context::SecondLevelSubCommand, Context::SecondLevelSubCommand],
                            Context::FirstLevelSubCommand,
                            outcome_of(inner),
                        );
                        assert(seq![
                            Context::SecondLevelSubCommand,
                            Context::SecondLevelSubCommand,
                        ].push(Context::FirstLevelSubCommand) =~= seq![
                            Context::SecondLevelSubCommand,
                            Context::SecondLevelSubCommand,
                            Context::FirstLevelSubCommand,
                        ]);
                    },
                }
            }
            annotate(inner, Context::FirstLevelSubCommand)
        },
    }
}

/// What a command comes to with the handlers [`FirstLevel`] and
/// [`SecondLevel`]: the usage text of its route, or the line that reports the
/// flag value of its route. It never comes to a failure.
pub open spec fn reported(route: Route) -> Outcome {
    match route {
        Route::Usage(level) => Ok(OutputView::Usage(level)),
        Route::Handler(Level::First, value) => Ok(OutputView::Text(first_level_text(value@))),
        Route::Handler(Level::Second, value) => Ok(OutputView::Text(second_level_text(value@))),
    }
}

/// Runs a parsed command line with the handlers [`FirstLevel`] and
/// [`SecondLevel`].
pub fn run(cli: Cli) -> (result: Result<Output, CliError>)
    ensures
        result is Ok,
        outcome_of(result) == reported(cli.route()),
{
    let first_level = FirstLevel {};
    let second_level = SecondLevel {};
    let result = execute_cli_commands(cli, &first_level, &second_level);
    annotate(result, Context::ExecuteCliCommands)
}

/// A command with neither a flag nor a nested sub-command comes to the
/// top-level usage text and to success, whatever the two handlers are: neither
/// has a say in the outcome.
pub proof fn lemma_bare_command_shows_usage<F: FirstLevelTrait, S: SecondLevelTrait>(
    cli: Cli,
    first_level: &F,
    second_level: &S,
    first_contexts: Seq<Context>,
    second_contexts: Seq<Context>,
    outcome: Outcome,
)
    requires
        cli.command matches Commands::FirstLevelSubCommand(top) && top.first_level_flag is None
            && top.command is None,
        dispatched(
            cli.route(),
            first_level,
            second_level,
            first_contexts,
            second_contexts,
            outcome,
        ),
    ensures
        outcome == Ok::<OutputView, ErrorView>(OutputView::Usage(Level::First)),
{
}

/// A command with a nested sub-command whose flag is absent comes to the usage
/// text of the nested level and to success, whatever the top-level flag holds
/// and whatever the two handlers are.
pub proof fn lemma_nested_command_without_flag_shows_usage<
    F: FirstLevelTrait,
    S: SecondLevelTrait,
>(
    cli: Cli,
    first_level: &F,
    second_level: &S,
    first_contexts: Seq<Context>,
    second_contexts: Seq<Context>,
    outcome: Outcome,
)
    requires
        cli.command matches Commands::FirstLevelSubCommand(top) && top.command matches Some(
            FirstLevelCommands::SecondLevelSubCommand(nested),
        ) && nested.second_level_flag is None,
        dispatched(
            cli.route(),
            first_level,
            second_level,
            first_contexts,
            second_contexts,
            outcome,
        ),
    ensures
        outcome == Ok::<OutputView, ErrorView>(OutputView::Usage(Level::Second)),
{
}

/// A command fails only where a handler failed. The failure is then that of
/// the handler of its route, called on the flag value of its route, and it
/// keeps the cause that the handler gave.
pub proof fn lemma_failure_is_that_of_a_handler<F: FirstLevelTrait, S: SecondLevelTrait>(
    route: Route,
    first_level: &F,
    second_level: &S,
    first_contexts: Seq<Context>,
    second_contexts: Seq<Context>,
    outcome: Outcome,
)
    requires
        dispatched(route, first_level, second_level, first_contexts, second_contexts, outcome),
        outcome is Err,
    ensures
        match route {
            Route::Usage(_) => false,
            Route::Handler(Level::First, value) => exists|handled: Result<String, CliError>|
                #[trigger] call_ensures(
                    F::first_level_method,
                    (first_level, Some(value)),
                    handled,
                ) && (handled matches Err(error) && outcome->Err_0.cause == error@.cause),
            Route::Handler(Level::Second, value) => exists|handled: Result<String, CliError>|
                #[trigger] call_ensures(
                    S::second_level_method,
                    (second_level, Some(value)),
                    handled,
                ) && (handled matches Err(error) && outcome->Err_0.cause == error@.cause),
        },
{
}

/// A nested sub-command takes precedence. Where one was selected, the command
/// goes where the nested sub-command goes, and so never to the first-level
/// handler, whatever the top-level flag holds.
pub proof fn lemma_nested_command_takes_precedence(
    top: FirstLevelSubCommand,
    nested: SecondLevelSubCommand,
)
    requires
        top.command == Some(FirstLevelCommands::SecondLevelSubCommand(nested)),
    ensures
        top.route() == nested.route(),
        !(top.route() matches Route::Handler(Level::First, _)),
        !(top.route() matches Route::Usage(Level::First)),
{
}

/// A handler is only ever given a flag value that is present in the command:
/// the value of the flag of its own level.
pub proof fn lemma_route_to_handler_holds_flag(top: FirstLevelSubCommand, value: String)
    ensures
        top.route() == Route::Handler(Level::First, value) <==> top.command is None
            && top.first_level_flag == Some(value),
        top.route() == Route::Handler(Level::Second, value) <==> (top.command matches Some(
            FirstLevelCommands::SecondLevelSubCommand(nested),
        ) && nested.second_level_flag == Some(value)),
{
}

} // verus!
