//! What a command comes to, and how the result of a handler travels out of
//! the dispatcher.

use vstd::prelude::*;
use crate::command::{Output, OutputView};
use crate::error::{CliError, Context, ErrorView};
use crate::first_level::FirstLevelTrait;
use crate::second_level::SecondLevelTrait;

verus! {

/// The result of a command, with its texts as sequences of characters.
pub type Outcome = Result<OutputView, ErrorView>;

/// The outcome that a result stands for.
pub open spec fn outcome_of(result: Result<Output, CliError>) -> Outcome {
    match result {
        Ok(output) => Ok(output@),
        Err(error) => Err(error@),
    }
}

/// What the dispatcher makes of the result of a handler. The text of a
/// success is the output of the command; a failure crosses `contexts`, the
/// innermost first.
pub open spec fn relayed(handled: Result<String, CliError>, contexts: Seq<Context>) -> Outcome {
    match handled {
        Ok(text) => Ok(OutputView::Text(text@)),
        Err(error) => Err(
            ErrorView { cause: error@.cause, contexts: error@.contexts + contexts },
        ),
    }
}

/// An outcome after it crossed one more boundary.
pub open spec fn crossed(outcome: Outcome, context: Context) -> Outcome {
    match outcome {
        Ok(output) => Ok(output),
        Err(error) => Err(error.annotated(context)),
    }
}

/// What the dispatcher makes of the result of a handler: the text of a success
/// is the output of the command, and a failure is annotated with the boundary
/// it crosses.
pub fn relay(handled: Result<String, CliError>, context: Context) -> (result: Result<
    Output,
    CliError,
>)
    ensures
        outcome_of(result) == relayed(handled, seq![context]),
{
    match handled {
        Ok(text) => Ok(Output::Text(text)),
        Err(error) => {
            proof {
                assert(error@.contexts.push(context) =~= error@.contexts + seq![context]);
            }
            Err(error.context(context))
        },
    }
}

/// Passes a result across one more boundary: a success as it is, a failure
/// with the annotation of that boundary put on.
pub fn annotate(result: Result<Output, CliError>, context: Context) -> (annotated: Result<
    Output,
    CliError,
>)
    ensures
        outcome_of(annotated) == crossed(outcome_of(result), context),
{
    match result {
        Ok(output) => Ok(output),
        Err(error) => Err(error.context(context)),
    }
}

/// To relay across some boundaries and then to cross one more is to relay
/// across them all.
pub proof fn lemma_relayed_crosses(
    handled: Result<String, CliError>,
    contexts: Seq<Context>,
    context: Context,
)
    ensures
        crossed(relayed(handled, contexts), context) == relayed(handled, contexts.push(context)),
{
    if let Err(error) = handled {
        assert((error@.contexts + contexts).push(context) =~= error@.contexts + contexts.push(
            context,
        ));
    }
}

/// `outcome` comes of one call of the first-level handler on `flag`, relayed
/// across `contexts`.
pub open spec fn first_level_handled<F: FirstLevelTrait>(
    first_level: &F,
    flag: Option<String>,
    contexts: Seq<Context>,
    outcome: Outcome,
) -> bool {
    exists|handled: Result<String, CliError>| #[trigger]
        call_ensures(F::first_level_method, (first_level, flag), handled) && outcome == relayed(
            handled,
            contexts,
        )
}

/// `outcome` comes of one call of the second-level handler on `flag`, relayed
/// across `contexts`.
pub open spec fn second_level_handled<S: SecondLevelTrait>(
    second_level: &S,
    flag: Option<String>,
    contexts: Seq<Context>,
    outcome: Outcome,
) -> bool {
    exists|handled: Result<String, CliError>| #[trigger]
        call_ensures(S::second_level_method, (second_level, flag), handled) && outcome == relayed(
            handled,
            contexts,
        )
}

/// An outcome of the first-level handler that crosses one more boundary is an
/// outcome of the same call, relayed across that boundary too.
pub proof fn lemma_first_level_crosses<F: FirstLevelTrait>(
    first_level: &F,
    flag: Option<String>,
    contexts: Seq<Context>,
    context: Context,
    inner: Outcome,
)
    requires
        first_level_handled(first_level, flag, contexts, inner),
    ensures
        first_level_handled(first_level, flag, contexts.push(context), crossed(inner, context)),
{
    let handled = choose|handled: Result<String, CliError>| #[trigger]
        call_ensures(F::first_level_method, (first_level, flag), handled) && inner == relayed(
            handled,
            contexts,
        );
    lemma_relayed_crosses(handled, contexts, context);
}

/// An outcome of the second-level handler that crosses one more boundary is an
/// outcome of the same call, relayed across that boundary too.
pub proof fn lemma_second_level_crosses<S: SecondLevelTrait>(
    second_level: &S,
    flag: Option<String>,
    contexts: Seq<Context>,
    context: Context,
    inner: Outcome,
)
    requires
        second_level_handled(second_level, flag, contexts, inner),
    ensures
        second_level_handled(second_level, flag, contexts.push(context), crossed(inner, context)),
{
    let handled = choose|handled: Result<String, CliError>| #[trigger]
        call_ensures(S::second_level_method, (second_level, flag), handled) && inner == relayed(
            handled,
            contexts,
        );
    lemma_relayed_crosses(handled, contexts, context);
}

} // verus!
