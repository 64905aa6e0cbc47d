//! Properties of the pipeline as a whole, stated over runs of the state
//! machine: a run is the fold of [`next_state`] over a sequence of events,
//! and the actions along a run are what the driver is asked to perform.

use vstd::prelude::*;
use crate::errors::ErrorModel;
use crate::errors::error_description;
use crate::paths::InputModel;
use crate::paths::PathsModel;
use crate::paths::invalid_input_error;
use crate::paths::resolved_model;
use crate::paths::valid_epub_path;
use crate::pipeline::ActionModel;
use crate::pipeline::EventModel;
use crate::pipeline::SpawnOutcomeModel;
use crate::pipeline::StateModel;
use crate::pipeline::ToolOutcomeModel;
use crate::pipeline::action_of;
use crate::pipeline::dependency_result_model;
use crate::pipeline::initial_state;
use crate::pipeline::next_state;
use crate::pipeline::tool_failed_prefix;
use crate::transform::markdown_of;

verus! {

/// The state a machine reaches from `s` after the events `es`, in order.
pub open spec fn run(s: StateModel, es: Seq<EventModel>) -> StateModel
    decreases es.len(),
{
    if es.len() == 0 {
        s
    } else {
        run(next_state(s, es[0]), es.drop_first())
    }
}

/// The actions a driver is asked to perform along the run of `es` from
/// `s`: the action of `s`, then of each state the events lead through.
pub open spec fn actions_along(s: StateModel, es: Seq<EventModel>) -> Seq<ActionModel>
    decreases es.len(),
{
    if es.len() == 0 {
        seq![action_of(s)]
    } else {
        seq![action_of(s)] + actions_along(next_state(s, es[0]), es.drop_first())
    }
}

/// The actions that spawn a subprocess.
pub open spec fn spawns_process(a: ActionModel) -> bool {
    a is CheckDependency || a is RunConverter
}

/// The actions that create, change or remove a file: the converter run
/// creates the intermediate file, the write creates the output file, and
/// the delete removes the intermediate file.
pub open spec fn touches_file(a: ActionModel) -> bool {
    a is RunConverter || a is WriteOutput || a is DeleteIntermediate
}

/// `Failed` is terminal: no event leads out of it, and along any further
/// run the driver is only ever asked to report the failure.
pub proof fn lemma_failed_is_terminal(error: ErrorModel, es: Seq<EventModel>)
    ensures
        (run(StateModel::Failed { error }, es) == StateModel::Failed { error }),
        (forall|i: int|
            0 <= i < actions_along(StateModel::Failed { error }, es).len()
                ==> #[trigger] actions_along(StateModel::Failed { error }, es)[i]
                == ActionModel::ReportFailure { error }),
    decreases es.len(),
{
    if es.len() == 0 {
    } else {
        assert(next_state(StateModel::Failed { error }, es[0]) == StateModel::Failed { error });
        lemma_failed_is_terminal(error, es.drop_first());
        assert forall|i: int|
            0 <= i < actions_along(StateModel::Failed { error }, es).len() implies #[trigger] actions_along(
            StateModel::Failed { error },
            es,
        )[i] == ActionModel::ReportFailure { error } by {
            if i > 0 {
                assert(actions_along(StateModel::Failed { error }, es)[i] == actions_along(
                    StateModel::Failed { error },
                    es.drop_first(),
                )[i - 1]);
            }
        }
    }
}

/// An input path that does not carry the `.epub` extension fails with
/// `InvalidInput` at once: whatever events follow, the machine stays in
/// that failure, and the driver is never asked to spawn a subprocess or
/// to touch a file.
pub proof fn lemma_invalid_input_rejected_up_front(input: InputModel, es: Seq<EventModel>)
    requires
        !valid_epub_path(input.epub_path),
    ensures
        (run(initial_state(input), es) == StateModel::Failed {
            error: invalid_input_error(input.epub_path),
        }),
        (invalid_input_error(input.epub_path) is InvalidInput),
        (forall|i: int|
            0 <= i < actions_along(initial_state(input), es).len() ==> !spawns_process(
                #[trigger] actions_along(initial_state(input), es)[i],
            ) && !touches_file(actions_along(initial_state(input), es)[i])),
{
    let error = invalid_input_error(input.epub_path);
    assert(initial_state(input) == StateModel::Failed { error });
    lemma_failed_is_terminal(error, es);
}

/// When the dependency check fails, the run ends in `Failed` with
/// `DependencyUnavailable`, and no action along the whole run — the check
/// itself included — creates, changes or removes a file: no intermediate
/// file is created and no output file is written.
pub proof fn lemma_dependency_failure_touches_no_file(
    input: InputModel,
    outcome: SpawnOutcomeModel,
    es: Seq<EventModel>,
)
    requires
        valid_epub_path(input.epub_path),
        dependency_result_model(outcome) is Err,
    ensures
        ({
            let full = seq![EventModel::Dependency { outcome }] + es;
            &&& run(initial_state(input), full) == StateModel::Failed {
                error: dependency_result_model(outcome)->Err_0,
            }
            &&& dependency_result_model(outcome)->Err_0 is DependencyUnavailable
            &&& forall|i: int|
                0 <= i < actions_along(initial_state(input), full).len() ==> !touches_file(
                    #[trigger] actions_along(initial_state(input), full)[i],
                )
        }),
{
    let error = dependency_result_model(outcome)->Err_0;
    let full = seq![EventModel::Dependency { outcome }] + es;
    let start = initial_state(input);
    assert(start == StateModel::Start { input });
    assert(full[0] == EventModel::Dependency { outcome });
    assert(full.drop_first() =~= es);
    assert(next_state(start, full[0]) == StateModel::Failed { error });
    lemma_failed_is_terminal(error, es);
    assert forall|i: int|
        0 <= i < actions_along(start, full).len() implies !touches_file(
        #[trigger] actions_along(start, full)[i],
    ) by {
        if i == 0 {
            assert(actions_along(start, full)[0] == ActionModel::CheckDependency);
        } else {
            assert(actions_along(start, full)[i] == actions_along(
                StateModel::Failed { error },
                es,
            )[i - 1]);
        }
    }
}

/// When the external tool reports a failure status, the machine fails
/// with an `ExternalToolError` whose message carries the tool's captured
/// error text verbatim: the text stands unchanged right after the fixed
/// prefix.
pub proof fn lemma_tool_failure_reports_stderr(
    epub: Seq<char>,
    paths: PathsModel,
    stderr: Seq<char>,
)
    ensures
        ({
            let s = StateModel::PathsResolved { epub, paths };
            let e = EventModel::Converter {
                outcome: ToolOutcomeModel::Exited { success: false, stderr },
            };
            let msg = tool_failed_prefix() + stderr;
            let desc = error_description(ErrorModel::ExternalToolError { msg });
            &&& next_state(s, e) == StateModel::Failed {
                error: ErrorModel::ExternalToolError { msg },
            }
            &&& msg.subrange(tool_failed_prefix().len() as int, msg.len() as int) == stderr
            &&& desc.subrange(desc.len() - stderr.len(), desc.len() as int) == stderr
        }),
{
    let msg = tool_failed_prefix() + stderr;
    let desc = error_description(ErrorModel::ExternalToolError { msg });
    assert(msg.subrange(tool_failed_prefix().len() as int, msg.len() as int) =~= stderr);
    assert(desc.subrange(desc.len() - stderr.len(), desc.len() as int) =~= stderr);
}

/// The Markdown text the machine asks the driver to write is a function
/// of the intermediate file's text alone: whatever run produced the HTML,
/// reading the same text leads to a write of the same bytes at the run's
/// output path.  Two runs of the pipeline over the same input whose
/// intermediate files hold the same text therefore write byte-identical
/// output.
pub proof fn lemma_markdown_depends_on_html_alone(
    paths1: PathsModel,
    paths2: PathsModel,
    html: Seq<char>,
)
    ensures
        ({
            let e = EventModel::Read { result: Ok(html) };
            let s1 = next_state(StateModel::HtmlProduced { paths: paths1 }, e);
            let s2 = next_state(StateModel::HtmlProduced { paths: paths2 }, e);
            &&& action_of(s1) == ActionModel::WriteOutput {
                path: paths1.output,
                content: markdown_of(html),
            }
            &&& action_of(s2) == ActionModel::WriteOutput {
                path: paths2.output,
                content: markdown_of(html),
            }
        }),
{
}

/// The machine reaches `Done` only from `MarkdownWritten`, and only on a
/// successful deletion of the intermediate file: a run that ends in
/// success leaves no intermediate file behind.
pub proof fn lemma_done_only_after_cleanup(s: StateModel, e: EventModel)
    requires
        !(s is Done),
    ensures
        next_state(s, e) is Done ==> {
            &&& s is MarkdownWritten
            &&& e == EventModel::Delete { error: None::<Seq<char>> }
            &&& action_of(s) == ActionModel::DeleteIntermediate {
                path: s->MarkdownWritten_paths.intermediate,
            }
        },
{
}

/// A full successful run, step by step: with an accepted input, the
/// canonical six events — dependency check passed, working directory
/// resolved, converter succeeded, intermediate text read, output written,
/// intermediate deleted — lead to `Done` at the resolved output path, and
/// the driver is asked for exactly the seven actions of the pipeline, the
/// write carrying the Markdown rendering of the text that was read.
pub proof fn lemma_successful_run(input: InputModel, cwd: Seq<char>, html: Seq<char>)
    requires
        valid_epub_path(input.epub_path),
    ensures
        ({
            let paths = resolved_model(input, cwd);
            let es = seq![
                EventModel::Dependency { outcome: SpawnOutcomeModel::Exited { success: true } },
                EventModel::Cwd { result: Ok(cwd) },
                EventModel::Converter {
                    outcome: ToolOutcomeModel::Exited { success: true, stderr: Seq::empty() },
                },
                EventModel::Read { result: Ok(html) },
                EventModel::Write { error: None },
                EventModel::Delete { error: None },
            ];
            &&& run(initial_state(input), es) == StateModel::Done { output: paths.output }
            &&& actions_along(initial_state(input), es) =~= seq![
                ActionModel::CheckDependency,
                ActionModel::ResolveCwd,
                ActionModel::RunConverter {
                    epub: input.epub_path,
                    html_out: paths.intermediate,
                },
                ActionModel::ReadIntermediate { path: paths.intermediate },
                ActionModel::WriteOutput { path: paths.output, content: markdown_of(html) },
                ActionModel::DeleteIntermediate { path: paths.intermediate },
                ActionModel::ReportSuccess { output: paths.output },
            ]
        }),
{
    let paths = resolved_model(input, cwd);
    let es = seq![
        EventModel::Dependency { outcome: SpawnOutcomeModel::Exited { success: true } },
        EventModel::Cwd { result: Ok(cwd) },
        EventModel::Converter {
            outcome: ToolOutcomeModel::Exited { success: true, stderr: Seq::empty() },
        },
        EventModel::Read { result: Ok(html) },
        EventModel::Write { error: None },
        EventModel::Delete { error: None },
    ];
    let s0 = initial_state(input);
    let s1 = StateModel::DependencyChecked { input };
    let s2 = StateModel::PathsResolved { epub: input.epub_path, paths };
    let s3 = StateModel::HtmlProduced { paths };
    let s4 = StateModel::HtmlRead { paths, markdown: markdown_of(html) };
    let s5 = StateModel::MarkdownWritten { paths };
    let s6 = StateModel::Done { output: paths.output };
    let es1 = es.drop_first();
    let es2 = es1.drop_first();
    let es3 = es2.drop_first();
    let es4 = es3.drop_first();
    let es5 = es4.drop_first();
    let es6 = es5.drop_first();
    assert(s0 == StateModel::Start { input });
    assert(es1[0] == es[1] && es2[0] == es[2] && es3[0] == es[3] && es4[0] == es[4] && es5[0]
        == es[5] && es6.len() == 0);
    assert(next_state(s0, es[0]) == s1);
    assert(next_state(s1, es[1]) == s2);
    assert(next_state(s2, es[2]) == s3);
    assert(next_state(s3, es[3]) == s4);
    assert(next_state(s4, es[4]) == s5);
    assert(next_state(s5, es[5]) == s6);
    assert(run(s0, es) == run(s1, es1));
    assert(run(s1, es1) == run(s2, es2));
    assert(run(s2, es2) == run(s3, es3));
    assert(run(s3, es3) == run(s4, es4));
    assert(run(s4, es4) == run(s5, es5));
    assert(run(s5, es5) == run(s6, es6));
    assert(run(s6, es6) == s6);
    assert(actions_along(s0, es) == seq![action_of(s0)] + actions_along(s1, es1));
    assert(actions_along(s1, es1) == seq![action_of(s1)] + actions_along(s2, es2));
    assert(actions_along(s2, es2) == seq![action_of(s2)] + actions_along(s3, es3));
    assert(actions_along(s3, es3) == seq![action_of(s3)] + actions_along(s4, es4));
    assert(actions_along(s4, es4) == seq![action_of(s4)] + actions_along(s5, es5));
    assert(actions_along(s5, es5) == seq![action_of(s5)] + actions_along(s6, es6));
    assert(actions_along(s6, es6) == seq![action_of(s6)]);
}

} // verus!
