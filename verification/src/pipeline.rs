//! The conversion pipeline as an explicit state machine.
//!
//! The machine sequences the steps of one conversion attempt:
//!
//! `Start -> DependencyChecked -> PathsResolved -> HtmlProduced ->
//! HtmlRead -> MarkdownWritten -> Done`
//!
//! and drops into the terminal `Failed` state on the first failure, with no
//! retry and no cleanup beyond the explicit final deletion.  Each state
//! names one action for the driver to perform (spawn a subprocess, read,
//! write or delete a file); the driver hands the outcome back as an event
//! and the machine decides the next state.  The HTML-to-Markdown
//! transformation is the machine's own step: it happens when the
//! intermediate file's text comes back from the read.

use vstd::prelude::*;
use vstd::string::StringExecFns;
use crate::errors::ErrorModel;
use crate::errors::PipelineError;
use crate::paths::InputModel;
use crate::paths::InputSpec;
use crate::paths::PathsModel;
use crate::paths::ResolvedPaths;
use crate::paths::invalid_input_error;
use crate::paths::invalid_input_value;
use crate::paths::resolve_paths;
use crate::paths::resolved_model;
use crate::paths::valid_epub_path;
use crate::paths::validate_epub_path;
use crate::transform::html_to_markdown;
use crate::transform::markdown_of;

verus! {

/// What became of the attempt to start the external tool for its version
/// check.
#[derive(Debug)]
pub enum SpawnOutcome {
    /// The tool could not be started at all.
    StartFailed,
    /// The tool started but waiting for it failed; the message is the
    /// underlying cause.
    WaitFailed { msg: String },
    /// The tool ran to completion; `success` is its exit status.
    Exited { success: bool },
}

/// Mathematical model of a [`SpawnOutcome`].
pub enum SpawnOutcomeModel {
    StartFailed,
    WaitFailed { msg: Seq<char> },
    Exited { success: bool },
}

impl View for SpawnOutcome {
    type V = SpawnOutcomeModel;

    open spec fn view(&self) -> SpawnOutcomeModel {
        match self {
            SpawnOutcome::StartFailed => SpawnOutcomeModel::StartFailed,
            SpawnOutcome::WaitFailed { msg } => SpawnOutcomeModel::WaitFailed { msg: msg@ },
            SpawnOutcome::Exited { success } => SpawnOutcomeModel::Exited { success: *success },
        }
    }
}

/// What became of the actual conversion run of the external tool.
#[derive(Debug)]
pub enum ToolOutcome {
    /// The tool could not be started; the message is the underlying cause.
    StartFailed { msg: String },
    /// The tool ran to completion with the given exit status; `stderr` is
    /// its captured error stream, decoded permissively.
    Exited { success: bool, stderr: String },
}

/// Mathematical model of a [`ToolOutcome`].
pub enum ToolOutcomeModel {
    StartFailed { msg: Seq<char> },
    Exited { success: bool, stderr: Seq<char> },
}

impl View for ToolOutcome {
    type V = ToolOutcomeModel;

    open spec fn view(&self) -> ToolOutcomeModel {
        match self {
            ToolOutcome::StartFailed { msg } => ToolOutcomeModel::StartFailed { msg: msg@ },
            ToolOutcome::Exited { success, stderr } => ToolOutcomeModel::Exited {
                success: *success,
                stderr: stderr@,
            },
        }
    }
}

/// The outcome of one driver action, handed back to the machine.
#[derive(Debug)]
pub enum Event {
    /// Outcome of the dependency check.
    Dependency { outcome: SpawnOutcome },
    /// The working directory, or the cause of the failure to resolve it.
    Cwd { result: Result<String, String> },
    /// Outcome of the conversion run of the external tool.
    Converter { outcome: ToolOutcome },
    /// The intermediate file's text, or the cause of the read failure.
    Read { result: Result<String, String> },
    /// `None` when the output file was written; otherwise the cause.
    Write { error: Option<String> },
    /// `None` when the intermediate file was deleted; otherwise the cause.
    Delete { error: Option<String> },
}

/// Mathematical model of an [`Event`].
pub enum EventModel {
    Dependency { outcome: SpawnOutcomeModel },
    Cwd { result: Result<Seq<char>, Seq<char>> },
    Converter { outcome: ToolOutcomeModel },
    Read { result: Result<Seq<char>, Seq<char>> },
    Write { error: Option<Seq<char>> },
    Delete { error: Option<Seq<char>> },
}

impl View for Event {
    type V = EventModel;

    open spec fn view(&self) -> EventModel {
        match self {
            Event::Dependency { outcome } => EventModel::Dependency { outcome: outcome@ },
            Event::Cwd { result } => EventModel::Cwd {
                result: match result {
                    Ok(ref s) => Ok(s@),
                    Err(ref s) => Err(s@),
                },
            },
            Event::Converter { outcome } => EventModel::Converter { outcome: outcome@ },
            Event::Read { result } => EventModel::Read {
                result: match result {
                    Ok(ref s) => Ok(s@),
                    Err(ref s) => Err(s@),
                },
            },
            Event::Write { error } => EventModel::Write {
                error: match error {
                    Some(ref s) => Some(s@),
                    None => None,
                },
            },
            Event::Delete { error } => EventModel::Delete {
                error: match error {
                    Some(ref s) => Some(s@),
                    None => None,
                },
            },
        }
    }
}

/// What the driver must do next for the machine.
#[derive(Debug)]
pub enum Action {
    /// Start the external tool in version-check mode and reap it.
    CheckDependency,
    /// Resolve the current working directory.
    ResolveCwd,
    /// Run the external tool to convert `epub` into the HTML file
    /// `html_out`.
    RunConverter { epub: String, html_out: String },
    /// Read the intermediate HTML file as UTF-8 text.
    ReadIntermediate { path: String },
    /// Write `content` to the output file at `path`.
    WriteOutput { path: String, content: String },
    /// Delete the intermediate HTML file.
    DeleteIntermediate { path: String },
    /// The conversion is done; the output stands at `output`.
    ReportSuccess { output: String },
    /// The conversion failed with `error`; nothing more will be done.
    ReportFailure { error: PipelineError },
}

/// Mathematical model of an [`Action`].
pub enum ActionModel {
    CheckDependency,
    ResolveCwd,
    RunConverter { epub: Seq<char>, html_out: Seq<char> },
    ReadIntermediate { path: Seq<char> },
    WriteOutput { path: Seq<char>, content: Seq<char> },
    DeleteIntermediate { path: Seq<char> },
    ReportSuccess { output: Seq<char> },
    ReportFailure { error: ErrorModel },
}

impl View for Action {
    type V = ActionModel;

    open spec fn view(&self) -> ActionModel {
        match self {
            Action::CheckDependency => ActionModel::CheckDependency,
            Action::ResolveCwd => ActionModel::ResolveCwd,
            Action::RunConverter { epub, html_out } => ActionModel::RunConverter {
                epub: epub@,
                html_out: html_out@,
            },
            Action::ReadIntermediate { path } => ActionModel::ReadIntermediate { path: path@ },
            Action::WriteOutput { path, content } => ActionModel::WriteOutput {
                path: path@,
                content: content@,
            },
            Action::DeleteIntermediate { path } => ActionModel::DeleteIntermediate { path: path@ },
            Action::ReportSuccess { output } => ActionModel::ReportSuccess { output: output@ },
            Action::ReportFailure { error } => ActionModel::ReportFailure { error: error@ },
        }
    }
}

/// One state of the conversion pipeline.
#[derive(Debug)]
pub enum State {
    /// Nothing has happened yet; the input has passed validation.
    Start { input: InputSpec },
    /// The external tool answered its version check.
    DependencyChecked { input: InputSpec },
    /// Both paths are resolved; `epub` is the input path for the converter.
    PathsResolved { epub: String, paths: ResolvedPaths },
    /// The external tool produced the intermediate HTML file.
    HtmlProduced { paths: ResolvedPaths },
    /// The intermediate file was read and transformed; `markdown` is the
    /// text to write.
    HtmlRead { paths: ResolvedPaths, markdown: String },
    /// The output file holds the Markdown text.
    MarkdownWritten { paths: ResolvedPaths },
    /// The run succeeded and the intermediate file is gone.
    Done { output: String },
    /// The run failed; terminal.
    Failed { error: PipelineError },
}

/// Mathematical model of a [`State`].
pub enum StateModel {
    Start { input: InputModel },
    DependencyChecked { input: InputModel },
    PathsResolved { epub: Seq<char>, paths: PathsModel },
    HtmlProduced { paths: PathsModel },
    HtmlRead { paths: PathsModel, markdown: Seq<char> },
    MarkdownWritten { paths: PathsModel },
    Done { output: Seq<char> },
    Failed { error: ErrorModel },
}

impl View for State {
    type V = StateModel;

    open spec fn view(&self) -> StateModel {
        match self {
            State::Start { input } => StateModel::Start { input: input@ },
            State::DependencyChecked { input } => StateModel::DependencyChecked { input: input@ },
            State::PathsResolved { epub, paths } => StateModel::PathsResolved {
                epub: epub@,
                paths: paths@,
            },
            State::HtmlProduced { paths } => StateModel::HtmlProduced { paths: paths@ },
            State::HtmlRead { paths, markdown } => StateModel::HtmlRead {
                paths: paths@,
                markdown: markdown@,
            },
            State::MarkdownWritten { paths } => StateModel::MarkdownWritten { paths: paths@ },
            State::Done { output } => StateModel::Done { output: output@ },
            State::Failed { error } => StateModel::Failed { error: error@ },
        }
    }
}

/// The message given when the external tool is missing from the search
/// path.
pub open spec fn dep_not_found_msg() -> Seq<char> {
    "the external conversion tool was not found on the search path"@
}

/// The prefix of the message given when waiting for the version check
/// fails.
pub open spec fn dep_wait_failed_prefix() -> Seq<char> {
    "waiting for the external conversion tool failed: "@
}

/// The message given when the version check exits with a failure status.
pub open spec fn dep_check_failed_msg() -> Seq<char> {
    "the external conversion tool failed its version check"@
}

/// The prefix of the message given when the conversion run cannot start.
pub open spec fn tool_start_failed_prefix() -> Seq<char> {
    "the external conversion tool could not be started: "@
}

/// The prefix of the message given when the conversion run exits with a
/// failure status; the tool's captured error text follows it verbatim.
pub open spec fn tool_failed_prefix() -> Seq<char> {
    "the external conversion tool reported a failure: "@
}

/// The prefix of the message given when the working directory cannot be
/// resolved.
pub open spec fn cwd_failed_prefix() -> Seq<char> {
    "the working directory could not be resolved: "@
}

/// The prefix of the message given when the intermediate file cannot be
/// read.
pub open spec fn read_failed_prefix() -> Seq<char> {
    "the intermediate HTML file could not be read: "@
}

/// The prefix of the message given when the output file cannot be written.
pub open spec fn write_failed_prefix() -> Seq<char> {
    "the output file could not be written: "@
}

/// The prefix of the message given when the intermediate file cannot be
/// deleted.
pub open spec fn delete_failed_prefix() -> Seq<char> {
    "the intermediate HTML file could not be deleted: "@
}

/// What the dependency check concludes from the version-check outcome:
/// success exactly when the tool started and exited successfully, and a
/// `DependencyUnavailable` error that distinguishes "not found" from
/// "found but failed" otherwise.
pub open spec fn dependency_result_model(o: SpawnOutcomeModel) -> Result<(), ErrorModel> {
    match o {
        SpawnOutcomeModel::StartFailed => Err(
            ErrorModel::DependencyUnavailable { msg: dep_not_found_msg() },
        ),
        SpawnOutcomeModel::WaitFailed { msg } => Err(
            ErrorModel::DependencyUnavailable { msg: dep_wait_failed_prefix() + msg },
        ),
        SpawnOutcomeModel::Exited { success } => if success {
            Ok(())
        } else {
            Err(ErrorModel::DependencyUnavailable { msg: dep_check_failed_msg() })
        },
    }
}

/// What the invoker concludes from the conversion-run outcome: success
/// exactly when the tool exited successfully, and an `ExternalToolError`
/// that carries the underlying cause or the captured error text otherwise.
pub open spec fn converter_result_model(o: ToolOutcomeModel) -> Result<(), ErrorModel> {
    match o {
        ToolOutcomeModel::StartFailed { msg } => Err(
            ErrorModel::ExternalToolError { msg: tool_start_failed_prefix() + msg },
        ),
        ToolOutcomeModel::Exited { success, stderr } => if success {
            Ok(())
        } else {
            Err(ErrorModel::ExternalToolError { msg: tool_failed_prefix() + stderr })
        },
    }
}

/// The state a fresh pipeline starts in: `Start` for an accepted input
/// path, `Failed` with `InvalidInput` for a rejected one, so that a
/// rejected input never reaches the dependency check.
pub open spec fn initial_state(input: InputModel) -> StateModel {
    if valid_epub_path(input.epub_path) {
        StateModel::Start { input }
    } else {
        StateModel::Failed { error: invalid_input_error(input.epub_path) }
    }
}

/// The machine's transition function.  Each state accepts the one event
/// its action produces; the first failure leads to the terminal `Failed`
/// state, and an event that does not belong to the state changes nothing.
pub open spec fn next_state(s: StateModel, e: EventModel) -> StateModel {
    match (s, e) {
        (StateModel::Start { input }, EventModel::Dependency { outcome }) => match dependency_result_model(
            outcome,
        ) {
            Ok(_) => StateModel::DependencyChecked { input },
            Err(error) => StateModel::Failed { error },
        },
        (StateModel::DependencyChecked { input }, EventModel::Cwd { result }) => match result {
            Ok(cwd) => if valid_epub_path(input.epub_path) {
                StateModel::PathsResolved {
                    epub: input.epub_path,
                    paths: resolved_model(input, cwd),
                }
            } else {
                StateModel::Failed { error: invalid_input_error(input.epub_path) }
            },
            Err(msg) => StateModel::Failed {
                error: ErrorModel::IoError { msg: cwd_failed_prefix() + msg },
            },
        },
        (StateModel::PathsResolved { epub, paths }, EventModel::Converter { outcome }) => match converter_result_model(
            outcome,
        ) {
            Ok(_) => StateModel::HtmlProduced { paths },
            Err(error) => StateModel::Failed { error },
        },
        (StateModel::HtmlProduced { paths }, EventModel::Read { result }) => match result {
            Ok(html) => StateModel::HtmlRead { paths, markdown: markdown_of(html) },
            Err(msg) => StateModel::Failed {
                error: ErrorModel::IoError { msg: read_failed_prefix() + msg },
            },
        },
        (StateModel::HtmlRead { paths, .. }, EventModel::Write { error }) => match error {
            None => StateModel::MarkdownWritten { paths },
            Some(msg) => StateModel::Failed {
                error: ErrorModel::IoError { msg: write_failed_prefix() + msg },
            },
        },
        (StateModel::MarkdownWritten { paths }, EventModel::Delete { error }) => match error {
            None => StateModel::Done { output: paths.output },
            Some(msg) => StateModel::Failed {
                error: ErrorModel::IoError { msg: delete_failed_prefix() + msg },
            },
        },
        (other, _) => other,
    }
}

/// The action each state asks of the driver.
pub open spec fn action_of(s: StateModel) -> ActionModel {
    match s {
        StateModel::Start { .. } => ActionModel::CheckDependency,
        StateModel::DependencyChecked { .. } => ActionModel::ResolveCwd,
        StateModel::PathsResolved { epub, paths } => ActionModel::RunConverter {
            epub,
            html_out: paths.intermediate,
        },
        StateModel::HtmlProduced { paths } => ActionModel::ReadIntermediate {
            path: paths.intermediate,
        },
        StateModel::HtmlRead { paths, markdown } => ActionModel::WriteOutput {
            path: paths.output,
            content: markdown,
        },
        StateModel::MarkdownWritten { paths } => ActionModel::DeleteIntermediate {
            path: paths.intermediate,
        },
        StateModel::Done { output } => ActionModel::ReportSuccess { output },
        StateModel::Failed { error } => ActionModel::ReportFailure { error },
    }
}

/// Decides what the dependency check concludes from the version-check
/// outcome: `Ok` exactly when the tool started and exited with a success
/// status.
pub fn dependency_result(outcome: SpawnOutcome) -> (r: Result<(), PipelineError>)
    ensures
        r is Ok <==> dependency_result_model(outcome@) is Ok,
        r matches Err(e) ==> dependency_result_model(outcome@) matches Err(em) && em == e@,
{
    match outcome {
        SpawnOutcome::StartFailed => Err(
            PipelineError::DependencyUnavailable {
                msg: String::from_str(
                    "the external conversion tool was not found on the search path",
                ),
            },
        ),
        SpawnOutcome::WaitFailed { msg } => Err(
            PipelineError::DependencyUnavailable {
                msg: String::from_str("waiting for the external conversion tool failed: ").concat(
                    msg.as_str(),
                ),
            },
        ),
        SpawnOutcome::Exited { success } => if success {
            Ok(())
        } else {
            Err(
                PipelineError::DependencyUnavailable {
                    msg: String::from_str(
                        "the external conversion tool failed its version check",
                    ),
                },
            )
        },
    }
}

/// Decides what the invoker concludes from the conversion-run outcome:
/// `Ok` exactly when the tool exited with a success status; a failure
/// status yields an error whose message carries the captured error text.
pub fn converter_result(outcome: ToolOutcome) -> (r: Result<(), PipelineError>)
    ensures
        r is Ok <==> converter_result_model(outcome@) is Ok,
        r matches Err(e) ==> converter_result_model(outcome@) matches Err(em) && em == e@,
{
    match outcome {
        ToolOutcome::StartFailed { msg } => Err(
            PipelineError::ExternalToolError {
                msg: String::from_str("the external conversion tool could not be started: ").concat(
                    msg.as_str(),
                ),
            },
        ),
        ToolOutcome::Exited { success, stderr } => if success {
            Ok(())
        } else {
            Err(
                PipelineError::ExternalToolError {
                    msg: String::from_str(
                        "the external conversion tool reported a failure: ",
                    ).concat(stderr.as_str()),
                },
            )
        },
    }
}

/// One conversion attempt, driven as a state machine.  The driver asks
/// [`Pipeline::next_action`] what to do, performs it, and hands the
/// outcome to [`Pipeline::step`]; the machine's whole behaviour is the
/// transition function [`next_state`] over the model of its state.
pub struct Pipeline {
    state: State,
}

impl View for Pipeline {
    type V = StateModel;

    closed spec fn view(&self) -> StateModel {
        self.state@
    }
}

impl Pipeline {
    /// Starts one conversion attempt.  A rejected input path puts the
    /// machine directly into `Failed` with `InvalidInput`, so no
    /// subprocess is ever asked for.
    pub fn new(input: InputSpec) -> (p: Pipeline)
        ensures
            p@ == initial_state(input@),
    {
        if validate_epub_path(input.epub_path.as_str()) {
            Pipeline { state: State::Start { input } }
        } else {
            let error = invalid_input_value(input.epub_path.as_str());
            Pipeline { state: State::Failed { error } }
        }
    }

    /// The machine's current state.
    pub fn state(&self) -> (s: &State)
        ensures
            s@ == self@,
    {
        &self.state
    }

    /// Whether the run has ended, in success or failure.
    pub fn is_finished(&self) -> (b: bool)
        ensures
            b == (self@ is Done || self@ is Failed),
    {
        match self.state {
            State::Done { .. } => true,
            State::Failed { .. } => true,
            _ => false,
        }
    }

    /// The action the driver must perform next.
    pub fn next_action(&self) -> (a: Action)
        ensures
            a@ == action_of(self@),
    {
        match &self.state {
            State::Start { .. } => Action::CheckDependency,
            State::DependencyChecked { .. } => Action::ResolveCwd,
            State::PathsResolved { epub, paths } => Action::RunConverter {
                epub: epub.clone(),
                html_out: paths.intermediate.clone(),
            },
            State::HtmlProduced { paths } => Action::ReadIntermediate {
                path: paths.intermediate.clone(),
            },
            State::HtmlRead { paths, markdown } => Action::WriteOutput {
                path: paths.output.clone(),
                content: markdown.clone(),
            },
            State::MarkdownWritten { paths } => Action::DeleteIntermediate {
                path: paths.intermediate.clone(),
            },
            State::Done { output } => Action::ReportSuccess { output: output.clone() },
            State::Failed { error } => Action::ReportFailure { error: error.duplicate() },
        }
    }

    /// Feeds one event into the machine and moves it to the next state,
    /// exactly as [`next_state`] says.
    pub fn step(self, event: Event) -> (r: Pipeline)
        ensures
            r@ == next_state(self@, event@),
    {
        let Pipeline { state } = self;
        let next = match (state, event) {
            (State::Start { input }, Event::Dependency { outcome }) => {
                match dependency_result(outcome) {
                    Ok(_) => State::DependencyChecked { input },
                    Err(error) => State::Failed { error },
                }
            },
            (State::DependencyChecked { input }, Event::Cwd { result }) => {
                match result {
                    Ok(cwd) => {
                        match resolve_paths(&input, cwd.as_str()) {
                            Ok(paths) => State::PathsResolved { epub: input.epub_path, paths },
                            Err(error) => State::Failed { error },
                        }
                    },
                    Err(msg) => State::Failed {
                        error: PipelineError::IoError {
                            msg: String::from_str(
                                "the working directory could not be resolved: ",
                            ).concat(msg.as_str()),
                        },
                    },
                }
            },
            (State::PathsResolved { epub, paths }, Event::Converter { outcome }) => {
                match converter_result(outcome) {
                    Ok(_) => State::HtmlProduced { paths },
                    Err(error) => State::Failed { error },
                }
            },
            (State::HtmlProduced { paths }, Event::Read { result }) => {
                match result {
                    Ok(html) => {
                        let markdown = html_to_markdown(html.as_str());
                        State::HtmlRead { paths, markdown }
                    },
                    Err(msg) => State::Failed {
                        error: PipelineError::IoError {
                            msg: String::from_str(
                                "the intermediate HTML file could not be read: ",
                            ).concat(msg.as_str()),
                        },
                    },
                }
            },
            (State::HtmlRead { paths, markdown: _ }, Event::Write { error }) => {
                match error {
                    None => State::MarkdownWritten { paths },
                    Some(msg) => State::Failed {
                        error: PipelineError::IoError {
                            msg: String::from_str(
                                "the output file could not be written: ",
                            ).concat(msg.as_str()),
                        },
                    },
                }
            },
            (State::MarkdownWritten { paths }, Event::Delete { error }) => {
                match error {
                    None => State::Done { output: paths.output },
                    Some(msg) => State::Failed {
                        error: PipelineError::IoError {
                            msg: String::from_str(
                                "the intermediate HTML file could not be deleted: ",
                            ).concat(msg.as_str()),
                        },
                    },
                }
            },
            (other, _) => other,
        };
        Pipeline { state: next }
    }
}

} // verus!
