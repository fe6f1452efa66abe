//! The initializer: six steps, one after another, until one of them fails.
//!
//! The initializer never acts itself. It names the next [`Action`], the
//! caller performs it and reports the [`Outcome`], and the initializer moves
//! on or stops. A failure stops it for good; nothing is retried or undone.

use vstd::prelude::*;
use crate::action::{Action, ActionView, Outcome, OutcomeView};
use crate::args::{Args, Commands};
use crate::error::{InitError, InitErrorView, Invocation};
use crate::layout::{
    default_dependencies, dependency_names, CRATES_DIR, FORMAT_CONFIG_FILE, MANIFEST_FILE,
    MEMBER_NAME, TOOL,
};
use crate::template::{FORMAT_CONFIG, WORKSPACE_MANIFEST};

verus! {

/// A step of the initialization, in the order in which they are taken.
#[derive(Debug, Clone, Copy, PartialEq, Eq, Structural)]
pub enum Step {
    /// The tool creates the project in a new directory named after it.
    CreateProject,
    /// The manifest that the tool wrote is replaced by the workspace manifest.
    WriteManifest,
    /// The formatter's configuration is written beside the manifest.
    WriteFormatConfig,
    /// The directory for the member packages is created.
    CreateCratesDir,
    /// The tool creates the member package, a program, in that directory.
    CreateMemberProject,
    /// The tool adds the default dependencies, run from the project's root.
    AddDependencies,
}

impl Step {
    /// The step's place in the order, counted from 0.
    pub open spec fn index(self) -> int {
        match self {
            Step::CreateProject => 0,
            Step::WriteManifest => 1,
            Step::WriteFormatConfig => 2,
            Step::CreateCratesDir => 3,
            Step::CreateMemberProject => 4,
            Step::AddDependencies => 5,
        }
    }

    /// The step that comes after this one, if it is not the last.
    pub open spec fn following(self) -> Option<Step> {
        match self {
            Step::CreateProject => Some(Step::WriteManifest),
            Step::WriteManifest => Some(Step::WriteFormatConfig),
            Step::WriteFormatConfig => Some(Step::CreateCratesDir),
            Step::CreateCratesDir => Some(Step::CreateMemberProject),
            Step::CreateMemberProject => Some(Step::AddDependencies),
            Step::AddDependencies => None,
        }
    }

    /// Which invocation of the tool the step is, if it runs the tool.
    pub open spec fn invocation(self) -> Option<Invocation> {
        match self {
            Step::CreateProject => Some(Invocation::CreateProject),
            Step::CreateMemberProject => Some(Invocation::CreateMemberProject),
            Step::AddDependencies => Some(Invocation::AddDependencies),
            _ => None,
        }
    }

    /// What the step asks the caller to do for the project `name`.
    pub open spec fn action_for(self, name: Seq<char>) -> ActionView {
        match self {
            Step::CreateProject => ActionView::RunTool {
                program: TOOL@,
                args: seq!["new"@, name],
                dir: None,
            },
            Step::WriteManifest => ActionView::WriteFile {
                path: seq![name, MANIFEST_FILE@],
                contents: WORKSPACE_MANIFEST@,
            },
            Step::WriteFormatConfig => ActionView::WriteFile {
                path: seq![name, FORMAT_CONFIG_FILE@],
                contents: FORMAT_CONFIG@,
            },
            Step::CreateCratesDir => ActionView::CreateDir { path: seq![name, CRATES_DIR@] },
            Step::CreateMemberProject => ActionView::RunTool {
                program: TOOL@,
                args: seq!["new"@, "--bin"@, MEMBER_NAME@],
                dir: Some(seq![name, CRATES_DIR@]),
            },
            Step::AddDependencies => ActionView::RunTool {
                program: TOOL@,
                args: seq!["add"@] + default_dependencies(),
                dir: Some(seq![name]),
            },
        }
    }

    /// The state that follows the step's success.
    pub open spec fn on_success(self) -> StatusView {
        match self.following() {
            Some(next) => StatusView::Pending(next),
            None => StatusView::Succeeded,
        }
    }

    /// The step that comes after this one, if it is not the last.
    pub fn next(self) -> (next: Option<Step>)
        ensures
            next == self.following(),
    {
        match self {
            Step::CreateProject => Some(Step::WriteManifest),
            Step::WriteManifest => Some(Step::WriteFormatConfig),
            Step::WriteFormatConfig => Some(Step::CreateCratesDir),
            Step::CreateCratesDir => Some(Step::CreateMemberProject),
            Step::CreateMemberProject => Some(Step::AddDependencies),
            Step::AddDependencies => None,
        }
    }

    /// Which invocation of the tool the step is, if it runs the tool.
    pub fn tool_invocation(self) -> (invocation: Option<Invocation>)
        ensures
            invocation == self.invocation(),
    {
        match self {
            Step::CreateProject => Some(Invocation::CreateProject),
            Step::CreateMemberProject => Some(Invocation::CreateMemberProject),
            Step::AddDependencies => Some(Invocation::AddDependencies),
            _ => None,
        }
    }

    /// The action of this step for the project `name`.
    pub fn action(self, name: &str) -> (action: Action)
        ensures
            action@ == self.action_for(name@),
    {
        match self {
            Step::CreateProject => {
                let args = vec!["new".to_owned(), name.to_owned()];
                assert(args.deep_view() =~= seq!["new"@, name@]);
                Action::RunTool { program: TOOL.to_owned(), args, dir: None }
            },
            Step::WriteManifest => {
                let path = vec![name.to_owned(), MANIFEST_FILE.to_owned()];
                assert(path.deep_view() =~= seq![name@, MANIFEST_FILE@]);
                Action::WriteFile { path, contents: WORKSPACE_MANIFEST.to_owned() }
            },
            Step::WriteFormatConfig => {
                let path = vec![name.to_owned(), FORMAT_CONFIG_FILE.to_owned()];
                assert(path.deep_view() =~= seq![name@, FORMAT_CONFIG_FILE@]);
                Action::WriteFile { path, contents: FORMAT_CONFIG.to_owned() }
            },
            Step::CreateCratesDir => {
                let path = vec![name.to_owned(), CRATES_DIR.to_owned()];
                assert(path.deep_view() =~= seq![name@, CRATES_DIR@]);
                Action::CreateDir { path }
            },
            Step::CreateMemberProject => {
                let args = vec!["new".to_owned(), "--bin".to_owned(), MEMBER_NAME.to_owned()];
                assert(args.deep_view() =~= seq!["new"@, "--bin"@, MEMBER_NAME@]);
                let dir = vec![name.to_owned(), CRATES_DIR.to_owned()];
                assert(dir.deep_view() =~= seq![name@, CRATES_DIR@]);
                Action::RunTool { program: TOOL.to_owned(), args, dir: Some(dir) }
            },
            Step::AddDependencies => {
                let mut args = vec!["add".to_owned()];
                let mut names = dependency_names();
                args.append(&mut names);
                assert(args.deep_view() =~= seq!["add"@] + default_dependencies());
                let dir = vec![name.to_owned()];
                assert(dir.deep_view() =~= seq![name@]);
                Action::RunTool { program: TOOL.to_owned(), args, dir: Some(dir) }
            },
        }
    }
}

impl Invocation {
    /// The step at which the tool is run this way.
    pub open spec fn step(self) -> Step {
        match self {
            Invocation::CreateProject => Step::CreateProject,
            Invocation::CreateMemberProject => Step::CreateMemberProject,
            Invocation::AddDependencies => Step::AddDependencies,
        }
    }
}

/// Where an initialization stands.
#[derive(Debug, Clone, PartialEq, Eq)]
pub enum Status {
    /// The step is to be taken next; its outcome is awaited.
    Pending(Step),
    /// Every step was taken and none failed.
    Succeeded,
    /// A step failed, and no step was taken after it.
    Failed(InitError),
}

/// A [`Status`] with its text as a sequence of characters.
pub enum StatusView {
    Pending(Step),
    Succeeded,
    Failed(InitErrorView),
}

impl View for Status {
    type V = StatusView;

    open spec fn view(&self) -> StatusView {
        match *self {
            Status::Pending(step) => StatusView::Pending(step),
            Status::Succeeded => StatusView::Succeeded,
            Status::Failed(error) => StatusView::Failed(error@),
        }
    }
}

/// An initialization as a value: the project's name and where it stands.
pub struct InitState {
    pub name: Seq<char>,
    pub status: StatusView,
}

impl InitState {
    /// The state before anything was done for the project `name`.
    pub open spec fn start(name: Seq<char>) -> InitState {
        InitState { name, status: StatusView::Pending(Step::CreateProject) }
    }

    /// The same project in another status.
    pub open spec fn with(self, status: StatusView) -> InitState {
        InitState { name: self.name, status }
    }

    /// The action whose outcome is awaited; none once the initialization has ended.
    pub open spec fn pending(self) -> Option<ActionView> {
        match self.status {
            StatusView::Pending(step) => Some(step.action_for(self.name)),
            _ => None,
        }
    }

    /// Whether `outcome` is taken: an action is pending and can end that way.
    pub open spec fn accepts(self, outcome: OutcomeView) -> bool {
        match self.pending() {
            Some(action) => outcome.answers(action),
            None => false,
        }
    }

    /// The state after `outcome` was reported. A success leads to the next
    /// step, or to the end after the last one; a failure ends the
    /// initialization with its error. An outcome that is not taken changes nothing.
    pub open spec fn after(self, outcome: OutcomeView) -> InitState {
        match self.status {
            StatusView::Pending(step) => match (outcome, step.invocation()) {
                (OutcomeView::Failed { message }, _) => self.with(
                    StatusView::Failed(InitErrorView::Io(message)),
                ),
                (OutcomeView::Exited { success: false }, Some(invocation)) => self.with(
                    StatusView::Failed(InitErrorView::ToolFailure(invocation)),
                ),
                (OutcomeView::Exited { success: true }, Some(_)) => self.with(step.on_success()),
                (OutcomeView::Done, None) => self.with(step.on_success()),
                _ => self,
            },
            _ => self,
        }
    }

    /// How the initialization ended; nothing while a step is pending.
    pub open spec fn result(self) -> Option<Result<(), InitErrorView>> {
        match self.status {
            StatusView::Pending(_) => None,
            StatusView::Succeeded => Some(Ok(())),
            StatusView::Failed(error) => Some(Err(error)),
        }
    }
}

impl Status {
    /// The step that is pending, if one is.
    pub fn pending_step(&self) -> (step: Option<Step>)
        ensures
            step == (match self@ {
                StatusView::Pending(pending) => Some(pending),
                _ => None,
            }),
    {
        match self {
            Status::Pending(step) => Some(*step),
            _ => None,
        }
    }

    /// The status that follows the success of `step`.
    pub fn after_success(step: Step) -> (status: Status)
        ensures
            status@ == step.on_success(),
    {
        match step.next() {
            Some(next) => Status::Pending(next),
            None => Status::Succeeded,
        }
    }
}

/// An initialization in progress.
///
/// ```text
/// let mut init = Initializer::new(name);
/// while let Some(action) = init.next_action() {
///     let outcome = /* perform the action */;
///     init.advance(outcome);
/// }
/// init.result()
/// ```
#[derive(Debug, Clone, PartialEq, Eq)]
pub struct Initializer {
    name: String,
    status: Status,
}

impl View for Initializer {
    type V = InitState;

    closed spec fn view(&self) -> InitState {
        InitState { name: self.name@, status: self.status@ }
    }
}

impl Initializer {
    /// An initialization of the project `name`, with nothing done yet. The
    /// name is not examined: the tool refuses one that it cannot use.
    pub fn new(name: &str) -> (init: Initializer)
        ensures
            init@ == InitState::start(name@),
    {
        Initializer { name: name.to_owned(), status: Status::Pending(Step::CreateProject) }
    }

    /// The name of the project.
    pub fn name(&self) -> (name: &str)
        ensures
            name@ == self@.name,
    {
        self.name.as_str()
    }

    /// Where the initialization stands.
    pub fn status(&self) -> (status: &Status)
        ensures
            status@ == self@.status,
    {
        &self.status
    }

    /// Whether the initialization has ended, in success or in failure.
    pub fn is_finished(&self) -> (finished: bool)
        ensures
            finished == (self@.pending() is None),
    {
        self.status.pending_step().is_none()
    }

    /// The action to perform now; none once the initialization has ended.
    /// Asking again before an outcome is reported names the same action.
    pub fn next_action(&self) -> (action: Option<Action>)
        ensures
            match action {
                Some(action) => self@.pending() == Some(action@),
                None => self@.pending() is None,
            },
    {
        match self.status.pending_step() {
            Some(step) => Some(step.action(self.name.as_str())),
            None => None,
        }
    }

    /// Takes the outcome of the pending action and moves on: to the next
    /// step after a success, to the end after the last step or a failure.
    /// Returns whether the outcome was taken; one that the pending action
    /// cannot have, or that comes after the end, leaves everything as it was.
    pub fn advance(&mut self, outcome: Outcome) -> (accepted: bool)
        ensures
            accepted == old(self)@.accepts(outcome@),
            final(self)@ == old(self)@.after(outcome@),
    {
        let step = match self.status.pending_step() {
            Some(step) => step,
            None => {
                return false;
            },
        };
        match (outcome, step.tool_invocation()) {
            (Outcome::Failed { message }, _) => {
                self.status = Status::Failed(InitError::Io(message));
                true
            },
            (Outcome::Exited { success }, Some(invocation)) => {
                if success {
                    self.status = Status::after_success(step);
                } else {
                    self.status = Status::Failed(InitError::ToolFailure(invocation));
                }
                true
            },
            (Outcome::Done, None) => {
                self.status = Status::after_success(step);
                true
            },
            _ => false,
        }
    }

    /// How the initialization ended; nothing while a step is pending.
    pub fn result(&self) -> (result: Option<Result<(), InitError>>)
        ensures
            match result {
                None => self@.result() is None,
                Some(Ok(_)) => self@.result() == Some(Ok::<(), InitErrorView>(())),
                Some(Err(error)) => self@.result() == Some(Err::<(), InitErrorView>(error@)),
            },
    {
        match &self.status {
            Status::Pending(_) => None,
            Status::Succeeded => Some(Ok(())),
            Status::Failed(error) => Some(Err(error.clone())),
        }
    }
}

/// The initialization that the command line asks for: one for the named
/// project after `init`, none where no subcommand was given.
pub fn begin(args: Args) -> (init: Option<Initializer>)
    ensures
        match args.requested() {
            Some(name) => init matches Some(started) && started@ == InitState::start(name),
            None => init is None,
        },
{
    match args.command {
        Some(Commands::Init { name }) => Some(Initializer::new(name.as_str())),
        None => None,
    }
}

} // verus!
