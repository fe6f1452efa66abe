//! What the caller is asked to do, and what it reports back.
//!
//! A path is a list of segments, outermost first, relative to the directory
//! in which the tool was started; the caller joins them as its platform does.

use vstd::prelude::*;

verus! {

/// One thing to do on behalf of the initializer.
#[derive(Debug, Clone, PartialEq, Eq)]
pub enum Action {
    /// Run `program` with `args` and wait for it to exit. With a `dir` the
    /// program runs in that directory, without one in the caller's own.
    RunTool { program: String, args: Vec<String>, dir: Option<Vec<String>> },
    /// Create the file at `path`, or empty it if it exists, and write `contents` to it.
    WriteFile { path: Vec<String>, contents: String },
    /// Create the directory at `path`, which must not exist yet.
    CreateDir { path: Vec<String> },
}

/// An [`Action`] with its texts as sequences of characters.
pub enum ActionView {
    RunTool { program: Seq<char>, args: Seq<Seq<char>>, dir: Option<Seq<Seq<char>>> },
    WriteFile { path: Seq<Seq<char>>, contents: Seq<char> },
    CreateDir { path: Seq<Seq<char>> },
}

impl View for Action {
    type V = ActionView;

    open spec fn view(&self) -> ActionView {
        match *self {
            Action::RunTool { program, args, dir } => ActionView::RunTool {
                program: program@,
                args: args.deep_view(),
                dir: match dir {
                    Some(segments) => Some(segments.deep_view()),
                    None => None,
                },
            },
            Action::WriteFile { path, contents } => ActionView::WriteFile {
                path: path.deep_view(),
                contents: contents@,
            },
            Action::CreateDir { path } => ActionView::CreateDir { path: path.deep_view() },
        }
    }
}

impl ActionView {
    /// Whether the action runs a program.
    pub open spec fn runs_tool(self) -> bool {
        self is RunTool
    }

    /// Whether the action touches nothing outside the directory `root`: a
    /// file or directory lies below it, and a program either runs below it
    /// or runs in the caller's directory with `root` as its last argument.
    pub open spec fn stays_within(self, root: Seq<char>) -> bool {
        match self {
            ActionView::RunTool { args, dir: None, .. } => args.len() > 0 && args.last() == root,
            ActionView::RunTool { dir: Some(segments), .. } => segments.len() > 0 && segments[0]
                == root,
            ActionView::WriteFile { path, .. } => path.len() > 1 && path[0] == root,
            ActionView::CreateDir { path } => path.len() > 1 && path[0] == root,
        }
    }
}

/// How an [`Action`] ended.
#[derive(Debug, Clone, PartialEq, Eq)]
pub enum Outcome {
    /// The program ran and exited, with a status of success or not.
    Exited { success: bool },
    /// The file was written, or the directory was created.
    Done,
    /// The program could not be started, or the file system refused; the
    /// text is the system's description.
    Failed { message: String },
}

/// An [`Outcome`] with its text as a sequence of characters.
pub enum OutcomeView {
    Exited { success: bool },
    Done,
    Failed { message: Seq<char> },
}

impl View for Outcome {
    type V = OutcomeView;

    open spec fn view(&self) -> OutcomeView {
        match *self {
            Outcome::Exited { success } => OutcomeView::Exited { success },
            Outcome::Done => OutcomeView::Done,
            Outcome::Failed { message } => OutcomeView::Failed { message: message@ },
        }
    }
}

impl OutcomeView {
    /// Whether this outcome is one that `action` can have: a program exits,
    /// a file or directory operation is done, and either may fail.
    pub open spec fn answers(self, action: ActionView) -> bool {
        match self {
            OutcomeView::Exited { .. } => action.runs_tool(),
            OutcomeView::Done => !action.runs_tool(),
            OutcomeView::Failed { .. } => true,
        }
    }

    /// Whether the action did what it was asked to do.
    pub open spec fn is_success(self) -> bool {
        match self {
            OutcomeView::Exited { success } => success,
            OutcomeView::Done => true,
            OutcomeView::Failed { .. } => false,
        }
    }
}

} // verus!
