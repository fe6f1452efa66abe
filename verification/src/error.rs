//! Why an initialization stopped.

use vstd::prelude::*;

verus! {

/// One of the three places at which the build tool is run.
#[derive(Debug, Clone, Copy, PartialEq, Eq, Structural)]
pub enum Invocation {
    /// The tool creates the project itself.
    CreateProject,
    /// The tool creates the member package below the crates directory.
    CreateMemberProject,
    /// The tool adds the default dependencies to the member package.
    AddDependencies,
}

impl Invocation {
    /// The short label by which a failure of this invocation is known.
    pub open spec fn label_text(self) -> Seq<char> {
        match self {
            Invocation::CreateProject => "create project"@,
            Invocation::CreateMemberProject => "create member project"@,
            Invocation::AddDependencies => "add dependencies"@,
        }
    }

    /// The sentence shown to the user when this invocation fails.
    pub open spec fn message_text(self) -> Seq<char> {
        match self {
            Invocation::CreateProject => "Failed to create new project with `cargo new`"@,
            Invocation::CreateMemberProject => "Failed to create new project in `crates` directory"@,
            Invocation::AddDependencies => "Failed to add default dependencies"@,
        }
    }

    /// The short label by which a failure of this invocation is known.
    pub fn label(&self) -> (label: String)
        ensures
            label@ == self.label_text(),
    {
        match self {
            Invocation::CreateProject => "create project".to_owned(),
            Invocation::CreateMemberProject => "create member project".to_owned(),
            Invocation::AddDependencies => "add dependencies".to_owned(),
        }
    }

    /// The sentence shown to the user when this invocation fails.
    pub fn message(&self) -> (message: String)
        ensures
            message@ == self.message_text(),
    {
        match self {
            Invocation::CreateProject => "Failed to create new project with `cargo new`".to_owned(),
            Invocation::CreateMemberProject => "Failed to create new project in `crates` directory".to_owned(),
            Invocation::AddDependencies => "Failed to add default dependencies".to_owned(),
        }
    }
}

/// The first failure of an initialization. Nothing is undone after it: what
/// was created before stays on disk.
#[derive(Debug, PartialEq, Eq)]
pub enum InitError {
    /// The build tool ran and exited with a status other than success.
    ToolFailure(Invocation),
    /// The tool could not be started, or a file or directory could not be
    /// created or written; the text is the system's description.
    Io(String),
}

/// An [`InitError`] with its text as a sequence of characters.
pub enum InitErrorView {
    ToolFailure(Invocation),
    Io(Seq<char>),
}

impl View for InitError {
    type V = InitErrorView;

    open spec fn view(&self) -> InitErrorView {
        match *self {
            InitError::ToolFailure(invocation) => InitErrorView::ToolFailure(invocation),
            InitError::Io(message) => InitErrorView::Io(message@),
        }
    }
}

impl Clone for InitError {
    fn clone(&self) -> (copy: InitError)
        ensures
            copy == *self,
    {
        match self {
            InitError::ToolFailure(invocation) => InitError::ToolFailure(*invocation),
            InitError::Io(message) => InitError::Io(message.clone()),
        }
    }
}

impl InitErrorView {
    /// The sentence that describes the failure.
    pub open spec fn message(self) -> Seq<char> {
        match self {
            InitErrorView::ToolFailure(invocation) => invocation.message_text(),
            InitErrorView::Io(message) => message,
        }
    }

    /// The line that tells the user about the failure.
    pub open spec fn report(self) -> Seq<char> {
        "Error: "@ + self.message()
    }
}

impl InitError {
    /// The sentence that describes the failure.
    pub fn message(&self) -> (message: String)
        ensures
            message@ == self@.message(),
    {
        match self {
            InitError::ToolFailure(invocation) => invocation.message(),
            InitError::Io(message) => message.clone(),
        }
    }
}

/// The line to print on the error stream once an initialization has ended:
/// none after a success, `Error: ` and the failure's sentence otherwise.
pub fn report(result: &Result<(), InitError>) -> (line: Option<String>)
    ensures
        match *result {
            Ok(_) => line is None,
            Err(error) => line matches Some(text) && text@ == error@.report(),
        },
{
    match result {
        Ok(_) => None,
        Err(error) => Some("Error: ".to_owned().concat(error.message().as_str())),
    }
}

} // verus!
