use scaffold::action::{Action, Outcome};
use scaffold::args::{Args, Commands};
use scaffold::error::{InitError, Invocation};
use scaffold::init::{begin, Initializer, Status, Step};

fn texts(items: &[&str]) -> Vec<String> {
    items.iter().map(|item| item.to_string()).collect()
}

/// The six actions of a project called `name`, in order.
fn expected_plan(name: &str) -> Vec<Action> {
    vec![
        Action::RunTool { program: "cargo".to_string(), args: texts(&["new", name]), dir: None },
        Action::WriteFile {
            path: texts(&[name, "Cargo.toml"]),
            contents: "[workspace]\nmembers = [\"crates/*\"]\nresolver = \"2\"\n".to_string(),
        },
        Action::WriteFile {
            path: texts(&[name, "rustfmt.toml"]),
            contents: "imports_granularity=\"Crate\"\nwrap_comments=true\ncomment_width=100\ngroup_imports=\"StdExternalCrate\"\n".to_string(),
        },
        Action::CreateDir { path: texts(&[name, "crates"]) },
        Action::RunTool {
            program: "cargo".to_string(),
            args: texts(&["new", "--bin", "app"]),
            dir: Some(texts(&[name, "crates"])),
        },
        Action::RunTool {
            program: "cargo".to_string(),
            args: texts(&["add", "snafu", "tracing", "tracing-subscriber", "ir_aquila"]),
            dir: Some(texts(&[name])),
        },
    ]
}

/// The outcome with which the action at `index` of the plan succeeds.
fn success_at(index: usize) -> Outcome {
    match index {
        0 | 4 | 5 => Outcome::Exited { success: true },
        _ => Outcome::Done,
    }
}

/// Runs an initializer against a caller that reports `failure` for the
/// action at `fail_at` and success for the others. Returns what was performed.
fn drive(init: &mut Initializer, fail_at: Option<usize>, failure: Outcome) -> Vec<Action> {
    let mut performed = Vec::new();
    while let Some(action) = init.next_action() {
        let index = performed.len();
        performed.push(action);
        let outcome = if fail_at == Some(index) { failure.clone() } else { success_at(index) };
        assert!(init.advance(outcome));
        assert!(performed.len() <= 6);
    }
    performed
}

#[test]
fn new_starts_with_project_creation() {
    let init = Initializer::new("demo");
    assert_eq!(init.name(), "demo");
    assert_eq!(*init.status(), Status::Pending(Step::CreateProject));
    assert!(!init.is_finished());
    assert_eq!(init.result(), None);
    assert_eq!(init.next_action(), Some(expected_plan("demo")[0].clone()));
}

#[test]
fn next_action_is_stable_until_an_outcome_is_reported() {
    let init = Initializer::new("demo");
    assert_eq!(init.next_action(), init.next_action());
}

#[test]
fn steps_follow_each_other() {
    assert_eq!(Step::CreateProject.next(), Some(Step::WriteManifest));
    assert_eq!(Step::WriteManifest.next(), Some(Step::WriteFormatConfig));
    assert_eq!(Step::WriteFormatConfig.next(), Some(Step::CreateCratesDir));
    assert_eq!(Step::CreateCratesDir.next(), Some(Step::CreateMemberProject));
    assert_eq!(Step::CreateMemberProject.next(), Some(Step::AddDependencies));
    assert_eq!(Step::AddDependencies.next(), None);
}

#[test]
fn three_steps_run_the_tool() {
    assert_eq!(Step::CreateProject.tool_invocation(), Some(Invocation::CreateProject));
    assert_eq!(Step::WriteManifest.tool_invocation(), None);
    assert_eq!(Step::WriteFormatConfig.tool_invocation(), None);
    assert_eq!(Step::CreateCratesDir.tool_invocation(), None);
    assert_eq!(Step::CreateMemberProject.tool_invocation(), Some(Invocation::CreateMemberProject));
    assert_eq!(Step::AddDependencies.tool_invocation(), Some(Invocation::AddDependencies));
}

#[test]
fn each_step_has_its_action() {
    let plan = expected_plan("demo");
    assert_eq!(Step::CreateProject.action("demo"), plan[0]);
    assert_eq!(Step::WriteManifest.action("demo"), plan[1]);
    assert_eq!(Step::WriteFormatConfig.action("demo"), plan[2]);
    assert_eq!(Step::CreateCratesDir.action("demo"), plan[3]);
    assert_eq!(Step::CreateMemberProject.action("demo"), plan[4]);
    assert_eq!(Step::AddDependencies.action("demo"), plan[5]);
}

#[test]
fn status_after_success_of_each_step() {
    assert_eq!(Status::after_success(Step::CreateProject), Status::Pending(Step::WriteManifest));
    assert_eq!(
        Status::after_success(Step::CreateMemberProject),
        Status::Pending(Step::AddDependencies)
    );
    assert_eq!(Status::after_success(Step::AddDependencies), Status::Succeeded);
    assert_eq!(Status::Pending(Step::CreateCratesDir).pending_step(), Some(Step::CreateCratesDir));
    assert_eq!(Status::Succeeded.pending_step(), None);
    assert_eq!(Status::Failed(InitError::Io("x".to_string())).pending_step(), None);
}

#[test]
fn successful_run_performs_whole_plan() {
    let mut init = Initializer::new("demo");
    let performed = drive(&mut init, None, Outcome::Done);
    assert_eq!(performed, expected_plan("demo"));
    assert_eq!(*init.status(), Status::Succeeded);
    assert!(init.is_finished());
    assert_eq!(init.result(), Some(Ok(())));
    assert_eq!(init.next_action(), None);
}

#[test]
fn performed_actions_are_a_prefix_of_the_plan() {
    for fail_at in 0..6 {
        let mut init = Initializer::new("demo");
        let performed =
            drive(&mut init, Some(fail_at), Outcome::Failed { message: "refused".to_string() });
        assert_eq!(performed, expected_plan("demo")[..fail_at + 1].to_vec());
    }
}

#[test]
fn io_failure_at_each_step_ends_the_run() {
    for fail_at in 0..6 {
        let mut init = Initializer::new("demo");
        let failure = Outcome::Failed { message: format!("refused at {}", fail_at) };
        let performed = drive(&mut init, Some(fail_at), failure);
        assert_eq!(performed.len(), fail_at + 1);
        assert_eq!(init.result(), Some(Err(InitError::Io(format!("refused at {}", fail_at)))));
        assert!(init.is_finished());
        assert_eq!(init.next_action(), None);
    }
}

#[test]
fn tool_failure_at_each_invocation() {
    let cases = [
        (0, Invocation::CreateProject),
        (4, Invocation::CreateMemberProject),
        (5, Invocation::AddDependencies),
    ];
    for (fail_at, invocation) in cases {
        let mut init = Initializer::new("demo");
        let performed = drive(&mut init, Some(fail_at), Outcome::Exited { success: false });
        assert_eq!(performed.len(), fail_at + 1);
        assert_eq!(init.result(), Some(Err(InitError::ToolFailure(invocation))));
        assert_eq!(*init.status(), Status::Failed(InitError::ToolFailure(invocation)));
    }
}

#[test]
fn failed_project_creation_stops_at_once() {
    let mut init = Initializer::new("taken");
    let performed = drive(&mut init, Some(0), Outcome::Exited { success: false });
    assert_eq!(
        performed,
        vec![Action::RunTool {
            program: "cargo".to_string(),
            args: texts(&["new", "taken"]),
            dir: None,
        }]
    );
    assert_eq!(init.result(), Some(Err(InitError::ToolFailure(Invocation::CreateProject))));
    assert_eq!(init.next_action(), None);
}

#[test]
fn every_action_names_the_project_directory() {
    for action in expected_plan("demo") {
        match action {
            Action::RunTool { args, dir: None, .. } => assert_eq!(args.last().unwrap(), "demo"),
            Action::RunTool { dir: Some(dir), .. } => assert_eq!(dir[0], "demo"),
            Action::WriteFile { path, .. } => {
                assert!(path.len() > 1);
                assert_eq!(path[0], "demo");
            }
            Action::CreateDir { path } => {
                assert!(path.len() > 1);
                assert_eq!(path[0], "demo");
            }
        }
    }
}

#[test]
fn manifest_is_written_once_with_the_template() {
    let mut init = Initializer::new("demo");
    let performed = drive(&mut init, None, Outcome::Done);
    let manifest = texts(&["demo", "Cargo.toml"]);
    let writes: Vec<usize> = performed
        .iter()
        .enumerate()
        .filter(|(_, action)| matches!(action, Action::WriteFile { path, .. } if *path == manifest))
        .map(|(index, _)| index)
        .collect();
    assert_eq!(writes, vec![1]);
    assert_eq!(
        performed[1],
        Action::WriteFile {
            path: manifest,
            contents: "[workspace]\nmembers = [\"crates/*\"]\nresolver = \"2\"\n".to_string(),
        }
    );
    assert!(matches!(performed[0], Action::RunTool { .. }));
}

#[test]
fn dependencies_are_added_last_and_are_exactly_four() {
    let mut init = Initializer::new("demo");
    let performed = drive(&mut init, None, Outcome::Done);
    let adds: Vec<usize> = performed
        .iter()
        .enumerate()
        .filter(|(_, action)| matches!(action, Action::RunTool { args, .. } if args[0] == "add"))
        .map(|(index, _)| index)
        .collect();
    assert_eq!(adds, vec![5]);
    match &performed[5] {
        Action::RunTool { program, args, dir } => {
            assert_eq!(program, "cargo");
            assert_eq!(args[1..], texts(&["snafu", "tracing", "tracing-subscriber", "ir_aquila"]));
            assert_eq!(args.len(), 5);
            assert_eq!(*dir, Some(texts(&["demo"])));
        }
        other => panic!("not a tool run: {:?}", other),
    }
}

#[test]
fn failed_member_creation_skips_dependencies() {
    let mut init = Initializer::new("demo");
    let performed = drive(&mut init, Some(4), Outcome::Exited { success: false });
    assert_eq!(performed, expected_plan("demo")[..5].to_vec());
    assert_eq!(performed[3], Action::CreateDir { path: texts(&["demo", "crates"]) });
    assert!(performed
        .iter()
        .all(|action| !matches!(action, Action::RunTool { args, .. } if args[0] == "add")));
    assert_eq!(init.result(), Some(Err(InitError::ToolFailure(Invocation::CreateMemberProject))));
    // Whatever is reported now, nothing more is asked for.
    assert!(!init.advance(Outcome::Exited { success: true }));
    assert!(!init.advance(Outcome::Done));
    assert_eq!(init.next_action(), None);
    assert_eq!(init.result(), Some(Err(InitError::ToolFailure(Invocation::CreateMemberProject))));
}

#[test]
fn tool_that_cannot_be_started_is_an_io_error() {
    let mut init = Initializer::new("demo");
    let failure = Outcome::Failed { message: "No such file or directory (os error 2)".to_string() };
    assert!(init.advance(failure));
    assert_eq!(
        init.result(),
        Some(Err(InitError::Io("No such file or directory (os error 2)".to_string())))
    );
}

#[test]
fn existing_crates_directory_is_an_io_error() {
    let mut init = Initializer::new("demo");
    let performed =
        drive(&mut init, Some(3), Outcome::Failed { message: "File exists (os error 17)".to_string() });
    assert_eq!(performed.len(), 4);
    assert_eq!(init.result(), Some(Err(InitError::Io("File exists (os error 17)".to_string()))));
}

#[test]
fn outcome_that_the_action_cannot_have_is_not_taken() {
    let mut init = Initializer::new("demo");
    // A program exits; it is not "done".
    assert!(!init.advance(Outcome::Done));
    assert_eq!(*init.status(), Status::Pending(Step::CreateProject));
    assert!(init.advance(Outcome::Exited { success: true }));
    // A file is written; it does not exit.
    assert!(!init.advance(Outcome::Exited { success: true }));
    assert!(!init.advance(Outcome::Exited { success: false }));
    assert_eq!(*init.status(), Status::Pending(Step::WriteManifest));
    assert!(init.advance(Outcome::Done));
    assert_eq!(*init.status(), Status::Pending(Step::WriteFormatConfig));
}

#[test]
fn outcome_after_the_end_is_not_taken() {
    let mut init = Initializer::new("demo");
    drive(&mut init, None, Outcome::Done);
    assert!(!init.advance(Outcome::Done));
    assert!(!init.advance(Outcome::Exited { success: false }));
    assert!(!init.advance(Outcome::Failed { message: "late".to_string() }));
    assert_eq!(init.result(), Some(Ok(())));
}

#[test]
fn name_is_not_examined() {
    let init = Initializer::new("");
    assert_eq!(
        init.next_action(),
        Some(Action::RunTool { program: "cargo".to_string(), args: texts(&["new", ""]), dir: None })
    );
    let init = Initializer::new("a/b");
    assert_eq!(
        init.next_action(),
        Some(Action::RunTool {
            program: "cargo".to_string(),
            args: texts(&["new", "a/b"]),
            dir: None,
        })
    );
}

#[test]
fn begin_without_subcommand_does_nothing() {
    assert_eq!(begin(Args { command: None }), None);
}

#[test]
fn begin_with_init_starts_an_initialization() {
    let args = Args { command: Some(Commands::Init { name: "demo".to_string() }) };
    let init = begin(args).unwrap();
    assert_eq!(init, Initializer::new("demo"));
    assert_eq!(init.name(), "demo");
    assert_eq!(init.next_action(), Some(expected_plan("demo")[0].clone()));
}
