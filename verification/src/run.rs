//! Runs of the initializer, and what holds of every one of them.
//!
//! A run is a sequence of reported outcomes. The initializer is followed
//! through it with [`InitState::run`], and the actions that the caller
//! performed on the way are collected by [`InitState::performed`]. The
//! theorems below hold whatever the caller reports.

use vstd::prelude::*;
use crate::action::{ActionView, OutcomeView};
use crate::error::{InitErrorView, Invocation};
use crate::init::{InitState, StatusView, Step};
use crate::layout::{
    default_dependencies, CRATES_DIR, FORMAT_CONFIG_FILE, MANIFEST_FILE, MEMBER_NAME, TOOL,
};
use crate::template::WORKSPACE_MANIFEST;

verus! {

impl InitState {
    /// The state after the outcomes were reported one after another.
    pub open spec fn run(self, outcomes: Seq<OutcomeView>) -> InitState
        decreases outcomes.len(),
    {
        if outcomes.len() == 0 {
            self
        } else {
            self.after(outcomes.first()).run(outcomes.drop_first())
        }
    }

    /// The actions that were performed to obtain the outcomes: for each
    /// outcome that was taken, the action that was pending when it came.
    pub open spec fn performed(self, outcomes: Seq<OutcomeView>) -> Seq<ActionView>
        decreases outcomes.len(),
    {
        if outcomes.len() == 0 {
            Seq::empty()
        } else {
            let later = self.after(outcomes.first()).performed(outcomes.drop_first());
            if self.accepts(outcomes.first()) {
                seq![self.pending().unwrap()] + later
            } else {
                later
            }
        }
    }
}

/// Everything that is done for the project `name` when nothing fails, in order.
pub open spec fn plan(name: Seq<char>) -> Seq<ActionView> {
    seq![
        Step::CreateProject.action_for(name),
        Step::WriteManifest.action_for(name),
        Step::WriteFormatConfig.action_for(name),
        Step::CreateCratesDir.action_for(name),
        Step::CreateMemberProject.action_for(name),
        Step::AddDependencies.action_for(name),
    ]
}

/// The outcomes of a run in which nothing fails.
pub open spec fn all_successes() -> Seq<OutcomeView> {
    seq![
        OutcomeView::Exited { success: true },
        OutcomeView::Done,
        OutcomeView::Done,
        OutcomeView::Done,
        OutcomeView::Exited { success: true },
        OutcomeView::Exited { success: true },
    ]
}

/// Whether the action writes the file at `path`.
pub open spec fn writes_file(action: ActionView, path: Seq<Seq<char>>) -> bool {
    action matches ActionView::WriteFile { path: written, .. } && written == path
}

/// Whether the action asks the tool to add dependencies.
pub open spec fn adds_dependencies(action: ActionView) -> bool {
    action matches ActionView::RunTool { args, .. } && args.len() > 0 && args[0] == "add"@
}

/// The error with which a step ends when its action fails with `outcome`.
pub open spec fn error_of(step: Step, outcome: OutcomeView) -> InitErrorView {
    match outcome {
        OutcomeView::Failed { message } => InitErrorView::Io(message),
        _ => InitErrorView::ToolFailure(step.invocation().unwrap()),
    }
}

/// A run in two parts is the run of the first part followed, from where
/// that ended, by the run of the second.
pub proof fn runs_compose(state: InitState, first: Seq<OutcomeView>, second: Seq<OutcomeView>)
    ensures
        state.run(first + second) == state.run(first).run(second),
        state.performed(first + second) == state.performed(first) + state.run(first).performed(
            second,
        ),
    decreases first.len(),
{
    if first.len() == 0 {
        assert(first + second =~= second);
        assert(state.performed(first) + state.performed(second) =~= state.performed(second));
    } else {
        let next = state.after(first.first());
        assert((first + second).first() == first.first());
        assert((first + second).drop_first() =~= first.drop_first() + second);
        runs_compose(next, first.drop_first(), second);
        let early = next.performed(first.drop_first());
        let late = next.run(first.drop_first()).performed(second);
        if state.accepts(first.first()) {
            let action = state.pending().unwrap();
            assert(seq![action] + (early + late) =~= (seq![action] + early) + late);
        }
    }
}

/// From a pending step on, a run performs the plan from that step, without
/// a gap, up to the step at which it stands or has ended.
proof fn lemma_run_from(state: InitState, outcomes: Seq<OutcomeView>)
    ensures
        state.run(outcomes).name == state.name,
        match state.status {
            StatusView::Pending(step) => {
                let done = state.performed(outcomes);
                &&& step.index() + done.len() <= 6
                &&& done == plan(state.name).subrange(step.index(), step.index() + done.len())
                &&& match state.run(outcomes).status {
                    StatusView::Pending(next) => next.index() == step.index() + done.len(),
                    StatusView::Succeeded => step.index() + done.len() == 6,
                    StatusView::Failed(InitErrorView::ToolFailure(invocation)) =>
                        invocation.step().index() + 1 == step.index() + done.len()
                        && step.index() <= invocation.step().index(),
                    StatusView::Failed(InitErrorView::Io(_)) => done.len() >= 1,
                }
            },
            _ => state.run(outcomes) == state && state.performed(outcomes).len() == 0,
        },
    decreases outcomes.len(),
{
    if outcomes.len() > 0 {
        let next = state.after(outcomes.first());
        lemma_run_from(next, outcomes.drop_first());
        if let StatusView::Pending(step) = state.status {
            let done = state.performed(outcomes);
            let later = next.performed(outcomes.drop_first());
            let whole = plan(state.name);
            let at = step.index();
            assert(whole[at] == step.action_for(state.name));
            if state.accepts(outcomes.first()) {
                assert(done == seq![whole[at]] + later);
                if let StatusView::Pending(following) = next.status {
                    assert(following.index() == at + 1);
                    assert(done =~= whole.subrange(at, at + done.len()));
                } else {
                    assert(later.len() == 0);
                    assert(done =~= whole.subrange(at, at + 1));
                }
            } else {
                assert(next == state);
            }
        }
    } else {
        if let StatusView::Pending(step) = state.status {
            assert(state.performed(outcomes) =~= plan(state.name).subrange(
                step.index(),
                step.index(),
            ));
        }
    }
}

/// A run never changes the project that it is about.
pub proof fn run_keeps_name(state: InitState, outcomes: Seq<OutcomeView>)
    ensures
        state.run(outcomes).name == state.name,
{
    lemma_run_from(state, outcomes);
}

/// An outcome that is not taken changes nothing.
pub proof fn untaken_outcome_changes_nothing(state: InitState, outcome: OutcomeView)
    requires
        !state.accepts(outcome),
    ensures
        state.after(outcome) == state,
{
}

/// While a step is pending, the steps before it have been performed, each
/// once and in order, and nothing else.
pub proof fn pending_step_follows_performed(
    name: Seq<char>,
    outcomes: Seq<OutcomeView>,
    step: Step,
)
    requires
        InitState::start(name).run(outcomes).status == StatusView::Pending(step),
    ensures
        InitState::start(name).performed(outcomes) == plan(name).take(step.index()),
{
    lemma_run_from(InitState::start(name), outcomes);
}

/// Whatever is reported, the actions performed are the first steps of the
/// plan, in its order: no step is skipped, repeated or taken out of turn.
pub proof fn performed_follows_plan(name: Seq<char>, outcomes: Seq<OutcomeView>)
    ensures
        InitState::start(name).performed(outcomes).len() <= 6,
        InitState::start(name).performed(outcomes) == plan(name).take(
            InitState::start(name).performed(outcomes).len() as int,
        ),
{
    lemma_run_from(InitState::start(name), outcomes);
}

/// An initialization that succeeded has performed the whole plan.
pub proof fn success_performs_whole_plan(name: Seq<char>, outcomes: Seq<OutcomeView>)
    requires
        InitState::start(name).run(outcomes).status == StatusView::Succeeded,
    ensures
        InitState::start(name).performed(outcomes) == plan(name),
{
    lemma_run_from(InitState::start(name), outcomes);
    assert(plan(name).subrange(0, 6) =~= plan(name));
}

/// When the tool exits with success three times and the three file
/// operations are done, the initialization succeeds.
pub proof fn six_successes_succeed(name: Seq<char>)
    ensures
        InitState::start(name).run(all_successes()).status == StatusView::Succeeded,
        InitState::start(name).performed(all_successes()) == plan(name),
{
    let s0 = InitState::start(name);
    let o0 = all_successes();
    let s1 = s0.after(o0[0]);
    let o1 = o0.drop_first();
    let s2 = s1.after(o1[0]);
    let o2 = o1.drop_first();
    let s3 = s2.after(o2[0]);
    let o3 = o2.drop_first();
    let s4 = s3.after(o3[0]);
    let o4 = o3.drop_first();
    let s5 = s4.after(o4[0]);
    let o5 = o4.drop_first();
    let s6 = s5.after(o5[0]);
    let o6 = o5.drop_first();
    assert(s6.run(o6) == s6);
    assert(s5.run(o5) == s6);
    assert(s4.run(o4) == s6);
    assert(s3.run(o3) == s6);
    assert(s2.run(o2) == s6);
    assert(s1.run(o1) == s6);
    assert(s0.run(o0) == s6);
    success_performs_whole_plan(name, all_successes());
}

/// Once an initialization has ended, no outcome changes it and no action
/// is performed for it.
pub proof fn nothing_happens_after_the_end(state: InitState, outcomes: Seq<OutcomeView>)
    requires
        state.pending() is None,
    ensures
        state.run(outcomes) == state,
        state.performed(outcomes) == Seq::<ActionView>::empty(),
{
    lemma_run_from(state, outcomes);
    assert(state.performed(outcomes) =~= Seq::<ActionView>::empty());
}

/// The first failure ends the initialization: when the pending action
/// fails, the initialization ends with that step's error, whatever is
/// reported afterwards, and the failed action is the last one performed.
pub proof fn first_failure_ends_run(
    state: InitState,
    failure: OutcomeView,
    later: Seq<OutcomeView>,
)
    requires
        state.accepts(failure),
        !failure.is_success(),
    ensures
        state.status matches StatusView::Pending(step) && state.run(seq![failure] + later).status
            == StatusView::Failed(error_of(step, failure)),
        state.performed(seq![failure] + later) == seq![state.pending().unwrap()],
{
    let outcomes = seq![failure] + later;
    assert(outcomes.first() == failure);
    assert(outcomes.drop_first() =~= later);
    nothing_happens_after_the_end(state.after(failure), later);
    assert(state.performed(outcomes) =~= seq![state.pending().unwrap()]);
}

/// No action reaches outside the project's directory: files and
/// directories lie below it, and the tool runs below it, but for the first
/// step, where the tool is told to create that very directory.
pub proof fn actions_stay_within_project(name: Seq<char>, step: Step)
    ensures
        step.action_for(name).stays_within(name),
{
}

/// When the creation of the project fails, the initialization ends at
/// once with that failure: the one call of the tool is all that was done.
pub proof fn failed_creation_ends_at_once(
    name: Seq<char>,
    failure: OutcomeView,
    later: Seq<OutcomeView>,
)
    requires
        failure == (OutcomeView::Exited { success: false }) || failure is Failed,
    ensures
        InitState::start(name).run(seq![failure] + later).status == StatusView::Failed(
            error_of(Step::CreateProject, failure),
        ),
        failure is Exited ==> error_of(Step::CreateProject, failure) == InitErrorView::ToolFailure(
            Invocation::CreateProject,
        ),
        InitState::start(name).performed(seq![failure] + later) == seq![
            ActionView::RunTool { program: TOOL@, args: seq!["new"@, name], dir: None },
        ],
{
    first_failure_ends_run(InitState::start(name), failure, later);
}

/// After a success the manifest was written exactly once, after the tool
/// had created the project, and with the workspace manifest as its text.
pub proof fn manifest_is_replaced_once(name: Seq<char>, outcomes: Seq<OutcomeView>)
    requires
        InitState::start(name).run(outcomes).status == StatusView::Succeeded,
    ensures
        ({
            let done = InitState::start(name).performed(outcomes);
            let manifest = seq![name, MANIFEST_FILE@];
            &&& done.len() == 6
            &&& done[0] == Step::CreateProject.action_for(name)
            &&& done[1] == (ActionView::WriteFile {
                path: manifest,
                contents: WORKSPACE_MANIFEST@,
            })
            &&& forall|i: int| 0 <= i < 6 && i != 1 ==> !writes_file(#[trigger] done[i], manifest)
        }),
{
    success_performs_whole_plan(name, outcomes);
    reveal_strlit("Cargo.toml");
    reveal_strlit("rustfmt.toml");
    let manifest = seq![name, MANIFEST_FILE@];
    let other = seq![name, FORMAT_CONFIG_FILE@];
    assert(other[1].len() != manifest[1].len());
}

/// After a success the last thing done was to add the default
/// dependencies, these four and no others, from the project's root; no
/// action before it added any.
pub proof fn dependencies_are_added_last(name: Seq<char>, outcomes: Seq<OutcomeView>)
    requires
        InitState::start(name).run(outcomes).status == StatusView::Succeeded,
    ensures
        ({
            let done = InitState::start(name).performed(outcomes);
            &&& done.len() == 6
            &&& done[5] == (ActionView::RunTool {
                program: TOOL@,
                args: seq!["add"@, "snafu"@, "tracing"@, "tracing-subscriber"@, "ir_aquila"@],
                dir: Some(seq![name]),
            })
            &&& forall|i: int| 0 <= i < 5 ==> !adds_dependencies(#[trigger] done[i])
        }),
{
    success_performs_whole_plan(name, outcomes);
    assert(seq!["add"@] + default_dependencies() =~= seq![
        "add"@,
        "snafu"@,
        "tracing"@,
        "tracing-subscriber"@,
        "ir_aquila"@,
    ]);
    lemma_new_is_not_add();
}

/// The tool's word for creating a package is not its word for adding dependencies.
proof fn lemma_new_is_not_add()
    ensures
        "new"@ != "add"@,
{
    reveal_strlit("new");
    reveal_strlit("add");
    assert("new"@[0] != "add"@[0]);
}

/// When the creation of the member package fails, the directory for the
/// members has been created before, the failed call is the last thing
/// done, and no dependencies are ever added, whatever is reported afterwards.
pub proof fn failed_member_creation_adds_nothing(
    name: Seq<char>,
    before: Seq<OutcomeView>,
    failure: OutcomeView,
    later: Seq<OutcomeView>,
)
    requires
        InitState::start(name).run(before).status == StatusView::Pending(
            Step::CreateMemberProject,
        ),
        failure == (OutcomeView::Exited { success: false }) || failure is Failed,
    ensures
        ({
            let outcomes = before + seq![failure] + later;
            let done = InitState::start(name).performed(outcomes);
            &&& InitState::start(name).run(outcomes).status == StatusView::Failed(
                error_of(Step::CreateMemberProject, failure),
            )
            &&& failure is Exited ==> error_of(Step::CreateMemberProject, failure)
                == InitErrorView::ToolFailure(Invocation::CreateMemberProject)
            &&& done == plan(name).take(5)
            &&& done[3] == (ActionView::CreateDir { path: seq![name, CRATES_DIR@] })
            &&& done[4] == (ActionView::RunTool {
                program: TOOL@,
                args: seq!["new"@, "--bin"@, MEMBER_NAME@],
                dir: Some(seq![name, CRATES_DIR@]),
            })
            &&& forall|i: int| 0 <= i < done.len() ==> !adds_dependencies(#[trigger] done[i])
        }),
{
    let start = InitState::start(name);
    let reached = start.run(before);
    run_keeps_name(start, before);
    pending_step_follows_performed(name, before, Step::CreateMemberProject);
    first_failure_ends_run(reached, failure, later);
    runs_compose(start, before, seq![failure] + later);
    assert(before + seq![failure] + later =~= before + (seq![failure] + later));
    let done = start.performed(before + seq![failure] + later);
    assert(done =~= plan(name).take(5));
    lemma_new_is_not_add();
}

} // verus!
