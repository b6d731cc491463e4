//! Carrying a plan out, one step at a time.
//!
//! An invocation starts with a request. The decision ends it as rejected,
//! or makes a plan; the plan is the decided state. To begin the execution of
//! the plan is to enter the executing state, in which every plan spends at
//! least one step, and which ends as done or as failed.
//!
//! Nothing here touches the filesystem. An execution names the step that is
//! due; the caller performs it and reports whether it succeeded; the
//! execution then names the next step, or ends. It ends as done when every
//! step succeeded, and as failed with the first step that did not: no step
//! is tried again, and none is performed after a failure.

use vstd::prelude::*;
use crate::error::ExecutionError;
use crate::plan::{ActionPlan, PlanView};
use crate::target::EntryKind;

verus! {

/// One operation on the filesystem.
#[derive(Clone, Copy, Debug, PartialEq, Eq, Structural)]
pub enum Step {
    /// Create the directory at the path, and every directory above it that
    /// is missing. Directories that stand already are left as they are.
    CreateDirectory,
    /// Create every directory above the path that is missing. Directories
    /// that stand already are left as they are.
    CreateAncestors,
    /// Create the file at the path, empty; a file that stands there is
    /// emptied.
    CreateFile,
    /// Write the input to the file, byte for byte and in the order in which
    /// it arrives, until the input ends.
    CopyInput,
    /// Mark the file executable.
    MarkExecutable,
}

/// Where an execution stands. A plan that is made is a decision; to begin
/// its execution is to enter `Executing`, and every execution ends as `Done`
/// or as `Failed`.
#[derive(Clone, Copy, Debug, PartialEq, Eq, Structural)]
pub enum Phase {
    /// A step is due.
    Executing,
    /// Every step has been performed.
    Done,
    /// A step failed. The steps before it have been performed.
    Failed(ExecutionError),
}

impl Step {
    /// What the failure of this step means for the invocation. That the
    /// file could not be marked is told apart from everything else: the file
    /// stands by then.
    pub open spec fn spec_failure(self) -> ExecutionError {
        if self == Step::MarkExecutable {
            ExecutionError::ExecutableMarkingFailed
        } else {
            ExecutionError::FilesystemError
        }
    }

    /// What the failure of this step means for the invocation.
    #[verifier::when_used_as_spec(spec_failure)]
    pub fn failure(self) -> (r: ExecutionError)
        ensures
            r == self.spec_failure(),
    {
        match self {
            Step::MarkExecutable => ExecutionError::ExecutableMarkingFailed,
            _ => ExecutionError::FilesystemError,
        }
    }
}

/// The steps that carry `plan` out, in their order. A directory takes one
/// step. A file takes three, and a fourth if it is to be executable: the mark
/// is applied when the content has been written.
pub open spec fn spec_steps(plan: PlanView) -> Seq<Step> {
    if plan.kind == EntryKind::Directory {
        seq![Step::CreateDirectory]
    } else if plan.executable {
        seq![Step::CreateAncestors, Step::CreateFile, Step::CopyInput, Step::MarkExecutable]
    } else {
        seq![Step::CreateAncestors, Step::CreateFile, Step::CopyInput]
    }
}

/// The steps that carry `plan` out, in their order.
pub fn steps(plan: &ActionPlan) -> (r: Vec<Step>)
    ensures
        r@ == spec_steps(plan@),
{
    let mut r: Vec<Step> = Vec::new();
    match plan.kind() {
        EntryKind::Directory => {
            r.push(Step::CreateDirectory);
        },
        EntryKind::File => {
            r.push(Step::CreateAncestors);
            r.push(Step::CreateFile);
            r.push(Step::CopyInput);
            if plan.executable() {
                r.push(Step::MarkExecutable);
            }
        },
    }
    assert(r@ =~= spec_steps(plan@));
    r
}

/// An execution as the contracts see it: the plan, how many of its steps
/// have been performed, and the failure that ended it, if one did.
pub struct ExecutionView {
    pub plan: PlanView,
    pub completed: nat,
    pub failure: Option<ExecutionError>,
}

impl ExecutionView {
    /// An execution of `plan` of which nothing has been performed.
    pub open spec fn begin(plan: PlanView) -> ExecutionView {
        ExecutionView { plan, completed: 0, failure: None }
    }

    /// The steps of the plan.
    pub open spec fn steps(self) -> Seq<Step> {
        spec_steps(self.plan)
    }

    /// No more steps are counted than the plan has, and a failure is the
    /// failure of the first step that was not performed.
    pub open spec fn is_valid(self) -> bool {
        &&& self.completed <= self.steps().len()
        &&& self.failure matches Some(error) ==> {
            &&& self.completed < self.steps().len()
            &&& error == self.steps()[self.completed as int].spec_failure()
        }
    }

    /// Whether the execution has ended, as done or as failed.
    pub open spec fn has_ended(self) -> bool {
        self.pending() is None
    }

    /// The step that is due: the first that has not been performed, unless
    /// the execution has ended.
    pub open spec fn pending(self) -> Option<Step> {
        if self.failure is None && self.completed < self.steps().len() {
            Some(self.steps()[self.completed as int])
        } else {
            None
        }
    }

    /// Where the execution stands.
    pub open spec fn phase(self) -> Phase {
        if let Some(error) = self.failure {
            Phase::Failed(error)
        } else if self.completed >= self.steps().len() {
            Phase::Done
        } else {
            Phase::Executing
        }
    }

    /// The execution after the step that is due was tried. An execution that
    /// has ended stays as it is.
    pub open spec fn after(self, succeeded: bool) -> ExecutionView {
        match self.pending() {
            None => self,
            Some(step) => if succeeded {
                ExecutionView { completed: self.completed + 1, ..self }
            } else {
                ExecutionView { failure: Some(step.spec_failure()), ..self }
            },
        }
    }

    /// The execution after a row of steps was tried, `outcomes` saying of
    /// each in turn whether it succeeded.
    pub open spec fn after_all(self, outcomes: Seq<bool>) -> ExecutionView
        decreases outcomes.len(),
    {
        if outcomes.len() == 0 {
            self
        } else {
            self.after(outcomes[0]).after_all(outcomes.drop_first())
        }
    }
}

/// An execution that is valid stays valid, whatever is reported of the step
/// that is due; one that has not begun is valid.
pub proof fn law_executions_stay_valid(execution: ExecutionView, succeeded: bool)
    requires
        execution.is_valid(),
    ensures
        execution.after(succeeded).is_valid(),
        ExecutionView::begin(execution.plan).is_valid(),
{
}

/// One row of steps tried after another is the two rows tried in one.
pub proof fn lemma_after_all_joined(
    execution: ExecutionView,
    first: Seq<bool>,
    second: Seq<bool>,
)
    ensures
        execution.after_all(first + second) == execution.after_all(first).after_all(second),
    decreases first.len(),
{
    if first.len() == 0 {
        assert(first + second == second);
    } else {
        assert((first + second).drop_first() == first.drop_first() + second);
        lemma_after_all_joined(execution.after(first[0]), first.drop_first(), second);
    }
}

/// An execution that has ended stays as it is: after a failure no step is
/// performed, and none is tried again.
pub proof fn law_ended_executions_stay(execution: ExecutionView, outcomes: Seq<bool>)
    requires
        execution.has_ended(),
    ensures
        execution.after_all(outcomes) == execution,
    decreases outcomes.len(),
{
    if outcomes.len() > 0 {
        law_ended_executions_stay(execution, outcomes.drop_first());
    }
}

/// Steps that all succeed are counted, one by one.
pub proof fn lemma_successes_are_counted(execution: ExecutionView, outcomes: Seq<bool>)
    requires
        execution.failure is None,
        execution.completed + outcomes.len() <= execution.steps().len(),
        forall|i: int| 0 <= i < outcomes.len() ==> outcomes[i],
    ensures
        execution.after_all(outcomes) == (ExecutionView {
            completed: execution.completed + outcomes.len(),
            ..execution
        }),
    decreases outcomes.len(),
{
    if outcomes.len() > 0 {
        lemma_successes_are_counted(execution.after(outcomes[0]), outcomes.drop_first());
    }
}

/// Where every step of a plan succeeds, the execution is done when the last
/// of them has been performed, and not before.
pub proof fn law_success_ends_as_done(plan: PlanView, outcomes: Seq<bool>)
    requires
        outcomes.len() <= spec_steps(plan).len(),
        forall|i: int| 0 <= i < outcomes.len() ==> outcomes[i],
    ensures
        ExecutionView::begin(plan).after_all(outcomes) == (ExecutionView {
            plan,
            completed: outcomes.len(),
            failure: None,
        }),
        ExecutionView::begin(plan).after_all(outcomes).phase() == Phase::Done <==> outcomes.len()
            == spec_steps(plan).len(),
{
    lemma_successes_are_counted(ExecutionView::begin(plan), outcomes);
}

/// Where a step fails, the execution ends as failed with that step: the
/// steps before it have been performed, the failure is the one that the step
/// gives, and whatever is reported afterwards changes nothing.
pub proof fn law_first_failure_ends(plan: PlanView, outcomes: Seq<bool>, failed: int)
    requires
        0 <= failed < outcomes.len(),
        failed < spec_steps(plan).len(),
        !outcomes[failed],
        forall|i: int| 0 <= i < failed ==> outcomes[i],
    ensures
        ExecutionView::begin(plan).after_all(outcomes) == (ExecutionView {
            plan,
            completed: failed as nat,
            failure: Some(spec_steps(plan)[failed].spec_failure()),
        }),
        ExecutionView::begin(plan).after_all(outcomes).phase() == Phase::Failed(
            spec_steps(plan)[failed].spec_failure(),
        ),
{
    let begun = ExecutionView::begin(plan);
    let before = outcomes.subrange(0, failed);
    let behind = outcomes.subrange(failed + 1, outcomes.len() as int);
    let from_failed = seq![false] + behind;
    assert(outcomes == before + from_failed);
    lemma_after_all_joined(begun, before, from_failed);
    lemma_successes_are_counted(begun, before);
    let reached = begun.after_all(before);
    assert(from_failed.drop_first() == behind);
    law_ended_executions_stay(reached.after(false), behind);
}

/// A failure to mark the file is told apart from every other failure: it
/// occurs only when the file has been created and its content written. Any
/// other failure is a failure of the filesystem.
pub proof fn law_marking_fails_last(execution: ExecutionView)
    requires
        execution.is_valid(),
    ensures
        execution.failure == Some(ExecutionError::ExecutableMarkingFailed) ==> {
            &&& execution.plan.kind == EntryKind::File
            &&& execution.plan.executable
            &&& execution.steps().subrange(0, execution.completed as int) == seq![
                Step::CreateAncestors,
                Step::CreateFile,
                Step::CopyInput,
            ]
        },
        execution.failure == Some(ExecutionError::FilesystemError) ==> execution.steps()[execution.completed as int]
            != Step::MarkExecutable,
{
    if execution.failure == Some(ExecutionError::ExecutableMarkingFailed) {
        assert(execution.steps()[execution.completed as int] == Step::MarkExecutable);
        assert(execution.completed == 3);
        assert(execution.steps().subrange(0, 3) =~= seq![
            Step::CreateAncestors,
            Step::CreateFile,
            Step::CopyInput,
        ]);
    }
}

/// What the steps of a plan are made of. A directory is created in one
/// step, with nothing copied and nothing marked. For a file the directories
/// above it come first, then the file, then its content; the mark follows
/// the content, and only where the plan asks for it.
pub proof fn law_steps_follow_plan(plan: PlanView)
    ensures
        plan.kind == EntryKind::Directory ==> spec_steps(plan) == seq![Step::CreateDirectory],
        plan.kind == EntryKind::File ==> {
            &&& spec_steps(plan).subrange(0, 3) == seq![
                Step::CreateAncestors,
                Step::CreateFile,
                Step::CopyInput,
            ]
            &&& spec_steps(plan).len() == if plan.executable {
                4nat
            } else {
                3nat
            }
            &&& plan.executable ==> spec_steps(plan)[3] == Step::MarkExecutable
        },
        spec_steps(plan).contains(Step::MarkExecutable) <==> plan.kind == EntryKind::File
            && plan.executable,
        spec_steps(plan).contains(Step::CopyInput) <==> plan.kind == EntryKind::File,
{
    let all = spec_steps(plan);
    if plan.kind == EntryKind::File {
        assert(all.subrange(0, 3) =~= seq![
            Step::CreateAncestors,
            Step::CreateFile,
            Step::CopyInput,
        ]);
        assert(all[2] == Step::CopyInput);
        if plan.executable {
            assert(all[3] == Step::MarkExecutable);
        }
    }
}

/// The state of carrying one plan out.
#[derive(Clone, Copy, Debug, PartialEq, Eq)]
pub struct Execution {
    plan: ActionPlan,
    completed: usize,
    failure: Option<ExecutionError>,
}

impl View for Execution {
    type V = ExecutionView;

    closed spec fn view(&self) -> ExecutionView {
        ExecutionView {
            plan: self.plan@,
            completed: self.completed as nat,
            failure: self.failure,
        }
    }
}

impl Execution {
    #[verifier::type_invariant]
    spec fn holds(self) -> bool {
        self@.is_valid()
    }

    /// Starts to carry `plan` out. Nothing has been performed yet, and the
    /// first step is due.
    pub fn begin(plan: ActionPlan) -> (r: Execution)
        ensures
            r@ == ExecutionView::begin(plan@),
            r@.is_valid(),
            r@.phase() == Phase::Executing,
    {
        Execution { plan, completed: 0, failure: None }
    }

    /// The plan that is carried out.
    pub fn plan(&self) -> (r: ActionPlan)
        ensures
            r@ == self@.plan,
    {
        self.plan
    }

    /// How many steps have been performed.
    pub fn completed(&self) -> (r: usize)
        ensures
            r == self@.completed,
            self@.is_valid(),
    {
        proof {
            use_type_invariant(self);
        }
        self.completed
    }

    /// The step that is due, if the execution has not ended.
    pub fn pending(&self) -> (r: Option<Step>)
        ensures
            r == self@.pending(),
    {
        if self.failure.is_some() {
            return None;
        }
        let all = steps(&self.plan);
        if self.completed < all.len() {
            Some(all[self.completed])
        } else {
            None
        }
    }

    /// Records whether the step that is due succeeded. After a success the
    /// next step is due, or the execution is done; after a failure it has
    /// failed, for the reason that the step gives. An execution that has
    /// ended stays as it is.
    pub fn record(&mut self, succeeded: bool)
        ensures
            final(self)@ == old(self)@.after(succeeded),
            final(self)@.is_valid(),
    {
        proof {
            use_type_invariant(&*self);
        }
        match self.pending() {
            None => {},
            Some(step) => {
                if succeeded {
                    self.completed = self.completed + 1;
                } else {
                    self.failure = Some(step.failure());
                }
            },
        }
    }

    /// Where the execution stands.
    pub fn phase(&self) -> (r: Phase)
        ensures
            r == self@.phase(),
    {
        let all = steps(&self.plan);
        match self.failure {
            Some(error) => Phase::Failed(error),
            None => {
                if self.completed >= all.len() {
                    Phase::Done
                } else {
                    Phase::Executing
                }
            },
        }
    }
}

} // verus!
