use std::sync::Arc;
use vstd::prelude::*;

use crate::scope::{same_allocation, TaskScope, TaskScopeRef};

verus! {

/// The display form of a task step: `TaskStep(name=<name>, scope=<scope name>)`.
pub open spec fn step_text(name: Seq<char>, scope_name: Seq<char>) -> Seq<char> {
    "TaskStep(name="@ + name + ", scope="@ + scope_name + ")"@
}

/// The display form of a builder: `WorkflowBuilder(<workflow name>)`.
pub open spec fn builder_text(name: Seq<char>) -> Seq<char> {
    "WorkflowBuilder("@ + name + ")"@
}

/// The lines joined with a newline between each two of them (none after the last).
pub open spec fn join_lines(lines: Seq<Seq<char>>) -> Seq<char>
    decreases lines.len(),
{
    if lines.len() == 0 {
        Seq::empty()
    } else if lines.len() == 1 {
        lines[0]
    } else {
        join_lines(lines.drop_last()) + "\n"@ + lines.last()
    }
}

/// The rendered line of each step, in the order of the steps.
pub open spec fn step_lines(steps: Seq<(Seq<char>, TaskScope)>) -> Seq<Seq<char>> {
    steps.map_values(|s: (Seq<char>, TaskScope)| step_text(s.0, s.1.name@))
}

/// The report of a workflow named `name` whose steps are `steps`.
pub open spec fn report_text(name: Seq<char>, steps: Seq<(Seq<char>, TaskScope)>) -> Seq<char> {
    "Workflow: "@ + name + "\nTasks:\n"@ + join_lines(step_lines(steps))
}

/// The one way a registration can fail.
#[derive(Debug, Clone, Copy, PartialEq, Eq, Structural)]
pub enum WorkflowError {
    /// The scope handed in is not the builder's own root scope.
    InvalidScope,
}

impl WorkflowError {
    /// A sentence that describes the error.
    pub fn message(&self) -> (r: String)
        ensures
            r@ == "Tasks can only be added to root scope"@,
    {
        String::from_str("Tasks can only be added to root scope")
    }
}

/// The fact that task `name` was registered under `scope`.
#[derive(Debug, Clone)]
pub struct TaskStep {
    name: String,
    scope: Arc<TaskScope>,
}

impl View for TaskStep {
    /// The task's name and the scope it was registered under.
    type V = (Seq<char>, TaskScope);

    closed spec fn view(&self) -> (Seq<char>, TaskScope) {
        (self.name@, *self.scope)
    }
}

impl TaskStep {
    /// Records task `name` under the scope that `scope` points to.
    pub fn new(name: String, scope: TaskScopeRef) -> (r: TaskStep)
        ensures
            r@ == (name@, *scope.0),
    {
        TaskStep { name, scope: scope.0 }
    }

    /// Renders the step as `TaskStep(name=<name>, scope=<scope name>)`.
    pub fn __str__(&self) -> (r: String)
        ensures
            r@ == step_text(self@.0, self@.1.name@),
    {
        let r = String::from_str("TaskStep(name=");
        let r = r.concat(self.name.as_str());
        let r = r.concat(", scope=");
        let r = r.concat(self.scope.name.as_str());
        r.concat(")")
    }
}

/// Collects the task steps of one workflow, all registered under its root scope.
///
/// Registration takes `&mut self`, so concurrent callers go through a lock that
/// holds the builder: each registration is then one atomic append.
pub struct WorkflowBuilder {
    workflow_name: String,
    root_scope: Arc<TaskScope>,
    tasks: Vec<TaskStep>,
}

impl WorkflowBuilder {
    /// The name of the workflow.
    pub closed spec fn name_view(&self) -> Seq<char> {
        self.workflow_name@
    }

    /// The root scope that the builder made and admits tasks under.
    pub closed spec fn root_view(&self) -> TaskScope {
        *self.root_scope
    }

    /// The registered steps, in the order of registration.
    pub closed spec fn steps(&self) -> Seq<(Seq<char>, TaskScope)> {
        self.tasks@.map_values(|t: TaskStep| t@)
    }

    /// Every registered step lies under the root scope.
    pub open spec fn wf(&self) -> bool {
        forall|i: int| 0 <= i < self.steps().len() ==> (#[trigger] self.steps()[i]).1 == self.root_view()
    }

    /// Starts a workflow named `name` with a fresh parentless scope named
    /// `root` and no tasks.
    pub fn new(name: String) -> (r: WorkflowBuilder)
        ensures
            r.wf(),
            r.name_view() == name@,
            r.root_view().name@ == "root"@,
            r.root_view().parent is None,
            r.steps() == Seq::<(Seq<char>, TaskScope)>::empty(),
    {
        let root_scope = TaskScope::new(String::from_str("root"), None);
        let r = WorkflowBuilder { workflow_name: name, root_scope, tasks: Vec::new() };
        assert(r.steps() =~= Seq::<(Seq<char>, TaskScope)>::empty());
        r
    }

    /// A handle to the builder's root scope; every call hands out the same
    /// allocation.
    pub fn root_scope(&self) -> (r: TaskScopeRef)
        ensures
            *r.0 == self.root_view(),
    {
        TaskScopeRef(self.root_scope.clone())
    }

    /// Registers task `name` under `scope` given whether `scope` is the
    /// builder's root scope: appends the step and returns a copy of it when it
    /// is, and changes nothing when it is not.
    pub fn add_task_with_identity(&mut self, name: String, scope: TaskScopeRef, is_root: bool) -> (r:
        Result<TaskStep, WorkflowError>)
        requires
            old(self).wf(),
            is_root ==> *scope.0 == old(self).root_view(),
        ensures
            final(self).wf(),
            final(self).name_view() == old(self).name_view(),
            final(self).root_view() == old(self).root_view(),
            is_root <==> r is Ok,
            match r {
                Ok(step) => step@ == (name@, old(self).root_view()) && final(self).steps() == old(
                    self,
                ).steps().push(step@),
                Err(e) => e == WorkflowError::InvalidScope && final(self).steps() == old(self).steps(),
            },
    {
        if !is_root {
            return Err(WorkflowError::InvalidScope);
        }
        let kept = TaskStep { name: name.clone(), scope: scope.0.clone() };
        let step = TaskStep { name, scope: scope.0 };
        self.tasks.push(kept);
        assert(self.steps() =~= old(self).steps().push(step@));
        assert forall|i: int| 0 <= i < self.steps().len() implies (#[trigger] self.steps()[i]).1
            == self.root_view() by {
            if i < old(self).steps().len() {
                assert(self.steps()[i] == old(self).steps()[i]);
            }
        }
        Ok(step)
    }

    /// Registers task `name` under `scope`, which must be the very root scope
    /// of this builder (the same allocation, not merely an equal one).
    ///
    /// On success the step is appended after all earlier ones and a copy of it
    /// is returned; otherwise `InvalidScope` comes back and nothing changes.
    pub fn add_task(&mut self, name: String, scope: TaskScopeRef) -> (r: Result<TaskStep, WorkflowError>)
        requires
            old(self).wf(),
        ensures
            final(self).wf(),
            final(self).name_view() == old(self).name_view(),
            final(self).root_view() == old(self).root_view(),
            match r {
                Ok(step) => *scope.0 == old(self).root_view() && step@ == (name@, old(self).root_view())
                    && final(self).steps() == old(self).steps().push(step@),
                Err(e) => e == WorkflowError::InvalidScope && final(self).steps() == old(self).steps(),
            },
    {
        let is_root = same_allocation(&scope.0, &self.root_scope);
        self.add_task_with_identity(name, scope, is_root)
    }

    /// The report: `Workflow: <name>`, a `Tasks:` line, then one line per step
    /// in registration order.
    pub fn build(&self) -> (r: String)
        ensures
            r@ == report_text(self.name_view(), self.steps()),
    {
        let ghost lines = step_lines(self.steps());
        let mut out = String::from_str("Workflow: ");
        out.append(self.workflow_name.as_str());
        out.append("\nTasks:\n");
        let ghost head = out@;
        let mut i: usize = 0;
        while i < self.tasks.len()
            invariant
                i <= self.tasks.len(),
                lines == step_lines(self.steps()),
                head == "Workflow: "@ + self.name_view() + "\nTasks:\n"@,
                out@ == head + join_lines(lines.take(i as int)),
            decreases self.tasks.len() - i,
        {
            if i > 0 {
                out.append("\n");
            }
            let line = self.tasks[i].__str__();
            out.append(line.as_str());
            proof {
                let next = lines.take(i + 1);
                assert(next.drop_last() =~= lines.take(i as int));
                if i == 0 {
                    assert(join_lines(next) == next[0]);
                }
            }
            i = i + 1;
        }
        assert(lines.take(i as int) =~= lines);
        out
    }

    /// Renders the builder as `WorkflowBuilder(<workflow name>)`.
    pub fn __str__(&self) -> (r: String)
        ensures
            r@ == builder_text(self.name_view()),
    {
        let r = String::from_str("WorkflowBuilder(");
        let r = r.concat(self.workflow_name.as_str());
        r.concat(")")
    }
}

} // verus!
