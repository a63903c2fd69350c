use vstd::prelude::*;

use crate::builder::{join_lines, report_text, step_lines, step_text, TaskStep, WorkflowBuilder};
use crate::scope::{TaskScope, TaskScopeRef};

verus! {

/// Steps are reported in the order they were registered: appending a step
/// appends its line after the lines of all earlier steps, which stay as they
/// were, and the report grows only at its end.
pub proof fn lemma_report_keeps_registration_order(
    name: Seq<char>,
    steps: Seq<(Seq<char>, TaskScope)>,
    step: (Seq<char>, TaskScope),
)
    ensures
        step_lines(steps.push(step)) == step_lines(steps).push(step_text(step.0, step.1.name@)),
        forall|i: int|
            0 <= i < steps.len() ==> #[trigger] step_lines(steps.push(step))[i] == step_lines(
                steps,
            )[i],
        report_text(name, steps.push(step)) == report_text(name, steps) + (if steps.len() == 0 {
            Seq::<char>::empty()
        } else {
            "\n"@
        }) + step_text(step.0, step.1.name@),
{
    let lines = step_lines(steps.push(step));
    assert(lines =~= step_lines(steps).push(step_text(step.0, step.1.name@)));
    assert(lines.drop_last() =~= step_lines(steps));
    if steps.len() == 0 {
        assert(join_lines(lines) == lines[0]);
        assert(join_lines(step_lines(steps)) =~= Seq::<char>::empty());
        assert(report_text(name, steps.push(step)) =~= report_text(name, steps) + Seq::<char>::empty()
            + step_text(step.0, step.1.name@));
    } else {
        assert(report_text(name, steps.push(step)) =~= report_text(name, steps) + "\n"@ + step_text(
            step.0,
            step.1.name@,
        ));
    }
}

/// Asking a builder twice for its root scope gives handles to one and the
/// same scope value.
pub proof fn lemma_root_scope_is_stable(b: WorkflowBuilder, r1: TaskScopeRef, r2: TaskScopeRef)
    requires
        call_ensures(WorkflowBuilder::root_scope, (&b,), r1),
        call_ensures(WorkflowBuilder::root_scope, (&b,), r2),
    ensures
        *r1.0 == *r2.0,
        *r1.0 == b.root_view(),
{
}

/// Rendering a scope handle twice gives the same text.
pub proof fn lemma_scope_render_is_pure(s: TaskScopeRef, r1: String, r2: String)
    requires
        call_ensures(TaskScopeRef::__str__, (&s,), r1),
        call_ensures(TaskScopeRef::__str__, (&s,), r2),
    ensures
        r1@ == r2@,
{
}

/// Rendering a task step twice gives the same text.
pub proof fn lemma_step_render_is_pure(s: TaskStep, r1: String, r2: String)
    requires
        call_ensures(TaskStep::__str__, (&s,), r1),
        call_ensures(TaskStep::__str__, (&s,), r2),
    ensures
        r1@ == r2@,
{
}

/// Building twice with no registration in between gives the same report.
pub proof fn lemma_build_is_pure(b: WorkflowBuilder, r1: String, r2: String)
    requires
        call_ensures(WorkflowBuilder::build, (&b,), r1),
        call_ensures(WorkflowBuilder::build, (&b,), r2),
    ensures
        r1@ == r2@,
{
}

} // verus!
