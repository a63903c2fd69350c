use std::sync::Arc;
use vstd::prelude::*;

verus! {

/// The display form of a scope named `name`: `TaskScope(<name>)`.
pub open spec fn scope_text(name: Seq<char>) -> Seq<char> {
    "TaskScope("@ + name + ")"@
}

/// A named node of the scope hierarchy, optionally linked to a parent.
///
/// A scope is never changed after it is made, and its parent exists before it,
/// so the parent chain has no cycle.
#[derive(Debug, Clone)]
pub struct TaskScope {
    pub name: String,
    pub parent: Option<Arc<TaskScope>>,
}

impl TaskScope {
    /// Creates a scope with the given name and parent, behind a shared handle.
    pub fn new(name: String, parent: Option<Arc<TaskScope>>) -> (r: Arc<TaskScope>)
        ensures
            r.name == name,
            r.parent == parent,
    {
        Arc::new(TaskScope { name, parent })
    }
}

/// A shared handle to a scope, as handed to callers.
///
/// Two handles stand for the same scope only when they point to the same
/// allocation; equal names are not enough.
#[derive(Debug, Clone)]
pub struct TaskScopeRef(pub Arc<TaskScope>);

impl TaskScopeRef {
    /// Renders the scope as `TaskScope(<name>)`.
    pub fn __str__(&self) -> (r: String)
        ensures
            r@ == scope_text(self.0.name@),
    {
        let r = String::from_str("TaskScope(");
        let r = r.concat(self.0.name.as_str());
        r.concat(")")
    }
}

/// Relies on std's `Arc::ptr_eq`: it tells whether two handles point to the
/// same allocation, and handles to one allocation see one value.
#[verifier::external_body]
pub(crate) fn same_allocation(a: &Arc<TaskScope>, b: &Arc<TaskScope>) -> (r: bool)
    ensures
        r ==> **a == **b,
{
    Arc::ptr_eq(a, b)
}

} // verus!
