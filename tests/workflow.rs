use std::sync::{Arc, Mutex};

use workflow_rs::builder::{TaskStep, WorkflowBuilder, WorkflowError};
use workflow_rs::scope::{TaskScope, TaskScopeRef};

#[test]
fn fresh_builder_report_has_empty_task_body() {
    let b = WorkflowBuilder::new("W".to_string());
    assert_eq!(b.build(), "Workflow: W\nTasks:\n");
}

#[test]
fn two_tasks_are_reported_in_call_order() {
    let mut b = WorkflowBuilder::new("W".to_string());
    b.add_task("t1".to_string(), b.root_scope()).unwrap();
    b.add_task("t2".to_string(), b.root_scope()).unwrap();
    assert_eq!(
        b.build(),
        "Workflow: W\nTasks:\nTaskStep(name=t1, scope=root)\nTaskStep(name=t2, scope=root)"
    );
}

#[test]
fn many_tasks_keep_call_order() {
    let mut b = WorkflowBuilder::new("flow".to_string());
    let names = ["c", "a", "b", "a"];
    for n in names.iter() {
        b.add_task(n.to_string(), b.root_scope()).unwrap();
    }
    let mut expected = "Workflow: flow\nTasks:\n".to_string();
    let lines: Vec<String> =
        names.iter().map(|n| format!("TaskStep(name={}, scope=root)", n)).collect();
    expected.push_str(&lines.join("\n"));
    assert_eq!(b.build(), expected);
}

#[test]
fn add_task_returns_the_registered_step() {
    let mut b = WorkflowBuilder::new("W".to_string());
    let step = b.add_task("load".to_string(), b.root_scope()).unwrap();
    assert_eq!(step.__str__(), "TaskStep(name=load, scope=root)");
}

#[test]
fn independent_scope_named_root_is_rejected() {
    let mut b = WorkflowBuilder::new("W".to_string());
    b.add_task("t1".to_string(), b.root_scope()).unwrap();
    let before = b.build();
    let fake = TaskScopeRef(TaskScope::new("root".to_string(), None));
    let r = b.add_task("t2".to_string(), fake);
    assert_eq!(r.unwrap_err(), WorkflowError::InvalidScope);
    assert_eq!(b.build(), before);
}

#[test]
fn another_builders_root_is_rejected() {
    let mut b = WorkflowBuilder::new("W".to_string());
    let other = WorkflowBuilder::new("V".to_string());
    let r = b.add_task("t".to_string(), other.root_scope());
    assert_eq!(r.unwrap_err(), WorkflowError::InvalidScope);
    assert_eq!(b.build(), "Workflow: W\nTasks:\n");
}

#[test]
fn child_of_root_is_rejected() {
    let mut b = WorkflowBuilder::new("W".to_string());
    let root = b.root_scope();
    let child = TaskScopeRef(TaskScope::new("child".to_string(), Some(root.0.clone())));
    let r = b.add_task("t".to_string(), child);
    assert_eq!(r.unwrap_err(), WorkflowError::InvalidScope);
    assert_eq!(b.build(), "Workflow: W\nTasks:\n");
}

#[test]
fn copy_of_root_handle_is_admitted() {
    let mut b = WorkflowBuilder::new("W".to_string());
    let root = b.root_scope();
    let copy = root.clone();
    assert!(b.add_task("t".to_string(), copy).is_ok());
}

#[test]
fn root_scope_handles_share_one_allocation() {
    let b = WorkflowBuilder::new("W".to_string());
    let r1 = b.root_scope();
    let r2 = b.root_scope();
    assert!(Arc::ptr_eq(&r1.0, &r2.0));
    let other = WorkflowBuilder::new("W".to_string());
    assert!(!Arc::ptr_eq(&r1.0, &other.root_scope().0));
}

#[test]
fn add_task_with_identity_follows_the_flag() {
    let mut b = WorkflowBuilder::new("W".to_string());
    let r = b.add_task_with_identity("t".to_string(), b.root_scope(), false);
    assert_eq!(r.unwrap_err(), WorkflowError::InvalidScope);
    let r = b.add_task_with_identity("u".to_string(), b.root_scope(), true);
    assert_eq!(r.unwrap().__str__(), "TaskStep(name=u, scope=root)");
    assert_eq!(b.build(), "Workflow: W\nTasks:\nTaskStep(name=u, scope=root)");
}

#[test]
fn renders_are_repeatable() {
    let mut b = WorkflowBuilder::new("W".to_string());
    let root = b.root_scope();
    assert_eq!(root.__str__(), "TaskScope(root)");
    assert_eq!(root.__str__(), root.__str__());
    let step = b.add_task("t".to_string(), root).unwrap();
    assert_eq!(step.__str__(), step.__str__());
    assert_eq!(b.build(), b.build());
}

#[test]
fn scope_keeps_name_and_parent() {
    let parent = TaskScope::new("p".to_string(), None);
    let child = TaskScope::new("c".to_string(), Some(parent.clone()));
    assert_eq!(child.name, "c");
    assert!(Arc::ptr_eq(child.parent.as_ref().unwrap(), &parent));
    assert!(parent.parent.is_none());
    assert_eq!(TaskScopeRef(child).__str__(), "TaskScope(c)");
}

#[test]
fn task_step_renders_its_scope_name() {
    let s = TaskScopeRef(TaskScope::new("inner".to_string(), None));
    let step = TaskStep::new("job".to_string(), s);
    assert_eq!(step.__str__(), "TaskStep(name=job, scope=inner)");
}

#[test]
fn builder_renders_its_name() {
    let b = WorkflowBuilder::new("nightly".to_string());
    assert_eq!(b.__str__(), "WorkflowBuilder(nightly)");
}

#[test]
fn error_has_a_message() {
    assert_eq!(WorkflowError::InvalidScope.message(), "Tasks can only be added to root scope");
}

#[test]
fn registrations_through_a_lock_are_all_kept() {
    let shared = Mutex::new(WorkflowBuilder::new("W".to_string()));
    let names = ["a", "b", "c", "d"];
    for n in names.iter() {
        let mut guard = shared.lock().unwrap();
        let root = guard.root_scope();
        guard.add_task(n.to_string(), root).unwrap();
    }
    let report = shared.lock().unwrap().build();
    let lines: Vec<&str> = report.lines().skip(2).collect();
    assert_eq!(lines.len(), names.len());
    for (line, n) in lines.iter().zip(names.iter()) {
        assert_eq!(*line, format!("TaskStep(name={}, scope=root)", n));
    }
}
