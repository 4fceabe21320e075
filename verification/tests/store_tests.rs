use pr_branch_sync::model::ReconcileAction;
use pr_branch_sync::ops::{action_ops, RefOp};
use pr_branch_sync::store::{ApplyError, RefStore};

fn create(name: &str, sha: &str) -> ReconcileAction {
    ReconcileAction::Create { name: name.to_string(), sha: sha.to_string() }
}

#[test]
fn delete_of_absent_ref_succeeds() {
    // Absence-delete safety: deleting a name with no matching ref is
    // success, not an error.
    let mut store = RefStore::new();
    let outcome = store.apply(&ReconcileAction::Delete { name: "pr-42".to_string() });
    assert!(outcome.is_ok());
    assert!(store.current_ref(&"pr-42".to_string()).is_none());
}

#[test]
fn delete_leaves_other_refs_alone() {
    let mut store = RefStore::new();
    store.apply(&create("pr-1", "aaa111")).unwrap();
    store.apply(&create("pr-2", "bbb222")).unwrap();
    store.apply(&ReconcileAction::Delete { name: "pr-1".to_string() }).unwrap();
    assert!(store.current_ref(&"pr-1".to_string()).is_none());
    let kept = store.current_ref(&"pr-2".to_string()).unwrap();
    assert_eq!(kept.name, "pr-2");
    assert_eq!(kept.target_sha, "bbb222");
}

#[test]
fn create_of_existing_ref_fails_and_changes_nothing() {
    let mut store = RefStore::new();
    store.apply(&create("pr-3", "aaa111")).unwrap();
    let outcome = store.apply(&create("pr-3", "bbb222"));
    assert_eq!(outcome, Err(ApplyError::RefAlreadyExists));
    let kept = store.current_ref(&"pr-3".to_string()).unwrap();
    assert_eq!(kept.target_sha, "aaa111");
}

#[test]
fn update_repoints_the_ref() {
    let mut store = RefStore::new();
    store.apply(&create("pr-4", "aaa111")).unwrap();
    store.apply(&ReconcileAction::Update {
        name: "pr-4".to_string(),
        sha: "bbb222".to_string(),
    }).unwrap();
    let after = store.current_ref(&"pr-4".to_string()).unwrap();
    assert_eq!(after.target_sha, "bbb222");
}

#[test]
fn noop_changes_nothing() {
    let mut store = RefStore::new();
    store.apply(&create("pr-6", "aaa111")).unwrap();
    store.apply(&ReconcileAction::NoOp).unwrap();
    let kept = store.current_ref(&"pr-6".to_string()).unwrap();
    assert_eq!(kept.target_sha, "aaa111");
}

#[test]
fn noop_lowers_to_no_operations() {
    let ops = action_ops(&ReconcileAction::NoOp);
    assert!(ops.is_empty());
}

#[test]
fn create_lowers_to_one_create() {
    let ops = action_ops(&create("pr-8", "abc123def"));
    assert_eq!(ops.len(), 1);
    match &ops[0] {
        RefOp::CreateRef { name, sha } => {
            assert_eq!(name, "pr-8");
            assert_eq!(sha, "abc123def");
        },
        _ => panic!("expected CreateRef"),
    }
}

#[test]
fn update_lowers_to_delete_then_create() {
    let ops = action_ops(&ReconcileAction::Update {
        name: "pr-8".to_string(),
        sha: "abc123def".to_string(),
    });
    assert_eq!(ops.len(), 2);
    match &ops[0] {
        RefOp::DeleteRef { name } => assert_eq!(name, "pr-8"),
        _ => panic!("expected DeleteRef first"),
    }
    match &ops[1] {
        RefOp::CreateRef { name, sha } => {
            assert_eq!(name, "pr-8");
            assert_eq!(sha, "abc123def");
        },
        _ => panic!("expected CreateRef second"),
    }
}

#[test]
fn delete_lowers_to_one_delete() {
    let ops = action_ops(&ReconcileAction::Delete { name: "pr-8".to_string() });
    assert_eq!(ops.len(), 1);
    match &ops[0] {
        RefOp::DeleteRef { name } => assert_eq!(name, "pr-8"),
        _ => panic!("expected DeleteRef"),
    }
}
