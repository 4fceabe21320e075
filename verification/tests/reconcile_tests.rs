use pr_branch_sync::model::{BranchRef, PrState, PullRequestRecord, ReconcileAction};
use pr_branch_sync::reconcile::{plan, plan_record, PlanOutcome};
use pr_branch_sync::store::RefStore;

fn record(number: u64, state: PrState, head_sha: &str) -> PullRequestRecord {
    PullRequestRecord {
        number,
        state,
        head_sha: head_sha.to_string(),
        title: None,
        author_login: None,
    }
}

fn branch(name: &str, sha: &str) -> BranchRef {
    BranchRef { name: name.to_string(), target_sha: sha.to_string() }
}

#[test]
fn open_pr_without_ref_creates() {
    let r = record(42, PrState::Open, "abc123def");
    let action = plan(&r, &None);
    match action {
        ReconcileAction::Create { name, sha } => {
            assert_eq!(name, "pr-42");
            assert_eq!(sha, "abc123def");
        },
        _ => panic!("expected Create"),
    }
}

#[test]
fn open_pr_with_matching_ref_is_noop() {
    let r = record(42, PrState::Open, "abc123def");
    let current = Some(branch("pr-42", "abc123def"));
    let action = plan(&r, &current);
    assert!(matches!(action, ReconcileAction::NoOp));
}

#[test]
fn open_pr_with_stale_ref_updates() {
    let r = record(42, PrState::Open, "def456abc");
    let current = Some(branch("pr-42", "abc123def"));
    let action = plan(&r, &current);
    match action {
        ReconcileAction::Update { name, sha } => {
            assert_eq!(name, "pr-42");
            assert_eq!(sha, "def456abc");
        },
        _ => panic!("expected Update"),
    }
}

#[test]
fn closed_pr_with_ref_deletes_then_second_run_is_noop() {
    let r = record(7, PrState::Closed, "abc123def");
    let current = Some(branch("pr-7", "abc123def"));
    let action = plan(&r, &current);
    match &action {
        ReconcileAction::Delete { name } => assert_eq!(name, "pr-7"),
        _ => panic!("expected Delete"),
    }
    let mut store = RefStore::new();
    store.apply(&ReconcileAction::Create {
        name: "pr-7".to_string(),
        sha: "abc123def".to_string(),
    }).unwrap();
    store.apply(&action).unwrap();
    let second = plan(&r, &store.current_ref(&"pr-7".to_string()));
    assert!(matches!(second, ReconcileAction::NoOp));
}

#[test]
fn closed_pr_without_ref_is_noop() {
    let r = record(7, PrState::Closed, "abc123def");
    let action = plan(&r, &None);
    assert!(matches!(action, ReconcileAction::NoOp));
}

#[test]
fn second_pass_is_all_noop() {
    // Idempotence on concrete data: after one applied pass, a second
    // pass over the same listing decides NoOp for every record.
    let listing = vec![
        record(1, PrState::Open, "aaa111"),
        record(2, PrState::Open, "bbb222"),
        record(3, PrState::Closed, "ccc333"),
    ];
    let mut store = RefStore::new();
    store.apply(&ReconcileAction::Create {
        name: "pr-2".to_string(),
        sha: "stale000".to_string(),
    }).unwrap();
    store.apply(&ReconcileAction::Create {
        name: "pr-3".to_string(),
        sha: "ccc333".to_string(),
    }).unwrap();
    for r in &listing {
        let name = pr_branch_sync::naming::branch_name(r.number);
        let action = plan(r, &store.current_ref(&name));
        store.apply(&action).unwrap();
    }
    for r in &listing {
        let name = pr_branch_sync::naming::branch_name(r.number);
        let action = plan(r, &store.current_ref(&name));
        assert!(matches!(action, ReconcileAction::NoOp));
    }
}

#[test]
fn closed_pr_converges_to_absent_ref() {
    // Convergence on concrete data: a PR that went Open -> Closed has
    // no branch left after one applied pass.
    let mut store = RefStore::new();
    store.apply(&ReconcileAction::Create {
        name: "pr-9".to_string(),
        sha: "aaa111".to_string(),
    }).unwrap();
    let r = record(9, PrState::Closed, "aaa111");
    let action = plan(&r, &store.current_ref(&"pr-9".to_string()));
    store.apply(&action).unwrap();
    assert!(store.current_ref(&"pr-9".to_string()).is_none());
}

#[test]
fn head_change_updates_ref_to_new_sha() {
    // Head-tracking on concrete data: a changed head sha yields Update
    // and the ref ends at the new head.
    let mut store = RefStore::new();
    store.apply(&ReconcileAction::Create {
        name: "pr-5".to_string(),
        sha: "oldhead".to_string(),
    }).unwrap();
    let r = record(5, PrState::Open, "newhead");
    let action = plan(&r, &store.current_ref(&"pr-5".to_string()));
    match &action {
        ReconcileAction::Update { name, sha } => {
            assert_eq!(name, "pr-5");
            assert_eq!(sha, "newhead");
        },
        _ => panic!("expected Update"),
    }
    store.apply(&action).unwrap();
    let after = store.current_ref(&"pr-5".to_string()).unwrap();
    assert_eq!(after.target_sha, "newhead");
}

#[test]
fn unknown_state_is_skipped_not_planned() {
    let r = record(11, PrState::Unknown, "abc123def");
    let outcome = plan_record(&r, &None);
    assert!(matches!(outcome, PlanOutcome::SkippedUnknown));
    let with_ref = Some(branch("pr-11", "abc123def"));
    let outcome = plan_record(&r, &with_ref);
    assert!(matches!(outcome, PlanOutcome::SkippedUnknown));
}

#[test]
fn well_formed_states_are_planned() {
    let r = record(12, PrState::Open, "abc123def");
    let outcome = plan_record(&r, &None);
    match outcome {
        PlanOutcome::Planned { action } => {
            assert!(matches!(action, ReconcileAction::Create { .. }))
        },
        PlanOutcome::SkippedUnknown => panic!("expected a planned action"),
    }
}
