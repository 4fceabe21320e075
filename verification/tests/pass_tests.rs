use pr_branch_sync::model::{PrState, PullRequestRecord, ReconcileAction};
use pr_branch_sync::pass::{reconcile_all, reconcile_record};
use pr_branch_sync::reconcile::PlanOutcome;
use pr_branch_sync::store::RefStore;

fn record(number: u64, state: PrState, head_sha: &str) -> PullRequestRecord {
    PullRequestRecord {
        number,
        state,
        head_sha: head_sha.to_string(),
        title: None,
        author_login: None,
    }
}

fn seed(store: &mut RefStore, name: &str, sha: &str) {
    store
        .apply(&ReconcileAction::Create { name: name.to_string(), sha: sha.to_string() })
        .unwrap();
}

#[test]
fn full_pass_establishes_the_branch_invariants() {
    let mut store = RefStore::new();
    seed(&mut store, "pr-2", "stale000");
    seed(&mut store, "pr-3", "ccc333");
    seed(&mut store, "release", "rel111");

    let listing = vec![
        record(1, PrState::Open, "aaa111"),
        record(2, PrState::Open, "bbb222"),
        record(3, PrState::Closed, "ccc333"),
        record(4, PrState::Unknown, "ddd444"),
    ];
    reconcile_all(&mut store, &listing);

    // open pull requests: branch present at the head sha
    assert_eq!(store.current_ref(&"pr-1".to_string()).unwrap().target_sha, "aaa111");
    assert_eq!(store.current_ref(&"pr-2".to_string()).unwrap().target_sha, "bbb222");
    // closed pull request: branch absent
    assert!(store.current_ref(&"pr-3".to_string()).is_none());
    // unknown state: untouched
    assert!(store.current_ref(&"pr-4".to_string()).is_none());
    // a ref outside the pr- names of the listing is untouched
    assert_eq!(store.current_ref(&"release".to_string()).unwrap().target_sha, "rel111");
}

#[test]
fn second_full_pass_plans_only_noop() {
    let listing = vec![
        record(5, PrState::Open, "eee555"),
        record(6, PrState::Closed, "fff666"),
    ];
    let mut store = RefStore::new();
    seed(&mut store, "pr-6", "fff666");
    reconcile_all(&mut store, &listing);
    for r in &listing {
        match reconcile_record(&mut store, r) {
            PlanOutcome::Planned { action } => {
                assert!(matches!(action, ReconcileAction::NoOp))
            },
            PlanOutcome::SkippedUnknown => panic!("expected a planned action"),
        }
    }
}

#[test]
fn unknown_record_leaves_the_store_untouched() {
    let mut store = RefStore::new();
    seed(&mut store, "pr-8", "abc123def");
    let outcome = reconcile_record(&mut store, &record(8, PrState::Unknown, "zzz999"));
    assert!(matches!(outcome, PlanOutcome::SkippedUnknown));
    assert_eq!(store.current_ref(&"pr-8".to_string()).unwrap().target_sha, "abc123def");
}
