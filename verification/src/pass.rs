//! A reconciliation pass against a ref namespace: plan, then apply, for
//! one record and for a whole listing.
//!
//! These functions tie the planner and the store together and carry the
//! pass-level guarantees: after a successful pass, every open pull
//! request's branch exists and points at its head sha, every closed
//! one's branch is absent, and no ref outside the `pr-` names of the
//! listed pull requests is touched.

use vstd::prelude::*;
use crate::model::{PrState, PullRequestRecord};
use crate::naming::{branch_name, lemma_branch_name_injective, spec_branch_name};
use crate::reconcile::{current_sha, plan_record, plan_spec, PlanOutcome};
use crate::store::RefStore;

verus! {

/// Reconcile one listed record against the store: read its branch's
/// current state, decide, and apply the decision.
///
/// A record of unknown state is skipped and the store left untouched.
/// Otherwise the branch ends present at the record's head sha for an
/// open pull request and absent for a closed one, no other name is
/// affected, and the action applied is exactly the decision table's.
/// The planned action always applies cleanly: a create is only planned
/// where the read found no branch.
pub fn reconcile_record(store: &mut RefStore, record: &PullRequestRecord) -> (outcome: PlanOutcome)
    requires
        old(store).wf(),
    ensures
        final(store).wf(),
        record@.state == PrState::Unknown <==> outcome is SkippedUnknown,
        record@.state == PrState::Unknown ==> final(store).lookup_same(*old(store)),
        record@.state == PrState::Open ==> final(store).lookup(spec_branch_name(record@.number))
            == Option::Some(record@.head_sha),
        record@.state == PrState::Closed ==> final(store).lookup(
            spec_branch_name(record@.number),
        ) is None,
        final(store).others_same(*old(store), spec_branch_name(record@.number)),
        outcome is Planned ==> outcome->action@ == plan_spec(
            record@,
            old(store).lookup(spec_branch_name(record@.number)),
        ),
{
    let ghost pre = *store;
    let ghost n = spec_branch_name(record@.number);
    let name = branch_name(record.number);
    let current = store.current_ref(&name);
    proof {
        if pre.lookup(n) is Some {
            assert(current_sha(current.deep_view()) == pre.lookup(n));
        } else {
            assert(current_sha(current.deep_view()) == Option::<Seq<char>>::None);
        }
    }
    match plan_record(record, &current) {
        PlanOutcome::SkippedUnknown => PlanOutcome::SkippedUnknown,
        PlanOutcome::Planned { action } => {
            let applied = store.apply(&action);
            match applied {
                Result::Ok(()) => {},
                Result::Err(_) => {
                    proof {
                        assert(false);
                    }
                },
            }
            PlanOutcome::Planned { action }
        },
    }
}

/// Reconcile a whole listing, record by record, in order.
///
/// The listing's numbers are unique, as the provider guarantees; the
/// branch names they own are then pairwise distinct, so the records'
/// effects are independent. Afterwards every open record's branch
/// points at its head sha, every closed record's branch is absent, and
/// every name owned by none of the listed records resolves as before.
pub fn reconcile_all(store: &mut RefStore, records: &Vec<PullRequestRecord>)
    requires
        old(store).wf(),
        forall|i: int, j: int|
            0 <= i < j < records@.len() ==> records@[i]@.number != records@[j]@.number,
    ensures
        final(store).wf(),
        forall|i: int|
            0 <= i < records@.len() && records@[i]@.state == PrState::Open ==> final(store).lookup(
                spec_branch_name(records@[i]@.number),
            ) == Option::Some(records@[i]@.head_sha),
        forall|i: int|
            0 <= i < records@.len() && records@[i]@.state == PrState::Closed
                ==> final(store).lookup(spec_branch_name(records@[i]@.number)) is None,
        forall|n: Seq<char>|
            (forall|i: int|
                0 <= i < records@.len() ==> spec_branch_name(records@[i]@.number) != n)
                ==> final(store).lookup(n) == old(store).lookup(n),
{
    let ghost pre = *store;
    let mut idx: usize = 0;
    while idx < records.len()
        invariant
            store.wf(),
            idx <= records@.len(),
            forall|i: int, j: int|
                0 <= i < j < records@.len() ==> records@[i]@.number != records@[j]@.number,
            forall|i: int|
                0 <= i < idx && records@[i]@.state == PrState::Open ==> store.lookup(
                    spec_branch_name(records@[i]@.number),
                ) == Option::Some(records@[i]@.head_sha),
            forall|i: int|
                0 <= i < idx && records@[i]@.state == PrState::Closed ==> store.lookup(
                    spec_branch_name(records@[i]@.number),
                ) is None,
            forall|n: Seq<char>|
                (forall|i: int| 0 <= i < idx ==> spec_branch_name(records@[i]@.number) != n)
                    ==> store.lookup(n) == pre.lookup(n),
        decreases records@.len() - idx,
    {
        let record = &records[idx];
        proof {
            assert forall|i: int| 0 <= i < idx implies spec_branch_name(records@[i]@.number)
                != spec_branch_name(records@[idx as int]@.number) by {
                if spec_branch_name(records@[i]@.number) == spec_branch_name(
                    records@[idx as int]@.number,
                ) {
                    lemma_branch_name_injective(
                        records@[i]@.number,
                        records@[idx as int]@.number,
                    );
                }
            }
        }
        reconcile_record(store, record);
        idx = idx + 1;
    }
}

} // verus!
