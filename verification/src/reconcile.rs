//! The reconciliation decision: from one pull-request record and the
//! branch's observed state to the minimal corrective action.
//!
//! The decision table:
//!
//! | state  | ref exists | ref sha == head sha | action           |
//! |--------|------------|---------------------|------------------|
//! | Open   | no         | —                   | Create(pr-n, sha)|
//! | Open   | yes        | yes                 | NoOp             |
//! | Open   | yes        | no                  | Update(pr-n, sha)|
//! | Closed | no         | —                   | NoOp             |
//! | Closed | yes        | —                   | Delete(pr-n)     |
//!
//! Querying the current ref first and short-circuiting to `NoOp` when
//! the branch already matches is what makes a pass idempotent: a design
//! that unconditionally deletes and recreates every open pull request's
//! branch spams the remote API and transiently breaks consumers watching
//! the ref.

use vstd::prelude::*;
use crate::model::{ActionModel, BranchRef, BranchRefModel, PrRecordModel, PrState,
    PullRequestRecord, ReconcileAction};
use crate::naming::{branch_name, spec_branch_name};

verus! {

/// The commit a possibly-absent branch ref points at: `None` when the
/// branch is absent.
pub open spec fn current_sha(current: Option<BranchRefModel>) -> Option<Seq<char>> {
    match current {
        Option::None => Option::None,
        Option::Some(b) => Option::Some(b.target_sha),
    }
}

/// The decision table as a function of the record and the sha the
/// branch currently points at (`None` when the branch is absent).
///
/// A record of `Unknown` state decides nothing: the table maps it to
/// `NoOp`, and [`plan_record`] surfaces it as skipped instead of
/// planning from it.
pub open spec fn plan_spec(r: PrRecordModel, cur: Option<Seq<char>>) -> ActionModel {
    match r.state {
        PrState::Open => match cur {
            Option::None => (ActionModel::Create {
                name: spec_branch_name(r.number),
                sha: r.head_sha,
            }),
            Option::Some(sha) => if sha == r.head_sha {
                ActionModel::NoOp
            } else {
                (ActionModel::Update { name: spec_branch_name(r.number), sha: r.head_sha })
            },
        },
        PrState::Closed => match cur {
            Option::None => ActionModel::NoOp,
            Option::Some(_) => (ActionModel::Delete { name: spec_branch_name(r.number) }),
        },
        PrState::Unknown => ActionModel::NoOp,
    }
}

/// The branch name an action touches; `None` for `NoOp`.
pub open spec fn action_target(a: ActionModel) -> Option<Seq<char>> {
    match a {
        ActionModel::NoOp => Option::None,
        ActionModel::Create { name, sha } => Option::Some(name),
        ActionModel::Update { name, sha } => Option::Some(name),
        ActionModel::Delete { name } => Option::Some(name),
    }
}

/// Whether an action can be applied against a branch currently at
/// `cur`: creation demands absence, everything else always applies
/// (deleting an absent branch reports success).
pub open spec fn action_allowed(a: ActionModel, cur: Option<Seq<char>>) -> bool {
    match a {
        ActionModel::Create { name, sha } => cur is None,
        _ => true,
    }
}

/// The sha the touched branch points at after the action is applied to
/// a branch currently at `cur`; `None` when it no longer exists.
pub open spec fn target_after(a: ActionModel, cur: Option<Seq<char>>) -> Option<Seq<char>> {
    match a {
        ActionModel::NoOp => cur,
        ActionModel::Create { name, sha } => Option::Some(sha),
        ActionModel::Update { name, sha } => Option::Some(sha),
        ActionModel::Delete { name } => Option::None,
    }
}

/// Every planned action touches the record's own branch or nothing, so
/// actions for distinct pull requests are independent.
pub proof fn lemma_plan_targets_own_branch(r: PrRecordModel, cur: Option<Seq<char>>)
    ensures
        action_target(plan_spec(r, cur)) is Some ==> action_target(plan_spec(r, cur))
            == Option::Some(spec_branch_name(r.number)),
{
}

/// Idempotence: the planned action applies cleanly against the state it
/// was planned from, and planning again from the state it leaves behind
/// decides `NoOp` — a second pass with no intervening change mutates
/// nothing.
pub proof fn lemma_plan_idempotent(r: PrRecordModel, cur: Option<Seq<char>>)
    ensures
        action_allowed(plan_spec(r, cur), cur),
        plan_spec(r, target_after(plan_spec(r, cur), cur)) == ActionModel::NoOp,
{
}

/// Convergence: for a closed pull request, one applied pass leaves its
/// branch absent, whatever state the branch was in before.
pub proof fn lemma_convergence(r: PrRecordModel, cur: Option<Seq<char>>)
    requires
        r.state == PrState::Closed,
    ensures
        target_after(plan_spec(r, cur), cur) is None,
{
}

/// Head-tracking: for an open pull request whose branch exists but
/// points at a stale sha, the plan is `Update` to the new head, and the
/// branch points at the new head afterwards.
pub proof fn lemma_head_tracking(r: PrRecordModel, stale: Seq<char>)
    requires
        r.state == PrState::Open,
        stale != r.head_sha,
    ensures
        plan_spec(r, Option::Some(stale)) == (ActionModel::Update {
            name: spec_branch_name(r.number),
            sha: r.head_sha,
        }),
        target_after(plan_spec(r, Option::Some(stale)), Option::Some(stale)) == Option::Some(
            r.head_sha,
        ),
{
}

/// Decide the corrective action for `record`, given the observed state
/// of its branch (`None` when absent). Pure: performs no I/O, so it is
/// testable without a network.
pub fn plan(record: &PullRequestRecord, current: &Option<BranchRef>) -> (action: ReconcileAction)
    requires
        record@.state != PrState::Unknown,
    ensures
        action@ == plan_spec(record@, current_sha(current.deep_view())),
{
    match record.state {
        PrState::Open => match current {
            Option::None => (ReconcileAction::Create {
                name: branch_name(record.number),
                sha: record.head_sha.clone(),
            }),
            Option::Some(b) => {
                if record.head_sha == b.target_sha {
                    ReconcileAction::NoOp
                } else {
                    ReconcileAction::Update {
                        name: branch_name(record.number),
                        sha: record.head_sha.clone(),
                    }
                }
            },
        },
        PrState::Closed => match current {
            Option::None => ReconcileAction::NoOp,
            Option::Some(_) => (ReconcileAction::Delete { name: branch_name(record.number) }),
        },
        PrState::Unknown => {
            proof {
                assert(false);
            }
            ReconcileAction::NoOp
        },
    }
}

/// Outcome of planning one listed record: an action to carry out, or a
/// record skipped because its state resolved to neither open nor
/// closed.
pub enum PlanOutcome {
    Planned { action: ReconcileAction },
    SkippedUnknown,
}

/// Decide for one listed record, total over every record the listing
/// can produce. A record of `Unknown` state — an external-API contract
/// violation — is never acted upon: it is surfaced as skipped, so that
/// the caller can log a warning, and no destructive default is taken.
pub fn plan_record(record: &PullRequestRecord, current: &Option<BranchRef>) -> (outcome:
    PlanOutcome)
    ensures
        record@.state == PrState::Unknown <==> outcome is SkippedUnknown,
        record@.state != PrState::Unknown ==> outcome == (PlanOutcome::Planned {
            action: outcome->action,
        }) && outcome->action@ == plan_spec(record@, current_sha(current.deep_view())),
{
    match record.state {
        PrState::Unknown => PlanOutcome::SkippedUnknown,
        _ => (PlanOutcome::Planned { action: plan(record, current) }),
    }
}

} // verus!

