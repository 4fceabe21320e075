//! Lowering a corrective action to the primitive operations the remote
//! ref API offers: create-ref and delete-ref.
//!
//! The API has no atomic "move pointer" primitive, so `Update` lowers to
//! delete-then-create on the same name. If the delete lands and the
//! create fails, the branch is left absent; the next pass observes "no
//! ref" and plans `Create` again, so the pipeline stays eventually
//! consistent even though a single update is not atomic.

use vstd::prelude::*;
use crate::model::{ActionModel, ReconcileAction};

verus! {

/// One primitive remote ref operation.
pub enum RefOp {
    CreateRef { name: String, sha: String },
    DeleteRef { name: String },
}

/// Mathematical image of a [`RefOp`].
pub enum RefOpModel {
    CreateRef { name: Seq<char>, sha: Seq<char> },
    DeleteRef { name: Seq<char> },
}

impl View for RefOp {
    type V = RefOpModel;

    open spec fn view(&self) -> RefOpModel {
        match self {
            RefOp::CreateRef { name, sha } => (RefOpModel::CreateRef { name: name@, sha: sha@ }),
            RefOp::DeleteRef { name } => (RefOpModel::DeleteRef { name: name@ }),
        }
    }
}

/// The primitive operations that carry out `action`, in the order they
/// must be issued: nothing for `NoOp`, a single create or delete for
/// `Create` and `Delete`, and delete-then-create for `Update`.
pub fn action_ops(action: &ReconcileAction) -> (ops: Vec<RefOp>)
    ensures
        match action@ {
            ActionModel::NoOp => ops@.len() == 0,
            ActionModel::Create { name, sha } => ops@.len() == 1 && ops@[0]@
                == (RefOpModel::CreateRef { name, sha }),
            ActionModel::Update { name, sha } => ops@.len() == 2 && ops@[0]@
                == (RefOpModel::DeleteRef { name }) && ops@[1]@ == (RefOpModel::CreateRef {
                name,
                sha,
            }),
            ActionModel::Delete { name } => ops@.len() == 1 && ops@[0]@ == (RefOpModel::DeleteRef {
                name,
            }),
        },
{
    let mut ops: Vec<RefOp> = Vec::new();
    match action {
        ReconcileAction::NoOp => {},
        ReconcileAction::Create { name, sha } => {
            ops.push(RefOp::CreateRef { name: name.clone(), sha: sha.clone() });
        },
        ReconcileAction::Update { name, sha } => {
            ops.push(RefOp::DeleteRef { name: name.clone() });
            ops.push(RefOp::CreateRef { name: name.clone(), sha: sha.clone() });
        },
        ReconcileAction::Delete { name } => {
            ops.push(RefOp::DeleteRef { name: name.clone() });
        },
    }
    ops
}

} // verus!
