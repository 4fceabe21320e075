//! Data model: pull-request records as the listing reports them, branch
//! references, and the corrective actions reconciliation emits.

use vstd::prelude::*;

verus! {

/// Lifecycle state of a pull request as reported by the hosting API.
///
/// `Unknown` never occurs in a well-formed listing; its presence marks a
/// contract violation by the remote API. Such a record is skipped with a
/// surfaced warning rather than acted upon.
#[derive(Clone, Copy, PartialEq, Eq, Structural, Debug)]
pub enum PrState {
    Open,
    Closed,
    Unknown,
}

/// One pull request at the moment of listing.
///
/// Constructed fresh from each listing call, never mutated afterwards.
/// `number` is the provider-assigned identity key; `head_sha` is the
/// commit the pull request's source branch pointed at when listed;
/// `title` and `author_login` are display-only and optional.
pub struct PullRequestRecord {
    pub number: u64,
    pub state: PrState,
    pub head_sha: String,
    pub title: Option<String>,
    pub author_login: Option<String>,
}

/// Mathematical image of a [`PullRequestRecord`].
pub struct PrRecordModel {
    pub number: nat,
    pub state: PrState,
    pub head_sha: Seq<char>,
    pub title: Option<Seq<char>>,
    pub author_login: Option<Seq<char>>,
}

impl View for PullRequestRecord {
    type V = PrRecordModel;

    open spec fn view(&self) -> PrRecordModel {
        PrRecordModel {
            number: self.number as nat,
            state: self.state,
            head_sha: self.head_sha@,
            title: self.title.deep_view(),
            author_login: self.author_login.deep_view(),
        }
    }
}

/// A named branch pointer in the target repository: `name` resolves to
/// the commit hash `target_sha`.
pub struct BranchRef {
    pub name: String,
    pub target_sha: String,
}

/// Mathematical image of a [`BranchRef`].
pub struct BranchRefModel {
    pub name: Seq<char>,
    pub target_sha: Seq<char>,
}

impl View for BranchRef {
    type V = BranchRefModel;

    open spec fn view(&self) -> BranchRefModel {
        BranchRefModel { name: self.name@, target_sha: self.target_sha@ }
    }
}

impl DeepView for BranchRef {
    type V = BranchRefModel;

    open spec fn deep_view(&self) -> BranchRefModel {
        self.view()
    }
}

/// The corrective action reconciliation emits for one pull request.
///
/// `Update` is conceptually delete-then-create: the ref API in use has
/// no atomic move, so lowering splits it into those two primitives.
pub enum ReconcileAction {
    NoOp,
    Create { name: String, sha: String },
    Update { name: String, sha: String },
    Delete { name: String },
}

/// Mathematical image of a [`ReconcileAction`].
pub enum ActionModel {
    NoOp,
    Create { name: Seq<char>, sha: Seq<char> },
    Update { name: Seq<char>, sha: Seq<char> },
    Delete { name: Seq<char> },
}

impl View for ReconcileAction {
    type V = ActionModel;

    open spec fn view(&self) -> ActionModel {
        match self {
            ReconcileAction::NoOp => ActionModel::NoOp,
            ReconcileAction::Create { name, sha } => (ActionModel::Create {
                name: name@,
                sha: sha@,
            }),
            ReconcileAction::Update { name, sha } => (ActionModel::Update {
                name: name@,
                sha: sha@,
            }),
            ReconcileAction::Delete { name } => (ActionModel::Delete { name: name@ }),
        }
    }
}

} // verus!
