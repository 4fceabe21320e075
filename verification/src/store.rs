//! An in-memory ref store: a faithful stand-in for the remote
//! repository's ref namespace.
//!
//! It fixes the semantics every mutator of that namespace must have:
//! reading an absent ref yields `None` rather than an error, creating an
//! existing name fails with [`ApplyError::RefAlreadyExists`], updating
//! is delete-then-create on one name, and deleting an absent name
//! reports success, so a delete that races an external deletion stays
//! idempotent. Tests drive reconciliation against it without a network.

use vstd::prelude::*;
use crate::model::{ActionModel, BranchRef, ReconcileAction};

verus! {

/// Failure of applying an action: a create met an existing ref, the one
/// recoverable conflict a freshly planned action can run into.
#[derive(Clone, Copy, PartialEq, Eq, Structural, Debug)]
pub enum ApplyError {
    RefAlreadyExists,
}

/// The sha that `name` resolves to in the entry sequence `s`, or `None`
/// when no entry carries that name. Later entries shadow earlier ones;
/// under [`refs_unique`] there is at most one.
pub open spec fn refs_lookup(s: Seq<BranchRef>, name: Seq<char>) -> Option<Seq<char>>
    decreases s.len(),
{
    if s.len() == 0 {
        Option::None
    } else if s.last()@.name == name {
        Option::Some(s.last()@.target_sha)
    } else {
        refs_lookup(s.drop_last(), name)
    }
}

/// No two entries carry the same name.
pub open spec fn refs_unique(s: Seq<BranchRef>) -> bool {
    forall|i: int, j: int| 0 <= i < j < s.len() ==> s[i]@.name != s[j]@.name
}

/// `name` is absent from `s` exactly when no entry carries it.
proof fn lemma_lookup_absent(s: Seq<BranchRef>, name: Seq<char>)
    ensures
        refs_lookup(s, name) is None <==> (forall|j: int|
            0 <= j < s.len() ==> s[j]@.name != name),
    decreases s.len(),
{
    if s.len() > 0 {
        lemma_lookup_absent(s.drop_last(), name);
        assert(forall|j: int| 0 <= j < s.len() - 1 ==> s.drop_last()[j] == s[j]);
        assert(s.last() == s[s.len() - 1]);
    }
}

/// Under uniqueness, the entry at `i` decides the lookup of its name.
proof fn lemma_lookup_present(s: Seq<BranchRef>, i: int, name: Seq<char>)
    requires
        refs_unique(s),
        0 <= i < s.len(),
        s[i]@.name == name,
    ensures
        refs_lookup(s, name) == Option::Some(s[i]@.target_sha),
    decreases s.len(),
{
    if i == s.len() - 1 {
        assert(s.last() == s[i]);
    } else {
        assert(s.last() == s[s.len() - 1]);
        assert(s.last()@.name != name);
        assert(refs_unique(s.drop_last())) by {
            assert(forall|a: int| 0 <= a < s.len() - 1 ==> s.drop_last()[a] == s[a]);
        }
        assert(s.drop_last()[i] == s[i]);
        lemma_lookup_present(s.drop_last(), i, name);
    }
}

/// Uniqueness survives removing an entry.
proof fn lemma_unique_remove(s: Seq<BranchRef>, i: int)
    requires
        refs_unique(s),
        0 <= i < s.len(),
    ensures
        refs_unique(s.remove(i)),
{
    let t = s.remove(i);
    assert forall|a: int, b: int| 0 <= a < b < t.len() implies t[a]@.name != t[b]@.name by {
        let a0: int = if a < i {
            a
        } else {
            a + 1
        };
        let b0: int = if b < i {
            b
        } else {
            b + 1
        };
        assert(t[a] == s[a0]);
        assert(t[b] == s[b0]);
    }
}

/// Under uniqueness, removing the entry at `i` erases exactly its name
/// from the lookup and leaves every other name untouched.
proof fn lemma_lookup_remove(s: Seq<BranchRef>, i: int, name: Seq<char>)
    requires
        refs_unique(s),
        0 <= i < s.len(),
    ensures
        refs_lookup(s.remove(i), name) == if name == s[i]@.name {
            Option::<Seq<char>>::None
        } else {
            refs_lookup(s, name)
        },
    decreases s.len(),
{
    if i == s.len() - 1 {
        assert(s.remove(i) =~= s.drop_last());
        if name == s[i]@.name {
            assert(forall|j: int| 0 <= j < s.len() - 1 ==> s.drop_last()[j] == s[j]);
            assert(forall|j: int| 0 <= j < s.drop_last().len() ==> s.drop_last()[j]@.name != name);
            lemma_lookup_absent(s.drop_last(), name);
        }
    } else {
        let t = s.remove(i);
        assert(t[t.len() - 1] == s[s.len() - 1]);
        assert(t.last() == s.last());
        assert(t.drop_last() =~= s.drop_last().remove(i));
        assert(refs_unique(s.drop_last())) by {
            assert(forall|a: int| 0 <= a < s.len() - 1 ==> s.drop_last()[a] == s[a]);
        }
        assert(s.drop_last()[i] == s[i]);
        lemma_lookup_remove(s.drop_last(), i, name);
    }
}

/// The in-memory ref namespace: a set of uniquely named branch entries.
pub struct RefStore {
    refs: Vec<BranchRef>,
}

impl RefStore {
    /// Internal invariant: entry names never repeat.
    pub closed spec fn wf(&self) -> bool {
        refs_unique(self.refs@)
    }

    /// The sha `name` resolves to, or `None` when the ref is absent.
    pub closed spec fn lookup(&self, name: Seq<char>) -> Option<Seq<char>> {
        refs_lookup(self.refs@, name)
    }

    /// An empty namespace: every lookup misses.
    pub fn new() -> (store: RefStore)
        ensures
            store.wf(),
            forall|n: Seq<char>| store.lookup(n) is None,
    {
        let store = RefStore { refs: Vec::new() };
        proof {
            assert(forall|n: Seq<char>| refs_lookup(store.refs@, n) is None);
        }
        store
    }

    /// Index of the entry named `name`, if any.
    fn find_index(&self, name: &String) -> (found: Option<usize>)
        requires
            self.wf(),
        ensures
            match found {
                Option::None => self.lookup(name@) is None,
                Option::Some(i) => i < self.refs@.len() && self.refs@[i as int]@.name == name@
                    && self.lookup(name@) == Option::Some(self.refs@[i as int]@.target_sha),
            },
    {
        let mut i: usize = 0;
        while i < self.refs.len()
            invariant
                self.wf(),
                i <= self.refs@.len(),
                forall|j: int| 0 <= j < i ==> self.refs@[j]@.name != name@,
            decreases self.refs@.len() - i,
        {
            if self.refs[i].name == *name {
                proof {
                    lemma_lookup_present(self.refs@, i as int, name@);
                }
                return Option::Some(i);
            }
            i = i + 1;
        }
        proof {
            lemma_lookup_absent(self.refs@, name@);
        }
        Option::None
    }

    /// Read the current state of the ref named `name`. Absence is a
    /// valid state, reported as `None`, never as an error.
    pub fn current_ref(&self, name: &String) -> (current: Option<BranchRef>)
        requires
            self.wf(),
        ensures
            match self.lookup(name@) {
                Option::None => current is None,
                Option::Some(sha) => current is Some && current->0@.name == name@
                    && current->0@.target_sha == sha,
            },
    {
        match self.find_index(name) {
            Option::None => Option::None,
            Option::Some(i) => Option::Some(
                BranchRef {
                    name: self.refs[i].name.clone(),
                    target_sha: self.refs[i].target_sha.clone(),
                },
            ),
        }
    }

    /// Remove the entry named `name` if present; reports whether it was.
    fn remove_entry(&mut self, name: &String) -> (was_present: bool)
        requires
            old(self).wf(),
        ensures
            final(self).wf(),
            was_present == (old(self).lookup(name@) is Some),
            final(self).lookup(name@) is None,
            forall|n: Seq<char>| n != name@ ==> final(self).lookup(n) == old(self).lookup(n),
    {
        match self.find_index(name) {
            Option::None => {
                proof {
                    lemma_lookup_absent(self.refs@, name@);
                }
                false
            },
            Option::Some(i) => {
                proof {
                    lemma_unique_remove(self.refs@, i as int);
                    assert forall|n: Seq<char>| true implies refs_lookup(
                        self.refs@.remove(i as int),
                        n,
                    ) == if n == self.refs@[i as int]@.name {
                        Option::<Seq<char>>::None
                    } else {
                        refs_lookup(self.refs@, n)
                    } by {
                        lemma_lookup_remove(self.refs@, i as int, n);
                    }
                }
                self.refs.remove(i);
                true
            },
        }
    }

    /// Append an entry for a name known to be absent.
    fn push_entry(&mut self, name: String, sha: String)
        requires
            old(self).wf(),
            old(self).lookup(name@) is None,
        ensures
            final(self).wf(),
            final(self).lookup(name@) == Option::Some(sha@),
            forall|n: Seq<char>| n != name@ ==> final(self).lookup(n) == old(self).lookup(n),
    {
        proof {
            lemma_lookup_absent(self.refs@, name@);
        }
        let ghost before = self.refs@;
        let entry = BranchRef { name, target_sha: sha };
        self.refs.push(entry);
        proof {
            assert(self.refs@.last() == entry);
            assert(self.refs@.drop_last() =~= before);
            assert forall|a: int, b: int| 0 <= a < b < self.refs@.len() implies self.refs@[a]@.name
                != self.refs@[b]@.name by {
                if b < self.refs@.len() - 1 {
                    assert(self.refs@[a] == before[a]);
                    assert(self.refs@[b] == before[b]);
                } else {
                    assert(self.refs@[a] == before[a]);
                    assert(self.refs@[b] == entry);
                }
            }
        }
    }

    /// Apply one corrective action.
    ///
    /// `NoOp` touches nothing. `Create` adds the ref and fails with
    /// [`ApplyError::RefAlreadyExists`] — leaving the namespace
    /// untouched — exactly when the name is already taken. `Update`
    /// repoints the ref by delete-then-create. `Delete` removes the ref
    /// and succeeds even when it is already absent. No name besides the
    /// action's own target is ever affected.
    pub fn apply(&mut self, action: &ReconcileAction) -> (outcome: Result<(), ApplyError>)
        requires
            old(self).wf(),
        ensures
            final(self).wf(),
            match action@ {
                ActionModel::NoOp => outcome is Ok && final(self).lookup_same(*old(self)),
                ActionModel::Create { name, sha } => {
                    &&& (outcome is Ok <==> old(self).lookup(name) is None)
                    &&& (outcome is Ok ==> final(self).lookup(name) == Option::Some(sha)
                        && final(self).others_same(*old(self), name))
                    &&& (outcome is Err ==> outcome == Result::<(), ApplyError>::Err(
                        ApplyError::RefAlreadyExists,
                    ) && final(self).lookup_same(*old(self)))
                },
                ActionModel::Update { name, sha } => outcome is Ok && final(self).lookup(name)
                    == Option::Some(sha) && final(self).others_same(*old(self), name),
                ActionModel::Delete { name } => outcome is Ok && final(self).lookup(name) is None
                    && final(self).others_same(*old(self), name),
            },
    {
        match action {
            ReconcileAction::NoOp => Result::Ok(()),
            ReconcileAction::Create { name, sha } => {
                match self.find_index(name) {
                    Option::Some(_) => Result::Err(ApplyError::RefAlreadyExists),
                    Option::None => {
                        self.push_entry(name.clone(), sha.clone());
                        Result::Ok(())
                    },
                }
            },
            ReconcileAction::Update { name, sha } => {
                self.remove_entry(name);
                self.push_entry(name.clone(), sha.clone());
                Result::Ok(())
            },
            ReconcileAction::Delete { name } => {
                self.remove_entry(name);
                Result::Ok(())
            },
        }
    }

    /// Every name resolves as it does in `other`.
    pub open spec fn lookup_same(&self, other: RefStore) -> bool {
        forall|n: Seq<char>| self.lookup(n) == other.lookup(n)
    }

    /// Every name but `name` resolves as it does in `other`.
    pub open spec fn others_same(&self, other: RefStore, name: Seq<char>) -> bool {
        forall|n: Seq<char>| n != name ==> self.lookup(n) == other.lookup(n)
    }
}

} // verus!
