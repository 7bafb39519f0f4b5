//! Questions about a repository that the workflow asks in several places.

use vstd::prelude::*;
use crate::backend;
use crate::error::{ErrorView, GFError, GitFailure};
use crate::gitc::is_backend_error;
use crate::object::{BranchEntry, CommitId};

verus! {

/// Whether `repo_path` lies in a repository.
pub fn is_repo(repo_path: &str) -> bool {
    backend::discover_repository(repo_path).is_ok()
}

/// What a walk over the branches says of the current branch.
#[derive(Debug, Clone, PartialEq, Eq)]
pub enum HeadSearch {
    /// The current branch has this name.
    Found(String),
    /// The walk failed at the entry with this index before it came to the
    /// current branch.
    Failed(usize),
    /// No branch is the current one.
    Missing,
}

/// The name under which a branch is reported: its own, or the empty name
/// where the backend could read none.
pub open spec fn spec_reported_name(entry: BranchEntry) -> Seq<char> {
    match entry.name {
        Some(n) => n@,
        None => Seq::empty(),
    }
}

/// Whether the entry at `i` ends the search for the current branch: a
/// failure of the walk does, and so does the branch that is checked out.
pub open spec fn decides<E>(entries: Seq<Result<BranchEntry, E>>, i: int) -> bool {
    entries[i] is Err || entries[i]->Ok_0.is_head
}

/// The current branch among the branches of a walk: the first entry that is
/// checked out, unless the walk failed before it.
pub fn search_head<E>(entries: &Vec<Result<BranchEntry, E>>) -> (r: HeadSearch)
    ensures
        match r {
            HeadSearch::Found(name) => exists|i: int|
                0 <= i < entries.len() && (forall|j: int| 0 <= j < i ==> !decides(entries@, j))
                    && (#[trigger] entries[i]) is Ok && entries[i]->Ok_0.is_head && name@
                    == spec_reported_name(entries[i]->Ok_0),
            HeadSearch::Failed(i) => i < entries.len() && entries[i as int] is Err && forall|
                j: int,
            |
                0 <= j < i ==> !decides(entries@, j),
            HeadSearch::Missing => forall|j: int| 0 <= j < entries.len() ==> !decides(entries@, j),
        },
{
    let mut i: usize = 0;
    while i < entries.len()
        invariant
            i <= entries.len(),
            forall|j: int| 0 <= j < i ==> !decides(entries@, j),
        decreases entries.len() - i,
    {
        match &entries[i] {
            Err(_) => {
                return HeadSearch::Failed(i);
            },
            Ok(entry) => {
                if entry.is_head {
                    let name = match &entry.name {
                        Some(n) => n.clone(),
                        None => String::new(),
                    };
                    assert(entries[i as int] is Ok);
                    return HeadSearch::Found(name);
                }
            },
        }
        i += 1;
    }
    HeadSearch::Missing
}

/// Reads the branches of a walk into plain values, in the order of the
/// walk. The name is read of a branch that is checked out and of no other.
fn read_entries(walk: &Vec<Result<git2::Branch<'_>, git2::Error>>) -> (r: Vec<
    Result<BranchEntry, GitFailure>,
>)
    ensures
        r@.len() == walk@.len(),
        forall|i: int| 0 <= i < r@.len() && walk@[i] is Err ==> (#[trigger] r@[i]) is Err,
        forall|i: int|
            0 <= i < r@.len() && (#[trigger] r@[i]) is Ok && !r@[i]->Ok_0.is_head ==> r@[i]->Ok_0.name
                is None,
{
    let mut entries: Vec<Result<BranchEntry, GitFailure>> = Vec::new();
    let mut i: usize = 0;
    while i < walk.len()
        invariant
            i <= walk.len(),
            entries@.len() == i,
            forall|k: int| 0 <= k < i && walk@[k] is Err ==> (#[trigger] entries@[k]) is Err,
            forall|k: int|
                0 <= k < i && (#[trigger] entries@[k]) is Ok && !entries@[k]->Ok_0.is_head
                    ==> entries@[k]->Ok_0.name is None,
        decreases walk.len() - i,
    {
        let entry = match &walk[i] {
            Err(e) => Err(backend::read_failure(e)),
            Ok(branch) => {
                if backend::branch_is_head(branch) {
                    match backend::branch_name(branch) {
                        Ok(name) => Ok(BranchEntry { name, is_head: true }),
                        Err(e) => Err(backend::read_failure(&e)),
                    }
                } else {
                    Ok(BranchEntry { name: None, is_head: false })
                }
            },
        };
        entries.push(entry);
        i += 1;
    }
    entries
}

/// The name of the current branch: that of the first branch of the walk
/// that is checked out, unless the walk fails before it.
pub fn get_branch_name(repo: &git2::Repository) -> (r: Result<String, GFError>)
    ensures
        r is Err ==> r->Err_0@ is NoHead || is_backend_error(r->Err_0@),
{
    let walk = match backend::list_branches(repo) {
        Ok(walk) => walk,
        Err(e) => {
            return Err(GFError::backend(backend::read_failure(&e)));
        },
    };
    let entries = read_entries(&walk);
    match search_head(&entries) {
        HeadSearch::Found(name) => Ok(name),
        HeadSearch::Failed(i) => match &entries[i] {
            Err(failure) => Err(GFError::backend(failure.clone())),
            Ok(_) => Err(GFError::NoHead),
        },
        HeadSearch::Missing => Err(GFError::NoHead),
    }
}

/// What the target of the current reference comes to: the commit that it
/// names, and no head where it names none.
pub fn require_head(target: Option<CommitId>) -> (r: Result<CommitId, GFError>)
    ensures
        match target {
            Some(id) => r == Ok::<CommitId, GFError>(id),
            None => r matches Err(e) && e@ == ErrorView::NoHead,
        },
{
    match target {
        Some(id) => Ok(id),
        None => Err(GFError::NoHead),
    }
}

/// The commit that the current branch points at. There is no head where the
/// current branch has no commit yet.
pub fn get_head(repo: &git2::Repository) -> (r: Result<CommitId, GFError>)
    ensures
        r is Err ==> r->Err_0@ is NoHead || is_backend_error(r->Err_0@),
{
    match backend::head_target(repo) {
        Ok(target) => require_head(target),
        Err(e) => Err(GFError::reading_head(backend::read_failure(&e))),
    }
}

} // verus!
