//! A repository and the operations that the workflow performs on it.

use vstd::prelude::*;
use vstd::std_specs::convert::FromSpecImpl;
use crate::backend;
use crate::error::{ErrorView, GFError, GitCode};
use crate::merge::{
    commit_parents, conflict_paths, forward_action, merge_parents, ForwardAction, MergeAnalysis,
    MergeOutcome, MergeStrategy,
};
use crate::names::{fast_forward_message, heads_ref, pull_message};
use crate::object::{CommitId, Identity};
use crate::utils::get_head;

verus! {

/// Whether a failure is one that the backend reports for itself: one of its
/// storage, or any other of its own.
pub open spec fn is_backend_error(e: ErrorView) -> bool {
    e is Git || e is Io
}

/// Turns a failure of the backend into the failure that stands for it where
/// the operation at hand gives it no meaning of its own.
pub(crate) fn lift<T>(r: Result<T, git2::Error>) -> (out: Result<T, GFError>)
    ensures
        r is Ok <==> out is Ok,
        r is Ok ==> out->Ok_0 == r->Ok_0,
        out is Err ==> is_backend_error(out->Err_0@),
{
    match r {
        Ok(v) => Ok(v),
        Err(e) => Err(GFError::backend(backend::read_failure(&e))),
    }
}

/// What a lookup of the working directory comes to: the directory found,
/// and a failure that says the repository is bare where none was.
pub fn require_workdir(found: Option<String>) -> (r: Result<String, GFError>)
    ensures
        match found {
            Some(dir) => r == Ok::<String, GFError>(dir),
            None => r matches Err(e) && e@ == ErrorView::Generic("the repository is bare"@),
        },
{
    match found {
        Some(dir) => Ok(dir),
        None => Err(GFError::Generic(String::from_str("the repository is bare"))),
    }
}

/// An open repository.
pub struct GitcRepo(pub git2::Repository);

impl From<git2::Repository> for GitcRepo {
    fn from(repo: git2::Repository) -> (r: Self) {
        GitcRepo(repo)
    }
}

impl FromSpecImpl<git2::Repository> for GitcRepo {
    open spec fn obeys_from_spec() -> bool {
        true
    }

    open spec fn from_spec(repo: git2::Repository) -> Self {
        GitcRepo(repo)
    }
}

impl From<GitcRepo> for git2::Repository {
    fn from(repo: GitcRepo) -> (r: Self) {
        repo.0
    }
}

impl FromSpecImpl<GitcRepo> for git2::Repository {
    open spec fn obeys_from_spec() -> bool {
        true
    }

    open spec fn from_spec(repo: GitcRepo) -> Self {
        repo.0
    }
}

impl GitcRepo {
    /// Opens the repository at `path`.
    pub fn open(path: &str) -> (r: Result<GitcRepo, GFError>)
        ensures
            r is Err ==> is_backend_error(r->Err_0@),
    {
        let repo = lift(backend::open_repository(path))?;
        Ok(GitcRepo(repo))
    }

    /// Creates a repository at `path`, with the directories that lead to it.
    pub fn create(path: &str) -> (r: Result<GitcRepo, GFError>)
        ensures
            r is Err ==> is_backend_error(r->Err_0@),
    {
        let repo = lift(backend::init_repository(path))?;
        Ok(GitcRepo(repo))
    }

    /// Opens the repository at `path`, or creates one there where none can
    /// be opened.
    pub fn new(path: &str) -> (r: Result<GitcRepo, GFError>)
        ensures
            r is Err ==> is_backend_error(r->Err_0@),
    {
        match GitcRepo::open(path) {
            Ok(repo) => Ok(repo),
            Err(_) => GitcRepo::create(path),
        }
    }

    /// Gives a repository without commits its first commit, one of the
    /// index as it stands and without parents, and returns its id. A
    /// repository that has commits is left as it is, and nothing is
    /// returned.
    pub fn init(&self) -> (r: Result<Option<CommitId>, GFError>)
        ensures
            r is Err ==> is_backend_error(r->Err_0@),
    {
        let empty = lift(backend::repository_is_empty(&self.0))?;
        self.bootstrap(empty)
    }

    /// Makes the first commit of the repository where `empty` says that it
    /// has none: a commit of the index as it stands, without parents, whose
    /// id is returned. Where `empty` says otherwise nothing is done and
    /// nothing is returned.
    pub fn bootstrap(&self, empty: bool) -> (r: Result<Option<CommitId>, GFError>)
        ensures
            !empty ==> r matches Ok(None),
            empty ==> r matches Ok(Some(_)) || r is Err,
            r is Err ==> is_backend_error(r->Err_0@),
    {
        if !empty {
            return Ok(None);
        }
        let who = lift(backend::default_identity(&self.0))?;
        let tree = lift(backend::write_index_tree(&self.0))?;
        let parents = commit_parents(None);
        let id = lift(backend::create_commit(&self.0, "HEAD", &who, "Initial commit", &tree, &parents))?;
        Ok(Some(id))
    }

    /// Creates the branch `branch` at the commit that the current branch
    /// points at. A branch of that name that is there already is never
    /// replaced.
    pub fn branch(&self, branch: &str) -> (r: Result<(), GFError>)
        ensures
            r is Err ==> r->Err_0@ is NoHead || r->Err_0@ == ErrorView::BranchExists(branch@)
                || is_backend_error(r->Err_0@),
    {
        let head = get_head(&self.0)?;
        match backend::create_branch(&self.0, branch, &head, false) {
            Ok(()) => Ok(()),
            Err(e) => Err(GFError::creating_branch(branch, backend::read_failure(&e))),
        }
    }

    /// Stores `value` under `name` in the repository's configuration.
    pub fn config(&self, name: &str, value: &str) -> (r: Result<(), GFError>)
        ensures
            r is Err ==> is_backend_error(r->Err_0@),
    {
        lift(backend::config_set(&self.0, name, value))
    }

    /// Reads the value stored under `name` from the repository's
    /// configuration. Every call asks the backend anew.
    pub fn get_config(&self, name: &str) -> (r: Result<String, GFError>)
        ensures
            r is Err ==> r->Err_0@ == ErrorView::ConfigMissing(name@) || is_backend_error(
                r->Err_0@,
            ),
    {
        match backend::config_get(&self.0, name) {
            Ok(value) => Ok(value),
            Err(e) => Err(GFError::reading_config(name, backend::read_failure(&e))),
        }
    }

    /// The working directory of the repository. A bare repository has none.
    pub fn get_workdir(&self) -> (r: Result<String, GFError>)
        ensures
            r is Err ==> r->Err_0@ == ErrorView::Generic("the repository is bare"@),
    {
        require_workdir(backend::repository_workdir(&self.0))
    }

    /// The identity under which commits and tags are signed: the one that
    /// the configuration gives, and where it gives no name, the name
    /// `unknown` with the configured address.
    pub fn signature_allow_undefined_name(&self) -> (r: Result<Identity, GFError>)
        ensures
            r is Err ==> r->Err_0@ == ErrorView::ConfigMissing("user.email"@) || is_backend_error(
                r->Err_0@,
            ),
    {
        match backend::default_identity(&self.0) {
            Ok(who) => Ok(who),
            Err(e) => {
                let failure = backend::read_failure(&e);
                if failure.code == GitCode::NotFound {
                    let name = backend::config_get(&self.0, "user.name").ok();
                    let email = self.get_config("user.email")?;
                    Ok(Identity::or_unknown(name, email))
                } else {
                    Err(GFError::backend(failure))
                }
            },
        }
    }

    /// Commits the index as it stands on the current branch, with the
    /// current head as the only parent, or without parents where there is
    /// no head yet. Returns the id of the new commit.
    pub fn commit(&self, msg: &str) -> (r: Result<CommitId, GFError>)
        ensures
            r is Err ==> r->Err_0@ == ErrorView::ConfigMissing("user.email"@) || is_backend_error(
                r->Err_0@,
            ),
    {
        let who = self.signature_allow_undefined_name()?;
        let tree = lift(backend::write_index_tree(&self.0))?;
        let parents = commit_parents(get_head(&self.0).ok());
        lift(backend::create_commit(&self.0, "HEAD", &who, msg, &tree, &parents))
    }

    /// Tags the commit `oid` as `tag`. A tag of that name that is there
    /// already is never replaced.
    pub fn tag(&self, oid: &CommitId, tag: &str) -> (r: Result<(), GFError>)
        ensures
            r is Err ==> r->Err_0@ == ErrorView::ConfigMissing("user.email"@) || is_backend_error(
                r->Err_0@,
            ),
    {
        let who = self.signature_allow_undefined_name()?;
        lift(backend::create_tag(&self.0, tag, oid, &who, "", false))
    }

    /// Deletes the local branch `branch`.
    pub fn delete_branch(&self, branch: &str) -> (r: Result<(), GFError>)
        ensures
            r is Err ==> r->Err_0@ == ErrorView::BranchNotFound(branch@) || is_backend_error(
                r->Err_0@,
            ),
    {
        match backend::delete_local_branch(&self.0, branch) {
            Ok(()) => Ok(()),
            Err(e) => Err(GFError::finding_branch(branch, backend::read_failure(&e))),
        }
    }

    /// Makes `branch` the current branch, then checks its tip out in the
    /// safe way: nothing in the working tree is overwritten, and what the
    /// branch left behind stays in the index and in the working tree.
    pub fn checkout(&self, branch: &str) -> (r: Result<(), GFError>)
        ensures
            r is Err ==> is_backend_error(r->Err_0@),
    {
        let refname = heads_ref(branch);
        lift(backend::set_head(&self.0, refname.as_str()))?;
        lift(backend::checkout_head(&self.0))?;
        Ok(())
    }

    /// The commit at the tip of the local branch `branch`.
    pub fn branch_tip(&self, branch: &str) -> (r: Result<CommitId, GFError>)
        ensures
            r is Err ==> r->Err_0@ == ErrorView::BranchNotFound(branch@) || is_backend_error(
                r->Err_0@,
            ),
    {
        let refname = heads_ref(branch);
        match backend::resolve_reference(&self.0, refname.as_str()) {
            Ok(id) => Ok(id),
            Err(e) => Err(GFError::finding_branch(branch, backend::read_failure(&e))),
        }
    }

    /// Merges the trees of `ours`, the tip of the current branch, and
    /// `theirs` over the tree of their nearest common ancestor.
    ///
    /// Where the merged index holds conflicts it is written out to the
    /// working tree, so that the conflicts can be seen there, and no commit
    /// is made. Where it holds none, a commit is made on the current branch
    /// with the parents `ours` and `theirs`, in this order, and the message
    /// `msg`; the index and the working tree stay as they were.
    pub fn normal_merge(&self, ours: &CommitId, theirs: &CommitId, msg: &str) -> (r: Result<
        MergeOutcome,
        GFError,
    >)
        ensures
            r is Ok ==> r->Ok_0.fits(MergeStrategy::Normal),
            r is Err ==> is_backend_error(r->Err_0@),
    {
        let ancestor = lift(backend::merge_base(&self.0, ours, theirs))?;
        let index = lift(backend::merge_commit_trees(&self.0, &ancestor, ours, theirs))?;
        let conflicted = backend::index_has_conflicts(&index);
        self.conclude_merge(index, conflicted, ours, theirs, msg)
    }

    /// Ends a merge of trees that came to `index`.
    ///
    /// Where `conflicted` says that the index holds conflicts, the index is
    /// written out to the working tree and the paths in conflict are
    /// reported; no commit is made. Where it says that the index holds none,
    /// the index is committed on the current branch with the parents `ours`
    /// and `theirs`, in this order, and the message `msg`.
    pub fn conclude_merge(
        &self,
        index: git2::Index,
        conflicted: bool,
        ours: &CommitId,
        theirs: &CommitId,
        msg: &str,
    ) -> (r: Result<MergeOutcome, GFError>)
        ensures
            r matches Ok(outcome) ==> (outcome is Conflict <==> conflicted) && (outcome is Merged
                <==> !conflicted),
            r is Err ==> is_backend_error(r->Err_0@),
    {
        let mut index = index;
        if conflicted {
            let entries = lift(backend::index_conflicts(&index))?;
            lift(backend::checkout_index(&self.0, &mut index))?;
            return Ok(MergeOutcome::Conflict(conflict_paths(&entries)));
        }
        let tree = lift(backend::write_tree_to(&mut index, &self.0))?;
        let who = lift(backend::default_identity(&self.0))?;
        let parents = merge_parents(ours, theirs);
        let id = lift(backend::create_commit(&self.0, "HEAD", &who, msg, &tree, &parents))?;
        Ok(MergeOutcome::Merged(id))
    }

    /// Moves the reference `refname` to `commit`, makes it the current
    /// reference and forces the working tree to it. No commit is made.
    pub fn fast_forward_merge(&self, refname: &str, commit: &CommitId) -> (r: Result<(), GFError>)
        ensures
            r is Err ==> is_backend_error(r->Err_0@),
    {
        let log = fast_forward_message(refname, commit.as_str());
        lift(backend::set_reference_target(&self.0, refname, commit, log.as_str()))?;
        lift(backend::set_head(&self.0, refname))?;
        lift(backend::checkout_head_forced(&self.0, false, false))?;
        Ok(())
    }

    /// Creates the reference `refname` at `commit`, in place of whatever
    /// holds that name, with `log` in its log; makes it the current
    /// reference and forces the working tree to it, writing conflicts out in
    /// merge style. No commit is made.
    pub fn publish(&self, refname: &str, commit: &CommitId, log: &str) -> (r: Result<(), GFError>)
        ensures
            r is Err ==> is_backend_error(r->Err_0@),
    {
        lift(backend::create_reference(&self.0, refname, commit, true, log))?;
        lift(backend::set_head(&self.0, refname))?;
        lift(backend::checkout_head_forced(&self.0, true, true))?;
        Ok(())
    }

    /// Brings the current branch forward to `commit` in the way that
    /// `action` names, and reports the branch as moved to `commit`.
    pub fn forward(&self, action: &ForwardAction, commit: &CommitId) -> (r: Result<
        MergeOutcome,
        GFError,
    >)
        ensures
            r matches Ok(outcome) ==> outcome matches MergeOutcome::FastForwarded(tip) && tip@
                == commit@,
            r is Err ==> is_backend_error(r->Err_0@),
    {
        match action {
            ForwardAction::Move { refname } => {
                self.fast_forward_merge(refname.as_str(), commit)?;
            },
            ForwardAction::Create { refname, log } => {
                self.publish(refname.as_str(), commit, log.as_str())?;
            },
        }
        Ok(MergeOutcome::FastForwarded(commit.copy()))
    }

    /// Brings `commit` into `branch`, which is the current branch, in the
    /// way that `strategy` names.
    ///
    /// Moving forward sets the branch to `commit` and checks it out; where
    /// the branch is not there yet it is created at `commit`. A merge of
    /// trees takes the tip of the current branch as the first parent.
    /// Nothing is done where the strategy is to do nothing.
    pub fn apply_strategy(
        &self,
        strategy: MergeStrategy,
        branch: &str,
        commit: &CommitId,
        msg: &str,
    ) -> (r: Result<MergeOutcome, GFError>)
        ensures
            r is Ok ==> r->Ok_0.fits(strategy),
            r matches Ok(MergeOutcome::FastForwarded(tip)) ==> tip@ == commit@,
            strategy == MergeStrategy::Nothing ==> r is Ok,
            r is Err ==> r->Err_0@ is NoHead || is_backend_error(r->Err_0@),
    {
        match strategy {
            MergeStrategy::FastForward => {
                let refname = heads_ref(branch);
                let found = backend::find_reference_name(&self.0, refname.as_str()).ok();
                let action = forward_action(found, branch, commit);
                self.forward(&action, commit)
            },
            MergeStrategy::Normal => {
                let ours = get_head(&self.0)?;
                self.normal_merge(&ours, commit, msg)
            },
            MergeStrategy::Nothing => Ok(MergeOutcome::NoOp),
        }
    }

    /// Brings `commit` into `branch`, which is the current branch.
    ///
    /// The backend compares `commit` with the tip of the current branch, and
    /// the strategy follows from what it finds: the branch is moved forward
    /// wherever that is possible, trees are merged where it is not and both
    /// sides have diverged, and nothing is done otherwise.
    pub fn merge(&self, branch: &str, commit: &CommitId, msg: &str) -> (r: Result<
        MergeOutcome,
        GFError,
    >)
        ensures
            r matches Ok(MergeOutcome::FastForwarded(tip)) ==> tip@ == commit@,
            r is Err ==> r->Err_0@ is NoHead || is_backend_error(r->Err_0@),
    {
        let analysis = self.merge_analysis(commit)?;
        self.apply_strategy(analysis.strategy(), branch, commit, msg)
    }

    /// What the backend finds when it compares `commit` with the tip of the
    /// current branch.
    pub fn merge_analysis(&self, commit: &CommitId) -> (r: Result<MergeAnalysis, GFError>)
        ensures
            r is Err ==> is_backend_error(r->Err_0@),
    {
        lift(backend::merge_analysis(&self.0, commit))
    }

    /// Brings what was last fetched from `remote_name` into `branch`, which
    /// is the current branch.
    pub fn merge_fetched(&self, remote_name: &str, branch: &str) -> (r: Result<
        MergeOutcome,
        GFError,
    >)
        ensures
            r is Err ==> r->Err_0@ is NoHead || is_backend_error(r->Err_0@),
    {
        let fetched = lift(backend::resolve_reference(&self.0, "FETCH_HEAD"))?;
        let msg = pull_message(branch, remote_name);
        self.merge(branch, &fetched, msg.as_str())
    }

    /// Rebases the commits of the branch `branch_from` that `branch_to` does
    /// not have onto `branch_to`, committing each as the author of the
    /// current head, and returns how many commits were rebased.
    pub fn rebase(&self, branch_from: &str, branch_to: &str) -> (r: Result<usize, GFError>)
        ensures
            r is Err ==> r->Err_0@ is NoHead || is_backend_error(r->Err_0@),
    {
        let head = get_head(&self.0)?;
        let from = heads_ref(branch_from);
        let to = heads_ref(branch_to);
        let mut rebase = lift(backend::begin_rebase(&self.0, from.as_str(), to.as_str()))?;
        let planned = backend::rebase_len(&rebase);
        let done = self.replay(&mut rebase, planned, &head)?;
        lift(backend::rebase_finish(&mut rebase))?;
        Ok(done)
    }

    /// Applies the operations of a rebase under way, one after the other,
    /// and commits each as the author of the commit `signer`. It stops when
    /// the rebase has no more operations, and after `planned` operations at
    /// the latest, and returns how many it applied.
    pub fn replay(&self, rebase: &mut git2::Rebase<'_>, planned: usize, signer: &CommitId) -> (r:
        Result<usize, GFError>)
        ensures
            r matches Ok(done) ==> done <= planned,
            planned == 0 ==> (r matches Ok(done) && done == 0),
            r is Err ==> is_backend_error(r->Err_0@),
    {
        let mut done: usize = 0;
        while done < planned
            invariant
                done <= planned,
            decreases planned - done,
        {
            match backend::rebase_next(rebase) {
                None => {
                    break;
                },
                Some(step) => {
                    lift(step)?;
                    lift(backend::rebase_commit(rebase, &self.0, signer))?;
                },
            }
            done += 1;
        }
        Ok(done)
    }
}

} // verus!
