//! The calls into `git2`. Nothing here is proved: each function hands its
//! arguments to the backend and turns what comes back into plain values.
//! What a call finds depends on the repository on disk, so no function here
//! promises anything of its result.

use vstd::prelude::*;
use crate::error::{GitClass, GitCode, GitFailure};
use crate::merge::{ConflictEntry, MergeAnalysis};
use crate::object::{CommitId, Identity, TreeId};

verus! {

/// `git2::Repository`: an open repository. Its state lives on disk.
#[verifier::external_type_specification]
#[verifier::external_body]
pub struct ExRepository(git2::Repository);

/// `git2::Error`: a failure of the backend.
#[verifier::external_type_specification]
#[verifier::external_body]
pub struct ExGitError(git2::Error);

/// `git2::Index`: an index held in memory, here the result of merging trees.
#[verifier::external_type_specification]
#[verifier::external_body]
pub struct ExIndex(git2::Index);

/// `git2::Branch`: a branch of an open repository.
#[verifier::external_type_specification]
#[verifier::external_body]
pub struct ExBranch<'repo>(git2::Branch<'repo>);

/// `git2::Rebase`: a rebase that is under way.
#[verifier::external_type_specification]
#[verifier::external_body]
pub struct ExRebase<'repo>(git2::Rebase<'repo>);

/// `git2::RebaseOperation`: one step of a rebase, which the type of a rebase
/// under way names.
#[verifier::external_type_specification]
#[verifier::external_body]
pub struct ExRebaseOperation<'rebase>(git2::RebaseOperation<'rebase>);

/// Reads `git2::Error::code`, `class` and its display text into a
/// [`GitFailure`]. Nothing is claimed of the values read.
#[verifier::external_body]
pub(crate) fn read_failure(e: &git2::Error) -> GitFailure {
    let code = match e.code() {
        git2::ErrorCode::NotFound => GitCode::NotFound,
        git2::ErrorCode::Exists => GitCode::Exists,
        git2::ErrorCode::UnbornBranch => GitCode::UnbornBranch,
        _ => GitCode::Other,
    };
    let class = match e.class() {
        git2::ErrorClass::Os => GitClass::Os,
        _ => GitClass::Other,
    };
    GitFailure { code, class, message: e.to_string() }
}

/// `git2::Repository::open`: opens the repository at `path`. Nothing is
/// claimed of the result.
#[verifier::external_body]
pub(crate) fn open_repository(path: &str) -> Result<git2::Repository, git2::Error> {
    git2::Repository::open(path)
}

/// `git2::Repository::open_ext` without flags or ceiling directories: opens
/// the repository that holds `path`, searching upwards. Nothing is claimed of
/// the result.
#[verifier::external_body]
pub(crate) fn discover_repository(path: &str) -> Result<git2::Repository, git2::Error> {
    git2::Repository::open_ext(path, git2::RepositoryOpenFlags::empty(), Vec::<&str>::new())
}

/// `git2::Repository::init`: creates a repository at `path`. Nothing is
/// claimed of the result.
#[verifier::external_body]
pub(crate) fn init_repository(path: &str) -> Result<git2::Repository, git2::Error> {
    git2::Repository::init(path)
}

/// `git2::Repository::is_empty`: whether the repository has no commit on its
/// initial branch. Nothing is claimed of the result.
#[verifier::external_body]
pub(crate) fn repository_is_empty(repo: &git2::Repository) -> Result<bool, git2::Error> {
    repo.is_empty()
}

/// `git2::Repository::workdir`, as text: the working directory, none for a
/// bare repository. Nothing is claimed of the result.
#[verifier::external_body]
pub(crate) fn repository_workdir(repo: &git2::Repository) -> Option<String> {
    repo.workdir().map(|p| p.to_string_lossy().into_owned())
}

/// `git2::Repository::head` and the target of the reference it returns: the
/// commit that the current branch points at. Nothing is claimed of the
/// result.
#[verifier::external_body]
pub(crate) fn head_target(repo: &git2::Repository) -> Result<Option<CommitId>, git2::Error> {
    let head = repo.head()?;
    Ok(head.target().map(|oid| CommitId { hex: oid.to_string() }))
}

/// `git2::Repository::set_head`: makes `refname` the current reference.
/// Nothing is claimed of the result.
#[verifier::external_body]
pub(crate) fn set_head(repo: &git2::Repository, refname: &str) -> Result<(), git2::Error> {
    repo.set_head(refname)
}

/// `git2::Repository::checkout_head` with the default, safe options.
/// Nothing is claimed of the result.
#[verifier::external_body]
pub(crate) fn checkout_head(repo: &git2::Repository) -> Result<(), git2::Error> {
    repo.checkout_head(None)
}

/// `git2::Repository::checkout_head` with a forced checkout, which goes on
/// over conflicts where `allow_conflicts` is set and writes them out in merge
/// style where `merge_style` is. Nothing is claimed of the result.
#[verifier::external_body]
pub(crate) fn checkout_head_forced(
    repo: &git2::Repository,
    allow_conflicts: bool,
    merge_style: bool,
) -> Result<(), git2::Error> {
    let mut options = git2::build::CheckoutBuilder::new();
    options.allow_conflicts(allow_conflicts).conflict_style_merge(merge_style).force();
    repo.checkout_head(Some(&mut options))
}

/// `git2::Repository::branch`: creates the branch `name` at the commit
/// `target`; where the name is taken it replaces the branch if `force` is
/// set and fails if not. Nothing is claimed of the result.
#[verifier::external_body]
pub(crate) fn create_branch(
    repo: &git2::Repository,
    name: &str,
    target: &CommitId,
    force: bool,
) -> Result<(), git2::Error> {
    let commit = repo.find_commit(git2::Oid::from_str(target.hex.as_str())?)?;
    repo.branch(name, &commit, force).map(|_| ())
}

/// `git2::Branch::delete` on the local branch that
/// `git2::Repository::find_branch` finds under `name`. Nothing is claimed of
/// the result.
#[verifier::external_body]
pub(crate) fn delete_local_branch(repo: &git2::Repository, name: &str) -> Result<(), git2::Error> {
    repo.find_branch(name, git2::BranchType::Local)?.delete()
}

/// `git2::Repository::branches` without a filter: every branch in the
/// order of the walk, or the failure that the walk had at it. Nothing is
/// claimed of the result.
#[verifier::external_body]
pub(crate) fn list_branches<'repo>(repo: &'repo git2::Repository) -> Result<
    Vec<Result<git2::Branch<'repo>, git2::Error>>,
    git2::Error,
> {
    let walk = repo.branches(None)?;
    Ok(walk.map(|item| item.map(|(branch, _)| branch)).collect())
}

/// `git2::Branch::is_head`: whether the branch is the one checked out.
/// Nothing is claimed of the result.
#[verifier::external_body]
pub(crate) fn branch_is_head(branch: &git2::Branch<'_>) -> bool {
    branch.is_head()
}

/// `git2::Branch::name`: the name of the branch, none where it is not valid
/// text. Nothing is claimed of the result.
#[verifier::external_body]
pub(crate) fn branch_name(branch: &git2::Branch<'_>) -> Result<Option<String>, git2::Error> {
    branch.name().map(|name| name.map(String::from))
}

/// `git2::Config::set_str` on the repository's configuration: stores `value`
/// under `key`. Nothing is claimed of the result.
#[verifier::external_body]
pub(crate) fn config_set(repo: &git2::Repository, key: &str, value: &str) -> Result<
    (),
    git2::Error,
> {
    repo.config()?.set_str(key, value)
}

/// `git2::Config::get_string` on the repository's configuration: the value
/// stored under `key`. Nothing is claimed of the result.
#[verifier::external_body]
pub(crate) fn config_get(repo: &git2::Repository, key: &str) -> Result<String, git2::Error> {
    repo.config()?.get_string(key)
}

/// `git2::Repository::signature`: the name and address that the
/// configuration gives for the user. Nothing is claimed of the result.
#[verifier::external_body]
pub(crate) fn default_identity(repo: &git2::Repository) -> Result<Identity, git2::Error> {
    let signature = repo.signature()?;
    Ok(Identity {
        name: String::from_utf8_lossy(signature.name_bytes()).into_owned(),
        email: String::from_utf8_lossy(signature.email_bytes()).into_owned(),
    })
}

/// `git2::Index::write_tree` on the repository's index: writes the index out
/// as a tree. Nothing is claimed of the result.
#[verifier::external_body]
pub(crate) fn write_index_tree(repo: &git2::Repository) -> Result<TreeId, git2::Error> {
    let oid = repo.index()?.write_tree()?;
    Ok(TreeId { hex: oid.to_string() })
}

/// `git2::Repository::commit`: makes a commit of `tree` with the given
/// parents, in their order, signed by `who` at the present time, and moves
/// the reference `update` to it. Nothing is claimed of the result.
#[verifier::external_body]
pub(crate) fn create_commit(
    repo: &git2::Repository,
    update: &str,
    who: &Identity,
    message: &str,
    tree: &TreeId,
    parents: &Vec<CommitId>,
) -> Result<CommitId, git2::Error> {
    let signature = git2::Signature::now(who.name.as_str(), who.email.as_str())?;
    let tree = repo.find_tree(git2::Oid::from_str(tree.hex.as_str())?)?;
    let mut found = Vec::new();
    for parent in parents.iter() {
        found.push(repo.find_commit(git2::Oid::from_str(parent.hex.as_str())?)?);
    }
    let parents: Vec<&git2::Commit> = found.iter().collect();
    let oid = repo.commit(Some(update), &signature, &signature, message, &tree, &parents)?;
    Ok(CommitId { hex: oid.to_string() })
}

/// `git2::Repository::tag`: tags the commit `target` as `name` with the
/// message `message`, signed by `who` at the present time; where the name is
/// taken it replaces the tag if `force` is set and fails if not. Nothing is
/// claimed of the result.
#[verifier::external_body]
pub(crate) fn create_tag(
    repo: &git2::Repository,
    name: &str,
    target: &CommitId,
    who: &Identity,
    message: &str,
    force: bool,
) -> Result<(), git2::Error> {
    let signature = git2::Signature::now(who.name.as_str(), who.email.as_str())?;
    let oid = git2::Oid::from_str(target.hex.as_str())?;
    let object = repo.find_object(oid, Some(git2::ObjectType::Commit))?;
    repo.tag(name, &object, &signature, message, force).map(|_| ())
}

/// `git2::Repository::merge_analysis` of the commit `source` against the
/// current head, read into its four flags. Nothing is claimed of the result.
#[verifier::external_body]
pub(crate) fn merge_analysis(repo: &git2::Repository, source: &CommitId) -> Result<
    MergeAnalysis,
    git2::Error,
> {
    let theirs = repo.find_annotated_commit(git2::Oid::from_str(source.hex.as_str())?)?;
    let (found, _) = repo.merge_analysis(&[&theirs])?;
    Ok(MergeAnalysis {
        fast_forward: found.is_fast_forward(),
        normal: found.is_normal(),
        up_to_date: found.is_up_to_date(),
        unborn: found.is_unborn(),
    })
}

/// `git2::Repository::find_reference`: the full name of the reference found
/// under `refname`. Nothing is claimed of the result.
#[verifier::external_body]
pub(crate) fn find_reference_name(repo: &git2::Repository, refname: &str) -> Result<
    String,
    git2::Error,
> {
    let reference = repo.find_reference(refname)?;
    Ok(String::from_utf8_lossy(reference.name_bytes()).into_owned())
}

/// `git2::Repository::reference_to_annotated_commit` on the reference that
/// `find_reference` finds under `refname`: the commit that the reference
/// leads to. Nothing is claimed of the result.
#[verifier::external_body]
pub(crate) fn resolve_reference(repo: &git2::Repository, refname: &str) -> Result<
    CommitId,
    git2::Error,
> {
    let reference = repo.find_reference(refname)?;
    let commit = repo.reference_to_annotated_commit(&reference)?;
    Ok(CommitId { hex: commit.id().to_string() })
}

/// `git2::Reference::set_target` on the reference that `find_reference`
/// finds under `refname`: points it at `target`, with `log` as the reflog
/// message. Nothing is claimed of the result.
#[verifier::external_body]
pub(crate) fn set_reference_target(
    repo: &git2::Repository,
    refname: &str,
    target: &CommitId,
    log: &str,
) -> Result<(), git2::Error> {
    let mut reference = repo.find_reference(refname)?;
    reference.set_target(git2::Oid::from_str(target.hex.as_str())?, log).map(|_| ())
}

/// `git2::Repository::reference`: creates the direct reference `refname`
/// at `target`, with `log` as the reflog message; where the name is taken it
/// replaces the reference if `force` is set and fails if not. Nothing is
/// claimed of the result.
#[verifier::external_body]
pub(crate) fn create_reference(
    repo: &git2::Repository,
    refname: &str,
    target: &CommitId,
    force: bool,
    log: &str,
) -> Result<(), git2::Error> {
    let oid = git2::Oid::from_str(target.hex.as_str())?;
    repo.reference(refname, oid, force, log).map(|_| ())
}

/// `git2::Repository::merge_base`: the nearest common ancestor of two
/// commits. Nothing is claimed of the result.
#[verifier::external_body]
pub(crate) fn merge_base(repo: &git2::Repository, one: &CommitId, two: &CommitId) -> Result<
    CommitId,
    git2::Error,
> {
    let one = git2::Oid::from_str(one.hex.as_str())?;
    let two = git2::Oid::from_str(two.hex.as_str())?;
    Ok(CommitId { hex: repo.merge_base(one, two)?.to_string() })
}

/// `git2::Repository::merge_trees` with the default options, on the trees of
/// the three commits named. Nothing is claimed of the result.
#[verifier::external_body]
pub(crate) fn merge_commit_trees(
    repo: &git2::Repository,
    ancestor: &CommitId,
    ours: &CommitId,
    theirs: &CommitId,
) -> Result<git2::Index, git2::Error> {
    let ancestor = repo.find_commit(git2::Oid::from_str(ancestor.hex.as_str())?)?.tree()?;
    let ours = repo.find_commit(git2::Oid::from_str(ours.hex.as_str())?)?.tree()?;
    let theirs = repo.find_commit(git2::Oid::from_str(theirs.hex.as_str())?)?.tree()?;
    repo.merge_trees(&ancestor, &ours, &theirs, None)
}

/// `git2::Index::has_conflicts`. Nothing is claimed of the result.
#[verifier::external_body]
pub(crate) fn index_has_conflicts(index: &git2::Index) -> bool {
    index.has_conflicts()
}

/// `git2::Index::conflicts`: the entries in conflict, each with the path
/// that each of the three sides has for it. Nothing is claimed of the
/// result.
#[verifier::external_body]
pub(crate) fn index_conflicts(index: &git2::Index) -> Result<Vec<ConflictEntry>, git2::Error> {
    let mut entries = Vec::new();
    for conflict in index.conflicts()? {
        let conflict = conflict?;
        entries.push(ConflictEntry {
            ancestor: conflict.ancestor.map(|e| String::from_utf8_lossy(&e.path).into_owned()),
            ours: conflict.our.map(|e| String::from_utf8_lossy(&e.path).into_owned()),
            theirs: conflict.their.map(|e| String::from_utf8_lossy(&e.path).into_owned()),
        });
    }
    Ok(entries)
}

/// `git2::Repository::checkout_index` with the default options: writes the
/// index out to the working tree. Nothing is claimed of the result.
#[verifier::external_body]
pub(crate) fn checkout_index(repo: &git2::Repository, index: &mut git2::Index) -> Result<
    (),
    git2::Error,
> {
    repo.checkout_index(Some(index), None)
}

/// `git2::Index::write_tree_to`: writes the index out as a tree of the
/// repository. Nothing is claimed of the result.
#[verifier::external_body]
pub(crate) fn write_tree_to(index: &mut git2::Index, repo: &git2::Repository) -> Result<
    TreeId,
    git2::Error,
> {
    Ok(TreeId { hex: index.write_tree_to(repo)?.to_string() })
}

/// `git2::Repository::rebase` with the default options: begins to rebase the
/// commits of the reference `branch` that `upstream` does not have onto
/// `upstream`. Nothing is claimed of the result.
#[verifier::external_body]
pub(crate) fn begin_rebase<'repo>(
    repo: &'repo git2::Repository,
    branch: &str,
    upstream: &str,
) -> Result<git2::Rebase<'repo>, git2::Error> {
    let branch = repo.reference_to_annotated_commit(&repo.find_reference(branch)?)?;
    let upstream = repo.reference_to_annotated_commit(&repo.find_reference(upstream)?)?;
    let mut options = git2::RebaseOptions::default();
    repo.rebase(Some(&branch), Some(&upstream), None, Some(&mut options))
}

/// `git2::Rebase::len`: the number of operations that the rebase is to
/// apply. Nothing is claimed of the result.
#[verifier::external_body]
pub(crate) fn rebase_len(rebase: &git2::Rebase<'_>) -> usize {
    rebase.len()
}

/// `next` on a `git2::Rebase`: applies the next operation; none when all are
/// applied. Nothing is claimed of the result.
#[verifier::external_body]
pub(crate) fn rebase_next(rebase: &mut git2::Rebase<'_>) -> Option<Result<(), git2::Error>> {
    rebase.next().map(|step| step.map(|_| ()))
}

/// `git2::Rebase::commit`: commits the operation just applied, with its own
/// author and message, and as committer the author of the commit `signer`.
/// Nothing is claimed of the result.
#[verifier::external_body]
pub(crate) fn rebase_commit(
    rebase: &mut git2::Rebase<'_>,
    repo: &git2::Repository,
    signer: &CommitId,
) -> Result<CommitId, git2::Error> {
    let commit = repo.find_commit(git2::Oid::from_str(signer.hex.as_str())?)?;
    let oid = rebase.commit(None, &commit.author(), None)?;
    Ok(CommitId { hex: oid.to_string() })
}

/// `git2::Rebase::finish` without a signature: ends the rebase once all its
/// operations are applied. Nothing is claimed of the result.
#[verifier::external_body]
pub(crate) fn rebase_finish(rebase: &mut git2::Rebase<'_>) -> Result<(), git2::Error> {
    rebase.finish(None)
}

} // verus!
