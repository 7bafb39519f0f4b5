//! The names and messages that the workflow builds: full branch names,
//! reference names, and the messages that go with reference updates and
//! merges.

use vstd::prelude::*;

verus! {

/// The full name of a branch: its kind's prefix, then what the user called
/// it.
pub open spec fn spec_branch_name(prefix: Seq<char>, suffix: Seq<char>) -> Seq<char> {
    prefix + suffix
}

/// The full name of a branch: its kind's prefix, then what the user called
/// it.
pub fn branch_name(prefix: &str, suffix: &str) -> (r: String)
    ensures
        r@ == spec_branch_name(prefix@, suffix@),
{
    String::from_str(prefix).concat(suffix)
}

/// The name of the reference that holds the local branch `branch`.
pub open spec fn spec_heads_ref(branch: Seq<char>) -> Seq<char> {
    "refs/heads/"@ + branch
}

/// The name of the reference that holds the local branch `branch`.
pub fn heads_ref(branch: &str) -> (r: String)
    ensures
        r@ == spec_heads_ref(branch@),
{
    String::from_str("refs/heads/").concat(branch)
}

/// The reflog message of a branch that is moved forward to a commit.
pub open spec fn spec_fast_forward_message(target: Seq<char>, source: Seq<char>) -> Seq<char> {
    "fast-forward "@ + target + " to "@ + source
}

/// The reflog message of a branch that is moved forward to a commit.
pub fn fast_forward_message(target: &str, source: &str) -> (r: String)
    ensures
        r@ == spec_fast_forward_message(target@, source@),
{
    String::from_str("fast-forward ").concat(target).concat(" to ").concat(source)
}

/// The reflog message of a branch that is created at a commit because a
/// merge into it found it missing.
pub open spec fn spec_publish_message(branch: Seq<char>, source: Seq<char>) -> Seq<char> {
    "Setting "@ + branch + " to "@ + source
}

/// The reflog message of a branch that is created at a commit because a
/// merge into it found it missing.
pub fn publish_message(branch: &str, source: &str) -> (r: String)
    ensures
        r@ == spec_publish_message(branch@, source@),
{
    String::from_str("Setting ").concat(branch).concat(" to ").concat(source)
}

/// The message of the merge that brings the production branch back into the
/// development branch when a release or a hotfix is finished.
pub open spec fn spec_back_merge_message(master: Seq<char>, develop: Seq<char>) -> Seq<char> {
    "Merge branch '"@ + master + "' into "@ + develop
}

/// The message of the merge that brings the production branch back into the
/// development branch when a release or a hotfix is finished.
pub fn back_merge_message(master: &str, develop: &str) -> (r: String)
    ensures
        r@ == spec_back_merge_message(master@, develop@),
{
    String::from_str("Merge branch '").concat(master).concat("' into ").concat(develop)
}

/// The message of the merge that follows a fetch of `branch` from `remote`.
pub open spec fn spec_pull_message(branch: Seq<char>, remote: Seq<char>) -> Seq<char> {
    "Pull "@ + branch + " from "@ + remote + " and merge"@
}

/// The message of the merge that follows a fetch of `branch` from `remote`.
pub fn pull_message(branch: &str, remote: &str) -> (r: String)
    ensures
        r@ == spec_pull_message(branch@, remote@),
{
    String::from_str("Pull ").concat(branch).concat(" from ").concat(remote).concat(" and merge")
}

/// A full branch name begins with its prefix and ends with its suffix, and
/// two names under one prefix are the same only for the same suffix.
pub proof fn lemma_branch_name_parts(prefix: Seq<char>, a: Seq<char>, b: Seq<char>)
    ensures
        spec_branch_name(prefix, a).subrange(0, prefix.len() as int) == prefix,
        spec_branch_name(prefix, a).subrange(prefix.len() as int, (prefix.len() + a.len()) as int)
            == a,
        spec_branch_name(prefix, a) == spec_branch_name(prefix, b) ==> a == b,
{
    let x = spec_branch_name(prefix, a);
    let y = spec_branch_name(prefix, b);
    assert(x.subrange(0, prefix.len() as int) =~= prefix);
    assert(x.subrange(prefix.len() as int, (prefix.len() + a.len()) as int) =~= a);
    if x == y {
        assert(x.len() == y.len());
        assert(y.subrange(prefix.len() as int, (prefix.len() + b.len()) as int) =~= b);
    }
}

/// The tag that an answer names: the answer itself, and no tag where the
/// answer is empty.
pub fn named_tag(answer: &str) -> (r: Option<&str>)
    ensures
        match r {
            Some(name) => answer@.len() > 0 && name@ == answer@,
            None => answer@.len() == 0,
        },
{
    if answer.is_empty() {
        None
    } else {
        Some(answer)
    }
}

/// Whether `name` ends in `suffix`.
pub open spec fn ends_with(name: Seq<char>, suffix: Seq<char>) -> bool {
    name.len() >= suffix.len() && name.subrange(name.len() - suffix.len(), name.len() as int)
        == suffix
}

/// A full branch name ends in what the user called the branch.
pub proof fn lemma_branch_name_ends_with(prefix: Seq<char>, suffix: Seq<char>)
    ensures
        ends_with(spec_branch_name(prefix, suffix), suffix),
{
    let name = spec_branch_name(prefix, suffix);
    assert(name.subrange(name.len() - suffix.len(), name.len() as int) =~= suffix);
}

} // verus!
