//! How a source commit is brought into a target branch: the choice between
//! moving the branch forward and a merge of three trees, and what comes of it.

use vstd::prelude::*;
use crate::names::{heads_ref, publish_message, spec_heads_ref, spec_publish_message};
use crate::object::CommitId;
use crate::error::{texts, ErrorView, GFError};

verus! {

/// What the backend finds when it compares a source commit with the tip of
/// the checked-out branch.
#[derive(Debug, Clone, Copy, PartialEq, Eq, Structural)]
pub struct MergeAnalysis {
    /// The source is ahead of the tip and nothing on the branch diverges.
    pub fast_forward: bool,
    /// Both sides have commits of their own since their common ancestor.
    pub normal: bool,
    /// The source is already reachable from the tip.
    pub up_to_date: bool,
    /// The checked-out branch has no commit yet.
    pub unborn: bool,
}

/// The way in which a source commit is brought into a branch.
#[derive(Debug, Clone, Copy, PartialEq, Eq, Structural)]
pub enum MergeStrategy {
    /// Move the branch to the source commit; no commit is made.
    FastForward,
    /// Merge the trees of both sides over their common ancestor.
    Normal,
    /// Leave everything as it is.
    Nothing,
}

impl MergeAnalysis {
    /// The strategy that an analysis calls for. Moving the branch forward
    /// comes first wherever it is possible; a merge of three trees comes
    /// second; where neither is possible nothing is done.
    pub open spec fn spec_strategy(self) -> MergeStrategy {
        if self.fast_forward {
            MergeStrategy::FastForward
        } else if self.normal {
            MergeStrategy::Normal
        } else {
            MergeStrategy::Nothing
        }
    }

    /// The strategy that this analysis calls for.
    #[verifier::when_used_as_spec(spec_strategy)]
    pub fn strategy(self) -> (r: MergeStrategy)
        ensures
            r == self.spec_strategy(),
    {
        if self.fast_forward {
            MergeStrategy::FastForward
        } else if self.normal {
            MergeStrategy::Normal
        } else {
            MergeStrategy::Nothing
        }
    }
}

/// How a branch is brought forward to a source commit. No commit is made
/// either way.
#[derive(Debug, Clone, PartialEq, Eq)]
pub enum ForwardAction {
    /// The branch is there: move the reference found, whose full name this
    /// is, to the source.
    Move { refname: String },
    /// The branch is not there yet: create its reference at the source,
    /// with this message in its log.
    Create { refname: String, log: String },
}

/// A [`ForwardAction`] as a mathematical value.
pub enum ForwardActionView {
    Move { refname: Seq<char> },
    Create { refname: Seq<char>, log: Seq<char> },
}

impl View for ForwardAction {
    type V = ForwardActionView;

    open spec fn view(&self) -> ForwardActionView {
        match self {
            ForwardAction::Move { refname } => ForwardActionView::Move { refname: refname@ },
            ForwardAction::Create { refname, log } => ForwardActionView::Create {
                refname: refname@,
                log: log@,
            },
        }
    }
}

/// The way in which the branch `branch` is brought forward to `source`,
/// given the full name of its reference where a lookup found one: a
/// reference that is there is moved; one that is not is created at the
/// source under the branch's name.
pub open spec fn spec_forward_action(
    found: Option<Seq<char>>,
    branch: Seq<char>,
    source: Seq<char>,
) -> ForwardActionView {
    match found {
        Some(refname) => ForwardActionView::Move { refname: refname },
        None => ForwardActionView::Create {
            refname: spec_heads_ref(branch),
            log: spec_publish_message(branch, source),
        },
    }
}

/// The text of an optional string.
pub open spec fn found_text(found: Option<String>) -> Option<Seq<char>> {
    match found {
        Some(s) => Some(s@),
        None => None,
    }
}

/// The way in which the branch `branch` is brought forward to `source`,
/// given the full name of its reference where a lookup found one.
pub fn forward_action(found: Option<String>, branch: &str, source: &CommitId) -> (r: ForwardAction)
    ensures
        r@ == spec_forward_action(found_text(found), branch@, source@),
{
    match found {
        Some(refname) => ForwardAction::Move { refname },
        None => ForwardAction::Create {
            refname: heads_ref(branch),
            log: publish_message(branch, source.as_str()),
        },
    }
}

/// The paths under which an entry of a merged index is in conflict, on each
/// of the three sides that has the entry.
#[derive(Debug, Clone, PartialEq, Eq)]
pub struct ConflictEntry {
    pub ancestor: Option<String>,
    pub ours: Option<String>,
    pub theirs: Option<String>,
}

impl ConflictEntry {
    /// The path by which a conflict is reported: ours where we have the
    /// entry, else theirs, else the ancestor's; none where no side has it.
    pub open spec fn spec_path(self) -> Option<Seq<char>> {
        match (self.ours, self.theirs, self.ancestor) {
            (Some(p), _, _) => Some(p@),
            (None, Some(p), _) => Some(p@),
            (None, None, Some(p)) => Some(p@),
            (None, None, None) => None,
        }
    }

    /// The path by which this conflict is reported.
    pub fn path(&self) -> (r: Option<String>)
        ensures
            match r {
                Some(p) => self.spec_path() == Some(p@),
                None => self.spec_path() is None,
            },
    {
        match &self.ours {
            Some(p) => Some(p.clone()),
            None => match &self.theirs {
                Some(p) => Some(p.clone()),
                None => match &self.ancestor {
                    Some(p) => Some(p.clone()),
                    None => None,
                },
            },
        }
    }
}

/// The paths by which a list of conflicts is reported, in the order of the
/// list, without the entries that no side has.
pub open spec fn spec_conflict_paths(entries: Seq<ConflictEntry>) -> Seq<Seq<char>>
    decreases entries.len(),
{
    if entries.len() == 0 {
        Seq::empty()
    } else {
        let rest = spec_conflict_paths(entries.drop_last());
        match entries.last().spec_path() {
            Some(p) => rest.push(p),
            None => rest,
        }
    }
}

/// The paths by which a list of conflicts is reported.
pub fn conflict_paths(entries: &Vec<ConflictEntry>) -> (r: Vec<String>)
    ensures
        texts(r@) == spec_conflict_paths(entries@),
{
    let mut out: Vec<String> = Vec::new();
    let mut i: usize = 0;
    assert(entries@.take(0) =~= Seq::<ConflictEntry>::empty());
    assert(texts(out@) =~= Seq::<Seq<char>>::empty());
    while i < entries.len()
        invariant
            i <= entries.len(),
            texts(out@) == spec_conflict_paths(entries@.take(i as int)),
        decreases entries.len() - i,
    {
        let ghost before = out@;
        assert(entries@.take(i + 1).drop_last() =~= entries@.take(i as int));
        assert(entries@.take(i + 1).last() == entries@[i as int]);
        match entries[i].path() {
            Some(p) => {
                out.push(p);
                assert(texts(out@) =~= texts(before).push(p@));
            },
            None => {},
        }
        i += 1;
    }
    assert(entries@.take(i as int) =~= entries@);
    out
}

/// The parents of a merge commit, in their order: the tip that the branch
/// had, then the source.
pub fn merge_parents(ours: &CommitId, theirs: &CommitId) -> (r: Vec<CommitId>)
    ensures
        r@.len() == 2,
        r@[0]@ == ours@,
        r@[1]@ == theirs@,
{
    let mut parents: Vec<CommitId> = Vec::new();
    parents.push(ours.copy());
    parents.push(theirs.copy());
    parents
}

/// The parents of a commit that is made on top of the current head: the
/// head alone, or none where there is no head yet, which makes the commit a
/// root.
pub fn commit_parents(head: Option<CommitId>) -> (r: Vec<CommitId>)
    ensures
        match head {
            Some(h) => r@.len() == 1 && r@[0] == h,
            None => r@.len() == 0,
        },
{
    let mut parents: Vec<CommitId> = Vec::new();
    match head {
        Some(h) => {
            parents.push(h);
        },
        None => {},
    }
    parents
}

/// What came of bringing a source commit into a branch.
#[derive(Debug, Clone, PartialEq, Eq)]
pub enum MergeOutcome {
    /// The branch was moved to the commit named, which is the source itself.
    FastForwarded(CommitId),
    /// A merge commit was made, whose id is named.
    Merged(CommitId),
    /// The merge left the named paths unresolved in the working tree; no
    /// commit was made.
    Conflict(Vec<String>),
    /// The branch already held the source.
    NoOp,
}

impl MergeOutcome {
    /// Whether the merge left conflicts behind.
    pub open spec fn spec_is_conflict(&self) -> bool {
        self is Conflict
    }

    /// Whether the merge left conflicts behind.
    #[verifier::when_used_as_spec(spec_is_conflict)]
    pub fn is_conflict(&self) -> (r: bool)
        ensures
            r == self.spec_is_conflict(),
    {
        match self {
            MergeOutcome::Conflict(_) => true,
            _ => false,
        }
    }

    /// What a finish makes of this outcome: a conflict stops it with the
    /// paths left unresolved, anything else lets it go on.
    pub fn settle(self) -> (r: Result<MergeOutcome, GFError>)
        ensures
            match self {
                MergeOutcome::Conflict(paths) => r matches Err(e) && e@
                    == ErrorView::MergeConflict(texts(paths@)),
                _ => r == Ok::<MergeOutcome, GFError>(self),
            },
    {
        match self {
            MergeOutcome::Conflict(paths) => Err(GFError::MergeConflict(paths)),
            other => Ok(other),
        }
    }

    /// Whether this outcome can be what the strategy `s` ends in: a branch
    /// moved forward only by moving forward, a merge commit or a conflict
    /// only by a merge of trees, no change only by doing nothing.
    pub open spec fn fits(self, s: MergeStrategy) -> bool {
        match self {
            MergeOutcome::FastForwarded(_) => s == MergeStrategy::FastForward,
            MergeOutcome::Merged(_) => s == MergeStrategy::Normal,
            MergeOutcome::Conflict(_) => s == MergeStrategy::Normal,
            MergeOutcome::NoOp => s == MergeStrategy::Nothing,
        }
    }
}

/// Moving the branch forward comes before a merge of trees: where the
/// backend finds that the source is ahead of the tip with nothing diverging,
/// the strategy is to move forward, whatever else it finds, and what comes of
/// it can only be the branch moved forward, for which no commit is made.
pub proof fn lemma_fast_forward_preferred(analysis: MergeAnalysis, outcome: MergeOutcome)
    requires
        analysis.fast_forward,
        outcome.fits(analysis.spec_strategy()),
    ensures
        analysis.spec_strategy() == MergeStrategy::FastForward,
        outcome is FastForwarded,
{
}

/// Where both sides have diverged and the branch cannot be moved forward,
/// trees are merged, and what comes of it is a merge commit or a conflict,
/// never a branch moved forward or left alone.
pub proof fn lemma_diverged_merges_or_conflicts(analysis: MergeAnalysis, outcome: MergeOutcome)
    requires
        !analysis.fast_forward,
        analysis.normal,
        outcome.fits(analysis.spec_strategy()),
    ensures
        analysis.spec_strategy() == MergeStrategy::Normal,
        outcome is Merged || outcome is Conflict,
{
}

/// Where the branch can neither be moved forward nor merged, as when it
/// holds the source already, nothing is done.
pub proof fn lemma_nothing_to_merge(analysis: MergeAnalysis, outcome: MergeOutcome)
    requires
        !analysis.fast_forward,
        !analysis.normal,
        outcome.fits(analysis.spec_strategy()),
    ensures
        analysis.spec_strategy() == MergeStrategy::Nothing,
        outcome is NoOp,
{
}

} // verus!
