//! The choreography of the workflow: which steps a command takes on the
//! repository, and in which order.

use vstd::prelude::*;
use crate::error::ErrorView;
use crate::gitc::is_backend_error;
use crate::kind::GFBranch;
use crate::names::{back_merge_message, spec_back_merge_message};

verus! {

/// One step that a command takes on the repository.
#[derive(Debug, Clone, PartialEq, Eq)]
pub enum Step {
    /// Create the branch named at the current head.
    Create(String),
    /// Make the branch named the current branch.
    Checkout(String),
    /// Bring the tip of the branch `from` into the branch `into`, which is
    /// the current branch, with `message` for a merge commit.
    Merge { into: String, from: String, message: String },
    /// Tag the tip of `branch` as `name`.
    Tag { branch: String, name: String },
    /// Delete the branch named.
    Delete(String),
}

/// A [`Step`] as a mathematical value.
pub enum StepView {
    Create(Seq<char>),
    Checkout(Seq<char>),
    Merge { into: Seq<char>, from: Seq<char>, message: Seq<char> },
    Tag { branch: Seq<char>, name: Seq<char> },
    Delete(Seq<char>),
}

impl View for Step {
    type V = StepView;

    open spec fn view(&self) -> StepView {
        match self {
            Step::Create(b) => StepView::Create(b@),
            Step::Checkout(b) => StepView::Checkout(b@),
            Step::Merge { into, from, message } => StepView::Merge {
                into: into@,
                from: from@,
                message: message@,
            },
            Step::Tag { branch, name } => StepView::Tag { branch: branch@, name: name@ },
            Step::Delete(b) => StepView::Delete(b@),
        }
    }
}

impl Step {
    /// Whether carrying this step out can end in the failure `e`.
    ///
    /// Every step can fail in the backend. Beyond that, creating a branch
    /// needs a head and a free name; a merge needs the source branch and a
    /// head, and stops at a conflict; a tag needs the branch and an address
    /// to sign with; deleting needs the branch. A checkout has no failure
    /// of its own.
    pub open spec fn may_fail_with(&self, e: ErrorView) -> bool {
        is_backend_error(e) || match self {
            Step::Create(name) => e is NoHead || e == ErrorView::BranchExists(name@),
            Step::Checkout(_) => false,
            Step::Merge { into, from, message } => e == ErrorView::BranchNotFound(from@) || e
                is NoHead || e is MergeConflict,
            Step::Tag { branch, name } => e == ErrorView::BranchNotFound(branch@) || e
                == ErrorView::ConfigMissing("user.email"@),
            Step::Delete(name) => e == ErrorView::BranchNotFound(name@),
        }
    }

    /// Whether this step is a merge.
    pub open spec fn spec_is_merge(&self) -> bool {
        self is Merge
    }

    /// Whether this step is a merge.
    #[verifier::when_used_as_spec(spec_is_merge)]
    pub fn is_merge(&self) -> (r: bool)
        ensures
            r == self.spec_is_merge(),
    {
        match self {
            Step::Merge { .. } => true,
            _ => false,
        }
    }
}

/// The steps of a plan as mathematical values.
pub open spec fn plan_view(steps: Seq<Step>) -> Seq<StepView> {
    Seq::new(steps.len(), |i: int| steps[i]@)
}

/// The number of merges among the steps.
pub open spec fn spec_merge_count(steps: Seq<Step>) -> nat
    decreases steps.len(),
{
    if steps.len() == 0 {
        0
    } else {
        spec_merge_count(steps.drop_last()) + if steps.last() is Merge {
            1nat
        } else {
            0nat
        }
    }
}

/// The steps that start the branch `branch`: create it at the current head,
/// then check it out. Nothing is merged.
pub open spec fn spec_start_plan(branch: Seq<char>) -> Seq<StepView> {
    seq![StepView::Create(branch), StepView::Checkout(branch)]
}

/// The steps that start the branch `branch`.
pub fn start_plan(branch: &str) -> (r: Vec<Step>)
    ensures
        plan_view(r@) == spec_start_plan(branch@),
        spec_merge_count(r@) == 0,
{
    let mut steps: Vec<Step> = Vec::new();
    steps.push(Step::Create(String::from_str(branch)));
    steps.push(Step::Checkout(String::from_str(branch)));
    assert(plan_view(steps@) =~= spec_start_plan(branch@));
    proof {
        lemma_merge_count_by_view(steps@);
        lemma_count_start(branch@);
    }
    steps
}

/// The steps that finish the branch `branch` of the kind `kind`.
///
/// A release or a hotfix goes to the production branch first: `master` is
/// checked out and `branch` merged into it with `message`; the new tip of
/// `master` is tagged where a tag is named; then `develop` is checked out and
/// `master` merged into it. Any other kind goes to `develop` alone. The last
/// step always deletes `branch`.
pub open spec fn spec_finish_plan(
    kind: GFBranch,
    branch: Seq<char>,
    master: Seq<char>,
    develop: Seq<char>,
    message: Seq<char>,
    tag: Option<Seq<char>>,
) -> Seq<StepView> {
    if kind.spec_lands_on_master() {
        let first = seq![
            StepView::Checkout(master),
            StepView::Merge { into: master, from: branch, message: message },
        ];
        let tagging = match tag {
            Some(name) => seq![StepView::Tag { branch: master, name: name }],
            None => Seq::empty(),
        };
        let second = seq![
            StepView::Checkout(develop),
            StepView::Merge {
                into: develop,
                from: master,
                message: spec_back_merge_message(master, develop),
            },
            StepView::Delete(branch),
        ];
        first + tagging + second
    } else {
        seq![
            StepView::Checkout(develop),
            StepView::Merge { into: develop, from: branch, message: message },
            StepView::Delete(branch),
        ]
    }
}

/// The view of an optional text.
pub open spec fn option_text(t: Option<&str>) -> Option<Seq<char>> {
    match t {
        Some(s) => Some(s@),
        None => None,
    }
}

/// The steps that finish the branch `branch` of the kind `kind`.
pub fn finish_plan(
    kind: GFBranch,
    branch: &str,
    master: &str,
    develop: &str,
    message: &str,
    tag: Option<&str>,
) -> (r: Vec<Step>)
    ensures
        plan_view(r@) == spec_finish_plan(
            kind,
            branch@,
            master@,
            develop@,
            message@,
            option_text(tag),
        ),
{
    let mut steps: Vec<Step> = Vec::new();
    if kind.lands_on_master() {
        steps.push(Step::Checkout(String::from_str(master)));
        steps.push(
            Step::Merge {
                into: String::from_str(master),
                from: String::from_str(branch),
                message: String::from_str(message),
            },
        );
        match tag {
            Some(name) => {
                steps.push(
                    Step::Tag { branch: String::from_str(master), name: String::from_str(name) },
                );
            },
            None => {},
        }
        steps.push(Step::Checkout(String::from_str(develop)));
        steps.push(
            Step::Merge {
                into: String::from_str(develop),
                from: String::from_str(master),
                message: back_merge_message(master, develop),
            },
        );
        steps.push(Step::Delete(String::from_str(branch)));
    } else {
        steps.push(Step::Checkout(String::from_str(develop)));
        steps.push(
            Step::Merge {
                into: String::from_str(develop),
                from: String::from_str(branch),
                message: String::from_str(message),
            },
        );
        steps.push(Step::Delete(String::from_str(branch)));
    }
    assert(plan_view(steps@) =~= spec_finish_plan(
        kind,
        branch@,
        master@,
        develop@,
        message@,
        option_text(tag),
    ));
    steps
}

/// The number of merges among steps given as mathematical values.
pub open spec fn spec_view_merge_count(steps: Seq<StepView>) -> nat
    decreases steps.len(),
{
    if steps.len() == 0 {
        0
    } else {
        spec_view_merge_count(steps.drop_last()) + if steps.last() is Merge {
            1nat
        } else {
            0nat
        }
    }
}

/// Counting the merges of a plan and counting those of its view come to the
/// same.
pub proof fn lemma_merge_count_by_view(steps: Seq<Step>)
    ensures
        spec_merge_count(steps) == spec_view_merge_count(plan_view(steps)),
    decreases steps.len(),
{
    if steps.len() > 0 {
        lemma_merge_count_by_view(steps.drop_last());
        assert(plan_view(steps).drop_last() =~= plan_view(steps.drop_last()));
        assert(plan_view(steps).last() == steps.last()@);
    }
}

/// Starting a branch merges nothing.
pub proof fn lemma_count_start(branch: Seq<char>)
    ensures
        spec_view_merge_count(spec_start_plan(branch)) == 0,
{
    let p = spec_start_plan(branch);
    assert(p.drop_last() =~= seq![StepView::Create(branch)]);
    assert(p.drop_last().drop_last() =~= Seq::<StepView>::empty());
    reveal_with_fuel(spec_view_merge_count, 3);
}

/// Starting a branch creates it under its full name and then checks the
/// same name out, so that it is the current branch once both steps are done.
pub proof fn lemma_start_creates_then_checks_out(branch: Seq<char>)
    ensures
        spec_start_plan(branch).len() == 2,
        spec_start_plan(branch)[0] == StepView::Create(branch),
        spec_start_plan(branch)[1] == StepView::Checkout(branch),
{
}

/// Finishing deletes the finished branch in its last step and in no other,
/// and every merge comes before that step: a finish that stops at a merge
/// has not deleted the branch.
pub proof fn lemma_finish_deletes_last(
    kind: GFBranch,
    branch: Seq<char>,
    master: Seq<char>,
    develop: Seq<char>,
    message: Seq<char>,
    tag: Option<Seq<char>>,
)
    ensures
        ({
            let plan = spec_finish_plan(kind, branch, master, develop, message, tag);
            &&& plan.len() >= 3
            &&& plan.last() == StepView::Delete(branch)
            &&& forall|i: int| 0 <= i < plan.len() - 1 ==> !((#[trigger] plan[i]) is Delete)
            &&& forall|i: int| 0 <= i < plan.len() && (#[trigger] plan[i]) is Merge ==> i
                < plan.len() - 1
        }),
{
}

/// A finish creates no branch, and it sets a tag only for a release or a
/// hotfix for which a tag is named.
pub proof fn lemma_finish_steps(
    kind: GFBranch,
    branch: Seq<char>,
    master: Seq<char>,
    develop: Seq<char>,
    message: Seq<char>,
    tag: Option<Seq<char>>,
    k: int,
)
    requires
        0 <= k < spec_finish_plan(kind, branch, master, develop, message, tag).len(),
    ensures
        ({
            let step = spec_finish_plan(kind, branch, master, develop, message, tag)[k];
            &&& !(step is Create)
            &&& step is Tag ==> kind.spec_lands_on_master() && tag is Some
        }),
{
}

/// Finishing a release or a hotfix merges the branch into the production
/// branch first, tags the production branch next where a tag is named, and
/// only then merges the production branch into the development branch.
pub proof fn lemma_finish_release_order(
    kind: GFBranch,
    branch: Seq<char>,
    master: Seq<char>,
    develop: Seq<char>,
    message: Seq<char>,
    tag: Option<Seq<char>>,
)
    requires
        kind.spec_lands_on_master(),
    ensures
        ({
            let plan = spec_finish_plan(kind, branch, master, develop, message, tag);
            let n = plan.len() as int;
            &&& n == if tag is Some { 6int } else { 5int }
            &&& plan[0] == StepView::Checkout(master)
            &&& plan[1] == StepView::Merge { into: master, from: branch, message: message }
            &&& tag matches Some(name) ==> plan[2] == StepView::Tag { branch: master, name: name }
            &&& plan[n - 3] == StepView::Checkout(develop)
            &&& plan[n - 2] == StepView::Merge {
                into: develop,
                from: master,
                message: spec_back_merge_message(master, develop),
            }
            &&& plan[n - 1] == StepView::Delete(branch)
            &&& spec_view_merge_count(plan) == 2
        }),
{
    let plan = spec_finish_plan(kind, branch, master, develop, message, tag);
    lemma_count_prefixes(plan);
}

/// Finishing a feature, a bugfix or a support branch checks the development
/// branch out, merges the branch into it and deletes the branch; the
/// production branch is not touched and nothing is tagged.
pub proof fn lemma_finish_topic_order(
    kind: GFBranch,
    branch: Seq<char>,
    master: Seq<char>,
    develop: Seq<char>,
    message: Seq<char>,
    tag: Option<Seq<char>>,
)
    requires
        !kind.spec_lands_on_master(),
    ensures
        ({
            let plan = spec_finish_plan(kind, branch, master, develop, message, tag);
            &&& plan.len() == 3
            &&& plan[0] == StepView::Checkout(develop)
            &&& plan[1] == StepView::Merge { into: develop, from: branch, message: message }
            &&& plan[2] == StepView::Delete(branch)
            &&& spec_view_merge_count(plan) == 1
        }),
{
    let plan = spec_finish_plan(kind, branch, master, develop, message, tag);
    lemma_count_prefixes(plan);
}

/// The number of merges among the first `k` steps grows by one at a merge
/// and stays at any other step.
pub proof fn lemma_count_step(steps: Seq<StepView>, k: int)
    requires
        0 <= k < steps.len(),
    ensures
        spec_view_merge_count(steps.take(k + 1)) == spec_view_merge_count(steps.take(k))
            + if steps[k] is Merge {
            1nat
        } else {
            0nat
        },
{
    assert(steps.take(k + 1).drop_last() =~= steps.take(k));
    assert(steps.take(k + 1).last() == steps[k]);
}

/// Unfolds the count of merges over a plan of at most six steps.
proof fn lemma_count_prefixes(steps: Seq<StepView>)
    requires
        steps.len() <= 6,
    ensures
        spec_view_merge_count(steps) == (if steps.len() > 0 && steps[0] is Merge {
            1nat
        } else {
            0nat
        }) + (if steps.len() > 1 && steps[1] is Merge {
            1nat
        } else {
            0nat
        }) + (if steps.len() > 2 && steps[2] is Merge {
            1nat
        } else {
            0nat
        }) + (if steps.len() > 3 && steps[3] is Merge {
            1nat
        } else {
            0nat
        }) + (if steps.len() > 4 && steps[4] is Merge {
            1nat
        } else {
            0nat
        }) + (if steps.len() > 5 && steps[5] is Merge {
            1nat
        } else {
            0nat
        }),
{
    assert(steps.take(0) =~= Seq::<StepView>::empty());
    assert(spec_view_merge_count(steps.take(0)) == 0);
    if steps.len() > 0 {
        lemma_count_step(steps, 0);
    }
    if steps.len() > 1 {
        lemma_count_step(steps, 1);
    }
    if steps.len() > 2 {
        lemma_count_step(steps, 2);
    }
    if steps.len() > 3 {
        lemma_count_step(steps, 3);
    }
    if steps.len() > 4 {
        lemma_count_step(steps, 4);
    }
    if steps.len() > 5 {
        lemma_count_step(steps, 5);
    }
    assert(steps.take(steps.len() as int) =~= steps);
}

} // verus!
