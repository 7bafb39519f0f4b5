//! The workflow engine: it sets a repository up for the workflow, starts
//! branches and finishes them.

use vstd::prelude::*;
use crate::config::{or_default, prefix_key, setup_order, ConfigKey, InitAnswers};
use crate::error::{ErrorView, GFError};
use crate::gitc::{is_backend_error, GitcRepo};
use crate::kind::{GFBranch, GFSubCmd};
use crate::merge::MergeOutcome;
use crate::names::{branch_name, ends_with, lemma_branch_name_ends_with};
use crate::object::CommitId;
use crate::plan::{
    finish_plan, lemma_finish_release_order, lemma_finish_steps, lemma_finish_topic_order,
    lemma_merge_count_by_view, option_text, plan_view, spec_merge_count, start_plan, Step,
};

verus! {

/// Whether the workflow has been set up where the engine works.
#[derive(Debug, Clone, Copy, PartialEq, Eq, Structural)]
pub enum EngineState {
    /// The repository was made for this engine and `init` has not run yet.
    Uninitialized,
    /// The repository was there before, or `init` has run.
    Ready,
}

impl EngineState {
    /// The state after a command of the phase `phase`, or none where the
    /// command is out of order: `init` is in order in every state and makes
    /// the engine ready; `start` and `finish` need a ready engine and leave
    /// it ready.
    pub open spec fn spec_after(self, phase: GFSubCmd) -> Option<EngineState> {
        if phase == GFSubCmd::Init || self == EngineState::Ready {
            Some(EngineState::Ready)
        } else {
            None
        }
    }

    /// The state after a command of the phase `phase`; a command that is out
    /// of order is refused.
    pub fn after(self, phase: GFSubCmd) -> (r: Result<EngineState, GFError>)
        ensures
            match self.spec_after(phase) {
                Some(next) => r == Ok::<EngineState, GFError>(next),
                None => r matches Err(e) && e@ == ErrorView::State,
            },
    {
        match phase {
            GFSubCmd::Init => Ok(EngineState::Ready),
            _ => match self {
                EngineState::Ready => Ok(EngineState::Ready),
                EngineState::Uninitialized => Err(GFError::State),
            },
        }
    }
}

/// One command of the workflow.
#[derive(Debug, Clone)]
pub enum WorkflowCommand {
    /// Set the repository up, with the user's answers to the setup's
    /// questions.
    Init(InitAnswers),
    /// Start the branch `suffix` of the kind `kind`.
    Start { kind: GFBranch, suffix: String },
    /// Finish the branch `suffix` of the kind `kind`, with `message` for the
    /// merge and, for a release or a hotfix, an optional tag.
    Finish { kind: GFBranch, suffix: String, message: String, tag: Option<String> },
}

/// The view of an optional owned text.
pub open spec fn option_string_text(t: Option<String>) -> Option<Seq<char>> {
    match t {
        Some(s) => Some(s@),
        None => None,
    }
}

impl WorkflowCommand {
    /// The phase of the workflow that this command runs.
    pub open spec fn spec_phase(&self) -> GFSubCmd {
        match self {
            WorkflowCommand::Init(_) => GFSubCmd::Init,
            WorkflowCommand::Start { .. } => GFSubCmd::Start,
            WorkflowCommand::Finish { .. } => GFSubCmd::Finish,
        }
    }

    /// The phase of the workflow that this command runs.
    #[verifier::when_used_as_spec(spec_phase)]
    pub fn phase(&self) -> (r: GFSubCmd)
        ensures
            r == self.spec_phase(),
    {
        match self {
            WorkflowCommand::Init(_) => GFSubCmd::Init,
            WorkflowCommand::Start { .. } => GFSubCmd::Start,
            WorkflowCommand::Finish { .. } => GFSubCmd::Finish,
        }
    }

    /// The command that the user's input makes. `init` needs no branch kind;
    /// `start` and `finish` without one are refused.
    pub fn resolve(
        kind: Option<GFBranch>,
        phase: GFSubCmd,
        suffix: &str,
        message: &str,
        tag: Option<&str>,
        answers: InitAnswers,
    ) -> (r: Result<WorkflowCommand, GFError>)
        ensures
            (phase != GFSubCmd::Init && kind is None) <==> r is Err,
            r matches Err(e) ==> e@ == ErrorView::NoActiveKind,
            r matches Ok(command) ==> command.spec_phase() == phase,
            r matches Ok(WorkflowCommand::Init(a)) ==> a == answers,
            r matches Ok(WorkflowCommand::Start { kind: k, suffix: s }) ==> kind == Some(k) && s@
                == suffix@,
            r matches Ok(WorkflowCommand::Finish { kind: k, suffix: s, message: m, tag: t })
                ==> kind == Some(k) && s@ == suffix@ && m@ == message@ && option_string_text(t)
                == option_text(tag),
    {
        match phase {
            GFSubCmd::Init => Ok(WorkflowCommand::Init(answers)),
            GFSubCmd::Start => match kind {
                Some(k) => Ok(WorkflowCommand::Start { kind: k, suffix: String::from_str(suffix) }),
                None => Err(GFError::NoActiveKind),
            },
            GFSubCmd::Finish => match kind {
                Some(k) => {
                    let tag = match tag {
                        Some(name) => Some(String::from_str(name)),
                        None => None,
                    };
                    Ok(
                        WorkflowCommand::Finish {
                            kind: k,
                            suffix: String::from_str(suffix),
                            message: String::from_str(message),
                            tag,
                        },
                    )
                },
                None => Err(GFError::NoActiveKind),
            },
        }
    }
}

/// How far the steps of a plan were carried out.
#[derive(Debug, Clone)]
pub struct RunReport {
    /// The number of steps that were completed, from the first on.
    pub performed: usize,
    /// What came of the merges among the completed steps, in their order.
    pub merges: Vec<MergeOutcome>,
    /// Why the step after the completed ones did not complete; none where
    /// every step did.
    pub failure: Option<GFError>,
}

impl RunReport {
    /// Whether this report can be what running `plan` ends in.
    ///
    /// Steps complete in their order and the run stops at the first that
    /// does not; no step after it is tried. A merge that leaves conflicts
    /// does not complete, so every merge reported is free of conflicts. The
    /// failure reported is one that the step at which the run stopped can
    /// end in; so a run stopped by a conflict stopped at a merge, and no run
    /// stops for the engine's state.
    pub open spec fn describes(self, plan: Seq<Step>) -> bool {
        &&& self.performed <= plan.len()
        &&& self.merges@.len() == spec_merge_count(plan.take(self.performed as int))
        &&& forall|i: int| 0 <= i < self.merges@.len() ==> !(#[trigger] self.merges@[i]).is_conflict()
        &&& self.failure is None <==> self.performed == plan.len()
        &&& self.failure matches Some(e) ==> plan[self.performed as int].may_fail_with(e@)
    }
}

/// What a finish did.
#[derive(Debug, Clone)]
pub struct FinishReport {
    /// The full name of the branch that was finished and deleted.
    pub branch: String,
    /// What came of each merge, in the order of the merges.
    pub merges: Vec<MergeOutcome>,
    /// The tag that was set on the production branch.
    pub tag: Option<String>,
}

/// What a command did.
#[derive(Debug, Clone)]
pub enum CommandReport {
    /// The repository was set up; the id is that of the first commit where
    /// one had to be made.
    Initialized(Option<CommitId>),
    /// The branch named was started.
    Started(String),
    /// A branch was finished.
    Finished(FinishReport),
}

/// What the creation of a branch comes to where a branch that is there
/// already is as good as a new one: that one failure counts as success, any
/// other result stands.
pub fn tolerate_existing(created: Result<(), GFError>) -> (r: Result<(), GFError>)
    ensures
        match created {
            Err(GFError::BranchExists(_)) => r is Ok,
            _ => r == created,
        },
{
    match created {
        Err(GFError::BranchExists(_)) => Ok(()),
        other => other,
    }
}

/// The engine at work on one repository.
pub struct GFWork {
    pub repo: GitcRepo,
    /// What the user called the branch that the next command works on.
    pub branch_suffix: String,
    pub state: EngineState,
}

impl GFWork {
    /// Whether setting the repository up can end in the failure `e`: the
    /// repository is bare, the name of the development branch cannot be
    /// read back, there is no head to put the branch on, or the backend
    /// fails. A development branch that is there already is no failure.
    pub open spec fn init_may_fail_with(e: ErrorView) -> bool {
        ||| is_backend_error(e)
        ||| e == ErrorView::Generic("the repository is bare"@)
        ||| e == ErrorView::ConfigMissing(ConfigKey::Develop.spec_name())
        ||| e is NoHead
    }

    /// Whether starting a branch of the kind `kind` on this engine can end
    /// in the failure `e`: the engine is not ready, which is the one case of
    /// a state failure; the kind's prefix is not configured; there is no
    /// head; the full name, which ends in what the user called the branch,
    /// is taken; or the backend fails.
    pub open spec fn start_may_fail_with(&self, kind: GFBranch, e: ErrorView) -> bool {
        ||| is_backend_error(e)
        ||| e is State && self.state == EngineState::Uninitialized
        ||| e == ErrorView::ConfigMissing(ConfigKey::Prefix(kind).spec_name())
        ||| e is NoHead
        ||| e is BranchExists && ends_with(e->BranchExists_0, self.branch_suffix@)
    }

    /// Whether finishing a branch of the kind `kind` on this engine, with
    /// the tag `tag` where one is named, can end in the failure `e`: the
    /// engine is not ready, which is the one case of a state failure; the
    /// kind's prefix or an integration branch that the finish uses is not
    /// configured; a tag is to be set and no address is configured to sign
    /// it; a branch is missing; there is no head; a merge left conflicts; or
    /// the backend fails.
    pub open spec fn finish_may_fail_with(
        &self,
        kind: GFBranch,
        tag: Option<Seq<char>>,
        e: ErrorView,
    ) -> bool {
        ||| is_backend_error(e)
        ||| e is State && self.state == EngineState::Uninitialized
        ||| e == ErrorView::ConfigMissing(ConfigKey::Prefix(kind).spec_name())
        ||| e == ErrorView::ConfigMissing(ConfigKey::Develop.spec_name())
        ||| kind.spec_lands_on_master() && e == ErrorView::ConfigMissing(
            ConfigKey::Master.spec_name(),
        )
        ||| kind.spec_lands_on_master() && tag is Some && e == ErrorView::ConfigMissing(
            "user.email"@,
        )
        ||| e is BranchNotFound
        ||| e is NoHead
        ||| e is MergeConflict
    }

    /// The engine for the repository at `path`. Where there is none, one is
    /// created, and the engine waits for `init`.
    pub fn new(path: &str) -> (r: Result<GFWork, GFError>)
        ensures
            r matches Ok(work) ==> work.branch_suffix@.len() == 0,
            r is Err ==> is_backend_error(r->Err_0@),
    {
        match GitcRepo::open(path) {
            Ok(repo) => Ok(GFWork::over(repo, false)),
            Err(_) => Ok(GFWork::over(GitcRepo::create(path)?, true)),
        }
    }

    /// The engine for `repo`, with no branch named yet. It is ready, unless
    /// `fresh` says that the repository was only just made: then it waits
    /// for `init`.
    pub fn over(repo: GitcRepo, fresh: bool) -> (r: GFWork)
        ensures
            r.repo == repo,
            r.branch_suffix@.len() == 0,
            r.state == if fresh {
                EngineState::Uninitialized
            } else {
                EngineState::Ready
            },
    {
        let state = if fresh {
            EngineState::Uninitialized
        } else {
            EngineState::Ready
        };
        GFWork { repo, branch_suffix: String::new(), state }
    }

    /// The prefix that the configuration holds for branches of the kind
    /// `cmd`. Every call asks the backend anew.
    pub fn get_branch_prefix(&self, cmd: GFBranch) -> (r: Result<String, GFError>)
        ensures
            r is Err ==> r->Err_0@ == ErrorView::ConfigMissing(ConfigKey::Prefix(cmd).spec_name())
                || is_backend_error(r->Err_0@),
    {
        let key = prefix_key(cmd);
        self.repo.get_config(key.as_str())
    }

    /// The name that the configuration holds for the production branch.
    pub fn get_master(&self) -> (r: Result<String, GFError>)
        ensures
            r is Err ==> r->Err_0@ == ErrorView::ConfigMissing(ConfigKey::Master.spec_name())
                || is_backend_error(r->Err_0@),
    {
        let key = ConfigKey::Master.name();
        self.repo.get_config(key.as_str())
    }

    /// The name that the configuration holds for the development branch.
    pub fn get_develop(&self) -> (r: Result<String, GFError>)
        ensures
            r is Err ==> r->Err_0@ == ErrorView::ConfigMissing(ConfigKey::Develop.spec_name())
                || is_backend_error(r->Err_0@),
    {
        let key = ConfigKey::Develop.name();
        self.repo.get_config(key.as_str())
    }

    /// Notes what the user called the branch that the next command works on.
    pub fn set_branch_suffix(&mut self, bs: &str)
        ensures
            final(self).branch_suffix@ == bs@,
            final(self).state == old(self).state,
            final(self).repo == old(self).repo,
    {
        self.branch_suffix = String::from_str(bs);
    }

    /// Stores one setting: the user's answer as it stands, or `default`
    /// where the answer is empty.
    pub fn subconfig(&self, answer: &str, name: &str, default: &str) -> (r: Result<(), GFError>)
        ensures
            r is Err ==> is_backend_error(r->Err_0@),
    {
        let value = or_default(answer, default);
        self.repo.config(name, value.as_str())
    }

    /// Stores all nine settings, each with the user's answer or its default,
    /// and stops at the first that cannot be stored.
    pub fn config(&self, answers: &InitAnswers) -> (r: Result<(), GFError>)
        ensures
            r is Err ==> r->Err_0@ == ErrorView::Generic("the repository is bare"@)
                || is_backend_error(r->Err_0@),
    {
        let workdir = self.repo.get_workdir()?;
        let keys = setup_order();
        let mut i: usize = 0;
        while i < keys.len()
            invariant
                i <= keys.len(),
            decreases keys.len() - i,
        {
            let key = keys[i];
            let name = key.name();
            let default = key.default_value(workdir.as_str());
            self.subconfig(answers.answer(key), name.as_str(), default.as_str())?;
            i += 1;
        }
        Ok(())
    }

    /// The full name of the branch that the next command works on: the
    /// prefix of its kind, then what the user called it.
    pub fn cat_gfbranch(&self, cmd: GFBranch) -> (r: Result<String, GFError>)
        ensures
            r matches Ok(name) ==> ends_with(name@, self.branch_suffix@),
            r is Err ==> r->Err_0@ == ErrorView::ConfigMissing(ConfigKey::Prefix(cmd).spec_name())
                || is_backend_error(r->Err_0@),
    {
        let prefix = self.get_branch_prefix(cmd)?;
        proof {
            lemma_branch_name_ends_with(prefix@, self.branch_suffix@);
        }
        Ok(branch_name(prefix.as_str(), self.branch_suffix.as_str()))
    }

    /// Carries one step out. A merge that leaves conflicts counts as a
    /// failure of the step.
    pub fn perform(&self, step: &Step) -> (r: Result<Option<MergeOutcome>, GFError>)
        ensures
            r matches Ok(done) ==> (done is Some <==> step is Merge),
            r matches Ok(Some(outcome)) ==> !outcome.is_conflict(),
            r matches Err(e) ==> step.may_fail_with(e@),
    {
        match step {
            Step::Create(name) => {
                self.repo.branch(name.as_str())?;
                Ok(None)
            },
            Step::Checkout(name) => {
                self.repo.checkout(name.as_str())?;
                Ok(None)
            },
            Step::Merge { into, from, message } => {
                let source = self.repo.branch_tip(from.as_str())?;
                let outcome = self.repo.merge(into.as_str(), &source, message.as_str())?;
                let settled = outcome.settle()?;
                Ok(Some(settled))
            },
            Step::Tag { branch, name } => {
                let tip = self.repo.branch_tip(branch.as_str())?;
                self.repo.tag(&tip, name.as_str())?;
                Ok(None)
            },
            Step::Delete(name) => {
                self.repo.delete_branch(name.as_str())?;
                Ok(None)
            },
        }
    }

    /// Carries the steps of `plan` out in their order and stops at the first
    /// that fails; no step after it is tried.
    pub fn run(&self, plan: &Vec<Step>) -> (r: RunReport)
        ensures
            r.describes(plan@),
    {
        let mut performed: usize = 0;
        let mut merges: Vec<MergeOutcome> = Vec::new();
        assert(plan@.take(0) =~= Seq::<Step>::empty());
        while performed < plan.len()
            invariant
                performed <= plan.len(),
                merges@.len() == spec_merge_count(plan@.take(performed as int)),
                forall|i: int| 0 <= i < merges@.len() ==> !(#[trigger] merges@[i]).is_conflict(),
            decreases plan.len() - performed,
        {
            assert(plan@.take(performed + 1).drop_last() =~= plan@.take(performed as int));
            assert(plan@.take(performed + 1).last() == plan@[performed as int]);
            match self.perform(&plan[performed]) {
                Err(e) => {
                    return RunReport { performed, merges, failure: Some(e) };
                },
                Ok(None) => {},
                Ok(Some(outcome)) => {
                    merges.push(outcome);
                },
            }
            performed += 1;
        }
        RunReport { performed, merges, failure: None }
    }

    /// Sets the repository up for the workflow.
    ///
    /// A repository without commits gets a first commit without parents, so
    /// that the development branch has something to point at; one with
    /// commits gets none. All nine settings are stored, each with the user's
    /// answer or its default. The development branch is created at the
    /// current head, unless it is there already, and checked out. After
    /// that the engine is ready.
    pub fn init(&mut self, answers: &InitAnswers) -> (r: Result<Option<CommitId>, GFError>)
        ensures
            r is Ok ==> final(self).state == EngineState::Ready,
            r is Err ==> final(self).state == old(self).state,
            final(self).branch_suffix == old(self).branch_suffix,
            final(self).repo == old(self).repo,
            r matches Err(e) ==> GFWork::init_may_fail_with(e@),
    {
        let root = self.repo.init()?;
        self.config(answers)?;
        let develop = self.get_develop()?;
        tolerate_existing(self.repo.branch(develop.as_str()))?;
        self.repo.checkout(develop.as_str())?;
        self.state = EngineState::Ready;
        Ok(root)
    }

    /// Starts a branch of the kind `cmd`: creates it under its full name at
    /// the current head and checks it out. A name that is taken is refused;
    /// nothing is merged. Returns the full name. A start never reaches a
    /// remote, whatever `fetch` says.
    pub fn start(&self, cmd: GFBranch, fetch: bool) -> (r: Result<String, GFError>)
        ensures
            self.state == EngineState::Uninitialized ==> (r matches Err(e) && e@ == ErrorView::State),
            r matches Err(e) && e@ is State ==> self.state == EngineState::Uninitialized,
            r matches Ok(name) ==> ends_with(name@, self.branch_suffix@),
            r matches Err(e) ==> self.start_may_fail_with(cmd, e@),
    {
        self.state.after(GFSubCmd::Start)?;
        let branch = self.cat_gfbranch(cmd)?;
        let plan = start_plan(branch.as_str());
        let report = self.run(&plan);
        match report.failure {
            Some(e) => {
                proof {
                    let k = report.performed as int;
                    assert(plan_view(plan@).len() == 2);
                    assert(0 <= k < 2);
                    assert(plan_view(plan@)[k] == plan@[k]@);
                    assert(plan@[k].may_fail_with(e@));
                    assert(plan@[k] is Create || plan@[k] is Checkout);
                    if plan@[k] is Create {
                        assert(plan@[k]->Create_0@ == branch@);
                    }
                }
                Err(e)
            },
            None => Ok(branch),
        }
    }

    /// Finishes the branch of the kind `cmd` that the engine works on.
    ///
    /// A release or a hotfix is merged into the production branch with
    /// `message`, the production branch is tagged where `tag` names a tag,
    /// and the production branch is merged into the development branch. Any
    /// other kind is merged into the development branch with `message`; a
    /// tag is not set for it. The branch is deleted last, and only when
    /// every merge went through: a merge that leaves conflicts stops the
    /// finish there, with the branch in place.
    pub fn finish(&self, cmd: GFBranch, message: &str, tag: Option<&str>) -> (r: Result<
        FinishReport,
        GFError,
    >)
        ensures
            self.state == EngineState::Uninitialized ==> (r matches Err(e) && e@ == ErrorView::State),
            r matches Err(e) && e@ is State ==> self.state == EngineState::Uninitialized,
            r matches Err(e) ==> self.finish_may_fail_with(cmd, option_text(tag), e@),
            r matches Ok(report) ==> {
                &&& ends_with(report.branch@, self.branch_suffix@)
                &&& report.merges@.len() == if cmd.spec_lands_on_master() {
                    2int
                } else {
                    1int
                }
                &&& forall|i: int|
                    0 <= i < report.merges@.len() ==> !(#[trigger] report.merges@[i]).is_conflict()
                &&& option_string_text(report.tag) == if cmd.spec_lands_on_master() {
                    option_text(tag)
                } else {
                    None
                }
            },
    {
        self.state.after(GFSubCmd::Finish)?;
        let branch = self.cat_gfbranch(cmd)?;
        let master = if cmd.lands_on_master() {
            self.get_master()?
        } else {
            String::new()
        };
        let develop = self.get_develop()?;
        let plan = finish_plan(
            cmd,
            branch.as_str(),
            master.as_str(),
            develop.as_str(),
            message,
            tag,
        );
        let report = self.run(&plan);
        match report.failure {
            Some(e) => {
                proof {
                    let k = report.performed as int;
                    assert(plan_view(plan@)[k] == plan@[k]@);
                    lemma_finish_steps(
                        cmd,
                        branch@,
                        master@,
                        develop@,
                        message@,
                        option_text(tag),
                        k,
                    );
                    assert(plan@[k].may_fail_with(e@));
                }
                Err(e)
            },
            None => {
                proof {
                    assert(plan@.take(plan@.len() as int) =~= plan@);
                    lemma_merge_count_by_view(plan@);
                    if cmd.spec_lands_on_master() {
                        lemma_finish_release_order(
                            cmd,
                            branch@,
                            master@,
                            develop@,
                            message@,
                            option_text(tag),
                        );
                    } else {
                        lemma_finish_topic_order(
                            cmd,
                            branch@,
                            master@,
                            develop@,
                            message@,
                            option_text(tag),
                        );
                    }
                }
                let set = if cmd.lands_on_master() {
                    match tag {
                        Some(name) => Some(String::from_str(name)),
                        None => None,
                    }
                } else {
                    None
                };
                Ok(FinishReport { branch, merges: report.merges, tag: set })
            },
        }
    }

    /// Runs one command: notes the branch it names and sets up, starts or
    /// finishes as the command says.
    pub fn execute(&mut self, command: WorkflowCommand) -> (r: Result<CommandReport, GFError>)
        ensures
            old(self).state.spec_after(command.spec_phase()) is None ==> (r matches Err(e) && e@
                == ErrorView::State),
            r matches Err(e) && e@ is State ==> old(self).state.spec_after(command.spec_phase())
                is None,
            match command {
                WorkflowCommand::Init(_) => final(self).branch_suffix == old(self).branch_suffix && (
                r is Err ==> final(self).state == old(self).state),
                WorkflowCommand::Start { kind, suffix } => final(self).branch_suffix@ == suffix@
                    && final(self).state == old(self).state,
                WorkflowCommand::Finish { kind, suffix, message, tag } => final(self).branch_suffix@
                    == suffix@ && final(self).state == old(self).state,
            },
            r matches Err(e) ==> match command {
                WorkflowCommand::Init(_) => GFWork::init_may_fail_with(e@),
                WorkflowCommand::Start { kind, suffix } => final(self).start_may_fail_with(kind, e@),
                WorkflowCommand::Finish { kind, suffix, message, tag } => final(self)
                    .finish_may_fail_with(kind, option_string_text(tag), e@),
            },
            r matches Ok(report) ==> match command {
                WorkflowCommand::Init(_) => report is Initialized && final(self).state
                    == EngineState::Ready,
                WorkflowCommand::Start { kind, suffix } => report matches CommandReport::Started(
                    name,
                ) && ends_with(name@, suffix@),
                WorkflowCommand::Finish { kind, suffix, message, tag } => report
                    matches CommandReport::Finished(done) && ends_with(done.branch@, suffix@),
            },
            final(self).repo == old(self).repo,
    {
        match command {
            WorkflowCommand::Init(answers) => {
                let root = self.init(&answers)?;
                Ok(CommandReport::Initialized(root))
            },
            WorkflowCommand::Start { kind, suffix } => {
                self.set_branch_suffix(suffix.as_str());
                let name = self.start(kind, false)?;
                Ok(CommandReport::Started(name))
            },
            WorkflowCommand::Finish { kind, suffix, message, tag } => {
                self.set_branch_suffix(suffix.as_str());
                let tag = match &tag {
                    Some(name) => Some(name.as_str()),
                    None => None,
                };
                let done = self.finish(kind, message.as_str(), tag)?;
                Ok(CommandReport::Finished(done))
            },
        }
    }
}

} // verus!
