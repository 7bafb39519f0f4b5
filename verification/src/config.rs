//! The nine configuration keys of the workflow, their names in the
//! repository's configuration and the values they take when the user gives
//! none.

use vstd::prelude::*;
use crate::kind::{lemma_kind_names_differ, GFBranch};

verus! {

/// One of the nine settings that the workflow keeps in the repository's
/// configuration.
#[derive(Debug, Clone, Copy, PartialEq, Eq, Structural)]
pub enum ConfigKey {
    /// The name of the branch that holds production releases.
    Master,
    /// The name of the branch on which the next release is developed.
    Develop,
    /// The prefix of the branches of one kind.
    Prefix(GFBranch),
    /// The prefix of version tags.
    VersionTag,
    /// The directory of hooks and filters.
    Hooks,
}

impl ConfigKey {
    /// The name under which this setting is stored.
    pub open spec fn spec_name(self) -> Seq<char> {
        match self {
            ConfigKey::Master => "gitflow.branch.master"@,
            ConfigKey::Develop => "gitflow.branch.develop"@,
            ConfigKey::Prefix(kind) => "gitflow.prefix."@ + kind.spec_name(),
            ConfigKey::VersionTag => "gitflow.prefix.versiontag"@,
            ConfigKey::Hooks => "gitflow.path.hooks"@,
        }
    }

    /// The name under which this setting is stored.
    pub fn name(self) -> (r: String)
        ensures
            r@ == self.spec_name(),
    {
        match self {
            ConfigKey::Master => String::from_str("gitflow.branch.master"),
            ConfigKey::Develop => String::from_str("gitflow.branch.develop"),
            ConfigKey::Prefix(kind) => String::from_str("gitflow.prefix.").concat(kind.name()),
            ConfigKey::VersionTag => String::from_str("gitflow.prefix.versiontag"),
            ConfigKey::Hooks => String::from_str("gitflow.path.hooks"),
        }
    }

    /// The value that this setting takes when the user gives none, in a
    /// repository whose working directory is `workdir`.
    pub open spec fn spec_default_value(self, workdir: Seq<char>) -> Seq<char> {
        match self {
            ConfigKey::Master => "master"@,
            ConfigKey::Develop => "develop"@,
            ConfigKey::Prefix(kind) => kind.spec_name() + "/"@,
            ConfigKey::VersionTag => ""@,
            ConfigKey::Hooks => workdir + ".git/hooks"@,
        }
    }

    /// The value that this setting takes when the user gives none.
    pub fn default_value(self, workdir: &str) -> (r: String)
        ensures
            r@ == self.spec_default_value(workdir@),
    {
        match self {
            ConfigKey::Master => String::from_str("master"),
            ConfigKey::Develop => String::from_str("develop"),
            ConfigKey::Prefix(kind) => String::from_str(kind.name()).concat("/"),
            ConfigKey::VersionTag => String::from_str(""),
            ConfigKey::Hooks => String::from_str(workdir).concat(".git/hooks"),
        }
    }
}

/// The key that holds the prefix of the branches of `kind`.
pub fn prefix_key(kind: GFBranch) -> (r: String)
    ensures
        r@ == ConfigKey::Prefix(kind).spec_name(),
        r@ == "gitflow.prefix."@ + kind.spec_name(),
{
    ConfigKey::Prefix(kind).name()
}

/// The value that is stored for an answer: the answer itself, or the default
/// where the answer is empty.
pub open spec fn spec_or_default(answer: Seq<char>, default: Seq<char>) -> Seq<char> {
    if answer.len() == 0 {
        default
    } else {
        answer
    }
}

/// The value that is stored for an answer: the answer as it stands, or the
/// default where the answer is empty.
pub fn or_default(answer: &str, default: &str) -> (r: String)
    ensures
        r@ == spec_or_default(answer@, default@),
{
    if answer.is_empty() {
        String::from_str(default)
    } else {
        String::from_str(answer)
    }
}

/// What the user answered to the nine questions of the setup. An empty
/// answer stands for the default.
#[derive(Debug, Clone, PartialEq, Eq)]
pub struct InitAnswers {
    pub master: String,
    pub develop: String,
    pub feature: String,
    pub bugfix: String,
    pub release: String,
    pub hotfix: String,
    pub support: String,
    pub versiontag: String,
    pub hooks: String,
}

impl InitAnswers {
    /// The answers of a user who takes every default.
    pub fn defaults() -> (r: InitAnswers)
        ensures
            forall|key: ConfigKey| #[trigger] r.spec_answer(key).len() == 0,
    {
        InitAnswers {
            master: String::new(),
            develop: String::new(),
            feature: String::new(),
            bugfix: String::new(),
            release: String::new(),
            hotfix: String::new(),
            support: String::new(),
            versiontag: String::new(),
            hooks: String::new(),
        }
    }

    /// The answer given for one setting.
    pub open spec fn spec_answer(self, key: ConfigKey) -> Seq<char> {
        match key {
            ConfigKey::Master => self.master@,
            ConfigKey::Develop => self.develop@,
            ConfigKey::Prefix(GFBranch::Feature) => self.feature@,
            ConfigKey::Prefix(GFBranch::Bugfix) => self.bugfix@,
            ConfigKey::Prefix(GFBranch::Release) => self.release@,
            ConfigKey::Prefix(GFBranch::Hotfix) => self.hotfix@,
            ConfigKey::Prefix(GFBranch::Support) => self.support@,
            ConfigKey::VersionTag => self.versiontag@,
            ConfigKey::Hooks => self.hooks@,
        }
    }

    /// The answer given for one setting.
    pub fn answer(&self, key: ConfigKey) -> (r: &str)
        ensures
            r@ == self.spec_answer(key),
    {
        match key {
            ConfigKey::Master => self.master.as_str(),
            ConfigKey::Develop => self.develop.as_str(),
            ConfigKey::Prefix(GFBranch::Feature) => self.feature.as_str(),
            ConfigKey::Prefix(GFBranch::Bugfix) => self.bugfix.as_str(),
            ConfigKey::Prefix(GFBranch::Release) => self.release.as_str(),
            ConfigKey::Prefix(GFBranch::Hotfix) => self.hotfix.as_str(),
            ConfigKey::Prefix(GFBranch::Support) => self.support.as_str(),
            ConfigKey::VersionTag => self.versiontag.as_str(),
            ConfigKey::Hooks => self.hooks.as_str(),
        }
    }

    /// The value that the setup stores for one setting: the answer as it
    /// stands, or the default where the answer is empty.
    pub open spec fn spec_value(self, key: ConfigKey, workdir: Seq<char>) -> Seq<char> {
        spec_or_default(self.spec_answer(key), key.spec_default_value(workdir))
    }

    /// The value that the setup stores for one setting.
    pub fn value(&self, key: ConfigKey, workdir: &str) -> (r: String)
        ensures
            r@ == self.spec_value(key, workdir@),
    {
        let default = key.default_value(workdir);
        or_default(self.answer(key), default.as_str())
    }
}

/// The settings in the order in which the setup asks for them and stores
/// them.
pub open spec fn spec_setup_order() -> Seq<ConfigKey> {
    seq![
        ConfigKey::Master,
        ConfigKey::Develop,
        ConfigKey::Prefix(GFBranch::Feature),
        ConfigKey::Prefix(GFBranch::Bugfix),
        ConfigKey::Prefix(GFBranch::Release),
        ConfigKey::Prefix(GFBranch::Hotfix),
        ConfigKey::Prefix(GFBranch::Support),
        ConfigKey::VersionTag,
        ConfigKey::Hooks,
    ]
}

/// The settings in the order in which the setup asks for them and stores
/// them.
pub fn setup_order() -> (r: Vec<ConfigKey>)
    ensures
        r@ == spec_setup_order(),
{
    let r = vec![
        ConfigKey::Master,
        ConfigKey::Develop,
        ConfigKey::Prefix(GFBranch::Feature),
        ConfigKey::Prefix(GFBranch::Bugfix),
        ConfigKey::Prefix(GFBranch::Release),
        ConfigKey::Prefix(GFBranch::Hotfix),
        ConfigKey::Prefix(GFBranch::Support),
        ConfigKey::VersionTag,
        ConfigKey::Hooks,
    ];
    assert(r@ =~= spec_setup_order());
    r
}

/// The setup asks for every setting, and for each once.
pub proof fn lemma_setup_order_complete(key: ConfigKey)
    ensures
        spec_setup_order().len() == 9,
        exists|i: int| 0 <= i < 9 && spec_setup_order()[i] == key,
        forall|i: int, j: int| 0 <= i < j < 9 ==> spec_setup_order()[i] != spec_setup_order()[j],
{
    let order = spec_setup_order();
    match key {
        ConfigKey::Master => assert(order[0] == key),
        ConfigKey::Develop => assert(order[1] == key),
        ConfigKey::Prefix(GFBranch::Feature) => assert(order[2] == key),
        ConfigKey::Prefix(GFBranch::Bugfix) => assert(order[3] == key),
        ConfigKey::Prefix(GFBranch::Release) => assert(order[4] == key),
        ConfigKey::Prefix(GFBranch::Hotfix) => assert(order[5] == key),
        ConfigKey::Prefix(GFBranch::Support) => assert(order[6] == key),
        ConfigKey::VersionTag => assert(order[7] == key),
        ConfigKey::Hooks => assert(order[8] == key),
    }
}

/// A user who answers nothing gets the documented default for every setting,
/// and an answer that is not empty is stored as it stands.
pub proof fn lemma_prompt_or_default(answers: InitAnswers, key: ConfigKey, workdir: Seq<char>)
    ensures
        answers.spec_answer(key).len() == 0 ==> answers.spec_value(key, workdir)
            == key.spec_default_value(workdir),
        answers.spec_answer(key).len() > 0 ==> answers.spec_value(key, workdir)
            == answers.spec_answer(key),
{
}

/// No two settings are stored under one name.
pub proof fn lemma_key_names_differ(a: ConfigKey, b: ConfigKey)
    requires
        a.spec_name() == b.spec_name(),
    ensures
        a == b,
{
    reveal_strlit("gitflow.branch.master");
    reveal_strlit("gitflow.branch.develop");
    reveal_strlit("gitflow.prefix.");
    reveal_strlit("gitflow.prefix.versiontag");
    reveal_strlit("gitflow.path.hooks");
    reveal_strlit("feature");
    reveal_strlit("bugfix");
    reveal_strlit("hotfix");
    reveal_strlit("release");
    reveal_strlit("support");
    let x = a.spec_name();
    let y = b.spec_name();
    assert("gitflow.branch.master"@.len() == 21 && "gitflow.branch.master"@[8] == 'b');
    assert("gitflow.branch.develop"@.len() == 22 && "gitflow.branch.develop"@[8] == 'b');
    assert("gitflow.prefix.versiontag"@.len() == 25 && "gitflow.prefix.versiontag"@[9] == 'r');
    assert("gitflow.path.hooks"@.len() == 18 && "gitflow.path.hooks"@[9] == 'a');
    assert("gitflow.prefix."@.len() == 15 && "gitflow.prefix."@[8] == 'p' && "gitflow.prefix."@[9]
        == 'r');
    assert("gitflow.branch.master"@[9] == 'r' && "gitflow.branch.develop"@[9] == 'r');
    assert("gitflow.prefix.versiontag"@[8] == 'p' && "gitflow.path.hooks"@[8] == 'p');
    assert forall|k: GFBranch| 6 <= (#[trigger] k.spec_name()).len() <= 7 by {
        assert("feature"@.len() == 7 && "bugfix"@.len() == 6 && "hotfix"@.len() == 6 && "release"@.len()
            == 7 && "support"@.len() == 7);
    }
    match (a, b) {
        (ConfigKey::Prefix(j), ConfigKey::Prefix(k)) => {
            let head = "gitflow.prefix."@;
            assert(x.subrange(15, x.len() as int) =~= j.spec_name());
            assert(y.subrange(15, y.len() as int) =~= k.spec_name());
            lemma_kind_names_differ(j, k);
        },
        (ConfigKey::Prefix(j), _) => {
            assert(x.len() == 15 + j.spec_name().len());
            assert(x[8] == 'p' && x[9] == 'r');
        },
        (_, ConfigKey::Prefix(k)) => {
            assert(y.len() == 15 + k.spec_name().len());
            assert(y[8] == 'p' && y[9] == 'r');
        },
        _ => {},
    }
}

} // verus!
