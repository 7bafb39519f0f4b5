//! The closed set of branch kinds and the workflow phases.

use vstd::prelude::*;

verus! {

/// The kind of a supporting branch.
#[derive(Debug, Clone, Copy, PartialEq, Eq, Structural)]
pub enum GFBranch {
    Feature,
    Bugfix,
    Hotfix,
    Release,
    Support,
}

/// The phase of the workflow that a command runs.
#[derive(Debug, Clone, Copy, PartialEq, Eq, Structural)]
pub enum GFSubCmd {
    Init,
    Start,
    Finish,
}

/// Whether two strings hold the same characters.
pub fn same_text(a: &str, b: &str) -> (r: bool)
    ensures
        r == (a@ == b@),
{
    let x = String::from_str(a);
    let y = String::from_str(b);
    x == y
}

impl GFSubCmd {
    /// The word that names this phase on the command line.
    pub open spec fn spec_name(self) -> Seq<char> {
        match self {
            GFSubCmd::Init => "init"@,
            GFSubCmd::Start => "start"@,
            GFSubCmd::Finish => "finish"@,
        }
    }

    /// The word that names this phase on the command line.
    pub fn name(self) -> (r: &'static str)
        ensures
            r@ == self.spec_name(),
    {
        match self {
            GFSubCmd::Init => "init",
            GFSubCmd::Start => "start",
            GFSubCmd::Finish => "finish",
        }
    }

    /// The phase that a word names, if it names one.
    pub fn from_name(word: &str) -> (r: Option<GFSubCmd>)
        ensures
            match r {
                Some(p) => p.spec_name() == word@,
                None => forall|p: GFSubCmd| p.spec_name() != word@,
            },
    {
        if same_text(word, "init") {
            Some(GFSubCmd::Init)
        } else if same_text(word, "start") {
            Some(GFSubCmd::Start)
        } else if same_text(word, "finish") {
            Some(GFSubCmd::Finish)
        } else {
            None
        }
    }
}

impl GFBranch {
    /// The name of the command-line argument that holds what the user calls
    /// a branch of this kind.
    pub open spec fn spec_arg_name(self) -> Seq<char> {
        self.spec_name() + "_name"@
    }

    /// The name of the command-line argument that holds what the user calls
    /// a branch of this kind.
    pub fn arg_name(self) -> (r: String)
        ensures
            r@ == self.spec_arg_name(),
    {
        String::from_str(self.name()).concat("_name")
    }

    /// The word that names this kind on the command line and in the
    /// configuration.
    pub open spec fn spec_name(self) -> Seq<char> {
        match self {
            GFBranch::Feature => "feature"@,
            GFBranch::Bugfix => "bugfix"@,
            GFBranch::Hotfix => "hotfix"@,
            GFBranch::Release => "release"@,
            GFBranch::Support => "support"@,
        }
    }

    /// The word that names this kind.
    pub fn name(self) -> (r: &'static str)
        ensures
            r@ == self.spec_name(),
    {
        match self {
            GFBranch::Feature => "feature",
            GFBranch::Bugfix => "bugfix",
            GFBranch::Hotfix => "hotfix",
            GFBranch::Release => "release",
            GFBranch::Support => "support",
        }
    }

    /// The kind that a word names, if it names one.
    pub fn from_name(word: &str) -> (r: Option<GFBranch>)
        ensures
            match r {
                Some(k) => k.spec_name() == word@,
                None => forall|k: GFBranch| k.spec_name() != word@,
            },
    {
        if same_text(word, "feature") {
            Some(GFBranch::Feature)
        } else if same_text(word, "bugfix") {
            Some(GFBranch::Bugfix)
        } else if same_text(word, "hotfix") {
            Some(GFBranch::Hotfix)
        } else if same_text(word, "release") {
            Some(GFBranch::Release)
        } else if same_text(word, "support") {
            Some(GFBranch::Support)
        } else {
            None
        }
    }

    /// Whether finishing a branch of this kind goes through the production
    /// branch before it reaches the development branch.
    pub open spec fn spec_lands_on_master(self) -> bool {
        self == GFBranch::Release || self == GFBranch::Hotfix
    }

    /// Whether finishing a branch of this kind goes through the production
    /// branch before it reaches the development branch.
    #[verifier::when_used_as_spec(spec_lands_on_master)]
    pub fn lands_on_master(self) -> (r: bool)
        ensures
            r == self.spec_lands_on_master(),
    {
        match self {
            GFBranch::Release | GFBranch::Hotfix => true,
            _ => false,
        }
    }
}

/// Two kinds that share a name are the same kind.
pub proof fn lemma_kind_names_differ(a: GFBranch, b: GFBranch)
    requires
        a.spec_name() == b.spec_name(),
    ensures
        a == b,
{
    reveal_strlit("feature");
    reveal_strlit("bugfix");
    reveal_strlit("hotfix");
    reveal_strlit("release");
    reveal_strlit("support");
    assert("feature"@.len() == 7 && "feature"@[0] == 'f');
    assert("bugfix"@.len() == 6 && "bugfix"@[0] == 'b');
    assert("hotfix"@.len() == 6 && "hotfix"@[0] == 'h');
    assert("release"@.len() == 7 && "release"@[0] == 'r');
    assert("support"@.len() == 7 && "support"@[0] == 's');
}

} // verus!
