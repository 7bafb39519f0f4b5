use git_flow::config::{or_default, prefix_key, setup_order, ConfigKey, InitAnswers};
use git_flow::error::{GFError, GitClass, GitCode, GitFailure};
use git_flow::gf::{tolerate_existing, EngineState, WorkflowCommand};
use git_flow::kind::{same_text, GFBranch, GFSubCmd};
use git_flow::merge::{
    commit_parents, conflict_paths, forward_action, merge_parents, ConflictEntry, ForwardAction,
    MergeAnalysis, MergeOutcome, MergeStrategy,
};
use git_flow::names::{
    back_merge_message, branch_name, fast_forward_message, heads_ref, named_tag, publish_message,
    pull_message,
};
use git_flow::gitc::require_workdir;
use git_flow::object::{BranchEntry, CommitId, Identity};
use git_flow::plan::{finish_plan, start_plan, Step};
use git_flow::transfer::{ProgressLine, TransferStats, TransferSummary};
use git_flow::utils::{require_head, search_head, HeadSearch};

const KINDS: [GFBranch; 5] = [
    GFBranch::Feature,
    GFBranch::Bugfix,
    GFBranch::Hotfix,
    GFBranch::Release,
    GFBranch::Support,
];

fn failure(code: GitCode, class: GitClass) -> GitFailure {
    GitFailure { code, class, message: "boom".to_string() }
}

#[test]
fn kind_names() {
    let names = ["feature", "bugfix", "hotfix", "release", "support"];
    for (kind, name) in KINDS.iter().zip(names) {
        assert_eq!(kind.name(), name);
        assert_eq!(GFBranch::from_name(name), Some(*kind));
        assert_eq!(kind.arg_name(), format!("{}_name", name));
    }
    assert_eq!(GFBranch::from_name("Feature"), None);
    assert_eq!(GFBranch::from_name(""), None);
    assert_eq!(GFBranch::from_name("features"), None);
}

#[test]
fn phase_names() {
    assert_eq!(GFSubCmd::Init.name(), "init");
    assert_eq!(GFSubCmd::Start.name(), "start");
    assert_eq!(GFSubCmd::Finish.name(), "finish");
    assert_eq!(GFSubCmd::from_name("init"), Some(GFSubCmd::Init));
    assert_eq!(GFSubCmd::from_name("start"), Some(GFSubCmd::Start));
    assert_eq!(GFSubCmd::from_name("finish"), Some(GFSubCmd::Finish));
    assert_eq!(GFSubCmd::from_name("list"), None);
}

#[test]
fn same_text_compares_characters() {
    assert!(same_text("abc", "abc"));
    assert!(same_text("", ""));
    assert!(!same_text("abc", "abd"));
    assert!(!same_text("abc", "ab"));
}

#[test]
fn only_release_and_hotfix_land_on_master() {
    assert!(GFBranch::Release.lands_on_master());
    assert!(GFBranch::Hotfix.lands_on_master());
    assert!(!GFBranch::Feature.lands_on_master());
    assert!(!GFBranch::Bugfix.lands_on_master());
    assert!(!GFBranch::Support.lands_on_master());
}

#[test]
fn config_key_names() {
    assert_eq!(ConfigKey::Master.name(), "gitflow.branch.master");
    assert_eq!(ConfigKey::Develop.name(), "gitflow.branch.develop");
    assert_eq!(ConfigKey::Prefix(GFBranch::Feature).name(), "gitflow.prefix.feature");
    assert_eq!(ConfigKey::Prefix(GFBranch::Bugfix).name(), "gitflow.prefix.bugfix");
    assert_eq!(ConfigKey::Prefix(GFBranch::Hotfix).name(), "gitflow.prefix.hotfix");
    assert_eq!(ConfigKey::Prefix(GFBranch::Release).name(), "gitflow.prefix.release");
    assert_eq!(ConfigKey::Prefix(GFBranch::Support).name(), "gitflow.prefix.support");
    assert_eq!(ConfigKey::VersionTag.name(), "gitflow.prefix.versiontag");
    assert_eq!(ConfigKey::Hooks.name(), "gitflow.path.hooks");
    for kind in KINDS {
        assert_eq!(prefix_key(kind), ConfigKey::Prefix(kind).name());
    }
}

#[test]
fn config_key_names_are_distinct() {
    let names: Vec<String> = setup_order().iter().map(|k| k.name()).collect();
    assert_eq!(names.len(), 9);
    for i in 0..names.len() {
        for j in 0..i {
            assert_ne!(names[i], names[j]);
        }
    }
}

#[test]
fn config_defaults() {
    assert_eq!(ConfigKey::Master.default_value("/w/"), "master");
    assert_eq!(ConfigKey::Develop.default_value("/w/"), "develop");
    assert_eq!(ConfigKey::Prefix(GFBranch::Feature).default_value("/w/"), "feature/");
    assert_eq!(ConfigKey::Prefix(GFBranch::Bugfix).default_value("/w/"), "bugfix/");
    assert_eq!(ConfigKey::Prefix(GFBranch::Hotfix).default_value("/w/"), "hotfix/");
    assert_eq!(ConfigKey::Prefix(GFBranch::Release).default_value("/w/"), "release/");
    assert_eq!(ConfigKey::Prefix(GFBranch::Support).default_value("/w/"), "support/");
    assert_eq!(ConfigKey::VersionTag.default_value("/w/"), "");
    assert_eq!(ConfigKey::Hooks.default_value("/w/"), "/w/.git/hooks");
}

#[test]
fn setup_asks_in_order() {
    assert_eq!(
        setup_order(),
        vec![
            ConfigKey::Master,
            ConfigKey::Develop,
            ConfigKey::Prefix(GFBranch::Feature),
            ConfigKey::Prefix(GFBranch::Bugfix),
            ConfigKey::Prefix(GFBranch::Release),
            ConfigKey::Prefix(GFBranch::Hotfix),
            ConfigKey::Prefix(GFBranch::Support),
            ConfigKey::VersionTag,
            ConfigKey::Hooks,
        ]
    );
}

#[test]
fn empty_answer_takes_default() {
    assert_eq!(or_default("", "master"), "master");
    assert_eq!(or_default("main", "master"), "main");
    assert_eq!(or_default(" ", "master"), " ");
    assert_eq!(or_default("", ""), "");
}

#[test]
fn answers_override_defaults_one_by_one() {
    let mut answers = InitAnswers::defaults();
    for key in setup_order() {
        assert_eq!(answers.answer(key), "");
        assert_eq!(answers.value(key, "/w/"), key.default_value("/w/"));
    }
    answers.master = "main".to_string();
    answers.hotfix = "hot-".to_string();
    answers.versiontag = "v".to_string();
    answers.hooks = "/hooks".to_string();
    assert_eq!(answers.value(ConfigKey::Master, "/w/"), "main");
    assert_eq!(answers.value(ConfigKey::Develop, "/w/"), "develop");
    assert_eq!(answers.value(ConfigKey::Prefix(GFBranch::Hotfix), "/w/"), "hot-");
    assert_eq!(answers.value(ConfigKey::Prefix(GFBranch::Release), "/w/"), "release/");
    assert_eq!(answers.value(ConfigKey::VersionTag, "/w/"), "v");
    assert_eq!(answers.value(ConfigKey::Hooks, "/w/"), "/hooks");
    assert_eq!(answers.answer(ConfigKey::Prefix(GFBranch::Hotfix)), "hot-");
}

#[test]
fn exit_codes() {
    assert_eq!(GFError::Generic("x".to_string()).exit_code(), 1);
    assert_eq!(GFError::NoHead.exit_code(), 2);
    assert_eq!(GFError::Git(failure(GitCode::Other, GitClass::Other)).exit_code(), 3);
    assert_eq!(GFError::Io("x".to_string()).exit_code(), 4);
    assert_eq!(GFError::ConfigMissing("k".to_string()).exit_code(), 1);
    assert_eq!(GFError::State.exit_code(), 1);
    assert_eq!(GFError::NoActiveKind.exit_code(), 1);
    assert_eq!(GFError::BranchExists("b".to_string()).exit_code(), 1);
    assert_eq!(GFError::BranchNotFound("b".to_string()).exit_code(), 1);
    assert_eq!(GFError::MergeConflict(vec![]).exit_code(), 1);
}

#[test]
fn error_messages() {
    assert_eq!(GFError::Generic("x".to_string()).message(), "`x`");
    assert_eq!(GFError::NoHead.message(), "git: no head found");
    assert_eq!(GFError::Io("disk".to_string()).message(), "io error:disk");
    assert_eq!(
        GFError::Git(failure(GitCode::Other, GitClass::Other)).message(),
        "git error:boom"
    );
    assert_eq!(
        GFError::ConfigMissing("gitflow.prefix.feature".to_string()).message(),
        "configuration key is not set: gitflow.prefix.feature"
    );
    assert_eq!(GFError::State.message(), "the workflow is not set up: run init first");
    assert_eq!(GFError::NoActiveKind.message(), "no branch kind was given");
    assert_eq!(
        GFError::BranchExists("feature/x".to_string()).message(),
        "branch exists already: feature/x"
    );
    assert_eq!(
        GFError::BranchNotFound("feature/x".to_string()).message(),
        "branch not found: feature/x"
    );
    assert_eq!(
        GFError::MergeConflict(vec!["a".to_string()]).message(),
        "merge conflict: resolve it, the branch was kept"
    );
}

#[test]
fn backend_failures_are_sorted() {
    assert!(matches!(
        GFError::backend(failure(GitCode::Other, GitClass::Os)),
        GFError::Io(m) if m == "boom"
    ));
    assert!(matches!(
        GFError::backend(failure(GitCode::NotFound, GitClass::Os)),
        GFError::Io(_)
    ));
    match GFError::backend(failure(GitCode::Exists, GitClass::Other)) {
        GFError::Git(f) => {
            assert_eq!(f.code, GitCode::Exists);
            assert_eq!(f.class, GitClass::Other);
            assert_eq!(f.message, "boom");
        },
        other => panic!("unexpected: {:?}", other),
    }
}

#[test]
fn failures_take_their_meaning_from_the_operation() {
    assert!(matches!(
        GFError::reading_config("k", failure(GitCode::NotFound, GitClass::Other)),
        GFError::ConfigMissing(k) if k == "k"
    ));
    assert!(matches!(
        GFError::reading_config("k", failure(GitCode::Exists, GitClass::Other)),
        GFError::Git(_)
    ));
    assert!(matches!(
        GFError::reading_config("k", failure(GitCode::Other, GitClass::Os)),
        GFError::Io(_)
    ));
    assert!(matches!(
        GFError::creating_branch("b", failure(GitCode::Exists, GitClass::Other)),
        GFError::BranchExists(b) if b == "b"
    ));
    assert!(matches!(
        GFError::creating_branch("b", failure(GitCode::NotFound, GitClass::Other)),
        GFError::Git(_)
    ));
    assert!(matches!(
        GFError::finding_branch("b", failure(GitCode::NotFound, GitClass::Other)),
        GFError::BranchNotFound(b) if b == "b"
    ));
    assert!(matches!(
        GFError::finding_branch("b", failure(GitCode::Other, GitClass::Other)),
        GFError::Git(_)
    ));
    assert!(matches!(
        GFError::reading_head(failure(GitCode::UnbornBranch, GitClass::Other)),
        GFError::NoHead
    ));
    assert!(matches!(
        GFError::reading_head(failure(GitCode::NotFound, GitClass::Other)),
        GFError::NoHead
    ));
    assert!(matches!(
        GFError::reading_head(failure(GitCode::Other, GitClass::Other)),
        GFError::Git(_)
    ));
}

#[test]
fn strategy_prefers_fast_forward() {
    for bits in 0..16u8 {
        let analysis = MergeAnalysis {
            fast_forward: bits & 1 != 0,
            normal: bits & 2 != 0,
            up_to_date: bits & 4 != 0,
            unborn: bits & 8 != 0,
        };
        let expected = if analysis.fast_forward {
            MergeStrategy::FastForward
        } else if analysis.normal {
            MergeStrategy::Normal
        } else {
            MergeStrategy::Nothing
        };
        assert_eq!(analysis.strategy(), expected);
    }
    let both = MergeAnalysis { fast_forward: true, normal: true, up_to_date: false, unborn: false };
    assert_eq!(both.strategy(), MergeStrategy::FastForward);
}

#[test]
fn conflicts_are_reported_by_one_path_each() {
    let entry = |a: Option<&str>, o: Option<&str>, t: Option<&str>| ConflictEntry {
        ancestor: a.map(String::from),
        ours: o.map(String::from),
        theirs: t.map(String::from),
    };
    assert_eq!(entry(Some("a"), Some("o"), Some("t")).path(), Some("o".to_string()));
    assert_eq!(entry(Some("a"), None, Some("t")).path(), Some("t".to_string()));
    assert_eq!(entry(Some("a"), None, None).path(), Some("a".to_string()));
    assert_eq!(entry(None, None, None).path(), None);
    let entries = vec![
        entry(Some("x"), Some("x"), Some("x")),
        entry(None, None, None),
        entry(None, None, Some("added-by-them")),
        entry(Some("gone"), None, None),
    ];
    assert_eq!(conflict_paths(&entries), vec!["x", "added-by-them", "gone"]);
    assert_eq!(conflict_paths(&vec![]), Vec::<String>::new());
}

#[test]
fn only_a_conflict_stops() {
    let id = CommitId::new("abc");
    assert_eq!(id.as_str(), "abc");
    assert_eq!(id.copy(), id);
    assert!(!MergeOutcome::FastForwarded(id.clone()).is_conflict());
    assert!(!MergeOutcome::Merged(id.clone()).is_conflict());
    assert!(!MergeOutcome::NoOp.is_conflict());
    assert!(MergeOutcome::Conflict(vec![]).is_conflict());
    assert!(matches!(
        MergeOutcome::FastForwarded(id.clone()).settle(),
        Ok(MergeOutcome::FastForwarded(i)) if i == id
    ));
    assert!(matches!(
        MergeOutcome::Merged(id.clone()).settle(),
        Ok(MergeOutcome::Merged(i)) if i == id
    ));
    assert!(matches!(MergeOutcome::NoOp.settle(), Ok(MergeOutcome::NoOp)));
    assert!(matches!(
        MergeOutcome::Conflict(vec!["p".to_string()]).settle(),
        Err(GFError::MergeConflict(p)) if p == vec!["p".to_string()]
    ));
}

#[test]
fn names_and_messages() {
    assert_eq!(branch_name("feature/", "login"), "feature/login");
    assert_eq!(branch_name("", "login"), "login");
    assert_eq!(branch_name("release/", ""), "release/");
    assert_eq!(heads_ref("develop"), "refs/heads/develop");
    assert_eq!(heads_ref("feature/login"), "refs/heads/feature/login");
    assert_eq!(
        fast_forward_message("refs/heads/master", "0123abc"),
        "fast-forward refs/heads/master to 0123abc"
    );
    assert_eq!(publish_message("master", "0123abc"), "Setting master to 0123abc");
    assert_eq!(back_merge_message("master", "develop"), "Merge branch 'master' into develop");
    assert_eq!(pull_message("develop", "origin"), "Pull develop from origin and merge");
}

#[test]
fn start_plan_creates_then_checks_out() {
    assert_eq!(
        start_plan("feature/login"),
        vec![
            Step::Create("feature/login".to_string()),
            Step::Checkout("feature/login".to_string()),
        ]
    );
    assert!(!Step::Create("x".to_string()).is_merge());
}

#[test]
fn finish_plan_of_a_topic_branch() {
    for kind in [GFBranch::Feature, GFBranch::Bugfix, GFBranch::Support] {
        for tag in [None, Some("v1")] {
            let plan = finish_plan(kind, "feature/login", "master", "develop", "merge login", tag);
            assert_eq!(
                plan,
                vec![
                    Step::Checkout("develop".to_string()),
                    Step::Merge {
                        into: "develop".to_string(),
                        from: "feature/login".to_string(),
                        message: "merge login".to_string(),
                    },
                    Step::Delete("feature/login".to_string()),
                ]
            );
            assert!(plan[1].is_merge());
        }
    }
}

#[test]
fn finish_plan_of_a_release() {
    for kind in [GFBranch::Release, GFBranch::Hotfix] {
        let tagged = finish_plan(kind, "release/1.0", "master", "develop", "ship 1.0", Some("v1.0"));
        assert_eq!(
            tagged,
            vec![
                Step::Checkout("master".to_string()),
                Step::Merge {
                    into: "master".to_string(),
                    from: "release/1.0".to_string(),
                    message: "ship 1.0".to_string(),
                },
                Step::Tag { branch: "master".to_string(), name: "v1.0".to_string() },
                Step::Checkout("develop".to_string()),
                Step::Merge {
                    into: "develop".to_string(),
                    from: "master".to_string(),
                    message: "Merge branch 'master' into develop".to_string(),
                },
                Step::Delete("release/1.0".to_string()),
            ]
        );
        let plain = finish_plan(kind, "release/1.0", "master", "develop", "ship 1.0", None);
        assert_eq!(plain.len(), 5);
        assert_eq!(plain[..2], tagged[..2]);
        assert_eq!(plain[2..], tagged[3..]);
    }
}

#[test]
fn engine_states() {
    for state in [EngineState::Uninitialized, EngineState::Ready] {
        assert!(matches!(state.after(GFSubCmd::Init), Ok(EngineState::Ready)));
    }
    assert!(matches!(EngineState::Ready.after(GFSubCmd::Start), Ok(EngineState::Ready)));
    assert!(matches!(EngineState::Ready.after(GFSubCmd::Finish), Ok(EngineState::Ready)));
    assert!(matches!(EngineState::Uninitialized.after(GFSubCmd::Start), Err(GFError::State)));
    assert!(matches!(EngineState::Uninitialized.after(GFSubCmd::Finish), Err(GFError::State)));
}

#[test]
fn commands_need_a_kind_but_for_init() {
    let answers = InitAnswers::defaults;
    let init = WorkflowCommand::resolve(None, GFSubCmd::Init, "", "", None, answers()).unwrap();
    assert!(matches!(&init, WorkflowCommand::Init(a) if *a == answers()));
    assert_eq!(init.phase(), GFSubCmd::Init);
    assert!(matches!(
        WorkflowCommand::resolve(None, GFSubCmd::Start, "x", "", None, answers()),
        Err(GFError::NoActiveKind)
    ));
    assert!(matches!(
        WorkflowCommand::resolve(None, GFSubCmd::Finish, "x", "m", None, answers()),
        Err(GFError::NoActiveKind)
    ));
    let start =
        WorkflowCommand::resolve(Some(GFBranch::Feature), GFSubCmd::Start, "x", "", None, answers())
            .unwrap();
    assert!(matches!(
        &start,
        WorkflowCommand::Start { kind: GFBranch::Feature, suffix } if suffix == "x"
    ));
    assert_eq!(start.phase(), GFSubCmd::Start);
    let finish = WorkflowCommand::resolve(
        Some(GFBranch::Release),
        GFSubCmd::Finish,
        "1.0",
        "ship 1.0",
        Some("v1.0"),
        answers(),
    )
    .unwrap();
    match &finish {
        WorkflowCommand::Finish { kind, suffix, message, tag } => {
            assert_eq!(*kind, GFBranch::Release);
            assert_eq!(suffix, "1.0");
            assert_eq!(message, "ship 1.0");
            assert_eq!(tag.as_deref(), Some("v1.0"));
        },
        other => panic!("unexpected: {:?}", other),
    }
    assert_eq!(finish.phase(), GFSubCmd::Finish);
}

#[test]
fn an_existing_branch_is_tolerated() {
    assert!(tolerate_existing(Ok(())).is_ok());
    assert!(tolerate_existing(Err(GFError::BranchExists("develop".to_string()))).is_ok());
    assert!(matches!(tolerate_existing(Err(GFError::NoHead)), Err(GFError::NoHead)));
    assert!(matches!(
        tolerate_existing(Err(GFError::Io("x".to_string()))),
        Err(GFError::Io(m)) if m == "x"
    ));
}

#[test]
fn the_first_checked_out_branch_is_the_head() {
    let entry = |name: Option<&str>, is_head: bool| -> Result<BranchEntry, String> {
        Ok(BranchEntry { name: name.map(String::from), is_head })
    };
    let walk = vec![entry(Some("a"), false), entry(Some("b"), true), entry(Some("c"), true)];
    assert_eq!(search_head(&walk), HeadSearch::Found("b".to_string()));
    let nameless = vec![entry(None, true)];
    assert_eq!(search_head(&nameless), HeadSearch::Found(String::new()));
    let none = vec![entry(Some("a"), false)];
    assert_eq!(search_head(&none), HeadSearch::Missing);
    assert_eq!(search_head(&Vec::<Result<BranchEntry, String>>::new()), HeadSearch::Missing);
    let failed = vec![entry(Some("a"), false), Err("bad".to_string()), entry(Some("b"), true)];
    assert_eq!(search_head(&failed), HeadSearch::Failed(1));
    let late = vec![entry(Some("a"), true), Err("bad".to_string())];
    assert_eq!(search_head(&late), HeadSearch::Found("a".to_string()));
}

#[test]
fn transfer_lines() {
    let stats = TransferStats {
        total_objects: 10,
        indexed_objects: 3,
        received_objects: 4,
        local_objects: 0,
        total_deltas: 7,
        indexed_deltas: 2,
        received_bytes: 1000,
    };
    assert_eq!(
        stats.progress(),
        ProgressLine::Receiving { received: 4, total: 10, indexed: 3, bytes: 1000 }
    );
    assert_eq!(
        stats.summary(),
        TransferSummary { indexed: 3, total: 10, bytes: 1000, reused: None }
    );
    let done = TransferStats { received_objects: 10, local_objects: 5, ..stats };
    assert_eq!(done.progress(), ProgressLine::ResolvingDeltas { indexed: 2, total: 7 });
    assert_eq!(
        done.summary(),
        TransferSummary { indexed: 3, total: 10, bytes: 1000, reused: Some(5) }
    );
    let idle = TransferStats { total_objects: 0, received_objects: 0, ..stats };
    assert_eq!(idle.progress(), ProgressLine::ResolvingDeltas { indexed: 2, total: 7 });
    let odd = TransferStats { total_objects: 0, received_objects: 1, ..stats };
    assert_eq!(odd.progress(), ProgressLine::Quiet);
}

#[test]
fn parents_come_in_order() {
    let ours = CommitId::new("aaaa");
    let theirs = CommitId::new("bbbb");
    assert_eq!(merge_parents(&ours, &theirs), vec![ours.clone(), theirs.clone()]);
    assert_eq!(merge_parents(&theirs, &ours), vec![theirs.clone(), ours.clone()]);
    assert_eq!(commit_parents(Some(ours.clone())), vec![ours]);
    assert_eq!(commit_parents(None), Vec::<CommitId>::new());
}

#[test]
fn a_user_without_a_name_is_unknown() {
    let named = Identity::or_unknown(Some("Ann".to_string()), "ann@example.com".to_string());
    assert_eq!(named, Identity { name: "Ann".to_string(), email: "ann@example.com".to_string() });
    let nameless = Identity::or_unknown(None, "ann@example.com".to_string());
    assert_eq!(
        nameless,
        Identity { name: "unknown".to_string(), email: "ann@example.com".to_string() }
    );
    let empty = Identity::or_unknown(Some(String::new()), String::new());
    assert_eq!(empty, Identity { name: String::new(), email: String::new() });
}

#[test]
fn no_target_is_no_head() {
    let id = CommitId::new("0123");
    assert!(matches!(require_head(Some(id.clone())), Ok(found) if found == id));
    assert!(matches!(require_head(None), Err(GFError::NoHead)));
}

#[test]
fn no_workdir_is_a_bare_repository() {
    assert!(matches!(require_workdir(Some("/w/".to_string())), Ok(dir) if dir == "/w/"));
    assert!(matches!(
        require_workdir(None),
        Err(GFError::Generic(text)) if text == "the repository is bare"
    ));
}

#[test]
fn a_branch_that_is_there_is_moved_and_one_that_is_not_is_created() {
    let source = CommitId::new("0123abc");
    assert_eq!(
        forward_action(Some("refs/heads/master".to_string()), "master", &source),
        ForwardAction::Move { refname: "refs/heads/master".to_string() }
    );
    assert_eq!(
        forward_action(None, "master", &source),
        ForwardAction::Create {
            refname: "refs/heads/master".to_string(),
            log: "Setting master to 0123abc".to_string(),
        }
    );
    assert_eq!(
        forward_action(None, "release/1.0", &source),
        ForwardAction::Create {
            refname: "refs/heads/release/1.0".to_string(),
            log: "Setting release/1.0 to 0123abc".to_string(),
        }
    );
}

#[test]
fn an_empty_answer_names_no_tag() {
    assert_eq!(named_tag(""), None);
    assert_eq!(named_tag("v1.0"), Some("v1.0"));
    assert_eq!(named_tag(" "), Some(" "));
}
