use git_flow::config::InitAnswers;
use git_flow::error::GFError;
use git_flow::gf::{CommandReport, EngineState, GFWork, WorkflowCommand};
use git_flow::gitc::GitcRepo;
use git_flow::kind::GFBranch;
use git_flow::merge::MergeOutcome;
use git_flow::object::CommitId;
use git_flow::utils::{get_branch_name, get_head};

fn scratch() -> tempfile::TempDir {
    tempfile::tempdir().unwrap()
}

/// A repository at `path` that knows who commits.
fn signed_work(path: &str) -> GFWork {
    let work = GFWork::new(path).unwrap();
    work.repo.config("user.name", "Test User").unwrap();
    work.repo.config("user.email", "test@example.com").unwrap();
    work
}

/// An engine on a repository that is set up with every default.
fn ready_work(path: &str) -> GFWork {
    let mut work = signed_work(path);
    work.init(&InitAnswers::defaults()).unwrap();
    work
}

/// Puts `content` under `path` into the index, commits it on the current
/// branch and brings the working tree in line.
fn commit_file(repo: &GitcRepo, path: &str, content: &str, msg: &str) -> CommitId {
    let entry = git2::IndexEntry {
        ctime: git2::IndexTime::new(0, 0),
        mtime: git2::IndexTime::new(0, 0),
        dev: 0,
        ino: 0,
        mode: 0o100644,
        uid: 0,
        gid: 0,
        file_size: 0,
        id: git2::Oid::ZERO_SHA1,
        flags: 0,
        flags_extended: 0,
        path: path.as_bytes().to_vec(),
    };
    let mut index = repo.0.index().unwrap();
    index.add_frombuffer(&entry, content.as_bytes()).unwrap();
    index.write().unwrap();
    let id = repo.commit(msg).unwrap();
    sync_tree(repo);
    id
}

/// Brings the index and the working tree in line with the current head.
fn sync_tree(repo: &GitcRepo) {
    let head = repo.0.head().unwrap().peel(git2::ObjectType::Commit).unwrap();
    repo.0.reset(&head, git2::ResetType::Hard, None).unwrap();
}

/// Checks `branch` out and drops what the branch left behind.
fn switch_to(repo: &GitcRepo, branch: &str) {
    repo.checkout(branch).unwrap();
    sync_tree(repo);
}

fn parents_of(repo: &GitcRepo, id: &CommitId) -> Vec<String> {
    let commit = repo.0.find_commit(git2::Oid::from_str(id.as_str()).unwrap()).unwrap();
    commit.parent_ids().map(|p| p.to_string()).collect()
}

fn has_branch(repo: &GitcRepo, name: &str) -> bool {
    repo.0.find_branch(name, git2::BranchType::Local).is_ok()
}

fn count_commits(repo: &GitcRepo) -> usize {
    let odb = repo.0.odb().unwrap();
    let mut n = 0;
    odb.foreach(|oid| {
        if repo.0.find_commit(*oid).is_ok() {
            n += 1;
        }
        true
    })
    .unwrap();
    n
}

#[test]
fn new_engine_on_fresh_directory_waits_for_init() {
    let dir = scratch();
    let work = GFWork::new(dir.path().to_str().unwrap()).unwrap();
    assert_eq!(work.state, EngineState::Uninitialized);
    assert_eq!(work.branch_suffix, "");
}

#[test]
fn new_engine_on_existing_repository_is_ready() {
    let dir = scratch();
    let path = dir.path().to_str().unwrap();
    GitcRepo::create(path).unwrap();
    let work = GFWork::new(path).unwrap();
    assert_eq!(work.state, EngineState::Ready);
}

#[test]
fn start_before_init_is_a_state_error() {
    let dir = scratch();
    let mut work = signed_work(dir.path().to_str().unwrap());
    work.set_branch_suffix("login");
    assert!(matches!(work.start(GFBranch::Feature, false), Err(GFError::State)));
    assert!(matches!(work.finish(GFBranch::Feature, "m", None), Err(GFError::State)));
}

#[test]
fn init_on_empty_repository_makes_one_root_commit() {
    let dir = scratch();
    let mut work = signed_work(dir.path().to_str().unwrap());
    assert_eq!(count_commits(&work.repo), 0);
    let root = work.init(&InitAnswers::defaults()).unwrap();
    let root = root.expect("a root commit");
    assert_eq!(count_commits(&work.repo), 1);
    assert!(parents_of(&work.repo, &root).is_empty());
    assert_eq!(work.state, EngineState::Ready);
    assert_eq!(get_branch_name(&work.repo.0).unwrap(), "develop");
    assert_eq!(get_head(&work.repo.0).unwrap(), root);
}

#[test]
fn init_on_repository_with_commits_makes_none() {
    let dir = scratch();
    let mut work = signed_work(dir.path().to_str().unwrap());
    let first = commit_file(&work.repo, "a.txt", "a\n", "first");
    assert_eq!(count_commits(&work.repo), 1);
    let root = work.init(&InitAnswers::defaults()).unwrap();
    assert_eq!(root, None);
    assert_eq!(count_commits(&work.repo), 1);
    assert!(has_branch(&work.repo, "develop"));
    assert_eq!(get_branch_name(&work.repo.0).unwrap(), "develop");
    assert_eq!(work.repo.branch_tip("develop").unwrap(), first);
    assert_eq!(work.get_master().unwrap(), "master");
    assert_eq!(work.get_develop().unwrap(), "develop");
}

#[test]
fn init_twice_is_tolerated() {
    let dir = scratch();
    let mut work = ready_work(dir.path().to_str().unwrap());
    let again = work.init(&InitAnswers::defaults()).unwrap();
    assert_eq!(again, None);
    assert_eq!(count_commits(&work.repo), 1);
    assert_eq!(get_branch_name(&work.repo.0).unwrap(), "develop");
}

#[test]
fn init_stores_defaults_and_answers() {
    let dir = scratch();
    let mut work = signed_work(dir.path().to_str().unwrap());
    let mut answers = InitAnswers::defaults();
    answers.feature = "feat-".to_string();
    answers.develop = "next".to_string();
    work.init(&answers).unwrap();
    assert_eq!(work.repo.get_config("gitflow.branch.master").unwrap(), "master");
    assert_eq!(work.repo.get_config("gitflow.branch.develop").unwrap(), "next");
    assert_eq!(work.repo.get_config("gitflow.prefix.feature").unwrap(), "feat-");
    assert_eq!(work.repo.get_config("gitflow.prefix.bugfix").unwrap(), "bugfix/");
    assert_eq!(work.repo.get_config("gitflow.prefix.release").unwrap(), "release/");
    assert_eq!(work.repo.get_config("gitflow.prefix.hotfix").unwrap(), "hotfix/");
    assert_eq!(work.repo.get_config("gitflow.prefix.support").unwrap(), "support/");
    assert_eq!(work.repo.get_config("gitflow.prefix.versiontag").unwrap(), "");
    let hooks = format!("{}.git/hooks", work.repo.get_workdir().unwrap());
    assert_eq!(work.repo.get_config("gitflow.path.hooks").unwrap(), hooks);
    assert_eq!(get_branch_name(&work.repo.0).unwrap(), "next");
    assert_eq!(work.get_branch_prefix(GFBranch::Feature).unwrap(), "feat-");
}

#[test]
fn start_creates_and_checks_out_the_prefixed_branch() {
    let dir = scratch();
    let mut work = ready_work(dir.path().to_str().unwrap());
    let kinds = [
        (GFBranch::Feature, "feature/x"),
        (GFBranch::Bugfix, "bugfix/x"),
        (GFBranch::Hotfix, "hotfix/x"),
        (GFBranch::Release, "release/x"),
        (GFBranch::Support, "support/x"),
    ];
    for (kind, full) in kinds {
        work.set_branch_suffix("x");
        let name = work.start(kind, false).unwrap();
        assert_eq!(name, full);
        assert!(has_branch(&work.repo, full));
        assert_eq!(get_branch_name(&work.repo.0).unwrap(), full);
    }
}

#[test]
fn start_refuses_a_name_that_is_taken() {
    let dir = scratch();
    let mut work = ready_work(dir.path().to_str().unwrap());
    work.set_branch_suffix("login");
    work.start(GFBranch::Feature, false).unwrap();
    let tip = work.repo.branch_tip("feature/login").unwrap();
    match work.start(GFBranch::Feature, false) {
        Err(GFError::BranchExists(name)) => assert_eq!(name, "feature/login"),
        other => panic!("unexpected: {:?}", other),
    }
    assert_eq!(work.repo.branch_tip("feature/login").unwrap(), tip);
}

#[test]
fn start_without_prefix_is_config_missing() {
    let dir = scratch();
    let path = dir.path().to_str().unwrap();
    let repo = GitcRepo::create(path).unwrap();
    repo.config("user.name", "Test User").unwrap();
    repo.config("user.email", "test@example.com").unwrap();
    commit_file(&repo, "a.txt", "a\n", "first");
    let mut work = GFWork::new(path).unwrap();
    assert_eq!(work.state, EngineState::Ready);
    work.set_branch_suffix("login");
    match work.start(GFBranch::Feature, false) {
        Err(GFError::ConfigMissing(key)) => assert_eq!(key, "gitflow.prefix.feature"),
        other => panic!("unexpected: {:?}", other),
    }
}

#[test]
fn end_to_end_feature_login() {
    let dir = scratch();
    let mut work = ready_work(dir.path().to_str().unwrap());
    work.set_branch_suffix("login");
    let name = work.start(GFBranch::Feature, false).unwrap();
    assert_eq!(name, "feature/login");
    assert_eq!(get_branch_name(&work.repo.0).unwrap(), "feature/login");

    let theirs = commit_file(&work.repo, "login.txt", "login\n", "add login");
    switch_to(&work.repo, "develop");
    let ours = commit_file(&work.repo, "other.txt", "other\n", "add other");

    let report = work.finish(GFBranch::Feature, "merge login", None).unwrap();
    assert_eq!(report.branch, "feature/login");
    assert_eq!(report.tag, None);
    assert_eq!(report.merges.len(), 1);
    let merged = match &report.merges[0] {
        MergeOutcome::Merged(id) => id.clone(),
        other => panic!("unexpected: {:?}", other),
    };
    assert_eq!(work.repo.branch_tip("develop").unwrap(), merged);
    assert_eq!(parents_of(&work.repo, &merged), vec![ours.hex.clone(), theirs.hex.clone()]);
    let commit = work.repo.0.find_commit(git2::Oid::from_str(merged.as_str()).unwrap()).unwrap();
    assert_eq!(commit.message().unwrap(), "merge login");
    assert!(!has_branch(&work.repo, "feature/login"));
    assert_eq!(get_branch_name(&work.repo.0).unwrap(), "develop");
}

#[test]
fn end_to_end_release_with_tag() {
    let dir = scratch();
    let mut work = ready_work(dir.path().to_str().unwrap());
    let root = get_head(&work.repo.0).unwrap();
    work.set_branch_suffix("1.0");
    assert_eq!(work.start(GFBranch::Release, false).unwrap(), "release/1.0");
    let shipped = commit_file(&work.repo, "version.txt", "1.0\n", "bump");

    let report = work.finish(GFBranch::Release, "ship 1.0", Some("v1.0")).unwrap();
    assert_eq!(report.branch, "release/1.0");
    assert_eq!(report.tag, Some("v1.0".to_string()));
    assert_eq!(
        report.merges,
        vec![
            MergeOutcome::FastForwarded(shipped.clone()),
            MergeOutcome::FastForwarded(shipped.clone()),
        ]
    );
    assert_ne!(root, shipped);
    assert_eq!(work.repo.branch_tip("master").unwrap(), shipped);
    assert_eq!(work.repo.branch_tip("develop").unwrap(), shipped);
    let tagged = work.repo.0.revparse_single("refs/tags/v1.0").unwrap();
    let tagged = tagged.peel_to_commit().unwrap().id().to_string();
    assert_eq!(tagged, shipped.hex);
    assert!(!has_branch(&work.repo, "release/1.0"));
    assert_eq!(get_branch_name(&work.repo.0).unwrap(), "develop");
}

#[test]
fn hotfix_merges_into_both_branches() {
    let dir = scratch();
    let mut work = ready_work(dir.path().to_str().unwrap());
    let done = commit_file(&work.repo, "work.txt", "work\n", "work on develop");
    switch_to(&work.repo, "master");
    work.set_branch_suffix("fix");
    assert_eq!(work.start(GFBranch::Hotfix, false).unwrap(), "hotfix/fix");
    let fix = commit_file(&work.repo, "fix.txt", "fix\n", "the fix");

    let report = work.finish(GFBranch::Hotfix, "hotfix", None).unwrap();
    assert_eq!(report.tag, None);
    assert_eq!(report.merges.len(), 2);
    assert_eq!(report.merges[0], MergeOutcome::FastForwarded(fix.clone()));
    let back = match &report.merges[1] {
        MergeOutcome::Merged(id) => id.clone(),
        other => panic!("unexpected: {:?}", other),
    };
    assert_eq!(work.repo.branch_tip("master").unwrap(), fix);
    assert_eq!(work.repo.branch_tip("develop").unwrap(), back);
    assert_eq!(parents_of(&work.repo, &back), vec![done.hex.clone(), fix.hex.clone()]);
    let commit = work.repo.0.find_commit(git2::Oid::from_str(back.as_str()).unwrap()).unwrap();
    assert_eq!(commit.message().unwrap(), "Merge branch 'master' into develop");
    assert!(!has_branch(&work.repo, "hotfix/fix"));
}

#[test]
fn finish_stops_at_a_conflict_and_keeps_the_branch() {
    let dir = scratch();
    let mut work = ready_work(dir.path().to_str().unwrap());
    commit_file(&work.repo, "shared.txt", "base\n", "base");
    work.set_branch_suffix("clash");
    work.start(GFBranch::Feature, false).unwrap();
    let theirs = commit_file(&work.repo, "shared.txt", "theirs\n", "theirs");
    switch_to(&work.repo, "develop");
    let ours = commit_file(&work.repo, "shared.txt", "ours\n", "ours");
    let before = count_commits(&work.repo);

    match work.finish(GFBranch::Feature, "merge clash", None) {
        Err(GFError::MergeConflict(paths)) => assert_eq!(paths, vec!["shared.txt".to_string()]),
        other => panic!("unexpected: {:?}", other),
    }
    assert!(has_branch(&work.repo, "feature/clash"));
    assert_eq!(work.repo.branch_tip("feature/clash").unwrap(), theirs);
    assert_eq!(work.repo.branch_tip("develop").unwrap(), ours);
    assert_eq!(count_commits(&work.repo), before);
}

#[test]
fn finish_of_a_missing_branch_is_branch_not_found() {
    let dir = scratch();
    let mut work = ready_work(dir.path().to_str().unwrap());
    work.set_branch_suffix("ghost");
    match work.finish(GFBranch::Feature, "m", None) {
        Err(GFError::BranchNotFound(name)) => assert_eq!(name, "feature/ghost"),
        other => panic!("unexpected: {:?}", other),
    }
}

#[test]
fn execute_runs_the_three_commands() {
    let dir = scratch();
    let mut work = signed_work(dir.path().to_str().unwrap());
    let init = work.execute(WorkflowCommand::Init(InitAnswers::defaults())).unwrap();
    assert!(matches!(init, CommandReport::Initialized(Some(_))));
    let start = WorkflowCommand::Start { kind: GFBranch::Bugfix, suffix: "b1".to_string() };
    match work.execute(start).unwrap() {
        CommandReport::Started(name) => assert_eq!(name, "bugfix/b1"),
        other => panic!("unexpected: {:?}", other),
    }
    assert_eq!(work.branch_suffix, "b1");
    let tip = commit_file(&work.repo, "b.txt", "b\n", "fix b");
    let finish = WorkflowCommand::Finish {
        kind: GFBranch::Bugfix,
        suffix: "b1".to_string(),
        message: "merge b1".to_string(),
        tag: Some("ignored".to_string()),
    };
    match work.execute(finish).unwrap() {
        CommandReport::Finished(report) => {
            assert_eq!(report.branch, "bugfix/b1");
            assert_eq!(report.merges, vec![MergeOutcome::FastForwarded(tip)]);
            assert_eq!(report.tag, None);
        },
        other => panic!("unexpected: {:?}", other),
    }
    assert!(!has_branch(&work.repo, "bugfix/b1"));
    assert!(work.repo.0.revparse_single("refs/tags/ignored").is_err());
}

#[test]
fn start_in_a_repository_without_commits_has_no_head() {
    let dir = scratch();
    let path = dir.path().to_str().unwrap();
    let repo = GitcRepo::create(path).unwrap();
    repo.config("gitflow.prefix.feature", "feature/").unwrap();
    let mut work = GFWork::new(path).unwrap();
    assert_eq!(work.state, EngineState::Ready);
    work.set_branch_suffix("login");
    assert!(matches!(work.start(GFBranch::Feature, false), Err(GFError::NoHead)));
}

#[test]
fn finish_needs_the_integration_branches_it_uses() {
    let dir = scratch();
    let path = dir.path().to_str().unwrap();
    let repo = GitcRepo::create(path).unwrap();
    repo.config("user.name", "Test User").unwrap();
    repo.config("user.email", "test@example.com").unwrap();
    commit_file(&repo, "a.txt", "a\n", "first");
    repo.config("gitflow.prefix.feature", "feature/").unwrap();
    repo.config("gitflow.prefix.release", "release/").unwrap();
    let mut work = GFWork::new(path).unwrap();
    work.set_branch_suffix("x");
    match work.finish(GFBranch::Feature, "m", None) {
        Err(GFError::ConfigMissing(key)) => assert_eq!(key, "gitflow.branch.develop"),
        other => panic!("unexpected: {:?}", other),
    }
    match work.finish(GFBranch::Release, "m", None) {
        Err(GFError::ConfigMissing(key)) => assert_eq!(key, "gitflow.branch.master"),
        other => panic!("unexpected: {:?}", other),
    }

    // a topic branch does not need the production branch
    repo.branch("develop").unwrap();
    repo.config("gitflow.branch.develop", "develop").unwrap();
    work.start(GFBranch::Feature, false).unwrap();
    let tip = commit_file(&work.repo, "x.txt", "x\n", "x");
    let report = work.finish(GFBranch::Feature, "m", None).unwrap();
    assert_eq!(report.merges, vec![MergeOutcome::FastForwarded(tip)]);
    assert!(!has_branch(&work.repo, "feature/x"));
}

#[test]
fn an_engine_over_a_fresh_repository_waits_for_init() {
    let dir = scratch();
    let path = dir.path().to_str().unwrap();
    let fresh = GFWork::over(GitcRepo::create(path).unwrap(), true);
    assert_eq!(fresh.state, EngineState::Uninitialized);
    assert_eq!(fresh.branch_suffix, "");
    let found = GFWork::over(GitcRepo::open(path).unwrap(), false);
    assert_eq!(found.state, EngineState::Ready);
    assert_eq!(found.branch_suffix, "");
    assert_eq!(found.repo.get_workdir().unwrap(), fresh.repo.get_workdir().unwrap());
}
