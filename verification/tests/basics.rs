use git_flow::gitc::GitcRepo;
use git_flow::utils::get_branch_name;

fn set_test_repo(path: &str) -> GitcRepo {
    GitcRepo::new(path).unwrap()
}

fn sign(repo: &GitcRepo) {
    repo.config("user.name", "Test User").unwrap();
    repo.config("user.email", "test@example.com").unwrap();
}

fn scratch() -> tempfile::TempDir {
    tempfile::tempdir().unwrap()
}

#[test]
fn test_is_repo() {
    let repo = set_test_repo("/tmp/abc");
    let repo = repo.0;
    assert!(repo.is_empty().unwrap());
}

#[test]
fn test_flow() {
    let dir = scratch();
    let path = dir.path().to_str().unwrap();

    // init
    let repo = set_test_repo(path);
    sign(&repo);
    repo.init().unwrap();
    assert_eq!(get_branch_name(&repo.0).unwrap().as_str(), "master");

    // branch
    let repo = set_test_repo(path);
    repo.branch("develop").unwrap();

    // checkout
    let repo = set_test_repo(path);
    repo.checkout("develop").unwrap();
    assert_eq!(get_branch_name(&repo.0).unwrap().as_str(), "develop");
}
