use git2::{IndexEntry, IndexTime, Oid, Repository, Signature};
use promptline::status::{ReduceMode, StatusIndicator};
use promptline::vcs::{summarize, RefInfo, VcsError};

fn repo_with_one_commit(dir: &str) -> Repository {
    let repo = Repository::init(dir).unwrap();
    if repo.head().is_err() {
        let sig = Signature::now("tester", "tester@example.invalid").unwrap();
        let tree_id = repo.index().unwrap().write_tree().unwrap();
        let tree = repo.find_tree(tree_id).unwrap();
        repo.commit(Some("HEAD"), &sig, &sig, "initial", &tree, &[])
            .unwrap();
    }
    repo
}

#[test]
fn repository_without_commits_is_a_hard_failure() {
    // a repository is present, but its reference cannot be resolved:
    // that propagates as an error rather than degrading silently
    let dir = "/tmp/promptline_unborn_repo";
    Repository::init(dir).unwrap();
    let summary = summarize(dir, ReduceMode::Priority);
    assert_eq!(summary.unwrap_err(), VcsError::HeadResolution);
}

#[test]
fn summarize_branch_and_detached_head() {
    let dir = "/tmp/promptline_branch_repo";
    let repo = repo_with_one_commit(dir);

    // point the head at a named branch, whatever an earlier state was
    let oid = repo.head().unwrap().peel_to_commit().unwrap().id();
    let commit = repo.find_commit(oid).unwrap();
    repo.branch("primary", &commit, true).unwrap();
    repo.set_head("refs/heads/primary").unwrap();

    let summary = summarize(dir, ReduceMode::Priority).unwrap().unwrap();
    match summary.0 {
        RefInfo::Branch(name) => assert_eq!(name, "primary"),
        RefInfo::Detached(label) => panic!("expected a branch, got detached {label}"),
    }
    assert_eq!(summary.1, StatusIndicator::Clean);
    repo.set_head_detached(oid).unwrap();
    let summary = summarize(dir, ReduceMode::Priority).unwrap().unwrap();
    match summary.0 {
        RefInfo::Detached(label) => {
            assert_eq!(label.len(), 6);
            assert_eq!(label, oid.to_string()[..6]);
        }
        RefInfo::Branch(name) => panic!("expected a detached head, got branch {name}"),
    }
}

#[test]
fn summarize_sees_a_staged_file() {
    let dir = "/tmp/promptline_staged_repo";
    let repo = repo_with_one_commit(dir);

    // stage a file straight into the index; it never reaches the
    // working tree, so its status carries an index flag (new) and a
    // working-tree flag (deleted), and the working tree dominates
    let entry = IndexEntry {
        ctime: IndexTime::new(0, 0),
        mtime: IndexTime::new(0, 0),
        dev: 0,
        ino: 0,
        mode: 0o100644,
        uid: 0,
        gid: 0,
        file_size: 0,
        id: Oid::from_bytes(&[0; 20]).unwrap(),
        flags: 0,
        flags_extended: 0,
        path: b"staged.txt".to_vec(),
    };
    let mut index = repo.index().unwrap();
    index.add_frombuffer(&entry, b"staged contents\n").unwrap();
    index.write().unwrap();

    let summary = summarize(dir, ReduceMode::Priority).unwrap().unwrap();
    assert_eq!(summary.1, StatusIndicator::WorkTreeModified);
    let summary = summarize(dir, ReduceMode::ScanOrder).unwrap().unwrap();
    assert_eq!(summary.1, StatusIndicator::WorkTreeModified);
}
