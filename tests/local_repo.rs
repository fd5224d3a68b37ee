use ferriby::local::{branch_ref_name, combine_tips, get_last_event, readable_names, LocalRepoError};
use ferriby::sources::GitSource;
use git2::{Repository, Signature, Time};

fn commit_at(repo: &Repository, refname: &str, secs: i64, parents: &[&git2::Commit]) -> git2::Oid {
    let sig = Signature::new("someone", "someone@example.org", &Time::new(secs, 0)).unwrap();
    let tree_id = repo.index().unwrap().write_tree().unwrap();
    let tree = repo.find_tree(tree_id).unwrap();
    repo.commit(Some(refname), &sig, &sig, "change", &tree, parents).unwrap()
}

#[test]
fn latest_tip_over_two_branches() {
    let dir = tempfile::tempdir().unwrap();
    let repo = Repository::init(dir.path()).unwrap();
    let t1: i64 = 1_700_000_000;
    let t2: i64 = 1_750_000_000;
    let first = commit_at(&repo, "refs/heads/main", t1, &[]);
    let first = repo.find_commit(first).unwrap();
    commit_at(&repo, "refs/heads/feature", t2, &[&first]);

    let path = dir.path().to_str().unwrap().to_string();
    let activity = get_last_event(GitSource { path }).unwrap();
    assert_eq!(activity.latest, Some(t2));
    let mut tips = activity.tips.clone();
    tips.sort();
    assert_eq!(tips, vec![t1, t2]);
}

#[test]
fn latest_tip_does_not_depend_on_branch_order() {
    let dir = tempfile::tempdir().unwrap();
    let repo = Repository::init(dir.path()).unwrap();
    let first = commit_at(&repo, "refs/heads/zzz", 1_750_000_000, &[]);
    let first = repo.find_commit(first).unwrap();
    commit_at(&repo, "refs/heads/aaa", 1_600_000_000, &[&first]);

    let path = dir.path().to_str().unwrap().to_string();
    assert_eq!(get_last_event(GitSource { path }).unwrap().latest, Some(1_750_000_000));
}

#[test]
fn repository_without_branches_has_no_activity() {
    let dir = tempfile::tempdir().unwrap();
    Repository::init(dir.path()).unwrap();
    let path = dir.path().to_str().unwrap().to_string();
    let activity = get_last_event(GitSource { path }).unwrap();
    assert_eq!(activity.latest, None);
    assert!(activity.tips.is_empty());
}

#[test]
fn missing_repository_is_an_error() {
    let dir = tempfile::tempdir().unwrap();
    let path = dir.path().join("nothing-here").to_str().unwrap().to_string();
    assert!(matches!(get_last_event(GitSource { path }), Err(LocalRepoError::Open(_))));
}

#[test]
fn first_failed_tip_decides() {
    let r = combine_tips(vec![Ok(5), Err(LocalRepoError::NoTarget), Ok(9)]);
    assert!(matches!(r, Err(LocalRepoError::NoTarget)));
    let a = combine_tips(vec![Ok(5), Ok(9), Ok(7)]).unwrap();
    assert_eq!(a.tips, vec![5, 9, 7]);
    assert_eq!(a.latest, Some(9));
    let empty = combine_tips(vec![]).unwrap();
    assert_eq!(empty.latest, None);
}

#[test]
fn unreadable_branch_names_are_skipped() {
    let items = vec![Some("main".to_string()), None, Some("dev".to_string())];
    assert_eq!(readable_names(&items), vec!["main".to_string(), "dev".to_string()]);
    assert_eq!(branch_ref_name("dev"), "refs/heads/dev");
}
