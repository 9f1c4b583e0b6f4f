use logbook::date::{iso_date, long_date, long_date_with_weekday, Date};
use logbook::entry::{commit_message, entry_for, entry_markdown, entry_path, prepare_entry};
use logbook::input::{accept_line, collect_tasks, is_end_of_tasks};
use logbook::repo::{
    add_and_commit, commit_staged, find_last_commit, is_repo_relative, open_journal, push,
    stage_entry, GitStep, JournalError,
};

fn strings(v: &[&str]) -> Vec<String> {
    v.iter().map(|s| s.to_string()).collect()
}

fn day(y: i32, m: u32, d: u32) -> Date {
    Date::new(y, m, d).unwrap()
}

fn scratch_dir(tag: &str) -> String {
    let nanos = chrono::Utc::now().timestamp_nanos_opt().unwrap();
    format!("/tmp/logbook_test_{}_{}", tag, nanos)
}

fn repo_with_first_commit(dir: &str, branch: &str) -> git2::Repository {
    let repo = git2::Repository::init(dir).unwrap();
    repo.set_head(branch).unwrap();
    {
        let mut index = repo.index().unwrap();
        let tree_id = index.write_tree().unwrap();
        let tree = repo.find_tree(tree_id).unwrap();
        let sig = git2::Signature::now("tester", "tester@example.com").unwrap();
        repo.commit(Some("HEAD"), &sig, &sig, "first", &tree, &[]).unwrap();
    }
    repo
}

/// Writes a file into the work tree by checking out an index that holds it.
fn put_in_worktree(repo: &git2::Repository, path: &str, content: &str) {
    let mut index = repo.index().unwrap();
    let entry = git2::IndexEntry {
        ctime: git2::IndexTime::new(0, 0),
        mtime: git2::IndexTime::new(0, 0),
        dev: 0,
        ino: 0,
        mode: 0o100644,
        uid: 0,
        gid: 0,
        file_size: content.len() as u32,
        id: git2::Oid::zero(),
        flags: 0,
        flags_extended: 0,
        path: path.as_bytes().to_vec(),
    };
    index.add_frombuffer(&entry, content.as_bytes()).unwrap();
    let mut checkout = git2::build::CheckoutBuilder::new();
    checkout.force();
    repo.checkout_index(Some(&mut index), Some(&mut checkout)).unwrap();
}

#[test]
fn collects_lines_before_sentinel() {
    let lines = strings(&["write spec", "review PR", "done"]);
    assert_eq!(collect_tasks(&lines), strings(&["write spec", "review PR"]));
}

#[test]
fn without_sentinel_every_line_is_a_task() {
    let lines = strings(&["a", "", "  b  ", "donee", "Done"]);
    assert_eq!(collect_tasks(&lines), lines);
}

#[test]
fn lines_after_sentinel_are_ignored() {
    let lines = strings(&["a", "  done\t", "b", "done"]);
    assert_eq!(collect_tasks(&lines), strings(&["a"]));
}

#[test]
fn immediate_sentinel_gives_no_tasks() {
    assert!(collect_tasks(&strings(&["done", "x"])).is_empty());
    assert!(collect_tasks(&Vec::new()).is_empty());
}

#[test]
fn sentinel_is_trimmed_and_exact() {
    assert!(is_end_of_tasks("done"));
    assert!(is_end_of_tasks("   done \r"));
    assert!(!is_end_of_tasks("done it"));
    assert!(!is_end_of_tasks("DONE"));
    assert!(!is_end_of_tasks(""));
}

#[test]
fn accept_line_keeps_blank_lines_and_stops_at_sentinel() {
    let mut tasks = Vec::new();
    assert!(!accept_line(&mut tasks, "first".to_string()));
    assert!(!accept_line(&mut tasks, String::new()));
    assert!(accept_line(&mut tasks, " done ".to_string()));
    assert_eq!(tasks, strings(&["first", ""]));
}

#[test]
fn date_validity() {
    assert!(Date::new(2024, 2, 29).is_some());
    assert!(Date::new(2023, 2, 29).is_none());
    assert!(Date::new(1900, 2, 29).is_none());
    assert!(Date::new(2000, 2, 29).is_some());
    assert!(Date::new(2024, 4, 31).is_none());
    assert!(Date::new(2024, 13, 1).is_none());
    assert!(Date::new(2024, 0, 1).is_none());
    assert!(Date::new(2024, 1, 0).is_none());
    assert!(Date::new(262143, 1, 1).is_none());
    assert!(Date::new(-262143, 1, 1).is_some());
}

#[test]
fn iso_dates() {
    assert_eq!(iso_date(&day(2024, 3, 4)), "2024-03-04");
    assert_eq!(iso_date(&day(1999, 12, 31)), "1999-12-31");
    assert_eq!(iso_date(&day(5, 1, 9)), "0005-01-09");
    assert_eq!(iso_date(&day(-1, 6, 15)), "-0001-06-15");
    assert_eq!(iso_date(&day(10000, 10, 20)), "+10000-10-20");
}

#[test]
fn iso_date_matches_chrono() {
    for (y, m, d) in [(2024, 3, 4), (7, 11, 30), (-44, 3, 15), (12345, 1, 1)] {
        let nd = chrono::NaiveDate::from_ymd_opt(y, m, d).unwrap();
        assert_eq!(iso_date(&day(y, m, d)), nd.format("%F").to_string());
    }
}

#[test]
fn long_dates() {
    assert_eq!(long_date(&day(2024, 3, 4)), "Monday 04 Mar 2024");
    assert_eq!(long_date(&day(2024, 3, 9)), "Saturday 09 Mar 2024");
    assert_eq!(long_date(&day(2026, 10, 18)), "Sunday 18 Oct 2026");
    assert_eq!(long_date_with_weekday(&day(2024, 12, 25), 2), "Wednesday 25 Dec 2024");
}

#[test]
fn long_date_matches_chrono() {
    for (y, m, d) in [(2024, 2, 29), (1970, 1, 1), (2031, 7, 4), (812, 5, 6)] {
        let nd = chrono::NaiveDate::from_ymd_opt(y, m, d).unwrap();
        assert_eq!(long_date(&day(y, m, d)), nd.format("%A %d %b %Y").to_string());
    }
}

#[test]
fn scenario_two_tasks() {
    let tasks = collect_tasks(&strings(&["write spec", "review PR", "done"]));
    let entry = entry_for(&day(2024, 3, 4), &tasks);
    assert_eq!(entry.path, "entries/2024-03-04.md");
    assert_eq!(entry.content, "# Monday 04 Mar 2024\n\n - write spec\n - review PR\n");
    assert_eq!(entry.message, "Monday 04 Mar 2024\n\n - write spec\n - review PR");
}

#[test]
fn zero_tasks_entry_has_heading_only() {
    let tasks = collect_tasks(&strings(&["done"]));
    let entry = entry_for(&day(2024, 3, 4), &tasks);
    assert_eq!(entry.content, "# Monday 04 Mar 2024\n\n");
    assert!(!entry.content.contains(" - "));
    assert_eq!(entry.message, "Monday 04 Mar 2024\n");
}

#[test]
fn path_and_message_share_the_date() {
    let d = day(2025, 1, 31);
    let entry = prepare_entry(&d, 4, &strings(&["x"]));
    assert_eq!(entry.path, format!("entries/{}.md", iso_date(&d)));
    assert!(entry.message.starts_with("Friday 31 Jan 2025\n"));
    assert!(entry.content.starts_with("# Friday 31 Jan 2025\n"));
}

#[test]
fn markdown_and_message_keep_task_order() {
    let tasks = strings(&["b", "", "a"]);
    assert_eq!(entry_markdown("T", &tasks), "# T\n\n - b\n - \n - a\n");
    assert_eq!(commit_message("T", &tasks), "T\n\n - b\n - \n - a");
}

#[test]
fn entry_path_is_lower_case_and_relative() {
    let p = entry_path(&day(2024, 3, 4));
    assert_eq!(p, p.to_lowercase());
    assert!(is_repo_relative(&p));
}

#[test]
fn repo_relative_paths() {
    assert!(is_repo_relative("entries/2024-03-04.md"));
    assert!(is_repo_relative("a/..b/c"));
    assert!(is_repo_relative("a/b.."));
    assert!(!is_repo_relative(""));
    assert!(!is_repo_relative("/Users/someone/logbook/entries/2024-03-04.md"));
    assert!(!is_repo_relative("../outside.md"));
    assert!(!is_repo_relative("entries/../../outside.md"));
    assert!(!is_repo_relative("entries/.."));
}

#[test]
fn opening_a_missing_repository_fails() {
    let r = open_journal("/tmp/logbook_test_no_such_repository/inner");
    assert!(matches!(r, Err(JournalError::Git(GitStep::OpenRepository, _))));
}

#[test]
fn staging_outside_the_root_fails() {
    let dir = scratch_dir("outside");
    let repo = repo_with_first_commit(&dir, "refs/heads/master");
    let outside = format!("{}/entries/2024-03-04.md", dir);
    assert!(matches!(stage_entry(&repo, &outside), Err(JournalError::OutsideRepository)));
    assert!(matches!(stage_entry(&repo, "../x.md"), Err(JournalError::OutsideRepository)));
    let r = add_and_commit(&repo, &outside, "m", "tester", "tester@example.com");
    assert!(matches!(r, Err(JournalError::OutsideRepository)));
}

#[test]
fn staging_a_missing_file_fails_in_git() {
    let dir = scratch_dir("missing");
    let repo = repo_with_first_commit(&dir, "refs/heads/master");
    let r = stage_entry(&repo, "entries/none.md");
    assert!(matches!(r, Err(JournalError::Git(GitStep::StagePath, _))));
}

#[test]
fn committing_in_an_empty_repository_fails() {
    let dir = scratch_dir("empty");
    let repo = git2::Repository::init(&dir).unwrap();
    assert!(matches!(find_last_commit(&repo), Err(JournalError::NoCommitFound(_))));
    let r = commit_staged(&repo, "m", "tester", "tester@example.com");
    assert!(matches!(r, Err(JournalError::NoCommitFound(_))));
    assert!(repo.head().is_err());
}

#[test]
fn committing_an_entry_advances_head_by_one() {
    let dir = scratch_dir("commit");
    let repo = repo_with_first_commit(&dir, "refs/heads/master");
    let before = repo.head().unwrap().peel_to_commit().unwrap().id();
    let tasks = strings(&["write spec", "review PR"]);
    let entry = entry_for(&day(2024, 3, 4), &tasks);
    put_in_worktree(&repo, &entry.path, &entry.content);
    let rec = add_and_commit(&repo, &entry.path, &entry.message, "tester", "tester@example.com")
        .unwrap();
    let head = repo.head().unwrap().peel_to_commit().unwrap();
    assert_eq!(head.id(), rec.id);
    assert_eq!(rec.parent, before);
    assert_eq!(head.parent_count(), 1);
    assert_eq!(head.parent_id(0).unwrap(), before);
    assert_eq!(head.message().unwrap(), entry.message);
    let tree = head.tree().unwrap();
    let blob = tree.get_path(std::path::Path::new("entries/2024-03-04.md")).unwrap();
    let content = repo.find_blob(blob.id()).unwrap();
    assert_eq!(content.content(), entry.content.as_bytes());
}

#[test]
fn push_without_the_branch_fails_and_keeps_the_commit() {
    let dir = scratch_dir("push");
    let remote_dir = scratch_dir("push_remote");
    git2::Repository::init_bare(&remote_dir).unwrap();
    let repo = repo_with_first_commit(&dir, "refs/heads/main");
    let before = repo.head().unwrap().peel_to_commit().unwrap().id();
    let r = push(&repo, &remote_dir);
    assert!(r.is_err());
    assert_eq!(repo.head().unwrap().peel_to_commit().unwrap().id(), before);
    assert!(repo.find_remote("origin").is_ok());
}

#[test]
fn push_reaches_a_local_remote() {
    let dir = scratch_dir("push_ok");
    let remote_dir = scratch_dir("push_ok_remote");
    let remote = git2::Repository::init_bare(&remote_dir).unwrap();
    let repo = repo_with_first_commit(&dir, "refs/heads/master");
    let head = repo.head().unwrap().peel_to_commit().unwrap().id();
    push(&repo, &remote_dir).unwrap();
    let pushed = remote.find_reference("refs/heads/master").unwrap().target().unwrap();
    assert_eq!(pushed, head);
}
