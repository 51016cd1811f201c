use gitbolt::app::command::Command;
use gitbolt::app::executor::execute;
use gitbolt::app::message::AppMessage;
use gitbolt::app::model::Generation;
use gitbolt::app::recent::{recent_from_bytes, recent_to_bytes};
use gitbolt::app::session::{command_priority, watch_commands};
use gitbolt::git::blame::{blame_ranges, is_missing_path, parse_line_porcelain};
use gitbolt::git::branch::{
    checkout_conflicts, checkout_plan, dirty_paths, local_name_for_remote, parse_ahead_behind,
    parse_branch_refs, parse_merged, parse_squash_merged, recent_branches, validate_branch_name,
    CheckoutPlan,
};
use gitbolt::git::cli::classify_stderr;
use gitbolt::git::error::GitError;
use gitbolt::git::history::parse_log;
use gitbolt::git::service::{BranchRef, ChangeStatus, CommitInfo, DiffText, GitService, Head, RepoStatus};
use gitbolt::app::state::HistoryFilter;
use std::collections::HashMap;
use gitbolt::git::stash::{parse_stash_list, stash_ref};
use gitbolt::git::status::{status_from_items, IndexChange, StatusItem, WorktreeChange};
use gitbolt::app::issue_link::detect_issue_refs;
use gitbolt::git::service::WorktreeRef;
use gitbolt::git::worktree::{
    find_created, mark_primary, parse_worktree_porcelain, worktree_create_check,
    worktree_remove_check,
};
use gitbolt::task::{Priority, TaskQueue};

#[test]
fn branch_refs_skip_remote_head() {
    let out = "refs/heads/main\tmain\t*\torigin/main\nrefs/heads/dev\tdev\t \t\nrefs/remotes/origin/HEAD\torigin/HEAD\t \t\nrefs/remotes/origin/main\torigin/main\t \t\n";
    let refs = parse_branch_refs(out);
    assert_eq!(refs.len(), 3);
    assert_eq!(refs[0].name, "main");
    assert!(refs[0].is_head);
    assert_eq!(refs[0].upstream.as_deref(), Some("origin/main"));
    assert!(!refs[1].is_head);
    assert_eq!(refs[1].upstream, None);
    assert!(refs[2].is_remote);
    assert_eq!(refs[2].name, "origin/main");
}

#[test]
fn branch_names_are_checked() {
    assert_eq!(validate_branch_name("  feature/x ").unwrap(), "feature/x");
    assert!(matches!(validate_branch_name("   "), Err(GitError::Backend(m)) if m == "branch name is empty"));
    assert!(matches!(validate_branch_name("a b"), Err(GitError::Backend(m)) if m == "invalid branch name: a b"));
    assert!(validate_branch_name("a..b").is_err());
    assert!(validate_branch_name("-x").is_err());
    assert_eq!(local_name_for_remote("origin/feature/nested"), "feature/nested");
    assert_eq!(local_name_for_remote("origin/"), "origin/");
}

#[test]
fn checkout_keeps_local_and_tracks_remote() {
    let refs = parse_branch_refs("refs/heads/main\tmain\t*\t\nrefs/heads/cursor/foo\tcursor/foo\t \t\nrefs/remotes/origin/feature/x\torigin/feature/x\t \t\n");
    assert_eq!(checkout_plan("cursor/foo", &refs), CheckoutPlan::Switch { name: "cursor/foo".to_string() });
    assert_eq!(
        checkout_plan("origin/feature/x", &refs),
        CheckoutPlan::Track { local: "feature/x".to_string(), remote: "origin/feature/x".to_string() }
    );
    assert_eq!(checkout_plan("v1.0", &refs), CheckoutPlan::Switch { name: "v1.0".to_string() });
}

#[test]
fn checkout_conflicts_are_sorted_and_joined() {
    let porcelain = " M b.txt\n M a.txt\n?? new.txt\n?? other.txt\n";
    assert_eq!(dirty_paths(porcelain), vec!["b.txt", "a.txt", "new.txt", "other.txt"]);
    let res = checkout_conflicts(porcelain, "a.txt\nb.txt\nzzz.txt\n", "new.txt\nkeep.txt\n");
    assert!(matches!(res, Err(GitError::Conflict(m))
        if m == "local changes would be overwritten by checkout: a.txt, b.txt, new.txt"));
    assert!(checkout_conflicts(porcelain, "unrelated.txt\n", "unrelated.txt\n").is_ok());
    assert!(checkout_conflicts("", "a\n", "a\n").is_ok());
}

#[test]
fn reflog_gives_recent_branches() {
    let out = "checkout: moving from main to feature\ncommit: x\ncheckout: moving from feature to main\ncheckout: moving from dev to feature\ncheckout: moving from a to HEAD\n";
    assert_eq!(recent_branches(out, 10), vec!["feature", "main"]);
    assert_eq!(recent_branches(out, 1), vec!["feature"]);
}

#[test]
fn rev_list_cherry_and_merged_outputs() {
    assert_eq!(parse_ahead_behind("3\t1"), (3, 1));
    assert_eq!(parse_ahead_behind("x"), (0, 0));
    assert!(parse_squash_merged("- abc\n- def\n"));
    assert!(!parse_squash_merged("- abc\n+ def\n"));
    assert!(!parse_squash_merged("\n"));
    assert_eq!(parse_merged("  main\n  done\n\n* feature\n", "main"), vec!["done", "* feature"]);
}

#[test]
fn log_lines_split_into_fields() {
    let out = "aaa\tfirst\tAnn\t100\tp1 p2\n\nbbb\tsecond\tBob\tnope\n";
    let commits = parse_log(out, 5);
    assert_eq!(commits.len(), 2);
    assert_eq!(commits[0].oid, "aaa");
    assert_eq!(commits[0].summary, "first");
    assert_eq!(commits[0].author, "Ann");
    assert_eq!(commits[0].time, 100);
    assert_eq!(commits[1].time, 0);
}

#[test]
fn stash_list_reads_indices() {
    let entries = parse_stash_list("stash@{0}\tWIP on main\nstash@{3}\tsaved\nbroken line\n");
    assert_eq!(entries.len(), 2);
    assert_eq!(entries[0].index, 0);
    assert_eq!(entries[0].message, "WIP on main");
    assert_eq!(entries[1].index, 3);
    assert_eq!(stash_ref(2), "stash@{2}");
}

#[test]
fn stderr_is_classified() {
    assert!(matches!(classify_stderr("fatal: Authentication failed for x\n"), GitError::Auth(m) if m == "fatal: Authentication failed for x"));
    assert!(matches!(classify_stderr("CONFLICT (content)"), GitError::Conflict(_)));
    assert!(matches!(classify_stderr("  boom "), GitError::Backend(m) if m == "boom"));
}

#[test]
fn porcelain_blame_reads_lines() {
    let oid = "0123456789abcdef0123456789abcdef01234567";
    let out = format!(
        "{oid} 1 1 2\nauthor Ann\nauthor-time 100\nsummary first\n\tline one\n{oid} 2 2\n\tline two\n"
    );
    let map = parse_line_porcelain(&out);
    assert_eq!(map.len(), 2);
    assert_eq!(map[&1].author, "Ann");
    assert_eq!(map[&2].summary, "first");
    assert_eq!(map[&2].time, 100);
    assert!(is_missing_path("fatal: no such path 'x' in HEAD"));
    assert!(!is_missing_path("fatal: something else"));
    assert_eq!(blame_ranges(&[8, 3, 2, 3, 10, 9]), vec![(2, 3), (8, 10)]);
}

#[test]
fn list_includes_primary_worktree_records() {
    let out = "worktree /repo\nHEAD abc\nbranch refs/heads/main\n\nworktree /repo-wt/feature\nHEAD def\nbranch refs/heads/feature\n\nworktree /repo-wt/detached\nHEAD 123\ndetached\n";
    let records = parse_worktree_porcelain(out);
    assert_eq!(records.len(), 3);
    assert_eq!(records[0].path, "/repo");
    assert_eq!(records[0].branch.as_deref(), Some("main"));
    assert_eq!(records[2].branch, None);
    let canonical = vec![Some("/repo".to_string()), Some("/repo-wt/feature".to_string()), None];
    let trees = mark_primary(records.clone(), &canonical, "/repo", Some("/repo".to_string()));
    assert!(trees[0].is_primary);
    assert!(!trees[1].is_primary);
    let trees = mark_primary(records, &canonical, "/elsewhere", Some("/elsewhere".to_string()));
    assert!(trees[0].is_primary);
    assert!(!trees[2].is_primary);
}

#[test]
fn status_items_are_grouped() {
    let items = vec![
        Ok(StatusItem::TreeIndex { path: "a".to_string(), change: IndexChange::Addition }),
        Ok(StatusItem::IndexWorktree { path: "b".to_string(), status: WorktreeChange::Modification }),
        Ok(StatusItem::IndexWorktree { path: "c".to_string(), status: WorktreeChange::Conflict }),
        Ok(StatusItem::DirectoryContents { path: "d".to_string() }),
        Ok(StatusItem::IndexWorktree { path: "e".to_string(), status: WorktreeChange::IntentToAdd }),
    ];
    let st = status_from_items(items).expect("status");
    assert_eq!(st.staged.len(), 1);
    assert_eq!(st.staged[0].status, ChangeStatus::Added);
    assert_eq!(st.unstaged.len(), 1);
    assert_eq!(st.conflicted.len(), 1);
    assert_eq!(st.untracked[0].path, "d");
    let failed = status_from_items(vec![Err("broken index".to_string())]);
    assert!(matches!(failed, Err(GitError::Backend(m)) if m == "broken index"));
}

#[test]
fn queue_runs_by_priority_then_fifo_and_drops_stale() {
    let mut q: TaskQueue<&'static str> = TaskQueue::new();
    q.submit(Priority::P3, Generation(0), "p3");
    q.submit(Priority::P1, Generation(0), "p1a");
    q.submit(Priority::P1, Generation(0), "p1b");
    q.submit(Priority::P0, Generation(0), "p0");
    assert_eq!(q.stats().queued, 4);
    let mut order = Vec::new();
    while let Some(t) = q.pop_ready() {
        order.push(t.job);
        q.finish();
    }
    assert_eq!(order, vec!["p0", "p1a", "p1b", "p3"]);

    let mut q: TaskQueue<u32> = TaskQueue::new();
    q.submit(Priority::P1, Generation(1), 111);
    q.set_generation(Generation(2));
    q.submit(Priority::P1, Generation(2), 222);
    q.set_generation(Generation(1));
    let t = q.pop_ready().expect("fresh task");
    assert_eq!(t.job, 222);
    assert_eq!(t.generation, Generation(2));
    assert_eq!(q.stats().running, 1);
    assert!(q.pop_ready().is_none());
    assert_eq!(q.stats().queued, 0);
}

#[test]
fn priorities_and_watch_reloads() {
    assert_eq!(command_priority(&Command::Commit { message: "m".to_string(), generation: Generation(0) }), Priority::P0);
    assert_eq!(command_priority(&Command::LoadStatus { generation: Generation(0) }), Priority::P2);
    assert_eq!(command_priority(&Command::AutoFetch { generation: Generation(0) }), Priority::P3);
    assert_eq!(watch_commands(false, Generation(4)).len(), 1);
    assert_eq!(watch_commands(true, Generation(4)).len(), 3);
}

#[test]
fn recent_store_roundtrip() {
    let paths = vec!["/a".to_string(), "/b".to_string()];
    let bytes = recent_to_bytes(&paths).expect("encode");
    assert_eq!(recent_from_bytes(&bytes), paths);
    assert!(recent_from_bytes(b"not json").is_empty());
}

struct FakeService;

impl GitService for FakeService {
    fn open(path: &str) -> Result<Self, GitError> {
        if path == "/repo" {
            Ok(FakeService)
        } else {
            Err(GitError::NotARepository(path.to_string()))
        }
    }

    fn head(&self) -> Result<Head, GitError> {
        Ok(Head { branch: Some("main".to_string()), oid: Some("abc".to_string()), detached: false })
    }

    fn status(&self) -> Result<RepoStatus, GitError> {
        Ok(RepoStatus::new())
    }

    fn diff(&self, path: &str, staged: bool) -> Result<DiffText, GitError> {
        Err(GitError::Backend(format!("diff {path} {staged}")))
    }

    fn stage(&self, _path: &str) -> Result<(), GitError> {
        Err(GitError::unsupported("stage"))
    }

    fn unstage(&self, path: &str) -> Result<(), GitError> {
        Err(GitError::Backend(format!("unstage {path}")))
    }

    fn stage_lines(&self, path: &str, from_staged: bool, selected: &[usize]) -> Result<(), GitError> {
        Err(GitError::Backend(format!("lines {path} {from_staged} {selected:?}")))
    }

    fn stage_all(&self) -> Result<(), GitError> {
        Ok(())
    }

    fn unstage_all(&self) -> Result<(), GitError> {
        Ok(())
    }

    fn commit(&self, message: &str) -> Result<String, GitError> {
        Ok(format!("oid-{message}"))
    }

    fn log_page(&self, skip: usize, limit: usize) -> Result<Vec<CommitInfo>, GitError> {
        Err(GitError::Backend(format!("page {skip} {limit}")))
    }

    fn blame(&self, path: &str) -> Result<HashMap<u32, CommitInfo>, GitError> {
        Err(GitError::Backend(format!("blame {path}")))
    }

    fn branches(&self) -> Result<Vec<BranchRef>, GitError> {
        Ok(vec![
            BranchRef { name: "main".to_string(), is_head: true, upstream: Some("origin/main".to_string()), is_remote: false },
            BranchRef { name: "origin/main".to_string(), is_head: false, upstream: None, is_remote: true },
        ])
    }

    fn merge_base(&self, a: &str, b: &str) -> Result<String, GitError> {
        Ok(format!("{a}^{b}"))
    }

    fn commits_not_in(&self, tip: &str, base: &str, limit: usize) -> Result<Vec<CommitInfo>, GitError> {
        Err(GitError::Backend(format!("not-in {tip} {base} {limit}")))
    }

    fn ahead_behind(&self, tip: &str, other: &str) -> Result<(u32, u32), GitError> {
        if tip == "main" && other == "origin/main" { Ok((2, 1)) } else { Err(GitError::Backend("no".to_string())) }
    }

    fn recent_branches(&self, limit: usize) -> Result<Vec<String>, GitError> {
        Ok(vec![format!("recent-{limit}")])
    }

    fn branch_last_commit(&self, _branch: &str) -> Result<Option<CommitInfo>, GitError> {
        Ok(None)
    }

    fn set_upstream(&self, branch: &str, upstream: &str) -> Result<(), GitError> {
        Err(GitError::Backend(format!("upstream {branch} {upstream}")))
    }

    fn create_branch(&self, name: &str) -> Result<(), GitError> {
        Err(GitError::Backend(format!("create {name}")))
    }

    fn checkout(&self, name: &str) -> Result<Head, GitError> {
        Ok(Head { branch: Some(name.to_string()), oid: None, detached: false })
    }

    fn delete_branch(&self, name: &str) -> Result<(), GitError> {
        Err(GitError::Backend(format!("delete {name}")))
    }

    fn worktrees(&self) -> Result<Vec<WorktreeRef>, GitError> {
        Ok(vec![WorktreeRef { path: "/repo".to_string(), branch: Some("main".to_string()), is_primary: true }])
    }
}

#[test]
fn executor_hands_the_command_arguments_to_the_service() {
    let repo = Some("/repo");
    let msg = execute::<FakeService>(&Command::Commit { message: "fix it".to_string(), generation: Generation(7) }, repo);
    assert!(matches!(msg, AppMessage::CommitCompleted { generation: Generation(7), result: Ok(ref oid) } if oid.0 == "oid-fix it"));
    let msg = execute::<FakeService>(
        &Command::LoadHistoryPage { filter: HistoryFilter::All, offset: 200, generation: Generation(8) },
        repo,
    );
    assert!(matches!(msg, AppMessage::HistoryPageLoaded { offset: 200, result: Err(ref e), .. } if e.ends_with("page 200 100")));
    let msg = execute::<FakeService>(
        &Command::StageLines { path: "a.rs".to_string(), from_staged: true, lines: vec![3, 4], generation: Generation(9) },
        repo,
    );
    assert!(matches!(msg, AppMessage::StageCompleted { result: Err(ref e), ref path, .. } if path == "a.rs" && e.ends_with("lines a.rs true [3, 4]")));
    let msg = execute::<FakeService>(&Command::Checkout { name: "topic".to_string(), generation: Generation(10) }, repo);
    assert!(matches!(msg, AppMessage::CheckoutCompleted { result: Ok(ref h), .. } if h.branch.as_deref() == Some("topic")));
    let msg = execute::<FakeService>(
        &Command::LoadDivergence { left: "a".to_string(), right: "b".to_string(), generation: Generation(11) },
        repo,
    );
    assert!(matches!(msg, AppMessage::DivergenceLoaded { result: Err(ref e), .. } if e.ends_with("not-in a a^b 100")));
    let msg = execute::<FakeService>(&Command::LoadBranches { generation: Generation(12) }, repo);
    match msg {
        AppMessage::BranchesLoaded { result: Ok(data), .. } => {
            assert_eq!(data.recent, vec!["recent-10".to_string()]);
            assert_eq!(data.branches.len(), 2);
        }
        other => panic!("unexpected: {other:?}"),
    }
    let msg = execute::<FakeService>(&Command::DeleteBranch { name: "old".to_string(), generation: Generation(13) }, repo);
    assert!(matches!(msg, AppMessage::BranchDeleted { result: Err(ref e), .. } if e.ends_with("delete old")));
}

#[test]
fn executor_answers_each_command() {
    let msg = execute::<FakeService>(
        &Command::OpenRepository { path: "/repo".to_string(), generation: Generation(1) },
        None,
    );
    match msg {
        AppMessage::RepositoryOpened { generation, result: Ok(data) } => {
            assert_eq!(generation, Generation(1));
            assert_eq!(data.head.branch.as_deref(), Some("main"));
        }
        other => panic!("unexpected: {other:?}"),
    }
    let msg = execute::<FakeService>(
        &Command::OpenRepository { path: "/tmp/none".to_string(), generation: Generation(2) },
        None,
    );
    assert!(matches!(msg, AppMessage::RepositoryOpened { result: Err(e), .. } if e.contains("Git リポジトリではありません")));
    let msg = execute::<FakeService>(&Command::LoadStatus { generation: Generation(3) }, None);
    assert!(matches!(msg, AppMessage::StatusLoaded { result: Err(e), .. } if e == "リポジトリが開かれていません"));
    let msg = execute::<FakeService>(&Command::Stage { path: "f.txt".to_string(), generation: Generation(4) }, Some("/repo"));
    assert!(matches!(msg, AppMessage::StageCompleted { result: Err(e), ref path, .. } if e == "未対応の操作です: stage" && path == "f.txt"));
    let msg = execute::<FakeService>(&Command::Fetch { generation: Generation(5) }, Some("/repo"));
    assert!(matches!(msg, AppMessage::RemoteCompleted { result: Err(e), .. } if e == "未対応の操作です: fetch"));
}

#[test]
fn worktree_create_and_remove_checks() {
    let trees = vec![
        WorktreeRef { path: "/repo".to_string(), branch: Some("main".to_string()), is_primary: true },
        WorktreeRef { path: "/wt/feature".to_string(), branch: Some("feature".to_string()), is_primary: false },
    ];
    assert_eq!(worktree_create_check(" topic ", "/wt/topic", false, &trees).unwrap(), "topic");
    assert!(matches!(worktree_create_check("", "/x", false, &trees), Err(GitError::Backend(m)) if m == "branch name is empty"));
    assert!(matches!(worktree_create_check("t", "/x", true, &trees), Err(GitError::Backend(m)) if m == "worktree path already exists: /x"));
    assert!(matches!(worktree_create_check("feature", "/y", false, &trees),
        Err(GitError::Backend(m)) if m == "branch 'feature' is already checked out in another worktree"));
    let canon = vec![None, Some("/real/wt/feature".to_string())];
    assert_eq!(find_created(&trees, &canon, "/elsewhere", "/real/wt/feature", "zzz").unwrap(), 1);
    assert!(find_created(&trees, &canon, "/none", "/none", "zzz").is_err());
    assert!(matches!(worktree_remove_check(&trees, "/repo"), Err(GitError::Backend(m)) if m == "cannot remove the primary worktree"));
    assert!(worktree_remove_check(&trees, "/wt/feature").is_ok());
    assert!(matches!(worktree_remove_check(&trees, "/gone"), Err(GitError::Backend(m)) if m == "worktree not found: /gone"));
}

#[test]
fn issue_refs_are_distinct_per_kind_and_number() {
    let refs = detect_issue_refs("#5 GH-5 https://h/x/pull/5 https://h/x/issues/5");
    assert_eq!(refs.len(), 2);
    assert!(refs[0].number == 5 && refs[1].number == 5 && refs[0].kind != refs[1].kind);
}
