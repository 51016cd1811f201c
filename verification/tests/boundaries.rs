use gitbolt::app::blame_format::format_hover;
use gitbolt::app::command::Command;
use gitbolt::app::layout_prefs::split_path_display;
use gitbolt::app::model::CommitSummary;
use gitbolt::app::pulse::{head_labelable, summary};
use gitbolt::app::recent::push_recent;
use gitbolt::git::service::WorktreeRef;
use gitbolt::git::worktree::{default_worktree_path, worktree_remove_check};
use gitbolt::path::same_path_exec;
use gitbolt::app::completion::is_fatal_lowered;
use gitbolt::app::event::UiEvent;
use gitbolt::app::message::AppMessage;
use gitbolt::app::model::{DiffContent, DiffTarget, Generation, Oid, View};
use gitbolt::app::palette::matches_lowered;
use gitbolt::app::quick_open::item_matches_lowered;
use gitbolt::app::reducer::reduce;
use gitbolt::app::session::{cached_diff_reply, diff_to_keep};
use gitbolt::app::state::AppState;
use gitbolt::cache::{Cache, CacheKey};
use gitbolt::git::branch::{delete_flag, delete_target};
use gitbolt::git::cli::classify_lowered;
use gitbolt::git::error::GitError;
use gitbolt::perf::memory::{proc_kib, ps_kib};
use gitbolt::perf::thresholds::{budget_label, Budget};

#[test]
fn delete_target_refuses_checked_out_branch() {
    assert!(matches!(delete_target("main", Some("main")), Err(GitError::Backend(_))));
    assert_eq!(delete_target("topic", Some("main")).unwrap(), "topic");
    assert_eq!(delete_flag(true), "-D");
    assert_eq!(delete_flag(false), "-d");
}

#[test]
fn classification_reads_the_lowered_text() {
    assert!(matches!(classify_lowered(" Nope ", "authentication failed"), GitError::Auth(m) if m == "Nope"));
    assert!(matches!(classify_lowered("CONFLICT", "conflict"), GitError::Conflict(m) if m == "CONFLICT"));
    assert!(matches!(classify_lowered("CONFLICT", "CONFLICT"), GitError::Backend(m) if m == "CONFLICT"));
    assert!(is_fatal_lowered("fatal: not a git repository"));
    assert!(!is_fatal_lowered("fatal: Not A Git Repository"));
}

#[test]
fn lowered_matching_of_commands_and_entries() {
    assert!(matches_lowered("", "x", "y", "z"));
    assert!(matches_lowered("sta", "stage all", "", ""));
    assert!(matches_lowered("ctrl", "go", "nav.go", "ctrl+1"));
    assert!(!matches_lowered("zzz", "stage all", "stage.all", ""));
    assert!(item_matches_lowered("src", "main.rs", "src/main.rs"));
    assert!(!item_matches_lowered("lib", "main.rs", "src/main.rs"));
}

#[test]
fn resident_size_from_status_text() {
    let status = "Name:\tgitbolt\nVmPeak:\t 9000 kB\nVmRSS:\t   1234 kB\n";
    assert_eq!(proc_kib(status, "VmRSS:"), Some(1234));
    assert_eq!(proc_kib(status, "VmSwap:"), None);
    assert_eq!(proc_kib("VmRSS:\n", "VmRSS:"), None);
    assert_eq!(ps_kib("  5678\n"), Some(5678));
    assert_eq!(ps_kib(""), None);
    assert_eq!(ps_kib("12x"), None);
}

#[test]
fn cache_length_follows_inserts_and_invalidation() {
    let mut cache: Cache<u32> = Cache::new();
    cache.insert(CacheKey::new(Oid("h1".to_string()), "a.rs".to_string()), 1);
    assert_eq!(cache.len(), 1);
    cache.insert(CacheKey::new(Oid("h1".to_string()), "a.rs".to_string()), 2);
    assert_eq!(cache.len(), 1);
    cache.insert(CacheKey::new(Oid("h2".to_string()), "a.rs".to_string()), 3);
    cache.insert(CacheKey::new(Oid("h1".to_string()), "b.rs".to_string()), 4);
    assert_eq!(cache.len(), 3);
    cache.invalidate_path("a.rs");
    assert_eq!(cache.len(), 1);
}

#[test]
fn cached_diff_answers_only_the_same_side() {
    let mut state = AppState::new();
    let target = DiffTarget { path: "a.rs".to_string(), staged: false };
    let content = DiffContent { target: target.clone(), hunks: Vec::new(), notice: None };
    let loaded = AppMessage::DiffLoaded { generation: Generation(0), result: Ok(content.clone()) };
    assert!(diff_to_keep(&state, &loaded).is_none());
    state.repository.head.oid = Some(Oid("abc".to_string()));
    let (key, kept) = diff_to_keep(&state, &loaded).expect("kept");
    assert_eq!(kept, content);
    let mut cache: Cache<DiffContent> = Cache::new();
    cache.insert(key, kept);
    let ask = Command::LoadDiff { target: target.clone(), generation: Generation(3) };
    match cached_diff_reply(&state, &cache, &ask) {
        Some(AppMessage::DiffLoaded { generation, result: Ok(c) }) => {
            assert_eq!(generation, Generation(3));
            assert_eq!(c, content);
        }
        other => panic!("unexpected: {other:?}"),
    }
    let staged = Command::LoadDiff { target: DiffTarget { path: "a.rs".to_string(), staged: true }, generation: Generation(3) };
    assert!(cached_diff_reply(&state, &cache, &staged).is_none());
    let other = Command::LoadDiff { target: DiffTarget { path: "b.rs".to_string(), staged: false }, generation: Generation(3) };
    assert!(cached_diff_reply(&state, &cache, &other).is_none());
}

#[test]
fn navigation_keeps_recent_repositories() {
    let mut state = AppState::new();
    state.repository.recent = vec!["/a".to_string(), "/b".to_string()];
    let generation = state.generation;
    let _ = reduce(&mut state, UiEvent::SelectView(View::History));
    assert_eq!(state.repository.recent, vec!["/a".to_string(), "/b".to_string()]);
    assert_eq!(state.generation, generation);
}

#[test]
fn budget_labels_follow_the_outcome() {
    assert_eq!(budget_label(Budget::classify_u64(10, 20, 30)), "ok");
    assert_eq!(budget_label(Budget::classify_u64(25, 20, 30)), "warn");
    assert_eq!(budget_label(Budget::classify_u64(31, 20, 30)), "fail");
}

#[test]
fn object_ids_are_shortened_by_bytes() {
    let c = CommitSummary {
        oid: Oid("a\u{e9}\u{e9}\u{e9}\u{e9}".to_string()),
        summary: "s".to_string(),
        author: "Akira".to_string(),
        timestamp: 0,
    };
    assert_eq!(format_hover(&c, 0), "Akira · today · a\u{e9}\u{e9}\u{e9} · s");
    let mut state = AppState::new();
    state.repository.head.detached = true;
    state.repository.head.oid = Some(Oid("a\u{e9}\u{e9}\u{e9}\u{e9}".to_string()));
    assert!(head_labelable(&state));
    assert_eq!(summary(&state).branch_label, "detached a\u{e9}\u{e9}\u{e9}");
    state.repository.head.oid = Some(Oid("\u{e9}\u{e9}\u{e9}\u{e9}".to_string()));
    assert!(!head_labelable(&state));
}

#[test]
fn paths_end_as_path_reads_them() {
    let (parent, name) = split_path_display("foo/.");
    assert_eq!((parent.as_str(), name.as_str()), ("", "foo"));
    let (parent, name) = split_path_display("a/./b");
    assert_eq!((parent.as_str(), name.as_str()), ("a/", "b"));
    assert_eq!(default_worktree_path("/tmp/app/.", "x"), "/tmp/app-worktrees/x");
}

#[test]
fn paths_compare_by_components() {
    assert!(same_path_exec("/a/", "/a"));
    assert!(same_path_exec("src//a.rs", "src/./a.rs"));
    assert!(!same_path_exec("./a.rs", "a.rs"));
    assert!(!same_path_exec("/a", "a"));
    let mut recent = vec!["/a/".to_string(), "/b".to_string()];
    push_recent(&mut recent, "/a".to_string());
    assert_eq!(recent, vec!["/a".to_string(), "/b".to_string()]);
    let mut cache: Cache<u32> = Cache::new();
    cache.insert(CacheKey::new(Oid("h".to_string()), "src/a.rs".to_string()), 1);
    cache.insert(CacheKey::new(Oid("h".to_string()), "src//a.rs".to_string()), 2);
    assert_eq!(cache.len(), 1);
    cache.invalidate_path("src/./a.rs");
    assert!(cache.is_empty());
}

#[test]
fn worktree_paths_compare_by_components() {
    let trees = vec![
        WorktreeRef { path: "/repo".to_string(), branch: Some("main".to_string()), is_primary: true },
        WorktreeRef { path: "/wt/feature".to_string(), branch: Some("feature".to_string()), is_primary: false },
    ];
    assert!(matches!(worktree_remove_check(&trees, "/repo/"), Err(GitError::Backend(m)) if m == "cannot remove the primary worktree"));
    assert!(worktree_remove_check(&trees, "/wt//feature").is_ok());
}
