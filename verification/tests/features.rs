use std::collections::HashMap;

use gitbolt::app::blame_format::{format_hover, format_minimal};
use gitbolt::app::branch_cleanup::{candidates, CleanupReason};
use gitbolt::app::branch_health::{
    classify_health, days_since, format_badge, SECONDS_PER_DAY, STALE_DAYS_THRESHOLD,
};
use gitbolt::app::conventional::{apply_scope, apply_type, suggest_scopes, suggest_types};
use gitbolt::app::diff_parse::{attach_change_origins, parse_diff_content};
use gitbolt::app::heatmap::heat_inputs;
use gitbolt::app::issue_link::{detect_issue_refs, resolve_issue_url, IssueKind, IssueRef};
use gitbolt::app::layout_prefs::split_path_display;
use gitbolt::app::model::{
    BranchHealth, BranchInfo, ChangeKind, CommitSummary, DiffContent, DiffTarget, FileChange,
    HeadInfo, Oid, View, WorktreeInfo,
};
use gitbolt::app::palette::{all_commands, filter_commands};
use gitbolt::app::pulse::{format_divergence, segment_view, summary, PulseSegment};
use gitbolt::app::quick_open::{collect_items, filter_items, QuickOpenKind};
use gitbolt::app::recent::push_recent;
use gitbolt::app::state::AppState;
use gitbolt::cache::{CacheKey, HeadScoped, RepoCaches};
use gitbolt::git::blame::coalesce_ranges;
use gitbolt::git::patch::build_partial_patch;
use gitbolt::git::remote_link::{commit_url, file_url, line_url, parse_remote_url, WebHostKind};
use gitbolt::git::service::CommitInfo;
use gitbolt::git::worktree::default_worktree_path;
use gitbolt::perf::workers::DEFAULT_WORKERS;
use gitbolt::platform::{mod_key_label, Platform};

// ---------------------------------------------------------------- palette

#[test]
fn filter_matches_label_substring() {
    let hits = filter_commands("fetch");
    assert_eq!(hits.len(), 1);
    assert_eq!(hits[0].id, "remote.fetch");
}

#[test]
fn empty_query_returns_all() {
    assert_eq!(filter_commands("").len(), all_commands().len());
}

// ---------------------------------------------------------------- quick open

#[test]
fn filter_files_by_path() {
    let mut state = AppState::new();
    state.changes.unstaged = vec![FileChange::new("src/main.rs".to_string(), ChangeKind::Modified)];
    let items = collect_items(&state);
    let hits = filter_items(&items, "main");
    assert_eq!(hits.len(), 1);
    assert_eq!(hits[0].kind, QuickOpenKind::File);
}

// ---------------------------------------------------------------- recent

#[test]
fn push_recent_dedupes_and_caps_at_ten() {
    let mut recent: Vec<String> = Vec::new();
    for i in 0..12 {
        push_recent(&mut recent, format!("/r{i}"));
    }
    assert_eq!(recent.len(), 10);
    assert_eq!(recent[0], "/r11");
    push_recent(&mut recent, "/r5".to_string());
    assert_eq!(recent[0], "/r5");
    assert_eq!(recent.iter().filter(|p| p.as_str() == "/r5").count(), 1);
}

// ---------------------------------------------------------------- conventional commits

#[test]
fn suggest_types_filters_prefix() {
    assert!(suggest_types("").contains(&"feat"));
    assert_eq!(suggest_types("fe"), vec!["feat"]);
    assert!(suggest_types("feat: done").is_empty());
}

#[test]
fn apply_type_preserves_subject() {
    assert_eq!(apply_type("", "fix"), "fix: ");
    assert_eq!(apply_type("feat: hello", "fix"), "fix: hello");
}

#[test]
fn apply_scope_builds_header() {
    assert_eq!(apply_scope("feat", "ui"), "feat(ui): ");
    assert_eq!(apply_scope("fix: bug", "git"), "fix(git): bug");
}

#[test]
fn suggest_scopes_from_paths() {
    let paths = vec!["src/ui/context.rs".to_string(), "src/git/remote.rs".to_string()];
    let scopes = suggest_scopes("feat", &paths);
    assert!(scopes.iter().any(|s| s == "ui"));
    assert!(scopes.iter().any(|s| s == "git"));
}

// ---------------------------------------------------------------- branch health

#[test]
fn days_since_counts_whole_days() {
    let now = 1_700_000_000;
    assert_eq!(days_since(now - 42 * SECONDS_PER_DAY, now), Some(42));
    assert_eq!(days_since(now, now), Some(0));
    assert_eq!(days_since(0, now), None);
}

#[test]
fn stale_overrides_upstream_health() {
    assert_eq!(classify_health(0, 0, true, Some(42), STALE_DAYS_THRESHOLD), BranchHealth::Stale);
    assert_eq!(classify_health(2, 1, true, Some(10), STALE_DAYS_THRESHOLD), BranchHealth::Diverged);
    assert_eq!(classify_health(0, 0, true, Some(29), STALE_DAYS_THRESHOLD), BranchHealth::Synced);
}

#[test]
fn format_badge_stale_includes_days() {
    assert_eq!(format_badge(BranchHealth::Stale, 0, 0, Some(42)), "◌ 42d");
    assert_eq!(format_badge(BranchHealth::Synced, 0, 0, None), "✓");
    assert_eq!(format_badge(BranchHealth::Ahead, 3, 0, None), "↑3");
}

// ---------------------------------------------------------------- branch cleanup

fn local(name: &str, health: BranchHealth, stale_days: Option<u32>) -> BranchInfo {
    BranchInfo {
        name: name.to_string(),
        upstream: None,
        health,
        ahead: 0,
        behind: 0,
        last_commit: None,
        is_remote: false,
        stale_days,
    }
}

#[test]
fn excludes_current_and_protected() {
    let branches = vec![
        local("main", BranchHealth::Synced, None),
        local("feature", BranchHealth::Synced, None),
        local("old", BranchHealth::Stale, Some(40)),
    ];
    let merged = vec!["feature".to_string(), "main".to_string()];
    let c = candidates(&branches, Some("feature"), &merged);
    assert!(c.iter().all(|x| x.name != "main" && x.name != "feature"));
    assert_eq!(c.len(), 1);
    assert_eq!(c[0].name, "old");
    assert_eq!(c[0].reason, CleanupReason::Stale);
}

#[test]
fn marks_merged() {
    let branches = vec![local("done", BranchHealth::Local, None)];
    let merged = vec!["done".to_string()];
    let c = candidates(&branches, Some("main"), &merged);
    assert_eq!(c[0].reason, CleanupReason::Merged);
}

// ---------------------------------------------------------------- blame format

fn sample(ts: i64) -> CommitSummary {
    CommitSummary {
        oid: Oid("a182df0123456789".to_string()),
        summary: "Optimize repository loading".to_string(),
        author: "Akira Yamada".to_string(),
        timestamp: ts,
    }
}

#[test]
fn minimal_and_hover_match_design() {
    let now = 1_700_000_000;
    let c = sample(now - 3 * 86_400);
    assert_eq!(format_minimal(&c, now), "Akira · 3d");
    assert_eq!(format_hover(&c, now), "Akira · 3 days ago · a182df0 · Optimize repository loading");
}

// ---------------------------------------------------------------- caches

fn diff_for(path: &str) -> DiffContent {
    DiffContent { target: DiffTarget { path: path.to_string(), staged: false }, hunks: vec![], notice: None }
}

#[test]
fn working_tree_change_invalidates_only_changed_paths() {
    let mut caches = RepoCaches::new();
    let head = Oid("deadbeef".to_string());
    caches.diff.insert(CacheKey::new(head.clone(), "a.rs".to_string()), diff_for("a.rs"));
    caches.diff.insert(CacheKey::new(head.clone(), "b.rs".to_string()), diff_for("b.rs"));
    assert_eq!(caches.diff.len(), 2);

    caches.on_working_tree_change(&vec!["a.rs".to_string()]);

    assert!(caches.diff.get(&CacheKey::new(head.clone(), "a.rs".to_string())).is_none());
    assert!(caches.diff.get(&CacheKey::new(head, "b.rs".to_string())).is_some());
    assert_eq!(caches.diff.len(), 1);
}

#[test]
fn head_change_invalidates_head_scoped_caches() {
    let mut caches = RepoCaches::new();
    let head = Oid("h1".to_string());
    caches.diff.insert(CacheKey::new(head.clone(), "a.rs".to_string()), diff_for("a.rs"));
    caches.history.set(head.clone(), vec![]);
    caches.branch_health.set(head.clone(), vec![]);
    caches.ahead_behind.set(head.clone(), vec![]);
    assert!(!caches.diff.is_empty());
    assert!(caches.history.get(&head).is_some());

    caches.on_head_change();

    assert!(caches.diff.is_empty());
    assert!(caches.history.is_empty());
    assert!(caches.branch_health.is_empty());
    assert!(caches.ahead_behind.is_empty());
}

#[test]
fn head_scoped_misses_after_head_moves() {
    let mut scoped: HeadScoped<u32> = HeadScoped::new();
    scoped.set(Oid("old".to_string()), 7);
    assert_eq!(scoped.get(&Oid("old".to_string())).as_deref(), Some(&7));
    assert!(scoped.get(&Oid("new".to_string())).is_none());
}

#[test]
fn cache_read_after_write_and_overwrite() {
    let mut caches = RepoCaches::new();
    let key = CacheKey::new(Oid("h".to_string()), "x.rs".to_string());
    caches.diff.insert(key.clone(), diff_for("x.rs"));
    caches.diff.insert(key.clone(), diff_for("y.rs"));
    assert_eq!(caches.diff.len(), 1);
    assert_eq!(caches.diff.get(&key).unwrap().target.path, "y.rs");
}

// ---------------------------------------------------------------- remote links

#[test]
fn parses_https_github() {
    let w = parse_remote_url("https://github.com/ai1411/gitbolt.git").unwrap();
    assert_eq!(w.kind, WebHostKind::GitHub);
    assert_eq!(w.web_base, "https://github.com/ai1411/gitbolt");
    assert_eq!(commit_url(&w, "abc123"), "https://github.com/ai1411/gitbolt/commit/abc123");
    assert_eq!(
        file_url(&w, "abc123", "src/main.rs"),
        "https://github.com/ai1411/gitbolt/blob/abc123/src/main.rs"
    );
    assert_eq!(
        line_url(&w, "abc123", "src/main.rs", 10),
        "https://github.com/ai1411/gitbolt/blob/abc123/src/main.rs#L10"
    );
}

#[test]
fn parses_ssh_github() {
    let w = parse_remote_url("git@github.com:ai1411/gitbolt.git").unwrap();
    assert_eq!(w.web_base, "https://github.com/ai1411/gitbolt");
}

#[test]
fn parses_gitlab_https() {
    let w = parse_remote_url("https://gitlab.com/group/proj.git").unwrap();
    assert_eq!(w.kind, WebHostKind::GitLab);
    assert_eq!(commit_url(&w, "deadbeef"), "https://gitlab.com/group/proj/-/commit/deadbeef");
    assert_eq!(line_url(&w, "main", "a.rs", 3), "https://gitlab.com/group/proj/-/blob/main/a.rs#L3");
}

#[test]
fn parses_bitbucket() {
    let w = parse_remote_url("https://bitbucket.org/team/repo.git").unwrap();
    assert_eq!(w.kind, WebHostKind::Bitbucket);
    assert_eq!(commit_url(&w, "abc"), "https://bitbucket.org/team/repo/commits/abc");
    assert_eq!(line_url(&w, "abc", "f.rs", 7), "https://bitbucket.org/team/repo/src/abc/f.rs#lines-7");
}

#[test]
fn rejects_local_path() {
    assert!(parse_remote_url("/tmp/bare.git").is_none());
    assert!(parse_remote_url("file:///tmp/bare.git").is_none());
}

#[test]
fn parses_ssh_url_scheme() {
    let w = parse_remote_url("ssh://git@github.com/ai1411/gitbolt.git").unwrap();
    assert_eq!(w.web_base, "https://github.com/ai1411/gitbolt");
}

#[test]
fn parses_nested_gitlab_group() {
    let w = parse_remote_url("git@gitlab.com:org/team/proj.git").unwrap();
    assert_eq!(w.kind, WebHostKind::GitLab);
    assert_eq!(w.web_base, "https://gitlab.com/org/team/proj");
}

// ---------------------------------------------------------------- workers and platform

#[test]
fn default_is_four_when_unset() {
    assert!((1..=16).contains(&DEFAULT_WORKERS));
    assert_eq!(4_usize.clamp(1, 16), 4);
}

#[test]
fn mod_key_label_is_nonempty() {
    for p in [Platform::MacOs, Platform::Windows, Platform::Linux] {
        assert!(!mod_key_label(p).is_empty());
    }
}

// ---------------------------------------------------------------- worktree paths

#[test]
fn default_path_sanitizes_branch() {
    let p = default_worktree_path("/tmp/app", "feature/auth");
    assert!(p.ends_with("app-worktrees/feature-auth"));
}

#[test]
fn split_path_display_separates_parent() {
    let (parent, name) = split_path_display("src/ui/changes.rs");
    assert_eq!(name, "changes.rs");
    assert_eq!(parent, "src/ui/");
}

// ---------------------------------------------------------------- pulse

fn change(path: &str) -> FileChange {
    FileChange::new(path.to_string(), ChangeKind::Modified)
}

fn branch(name: &str, upstream: Option<&str>, health: BranchHealth, ahead: u32, behind: u32, stale: Option<u32>) -> BranchInfo {
    BranchInfo {
        name: name.to_string(),
        upstream: upstream.map(|u| u.to_string()),
        health,
        ahead,
        behind,
        last_commit: None,
        is_remote: false,
        stale_days: stale,
    }
}

#[test]
fn summary_counts_and_branch_health() {
    let mut state = AppState::new();
    state.repository.head = HeadInfo {
        branch: Some("feature/auth".to_string()),
        oid: Some(Oid("abc".to_string())),
        detached: false,
    };
    state.branch.branches = vec![branch("feature/auth", Some("origin/feature/auth"), BranchHealth::Diverged, 3, 1, None)];
    state.changes.staged = vec![change("a"), change("b"), change("c"), change("d")];
    state.changes.unstaged = vec![change("e"), change("f")];
    state.changes.untracked = vec![change("g")];
    state.worktree.loaded = true;
    state.worktree.worktrees = vec![
        WorktreeInfo { path: "/a".to_string(), branch: Some("main".to_string()), is_primary: true },
        WorktreeInfo { path: "/b".to_string(), branch: Some("feature/auth".to_string()), is_primary: false },
        WorktreeInfo { path: "/c".to_string(), branch: None, is_primary: false },
    ];

    let p = summary(&state);
    assert_eq!(p.branch_label, "feature/auth");
    assert_eq!(p.ahead, Some(3));
    assert_eq!(p.behind, Some(1));
    assert_eq!(p.staged, 4);
    assert_eq!(p.changes, 3);
    assert_eq!(p.worktrees, 3);
    assert_eq!(format_divergence(&p), "↑3 ↓1");
}

#[test]
fn detached_and_no_upstream() {
    let mut state = AppState::new();
    state.repository.head = HeadInfo { branch: None, oid: Some(Oid("deadbeef0123".to_string())), detached: true };
    let p = summary(&state);
    assert!(p.branch_label.contains("detached"));
    assert_eq!(p.branch_label, "detached deadbee");
    assert!(format_divergence(&p).is_empty());

    state.repository.head.detached = false;
    state.repository.head.branch = Some("local-only".to_string());
    state.branch.branches = vec![branch("local-only", None, BranchHealth::Local, 0, 0, None)];
    let p = summary(&state);
    assert!(!p.has_upstream);
    assert_eq!(format_divergence(&p), "no upstream");
}

#[test]
fn stale_branch_shows_days_in_pulse() {
    let mut state = AppState::new();
    state.repository.head = HeadInfo { branch: Some("experiment".to_string()), oid: Some(Oid("abc".to_string())), detached: false };
    state.branch.branches = vec![branch("experiment", Some("origin/experiment"), BranchHealth::Stale, 0, 0, Some(42))];
    let p = summary(&state);
    assert_eq!(format_divergence(&p), "◌ 42d");
}

#[test]
fn segment_views_match_navigation() {
    assert_eq!(segment_view(PulseSegment::Branch), View::Branches);
    assert_eq!(segment_view(PulseSegment::Changes), View::Changes);
    assert_eq!(segment_view(PulseSegment::Worktrees), View::Worktrees);
}

#[test]
fn pulse_synced_and_one_sided_divergence() {
    let mut state = AppState::new();
    state.repository.head = HeadInfo { branch: Some("main".to_string()), oid: None, detached: false };
    state.branch.branches = vec![branch("main", Some("origin/main"), BranchHealth::Synced, 0, 0, None)];
    assert_eq!(format_divergence(&summary(&state)), "✓");
    state.branch.branches = vec![branch("main", Some("origin/main"), BranchHealth::Behind, 0, 2, None)];
    assert_eq!(format_divergence(&summary(&state)), "↓2");
    let empty = AppState::new();
    let p = summary(&empty);
    assert_eq!(p.branch_label, "(no branch)");
    assert_eq!(p.worktrees, 1);
}

// ---------------------------------------------------------------- diff parsing

fn target(path: &str) -> DiffTarget {
    DiffTarget { path: path.to_string(), staged: false }
}

#[test]
fn body_index_skips_preamble_and_counts_headers() {
    let text = "diff --git a/a.txt b/a.txt\n--- a/a.txt\n+++ b/a.txt\n@@ -1 +1,2 @@\n one\n+two\n";
    let content = parse_diff_content(target("a.txt"), text);
    assert_eq!(content.hunks[0].lines[0].body_index, 1);
    assert_eq!(content.hunks[0].lines[0].old_line, Some(1));
    assert_eq!(content.hunks[0].lines[0].new_line, Some(1));
    assert_eq!(content.hunks[0].lines[1].body_index, 2);
    assert_eq!(content.hunks[0].lines[1].origin, '+');
    assert_eq!(content.hunks[0].lines[1].old_line, None);
    assert_eq!(content.hunks[0].lines[1].new_line, Some(2));
}

#[test]
fn dual_line_numbers_on_replace() {
    let text = "diff --git a/a.txt b/a.txt\n--- a/a.txt\n+++ b/a.txt\n@@ -2 +2 @@\n-beta\n+BETA\n";
    let content = parse_diff_content(target("a.txt"), text);
    assert_eq!(content.hunks[0].lines[0].old_line, Some(2));
    assert_eq!(content.hunks[0].lines[0].new_line, None);
    assert_eq!(content.hunks[0].lines[1].old_line, None);
    assert_eq!(content.hunks[0].lines[1].new_line, Some(2));
}

#[test]
fn binary_diff_sets_notice() {
    let content = parse_diff_content(target("x.bin"), "binary\0data");
    assert!(content.hunks.is_empty());
    assert!(content.notice.as_deref().unwrap().contains("Binary"));
}

#[test]
fn attach_origins_joins_blame_on_old_lines() {
    let text = "diff --git a/a.txt b/a.txt\n--- a/a.txt\n+++ b/a.txt\n@@ -2 +2 @@\n-beta\n+BETA\n";
    let content = parse_diff_content(target("a.txt"), text);
    assert_eq!(content.hunks[0].lines[0].old_line, Some(2));
    let mut blame = HashMap::new();
    blame.insert(
        2u32,
        CommitInfo { oid: "abc".to_string(), summary: "seed".to_string(), author: "T".to_string(), time: 1 },
    );
    let joined = attach_change_origins(content, &blame);
    let origin = joined.hunks[0].lines[0].change_origin.as_ref().expect("origin");
    assert_eq!(origin.oid.0, "abc");
    assert_eq!(origin.summary, "seed");
    assert!(joined.hunks[0].lines[1].change_origin.is_none());
}

#[test]
fn empty_diff_and_second_hunk() {
    let content = parse_diff_content(target("a.txt"), "");
    assert!(content.hunks.is_empty());
    assert_eq!(content.notice.as_deref(), Some("No textual diff"));

    let text = "--- a/a\n+++ b/a\n@@ -1,2 +1,2 @@\n a\n-b\n+c\n@@ -10 +10 @@\n x\n";
    let content = parse_diff_content(target("a"), text);
    assert_eq!(content.hunks.len(), 2);
    assert_eq!(content.hunks[0].header, "@@ -1,2 +1,2 @@");
    assert_eq!(content.hunks[0].lines.len(), 3);
    assert_eq!(content.hunks[0].lines[1].content, "b");
    assert_eq!(content.hunks[1].lines[0].body_index, 5);
    assert_eq!(content.hunks[1].lines[0].old_line, Some(10));
    assert_eq!(content.hunks[1].lines[0].new_line, Some(10));
}

// ---------------------------------------------------------------- issue links

#[test]
fn detects_hash_and_gh_prefix() {
    let refs = detect_issue_refs("fix: crash (#76) and GH-12 leftover");
    assert!(refs.iter().any(|r| r.number == 76 && r.raw == "#76"));
    assert!(refs.iter().any(|r| r.number == 12 && r.raw.eq_ignore_ascii_case("GH-12")));
}

#[test]
fn detects_github_urls() {
    let refs = detect_issue_refs(
        "see https://github.com/ai1411/gitbolt/pull/91 and /issues/75 elsewhere https://github.com/ai1411/gitbolt/issues/75",
    );
    assert!(refs.iter().any(|r| r.kind == IssueKind::PullRequest && r.number == 91));
    assert!(refs.iter().any(|r| r.kind == IssueKind::Issue && r.number == 75));
}

#[test]
fn resolves_github_urls() {
    let web = parse_remote_url("https://github.com/ai1411/gitbolt.git").unwrap();
    let issue = IssueRef { kind: IssueKind::Issue, number: 76, raw: "#76".to_string() };
    assert_eq!(
        resolve_issue_url(&web, &issue).as_deref(),
        Some("https://github.com/ai1411/gitbolt/issues/76")
    );
    let pr = IssueRef { kind: IssueKind::PullRequest, number: 91, raw: "pull/91".to_string() };
    assert_eq!(resolve_issue_url(&web, &pr).as_deref(), Some("https://github.com/ai1411/gitbolt/pull/91"));
}

#[test]
fn dedupes_same_number() {
    let refs = detect_issue_refs("#76 and again #76");
    assert_eq!(refs.iter().filter(|r| r.number == 76).count(), 1);
}

#[test]
fn issue_refs_skip_words_and_long_numbers() {
    let refs = detect_issue_refs("abc#12 and #123456789 and xgh-3");
    assert!(refs.is_empty());
    let gl = parse_remote_url("https://gitlab.com/g/p.git").unwrap();
    let pr = IssueRef { kind: IssueKind::PullRequest, number: 5, raw: "!5".to_string() };
    assert_eq!(resolve_issue_url(&gl, &pr).as_deref(), Some("https://gitlab.com/g/p/-/merge_requests/5"));
}

// ---------------------------------------------------------------- blame ranges

#[test]
fn coalesce_ranges_merges_contiguous() {
    assert_eq!(coalesce_ranges(&[1, 2, 3, 5, 7, 8]), vec![(1, 3), (5, 5), (7, 8)]);
}

// ---------------------------------------------------------------- partial patches

const SAMPLE: &str = "diff --git a/file.txt b/file.txt\nindex 1111111..2222222 100644\n--- a/file.txt\n+++ b/file.txt\n@@ -1,2 +1,4 @@\n line1\n-line2\n+line2b\n+line3\n+line4\n";

#[test]
fn selects_single_addition_line() {
    let patch = build_partial_patch(SAMPLE, &[4]).expect("patch");
    assert!(patch.contains("+line3"), "{patch}");
    assert!(!patch.contains("+line2b"), "{patch}");
    assert!(!patch.contains("+line4"), "{patch}");
    assert!(patch.contains("-line2") || patch.contains(" line2"), "{patch}");
}

#[test]
fn empty_selection_errors() {
    assert!(build_partial_patch(SAMPLE, &[]).is_err());
}

#[test]
fn partial_patch_recounts_header() {
    let patch = build_partial_patch(SAMPLE, &[4]).expect("patch");
    assert!(patch.contains("@@ -1,2 +1,3 @@\n line1\n line2\n+line3\n"), "{patch}");
    assert!(patch.starts_with("diff --git a/file.txt b/file.txt\n"));
    let removal = build_partial_patch(SAMPLE, &[2]).expect("patch");
    assert!(removal.contains("@@ -1,2 +1,1 @@\n line1\n-line2\n"), "{removal}");
    assert!(build_partial_patch("no header here", &[1]).is_err());
}

// ---------------------------------------------------------------- heatmap inputs

#[test]
fn heat_inputs_count_shared_commits() {
    let text = "--- a/a\n+++ b/a\n@@ -1,3 +1,3 @@\n a\n-b\n c\n";
    let content = parse_diff_content(target("a"), text);
    let mut blame = HashMap::new();
    blame.insert(1u32, CommitInfo { oid: "x".to_string(), summary: String::new(), author: String::new(), time: 5 });
    blame.insert(2u32, CommitInfo { oid: "x".to_string(), summary: String::new(), author: String::new(), time: 5 });
    blame.insert(3u32, CommitInfo { oid: "y".to_string(), summary: String::new(), author: String::new(), time: 9 });
    let joined = attach_change_origins(content, &blame);
    let (inputs, max) = heat_inputs(&joined);
    assert_eq!(inputs.len(), 3);
    assert_eq!(inputs[0].body_index, 1);
    assert_eq!(inputs[0].count, 2);
    assert_eq!(inputs[2].count, 1);
    assert_eq!(inputs[2].timestamp, 9);
    assert_eq!(max, 2);
}
