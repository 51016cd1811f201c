//! The command palette: the list of commands, their filtering by a query and
//! the event each one stands for.
use vstd::prelude::*;

use crate::app::event::{UiEvent, UiEventV};
use crate::app::model::View;
#[allow(unused_imports)]
use vstd::view::View as _;
use crate::dup::{vec_push, Dup};
use crate::text::{chars_of, contains, contains_exec, push_str, string_of, to_lowercase, trim, trim_str, lowercase_of};

verus! {

/// What a palette entry does when confirmed.
#[derive(Debug, Clone, Copy, PartialEq, Eq)]
pub enum PaletteAction {
    GoChanges,
    GoHistory,
    GoBranches,
    InstantWorktree,
    Fetch,
    Pull,
    Push,
    StageAll,
    UnstageAll,
    FocusCommit,
    Commit,
    ToggleContext,
    StashSave,
    ToggleQuickOpen,
    CommitBack,
    CommitForward,
    ToggleHeatmap,
    /// Insert or replace the Conventional Commit type of the message.
    ConventionalType(&'static str),
    SwitchRepository,
}

pub enum PaletteActionV {
    GoChanges,
    GoHistory,
    GoBranches,
    InstantWorktree,
    Fetch,
    Pull,
    Push,
    StageAll,
    UnstageAll,
    FocusCommit,
    Commit,
    ToggleContext,
    StashSave,
    ToggleQuickOpen,
    CommitBack,
    CommitForward,
    ToggleHeatmap,
    ConventionalType(Seq<char>),
    SwitchRepository,
}

impl DeepView for PaletteAction {
    type V = PaletteActionV;

    open spec fn deep_view(&self) -> PaletteActionV {
        match self {
            PaletteAction::GoChanges => PaletteActionV::GoChanges,
            PaletteAction::GoHistory => PaletteActionV::GoHistory,
            PaletteAction::GoBranches => PaletteActionV::GoBranches,
            PaletteAction::InstantWorktree => PaletteActionV::InstantWorktree,
            PaletteAction::Fetch => PaletteActionV::Fetch,
            PaletteAction::Pull => PaletteActionV::Pull,
            PaletteAction::Push => PaletteActionV::Push,
            PaletteAction::StageAll => PaletteActionV::StageAll,
            PaletteAction::UnstageAll => PaletteActionV::UnstageAll,
            PaletteAction::FocusCommit => PaletteActionV::FocusCommit,
            PaletteAction::Commit => PaletteActionV::Commit,
            PaletteAction::ToggleContext => PaletteActionV::ToggleContext,
            PaletteAction::StashSave => PaletteActionV::StashSave,
            PaletteAction::ToggleQuickOpen => PaletteActionV::ToggleQuickOpen,
            PaletteAction::CommitBack => PaletteActionV::CommitBack,
            PaletteAction::CommitForward => PaletteActionV::CommitForward,
            PaletteAction::ToggleHeatmap => PaletteActionV::ToggleHeatmap,
            PaletteAction::ConventionalType(t) => PaletteActionV::ConventionalType(t@),
            PaletteAction::SwitchRepository => PaletteActionV::SwitchRepository,
        }
    }
}

/// One palette entry.
#[derive(Debug, Clone, PartialEq, Eq)]
pub struct PaletteCommand {
    pub id: &'static str,
    pub label: &'static str,
    /// Keyboard shortcut shown beside the label (may be empty).
    pub keys: &'static str,
    pub event: PaletteAction,
}

pub struct PaletteCommandV {
    pub id: Seq<char>,
    pub label: Seq<char>,
    pub keys: Seq<char>,
    pub event: PaletteActionV,
}

impl DeepView for PaletteCommand {
    type V = PaletteCommandV;

    open spec fn deep_view(&self) -> PaletteCommandV {
        PaletteCommandV {
            id: self.id@,
            label: self.label@,
            keys: self.keys@,
            event: self.event.deep_view(),
        }
    }
}

impl Dup for PaletteCommand {
    fn dup(&self) -> (r: PaletteCommand) {
        PaletteCommand { id: self.id, label: self.label, keys: self.keys, event: self.event }
    }
}

/// Every palette command, in display order.
pub open spec fn palette_table() -> Seq<PaletteCommandV> {
    seq![
        PaletteCommandV { id: "go.changes"@, label: "Go to Changes"@, keys: ""@, event: PaletteActionV::GoChanges },
        PaletteCommandV { id: "go.history"@, label: "Go to History"@, keys: "H"@, event: PaletteActionV::GoHistory },
        PaletteCommandV { id: "go.branches"@, label: "Go to Branches"@, keys: "B"@, event: PaletteActionV::GoBranches },
        PaletteCommandV { id: "worktree.instant"@, label: "Instant Worktree"@, keys: "W"@, event: PaletteActionV::InstantWorktree },
        PaletteCommandV { id: "remote.fetch"@, label: "Fetch"@, keys: "F"@, event: PaletteActionV::Fetch },
        PaletteCommandV { id: "remote.pull"@, label: "Pull"@, keys: ""@, event: PaletteActionV::Pull },
        PaletteCommandV { id: "remote.push"@, label: "Push"@, keys: ""@, event: PaletteActionV::Push },
        PaletteCommandV { id: "stage.all"@, label: "Stage All"@, keys: ""@, event: PaletteActionV::StageAll },
        PaletteCommandV { id: "unstage.all"@, label: "Unstage All"@, keys: ""@, event: PaletteActionV::UnstageAll },
        PaletteCommandV { id: "commit.focus"@, label: "Focus Commit Message"@, keys: "C"@, event: PaletteActionV::FocusCommit },
        PaletteCommandV { id: "commit.run"@, label: "Commit"@, keys: "⌘Enter"@, event: PaletteActionV::Commit },
        PaletteCommandV { id: "panel.toggle"@, label: "Toggle Context Panel"@, keys: "⌘I"@, event: PaletteActionV::ToggleContext },
        PaletteCommandV { id: "stash.save"@, label: "Stash Changes"@, keys: ""@, event: PaletteActionV::StashSave },
        PaletteCommandV { id: "quick.open"@, label: "Quick Open"@, keys: "⌘P"@, event: PaletteActionV::ToggleQuickOpen },
        PaletteCommandV { id: "commit.back"@, label: "Commit Back"@, keys: "⌘["@, event: PaletteActionV::CommitBack },
        PaletteCommandV { id: "commit.forward"@, label: "Commit Forward"@, keys: "⌘]"@, event: PaletteActionV::CommitForward },
        PaletteCommandV { id: "diff.heatmap"@, label: "Toggle Blame Heatmap"@, keys: ""@, event: PaletteActionV::ToggleHeatmap },
        PaletteCommandV { id: "commit.type.feat"@, label: "Commit type: feat"@, keys: ""@, event: PaletteActionV::ConventionalType("feat"@) },
        PaletteCommandV { id: "commit.type.fix"@, label: "Commit type: fix"@, keys: ""@, event: PaletteActionV::ConventionalType("fix"@) },
        PaletteCommandV { id: "commit.type.docs"@, label: "Commit type: docs"@, keys: ""@, event: PaletteActionV::ConventionalType("docs"@) },
        PaletteCommandV { id: "commit.type.chore"@, label: "Commit type: chore"@, keys: ""@, event: PaletteActionV::ConventionalType("chore"@) },
        PaletteCommandV { id: "commit.type.refactor"@, label: "Commit type: refactor"@, keys: ""@, event: PaletteActionV::ConventionalType("refactor"@) },
        PaletteCommandV { id: "commit.type.test"@, label: "Commit type: test"@, keys: ""@, event: PaletteActionV::ConventionalType("test"@) },
        PaletteCommandV { id: "repo.switch"@, label: "Switch Repository"@, keys: ""@, event: PaletteActionV::SwitchRepository },
    ]
}

/// Returns every palette command, in display order.
pub fn all_commands() -> (r: Vec<PaletteCommand>)
    ensures
        r.deep_view() == palette_table(),
{
    let mut v: Vec<PaletteCommand> = Vec::new();
    v.push(PaletteCommand { id: "go.changes", label: "Go to Changes", keys: "", event: PaletteAction::GoChanges });
    v.push(PaletteCommand { id: "go.history", label: "Go to History", keys: "H", event: PaletteAction::GoHistory });
    v.push(PaletteCommand { id: "go.branches", label: "Go to Branches", keys: "B", event: PaletteAction::GoBranches });
    v.push(PaletteCommand { id: "worktree.instant", label: "Instant Worktree", keys: "W", event: PaletteAction::InstantWorktree });
    v.push(PaletteCommand { id: "remote.fetch", label: "Fetch", keys: "F", event: PaletteAction::Fetch });
    v.push(PaletteCommand { id: "remote.pull", label: "Pull", keys: "", event: PaletteAction::Pull });
    v.push(PaletteCommand { id: "remote.push", label: "Push", keys: "", event: PaletteAction::Push });
    v.push(PaletteCommand { id: "stage.all", label: "Stage All", keys: "", event: PaletteAction::StageAll });
    v.push(PaletteCommand { id: "unstage.all", label: "Unstage All", keys: "", event: PaletteAction::UnstageAll });
    v.push(PaletteCommand { id: "commit.focus", label: "Focus Commit Message", keys: "C", event: PaletteAction::FocusCommit });
    v.push(PaletteCommand { id: "commit.run", label: "Commit", keys: "⌘Enter", event: PaletteAction::Commit });
    v.push(PaletteCommand { id: "panel.toggle", label: "Toggle Context Panel", keys: "⌘I", event: PaletteAction::ToggleContext });
    v.push(PaletteCommand { id: "stash.save", label: "Stash Changes", keys: "", event: PaletteAction::StashSave });
    v.push(PaletteCommand { id: "quick.open", label: "Quick Open", keys: "⌘P", event: PaletteAction::ToggleQuickOpen });
    v.push(PaletteCommand { id: "commit.back", label: "Commit Back", keys: "⌘[", event: PaletteAction::CommitBack });
    v.push(PaletteCommand { id: "commit.forward", label: "Commit Forward", keys: "⌘]", event: PaletteAction::CommitForward });
    v.push(PaletteCommand { id: "diff.heatmap", label: "Toggle Blame Heatmap", keys: "", event: PaletteAction::ToggleHeatmap });
    v.push(PaletteCommand { id: "commit.type.feat", label: "Commit type: feat", keys: "", event: PaletteAction::ConventionalType("feat") });
    v.push(PaletteCommand { id: "commit.type.fix", label: "Commit type: fix", keys: "", event: PaletteAction::ConventionalType("fix") });
    v.push(PaletteCommand { id: "commit.type.docs", label: "Commit type: docs", keys: "", event: PaletteAction::ConventionalType("docs") });
    v.push(PaletteCommand { id: "commit.type.chore", label: "Commit type: chore", keys: "", event: PaletteAction::ConventionalType("chore") });
    v.push(PaletteCommand { id: "commit.type.refactor", label: "Commit type: refactor", keys: "", event: PaletteAction::ConventionalType("refactor") });
    v.push(PaletteCommand { id: "commit.type.test", label: "Commit type: test", keys: "", event: PaletteAction::ConventionalType("test") });
    v.push(PaletteCommand { id: "repo.switch", label: "Switch Repository", keys: "", event: PaletteAction::SwitchRepository });
    assert(v.deep_view() =~= palette_table());
    v
}

/// Whether a command matches the lower-cased `needle`: every command matches
/// an empty needle, else its label, id or keys (lower-cased) must contain it.
pub open spec fn palette_matches(needle: Seq<char>) -> spec_fn(PaletteCommandV) -> bool {
    |c: PaletteCommandV| lowered_match(needle, lowercase_of(c.label), lowercase_of(c.id), lowercase_of(c.keys))
}

/// Whether the lower-cased `needle` is empty or occurs in one of the
/// lower-cased label, id or keys.
pub open spec fn lowered_match(needle: Seq<char>, label: Seq<char>, id: Seq<char>, keys: Seq<char>) -> bool {
    needle.len() == 0 || contains(label, needle) || contains(id, needle) || contains(keys, needle)
}

/// Matches a lower-cased needle against a command's lower-cased texts.
pub fn matches_lowered(needle: &str, label: &str, id: &str, keys: &str) -> (r: bool)
    ensures
        r == lowered_match(needle@, label@, id@, keys@),
{
    let n = chars_of(needle);
    n.len() == 0 || contains_exec(&chars_of(label), &n) || contains_exec(&chars_of(id), &n)
        || contains_exec(&chars_of(keys), &n)
}

/// The commands that match `query` (trimmed and lower-cased), in order.
pub open spec fn filter_commands_of(query: Seq<char>) -> Seq<PaletteCommandV> {
    palette_table().filter(palette_matches(lowercase_of(trim(query))))
}

/// Returns the commands matching `query` (case-insensitive substring of the
/// label, id or keys); all of them for an empty query.
pub fn filter_commands(query: &str) -> (r: Vec<PaletteCommand>)
    ensures
        r.deep_view() == filter_commands_of(query@),
{
    let t = trim_str(query);
    let needle_s = to_lowercase(t.as_str());
    let needle = chars_of(needle_s.as_str());
    let all = all_commands();
    let ghost pred = palette_matches(needle@);
    let ghost tab = palette_table();
    let mut out: Vec<PaletteCommand> = Vec::new();
    let mut i: usize = 0;
    while i < all.len()
        invariant
            i <= all.len(),
            all.deep_view() == tab,
            tab == palette_table(),
            pred == palette_matches(needle@),
            needle@ == needle_s@,
            out.deep_view() == tab.take(i as int).filter(pred),
        decreases all.len() - i,
    {
        proof {
            assert(tab.take(i + 1) =~= tab.take(i as int).push(tab[i as int]));
            tab.take(i as int).lemma_filter_push(tab[i as int], pred);
        }
        let c = &all[i];
        let keep = if needle.len() == 0 {
            true
        } else {
            let l = to_lowercase(c.label);
            let d = to_lowercase(c.id);
            let k = to_lowercase(c.keys);
            matches_lowered(needle_s.as_str(), l.as_str(), d.as_str(), k.as_str())
        };
        assert(keep == pred(tab[i as int]));
        if keep {
            vec_push(&mut out, c.dup());
        }
        i = i + 1;
    }
    assert(tab.take(tab.len() as int) =~= tab);
    out
}

/// The event a palette action stands for.
pub open spec fn action_event(action: PaletteActionV) -> UiEventV {
    match action {
        PaletteActionV::GoChanges => UiEventV::SelectView(View::Changes),
        PaletteActionV::GoHistory => UiEventV::SelectView(View::History),
        PaletteActionV::GoBranches => UiEventV::SelectView(View::Branches),
        PaletteActionV::InstantWorktree => UiEventV::InstantWorktree { branch: Seq::empty() },
        PaletteActionV::Fetch => UiEventV::Fetch,
        PaletteActionV::Pull => UiEventV::Pull,
        PaletteActionV::Push => UiEventV::Push,
        PaletteActionV::StageAll => UiEventV::StageAll,
        PaletteActionV::UnstageAll => UiEventV::UnstageAll,
        PaletteActionV::FocusCommit => UiEventV::FocusCommitInput,
        PaletteActionV::Commit => UiEventV::Commit,
        PaletteActionV::ToggleContext => UiEventV::ToggleContextPanel,
        PaletteActionV::StashSave => UiEventV::StashSave { message: None },
        PaletteActionV::ToggleQuickOpen => UiEventV::OpenQuickOpen,
        PaletteActionV::CommitBack => UiEventV::NavigateCommit { delta: -1i32 },
        PaletteActionV::CommitForward => UiEventV::NavigateCommit { delta: 1i32 },
        PaletteActionV::ToggleHeatmap => UiEventV::ToggleHeatmap,
        PaletteActionV::ConventionalType(ty) => UiEventV::SetCommitMessage(ty + seq![':', ' ']),
        PaletteActionV::SwitchRepository => UiEventV::CloseRepository,
    }
}

/// Maps a palette action to the event it stands for.
pub fn action_to_event(action: PaletteAction) -> (r: UiEvent)
    ensures
        r.deep_view() == action_event(action.deep_view()),
{
    match action {
        PaletteAction::GoChanges => UiEvent::SelectView(View::Changes),
        PaletteAction::GoHistory => UiEvent::SelectView(View::History),
        PaletteAction::GoBranches => UiEvent::SelectView(View::Branches),
        PaletteAction::InstantWorktree => {
            let r = UiEvent::InstantWorktree { branch: String::new() };
            assert(r.deep_view() =~= action_event(action.deep_view()));
            r
        },
        PaletteAction::Fetch => UiEvent::Fetch,
        PaletteAction::Pull => UiEvent::Pull,
        PaletteAction::Push => UiEvent::Push,
        PaletteAction::StageAll => UiEvent::StageAll,
        PaletteAction::UnstageAll => UiEvent::UnstageAll,
        PaletteAction::FocusCommit => UiEvent::FocusCommitInput,
        PaletteAction::Commit => UiEvent::Commit,
        PaletteAction::ToggleContext => UiEvent::ToggleContextPanel,
        PaletteAction::StashSave => UiEvent::StashSave { message: None },
        PaletteAction::ToggleQuickOpen => UiEvent::OpenQuickOpen,
        PaletteAction::CommitBack => UiEvent::NavigateCommit { delta: -1 },
        PaletteAction::CommitForward => UiEvent::NavigateCommit { delta: 1 },
        PaletteAction::ToggleHeatmap => UiEvent::ToggleHeatmap,
        PaletteAction::ConventionalType(ty) => {
            let mut v = chars_of(ty);
            proof {
                reveal_strlit(": ");
            }
            push_str(&mut v, ": ");
            assert(v@ =~= ty@ + seq![':', ' ']);
            UiEvent::SetCommitMessage(string_of(&v))
        },
        PaletteAction::SwitchRepository => UiEvent::CloseRepository,
    }
}

} // verus!
