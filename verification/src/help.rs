//! The key bindings, for both the footer hints and the help panel.

use vstd::prelude::*;
use vstd::string::*;
use vstd::view::View as _;

use crate::app::{Screen, Tab, View};

verus! {

/// One key and what it does. `short` is the footer label; a binding without one
/// is left out of the footer. `long` is the help panel's description.
#[derive(Clone, Copy, Debug)]
pub struct Binding {
    pub key: &'static str,
    pub short: Option<&'static str>,
    pub long: &'static str,
}

/// What a binding says.
#[verifier::ext_equal]
pub struct BindingView {
    pub key: Seq<char>,
    pub short: Option<Seq<char>>,
    pub long: Seq<char>,
}

impl Binding {
    /// What the binding says.
    pub open spec fn says(self) -> BindingView {
        BindingView {
            key: self.key@,
            short: match self.short {
                Some(s) => Some(s@),
                None => None,
            },
            long: self.long@,
        }
    }
}

/// A titled group of bindings within a help tab, and prose that is no binding.
#[derive(Debug)]
pub struct Section {
    pub heading: &'static str,
    pub bindings: Vec<Binding>,
    pub notes: Vec<&'static str>,
}

/// What a section says.
#[verifier::ext_equal]
pub struct SectionView {
    pub heading: Seq<char>,
    pub bindings: Seq<BindingView>,
    pub notes: Seq<Seq<char>>,
}

impl Section {
    /// What the section says.
    pub open spec fn says(self) -> SectionView {
        SectionView {
            heading: self.heading@,
            bindings: self.bindings@.map_values(|b: Binding| b.says()),
            notes: self.notes@.map_values(|n: &'static str| n@),
        }
    }
}

/// The tabs of the help panel. `Basics` holds the keys that work everywhere and
/// serves views with no help of their own.
#[derive(Clone, Copy, Debug, PartialEq, Eq, Structural)]
pub enum HelpTab {
    Basics,
    Worktrees,
    Branches,
    Changes,
    Commits,
    Conflicts,
}

impl HelpTab {
    pub const ALL: [HelpTab; 6] = [
        HelpTab::Basics,
        HelpTab::Worktrees,
        HelpTab::Branches,
        HelpTab::Changes,
        HelpTab::Commits,
        HelpTab::Conflicts,
    ];

    /// The title of the tab.
    pub fn title(self) -> (r: &'static str)
        ensures
            r@ == match self {
                HelpTab::Basics => "Basics"@,
                HelpTab::Worktrees => "Worktrees"@,
                HelpTab::Branches => "Branches"@,
                HelpTab::Changes => "Changes"@,
                HelpTab::Commits => "Commits"@,
                HelpTab::Conflicts => "Conflicts"@,
            },
    {
        match self {
            HelpTab::Basics => "Basics",
            HelpTab::Worktrees => "Worktrees",
            HelpTab::Branches => "Branches",
            HelpTab::Changes => "Changes",
            HelpTab::Commits => "Commits",
            HelpTab::Conflicts => "Conflicts",
        }
    }

    /// The place of the tab in `ALL`.
    pub open spec fn place(self) -> int {
        match self {
            HelpTab::Basics => 0,
            HelpTab::Worktrees => 1,
            HelpTab::Branches => 2,
            HelpTab::Changes => 3,
            HelpTab::Commits => 4,
            HelpTab::Conflicts => 5,
        }
    }

    /// The tab at a place of `ALL`.
    pub open spec fn at(i: int) -> HelpTab {
        HelpTab::ALL[i % 6]
    }

    /// The next tab, wrapping at the end.
    pub fn next(self) -> (r: HelpTab)
        ensures
            r == HelpTab::at(self.place() + 1),
    {
        match self {
            HelpTab::Basics => HelpTab::Worktrees,
            HelpTab::Worktrees => HelpTab::Branches,
            HelpTab::Branches => HelpTab::Changes,
            HelpTab::Changes => HelpTab::Commits,
            HelpTab::Commits => HelpTab::Conflicts,
            HelpTab::Conflicts => HelpTab::Basics,
        }
    }

    /// The previous tab, wrapping at the start.
    pub fn prev(self) -> (r: HelpTab)
        ensures
            r == HelpTab::at(self.place() + 5),
    {
        match self {
            HelpTab::Basics => HelpTab::Conflicts,
            HelpTab::Worktrees => HelpTab::Basics,
            HelpTab::Branches => HelpTab::Worktrees,
            HelpTab::Changes => HelpTab::Branches,
            HelpTab::Commits => HelpTab::Changes,
            HelpTab::Conflicts => HelpTab::Commits,
        }
    }

    /// The help tab for what is on screen.
    pub open spec fn of(view: Screen, tab: Tab) -> HelpTab {
        match view {
            Screen::List => match tab {
                Tab::Worktrees => HelpTab::Worktrees,
                Tab::Branches => HelpTab::Branches,
                Tab::Changes => HelpTab::Changes,
                Tab::Stash => HelpTab::Changes,
                Tab::Settings => HelpTab::Basics,
            },
            Screen::Commit(_) => HelpTab::Changes,
            Screen::BranchCommits(_) => HelpTab::Commits,
            Screen::CherryPick(_) => HelpTab::Commits,
            Screen::Log { .. } => HelpTab::Commits,
            Screen::CommitDiff(_) => HelpTab::Commits,
            Screen::MergePick { .. } => HelpTab::Branches,
            Screen::ConflictResolver(_) => HelpTab::Conflicts,
            _ => HelpTab::Basics,
        }
    }

    /// The help tab for what is on screen, so that opening help lands on the
    /// relevant page. Dialogs and the wizard fall back to `Basics`.
    pub fn for_view(view: &View, tab: Tab) -> (r: HelpTab)
        ensures
            r == HelpTab::of(view@, tab),
    {
        match view {
            View::List => match tab {
                Tab::Worktrees => HelpTab::Worktrees,
                Tab::Branches => HelpTab::Branches,
                Tab::Changes | Tab::Stash => HelpTab::Changes,
                Tab::Settings => HelpTab::Basics,
            },
            View::Commit { .. } => HelpTab::Changes,
            View::BranchCommits { .. } | View::CherryPick { .. } | View::Log { .. } => {
                HelpTab::Commits
            },
            View::CommitDiff { .. } => HelpTab::Commits,
            View::MergePick { .. } => HelpTab::Branches,
            View::ConflictResolver { .. } => HelpTab::Conflicts,
            _ => HelpTab::Basics,
        }
    }
}

/// Going on to the next help tab and back, or back and on, leads nowhere; going
/// on as often as there are tabs comes back to the start.
pub proof fn help_tabs_cycle(t: HelpTab)
    ensures
        HelpTab::at(t.place()) == t,
        HelpTab::at(HelpTab::at(t.place() + 1).place() + 5) == t,
        HelpTab::at(HelpTab::at(t.place() + 5).place() + 1) == t,
        HelpTab::at(t.place() + 6) == t,
{
}

/// Keys that work everywhere.
pub const GLOBAL: [(&'static str, &'static str, &'static str); 6] = [
    ("⇥ Tab", "", "switch between the Worktrees and Branches tabs"),
    ("?", "", "help for whatever you're looking at"),
    ("F1", "", "the same help, but works while typing too"),
    ("r", "", "refresh"),
    ("q", "", "quit, or step back out of a sub-view"),
    ("Esc", "", "cancel or close the current dialog"),
];

/// Keys of the Worktrees tab.
pub const WORKTREES: [(&'static str, &'static str, &'static str); 19] = [
    ("⇥", "branches", "switch to the Branches tab"),
    ("↑/↓ or j/k", "", "select worktree"),
    ("Enter", "changes", "browse changes per file (diff, stash, revert)"),
    ("n", "new", "new worktree (new branch or existing branch)"),
    (
        "b",
        "switch branch",
        "switch the selected worktree to another branch (local or remote), or type a new name to create one",
    ),
    ("u", "", "update: merge the default branch into the worktree"),
    ("c", "commit", "commit (pick files, all selected by default)"),
    ("o", "", "edit repo settings"),
    ("e", "", "run the open command"),
    ("s", "stash", "stash manager (stash/pop/apply/drop)"),
    ("p", "pull", "pull (fast-forward) the worktree"),
    ("⇧P", "push", "push the worktree"),
    ("f", "fetch", "fetch all remotes"),
    ("l", "log", "commit log"),
    ("d", "delete", "delete worktree (folder, or folder + branch)"),
    ("⇧R", "rename", "rename the worktree (renames its branch and moves the folder)"),
    ("r", "", "refresh the list"),
    ("?", "help", "show this help"),
    ("q", "quit", "quit"),
];

/// Keys of the Branches tab.
pub const BRANCHES: [(&'static str, &'static str, &'static str); 12] = [
    ("⇥", "worktrees", "switch to the Worktrees tab"),
    ("↑/↓ or j/k", "", "select branch"),
    ("Enter", "commits / cherry-pick", "view the branch's commits (then cherry-pick)"),
    ("m", "", "merge the branch into a worktree of your choosing"),
    ("c", "check out in a worktree", "check the branch out in a new worktree"),
    ("n", "new branch (no worktree)", "create a branch only (no worktree)"),
    ("f", "fetch", "fetch all remotes (refreshes every ahead/behind)"),
    ("p", "pull", "fast-forward the branch onto its upstream"),
    ("d", "delete", "delete the selected branch (f to force)"),
    ("⇧R", "rename", "rename the selected branch"),
    ("?", "help", "show this help"),
    ("q", "quit", "quit"),
];

/// Keys of the Changes tab.
pub const DIFF: [(&'static str, &'static str, &'static str); 15] = [
    ("↑/↓ or j/k", "", "move the file cursor"),
    ("⇧↑/⇧↓", "", "scroll the diff (or mouse wheel)"),
    ("←/→ or h/l", "", "collapse/expand the folder (Enter toggles)"),
    ("Space", "mark", "mark a file (or folder) for commit"),
    ("a", "", "mark or unmark every file"),
    ("c", "commit", "commit the marked files"),
    ("s", "stash file", "stash the highlighted file"),
    ("⇧S", "stash marked", "stash every marked file"),
    ("⇧R", "revert", "revert the file to its last committed state"),
    ("d", "delete", "delete the file from the worktree"),
    ("i", "ignore", "add the file or a glob to .gitignore"),
    ("t", "tree/flat", "toggle folder tree vs. flat file list"),
    ("Tab", "commit", "jump to the commit dialog"),
    ("?", "help", "show this help"),
    ("q", "back", "back to the worktree list"),
];

/// Keys of the commit dialog.
pub const COMMIT_FILES: [(&'static str, &'static str, &'static str); 6] = [
    ("↑/↓", "file", "move the file cursor"),
    ("Space", "toggle", "include or exclude the highlighted file"),
    ("a", "all/none", "include or exclude every file"),
    ("Tab", "message", "jump to the commit message"),
    ("Enter", "commit", "commit the included files"),
    ("Esc", "cancel", "cancel without committing"),
];

/// Keys of the Stash tab.
pub const STASH_LIST: [(&'static str, &'static str, &'static str); 6] = [
    ("↑/↓", "select", "select a stash entry"),
    ("s", "stash", "stash the worktree's current changes"),
    ("p", "pop", "pop the selected stash (apply, then drop)"),
    ("a", "apply", "apply the selected stash, keeping it"),
    ("x", "drop", "drop the selected stash"),
    ("Esc", "close", "close the stash manager"),
];

/// Keys of the list of a branch's commits.
pub const BRANCH_COMMITS: [(&'static str, &'static str, &'static str); 8] = [
    ("↑/↓", "select", "move the commit cursor"),
    ("Space", "mark commit", "mark a commit for cherry-pick"),
    ("a", "all/none", "mark or unmark every commit"),
    ("Enter", "cherry-pick", "cherry-pick marked commits into a worktree"),
    ("v / →", "browse files", "view the highlighted commit's changed files and diffs"),
    ("t", "tree/flat", "switch between the commit tree and a flat list"),
    ("?", "help", "show this help"),
    ("q", "back", "back to the branches list"),
];

/// Keys of the commit browser.
pub const COMMIT_DIFF: [(&'static str, &'static str, &'static str); 6] = [
    ("↑/↓ or j/k", "file", "move between the commit's changed files"),
    ("⇧↑/⇧↓", "", "scroll the diff (or mouse wheel)"),
    ("←/→ or h/l", "", "collapse/expand the folder (Enter toggles)"),
    ("t", "tree/flat", "toggle folder tree vs. flat file list"),
    ("?", "help", "show this help"),
    ("q", "back", "back to the commit list"),
];

/// Keys of the conflict resolver.
pub const RESOLVER: [(&'static str, &'static str, &'static str); 11] = [
    ("←/→", "file", "move between conflicted files"),
    ("↑/↓", "hunk", "move between hunks in the file"),
    ("o/t", "ours/theirs", "keep ours (current branch) / theirs (incoming) for the hunk"),
    ("b/⇧B", "both", "keep both (ours first / theirs first)"),
    ("⇧O/⇧T", "whole file", "take the whole file from ours (current) / theirs (incoming)"),
    ("e", "edit", "edit the merged result by hand"),
    ("w", "stage", "stage the file with your chosen resolutions"),
    ("c", "complete", "complete the merge (commit)"),
    ("x", "abort", "abort the merge"),
    ("?", "", "show this help"),
    ("q", "back", "back to the list"),
];

/// What a row of a table of bindings says; a blank label means none.
pub open spec fn row_says(row: (&'static str, &'static str, &'static str)) -> BindingView {
    BindingView {
        key: row.0@,
        short: if row.1@.len() == 0 {
            None
        } else {
            Some(row.1@)
        },
        long: row.2@,
    }
}

/// What a table of bindings says.
pub open spec fn table_says(table: Seq<(&'static str, &'static str, &'static str)>) -> Seq<
    BindingView,
> {
    table.map_values(|row: (&'static str, &'static str, &'static str)| row_says(row))
}

/// The bindings of a table.
pub fn bindings(table: &[(&'static str, &'static str, &'static str)]) -> (r: Vec<Binding>)
    ensures
        r@.map_values(|b: Binding| b.says()) == table_says(table@),
{
    let mut r: Vec<Binding> = Vec::new();
    let mut i: usize = 0;
    let ghost all = table_says(table@);
    while i < table.len()
        invariant
            all == table_says(table@),
            i <= table@.len(),
            r@.map_values(|b: Binding| b.says()) == all.take(i as int),
        decreases table@.len() - i,
    {
        let ghost before = r@;
        let row = table[i];
        let short = if row.1.unicode_len() == 0 {
            None
        } else {
            Some(row.1)
        };
        r.push(Binding { key: row.0, short, long: row.2 });
        assert(r@.map_values(|b: Binding| b.says()) =~= before.map_values(
            |b: Binding| b.says(),
        ).push(all[i as int]));
        assert(all.take(i + 1) =~= all.take(i as int).push(all[i as int]));
        i += 1;
    }
    assert(all.take(all.len() as int) =~= all);
    r
}

/// A section of bindings from a table, with notes.
fn section(
    heading: &'static str,
    table: &[(&'static str, &'static str, &'static str)],
    notes: Vec<&'static str>,
) -> (r: Section)
    ensures
        r.says() == (SectionView {
            heading: heading@,
            bindings: table_says(table@),
            notes: notes@.map_values(|n: &'static str| n@),
        }),
{
    Section { heading, bindings: bindings(table), notes }
}

/// What the sections of a help tab say.
pub open spec fn sections_say(tab: HelpTab) -> Seq<SectionView> {
    match tab {
        HelpTab::Basics => seq![
            SectionView {
                heading: "keys that work everywhere"@,
                bindings: table_says(GLOBAL@),
                notes: Seq::empty(),
            },
            SectionView {
                heading: "changes view status codes  (col 1 = staged · col 2 = working tree)"@,
                bindings: Seq::empty(),
                notes: seq!["M modified · A added · D deleted · R renamed · C copied"@, "?? untracked · UU conflict (both sides changed)"@, "e.g.  ' M' edited, unstaged · 'M ' staged · 'MM' staged + more edits · 'A ' new file staged"@],
            },
        ],
        HelpTab::Worktrees => seq![
            SectionView {
                heading: "worktrees tab"@,
                bindings: table_says(WORKTREES@),
                notes: Seq::empty(),
            },
        ],
        HelpTab::Branches => seq![
            SectionView {
                heading: "branches tab"@,
                bindings: table_says(BRANCHES@),
                notes: Seq::empty(),
            },
        ],
        HelpTab::Changes => seq![
            SectionView {
                heading: "changes (diff) view  (Worktrees tab → Enter)"@,
                bindings: table_says(DIFF@),
                notes: Seq::empty(),
            },
            SectionView {
                heading: "commit dialog  (c)"@,
                bindings: table_says(COMMIT_FILES@),
                notes: seq!["while typing the message, F1 opens this help ('?' types a '?')"@],
            },
            SectionView {
                heading: "stash manager  (s)"@,
                bindings: table_says(STASH_LIST@),
                notes: Seq::empty(),
            },
        ],
        HelpTab::Commits => seq![
            SectionView {
                heading: "commits view  (Branches tab → Enter)"@,
                bindings: table_says(BRANCH_COMMITS@),
                notes: seq!["cherry-pick: pick a target worktree, then choose to commit"@, "directly (keeping the messages) or just load the changes."@],
            },
            SectionView {
                heading: "commit browser  (log or commits → Enter/v)"@,
                bindings: table_says(COMMIT_DIFF@),
                notes: seq!["read-only: browse the files a commit changed and their diffs."@, "the log view (worktree 'l') opens it with Enter."@],
            },
        ],
        HelpTab::Conflicts => seq![
            SectionView {
                heading: "conflict resolver  (after a merge/update conflict)"@,
                bindings: table_says(RESOLVER@),
                notes: Seq::empty(),
            },
        ],
    }
}

/// The sections shown on a help tab.
pub fn sections(tab: HelpTab) -> (r: Vec<Section>)
    ensures
        r@.map_values(|s: Section| s.says()) == sections_say(tab),
{
    let mut r: Vec<Section> = Vec::new();
    match tab {
        HelpTab::Basics => {
            r.push(section("keys that work everywhere", &GLOBAL, Vec::new()));
            r.push(section("changes view status codes  (col 1 = staged · col 2 = working tree)", &[], vec!["M modified · A added · D deleted · R renamed · C copied", "?? untracked · UU conflict (both sides changed)", "e.g.  ' M' edited, unstaged · 'M ' staged · 'MM' staged + more edits · 'A ' new file staged"]));
        },
        HelpTab::Worktrees => {
            r.push(section("worktrees tab", &WORKTREES, Vec::new()));
        },
        HelpTab::Branches => {
            r.push(section("branches tab", &BRANCHES, Vec::new()));
        },
        HelpTab::Changes => {
            r.push(section("changes (diff) view  (Worktrees tab → Enter)", &DIFF, Vec::new()));
            r.push(section("commit dialog  (c)", &COMMIT_FILES, vec!["while typing the message, F1 opens this help ('?' types a '?')"]));
            r.push(section("stash manager  (s)", &STASH_LIST, Vec::new()));
        },
        HelpTab::Commits => {
            r.push(section("commits view  (Branches tab → Enter)", &BRANCH_COMMITS, vec!["cherry-pick: pick a target worktree, then choose to commit", "directly (keeping the messages) or just load the changes."]));
            r.push(section("commit browser  (log or commits → Enter/v)", &COMMIT_DIFF, vec!["read-only: browse the files a commit changed and their diffs.", "the log view (worktree 'l') opens it with Enter."]));
        },
        HelpTab::Conflicts => {
            r.push(section("conflict resolver  (after a merge/update conflict)", &RESOLVER, Vec::new()));
        },
    }
    assert(r@.map_values(|s: Section| s.says()) =~~= sections_say(tab));
    r
}

/// Every help tab has sections, and every section has something to say.
pub proof fn every_tab_says_something(tab: HelpTab, i: int)
    ensures
        sections_say(tab).len() > 0,
        0 <= i < sections_say(tab).len() ==> sections_say(tab)[i].bindings.len() > 0
            || sections_say(tab)[i].notes.len() > 0,
{
}

} // verus!
