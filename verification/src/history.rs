//! The commit logs: of a worktree, and of a branch, from which commits are
//! cherry-picked.

use vstd::prelude::*;
use vstd::string::*;
use vstd::view::View as _;

use crate::app::{App, AppView, BranchHistory, BusyThen, CherryPicker, Screen, ThenView, View};
use crate::candidates;
use crate::commit_browser;
use crate::config;
use crate::input::{KeyCode, KeyEvent};
use crate::marks;
use crate::model;
use crate::model::{CherryTarget, GraphLine, LogEntry, LogRow, ResolveKind, WorktreeInfo};
use crate::request;
use crate::request::{BusyOp, LogThen, OpView, Request, RequestView};
use crate::text;

verus! {

/// Number of commits read of a worktree.
pub const WORKTREE_LOG_LIMIT: usize = 100;

/// Number of commits read of a branch.
pub const BRANCH_LOG_LIMIT: usize = 200;

/// A log as it was read.
#[derive(Debug)]
pub enum LogLines {
    /// With its graph.
    Graph(Vec<GraphLine>),
    /// As a plain list.
    Plain(Vec<LogEntry>),
}

impl LogLines {
    /// The rows that show the log.
    pub open spec fn rows(self) -> Seq<LogRow> {
        match self {
            LogLines::Graph(lines) => model::log_rows(lines@),
            LogLines::Plain(entries) => model::flat_rows(entries@),
        }
    }

    /// The rows that show the log.
    pub fn into_rows(self) -> (r: Vec<GraphLine>)
        ensures
            model::log_rows(r@) == self.rows(),
    {
        match self {
            LogLines::Graph(lines) => lines,
            LogLines::Plain(entries) => model::flat_lines(entries),
        }
    }
}

/// The commit on row `i`.
pub open spec fn commit_at(lines: Seq<LogRow>, i: int) -> Option<LogEntry> {
    if 0 <= i < lines.len() {
        lines[i].entry
    } else {
        None
    }
}

/// Whether every commit is marked.
pub open spec fn all_commits_marked(lines: Seq<LogRow>, marked: Seq<bool>) -> bool {
    forall|i: int| #[trigger] model::is_commit(lines, i) ==> marked[i]
}

/// Every commit marked, or nothing when every commit was. Rows of art alone are
/// never marked.
pub open spec fn toggled_commits(lines: Seq<LogRow>, marked: Seq<bool>) -> Seq<bool> {
    Seq::new(
        lines.len(),
        |i: int| !all_commits_marked(lines, marked) && model::is_commit(lines, i),
    )
}

/// Whether any row is marked.
pub open spec fn any_marked(marked: Seq<bool>) -> bool {
    exists|i: int| 0 <= i < marked.len() && marked[i]
}

/// The marked commits among the first `n` rows, last row first.
pub open spec fn picks(lines: Seq<LogRow>, marked: Seq<bool>, n: int) -> Seq<LogEntry>
    decreases n,
{
    if n <= 0 {
        Seq::empty()
    } else {
        let rest = picks(lines, marked, n - 1);
        match commit_at(lines, n - 1) {
            Some(e) => if marked[n - 1] {
                seq![e] + rest
            } else {
                rest
            },
            None => rest,
        }
    }
}

/// The hashes of commits.
pub open spec fn hashes(v: Seq<LogEntry>) -> Seq<Seq<char>> {
    v.map_values(|e: LogEntry| e.hash@)
}

/// The subjects of commits.
pub open spec fn subjects(v: Seq<LogEntry>) -> Seq<Seq<char>> {
    v.map_values(|e: LogEntry| e.subject@)
}

/// The worktrees as places that commits can be brought into.
pub open spec fn targets_of(worktrees: Seq<WorktreeInfo>) -> Seq<CherryTarget> {
    worktrees.map_values(|w: WorktreeInfo| CherryTarget { name: w.name, branch: w.branch })
}

impl BranchHistory {
    /// The history as it opens.
    pub open spec fn opened(branch: Seq<char>, lines: Seq<LogRow>) -> BranchHistory {
        BranchHistory {
            branch,
            lines,
            marked: marks::all_marks(lines.len(), false),
            selected: model::first_commit(lines),
        }
    }

    /// The commits to pick, oldest first: the marked ones, or the one under the
    /// cursor when none is marked.
    pub open spec fn chosen(self) -> Seq<LogEntry> {
        if any_marked(self.marked) {
            picks(self.lines, self.marked, self.lines.len() as int)
        } else {
            match commit_at(self.lines, self.selected) {
                Some(e) => seq![e],
                None => Seq::empty(),
            }
        }
    }
}

impl AppView {
    /// The log screen on rows.
    pub open spec fn log_screen(name: Seq<char>, lines: Seq<LogRow>) -> Screen {
        Screen::Log { name, lines, selected: model::first_commit(lines) }
    }

    /// With the log of the selected worktree asked for.
    pub open spec fn open_log(self) -> AppView {
        match self.worktree() {
            Some(w) => self.ask(
                RequestView::WorktreeLog {
                    name: w.name@,
                    mode: self.log_mode,
                    limit: WORKTREE_LOG_LIMIT as int,
                    then: LogThen::Open,
                },
            ),
            None => self,
        }
    }

    /// With the history of the selected branch asked for.
    pub open spec fn open_branch_log(self) -> AppView {
        match self.branch() {
            Some(b) => self.ask(
                RequestView::BranchLog {
                    branch: b.name@,
                    mode: self.log_mode,
                    limit: BRANCH_LOG_LIMIT as int,
                    then: LogThen::Open,
                },
            ),
            None => self,
        }
    }

    /// With a screen opened on top, or put in place of the one in front.
    pub open spec fn placed(self, then: LogThen, s: Screen) -> AppView {
        match then {
            LogThen::Open => self.pushed(s),
            LogThen::Replace => AppView { view: s, ..self },
        }
    }

    /// After the log of a worktree was read.
    pub open spec fn worktree_log_read(
        self,
        name: Seq<char>,
        then: LogThen,
        result: Result<LogLines, String>,
    ) -> AppView {
        match result {
            Ok(l) => self.placed(then, AppView::log_screen(name, l.rows())),
            Err(e) => self.fail(e@),
        }
    }

    /// After the history of a branch was read.
    pub open spec fn branch_log_read(
        self,
        branch: Seq<char>,
        then: LogThen,
        result: Result<LogLines, String>,
    ) -> AppView {
        match result {
            Ok(l) => self.placed(
                then,
                Screen::BranchCommits(BranchHistory::opened(branch, l.rows())),
            ),
            Err(e) => self.fail(e@),
        }
    }

    /// With logs drawn the other way, and the one in front read anew.
    pub open spec fn toggle_mode(self) -> AppView {
        let mode = self.log_mode.flipped();
        let a = AppView { log_mode: mode, ..self };
        match self.view {
            Screen::Log { name, .. } => a.ask(
                RequestView::WorktreeLog {
                    name,
                    mode,
                    limit: WORKTREE_LOG_LIMIT as int,
                    then: LogThen::Replace,
                },
            ).say(mode.named() + " view"@),
            Screen::BranchCommits(b) => a.ask(
                RequestView::BranchLog {
                    branch: b.branch,
                    mode,
                    limit: BRANCH_LOG_LIMIT as int,
                    then: LogThen::Replace,
                },
            ).say(mode.named() + " view"@),
            _ => a,
        }
    }

    /// With the cursor of the log on another row.
    pub open spec fn log_at(self, row: int) -> AppView {
        match self.view {
            Screen::Log { name, lines, .. } => AppView {
                view: Screen::Log { name, lines, selected: row },
                ..self
            },
            _ => self,
        }
    }

    /// With the cursor of the log on the next commit, or the one before.
    pub open spec fn step_log(self, forward: bool) -> AppView {
        match self.view {
            Screen::Log { lines, selected, .. } => self.log_at(
                model::stepped(lines, selected, forward),
            ),
            _ => self,
        }
    }

    /// With the files of the commit under the log's cursor asked for.
    pub open spec fn browse_log(self) -> AppView {
        match self.view {
            Screen::Log { name, lines, selected } => match commit_at(lines, selected) {
                Some(e) => self.ask(
                    RequestView::CommitFiles {
                        name,
                        hash: e.hash@,
                        label: commit_browser::heading(e),
                    },
                ),
                None => self,
            },
            _ => self,
        }
    }

    /// After a key in the log.
    #[verifier::opaque]
    pub open spec fn log_key(self, key: KeyEvent) -> AppView {
        let code = key.code;
        match self.view {
            Screen::Log { lines, .. } => if code is Esc || code == KeyCode::Char('q') {
                self.popped()
            } else if code is Down || code == KeyCode::Char('j') {
                self.step_log(true)
            } else if code is Up || code == KeyCode::Char('k') {
                self.step_log(false)
            } else if code is Home || code == KeyCode::Char('g') {
                self.log_at(model::first_commit(lines))
            } else if code is Enter {
                self.browse_log()
            } else if code == KeyCode::Char('t') {
                self.toggle_mode()
            } else {
                self
            },
            _ => self,
        }
    }

    /// With the branch history in another state.
    pub open spec fn in_history(self, b: BranchHistory) -> AppView {
        AppView { view: Screen::BranchCommits(b), ..self }
    }

    /// With the cursor of the history on the next commit, or the one before.
    pub open spec fn step_history(self, forward: bool) -> AppView {
        match self.view {
            Screen::BranchCommits(b) => self.in_history(
                BranchHistory {
                    selected: model::stepped(b.lines, b.selected, forward),
                    ..b
                },
            ),
            _ => self,
        }
    }

    /// With the mark of the commit under the cursor turned.
    pub open spec fn mark_commit(self) -> AppView {
        match self.view {
            Screen::BranchCommits(b) => if model::is_commit(b.lines, b.selected) {
                self.in_history(
                    BranchHistory { marked: marks::flipped(b.marked, b.selected), ..b },
                )
            } else {
                self
            },
            _ => self,
        }
    }

    /// With every commit marked, or none when all were.
    pub open spec fn mark_commits(self) -> AppView {
        match self.view {
            Screen::BranchCommits(b) => self.in_history(
                BranchHistory { marked: toggled_commits(b.lines, b.marked), ..b },
            ),
            _ => self,
        }
    }

    /// With the files of the commit under the history's cursor asked for, as
    /// seen from the main worktree.
    pub open spec fn browse_history(self) -> AppView {
        match self.view {
            Screen::BranchCommits(b) => match commit_at(b.lines, b.selected) {
                Some(e) => match candidates::main_from(self.worktrees, 0) {
                    Some(w) => self.ask(
                        RequestView::CommitFiles {
                            name: w.name@,
                            hash: e.hash@,
                            label: commit_browser::heading(e),
                        },
                    ),
                    None => self.fail("no main worktree to view the commit from"@),
                },
                None => self,
            },
            _ => self,
        }
    }

    /// With the cherry-pick picker opened on the chosen commits.
    pub open spec fn pick_commits(self) -> AppView {
        match self.view {
            Screen::BranchCommits(b) => {
                let chosen = b.chosen();
                if chosen.len() == 0 {
                    self
                } else if self.worktrees.len() == 0 {
                    self.say("no worktrees to cherry-pick into"@)
                } else {
                    self.pushed(
                        Screen::CherryPick(
                            CherryPicker {
                                source_branch: b.branch,
                                commits: hashes(chosen),
                                summaries: subjects(chosen),
                                targets: targets_of(self.worktrees),
                                selected: 0,
                                mode: None,
                            },
                        ),
                    )
                }
            },
            _ => self,
        }
    }

    /// After a key in the branch history.
    #[verifier::opaque]
    pub open spec fn history_key(self, key: KeyEvent) -> AppView {
        let code = key.code;
        if !(self.view is BranchCommits) {
            self
        } else if code is Esc || code == KeyCode::Char('q') {
            self.popped()
        } else if code is Down || code == KeyCode::Char('j') {
            self.step_history(true)
        } else if code is Up || code == KeyCode::Char('k') {
            self.step_history(false)
        } else if code == KeyCode::Char(' ') {
            self.mark_commit()
        } else if code == KeyCode::Char('a') {
            self.mark_commits()
        } else if code is Enter || code == KeyCode::Char('v') || code is Right {
            self.browse_history()
        } else if code == KeyCode::Char('p') {
            self.pick_commits()
        } else if code == KeyCode::Char('t') {
            self.toggle_mode()
        } else {
            self
        }
    }

    /// With the cherry-pick picker in another state.
    pub open spec fn picking(self, c: CherryPicker) -> AppView {
        AppView { view: Screen::CherryPick(c), ..self }
    }

    /// With the cherry-pick running.
    pub open spec fn run_pick(self) -> AppView {
        match self.view {
            Screen::CherryPick(c) => if 0 <= c.selected < c.targets.len() {
                let target = c.targets[c.selected].name@;
                let no_commit = c.mode == Some(1int);
                let count = text::decimal(c.commits.len());
                self.busy(
                    (if no_commit {
                        "loading"@
                    } else {
                        "cherry-picking"@
                    }) + " "@ + count + " commit(s) into "@ + (request::quoted(target) + "…"@),
                    ThenView::Resolve {
                        target,
                        source_label: if c.commits.len() == 1 {
                            "the cherry-picked commit"@
                        } else {
                            count + " cherry-picked commits"@
                        },
                        kind: ResolveKind::CherryPick,
                    },
                    OpView::CherryPick { target, commits: c.commits, no_commit },
                )
            } else {
                self
            },
            _ => self,
        }
    }

    /// After a key in the cherry-pick picker: first a worktree is chosen, then
    /// whether to commit.
    #[verifier::opaque]
    pub open spec fn pick_key(self, key: KeyEvent) -> AppView {
        let code = key.code;
        let down = code is Down || code == KeyCode::Char('j');
        let up = code is Up || code == KeyCode::Char('k');
        let back = code is Esc || code == KeyCode::Char('q');
        match self.view {
            Screen::CherryPick(c) => match c.mode {
                Some(m) => if up || down {
                    self.picking(CherryPicker { mode: Some(1 - m), ..c })
                } else if code is Enter {
                    self.run_pick()
                } else if back {
                    self.picking(CherryPicker { mode: None, ..c })
                } else {
                    self
                },
                None => if down {
                    if c.selected + 1 < c.targets.len() {
                        self.picking(CherryPicker { selected: c.selected + 1, ..c })
                    } else {
                        self
                    }
                } else if up {
                    if c.selected > 0 {
                        self.picking(CherryPicker { selected: c.selected - 1, ..c })
                    } else {
                        self
                    }
                } else if code is Enter {
                    self.picking(CherryPicker { mode: Some(0), ..c })
                } else if back {
                    self.popped()
                } else {
                    self
                },
            },
            _ => self,
        }
    }

    /// With the merge picker opened for the selected branch.
    pub open spec fn open_merge(self) -> AppView {
        match self.branch() {
            Some(b) => if self.worktrees.len() == 0 {
                self.say("no worktrees to merge into"@)
            } else {
                self.pushed(
                    Screen::MergePick {
                        source_branch: b.name@,
                        targets: targets_of(self.worktrees),
                        selected: 0,
                    },
                )
            },
            None => self,
        }
    }

    /// With the merge running. A worktree that is on the branch already is left
    /// alone.
    pub open spec fn run_merge(self) -> AppView {
        match self.view {
            Screen::MergePick { source_branch, targets, selected } => {
                if 0 <= selected < targets.len() {
                    let t = targets[selected];
                    if model::opt(t.branch) == Some(source_branch) {
                        self.say(
                            request::quoted(t.name@) + " is already on "@ + request::quoted(
                                source_branch,
                            ),
                        )
                    } else {
                        self.busy(
                            "merging "@ + request::quoted(source_branch) + " into "@
                                + request::quoted(t.name@) + "…"@,
                            ThenView::Resolve {
                                target: t.name@,
                                source_label: source_branch,
                                kind: ResolveKind::Merge,
                            },
                            OpView::Merge { target: t.name@, source: source_branch },
                        )
                    }
                } else {
                    self
                }
            },
            _ => self,
        }
    }

    /// After a key in the merge picker.
    #[verifier::opaque]
    pub open spec fn merge_key(self, key: KeyEvent) -> AppView {
        let code = key.code;
        match self.view {
            Screen::MergePick { source_branch, targets, selected } => {
                if code is Down || code == KeyCode::Char('j') {
                    if selected + 1 < targets.len() {
                        AppView {
                            view: Screen::MergePick {
                                source_branch,
                                targets,
                                selected: selected + 1,
                            },
                            ..self
                        }
                    } else {
                        self
                    }
                } else if code is Up || code == KeyCode::Char('k') {
                    if selected > 0 {
                        AppView {
                            view: Screen::MergePick {
                                source_branch,
                                targets,
                                selected: selected - 1,
                            },
                            ..self
                        }
                    } else {
                        self
                    }
                } else if code is Enter {
                    self.run_merge()
                } else if code is Esc || code == KeyCode::Char('q') {
                    self.popped()
                } else {
                    self
                }
            },
            _ => self,
        }
    }
}

/// The worktrees as places that commits can be brought into.
pub fn cherry_targets(worktrees: &Vec<WorktreeInfo>) -> (r: Vec<CherryTarget>)
    ensures
        r@ == targets_of(worktrees@),
{
    let mut r: Vec<CherryTarget> = Vec::new();
    for i in 0..worktrees.len()
        invariant
            r@ == targets_of(worktrees@).take(i as int),
    {
        let w = &worktrees[i];
        r.push(CherryTarget { name: w.name.clone(), branch: model::copy_option(&w.branch) });
        assert(r@ =~= targets_of(worktrees@).take(i + 1));
    }
    assert(r@ =~= targets_of(worktrees@));
    r
}

/// Whether any row is marked.
fn is_any_marked(marked: &Vec<bool>) -> (r: bool)
    ensures
        r == any_marked(marked@),
{
    for i in 0..marked.len()
        invariant
            forall|k: int| 0 <= k < i ==> !marked@[k],
    {
        if marked[i] {
            return true;
        }
    }
    false
}

/// Marks every commit, or clears every mark when all commits were marked.
fn toggle_commits(lines: &Vec<GraphLine>, marked: &mut Vec<bool>)
    requires
        old(marked)@.len() == lines@.len(),
    ensures
        final(marked)@ == toggled_commits(model::log_rows(lines@), old(marked)@),
{
    let ghost rows = model::log_rows(lines@);
    let mut all = true;
    let n: usize = lines.len();
    for i in 0..n
        invariant
            n == lines@.len(),
            rows == model::log_rows(lines@),
            marked@ == old(marked)@,
            marked@.len() == n,
            all == (forall|k: int|
                0 <= k < i && #[trigger] model::is_commit(rows, k) ==> marked@[k]),
    {
        assert(model::is_commit(rows, i as int) == (lines@[i as int].entry is Some));
        if lines[i].entry.is_some() && !marked[i] {
            all = false;
        }
    }
    assert(all == all_commits_marked(rows, marked@));
    let mut fresh: Vec<bool> = Vec::new();
    for i in 0..n
        invariant
            n == lines@.len(),
            rows == model::log_rows(lines@),
            fresh@ == Seq::new(i as nat, |k: int| !all && model::is_commit(rows, k)),
    {
        fresh.push(!all && lines[i].entry.is_some());
        assert(fresh@ =~= Seq::new((i + 1) as nat, |k: int| !all && model::is_commit(rows, k)));
    }
    *marked = fresh;
    assert(marked@ =~= toggled_commits(rows, old(marked)@));
}

/// The hashes and subjects of the commits to pick, oldest first.
fn chosen_commits(lines: &Vec<GraphLine>, marked: &Vec<bool>, selected: usize) -> (r: (
    Vec<String>,
    Vec<String>,
))
    requires
        marked@.len() == lines@.len(),
    ensures
        ({
            let b = BranchHistory {
                branch: Seq::empty(),
                lines: model::log_rows(lines@),
                marked: marked@,
                selected: selected as int,
            };
            text::views(r.0@) == hashes(b.chosen()) && text::views(r.1@) == subjects(b.chosen())
        }),
{
    let ghost rows = model::log_rows(lines@);
    let mut commits: Vec<String> = Vec::new();
    let mut summaries: Vec<String> = Vec::new();
    if is_any_marked(marked) {
        let ghost all = picks(rows, marked@, rows.len() as int);
        let mut i: usize = lines.len();
        let ghost mut rest = all;
        assert(text::views(commits@) + hashes(rest) =~= hashes(all));
        assert(text::views(summaries@) + subjects(rest) =~= subjects(all));
        while i > 0
            invariant
                i <= lines@.len(),
                marked@.len() == lines@.len(),
                rows == model::log_rows(lines@),
                rest == picks(rows, marked@, i as int),
                text::views(commits@) + hashes(rest) == hashes(all),
                text::views(summaries@) + subjects(rest) == subjects(all),
            decreases i,
        {
            let ghost c0 = commits@;
            let ghost s0 = summaries@;
            let ghost r0 = rest;
            i -= 1;
            proof {
                rest = picks(rows, marked@, i as int);
                assert(commit_at(rows, i as int) == lines@[i as int].entry);
            }
            if marked[i] {
                if let Some(e) = &lines[i].entry {
                    commits.push(e.hash.clone());
                    summaries.push(e.subject.clone());
                    proof {
                        assert(r0 == seq![*e] + rest);
                        assert(text::views(commits@) =~= text::views(c0).push(e.hash@));
                        assert(text::views(summaries@) =~= text::views(s0).push(e.subject@));
                        assert(hashes(r0) =~= seq![e.hash@] + hashes(rest));
                        assert(subjects(r0) =~= seq![e.subject@] + subjects(rest));
                        assert(text::views(commits@) + hashes(rest) =~= text::views(c0) + hashes(
                            r0,
                        ));
                        assert(text::views(summaries@) + subjects(rest) =~= text::views(s0)
                            + subjects(r0));
                    }
                }
            }
        }
        assert(text::views(commits@) =~= hashes(all)) by {
            assert(hashes(rest) =~= Seq::<Seq<char>>::empty());
            assert(text::views(commits@) + Seq::<Seq<char>>::empty() =~= text::views(commits@));
        }
        assert(text::views(summaries@) =~= subjects(all)) by {
            assert(subjects(rest) =~= Seq::<Seq<char>>::empty());
            assert(text::views(summaries@) + Seq::<Seq<char>>::empty() =~= text::views(summaries@));
        }
    } else {
        if selected < lines.len() {
            if let Some(e) = &lines[selected].entry {
                commits.push(e.hash.clone());
                summaries.push(e.subject.clone());
            }
        }
        proof {
            let chosen = match commit_at(rows, selected as int) {
                Some(e) => seq![e],
                None => Seq::empty(),
            };
            assert(text::views(commits@) =~= hashes(chosen));
            assert(text::views(summaries@) =~= subjects(chosen));
        }
    }
    (commits, summaries)
}

impl App {
    /// Asks for the log of the selected worktree.
    pub fn open_log(&mut self)
        ensures
            final(self)@ == old(self)@.open_log(),
    {
        if let Some(name) = self.selected_name() {
            let mode = self.log_mode;
            self.ask(
                Request::WorktreeLog {
                    name,
                    mode,
                    limit: WORKTREE_LOG_LIMIT,
                    then: LogThen::Open,
                },
            );
        }
    }

    /// Asks for the history of the selected branch.
    pub fn open_branch_commits(&mut self)
        ensures
            final(self)@ == old(self)@.open_branch_log(),
    {
        if let Some(branch) = self.selected_branch() {
            let mode = self.log_mode;
            self.ask(
                Request::BranchLog {
                    branch,
                    mode,
                    limit: BRANCH_LOG_LIMIT,
                    then: LogThen::Open,
                },
            );
        }
    }

    /// Opens a screen on top, or puts it in place of the one in front.
    fn place(&mut self, then: LogThen, screen: View)
        requires
            old(self).wf(),
            screen@.wf(),
        ensures
            final(self)@ == old(self)@.placed(then, screen@),
            final(self).wf(),
    {
        match then {
            LogThen::Open => self.push_screen(screen),
            LogThen::Replace => self.view = screen,
        }
    }

    /// Takes the log that a `Request::WorktreeLog` asked for.
    pub fn on_worktree_log(&mut self, name: String, then: LogThen, result: Result<LogLines, String>)
        requires
            old(self).wf(),
        ensures
            final(self)@ == old(self)@.worktree_log_read(name@, then, result),
            final(self).wf(),
    {
        match result {
            Ok(l) => {
                let lines = l.into_rows();
                let selected: usize = model::first_commit_row(&lines);
                self.place(then, View::Log { name, lines, selected });
            },
            Err(e) => self.set_error(e),
        }
    }

    /// Takes the history that a `Request::BranchLog` asked for.
    pub fn on_branch_log(&mut self, branch: String, then: LogThen, result: Result<LogLines, String>)
        requires
            old(self).wf(),
        ensures
            final(self)@ == old(self)@.branch_log_read(branch@, then, result),
            final(self).wf(),
    {
        match result {
            Ok(l) => {
                let lines = l.into_rows();
                let selected: usize = model::first_commit_row(&lines);
                let marked = marks::marks(lines.len(), false);
                self.place(then, View::BranchCommits { branch, lines, marked, selected });
            },
            Err(e) => self.set_error(e),
        }
    }

    /// Draws logs the other way, and asks for the one in front anew.
    pub fn toggle_log_mode(&mut self)
        requires
            old(self).wf(),
        ensures
            final(self)@ == old(self)@.toggle_mode(),
            final(self).wf(),
    {
        let mode = self.log_mode.toggled();
        self.log_mode = mode;
        let asked = match &self.view {
            View::Log { name, .. } => Request::WorktreeLog {
                name: name.clone(),
                mode,
                limit: WORKTREE_LOG_LIMIT,
                then: LogThen::Replace,
            },
            View::BranchCommits { branch, .. } => Request::BranchLog {
                branch: branch.clone(),
                mode,
                limit: BRANCH_LOG_LIMIT,
                then: LogThen::Replace,
            },
            _ => {
                return;
            },
        };
        self.ask(asked);
        let m = text::cat2(mode.label(), " view");
        self.say(m);
    }

    /// Moves the cursor of the log to the next commit, or the one before.
    pub fn step_log(&mut self, forward: bool)
        requires
            old(self).wf(),
        ensures
            final(self)@ == old(self)@.step_log(forward),
            final(self).wf(),
    {
        if let View::Log { lines, selected, .. } = &mut self.view {
            if let Some(i) = model::seek_commit_row(lines, *selected, forward) {
                *selected = i;
            }
        }
    }

    /// Asks for the files of the commit under the log's cursor.
    fn open_commit_diff_from_log(&mut self)
        ensures
            final(self)@ == old(self)@.browse_log(),
    {
        if let View::Log { name, lines, selected } = &self.view {
            if *selected < lines.len() {
                if let Some(e) = &lines[*selected].entry {
                    let n = name.clone();
                    let hash = e.hash.clone();
                    let label = commit_browser::commit_heading(e);
                    self.open_commit_diff(n, hash, label);
                }
            }
        }
    }

    /// Handles a key in the log.
    pub fn on_log_key(&mut self, key: KeyEvent)
        requires
            old(self).wf(),
        ensures
            final(self)@ == old(self)@.log_key(key),
            final(self).wf(),
    {
        proof {
            reveal(AppView::log_key);
        }
        if !matches!(self.view, View::Log { .. }) {
            return;
        }
        match key.code {
            KeyCode::Esc | KeyCode::Char('q') => self.pop_screen(),
            KeyCode::Down | KeyCode::Char('j') => self.step_log(true),
            KeyCode::Up | KeyCode::Char('k') => self.step_log(false),
            KeyCode::Home | KeyCode::Char('g') => {
                if let View::Log { lines, selected, .. } = &mut self.view {
                    *selected = model::first_commit_row(lines);
                }
            },
            KeyCode::Enter => self.open_commit_diff_from_log(),
            KeyCode::Char('t') => self.toggle_log_mode(),
            _ => {},
        }
    }

    /// Moves the cursor of the history to the next commit, or the one before.
    fn step_history(&mut self, forward: bool)
        requires
            old(self).wf(),
        ensures
            final(self)@ == old(self)@.step_history(forward),
            final(self).wf(),
    {
        if let View::BranchCommits { lines, selected, .. } = &mut self.view {
            if let Some(i) = model::seek_commit_row(lines, *selected, forward) {
                *selected = i;
            }
        }
    }

    /// Turns the mark of the commit under the cursor.
    fn mark_commit(&mut self)
        requires
            old(self).wf(),
        ensures
            final(self)@ == old(self)@.mark_commit(),
            final(self).wf(),
    {
        if let View::BranchCommits { lines, marked, selected, .. } = &mut self.view {
            if *selected < lines.len() && lines[*selected].entry.is_some() {
                marks::flip(marked, *selected);
            }
        }
    }

    /// Marks every commit, or none when all were marked.
    fn mark_commits(&mut self)
        requires
            old(self).wf(),
        ensures
            final(self)@ == old(self)@.mark_commits(),
            final(self).wf(),
    {
        if let View::BranchCommits { lines, marked, .. } = &mut self.view {
            toggle_commits(lines, marked);
        }
    }

    /// Asks for the files of the commit under the history's cursor.
    fn open_commit_diff_from_branch(&mut self)
        requires
            old(self).wf(),
        ensures
            final(self)@ == old(self)@.browse_history(),
            final(self).wf(),
    {
        if let View::BranchCommits { lines, selected, .. } = &self.view {
            if *selected < lines.len() {
                if let Some(e) = &lines[*selected].entry {
                    match candidates::main_index(&self.worktrees) {
                        Some(i) => {
                            let name = self.worktrees[i].name.clone();
                            let hash = e.hash.clone();
                            let label = commit_browser::commit_heading(e);
                            self.open_commit_diff(name, hash, label);
                        },
                        None => {
                            self.set_error("no main worktree to view the commit from".to_string());
                        },
                    }
                }
            }
        }
    }

    /// Opens the cherry-pick picker on the chosen commits.
    fn open_cherry_pick(&mut self)
        requires
            old(self).wf(),
        ensures
            final(self)@ == old(self)@.pick_commits(),
            final(self).wf(),
    {
        if let View::BranchCommits { branch, lines, marked, selected } = &self.view {
            let (commits, summaries) = chosen_commits(lines, marked, *selected);
            assert(text::views(commits@).len() == commits@.len());
            let source_branch = branch.clone();
            if commits.len() == 0 {
                return;
            }
            let targets = cherry_targets(&self.worktrees);
            if targets.len() == 0 {
                self.say("no worktrees to cherry-pick into".to_string());
                return;
            }
            self.push_screen(
                View::CherryPick {
                    source_branch,
                    commits,
                    summaries,
                    targets,
                    selected: 0,
                    mode: None,
                },
            );
        }
    }

    /// Handles a key in the branch history.
    pub fn on_branch_commits_key(&mut self, key: KeyEvent)
        requires
            old(self).wf(),
        ensures
            final(self)@ == old(self)@.history_key(key),
            final(self).wf(),
    {
        proof {
            reveal(AppView::history_key);
        }
        if !matches!(self.view, View::BranchCommits { .. }) {
            return;
        }
        match key.code {
            KeyCode::Esc | KeyCode::Char('q') => self.pop_screen(),
            KeyCode::Down | KeyCode::Char('j') => self.step_history(true),
            KeyCode::Up | KeyCode::Char('k') => self.step_history(false),
            KeyCode::Char(' ') => self.mark_commit(),
            KeyCode::Char('a') => self.mark_commits(),
            KeyCode::Enter | KeyCode::Char('v') | KeyCode::Right => {
                self.open_commit_diff_from_branch()
            },
            KeyCode::Char('p') => self.open_cherry_pick(),
            KeyCode::Char('t') => self.toggle_log_mode(),
            _ => {},
        }
    }

    /// Starts the cherry-pick.
    fn run_cherry_pick(&mut self)
        requires
            old(self).wf(),
        ensures
            final(self)@ == old(self)@.run_pick(),
            final(self).wf(),
    {
        if let View::CherryPick { commits, targets, selected, mode, .. } = &self.view {
            if *selected >= targets.len() {
                return;
            }
            let no_commit = *mode == Some(1usize);
            let target = targets[*selected].name.clone();
            let commits = config::copy_strings(commits);
            assert(text::views(commits@).len() == commits@.len());
            let count = text::dec(commits.len());
            let verb = if no_commit {
                "loading"
            } else {
                "cherry-picking"
            };
            let label = if commits.len() == 1 {
                "the cherry-picked commit".to_string()
            } else {
                text::cat2(count.as_str(), " cherry-picked commits")
            };
            let q = request::quote(target.as_str());
            let tail = text::cat2(q.as_str(), "…");
            let title = text::cat5(
                verb,
                " ",
                count.as_str(),
                " commit(s) into ",
                tail.as_str(),
            );
            self.start_busy(
                title,
                BusyThen::Resolve {
                    target: target.clone(),
                    source_label: label,
                    kind: ResolveKind::CherryPick,
                },
                BusyOp::CherryPick { target, commits, no_commit },
            );
        }
    }

    /// Handles a key in the cherry-pick picker: a worktree first, then whether
    /// to commit.
    pub fn on_cherry_pick_key(&mut self, key: KeyEvent)
        requires
            old(self).wf(),
        ensures
            final(self)@ == old(self)@.pick_key(key),
            final(self).wf(),
    {
        proof {
            reveal(AppView::pick_key);
        }
        let mut run = false;
        let mut back = false;
        if let View::CherryPick { targets, selected, mode, .. } = &mut self.view {
            match *mode {
                Some(m) => match key.code {
                    KeyCode::Up | KeyCode::Char('k') | KeyCode::Down | KeyCode::Char('j') => {
                        *mode = Some(1 - m);
                    },
                    KeyCode::Enter => run = true,
                    KeyCode::Esc | KeyCode::Char('q') => *mode = None,
                    _ => {},
                },
                None => match key.code {
                    KeyCode::Down | KeyCode::Char('j') => {
                        if *selected < targets.len() && *selected + 1 < targets.len() {
                            *selected = *selected + 1;
                        }
                    },
                    KeyCode::Up | KeyCode::Char('k') => *selected = selected.saturating_sub(1),
                    KeyCode::Enter => *mode = Some(0),
                    KeyCode::Esc | KeyCode::Char('q') => back = true,
                    _ => {},
                },
            }
        }
        if run {
            self.run_cherry_pick();
        } else if back {
            self.pop_screen();
        }
    }

    /// Opens the merge picker for the selected branch.
    pub fn open_merge_pick(&mut self)
        requires
            old(self).wf(),
        ensures
            final(self)@ == old(self)@.open_merge(),
            final(self).wf(),
    {
        if let Some(source_branch) = self.selected_branch() {
            let targets = cherry_targets(&self.worktrees);
            if targets.len() == 0 {
                self.say("no worktrees to merge into".to_string());
                return;
            }
            self.push_screen(View::MergePick { source_branch, targets, selected: 0 });
        }
    }

    /// Starts the merge, unless the worktree is on the branch already.
    fn run_merge(&mut self)
        requires
            old(self).wf(),
        ensures
            final(self)@ == old(self)@.run_merge(),
            final(self).wf(),
    {
        if let View::MergePick { source_branch, targets, selected } = &self.view {
            if *selected >= targets.len() {
                return;
            }
            let source = source_branch.clone();
            let target = targets[*selected].name.clone();
            let same = match &targets[*selected].branch {
                Some(b) => text::same(b.as_str(), source.as_str()),
                None => false,
            };
            let qs = request::quote(source.as_str());
            let qt = request::quote(target.as_str());
            if same {
                self.say(text::cat3(qt.as_str(), " is already on ", qs.as_str()));
                return;
            }
            let title = text::cat5("merging ", qs.as_str(), " into ", qt.as_str(), "…");
            self.start_busy(
                title,
                BusyThen::Resolve {
                    target: target.clone(),
                    source_label: source.clone(),
                    kind: ResolveKind::Merge,
                },
                BusyOp::Merge { target, source },
            );
        }
    }

    /// Handles a key in the merge picker.
    pub fn on_merge_pick_key(&mut self, key: KeyEvent)
        requires
            old(self).wf(),
        ensures
            final(self)@ == old(self)@.merge_key(key),
            final(self).wf(),
    {
        proof {
            reveal(AppView::merge_key);
        }
        if let View::MergePick { targets, selected, .. } = &mut self.view {
            match key.code {
                KeyCode::Down | KeyCode::Char('j') => {
                    if *selected < targets.len() && *selected + 1 < targets.len() {
                        *selected = *selected + 1;
                    }
                },
                KeyCode::Up | KeyCode::Char('k') => *selected = selected.saturating_sub(1),
                _ => {},
            }
        } else {
            return;
        }
        match key.code {
            KeyCode::Enter => self.run_merge(),
            KeyCode::Esc | KeyCode::Char('q') => self.pop_screen(),
            _ => {},
        }
    }
}

} // verus!
