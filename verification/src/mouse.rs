//! What the mouse does: clicks select rows and tabs, the wheel moves cursors and
//! viewports.

use vstd::prelude::*;
use vstd::string::*;
use vstd::view::View as _;

use crate::app::{
    App, AppView, BranchHistory, CherryPicker, CommitBrowser, CommitDialog, CommitFocus,
    ResolverScreen, Screen, Tab, View,
};
use crate::commit_browser::Scroll;
use crate::config_editor;
use crate::config_editor::EditorView;
use crate::geometry;
use crate::geometry::{MouseEvent, MouseKind, Rect, RowList};
use crate::modal::{Modal, ModalView};
use crate::model;
use crate::request::{Request, RequestView};
use crate::rows::StatusEntry;
use crate::setup::{BrowserView, SetupWizard, Step, StepView, WizardView, REVIEW_ROWS};
use crate::ticks;

verus! {

/// How close together two clicks on one cell are a double click, in
/// milliseconds.
pub const DOUBLE_CLICK: u64 = 450;

/// The first tab label from `i` on at a cell.
pub open spec fn tab_at(hits: Seq<(Rect, Tab)>, col: u16, row: u16, i: int) -> Option<Tab>
    decreases hits.len() - i,
{
    if i < 0 || i >= hits.len() {
        None
    } else if hits[i].0.holds(col, row) {
        Some(hits[i].1)
    } else {
        tab_at(hits, col, row, i + 1)
    }
}

/// The first tab label at a cell.
fn find_tab(hits: &Vec<(Rect, Tab)>, col: u16, row: u16) -> (r: Option<Tab>)
    ensures
        r == tab_at(hits@, col, row, 0),
{
    let mut i: usize = 0;
    while i < hits.len()
        invariant
            tab_at(hits@, col, row, 0) == tab_at(hits@, col, row, i as int),
        decreases hits@.len() - i,
    {
        if geometry::rect_contains(hits[i].0, col, row) {
            return Some(hits[i].1);
        }
        i += 1;
    }
    None
}

/// Whether a cell lies in a list that was drawn.
pub open spec fn over(l: Option<RowList>, col: u16, row: u16) -> bool {
    l matches Some(rl) && rl.inner.holds(col, row)
}

/// Whether a cell lies in a list that was drawn.
fn is_over(l: &Option<RowList>, col: u16, row: u16) -> (r: bool)
    ensures
        r == over(*l, col, row),
{
    match l {
        Some(rl) => rl.contains(col, row),
        None => false,
    }
}

/// The row of a list that was drawn at a cell.
pub open spec fn row_under(l: Option<RowList>, col: u16, row: u16) -> Option<int> {
    match l {
        Some(rl) => rl.row_at(col, row),
        None => None,
    }
}

/// The row of a list that was drawn at a cell.
fn find_row(l: &Option<RowList>, col: u16, row: u16) -> (r: Option<usize>)
    ensures
        match r {
            Some(i) => row_under(*l, col, row) == Some(i as int),
            None => row_under(*l, col, row) is None,
        },
{
    match l {
        Some(rl) => rl.hit(col, row),
        None => None,
    }
}

impl WizardView {
    /// With the row at `i` of the step on screen selected. The review's last row
    /// stands below an empty line.
    pub open spec fn clicked(self, i: int) -> WizardView {
        match self.step {
            StepView::Welcome { .. } => if i < 2 {
                self.at(StepView::Welcome { selected: i })
            } else {
                self
            },
            StepView::Location { .. } => self.at(StepView::Location { selected: i }),
            StepView::CloneBrowse { browser, prior_input } => if i < browser.entries.len() {
                self.at(
                    StepView::CloneBrowse {
                        browser: BrowserView { selected: i, ..browser },
                        prior_input,
                    },
                )
            } else {
                self
            },
            StepView::Review { editing: None, .. } => if i < REVIEW_ROWS - 1 {
                self.at(StepView::Review { selected: i, editing: None })
            } else if i == REVIEW_ROWS {
                self.at(StepView::Review { selected: REVIEW_ROWS - 1, editing: None })
            } else {
                self
            },
            _ => self,
        }
    }
}

impl AppView {
    /// Whether a click completes a double click on one cell.
    pub open spec fn is_double(self, col: u16, row: u16) -> bool {
        self.last_click matches Some(c) && c.0 == col && c.1 == row && ticks::elapsed(
            self.now,
            c.2,
        ) < DOUBLE_CLICK
    }

    /// With a click noted; one that completes a double click uses both up.
    pub open spec fn click_noted(self, col: u16, row: u16) -> AppView {
        AppView {
            last_click: if self.is_double(col, row) {
                None
            } else {
                Some((col, row, self.now))
            },
            ..self
        }
    }

    /// After a double click: a row of the Changes tab is activated.
    pub open spec fn double_clicked(self) -> AppView {
        if self.view is List && self.tab == Tab::Changes {
            self.activate_change()
        } else {
            self
        }
    }

    /// After a click on row `i` of the preview: the Changes tab opens on that
    /// file.
    pub open spec fn preview_clicked(self, i: int) -> AppView {
        match self.worktree() {
            Some(w) => if 0 <= i < self.worktree_preview.len() {
                self.open_changes_at(w.name@, self.worktree_preview[i].path@)
            } else {
                self
            },
            None => self,
        }
    }

    /// After a click on row `i` of the active tab.
    #[verifier::opaque]
    pub open spec fn tab_clicked(self, i: int) -> AppView {
        match self.tab {
            Tab::Worktrees => if i < self.worktrees.len() && self.selected != i {
                self.on_worktree(i)
            } else {
                self
            },
            Tab::Branches => if i < self.branches.len() {
                AppView { branch_selected: i, ..self }
            } else {
                self
            },
            Tab::Changes => if i < self.changes.rows.len() && self.changes.selected != i {
                self.on_row(i)
            } else {
                self
            },
            Tab::Stash => if i < self.stash_entries.len() {
                AppView { stash_selected: i, ..self }
            } else {
                self
            },
            Tab::Settings => if self.settings.editing is None {
                match config_editor::row_on(i) {
                    Some(row) => AppView {
                        settings: EditorView { selected: row, ..self.settings },
                        ..self
                    },
                    None => self,
                }
            } else {
                self
            },
        }
    }

    /// After a click on row `i` of the screen in front.
    #[verifier::opaque]
    pub open spec fn screen_clicked(self, i: int) -> AppView {
        match self.view {
            Screen::List => self.tab_clicked(i),
            Screen::CommitDiff(c) => if i < c.rows.len() && c.selected != i {
                self.browsing(CommitBrowser { selected: i, ..c }).load_commit_diff(true)
            } else {
                self
            },
            Screen::Commit(d) => if i < d.files.len() {
                self.in_commit(CommitDialog { cursor: i, focus: CommitFocus::Files, ..d })
            } else {
                self
            },
            Screen::Log { lines, .. } => if model::is_commit(lines, i) {
                self.log_at(i)
            } else {
                self
            },
            Screen::BranchCommits(b) => if model::is_commit(b.lines, i) {
                self.in_history(BranchHistory { selected: i, ..b })
            } else {
                self
            },
            Screen::Switch(p) => self.in_switch(p.at(i)),
            Screen::CherryPick(c) => if i < c.targets.len() {
                self.picking(CherryPicker { selected: i, ..c })
            } else {
                self
            },
            Screen::MergePick { source_branch, targets, .. } => if i < targets.len() {
                AppView {
                    view: Screen::MergePick { source_branch, targets, selected: i },
                    ..self
                }
            } else {
                self
            },
            Screen::ConflictResolver(r) => if i < r.files.len() && r.file != i {
                self.resolving(ResolverScreen { file: i, ..r }).load_conflict()
            } else {
                self
            },
            Screen::Setup(w) => self.in_setup(w.clicked(i)),
            _ => self,
        }
    }

    /// After a click on row `i` of the list in front. A choice lies in front of
    /// everything else, and only options that can be chosen are selected.
    pub open spec fn row_clicked(self, i: int) -> AppView {
        match self.modal {
            Some(ModalView::Confirm { title, body, options, action, .. }) => if 0 <= i
                < options.len() && options[i].enabled {
                self.show(ModalView::Confirm { title, body, options, selected: i, action })
            } else {
                self
            },
            _ => self.screen_clicked(i),
        }
    }

    /// After a click: on a tab label, on the diff's path, on the preview, or on
    /// a row of the list in front.
    pub open spec fn clicked(self, col: u16, row: u16) -> AppView {
        match tab_at(self.tab_hits, col, row, 0) {
            Some(tab) => self.select_tab(tab),
            None => if self.diff_path_hit matches Some(r) && r.holds(col, row) {
                AppView { last_click: None, ..self.copy_change() }
            } else {
                match row_under(self.preview_list, col, row) {
                    Some(i) => self.preview_clicked(i),
                    None => match row_under(self.row_list, col, row) {
                        Some(i) => self.row_clicked(i),
                        None => self,
                    },
                }
            },
        }
    }

    /// After a notch of the wheel with the pointer at a cell.
    pub open spec fn wheeled(self, down: bool, col: u16, row: u16) -> AppView {
        let by = if down {
            Scroll::Down
        } else {
            Scroll::Up
        };
        let over_list = over(self.row_list, col, row);
        if self.show_help {
            AppView { help_scroll: by.of(self.help_scroll), ..self }
        } else {
            match self.view {
                Screen::List => match self.tab {
                    Tab::Worktrees => if over(self.preview_list, col, row) {
                        self.scroll_preview(down, 3)
                    } else if over_list {
                        self.step_worktree(down)
                    } else {
                        self
                    },
                    Tab::Changes => if over_list {
                        self.step_change(down)
                    } else {
                        self.scroll_change(by)
                    },
                    _ => self,
                },
                Screen::CommitDiff(_) => if over_list {
                    self.step_commit(down)
                } else {
                    self.scroll_commit(by)
                },
                Screen::Log { .. } => self.step_log(down),
                _ => self,
            }
        }
    }

    /// Whether the newest request, behind the first `n`, is for changed files.
    pub open spec fn asked_files(self, n: nat) -> bool {
        self.out.len() > n && self.out.last() is Status
    }

    /// With the row under the cursor to be activated once the changed files that
    /// were asked for last are shown.
    pub open spec fn activating(self) -> AppView {
        match self.out.last() {
            RequestView::Status { name, then, .. } => AppView {
                out: self.out.drop_last().push(
                    RequestView::Status { name, then, activate: true },
                ),
                ..self
            },
            _ => self,
        }
    }

    /// After a mouse event. Clicks are lost on the help panel. A double click
    /// whose click asked for changed files takes effect once they are there.
    pub open spec fn moused(self, m: MouseEvent) -> AppView {
        match m.kind {
            MouseKind::LeftDown => if self.show_help {
                self
            } else {
                let a = self.click_noted(m.column, m.row).clicked(m.column, m.row);
                if self.is_double(m.column, m.row) {
                    if a.asked_files(self.out.len()) {
                        a.activating()
                    } else {
                        a.double_clicked()
                    }
                } else {
                    a
                }
            },
            MouseKind::ScrollDown => self.wheeled(true, m.column, m.row),
            MouseKind::ScrollUp => self.wheeled(false, m.column, m.row),
            MouseKind::Other => self,
        }
    }
}

impl SetupWizard {
    /// Selects the row at `i` of the step on screen.
    pub fn on_click(&mut self, i: usize)
        ensures
            final(self)@ == old(self)@.clicked(i as int),
    {
        match &mut self.step {
            Step::Welcome { selected } => {
                if i < 2 {
                    *selected = i;
                }
            },
            Step::Location { selected } => *selected = i,
            Step::CloneBrowse { browser, .. } => {
                if i < browser.entries.len() {
                    browser.selected = i;
                }
            },
            Step::Review { selected, editing } => {
                if editing.is_none() {
                    if i < REVIEW_ROWS - 1 {
                        *selected = i;
                    } else if i == REVIEW_ROWS {
                        *selected = REVIEW_ROWS - 1;
                    }
                }
            },
            _ => {},
        }
    }
}

impl App {
    /// Whether a click completes a double click on one cell; notes it otherwise.
    pub fn take_double_click(&mut self, col: u16, row: u16) -> (r: bool)
        requires
            old(self).wf(),
        ensures
            r == old(self)@.is_double(col, row),
            final(self)@ == old(self)@.click_noted(col, row),
            final(self).wf(),
    {
        let double = match self.last_click {
            Some((c, r, at)) => c == col && r == row && self.now.saturating_sub(at) < DOUBLE_CLICK,
            None => false,
        };
        self.last_click = if double {
            None
        } else {
            Some((col, row, self.now))
        };
        double
    }

    /// Handles a double click: activates a row of the Changes tab.
    pub fn on_double_click(&mut self)
        requires
            old(self).wf(),
        ensures
            final(self)@ == old(self)@.double_clicked(),
            final(self).wf(),
    {
        if matches!(self.view, View::List) && self.tab == Tab::Changes {
            self.activate_changes_row();
        }
    }

    /// Leaves the activation to the answer of the newest request, behind the
    /// first `n`, if that is for changed files.
    fn defer_activation(&mut self, n: usize) -> (r: bool)
        requires
            old(self).wf(),
        ensures
            r == old(self)@.asked_files(n as nat),
            final(self)@ == if r {
                old(self)@.activating()
            } else {
                old(self)@
            },
            final(self).wf(),
    {
        let count: usize = self.out.len();
        if count <= n {
            return false;
        }
        let ghost before = self.out@;
        assert(self@.out.last() == before.last()@);
        let mut asked = false;
        if let Request::Status { activate, .. } = &mut self.out[count - 1] {
            *activate = true;
            asked = true;
        }
        proof {
            if asked {
                assert(self@.out =~= old(self)@.activating().out);
            } else {
                assert(self@.out =~= old(self)@.out);
            }
        }
        asked
    }

    /// Handles a click on a row of the preview.
    fn on_preview_click(&mut self, i: usize)
        requires
            old(self).wf(),
        ensures
            final(self)@ == old(self)@.preview_clicked(i as int),
            final(self).wf(),
    {
        if let Some(name) = self.selected_name() {
            if i < self.worktree_preview.len() {
                let path = self.worktree_preview[i].path.clone();
                self.open_changes_tab_at(name, path);
            }
        }
    }

    /// Handles a click on a row of the active tab.
    fn on_tab_click(&mut self, i: usize)
        requires
            old(self).wf(),
        ensures
            final(self)@ == old(self)@.tab_clicked(i as int),
            final(self).wf(),
    {
        proof {
            reveal(AppView::tab_clicked);
        }
        match self.tab {
            Tab::Worktrees => {
                if i < self.worktrees.len() && self.selected != i {
                    self.selected = i;
                    self.preview_scroll = 0;
                }
            },
            Tab::Branches => {
                if i < self.branches.len() {
                    self.branch_selected = i;
                }
            },
            Tab::Changes => {
                if i < self.changes.rows.len() && self.changes.selected != i {
                    self.changes.selected = i;
                    self.load_diff_content(true);
                }
            },
            Tab::Stash => {
                if i < self.stash_entries.len() {
                    self.stash_selected = i;
                }
            },
            Tab::Settings => {
                if self.settings.editing.is_none() {
                    if let Some(row) = config_editor::row_at_line(i) {
                        self.settings.selected = row;
                    }
                }
            },
        }
    }

    /// Handles a click on a row of the browser for a commit.
    fn on_browser_click(&mut self, i: usize)
        requires
            old(self).wf(),
            old(self)@.view is CommitDiff,
        ensures
            final(self)@ == old(self)@.screen_clicked(i as int),
            final(self).wf(),
    {
        proof {
            reveal(AppView::screen_clicked);
        }
        let mut moved = false;
        if let View::CommitDiff { rows, selected, .. } = &mut self.view {
            if i < rows.len() && *selected != i {
                *selected = i;
                moved = true;
            }
        }
        if moved {
            self.load_commit_diff_content(true);
        }
    }

    /// Handles a click on a row of the conflict resolver.
    fn on_resolver_click(&mut self, i: usize)
        requires
            old(self).wf(),
            old(self)@.view is ConflictResolver,
        ensures
            final(self)@ == old(self)@.screen_clicked(i as int),
            final(self).wf(),
    {
        proof {
            reveal(AppView::screen_clicked);
        }
        let mut moved = false;
        if let View::ConflictResolver { files, file, .. } = &mut self.view {
            if i < files.len() && *file != i {
                *file = i;
                moved = true;
            }
        }
        if moved {
            self.load_resolver_file();
        }
    }

    /// Handles a click on a row of a screen where it moves a cursor and nothing
    /// else.
    fn on_cursor_click(&mut self, i: usize)
        requires
            old(self).wf(),
            !(old(self)@.view is List),
            !(old(self)@.view is CommitDiff),
            !(old(self)@.view is ConflictResolver),
        ensures
            final(self)@ == old(self)@.screen_clicked(i as int),
            final(self).wf(),
    {
        proof {
            reveal(AppView::screen_clicked);
        }
        match &mut self.view {
            View::Commit { files, cursor, focus, .. } => {
                if i < files.len() {
                    *cursor = i;
                    *focus = CommitFocus::Files;
                }
            },
            View::Log { lines, selected, .. } => {
                if i < lines.len() && lines[i].entry.is_some() {
                    *selected = i;
                }
            },
            View::BranchCommits { lines, selected, .. } => {
                if i < lines.len() && lines[i].entry.is_some() {
                    *selected = i;
                }
            },
            View::Switch { selected, .. } => *selected = i,
            View::CherryPick { targets, selected, .. } => {
                if i < targets.len() {
                    *selected = i;
                }
            },
            View::MergePick { targets, selected, .. } => {
                if i < targets.len() {
                    *selected = i;
                }
            },
            View::Setup(w) => w.on_click(i),
            _ => {},
        }
    }

    /// Handles a click on a row of the screen in front.
    fn on_screen_click(&mut self, i: usize)
        requires
            old(self).wf(),
        ensures
            final(self)@ == old(self)@.screen_clicked(i as int),
            final(self).wf(),
    {
        match &self.view {
            View::List => {
                proof {
                    reveal(AppView::screen_clicked);
                }
                self.on_tab_click(i)
            },
            View::CommitDiff { .. } => self.on_browser_click(i),
            View::ConflictResolver { .. } => self.on_resolver_click(i),
            _ => self.on_cursor_click(i),
        }
    }

    /// Handles a click on a row of the list in front.
    fn on_row_click(&mut self, i: usize)
        requires
            old(self).wf(),
        ensures
            final(self)@ == old(self)@.row_clicked(i as int),
            final(self).wf(),
    {
        if let Some(Modal::Confirm { options, selected, .. }) = &mut self.modal {
            if i < options.len() && options[i].enabled {
                *selected = i;
            }
            return;
        }
        self.on_screen_click(i);
    }

    /// Handles a left click.
    pub fn on_click(&mut self, col: u16, row: u16)
        requires
            old(self).wf(),
        ensures
            final(self)@ == old(self)@.clicked(col, row),
            final(self).wf(),
    {
        if let Some(tab) = find_tab(&self.tab_hits, col, row) {
            self.select_tab(tab);
            return;
        }
        if let Some(r) = self.diff_path_hit {
            if geometry::rect_contains(r, col, row) {
                self.copy_diff_path();
                self.last_click = None;
                return;
            }
        }
        if let Some(i) = find_row(&self.preview_list, col, row) {
            self.on_preview_click(i);
            return;
        }
        if let Some(i) = find_row(&self.row_list, col, row) {
            self.on_row_click(i);
        }
    }

    /// Handles a notch of the wheel.
    fn on_wheel(&mut self, down: bool, col: u16, row: u16)
        requires
            old(self).wf(),
        ensures
            final(self)@ == old(self)@.wheeled(down, col, row),
            final(self).wf(),
    {
        let by = if down {
            Scroll::Down
        } else {
            Scroll::Up
        };
        if self.show_help {
            self.help_scroll = by.apply(self.help_scroll);
            return;
        }
        let over_list = is_over(&self.row_list, col, row);
        match &self.view {
            View::List => match self.tab {
                Tab::Worktrees => {
                    if is_over(&self.preview_list, col, row) {
                        self.scroll_preview(down, 3);
                    } else if over_list {
                        self.step_worktree(down);
                    }
                },
                Tab::Changes => {
                    if over_list {
                        self.step_change_row(down);
                    } else {
                        self.scroll_diff(by);
                    }
                },
                _ => {},
            },
            View::CommitDiff { .. } => {
                if over_list {
                    self.step_commit_row(down);
                } else {
                    self.scroll_commit_diff(by);
                }
            },
            View::Log { .. } => self.step_log(down),
            _ => {},
        }
    }

    /// Handles a mouse event.
    pub fn on_mouse(&mut self, mouse: MouseEvent)
        requires
            old(self).wf(),
        ensures
            final(self)@ == old(self)@.moused(mouse),
            final(self).wf(),
    {
        match mouse.kind {
            MouseKind::LeftDown => {
                if !self.show_help {
                    let double = self.take_double_click(mouse.column, mouse.row);
                    let asked: usize = self.out.len();
                    self.on_click(mouse.column, mouse.row);
                    if double {
                        let deferred = self.defer_activation(asked);
                        if !deferred {
                            self.on_double_click();
                        }
                    }
                }
            },
            MouseKind::ScrollDown => self.on_wheel(true, mouse.column, mouse.row),
            MouseKind::ScrollUp => self.on_wheel(false, mouse.column, mouse.row),
            MouseKind::Other => {},
        }
    }
}

/// Two clicks on one cell in quick succession are a double click, and a third
/// starts over.
pub proof fn double_click_uses_both_up(a: AppView, col: u16, row: u16)
    requires
        a.last_click is None,
    ensures
        !a.is_double(col, row),
        a.click_noted(col, row).is_double(col, row),
        !a.click_noted(col, row).click_noted(col, row).is_double(col, row),
{
}

/// A double click whose click asks for the changed files opens no file before
/// they are there: it adds the question alone. Once they are, the row under the
/// cursor is activated.
pub proof fn double_click_waits_for_files(
    a: AppView,
    m: MouseEvent,
    name: Seq<char>,
    files: Result<Seq<StatusEntry>, Seq<char>>,
)
    requires
        m.kind == MouseKind::LeftDown,
        !a.show_help,
        a.is_double(m.column, m.row),
        a.click_noted(m.column, m.row).clicked(m.column, m.row).asked_files(a.out.len()),
    ensures
        a.moused(m).out.len() == a.click_noted(m.column, m.row).clicked(
            m.column,
            m.row,
        ).out.len(),
        match a.moused(m).out.last() {
            RequestView::Status { then, activate, .. } => activate && forall|b: AppView|
                #[trigger] b.status_answered(name, then, activate, files) == b.status_read(
                    name,
                    then,
                    files,
                ).double_clicked(),
            _ => false,
        },
{
}

/// A click on the path of the diff is never half of a double click.
pub proof fn path_click_is_no_half(a: AppView, col: u16, row: u16)
    requires
        tab_at(a.tab_hits, col, row, 0) is None,
        a.diff_path_hit matches Some(r) && r.holds(col, row),
    ensures
        a.click_noted(col, row).clicked(col, row).last_click is None,
{
}

} // verus!
