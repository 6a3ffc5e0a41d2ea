//! The Changes tab: the changed files of a worktree and the diff of the file
//! under the cursor.

use vstd::prelude::*;
use vstd::string::*;
use vstd::view::View as _;

use crate::app::{
    App, AppView, ChangesTab, ChangesView, CommitDialog, CommitFocus, Screen, Tab, View,
};
use crate::input::{TextInput, TextState};
use crate::marks;
use crate::model::{Task, TaskView};
use crate::panes;
use crate::panes::Pane;
use crate::request::{Request, RequestView, StatusThen, StatusThenView};
use crate::rows;
use crate::rows::StatusEntry;
use crate::text;
use crate::tree;

verus! {

/// Whether a status code marks an untracked file.
pub open spec fn untracked(code: Seq<char>) -> bool {
    code.len() > 0 && code[0] == '?'
}

/// Whether a status code marks an untracked file.
pub fn is_untracked(code: &str) -> (r: bool)
    ensures
        r == untracked(code@),
{
    code.unicode_len() > 0 && code.get_char(0) == '?'
}

/// The last line of a text that the screen can be scrolled to: the last one, or
/// the last that a scroll offset reaches.
pub open spec fn last_line(content: Seq<char>) -> u16 {
    let n = text::lines_of(content).len();
    if n == 0 {
        0
    } else if n - 1 < u16::MAX {
        (n - 1) as u16
    } else {
        u16::MAX
    }
}

/// The last line of a text that the screen can be scrolled to.
pub fn find_last_line(content: &str) -> (r: u16)
    ensures
        r == last_line(content@),
{
    let lines = text::lines(content);
    assert(text::views(lines@).len() == lines@.len());
    let n: usize = lines.len();
    if n == 0 {
        0
    } else if n - 1 < 65535 {
        (n - 1) as u16
    } else {
        u16::MAX
    }
}

/// The smaller of two scroll offsets.
pub open spec fn lower(a: u16, b: u16) -> u16 {
    if a <= b {
        a
    } else {
        b
    }
}

/// A collapsed set without the folders that `path` lies in, outermost `n` of
/// them.
pub open spec fn opened_to(collapsed: Set<Seq<char>>, dirs: Seq<Seq<char>>, n: int) -> Set<
    Seq<char>,
>
    decreases n,
{
    if n <= 0 {
        collapsed
    } else {
        opened_to(collapsed, dirs, n - 1).remove(tree::prefix_at(dirs, n))
    }
}

/// The first file from `i` on that has this path.
pub open spec fn file_with_path(files: Seq<StatusEntry>, path: Seq<char>, i: int) -> Option<int>
    decreases files.len() - i,
{
    if i < 0 || i >= files.len() {
        None
    } else if files[i].path@ == path {
        Some(i)
    } else {
        file_with_path(files, path, i + 1)
    }
}

/// The first file that has this path.
pub fn find_file(files: &Vec<StatusEntry>, path: &str) -> (r: Option<usize>)
    ensures
        match r {
            Some(i) => i < files@.len() && file_with_path(files@, path@, 0) == Some(i as int),
            None => file_with_path(files@, path@, 0) is None,
        },
{
    let mut i: usize = 0;
    while i < files.len()
        invariant
            file_with_path(files@, path@, 0) == file_with_path(files@, path@, i as int),
        decreases files@.len() - i,
    {
        if text::same(files[i].path.as_str(), path) {
            return Some(i);
        }
        i += 1;
    }
    None
}

impl ChangesView {
    /// The file under the cursor.
    pub open spec fn entry(self) -> Option<StatusEntry> {
        panes::entry_at(self.rows, self.files, self.selected)
    }

    /// The path of the file under the cursor.
    pub open spec fn path(self) -> Option<Seq<char>> {
        panes::path_at(self.rows, self.files, self.selected)
    }

    /// With the newest result of the running load taken over, if it is that of
    /// the load last started. A diff that has shrunk pulls the viewport along.
    pub open spec fn polled(self) -> ChangesView {
        match self.pending {
            Some(t) => if t.queue.len() == 0 {
                self
            } else {
                let (token, path, content) = t.queue.last();
                if token != self.load_gen {
                    ChangesView { pending: Some(t.drained()), ..self }
                } else {
                    ChangesView {
                        content: content@,
                        content_path: Some(path@),
                        pending: None,
                        loading_new: false,
                        scroll: lower(self.scroll, last_line(content@)),
                        ..self
                    }
                }
            },
            None => self,
        }
    }
}

impl AppView {
    /// With the diff of the file under the cursor asked for. On a folder there
    /// is none, and whatever was loading is dropped.
    pub open spec fn load_diff(self, reset_scroll: bool) -> AppView {
        let c = self.changes;
        let scroll = if reset_scroll {
            0
        } else {
            c.scroll
        };
        match c.entry() {
            None => AppView {
                changes: ChangesView {
                    content: Seq::empty(),
                    content_path: None,
                    pending: None,
                    loading_new: false,
                    scroll,
                    ..c
                },
                ..self
            },
            Some(e) => {
                let token = c.load_gen.wrapping_add(1);
                AppView {
                    changes: ChangesView {
                        load_gen: token,
                        scroll,
                        pending: Some(TaskView::started(self.next_task)),
                        loading_new: c.content_path != Some(e.path@),
                        ..c
                    },
                    ..self
                }.numbered().ask(
                    RequestView::FileDiff {
                        task: self.next_task,
                        token,
                        name: c.name,
                        path: e.path@,
                        untracked: untracked(e.code@),
                    },
                )
            },
        }
    }

    /// With the changed files asked for anew, once the tab has been opened.
    pub open spec fn refresh_diff(self) -> AppView {
        if self.changes.name.len() == 0 {
            self
        } else {
            self.ask(
                RequestView::Status {
                    name: self.changes.name,
                    then: StatusThenView::RefreshDiff,
                    activate: false,
                },
            )
        }
    }

    /// With the Changes tab and the list of worktrees asked for anew.
    pub open spec fn refresh_both(self) -> AppView {
        self.refresh_diff().refresh()
    }

    /// With the changed files of a worktree asked for, to open the tab on them.
    pub open spec fn open_changes(self, name: Seq<char>) -> AppView {
        self.ask(
            RequestView::Status { name, then: StatusThenView::OpenChanges, activate: false },
        )
    }

    /// With the Changes tab opened on files.
    pub open spec fn show_changes(self, name: Seq<char>, files: Seq<StatusEntry>) -> AppView {
        AppView {
            tab: Tab::Changes,
            changes: ChangesView {
                name,
                files,
                marked: marks::all_marks(files.len(), true),
                rows: tree::layout(files, self.file_tree, self.collapsed_folders),
                ..ChangesView::closed(self.now)
            },
            ..self
        }.load_diff(true)
    }

    /// With the changed files of a worktree asked for, to open the tab on them
    /// with the cursor on a path.
    pub open spec fn open_changes_at(self, name: Seq<char>, path: Seq<char>) -> AppView {
        self.ask(
            RequestView::Status {
                name,
                then: StatusThenView::OpenChangesAt(path),
                activate: false,
            },
        )
    }

    /// With the cursor of the Changes tab on a path, if the tab is open and
    /// lists it. Collapsed folders around it are opened.
    pub open spec fn go_to_path(self, path: Seq<char>) -> AppView {
        let c = self.changes;
        let dirs = tree::dirs_of(path);
        let n = dirs.len() as int;
        if self.tab != Tab::Changes {
            self
        } else {
            match file_with_path(c.files, path, 0) {
                None => self,
                Some(file) => {
                    let collapsed = opened_to(self.collapsed_folders, dirs, n);
                    let rows = if tree::hidden(dirs, n, self.collapsed_folders) {
                        tree::layout(c.files, self.file_tree, collapsed)
                    } else {
                        c.rows
                    };
                    let a = AppView {
                        collapsed_folders: collapsed,
                        changes: ChangesView { rows, ..c },
                        ..self
                    };
                    match panes::row_of_file(rows, file, 0) {
                        None => a,
                        Some(row) => AppView {
                            changes: ChangesView { selected: row, ..a.changes },
                            ..a
                        }.load_diff(true),
                    }
                },
            }
        }
    }

    /// With new files taken over into the Changes tab: marks are kept by path,
    /// the cursor stays in the list, and the viewport stays where it is when the
    /// file under the cursor is still the same.
    pub open spec fn take_files(self, files: Seq<StatusEntry>) -> AppView {
        let c = self.changes;
        let rows = tree::layout(files, self.file_tree, self.collapsed_folders);
        let n = ChangesView {
            rows,
            files,
            marked: marks::carried(c.files, c.marked, files),
            selected: if c.selected < rows.len() {
                c.selected
            } else if rows.len() > 0 {
                rows.len() - 1
            } else {
                0
            },
            last_refresh: self.now,
            ..c
        };
        AppView { changes: n, ..self }.load_diff(n.path() != c.path())
    }

    /// With the Changes tab closed because its worktree cannot be read.
    pub open spec fn lose_changes(self, e: Seq<char>) -> AppView {
        AppView {
            changes: ChangesView::closed(self.now),
            tab: Tab::Worktrees,
            ..self.fail(e)
        }.refresh()
    }

    /// The commit dialog on files.
    pub open spec fn commit_screen(
        name: Seq<char>,
        files: Seq<StatusEntry>,
        marked: Seq<bool>,
    ) -> Screen {
        Screen::Commit(
            CommitDialog {
                name,
                files,
                marked,
                cursor: 0,
                input: TextState::filled(Seq::empty()),
                focus: CommitFocus::Message,
            },
        )
    }

    /// After the changed files of a worktree were read.
    pub open spec fn status_read(
        self,
        name: Seq<char>,
        then: StatusThenView,
        result: Result<Seq<StatusEntry>, Seq<char>>,
    ) -> AppView {
        match then {
            StatusThenView::OpenChanges => match result {
                Ok(files) => self.show_changes(name, files),
                Err(e) => self.fail(e),
            },
            StatusThenView::OpenChangesAt(path) => (match result {
                Ok(files) => self.show_changes(name, files),
                Err(e) => self.fail(e),
            }).go_to_path(path),
            StatusThenView::RefreshDiff => match result {
                Ok(files) => self.take_files(files),
                Err(e) => self.lose_changes(e),
            },
            StatusThenView::OpenCommit => match result {
                Ok(files) => self.pushed(
                    AppView::commit_screen(name, files, marks::all_marks(files.len(), true)),
                ),
                Err(e) => self.fail(e),
            },
        }
    }

    /// After the changed files that a request asked for were read: with the row
    /// under the cursor activated then, where that was wanted.
    pub open spec fn status_answered(
        self,
        name: Seq<char>,
        then: StatusThenView,
        activate: bool,
        result: Result<Seq<StatusEntry>, Seq<char>>,
    ) -> AppView {
        let a = self.status_read(name, then, result);
        if activate {
            a.double_clicked()
        } else {
            a
        }
    }

    /// The Changes tab's tree.
    pub open spec fn changes_pane(self) -> Pane {
        Pane {
            collapsed: self.collapsed_folders,
            rows: self.changes.rows,
            selected: self.changes.selected,
        }
    }

    /// With another tree in the Changes tab.
    pub open spec fn with_changes_pane(self, p: Pane) -> AppView {
        AppView {
            collapsed_folders: p.collapsed,
            changes: ChangesView { rows: p.rows, selected: p.selected, ..self.changes },
            ..self
        }
    }

    /// With the cursor of the Changes tab on another row.
    pub open spec fn on_row(self, row: int) -> AppView {
        AppView { changes: ChangesView { selected: row, ..self.changes }, ..self }.load_diff(true)
    }

    /// With the viewport of the diff moved.
    pub open spec fn scrolled(self, scroll: u16) -> AppView {
        AppView { changes: ChangesView { scroll, ..self.changes }, ..self }
    }

    /// With other marks in the Changes tab.
    pub open spec fn with_marks(self, marked: Seq<bool>) -> AppView {
        AppView { changes: ChangesView { marked, ..self.changes }, ..self }
    }

    /// With the file list switched between tree and flat, the cursor staying on
    /// its file.
    pub open spec fn toggle_layout(self) -> AppView {
        let c = self.changes;
        let rows = tree::layout(c.files, !self.file_tree, self.collapsed_folders);
        AppView {
            file_tree: !self.file_tree,
            changes: ChangesView {
                rows,
                selected: panes::row_for(rows, c.files, c.path()),
                ..c
            },
            ..self
        }.load_diff(true)
    }
}

/// The result of reading, as a view.
pub open spec fn files_view(r: Result<Vec<StatusEntry>, String>) -> Result<
    Seq<StatusEntry>,
    Seq<char>,
> {
    match r {
        Ok(v) => Ok(v@),
        Err(e) => Err(e@),
    }
}

impl App {
    /// Asks for the changed files of a worktree, to open the Changes tab on
    /// them.
    pub fn open_changes_tab(&mut self, name: String)
        ensures
            final(self)@ == old(self)@.open_changes(name@),
    {
        self.ask(Request::Status { name, then: StatusThen::OpenChanges, activate: false });
    }

    /// Asks for the changed files of a worktree, to open the Changes tab on them
    /// with the cursor on `path`.
    pub fn open_changes_tab_at(&mut self, name: String, path: String)
        ensures
            final(self)@ == old(self)@.open_changes_at(name@, path@),
    {
        self.ask(
            Request::Status { name, then: StatusThen::OpenChangesAt(path), activate: false },
        );
    }

    /// Asks for the diff of the file under the cursor. On a folder there is
    /// none, so the content is cleared and whatever was loading is dropped.
    /// `reset_scroll` sends the viewport to the top.
    pub fn load_diff_content(&mut self, reset_scroll: bool)
        ensures
            final(self)@ == old(self)@.load_diff(reset_scroll),
    {
        let entry = panes::entry_under(
            &self.changes.rows,
            &self.changes.files,
            self.changes.selected,
        );
        if reset_scroll {
            self.changes.scroll = 0;
        }
        match entry {
            None => {
                self.changes.content = String::new();
                self.changes.content_path = None;
                self.changes.pending = None;
                self.changes.loading_new = false;
            },
            Some(e) => {
                self.changes.load_gen = self.changes.load_gen.wrapping_add(1);
                let token: u64 = self.changes.load_gen;
                let is_new = match &self.changes.content_path {
                    Some(p) => !text::same(p.as_str(), e.path.as_str()),
                    None => true,
                };
                let task: u64 = self.take_number();
                self.changes.pending = Some(Task::new(task));
                self.changes.loading_new = is_new;
                let name = self.changes.name.clone();
                let untracked = is_untracked(e.code.as_str());
                self.ask(Request::FileDiff { task, token, name, path: e.path, untracked });
            },
        }
    }

    /// Takes the diff that a `Request::FileDiff` asked for.
    pub fn deliver_diff(&mut self, task: u64, token: u64, path: String, content: String)
        ensures
            final(self)@ == match old(self)@.changes.pending {
                Some(t) => if t.id == task {
                    AppView {
                        changes: ChangesView {
                            pending: Some(
                                TaskView { queue: t.queue.push((token, path, content)), ..t },
                            ),
                            ..old(self)@.changes
                        },
                        ..old(self)@
                    }
                } else {
                    old(self)@
                },
                None => old(self)@,
            },
    {
        if let Some(t) = &mut self.changes.pending {
            if t.id == task {
                t.push((token, path, content));
            }
        }
    }

    /// Takes over the newest diff that has arrived, if it is that of the load
    /// last started.
    pub fn poll_diff_load(&mut self)
        ensures
            final(self)@ == (AppView { changes: old(self)@.changes.polled(), ..old(self)@ }),
    {
        let token: u64 = self.changes.load_gen;
        let found = match &mut self.changes.pending {
            Some(t) => t.poll_latest(),
            None => None,
        };
        if let Some((g, path, content)) = found {
            if g == token {
                let max: u16 = find_last_line(content.as_str());
                self.changes.content = content;
                self.changes.content_path = Some(path);
                self.changes.pending = None;
                self.changes.loading_new = false;
                if max < self.changes.scroll {
                    self.changes.scroll = max;
                }
            }
        } else {
            proof {
                if let Some(t) = old(self)@.changes.pending {
                    assert(t.drained().queue =~= t.queue);
                }
            }
        }
    }

    /// Asks for the changed files anew, once the tab has been opened.
    pub fn refresh_diff(&mut self)
        ensures
            final(self)@ == old(self)@.refresh_diff(),
    {
        if self.changes.name.as_str().unicode_len() == 0 {
            return;
        }
        let name = self.changes.name.clone();
        self.ask(Request::Status { name, then: StatusThen::RefreshDiff, activate: false });
    }

    /// Asks for the changed files and the list of worktrees anew.
    fn refresh_both(&mut self)
        ensures
            final(self)@ == old(self)@.refresh_both(),
    {
        self.refresh_diff();
        self.refresh();
    }

    /// Opens the Changes tab on files.
    fn show_changes(&mut self, name: String, files: Vec<StatusEntry>)
        requires
            old(self).wf(),
        ensures
            final(self)@ == old(self)@.show_changes(name@, files@),
            final(self).wf(),
    {
        let marked = marks::marks(files.len(), true);
        let rows = tree::build_rows(&files, self.file_tree, &self.collapsed_folders);
        self.tab = Tab::Changes;
        let mut c = ChangesTab::new(self.now);
        c.name = name;
        c.files = files;
        c.marked = marked;
        c.rows = rows;
        self.changes = c;
        self.load_diff_content(true);
    }

    /// Puts the cursor of the Changes tab on a path, if the tab is open and
    /// lists it, opening the collapsed folders around it.
    fn go_to_path(&mut self, path: &str)
        requires
            old(self).wf(),
        ensures
            final(self)@ == old(self)@.go_to_path(path@),
            final(self).wf(),
    {
        if self.tab != Tab::Changes {
            return;
        }
        let file: usize = match find_file(&self.changes.files, path) {
            Some(i) => i,
            None => {
                return;
            },
        };
        proof {
            text::split_is_not_empty(path@, '/');
        }
        let parts = text::split_at(path, '/');
        let ghost dirs = tree::dirs_of(path@);
        let ghost before = self@;
        let ghost c0 = self.collapsed_folders@;
        assert(text::views(parts@).len() == parts@.len());
        let n: usize = parts.len() - 1;
        let mut expanded = false;
        let mut i: usize = 0;
        while i < n
            invariant
                n == parts@.len() - 1,
                text::views(parts@) == text::split(path@, '/'),
                dirs == tree::dirs_of(path@),
                i <= n,
                c0 == before.collapsed_folders,
                self@ == (AppView { collapsed_folders: opened_to(c0, dirs, i as int), ..before }),
                expanded == tree::hidden(dirs, i as int, c0),
            decreases n - i,
        {
            let prefix = tree::folder_prefix(&parts, i + 1);
            assert(text::views(parts@).drop_last() =~= dirs);
            let ghost current = self.collapsed_folders@;
            let gone = self.collapsed_folders.remove(prefix.as_str());
            proof {
                opened_shape(c0, dirs, i as int, prefix@);
                if gone {
                    assert(c0.contains(tree::prefix_at(dirs, i + 1)));
                    assert(tree::hidden(dirs, i + 1, c0));
                }
                if tree::hidden(dirs, i + 1, c0) && !gone {
                    let k = choose|k: int|
                        1 <= k <= i + 1 && #[trigger] c0.contains(tree::prefix_at(dirs, k));
                    if k == i + 1 {
                        let j = choose|j: int|
                            1 <= j <= i && #[trigger] tree::prefix_at(dirs, j) == prefix@;
                        assert(c0.contains(tree::prefix_at(dirs, j)));
                    }
                    assert(tree::hidden(dirs, i as int, c0));
                }
                if tree::hidden(dirs, i as int, c0) {
                    let k = choose|k: int|
                        1 <= k <= i && #[trigger] c0.contains(tree::prefix_at(dirs, k));
                    assert(c0.contains(tree::prefix_at(dirs, k)));
                    assert(tree::hidden(dirs, i + 1, c0));
                }
            }
            expanded = expanded || gone;
            i += 1;
        }
        assert(dirs.len() == n);
        if expanded {
            self.changes.rows =
            tree::build_rows(&self.changes.files, self.file_tree, &self.collapsed_folders);
        }
        if let Some(row) = panes::find_file_row(&self.changes.rows, file) {
            self.changes.selected = row;
            self.load_diff_content(true);
        }
    }

    /// Takes new files over into the Changes tab.
    fn take_files(&mut self, files: Vec<StatusEntry>)
        requires
            old(self).wf(),
        ensures
            final(self)@ == old(self)@.take_files(files@),
            final(self).wf(),
    {
        let old_entry = panes::entry_under(
            &self.changes.rows,
            &self.changes.files,
            self.changes.selected,
        );
        let marked = marks::carry_marks(&self.changes.files, &self.changes.marked, &files);
        self.changes.rows =
        tree::build_rows(&files, self.file_tree, &self.collapsed_folders);
        self.changes.files = files;
        self.changes.marked = marked;
        let count: usize = self.changes.rows.len();
        if self.changes.selected >= count {
            self.changes.selected = count.saturating_sub(1);
        }
        self.changes.last_refresh = self.now;
        let new_entry = panes::entry_under(
            &self.changes.rows,
            &self.changes.files,
            self.changes.selected,
        );
        let same = match (&old_entry, &new_entry) {
            (Some(a), Some(b)) => text::same(a.path.as_str(), b.path.as_str()),
            (None, None) => true,
            _ => false,
        };
        self.load_diff_content(!same);
    }

    /// Takes the changed files that a `Request::Status` asked for, and activates
    /// the row then under the cursor if it said so.
    pub fn on_status(
        &mut self,
        name: String,
        then: StatusThen,
        activate: bool,
        result: Result<Vec<StatusEntry>, String>,
    )
        requires
            old(self).wf(),
        ensures
            final(self)@ == old(self)@.status_answered(
                name@,
                then@,
                activate,
                files_view(result),
            ),
            final(self).wf(),
    {
        self.take_status(name, then, result);
        if activate {
            self.on_double_click();
        }
    }

    /// Takes over the changed files of a worktree.
    fn take_status(
        &mut self,
        name: String,
        then: StatusThen,
        result: Result<Vec<StatusEntry>, String>,
    )
        requires
            old(self).wf(),
        ensures
            final(self)@ == old(self)@.status_read(name@, then@, files_view(result)),
            final(self).wf(),
    {
        match then {
            StatusThen::OpenChanges => match result {
                Ok(files) => self.show_changes(name, files),
                Err(e) => self.set_error(e),
            },
            StatusThen::OpenChangesAt(path) => {
                match result {
                    Ok(files) => self.show_changes(name, files),
                    Err(e) => self.set_error(e),
                }
                self.go_to_path(path.as_str());
            },
            StatusThen::RefreshDiff => match result {
                Ok(files) => self.take_files(files),
                Err(e) => {
                    self.set_error(e);
                    self.changes = ChangesTab::new(self.now);
                    self.tab = Tab::Worktrees;
                    self.refresh();
                },
            },
            StatusThen::OpenCommit => match result {
                Ok(files) => {
                    let marked = marks::marks(files.len(), true);
                    self.push_screen(
                        View::Commit {
                            name,
                            files,
                            marked,
                            cursor: 0,
                            input: TextInput::new(),
                            focus: CommitFocus::Message,
                        },
                    );
                },
                Err(e) => self.set_error(e),
            },
        }
    }

    /// Switches the file list between tree and flat, keeping the cursor on its
    /// file.
    pub fn toggle_file_layout(&mut self)
        requires
            old(self).wf(),
        ensures
            final(self)@ == old(self)@.toggle_layout(),
            final(self).wf(),
    {
        self.file_tree = !self.file_tree;
        let entry = panes::entry_under(
            &self.changes.rows,
            &self.changes.files,
            self.changes.selected,
        );
        let path = match entry {
            Some(e) => Some(e.path),
            None => None,
        };
        self.changes.rows =
        tree::build_rows(&self.changes.files, self.file_tree, &self.collapsed_folders);
        self.changes.selected =
        panes::find_path_row(&self.changes.rows, &self.changes.files, &path);
        self.load_diff_content(true);
    }
}

/// What a set opened along a path still holds.
pub proof fn opened_shape(c: Set<Seq<char>>, dirs: Seq<Seq<char>>, n: int, p: Seq<char>)
    requires
        0 <= n,
    ensures
        opened_to(c, dirs, n).contains(p) == (c.contains(p) && !(exists|j: int|
            1 <= j <= n && #[trigger] tree::prefix_at(dirs, j) == p)),
    decreases n,
{
    if n > 0 {
        opened_shape(c, dirs, n - 1, p);
        if exists|j: int| 1 <= j <= n - 1 && #[trigger] tree::prefix_at(dirs, j) == p {
            let j = choose|j: int| 1 <= j <= n - 1 && #[trigger] tree::prefix_at(dirs, j) == p;
            assert(tree::prefix_at(dirs, j) == p);
        }
        assert(tree::prefix_at(dirs, n) == tree::prefix_at(dirs, n));
    }
}

} // verus!
