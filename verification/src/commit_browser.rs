//! The browser for the files that a commit changed, and the tree that it shares
//! with the Changes tab.

use vstd::prelude::*;
use vstd::string::*;
use vstd::view::View as _;

use crate::app::{App, AppView, CommitBrowser, Screen, Tab, View};
use crate::changes;
use crate::input::{KeyCode, KeyEvent};
use crate::model::{LogEntry, Task, TaskView};
use crate::panes;
use crate::panes::Pane;
use crate::request::{Request, RequestView};
use crate::rows::StatusEntry;
use crate::text;
use crate::tree;

verus! {

/// The heading of a commit: the start of its hash, and its subject.
pub open spec fn heading(e: LogEntry) -> Seq<char> {
    e.hash@.take(
        if e.hash@.len() < 9 {
            e.hash@.len() as int
        } else {
            9
        },
    ) + " "@ + e.subject@
}

/// The heading of a commit: the start of its hash, and its subject.
pub fn commit_heading(e: &LogEntry) -> (r: String)
    ensures
        r@ == heading(*e),
{
    let chars = text::chars_of(e.hash.as_str());
    let n: usize = if chars.len() < 9 {
        chars.len()
    } else {
        9
    };
    let short = text::string_of(&chars, 0, n);
    assert(short@ =~= e.hash@.take(n as int));
    text::cat3(short.as_str(), " ", e.subject.as_str())
}

/// Whether a key scrolls a diff down.
pub open spec fn scrolls_down(key: KeyEvent) -> bool {
    (key.code is Down && key.shift) || key.code == KeyCode::Char('J')
}

/// Whether a key scrolls a diff up.
pub open spec fn scrolls_up(key: KeyEvent) -> bool {
    (key.code is Up && key.shift) || key.code == KeyCode::Char('K')
}

/// The scroll that a key asks for, ahead of what else it might mean.
pub fn scroll_of(key: KeyEvent) -> (r: Option<Scroll>)
    ensures
        r == if scrolls_down(key) {
            Some(Scroll::Down)
        } else if scrolls_up(key) {
            Some(Scroll::Up)
        } else {
            None
        },
{
    if (key.code == KeyCode::Down && key.shift) || key.code == KeyCode::Char('J') {
        Some(Scroll::Down)
    } else if (key.code == KeyCode::Up && key.shift) || key.code == KeyCode::Char('K') {
        Some(Scroll::Up)
    } else {
        None
    }
}

/// A scroll of a diff.
#[derive(Clone, Copy, Debug, PartialEq, Eq, Structural)]
pub enum Scroll {
    Down,
    Up,
    Top,
}

impl Scroll {
    /// The first line on screen after the scroll.
    pub open spec fn of(self, s: u16) -> u16 {
        match self {
            Scroll::Down => s.saturating_add(3),
            Scroll::Up => s.saturating_sub(3),
            Scroll::Top => 0,
        }
    }

    /// The first line on screen after the scroll.
    pub fn apply(self, s: u16) -> (r: u16)
        ensures
            r == self.of(s),
    {
        match self {
            Scroll::Down => s.saturating_add(3),
            Scroll::Up => s.saturating_sub(3),
            Scroll::Top => 0,
        }
    }
}

impl CommitBrowser {
    /// The browser as it opens.
    pub open spec fn opened(
        name: Seq<char>,
        hash: Seq<char>,
        label: Seq<char>,
        files: Seq<StatusEntry>,
        rows: Seq<crate::rows::RowView>,
    ) -> CommitBrowser {
        CommitBrowser {
            name,
            hash,
            label,
            files,
            rows,
            selected: 0,
            content: Seq::empty(),
            content_path: None,
            load_gen: 0,
            pending: None,
            loading_new: false,
            scroll: 0,
        }
    }

    /// The file under the cursor.
    pub open spec fn entry(self) -> Option<StatusEntry> {
        panes::entry_at(self.rows, self.files, self.selected)
    }

    /// The path of the file under the cursor.
    pub open spec fn path(self) -> Option<Seq<char>> {
        panes::path_at(self.rows, self.files, self.selected)
    }

    /// With the newest result of the running load taken over, if it is that of
    /// the load last started. A diff that has shrunk pulls the viewport along.
    pub open spec fn polled(self) -> CommitBrowser {
        match self.pending {
            Some(t) => if t.queue.len() == 0 {
                self
            } else {
                let (token, path, content) = t.queue.last();
                if token != self.load_gen {
                    CommitBrowser { pending: Some(t.drained()), ..self }
                } else {
                    CommitBrowser {
                        content: content@,
                        content_path: Some(path@),
                        pending: None,
                        loading_new: false,
                        scroll: changes::lower(self.scroll, changes::last_line(content@)),
                        ..self
                    }
                }
            },
            None => self,
        }
    }

    /// The browser's tree.
    pub open spec fn pane(self, collapsed: Set<Seq<char>>) -> Pane {
        Pane { collapsed, rows: self.rows, selected: self.selected }
    }
}

impl AppView {
    /// With the browser in another state.
    pub open spec fn browsing(self, c: CommitBrowser) -> AppView {
        AppView { view: Screen::CommitDiff(c), ..self }
    }

    /// With the diff of the file under the browser's cursor asked for. On a
    /// folder there is none, and whatever was loading is dropped.
    pub open spec fn load_commit_diff(self, reset_scroll: bool) -> AppView {
        match self.view {
            Screen::CommitDiff(c) => {
                let scroll = if reset_scroll {
                    0
                } else {
                    c.scroll
                };
                match c.entry() {
                    None => self.browsing(
                        CommitBrowser {
                            content: Seq::empty(),
                            content_path: None,
                            pending: None,
                            loading_new: false,
                            scroll,
                            ..c
                        },
                    ),
                    Some(e) => {
                        let token = c.load_gen.wrapping_add(1);
                        self.browsing(
                            CommitBrowser {
                                load_gen: token,
                                scroll,
                                pending: Some(TaskView::started(self.next_task)),
                                loading_new: c.content_path != Some(e.path@),
                                ..c
                            },
                        ).numbered().ask(
                            RequestView::CommitFileDiff {
                                task: self.next_task,
                                token,
                                name: c.name,
                                hash: c.hash,
                                path: e.path@,
                            },
                        )
                    },
                }
            },
            _ => self,
        }
    }

    /// After the files of a commit were read.
    pub open spec fn commit_read(
        self,
        name: Seq<char>,
        hash: Seq<char>,
        label: Seq<char>,
        result: Result<Seq<StatusEntry>, Seq<char>>,
    ) -> AppView {
        match result {
            Ok(files) => self.pushed(
                Screen::CommitDiff(
                    CommitBrowser::opened(
                        name,
                        hash,
                        label,
                        files,
                        tree::layout(files, self.file_tree, self.collapsed_folders),
                    ),
                ),
            ).load_commit_diff(true),
            Err(e) => self.fail(e),
        }
    }

    /// With the newest commit diff taken over.
    pub open spec fn poll_commit_diff(self) -> AppView {
        match self.view {
            Screen::CommitDiff(c) => self.browsing(c.polled()),
            _ => self,
        }
    }

    /// After a key that moves through the tree of the screen in front.
    pub open spec fn nav(self, code: KeyCode) -> AppView {
        if !self.file_tree {
            self
        } else {
            match self.view {
                Screen::CommitDiff(c) => match c.pane(self.collapsed_folders).moved(
                    c.files,
                    code,
                ) {
                    Some(p) => AppView { collapsed_folders: p.collapsed, ..self }.browsing(
                        CommitBrowser { rows: p.rows, selected: p.selected, ..c },
                    ).load_commit_diff(true),
                    None => self,
                },
                Screen::List => if self.tab == Tab::Changes {
                    match self.changes_pane().moved(self.changes.files, code) {
                        Some(p) => self.with_changes_pane(p).load_diff(true),
                        None => self,
                    }
                } else {
                    self
                },
                _ => self,
            }
        }
    }

    /// With the browser's file list switched between tree and flat, the cursor
    /// staying on its file.
    pub open spec fn toggle_commit_layout(self) -> AppView {
        let flipped = AppView { file_tree: !self.file_tree, ..self };
        match self.view {
            Screen::CommitDiff(c) => {
                let rows = tree::layout(c.files, !self.file_tree, self.collapsed_folders);
                flipped.browsing(
                    CommitBrowser { rows, selected: panes::row_for(rows, c.files, c.path()), ..c },
                ).load_commit_diff(true)
            },
            _ => flipped,
        }
    }

    /// With the browser's viewport moved.
    pub open spec fn scroll_commit(self, by: Scroll) -> AppView {
        match self.view {
            Screen::CommitDiff(c) => self.browsing(
                CommitBrowser { scroll: by.of(c.scroll), ..c },
            ),
            _ => self,
        }
    }

    /// With the browser's cursor one row down or up, where there is one.
    pub open spec fn step_commit(self, down: bool) -> AppView {
        match self.view {
            Screen::CommitDiff(c) => if down && c.selected + 1 < c.rows.len() {
                self.browsing(CommitBrowser { selected: c.selected + 1, ..c }).load_commit_diff(
                    true,
                )
            } else if !down && c.selected > 0 {
                self.browsing(CommitBrowser { selected: c.selected - 1, ..c }).load_commit_diff(
                    true,
                )
            } else {
                self
            },
            _ => self,
        }
    }

    /// After a key in the browser.
    #[verifier::opaque]
    pub open spec fn commit_diff_key(self, key: KeyEvent) -> AppView {
        let code = key.code;
        if !(self.view is CommitDiff) {
            self
        } else if scrolls_down(key) {
            self.scroll_commit(Scroll::Down)
        } else if scrolls_up(key) {
            self.scroll_commit(Scroll::Up)
        } else if code is Esc || code == KeyCode::Char('q') {
            self.popped()
        } else if code is Down || code == KeyCode::Char('j') {
            self.step_commit(true)
        } else if code is Up || code == KeyCode::Char('k') {
            self.step_commit(false)
        } else if code is Home || code == KeyCode::Char('g') {
            self.scroll_commit(Scroll::Top)
        } else if code is Left || code is Right || code is Enter || code == KeyCode::Char('h')
            || code == KeyCode::Char('l') {
            self.nav(code)
        } else if code == KeyCode::Char('t') {
            self.toggle_commit_layout()
        } else {
            self
        }
    }
}

impl App {
    /// Asks for the files of a commit, to open the browser on them.
    pub fn open_commit_diff(&mut self, name: String, hash: String, label: String)
        ensures
            final(self)@ == old(self)@.ask(
                RequestView::CommitFiles { name: name@, hash: hash@, label: label@ },
            ),
    {
        self.ask(Request::CommitFiles { name, hash, label });
    }

    /// Takes the files that a `Request::CommitFiles` asked for.
    pub fn on_commit_files(
        &mut self,
        name: String,
        hash: String,
        label: String,
        result: Result<Vec<StatusEntry>, String>,
    )
        requires
            old(self).wf(),
        ensures
            final(self)@ == old(self)@.commit_read(
                name@,
                hash@,
                label@,
                changes::files_view(result),
            ),
            final(self).wf(),
    {
        match result {
            Ok(files) => {
                let rows = tree::build_rows(&files, self.file_tree, &self.collapsed_folders);
                self.push_screen(
                    View::CommitDiff {
                        name,
                        hash,
                        label,
                        files,
                        rows,
                        selected: 0,
                        content: String::new(),
                        content_path: None,
                        load_gen: 0,
                        pending: None,
                        loading_new: false,
                        scroll: 0,
                    },
                );
                self.load_commit_diff_content(true);
            },
            Err(e) => self.set_error(e),
        }
    }

    /// Asks for the diff of the file under the browser's cursor. On a folder
    /// there is none, so the content is cleared and whatever was loading is
    /// dropped. `reset_scroll` sends the viewport to the top.
    pub fn load_commit_diff_content(&mut self, reset_scroll: bool)
        ensures
            final(self)@ == old(self)@.load_commit_diff(reset_scroll),
    {
        let task: u64 = self.next_task;
        let mut asked: Option<Request> = None;
        if let View::CommitDiff {
            name,
            hash,
            files,
            rows,
            selected,
            content,
            content_path,
            load_gen,
            pending,
            loading_new,
            scroll,
            ..
        } = &mut self.view {
            if reset_scroll {
                *scroll = 0;
            }
            match panes::entry_under(rows, files, *selected) {
                None => {
                    *content = String::new();
                    *content_path = None;
                    *pending = None;
                    *loading_new = false;
                },
                Some(e) => {
                    *load_gen = load_gen.wrapping_add(1);
                    *loading_new = match content_path {
                        Some(p) => !text::same(p.as_str(), e.path.as_str()),
                        None => true,
                    };
                    *pending = Some(Task::new(task));
                    asked = Some(
                        Request::CommitFileDiff {
                            task,
                            token: *load_gen,
                            name: name.clone(),
                            hash: hash.clone(),
                            path: e.path,
                        },
                    );
                },
            }
        }
        if let Some(r) = asked {
            self.take_number();
            self.ask(r);
        }
    }

    /// Takes the diff that a `Request::CommitFileDiff` asked for.
    pub fn deliver_commit_diff(&mut self, task: u64, token: u64, path: String, content: String)
        ensures
            final(self)@ == match old(self)@.view {
                Screen::CommitDiff(c) => match c.pending {
                    Some(t) => if t.id == task {
                        old(self)@.browsing(
                            CommitBrowser {
                                pending: Some(
                                    TaskView { queue: t.queue.push((token, path, content)), ..t },
                                ),
                                ..c
                            },
                        )
                    } else {
                        old(self)@
                    },
                    None => old(self)@,
                },
                _ => old(self)@,
            },
    {
        if let View::CommitDiff { pending, .. } = &mut self.view {
            if let Some(t) = pending {
                if t.id == task {
                    t.push((token, path, content));
                }
            }
        }
    }

    /// Takes over the newest commit diff that has arrived, if it is that of the
    /// load last started.
    pub fn poll_commit_diff_load(&mut self)
        ensures
            final(self)@ == old(self)@.poll_commit_diff(),
    {
        if let View::CommitDiff {
            content,
            content_path,
            load_gen,
            pending,
            loading_new,
            scroll,
            ..
        } = &mut self.view {
            let found = match pending {
                Some(t) => t.poll_latest(),
                None => None,
            };
            if let Some((g, path, text)) = found {
                if g == *load_gen {
                    let max: u16 = changes::find_last_line(text.as_str());
                    *content = text;
                    *content_path = Some(path);
                    *pending = None;
                    *loading_new = false;
                    if max < *scroll {
                        *scroll = max;
                    }
                }
            } else {
                proof {
                    if let Screen::CommitDiff(c) = old(self)@.view {
                        if let Some(t) = c.pending {
                            assert(t.drained().queue =~= t.queue);
                        }
                    }
                }
            }
        }
    }

    /// Moves through the tree of the screen in front: the browser, or the
    /// Changes tab. Left collapses the folder under the cursor or goes to the
    /// one above, Right opens it or steps into it, Enter does either.
    pub fn tree_nav(&mut self, code: KeyCode)
        requires
            old(self).wf(),
        ensures
            final(self)@ == old(self)@.nav(code),
            final(self).wf(),
    {
        if !self.file_tree {
            return;
        }
        let on_tab = self.tab == Tab::Changes;
        let mut in_browser = false;
        let mut in_tab = false;
        match &mut self.view {
            View::CommitDiff { files, rows, selected, .. } => {
                in_browser =
                panes::tree_step(files, rows, selected, &mut self.collapsed_folders, code);
            },
            View::List => {
                if on_tab {
                    in_tab =
                    panes::tree_step(
                        &self.changes.files,
                        &mut self.changes.rows,
                        &mut self.changes.selected,
                        &mut self.collapsed_folders,
                        code,
                    );
                }
            },
            _ => {},
        }
        if in_browser {
            self.load_commit_diff_content(true);
        } else if in_tab {
            self.load_diff_content(true);
        }
    }

    /// Switches the browser's file list between tree and flat, keeping the
    /// cursor on its file.
    pub fn toggle_commit_diff_layout(&mut self)
        requires
            old(self).wf(),
        ensures
            final(self)@ == old(self)@.toggle_commit_layout(),
            final(self).wf(),
    {
        self.file_tree = !self.file_tree;
        let tree = self.file_tree;
        if let View::CommitDiff { files, rows, selected, .. } = &mut self.view {
            let path = match panes::entry_under(rows, files, *selected) {
                Some(e) => Some(e.path),
                None => None,
            };
            *rows = tree::build_rows(files, tree, &self.collapsed_folders);
            *selected = panes::find_path_row(rows, files, &path);
        }
        self.load_commit_diff_content(true);
    }

    /// Moves the browser's viewport.
    pub fn scroll_commit_diff(&mut self, by: Scroll)
        requires
            old(self).wf(),
        ensures
            final(self)@ == old(self)@.scroll_commit(by),
            final(self).wf(),
    {
        if let View::CommitDiff { scroll, .. } = &mut self.view {
            *scroll = by.apply(*scroll);
        }
    }

    /// Moves the browser's cursor one row.
    pub fn step_commit_row(&mut self, down: bool)
        requires
            old(self).wf(),
        ensures
            final(self)@ == old(self)@.step_commit(down),
            final(self).wf(),
    {
        let mut moved = false;
        if let View::CommitDiff { rows, selected, .. } = &mut self.view {
            if down {
                if *selected < rows.len() && *selected + 1 < rows.len() {
                    *selected = *selected + 1;
                    moved = true;
                }
            } else if *selected > 0 {
                *selected = *selected - 1;
                moved = true;
            }
        }
        if moved {
            self.load_commit_diff_content(true);
        }
    }

    /// Handles a key in the browser: moves through the files, scrolls the diff,
    /// switches the layout, or goes back.
    pub fn on_commit_diff_key(&mut self, key: KeyEvent)
        requires
            old(self).wf(),
        ensures
            final(self)@ == old(self)@.commit_diff_key(key),
            final(self).wf(),
    {
        proof {
            reveal(AppView::commit_diff_key);
        }
        if !matches!(self.view, View::CommitDiff { .. }) {
            return;
        }
        if let Some(by) = scroll_of(key) {
            self.scroll_commit_diff(by);
            return;
        }
        match key.code {
            KeyCode::Esc | KeyCode::Char('q') => self.pop_screen(),
            KeyCode::Down | KeyCode::Char('j') => self.step_commit_row(true),
            KeyCode::Up | KeyCode::Char('k') => self.step_commit_row(false),
            KeyCode::Home | KeyCode::Char('g') => self.scroll_commit_diff(Scroll::Top),
            KeyCode::Left | KeyCode::Right | KeyCode::Enter | KeyCode::Char('h') | KeyCode::Char(
                'l',
            ) => self.tree_nav(key.code),
            KeyCode::Char('t') => self.toggle_commit_diff_layout(),
            _ => {},
        }
    }
}

} // verus!
