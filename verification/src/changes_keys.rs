//! What the keys do on the Changes tab, and what follows from the results.

use vstd::prelude::*;
use vstd::string::*;
use vstd::view::View as _;

use crate::app::{App, AppView, CommitFocus, View};
use crate::changes;
use crate::commit_browser;
use crate::commit_browser::Scroll;
use crate::dialogs;
use crate::input::{KeyCode, KeyEvent, TextInput};
use crate::marks;
use crate::panes;
use crate::request;
use crate::request::{Request, RequestView};
use crate::rows::{DiffRow, RowView, StatusEntry};
use crate::text;
use crate::tree;

verus! {

/// How opening a file went.
#[derive(Debug)]
pub enum OpenOutcome {
    /// The worktree has no folder.
    NoWorktree(String),
    /// The file is not there any more.
    Missing,
    Opened,
    Failed(String),
}

impl AppView {
    /// The row under the cursor of the Changes tab.
    pub open spec fn change_row(self) -> Option<RowView> {
        if 0 <= self.changes.selected < self.changes.rows.len() {
            Some(self.changes.rows[self.changes.selected])
        } else {
            None
        }
    }

    /// With the viewport of the diff moved.
    pub open spec fn scroll_change(self, by: Scroll) -> AppView {
        self.scrolled(by.of(self.changes.scroll))
    }

    /// With the cursor one row down or up, where there is one.
    pub open spec fn step_change(self, down: bool) -> AppView {
        let c = self.changes;
        if down && c.selected + 1 < c.rows.len() {
            self.on_row(c.selected + 1)
        } else if !down && c.selected > 0 {
            self.on_row(c.selected - 1)
        } else {
            self
        }
    }

    /// With the mark of the file under the cursor turned; on a folder, with the
    /// marks of all files in it set, or cleared when they all were.
    pub open spec fn mark_change(self) -> AppView {
        let c = self.changes;
        match self.change_row() {
            Some(RowView::File { index, .. }) => self.with_marks(marks::flipped(c.marked, index)),
            Some(RowView::Folder { prefix, .. }) => self.with_marks(
                marks::toggled_under(c.files, c.marked, prefix),
            ),
            None => self,
        }
    }

    /// With the file under the cursor sent to be opened; on a folder, with the
    /// folder collapsed or opened.
    pub open spec fn activate_change(self) -> AppView {
        match self.change_row() {
            Some(RowView::Folder { .. }) => self.nav(KeyCode::Enter),
            _ => self.open_change(),
        }
    }

    /// With the file under the cursor sent to be opened.
    pub open spec fn open_change(self) -> AppView {
        match self.changes.path() {
            Some(path) => self.ask(RequestView::OpenFile { name: self.changes.name, path }),
            None => self,
        }
    }

    /// With the path under the cursor sent to the clipboard.
    pub open spec fn copy_change(self) -> AppView {
        match self.changes.path() {
            Some(path) => self.ask(RequestView::CopyText { text: path }),
            None => self,
        }
    }

    /// With the file under the cursor sent to be stashed.
    pub open spec fn stash_change(self) -> AppView {
        match self.changes.path() {
            Some(path) => self.ask(RequestView::StashFile { name: self.changes.name, path }),
            None => self,
        }
    }

    /// With the marked files sent to be stashed.
    pub open spec fn stash_marks(self) -> AppView {
        let c = self.changes;
        let paths = marks::marked_paths(c.files, c.marked);
        if paths.len() == 0 {
            self.say("no files marked; press Space to mark files first"@)
        } else {
            self.ask(RequestView::StashMarked { name: c.name, paths })
        }
    }

    /// With the question before the file under the cursor is reverted. A new
    /// file has nothing to be reverted to.
    pub open spec fn revert_change(self) -> AppView {
        match self.changes.entry() {
            Some(e) => if tree::new_file(e.code@) {
                self.say(
                    "'"@ + e.path@
                        + "' is new (not yet committed); nothing to revert to. Press d to delete it."@,
                )
            } else {
                self.show(dialogs::revert_question(e.path@))
            },
            None => self,
        }
    }

    /// With the question before the file under the cursor is deleted.
    pub open spec fn delete_change(self) -> AppView {
        match self.changes.path() {
            Some(path) => self.show(dialogs::delete_file_question(path)),
            None => self,
        }
    }

    /// With the question what to ignore: at once for a folder, and once the
    /// pattern is known for a file.
    pub open spec fn ignore_change(self) -> AppView {
        match self.change_row() {
            Some(RowView::File { index, .. }) => if 0 <= index < self.changes.files.len() {
                self.ask(
                    RequestView::IgnorePattern { file: self.changes.files[index].path@ },
                )
            } else {
                self
            },
            Some(RowView::Folder { prefix, label, .. }) => self.show(
                dialogs::ignore_question(prefix, label + "/"@, true),
            ),
            None => self,
        }
    }

    /// With the commit dialog opened on the files and marks of the tab.
    pub open spec fn commit_changes(self) -> AppView {
        let c = self.changes;
        if c.files.len() == 0 {
            self.say("nothing to commit"@)
        } else {
            self.pushed(AppView::commit_screen(c.name, c.files, c.marked))
        }
    }

    /// After a key on the Changes tab.
    #[verifier::opaque]
    pub open spec fn changes_key(self, key: KeyEvent) -> AppView {
        let code = key.code;
        if commit_browser::scrolls_down(key) {
            self.scroll_change(Scroll::Down)
        } else if commit_browser::scrolls_up(key) {
            self.scroll_change(Scroll::Up)
        } else {
            match code {
                KeyCode::Esc => AppView { quit: true, ..self },
                KeyCode::Down => self.step_change(true),
                KeyCode::Up => self.step_change(false),
                KeyCode::Home => self.scroll_change(Scroll::Top),
                KeyCode::Left => self.nav(code),
                KeyCode::Right => self.nav(code),
                KeyCode::Enter => self.activate_change(),
                KeyCode::Char(c) => if c == 'q' {
                    AppView { quit: true, ..self }
                } else if c == 'r' {
                    self.refresh_diff()
                } else if c == 'j' {
                    self.step_change(true)
                } else if c == 'k' {
                    self.step_change(false)
                } else if c == 'g' {
                    self.scroll_change(Scroll::Top)
                } else if c == 'h' || c == 'l' {
                    self.nav(code)
                } else if c == ' ' {
                    self.mark_change()
                } else if c == 'a' {
                    self.with_marks(marks::toggled_all(self.changes.marked))
                } else if c == 's' {
                    self.stash_change()
                } else if c == 'S' {
                    self.stash_marks()
                } else if c == 'u' {
                    self.revert_change()
                } else if c == 'd' {
                    self.delete_change()
                } else if c == 'i' {
                    self.ignore_change()
                } else if c == 't' {
                    self.toggle_layout()
                } else if c == 'c' {
                    self.commit_changes()
                } else {
                    self
                },
                _ => self,
            }
        }
    }

    /// With a status line or an error, and both lists asked for anew.
    pub open spec fn reported(self, result: Result<Seq<char>, Seq<char>>) -> AppView {
        (match result {
            Ok(m) => self.say(m),
            Err(e) => self.fail(e),
        }).refresh_both()
    }

    /// After a pattern was added to `.gitignore`, or was there already.
    pub open spec fn ignored(self, pattern: Seq<char>, result: Result<bool, String>) -> AppView {
        self.reported(
            match result {
                Ok(added) => Ok(
                    if added {
                        "added "@ + request::quoted(pattern) + " to .gitignore"@
                    } else {
                        request::quoted(pattern) + " is already in .gitignore"@
                    },
                ),
                Err(e) => Err(e@),
            },
        )
    }

    /// After an operation on one file.
    pub open spec fn file_done(
        self,
        verb: Seq<char>,
        path: Seq<char>,
        result: Result<(), String>,
    ) -> AppView {
        self.reported(
            match result {
                Ok(_) => Ok(verb + request::quoted(path)),
                Err(e) => Err(e@),
            },
        )
    }

    /// After the marked files were stashed.
    pub open spec fn marked_stashed(self, count: nat, result: Result<(), String>) -> AppView {
        self.reported(
            match result {
                Ok(_) => Ok("stashed "@ + text::decimal(count) + " marked file(s)"@),
                Err(e) => Err(e@),
            },
        )
    }

    /// After a file was sent to be opened.
    pub open spec fn file_opened(self, path: Seq<char>, outcome: OpenOutcome) -> AppView {
        match outcome {
            OpenOutcome::NoWorktree(e) => self.fail(e@),
            OpenOutcome::Missing => self.say(
                request::quoted(path) + " no longer exists in the worktree"@,
            ),
            OpenOutcome::Opened => self.say("opened "@ + request::quoted(path)),
            OpenOutcome::Failed(e) => self.fail(
                "cannot open "@ + request::quoted(path) + ": "@ + e@,
            ),
        }
    }

    /// After a text was sent to the clipboard.
    pub open spec fn text_copied(self, t: Seq<char>, result: Result<(), String>) -> AppView {
        match result {
            Ok(_) => self.say("copied "@ + request::quoted(t) + " to the clipboard"@),
            Err(e) => self.fail("cannot copy to the clipboard: "@ + e@),
        }
    }
}

impl App {
    /// The file under the cursor of the Changes tab.
    pub fn diff_cursor_file(&self) -> (r: Option<StatusEntry>)
        ensures
            r == self@.changes.entry(),
    {
        panes::entry_under(&self.changes.rows, &self.changes.files, self.changes.selected)
    }

    /// Moves the viewport of the diff.
    pub fn scroll_diff(&mut self, by: Scroll)
        ensures
            final(self)@ == old(self)@.scroll_change(by),
    {
        self.changes.scroll = by.apply(self.changes.scroll);
    }

    /// Moves the cursor of the Changes tab one row.
    pub fn step_change_row(&mut self, down: bool)
        ensures
            final(self)@ == old(self)@.step_change(down),
    {
        let count: usize = self.changes.rows.len();
        let at: usize = self.changes.selected;
        if down {
            if at < count && at + 1 < count {
                self.changes.selected = at + 1;
                self.load_diff_content(true);
            }
        } else if at > 0 {
            self.changes.selected = at - 1;
            self.load_diff_content(true);
        }
    }

    /// Turns the mark under the cursor; on a folder, those of all files in it.
    fn mark_change(&mut self)
        ensures
            final(self)@ == old(self)@.mark_change(),
    {
        let at: usize = self.changes.selected;
        if at >= self.changes.rows.len() {
            return;
        }
        assert(self@.changes.rows[at as int] == self.changes.rows@[at as int]@);
        match &self.changes.rows[at] {
            DiffRow::File { index, .. } => marks::flip(&mut self.changes.marked, *index),
            DiffRow::Folder { prefix, .. } => marks::toggle_under(
                &self.changes.files,
                &mut self.changes.marked,
                prefix.as_str(),
            ),
        }
    }

    /// Collapses or opens the folder under the cursor, or asks for the file
    /// under it to be opened.
    pub fn activate_changes_row(&mut self)
        requires
            old(self).wf(),
        ensures
            final(self)@ == old(self)@.activate_change(),
            final(self).wf(),
    {
        let at: usize = self.changes.selected;
        if at < self.changes.rows.len() {
            assert(self@.changes.rows[at as int] == self.changes.rows@[at as int]@);
            if matches!(self.changes.rows[at], DiffRow::Folder { .. }) {
                self.tree_nav(KeyCode::Enter);
                return;
            }
        }
        self.open_selected_file();
    }

    /// Asks for the file under the cursor to be opened.
    pub fn open_selected_file(&mut self)
        ensures
            final(self)@ == old(self)@.open_change(),
    {
        if let Some(e) = self.diff_cursor_file() {
            let name = self.changes.name.clone();
            self.ask(Request::OpenFile { name, path: e.path });
        }
    }

    /// Asks for the path under the cursor to be copied to the clipboard.
    pub fn copy_diff_path(&mut self)
        ensures
            final(self)@ == old(self)@.copy_change(),
    {
        if let Some(e) = self.diff_cursor_file() {
            self.ask(Request::CopyText { text: e.path });
        }
    }

    /// Asks for the file under the cursor to be stashed.
    pub fn stash_file(&mut self)
        ensures
            final(self)@ == old(self)@.stash_change(),
    {
        if let Some(e) = self.diff_cursor_file() {
            let name = self.changes.name.clone();
            self.ask(Request::StashFile { name, path: e.path });
        }
    }

    /// Asks for the marked files to be stashed; says so when there are none.
    pub fn stash_marked(&mut self)
        ensures
            final(self)@ == old(self)@.stash_marks(),
    {
        let paths = marks::paths_marked(&self.changes.files, &self.changes.marked);
        assert(text::views(paths@).len() == paths@.len());
        if paths.len() == 0 {
            self.say("no files marked; press Space to mark files first".to_string());
        } else {
            let name = self.changes.name.clone();
            self.ask(Request::StashMarked { name, paths });
        }
    }

    /// Asks before the file under the cursor is reverted.
    fn revert_change(&mut self)
        requires
            old(self).wf(),
        ensures
            final(self)@ == old(self)@.revert_change(),
            final(self).wf(),
    {
        if let Some(e) = self.diff_cursor_file() {
            if tree::is_new_file(e.code.as_str()) {
                let m = text::cat3(
                    "'",
                    e.path.as_str(),
                    "' is new (not yet committed); nothing to revert to. Press d to delete it.",
                );
                self.say(m);
            } else {
                self.open_revert_modal(e.path);
            }
        }
    }

    /// Asks before the file under the cursor is deleted.
    fn delete_change(&mut self)
        requires
            old(self).wf(),
        ensures
            final(self)@ == old(self)@.delete_change(),
            final(self).wf(),
    {
        if let Some(e) = self.diff_cursor_file() {
            self.open_delete_file_modal(e.path);
        }
    }

    /// Asks what to ignore.
    fn ignore_change(&mut self)
        requires
            old(self).wf(),
        ensures
            final(self)@ == old(self)@.ignore_change(),
            final(self).wf(),
    {
        let at: usize = self.changes.selected;
        if at >= self.changes.rows.len() {
            return;
        }
        assert(self@.changes.rows[at as int] == self.changes.rows@[at as int]@);
        match &self.changes.rows[at] {
            DiffRow::File { index, .. } => {
                if *index < self.changes.files.len() {
                    let file = self.changes.files[*index].path.clone();
                    self.ask(Request::IgnorePattern { file });
                }
            },
            DiffRow::Folder { prefix, label, .. } => {
                let file = prefix.clone();
                let pattern = text::cat2(label.as_str(), "/");
                self.open_ignore_modal(file, pattern, true);
            },
        }
    }

    /// Opens the commit dialog on the files and marks of the Changes tab.
    pub fn commit_from_diff(&mut self)
        requires
            old(self).wf(),
        ensures
            final(self)@ == old(self)@.commit_changes(),
            final(self).wf(),
    {
        if self.changes.files.len() == 0 {
            self.say("nothing to commit".to_string());
            return;
        }
        let name = self.changes.name.clone();
        let files = marks::copy_files(&self.changes.files);
        let marked = marks::copy_marks(&self.changes.marked);
        self.push_screen(
            View::Commit {
                name,
                files,
                marked,
                cursor: 0,
                input: TextInput::new(),
                focus: CommitFocus::Message,
            },
        );
    }

    /// Handles a key on the Changes tab.
    pub fn on_changes_tab_key(&mut self, key: KeyEvent)
        requires
            old(self).wf(),
        ensures
            final(self)@ == old(self)@.changes_key(key),
            final(self).wf(),
    {
        proof {
            reveal(AppView::changes_key);
        }
        if let Some(by) = commit_browser::scroll_of(key) {
            self.scroll_diff(by);
            return;
        }
        match key.code {
            KeyCode::Esc | KeyCode::Char('q') => self.quit = true,
            KeyCode::Char('r') => self.refresh_diff(),
            KeyCode::Down | KeyCode::Char('j') => self.step_change_row(true),
            KeyCode::Up | KeyCode::Char('k') => self.step_change_row(false),
            KeyCode::Home | KeyCode::Char('g') => self.scroll_diff(Scroll::Top),
            KeyCode::Left | KeyCode::Right | KeyCode::Char('h') | KeyCode::Char('l') => {
                self.tree_nav(key.code)
            },
            KeyCode::Enter => self.activate_changes_row(),
            KeyCode::Char(' ') => self.mark_change(),
            KeyCode::Char('a') => marks::toggle_all(&mut self.changes.marked),
            KeyCode::Char('s') => self.stash_file(),
            KeyCode::Char('S') => self.stash_marked(),
            KeyCode::Char('u') => self.revert_change(),
            KeyCode::Char('d') => self.delete_change(),
            KeyCode::Char('i') => self.ignore_change(),
            KeyCode::Char('t') => self.toggle_file_layout(),
            KeyCode::Char('c') => self.commit_from_diff(),
            _ => {},
        }
    }

    /// Asks for a pattern to be added to the worktree's `.gitignore`.
    pub fn add_ignore(&mut self, pattern: String)
        ensures
            final(self)@ == old(self)@.ask(
                RequestView::AddIgnore { name: old(self)@.changes.name, pattern: pattern@ },
            ),
    {
        let name = self.changes.name.clone();
        self.ask(Request::AddIgnore { name, pattern });
    }

    /// Asks for a file to be reverted.
    pub fn revert_file(&mut self, entry: StatusEntry)
        ensures
            final(self)@ == old(self)@.ask(
                RequestView::RevertFile {
                    name: old(self)@.changes.name,
                    path: entry.path@,
                    untracked: changes::untracked(entry.code@),
                },
            ),
    {
        let name = self.changes.name.clone();
        let untracked = changes::is_untracked(entry.code.as_str());
        self.ask(Request::RevertFile { name, path: entry.path, untracked });
    }

    /// Asks for a file to be deleted.
    pub fn delete_file(&mut self, entry: StatusEntry)
        ensures
            final(self)@ == old(self)@.ask(
                RequestView::DeleteFile {
                    name: old(self)@.changes.name,
                    path: entry.path@,
                    untracked: changes::untracked(entry.code@),
                },
            ),
    {
        let name = self.changes.name.clone();
        let untracked = changes::is_untracked(entry.code.as_str());
        self.ask(Request::DeleteFile { name, path: entry.path, untracked });
    }

    /// Takes the pattern that a `Request::IgnorePattern` asked for.
    pub fn on_ignore_pattern(&mut self, file: String, pattern: String)
        requires
            old(self).wf(),
        ensures
            final(self)@ == old(self)@.show(dialogs::ignore_question(file@, pattern@, false)),
            final(self).wf(),
    {
        self.open_ignore_modal(file, pattern, false);
    }

    /// Shows a status line or an error, and asks for both lists anew.
    fn report(&mut self, result: Result<String, String>)
        requires
            old(self).wf(),
        ensures
            final(self)@ == old(self)@.reported(
                match result {
                    Ok(m) => Ok(m@),
                    Err(e) => Err(e@),
                },
            ),
            final(self).wf(),
    {
        match result {
            Ok(m) => self.say(m),
            Err(e) => self.set_error(e),
        }
        self.refresh_diff();
        self.refresh();
    }

    /// Takes the result of a `Request::AddIgnore`: whether the pattern was new.
    pub fn on_ignored(&mut self, pattern: String, result: Result<bool, String>)
        requires
            old(self).wf(),
        ensures
            final(self)@ == old(self)@.ignored(pattern@, result),
            final(self).wf(),
    {
        let q = request::quote(pattern.as_str());
        self.report(
            match result {
                Ok(added) => Ok(
                    if added {
                        text::cat3("added ", q.as_str(), " to .gitignore")
                    } else {
                        text::cat2(q.as_str(), " is already in .gitignore")
                    },
                ),
                Err(e) => Err(e),
            },
        );
    }

    /// Shows how an operation on one file went.
    fn file_done(&mut self, verb: &str, path: String, result: Result<(), String>)
        requires
            old(self).wf(),
        ensures
            final(self)@ == old(self)@.file_done(verb@, path@, result),
            final(self).wf(),
    {
        let q = request::quote(path.as_str());
        self.report(
            match result {
                Ok(_) => Ok(text::cat2(verb, q.as_str())),
                Err(e) => Err(e),
            },
        );
    }

    /// Takes the result of a `Request::StashFile`.
    pub fn on_file_stashed(&mut self, path: String, result: Result<(), String>)
        requires
            old(self).wf(),
        ensures
            final(self)@ == old(self)@.file_done("stashed "@, path@, result),
            final(self).wf(),
    {
        self.file_done("stashed ", path, result);
    }

    /// Takes the result of a `Request::StashMarked` for `count` files.
    pub fn on_marked_stashed(&mut self, count: usize, result: Result<(), String>)
        requires
            old(self).wf(),
        ensures
            final(self)@ == old(self)@.marked_stashed(count as nat, result),
            final(self).wf(),
    {
        let n = text::dec(count);
        self.report(
            match result {
                Ok(_) => Ok(text::cat3("stashed ", n.as_str(), " marked file(s)")),
                Err(e) => Err(e),
            },
        );
    }

    /// Takes the result of a `Request::RevertFile`.
    pub fn on_file_reverted(&mut self, path: String, result: Result<(), String>)
        requires
            old(self).wf(),
        ensures
            final(self)@ == old(self)@.file_done("reverted "@, path@, result),
            final(self).wf(),
    {
        self.file_done("reverted ", path, result);
    }

    /// Takes the result of a `Request::DeleteFile`.
    pub fn on_file_deleted(&mut self, path: String, result: Result<(), String>)
        requires
            old(self).wf(),
        ensures
            final(self)@ == old(self)@.file_done("deleted "@, path@, result),
            final(self).wf(),
    {
        self.file_done("deleted ", path, result);
    }

    /// Takes the result of a `Request::OpenFile`.
    pub fn on_file_opened(&mut self, path: String, outcome: OpenOutcome)
        requires
            old(self).wf(),
        ensures
            final(self)@ == old(self)@.file_opened(path@, outcome),
            final(self).wf(),
    {
        let q = request::quote(path.as_str());
        match outcome {
            OpenOutcome::NoWorktree(e) => self.set_error(e),
            OpenOutcome::Missing => {
                self.say(text::cat2(q.as_str(), " no longer exists in the worktree"))
            },
            OpenOutcome::Opened => self.say(text::cat2("opened ", q.as_str())),
            OpenOutcome::Failed(e) => {
                self.set_error(text::cat4("cannot open ", q.as_str(), ": ", e.as_str()))
            },
        }
    }

    /// Takes the result of a `Request::CopyText`.
    pub fn on_copied(&mut self, copied: String, result: Result<(), String>)
        requires
            old(self).wf(),
        ensures
            final(self)@ == old(self)@.text_copied(copied@, result),
            final(self).wf(),
    {
        let q = request::quote(copied.as_str());
        match result {
            Ok(_) => self.say(text::cat3("copied ", q.as_str(), " to the clipboard")),
            Err(e) => self.set_error(text::cat2("cannot copy to the clipboard: ", e.as_str())),
        }
    }
}

} // verus!
