//! The smaller dialogs: switching a branch, committing, running a command and
//! renaming a worktree.

use vstd::prelude::*;
use vstd::string::*;
use vstd::view::View as _;

use crate::app::{
    App, AppView, BusyThen, CommitDialog, CommitFocus, Screen, SwitchPicker, ThenView, View,
};
use crate::candidates;
use crate::create::BranchLists;
use crate::input;
use crate::input::{KeyCode, KeyEvent, TextInput, TextState};
use crate::marks;
use crate::request;
use crate::request::{BusyOp, OpView, Request, RequestView, StatusThen, StatusThenView};
use crate::text;

verus! {

impl SwitchPicker {
    /// With the cursor on another row.
    pub open spec fn at(self, selected: int) -> SwitchPicker {
        SwitchPicker { selected, ..self }
    }

    /// What Enter switches to, and whether a branch of that name may be created:
    /// the branch under the cursor, or the typed name when no branch matches.
    pub open spec fn wanted(self, filtered: Seq<int>) -> Option<(Seq<char>, bool)> {
        if 0 <= self.selected < filtered.len() {
            let i = filtered[self.selected];
            if 0 <= i < self.branches.len() {
                Some((self.branches[i].branch@, false))
            } else {
                None
            }
        } else {
            let typed = text::trimmed(self.filter.value);
            if typed.len() == 0 {
                None
            } else {
                Some((typed, true))
            }
        }
    }

    /// After a key that edits the filter; `listed` is how many branches it keeps
    /// then. The cursor stays in the list.
    pub open spec fn typed(self, listed: int, code: KeyCode) -> SwitchPicker {
        let last = if listed > 0 {
            listed - 1
        } else {
            0
        };
        SwitchPicker {
            filter: self.filter.after(code),
            selected: if input::edits(code) && self.selected > last {
                last
            } else {
                self.selected
            },
            ..self
        }
    }
}

impl CommitDialog {
    /// After a key in the file list.
    pub open spec fn files_key(self, code: KeyCode) -> CommitDialog {
        if code is Down || code == KeyCode::Char('j') {
            CommitDialog {
                cursor: if self.cursor + 1 < self.files.len() {
                    self.cursor + 1
                } else {
                    self.cursor
                },
                ..self
            }
        } else if code is Up || code == KeyCode::Char('k') {
            CommitDialog {
                cursor: if self.cursor > 0 {
                    self.cursor - 1
                } else {
                    self.cursor
                },
                ..self
            }
        } else if code == KeyCode::Char(' ') {
            CommitDialog { marked: marks::flipped(self.marked, self.cursor), ..self }
        } else if code == KeyCode::Char('a') {
            CommitDialog { marked: marks::toggled_all(self.marked), ..self }
        } else {
            self
        }
    }

    /// With the focus on the other part.
    pub open spec fn refocused(self) -> CommitDialog {
        CommitDialog {
            focus: match self.focus {
                CommitFocus::Files => CommitFocus::Message,
                CommitFocus::Message => CommitFocus::Files,
            },
            ..self
        }
    }
}

impl AppView {
    /// With the branches for the switch picker asked for.
    pub open spec fn open_switch(self) -> AppView {
        match self.worktree() {
            Some(w) => self.ask(RequestView::SwitchChoices { name: w.name@ }),
            None => self,
        }
    }

    /// After the branches for the switch picker were read.
    pub open spec fn switch_choices_read(
        self,
        name: Seq<char>,
        result: Result<BranchLists, String>,
    ) -> AppView {
        match result {
            Ok(lists) => self.pushed(
                Screen::Switch(
                    SwitchPicker {
                        name,
                        branches: lists.choices(self.worktrees),
                        filter: TextState::filled(Seq::empty()),
                        selected: 0,
                    },
                ),
            ),
            Err(e) => self.fail(e@),
        }
    }

    /// With the picker in another state.
    pub open spec fn in_switch(self, p: SwitchPicker) -> AppView {
        AppView { view: Screen::Switch(p), ..self }
    }

    /// With the switch running.
    pub open spec fn request_switch(self, name: Seq<char>, branch: Seq<char>, create: bool) -> AppView {
        self.busy(
            (if create {
                "creating"@
            } else {
                "switching to"@
            }) + " "@ + branch + " in "@ + (name + "…"@),
            ThenView::List,
            OpView::Switch { name, branch, create },
        )
    }

    /// After a key in the picker; `now` are the branches that the filter keeps,
    /// `then` those that it keeps once the key was typed.
    #[verifier::opaque]
    pub open spec fn switch_step(self, now: Seq<int>, then: Seq<int>, key: KeyEvent) -> AppView {
        match self.view {
            Screen::Switch(p) => match key.code {
                KeyCode::Esc => if p.filter.value.len() > 0 {
                    self.in_switch(
                        SwitchPicker { filter: TextState::filled(Seq::empty()), ..p }.at(0),
                    )
                } else {
                    self.popped()
                },
                KeyCode::Down => if p.selected + 1 < now.len() {
                    self.in_switch(p.at(p.selected + 1))
                } else {
                    self
                },
                KeyCode::Up => if p.selected > 0 {
                    self.in_switch(p.at(p.selected - 1))
                } else {
                    self
                },
                KeyCode::Enter => match p.wanted(now) {
                    Some((branch, create)) => self.request_switch(p.name, branch, create),
                    None => self,
                },
                _ => self.in_switch(p.typed(then.len() as int, key.code)),
            },
            _ => self,
        }
    }

    /// After a key in the picker.
    #[verifier::opaque]
    pub open spec fn switch_key(self, key: KeyEvent) -> AppView {
        match self.view {
            Screen::Switch(p) => self.switch_step(
                candidates::filtered(p.branches, p.filter.value),
                candidates::filtered(p.branches, p.filter.after(key.code).value),
                key,
            ),
            _ => self,
        }
    }

    /// With the changed files of the selected worktree asked for, to commit
    /// them. A clean worktree has nothing to commit.
    pub open spec fn open_commit(self) -> AppView {
        match self.worktree() {
            Some(w) => if w.dirty == 0 {
                self.say("worktree "@ + request::quoted(w.name@) + " is clean, nothing to commit"@)
            } else {
                self.ask(
                    RequestView::Status {
                        name: w.name@,
                        then: StatusThenView::OpenCommit,
                        activate: false,
                    },
                )
            },
            None => self,
        }
    }

    /// With the commit dialog in another state.
    pub open spec fn in_commit(self, d: CommitDialog) -> AppView {
        AppView { view: Screen::Commit(d), ..self }
    }

    /// With the commit running, and the dialog kept in case it fails. Without a
    /// message or a file there is nothing to commit.
    pub open spec fn do_commit(self) -> AppView {
        match self.view {
            Screen::Commit(d) => {
                let message = text::trimmed(d.input.value);
                let paths = marks::marked_paths(d.files, d.marked);
                if message.len() == 0 {
                    self.say("commit message must not be empty"@)
                } else if paths.len() == 0 {
                    self.say("select at least one file to commit"@)
                } else {
                    self.busy(
                        "committing "@ + request::quoted(d.name) + "…"@,
                        ThenView::Commit(d),
                        OpView::Commit { name: d.name, message, paths },
                    )
                }
            },
            _ => self,
        }
    }

    /// After a key in the commit dialog.
    #[verifier::opaque]
    pub open spec fn commit_key(self, key: KeyEvent) -> AppView {
        match self.view {
            Screen::Commit(d) => match key.code {
                KeyCode::Esc => self.popped(),
                KeyCode::Tab => self.in_commit(d.refocused()),
                KeyCode::Enter => self.do_commit(),
                _ => match d.focus {
                    CommitFocus::Files => self.in_commit(d.files_key(key.code)),
                    CommitFocus::Message => self.in_commit(
                        CommitDialog { input: d.input.after(key.code), ..d },
                    ),
                },
            },
            _ => self,
        }
    }

    /// With a command sent to run in a worktree.
    pub open spec fn spawn(self, cmd: Seq<char>, dir: Seq<char>, name: Seq<char>) -> AppView {
        self.ask(RequestView::Spawn { cmd, dir, name })
    }

    /// With the configured command sent to run in the selected worktree, or the
    /// prompt for one where none is configured.
    pub open spec fn open_worktree(self) -> AppView {
        match self.worktree() {
            Some(w) => {
                let cmd = match self.open_command {
                    Some(c) => text::trimmed(c),
                    None => Seq::empty(),
                };
                if cmd.len() > 0 {
                    self.spawn(cmd, w.path@, w.name@)
                } else {
                    self.pushed(
                        Screen::RunCommand {
                            name: w.name@,
                            path: w.path@,
                            input: TextState::filled(Seq::empty()),
                        },
                    )
                }
            },
            None => self,
        }
    }

    /// After a command was started, or could not be.
    pub open spec fn spawned(self, cmd: Seq<char>, name: Seq<char>, result: Result<(), String>) -> AppView {
        match result {
            Ok(_) => self.say("ran "@ + request::quoted(cmd) + " in "@ + request::quoted(name)),
            Err(e) => self.fail(e@),
        }
    }

    /// After a key in the prompt for a command.
    #[verifier::opaque]
    pub open spec fn command_key(self, key: KeyEvent) -> AppView {
        match self.view {
            Screen::RunCommand { name, path, input } => match key.code {
                KeyCode::Esc => self.popped(),
                KeyCode::Enter => {
                    let a = AppView { view: Screen::List, ..self };
                    let cmd = text::trimmed(input.value);
                    if cmd.len() > 0 {
                        a.spawn(cmd, path, name)
                    } else {
                        a
                    }
                },
                _ => AppView {
                    view: Screen::RunCommand { name, path, input: input.after(key.code) },
                    ..self
                },
            },
            _ => self,
        }
    }

    /// With the prompt for a worktree's new name. The main worktree keeps its
    /// name.
    pub open spec fn open_rename(self) -> AppView {
        match self.worktree() {
            Some(w) => if w.is_main {
                self.say("cannot rename the main worktree"@)
            } else {
                self.pushed(
                    Screen::RenameWorktree { name: w.name@, input: TextState::filled(w.name@) },
                )
            },
            None => self,
        }
    }

    /// After a key in the prompt for a worktree's new name.
    #[verifier::opaque]
    pub open spec fn rename_key(self, key: KeyEvent) -> AppView {
        match self.view {
            Screen::RenameWorktree { name, input } => match key.code {
                KeyCode::Esc => self.popped(),
                KeyCode::Enter => {
                    let a = AppView { view: Screen::List, ..self };
                    let new_name = text::trimmed(input.value);
                    if new_name.len() == 0 {
                        a.say("new name must not be empty"@)
                    } else {
                        a.ask(RequestView::RenameWorktree { name, new_name })
                    }
                },
                _ => AppView {
                    view: Screen::RenameWorktree { name, input: input.after(key.code) },
                    ..self
                },
            },
            _ => self,
        }
    }

    /// After a worktree was renamed, or could not be. The cursor follows it.
    pub open spec fn renamed(self, result: Result<(String, String), String>) -> AppView {
        match result {
            Ok((old_name, new_name)) => self.say(
                "renamed worktree "@ + request::quoted(old_name@) + " to "@ + request::quoted(
                    new_name@,
                ),
            ).list(request::ListThenView::Select(new_name@)),
            Err(e) => self.fail(e@),
        }
    }
}

impl App {
    /// Asks for the branches that the selected worktree can switch to.
    pub fn open_switch(&mut self)
        ensures
            final(self)@ == old(self)@.open_switch(),
    {
        if let Some(name) = self.selected_name() {
            self.ask(Request::SwitchChoices { name });
        }
    }

    /// Takes the branches that a `Request::SwitchChoices` asked for.
    pub fn on_switch_choices(&mut self, name: String, result: Result<BranchLists, String>)
        requires
            old(self).wf(),
        ensures
            final(self)@ == old(self)@.switch_choices_read(name@, result),
            final(self).wf(),
    {
        match result {
            Ok(lists) => {
                let branches = candidates::checkout_choices(
                    &self.worktrees,
                    &lists.local,
                    &lists.remotes,
                );
                self.push_screen(
                    View::Switch { name, branches, filter: TextInput::new(), selected: 0 },
                );
            },
            Err(e) => self.set_error(e),
        }
    }

    /// Switches a worktree to a branch, creating the branch if it may.
    pub fn request_switch(&mut self, name: String, branch: String, create: bool)
        requires
            old(self).wf(),
        ensures
            final(self)@ == old(self)@.request_switch(name@, branch@, create),
            final(self).wf(),
    {
        let verb = if create {
            "creating"
        } else {
            "switching to"
        };
        let tail = text::cat2(name.as_str(), "…");
        let label = text::cat5(verb, " ", branch.as_str(), " in ", tail.as_str());
        self.start_busy(label, BusyThen::List, BusyOp::Switch { name, branch, create });
    }

    /// Handles Enter in the picker.
    fn submit_switch(&mut self, now: &Vec<usize>)
        requires
            old(self).wf(),
        ensures
            final(self)@ == match old(self)@.view {
                Screen::Switch(p) => match p.wanted(candidates::ints(now@)) {
                    Some((branch, create)) => old(self)@.request_switch(p.name, branch, create),
                    None => old(self)@,
                },
                _ => old(self)@,
            },
            final(self).wf(),
    {
        if let View::Switch { name, branches, filter, selected } = &self.view {
            if *selected < now.len() {
                let i: usize = now[*selected];
                assert(candidates::ints(now@)[*selected as int] == i);
                if i < branches.len() {
                    let branch = branches[i].branch.clone();
                    let name = name.clone();
                    self.request_switch(name, branch, false);
                }
            } else {
                let typed = filter.trimmed();
                if typed.as_str().unicode_len() > 0 {
                    let name = name.clone();
                    self.request_switch(name, typed, true);
                }
            }
        }
    }

    /// Clears the filter; true when there was one.
    fn clear_filter(&mut self) -> (r: bool)
        requires
            old(self).wf(),
        ensures
            match old(self)@.view {
                Screen::Switch(p) => if p.filter.value.len() > 0 {
                    r && final(self)@ == old(self)@.in_switch(
                        SwitchPicker { filter: TextState::filled(Seq::empty()), ..p }.at(0),
                    )
                } else {
                    !r && final(self)@ == old(self)@
                },
                _ => !r && final(self)@ == old(self)@,
            },
            final(self).wf(),
    {
        if let View::Switch { filter, selected, .. } = &mut self.view {
            if filter.len() > 0 {
                *filter = TextInput::new();
                *selected = 0;
                return true;
            }
        }
        false
    }

    /// Handles a key that moves the cursor of the picker or edits its filter.
    fn type_switch(&mut self, now: usize, then: usize, key: KeyEvent)
        requires
            old(self).wf(),
        ensures
            final(self)@ == match old(self)@.view {
                Screen::Switch(p) => match key.code {
                    KeyCode::Down => if p.selected + 1 < now {
                        old(self)@.in_switch(p.at(p.selected + 1))
                    } else {
                        old(self)@
                    },
                    KeyCode::Up => if p.selected > 0 {
                        old(self)@.in_switch(p.at(p.selected - 1))
                    } else {
                        old(self)@
                    },
                    _ => old(self)@.in_switch(p.typed(then as int, key.code)),
                },
                _ => old(self)@,
            },
            final(self).wf(),
    {
        if let View::Switch { filter, selected, .. } = &mut self.view {
            match key.code {
                KeyCode::Down => {
                    if *selected < now && *selected + 1 < now {
                        *selected = *selected + 1;
                    }
                },
                KeyCode::Up => *selected = selected.saturating_sub(1),
                _ => {
                    if filter.on_key(key) {
                        let last: usize = then.saturating_sub(1);
                        if *selected > last {
                            *selected = last;
                        }
                    }
                },
            }
        }
    }

    /// Handles a key in the picker; `now` are the places of the branches that
    /// the filter keeps, `then` of those that it keeps once the key was typed.
    pub fn step_switch(&mut self, now: &Vec<usize>, then: &Vec<usize>, key: KeyEvent)
        requires
            old(self).wf(),
        ensures
            final(self)@ == old(self)@.switch_step(
                candidates::ints(now@),
                candidates::ints(then@),
                key,
            ),
            final(self).wf(),
    {
        proof {
            reveal(AppView::switch_step);
        }
        if !matches!(self.view, View::Switch { .. }) {
            return;
        }
        match key.code {
            KeyCode::Esc => {
                let cleared = self.clear_filter();
                if !cleared {
                    self.pop_screen();
                }
            },
            KeyCode::Enter => self.submit_switch(now),
            _ => self.type_switch(now.len(), then.len(), key),
        }
    }

    /// Handles a key in the switch picker.
    pub fn on_switch_key(&mut self, key: KeyEvent)
        requires
            old(self).wf(),
        ensures
            final(self)@ == old(self)@.switch_key(key),
            final(self).wf(),
    {
        proof {
            reveal(AppView::switch_key);
        }
        let (now, then) = match &self.view {
            View::Switch { branches, filter, .. } => {
                let now = candidates::filtered_candidates(branches, filter.as_str());
                let mut edited = TextInput { value: filter.value.clone(), cursor: filter.cursor };
                edited.on_key(key);
                let then = candidates::filtered_candidates(branches, edited.as_str());
                (now, then)
            },
            _ => {
                return;
            },
        };
        self.step_switch(&now, &then, key);
    }

    /// Asks for the changed files of the selected worktree, to commit them.
    pub fn open_commit(&mut self)
        requires
            old(self).wf(),
        ensures
            final(self)@ == old(self)@.open_commit(),
            final(self).wf(),
    {
        if let Some(w) = self.selected_worktree() {
            let name = w.name.clone();
            if w.dirty == 0 {
                let q = request::quote(name.as_str());
                self.say(text::cat3("worktree ", q.as_str(), " is clean, nothing to commit"));
            } else {
                self.ask(
                    Request::Status { name, then: StatusThen::OpenCommit, activate: false },
                );
            }
        }
    }

    /// Commits the marked files. Without a message or a file the dialog stays
    /// open; it comes back as it was when the commit fails.
    pub fn do_commit(&mut self)
        requires
            old(self).wf(),
        ensures
            final(self)@ == old(self)@.do_commit(),
            final(self).wf(),
    {
        let (message, paths) = match &self.view {
            View::Commit { files, marked, input, .. } => (
                input.trimmed(),
                marks::paths_marked(files, marked),
            ),
            _ => {
                return;
            },
        };
        assert(text::views(paths@).len() == paths@.len());
        if message.as_str().unicode_len() == 0 {
            self.say("commit message must not be empty".to_string());
            return;
        }
        if paths.len() == 0 {
            self.say("select at least one file to commit".to_string());
            return;
        }
        let dialog = text::replace(&mut self.view, View::List);
        if let View::Commit { name, files, marked, cursor, input, focus } = dialog {
            let q = request::quote(name.as_str());
            let label = text::cat3("committing ", q.as_str(), "…");
            let op = BusyOp::Commit { name: name.clone(), message, paths };
            let then = BusyThen::Commit { name, files, marked, cursor, input, focus };
            self.start_busy(label, then, op);
        }
    }

    /// Handles a key that only changes the commit dialog.
    fn type_commit(&mut self, key: KeyEvent)
        requires
            old(self).wf(),
        ensures
            final(self)@ == match old(self)@.view {
                Screen::Commit(d) => match d.focus {
                    CommitFocus::Files => old(self)@.in_commit(d.files_key(key.code)),
                    CommitFocus::Message => old(self)@.in_commit(
                        CommitDialog { input: d.input.after(key.code), ..d },
                    ),
                },
                _ => old(self)@,
            },
            final(self).wf(),
    {
        if let View::Commit { files, marked, cursor, input, focus, .. } = &mut self.view {
            match *focus {
                CommitFocus::Files => match key.code {
                    KeyCode::Down | KeyCode::Char('j') => {
                        if *cursor < files.len() && *cursor + 1 < files.len() {
                            *cursor = *cursor + 1;
                        }
                    },
                    KeyCode::Up | KeyCode::Char('k') => *cursor = cursor.saturating_sub(1),
                    KeyCode::Char(' ') => marks::flip(marked, *cursor),
                    KeyCode::Char('a') => marks::toggle_all(marked),
                    _ => {},
                },
                CommitFocus::Message => {
                    input.on_key(key);
                },
            }
        }
    }

    /// Handles a key in the commit dialog.
    pub fn on_commit_key(&mut self, key: KeyEvent)
        requires
            old(self).wf(),
        ensures
            final(self)@ == old(self)@.commit_key(key),
            final(self).wf(),
    {
        proof {
            reveal(AppView::commit_key);
        }
        if !matches!(self.view, View::Commit { .. }) {
            return;
        }
        match key.code {
            KeyCode::Esc => self.pop_screen(),
            KeyCode::Tab => {
                if let View::Commit { focus, .. } = &mut self.view {
                    *focus = match *focus {
                        CommitFocus::Files => CommitFocus::Message,
                        CommitFocus::Message => CommitFocus::Files,
                    };
                }
            },
            KeyCode::Enter => self.do_commit(),
            _ => self.type_commit(key),
        }
    }

    /// Asks for a command to be run, detached, in a directory.
    pub fn spawn_in_dir(&mut self, cmd: String, dir: String, name: String)
        ensures
            final(self)@ == old(self)@.spawn(cmd@, dir@, name@),
    {
        self.ask(Request::Spawn { cmd, dir, name });
    }

    /// Runs the configured command in the selected worktree, or prompts for one
    /// when none is configured.
    pub fn run_open_command(&mut self)
        requires
            old(self).wf(),
        ensures
            final(self)@ == old(self)@.open_worktree(),
            final(self).wf(),
    {
        if let Some(w) = self.selected_worktree() {
            let path = w.path.clone();
            let name = w.name.clone();
            let cmd = match &self.open_command {
                Some(c) => text::trim(c.as_str()),
                None => String::new(),
            };
            if cmd.as_str().unicode_len() > 0 {
                self.spawn_in_dir(cmd, path, name);
            } else {
                self.push_screen(View::RunCommand { name, path, input: TextInput::new() });
            }
        }
    }

    /// Takes the result of a `Request::Spawn`.
    pub fn on_spawned(&mut self, cmd: String, name: String, result: Result<(), String>)
        requires
            old(self).wf(),
        ensures
            final(self)@ == old(self)@.spawned(cmd@, name@, result),
            final(self).wf(),
    {
        match result {
            Ok(_) => {
                let qc = request::quote(cmd.as_str());
                let qn = request::quote(name.as_str());
                self.say(text::cat4("ran ", qc.as_str(), " in ", qn.as_str()));
            },
            Err(e) => self.set_error(e),
        }
    }

    /// Handles a key in the prompt for a command.
    pub fn on_command_key(&mut self, key: KeyEvent)
        requires
            old(self).wf(),
        ensures
            final(self)@ == old(self)@.command_key(key),
            final(self).wf(),
    {
        proof {
            reveal(AppView::command_key);
        }
        let mut run: Option<(String, String, String)> = None;
        match &mut self.view {
            View::RunCommand { name, path, input } => match key.code {
                KeyCode::Esc => {},
                KeyCode::Enter => run = Some((input.trimmed(), path.clone(), name.clone())),
                _ => {
                    input.on_key(key);
                },
            },
            _ => {
                return;
            },
        }
        if key.code == KeyCode::Esc {
            self.pop_screen();
        } else if let Some((cmd, path, name)) = run {
            self.view = View::List;
            if cmd.as_str().unicode_len() > 0 {
                self.spawn_in_dir(cmd, path, name);
            }
        }
    }

    /// Prompts for the selected worktree's new name.
    pub fn open_rename_worktree(&mut self)
        requires
            old(self).wf(),
        ensures
            final(self)@ == old(self)@.open_rename(),
            final(self).wf(),
    {
        if let Some(w) = self.selected_worktree() {
            if w.is_main {
                self.say("cannot rename the main worktree".to_string());
            } else {
                let name = w.name.clone();
                let input = TextInput::with_value(name.clone());
                self.push_screen(View::RenameWorktree { name, input });
            }
        }
    }

    /// Asks for a worktree to be renamed.
    pub fn rename_worktree(&mut self, name: String, new_name: String)
        ensures
            final(self)@ == old(self)@.ask(
                RequestView::RenameWorktree { name: name@, new_name: new_name@ },
            ),
    {
        self.ask(Request::RenameWorktree { name, new_name });
    }

    /// Handles a key in the prompt for a worktree's new name.
    pub fn on_rename_key(&mut self, key: KeyEvent)
        requires
            old(self).wf(),
        ensures
            final(self)@ == old(self)@.rename_key(key),
            final(self).wf(),
    {
        proof {
            reveal(AppView::rename_key);
        }
        let mut run: Option<(String, String)> = None;
        match &mut self.view {
            View::RenameWorktree { name, input } => match key.code {
                KeyCode::Esc => {},
                KeyCode::Enter => run = Some((name.clone(), input.trimmed())),
                _ => {
                    input.on_key(key);
                },
            },
            _ => {
                return;
            },
        }
        if key.code == KeyCode::Esc {
            self.pop_screen();
        } else if let Some((name, new_name)) = run {
            self.view = View::List;
            if new_name.as_str().unicode_len() == 0 {
                self.say("new name must not be empty".to_string());
            } else {
                self.rename_worktree(name, new_name);
            }
        }
    }

    /// Takes the result of a `Request::RenameWorktree`: the old and the new
    /// name.
    pub fn on_worktree_renamed(&mut self, result: Result<(String, String), String>)
        requires
            old(self).wf(),
        ensures
            final(self)@ == old(self)@.renamed(result),
            final(self).wf(),
    {
        match result {
            Ok((old_name, new_name)) => {
                let qo = request::quote(old_name.as_str());
                let qn = request::quote(new_name.as_str());
                self.say(text::cat4("renamed worktree ", qo.as_str(), " to ", qn.as_str()));
                self.last_auto_refresh = self.now;
                self.ask(
                    Request::ListWorktrees { then: request::ListThen::Select(new_name) },
                );
            },
            Err(e) => self.set_error(e),
        }
    }
}

} // verus!
