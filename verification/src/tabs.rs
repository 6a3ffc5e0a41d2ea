//! The top-level tabs: switching between them, their keys, and the lists that
//! they show.

use vstd::prelude::*;
use vstd::string::*;
use vstd::view::View as _;

use crate::app::{App, AppView, Tab, View};
use crate::config;
use crate::config_editor::EditorOutcome;
use crate::dialogs;
use crate::input::{KeyCode, KeyEvent, TextInput, TextState};
use crate::modal;
use crate::modal::{ActionView, ModalAction};
use crate::model;
use crate::model::{BranchListItem, ConfigInfo, WorktreeInfo};
use crate::operations;
use crate::request;
use crate::request::{BranchesThen, BranchesThenView, ListThen, ListThenView, Request, RequestView};
use crate::text;

verus! {

/// The first worktree from `i` on with this name.
pub open spec fn worktree_named(v: Seq<WorktreeInfo>, name: Seq<char>, i: int) -> Option<int>
    decreases v.len() - i,
{
    if i < 0 || i >= v.len() {
        None
    } else if v[i].name@ == name {
        Some(i)
    } else {
        worktree_named(v, name, i + 1)
    }
}

/// The first worktree with this name.
pub fn find_worktree(v: &Vec<WorktreeInfo>, name: &str) -> (r: Option<usize>)
    ensures
        match r {
            Some(i) => i < v@.len() && worktree_named(v@, name@, 0) == Some(i as int),
            None => worktree_named(v@, name@, 0) is None,
        },
{
    let mut i: usize = 0;
    while i < v.len()
        invariant
            worktree_named(v@, name@, 0) == worktree_named(v@, name@, i as int),
        decreases v@.len() - i,
    {
        if text::same(v[i].name.as_str(), name) {
            return Some(i);
        }
        i += 1;
    }
    None
}

/// The first branch from `i` on with this name.
pub open spec fn branch_named(v: Seq<BranchListItem>, name: Seq<char>, i: int) -> Option<int>
    decreases v.len() - i,
{
    if i < 0 || i >= v.len() {
        None
    } else if v[i].name@ == name {
        Some(i)
    } else {
        branch_named(v, name, i + 1)
    }
}

/// The first branch with this name.
pub fn find_branch(v: &Vec<BranchListItem>, name: &str) -> (r: Option<usize>)
    ensures
        match r {
            Some(i) => i < v@.len() && branch_named(v@, name@, 0) == Some(i as int),
            None => branch_named(v@, name@, 0) is None,
        },
{
    let mut i: usize = 0;
    while i < v.len()
        invariant
            branch_named(v@, name@, 0) == branch_named(v@, name@, i as int),
        decreases v@.len() - i,
    {
        if text::same(v[i].name.as_str(), name) {
            return Some(i);
        }
        i += 1;
    }
    None
}

impl AppView {
    /// With the worktrees read, or the error shown. The cursor stays in the
    /// list.
    pub open spec fn relisted(self, result: Result<Vec<WorktreeInfo>, String>) -> AppView {
        AppView {
            preview_for: None,
            ..match result {
                Ok(v) => AppView {
                    worktrees: v@,
                    selected: operations::clamped(self.selected, v@.len()),
                    ..self
                },
                Err(e) => self.fail(e@),
            }
        }
    }

    /// After the worktrees were read.
    pub open spec fn worktrees_read(
        self,
        then: ListThenView,
        result: Result<Vec<WorktreeInfo>, String>,
    ) -> AppView {
        match then {
            ListThenView::Refresh => self.relisted(result),
            ListThenView::Auto => match result {
                Ok(v) => AppView {
                    worktrees: v@,
                    selected: operations::clamped(
                        match self.worktree() {
                            Some(w) => match worktree_named(v@, w.name@, 0) {
                                Some(i) => i,
                                None => self.selected,
                            },
                            None => self.selected,
                        },
                        v@.len(),
                    ),
                    ..self
                },
                Err(_) => self,
            },
            ListThenView::Select(name) => {
                let a = self.relisted(result);
                match worktree_named(a.worktrees, name, 0) {
                    Some(i) => AppView { selected: i, ..a },
                    None => a,
                }
            },
        }
    }

    /// After the branches were read.
    pub open spec fn branches_read(
        self,
        then: BranchesThenView,
        result: Result<Vec<BranchListItem>, String>,
    ) -> AppView {
        match then {
            BranchesThenView::At(i) => match result {
                Ok(v) => AppView {
                    branches: v@,
                    branch_selected: operations::clamped(i, v@.len()),
                    ..self
                },
                Err(e) => AppView { tab: Tab::Worktrees, ..self.fail(e@) },
            },
            BranchesThenView::Auto => match result {
                Ok(v) => AppView {
                    branches: v@,
                    branch_selected: operations::clamped(
                        match self.branch() {
                            Some(b) => match branch_named(v@, b.name@, 0) {
                                Some(i) => i,
                                None => self.branch_selected,
                            },
                            None => self.branch_selected,
                        },
                        v@.len(),
                    ),
                    ..self
                },
                Err(_) => self,
            },
        }
    }

    /// With the settings that the interface works by.
    pub open spec fn configured(self, c: ConfigInfo) -> AppView {
        AppView {
            open_command: model::opt(c.open_command),
            worktree_base: model::opt(c.worktree_base),
            ..self
        }
    }

    /// After the settings were read.
    pub open spec fn config_read(self, result: Result<ConfigInfo, String>) -> AppView {
        match result {
            Ok(c) => self.configured(c),
            Err(e) => self.fail(e@),
        }
    }

    /// After the wizard's answers were written and the settings read; the
    /// wizard stays open on an error.
    pub open spec fn setup_written(self, result: Result<ConfigInfo, String>) -> AppView {
        match result {
            Ok(c) => self.configured(c).rooted().refresh().say("wrote "@ + config::CONFIG_FILE@),
            Err(e) => self.fail(e@),
        }
    }

    /// With the settings for the editor asked for.
    pub open spec fn open_settings(self) -> AppView {
        self.ask(RequestView::ReloadSettings)
    }

    /// After the settings for the editor were read.
    pub open spec fn settings_read(
        self,
        result: Result<config::RepoConfigFields, String>,
    ) -> AppView {
        match result {
            Ok(fields) => AppView {
                settings: self.settings.reloaded(fields@),
                tab: Tab::Settings,
                ..self
            },
            Err(e) => self.fail(e@),
        }
    }

    /// After the settings that the editor holds were written to a file, or
    /// could not be.
    pub open spec fn settings_saved(self, result: Result<String, String>) -> AppView {
        match result {
            Ok(path) => {
                let a = self.ask(RequestView::SetTheme { theme: self.settings.theme() }).ask(
                    RequestView::ReloadConfig,
                );
                if self.message is None {
                    a.say("saved "@ + path@)
                } else {
                    a
                }
            },
            Err(e) => self.say("error: "@ + e@),
        }
    }

    /// With the Stash tab on the selected worktree.
    pub open spec fn open_stash(self) -> AppView {
        match self.worktree() {
            Some(w) => AppView {
                tab: Tab::Stash,
                stash_selected: if w.name@ == self.stash_name {
                    self.stash_selected
                } else {
                    0
                },
                ..self
            }.load_stashes(w.name@),
            None => self,
        }
    }

    /// On another tab, with what it shows asked for.
    pub open spec fn select_tab(self, tab: Tab) -> AppView {
        let a = AppView { tab, ..self };
        match tab {
            Tab::Branches => a.load_branches(0),
            Tab::Changes => match a.worktree() {
                Some(w) => if w.name@ == a.changes.name {
                    a.refresh_diff()
                } else {
                    a.open_changes(w.name@)
                },
                None => a,
            },
            Tab::Stash => a.open_stash(),
            Tab::Settings => a.open_settings(),
            Tab::Worktrees => a,
        }
    }

    /// With the cursor on another worktree, and its preview from the top.
    pub open spec fn on_worktree(self, i: int) -> AppView {
        AppView { selected: i, preview_scroll: 0, ..self }
    }

    /// With the cursor one worktree down or up, where there is one.
    pub open spec fn step_worktree(self, down: bool) -> AppView {
        if down && self.selected + 1 < self.worktrees.len() {
            self.on_worktree(self.selected + 1)
        } else if !down && self.selected > 0 {
            self.on_worktree(self.selected - 1)
        } else {
            self
        }
    }

    /// With the preview scrolled by `n` rows.
    pub open spec fn scroll_preview(self, down: bool, n: int) -> AppView {
        AppView {
            preview_scroll: if down {
                text::sat(self.preview_scroll + n) as int
            } else if self.preview_scroll > n {
                self.preview_scroll - n
            } else {
                0
            },
            ..self
        }
    }

    /// With the question before the selected worktree is removed. The main one
    /// stays.
    pub open spec fn ask_remove(self) -> AppView {
        match self.worktree() {
            Some(w) => if w.is_main {
                self.say("cannot remove the main worktree"@)
            } else {
                self.show(
                    dialogs::delete_question(w.name@, w.dirty as int, model::opt(w.branch)),
                )
            },
            None => self,
        }
    }

    /// With the Changes tab opening on the selected worktree.
    pub open spec fn enter_worktree(self) -> AppView {
        match self.worktree() {
            Some(w) => self.open_changes(w.name@),
            None => self,
        }
    }

    /// After a key on the Worktrees tab.
    #[verifier::opaque]
    pub open spec fn worktrees_key(self, key: KeyEvent) -> AppView {
        match key.code {
            KeyCode::Esc => AppView { quit: true, ..self },
            KeyCode::Up => if key.shift {
                self.scroll_preview(false, 1)
            } else {
                self.step_worktree(false)
            },
            KeyCode::Down => if key.shift {
                self.scroll_preview(true, 1)
            } else {
                self.step_worktree(true)
            },
            KeyCode::Enter => self.enter_worktree(),
            KeyCode::Char(c) => if c == 'q' {
                AppView { quit: true, ..self }
            } else if c == 'j' {
                self.step_worktree(true)
            } else if c == 'k' {
                self.step_worktree(false)
            } else if c == 'r' {
                self.refresh().say("refreshed"@)
            } else if c == 'n' {
                self.open_create(None)
            } else if c == 'c' {
                self.open_commit()
            } else if c == 'o' {
                self.open_settings()
            } else if c == 'e' {
                self.open_worktree()
            } else if c == 's' {
                self.open_stash()
            } else if c == 'p' {
                self.pull()
            } else if c == 'P' {
                self.push_worktree()
            } else if c == 'f' {
                self.fetch()
            } else if c == 'b' {
                self.open_switch()
            } else if c == 'u' {
                self.update()
            } else if c == 'l' {
                self.open_log()
            } else if c == 'R' {
                self.open_rename()
            } else if c == 'd' {
                self.ask_remove()
            } else {
                self
            },
            _ => self,
        }
    }

    /// With the cursor one branch down or up, where there is one.
    pub open spec fn step_branch(self, down: bool) -> AppView {
        if down && self.branch_selected + 1 < self.branches.len() {
            AppView { branch_selected: self.branch_selected + 1, ..self }
        } else if !down && self.branch_selected > 0 {
            AppView { branch_selected: self.branch_selected - 1, ..self }
        } else {
            self
        }
    }

    /// With the prompt for a new branch.
    pub open spec fn prompt_branch(self) -> AppView {
        self.show(
            modal::prompt(
                "new branch (no worktree)"@,
                TextState::filled(Seq::empty()),
                "branch only, from HEAD · Esc cancels"@,
                ActionView::BranchCreate,
            ),
        )
    }

    /// With the prompt for the selected branch's new name.
    pub open spec fn prompt_rename(self) -> AppView {
        match self.branch() {
            Some(b) => self.show(
                modal::prompt(
                    "rename branch"@,
                    TextState::filled(b.name@),
                    "new branch name · Esc cancels"@,
                    ActionView::BranchRename { old: b.name@ },
                ),
            ),
            None => self,
        }
    }

    /// With the question before the selected branch is deleted.
    pub open spec fn ask_delete_branch(self) -> AppView {
        match self.branch() {
            Some(b) => self.show(dialogs::branch_delete_question(b.name@)),
            None => self,
        }
    }

    /// With the new-worktree dialog opening on the selected branch. One that is
    /// checked out already needs none.
    pub open spec fn check_out_branch(self) -> AppView {
        match self.branch() {
            Some(b) => if b.checked_out_path is Some {
                self.say("branch "@ + request::quoted(b.name@) + " is already checked out"@)
            } else {
                self.open_create(Some(b.name@))
            },
            None => self,
        }
    }

    /// After a key on the Branches tab.
    #[verifier::opaque]
    pub open spec fn branches_key(self, key: KeyEvent) -> AppView {
        match key.code {
            KeyCode::Esc => AppView { quit: true, ..self },
            KeyCode::Down => self.step_branch(true),
            KeyCode::Up => self.step_branch(false),
            KeyCode::Enter => self.open_branch_log(),
            KeyCode::Char(c) => if c == 'q' {
                AppView { quit: true, ..self }
            } else if c == 'j' {
                self.step_branch(true)
            } else if c == 'k' {
                self.step_branch(false)
            } else if c == 'r' {
                self.load_branches(self.branch_selected).say("refreshed"@)
            } else if c == 'f' {
                self.fetch()
            } else if c == 'p' {
                self.pull_branch()
            } else if c == 'n' {
                self.prompt_branch()
            } else if c == 'R' {
                self.prompt_rename()
            } else if c == 'd' {
                self.ask_delete_branch()
            } else if c == 'm' {
                self.open_merge()
            } else if c == 'c' {
                self.check_out_branch()
            } else {
                self
            },
            _ => self,
        }
    }

    /// The number of the stash entry under the cursor.
    pub open spec fn stash_index(self) -> Option<u32> {
        if 0 <= self.stash_selected < self.stash_entries.len() {
            Some(self.stash_entries[self.stash_selected].index)
        } else {
            None
        }
    }

    /// With the cursor one stash entry down or up, where there is one.
    pub open spec fn step_stash(self, down: bool) -> AppView {
        if down && self.stash_selected + 1 < self.stash_entries.len() {
            AppView { stash_selected: self.stash_selected + 1, ..self }
        } else if !down && self.stash_selected > 0 {
            AppView { stash_selected: self.stash_selected - 1, ..self }
        } else {
            self
        }
    }

    /// With the prompt for a stash message.
    pub open spec fn prompt_stash(self) -> AppView {
        self.show(
            modal::prompt(
                "stash message (optional)"@,
                TextState::filled(Seq::empty()),
                "blank Enter stashes without a message"@,
                ActionView::StashPush { name: self.stash_name },
            ),
        )
    }

    /// With the question before the stash entry under the cursor is dropped.
    pub open spec fn ask_drop_stash(self) -> AppView {
        if self.stash_entries.len() > 0 {
            self.show(dialogs::stash_drop_question(self.stash_name, self.stash_index()))
        } else {
            self
        }
    }

    /// After a key on the Stash tab.
    #[verifier::opaque]
    pub open spec fn stash_key(self, key: KeyEvent) -> AppView {
        match key.code {
            KeyCode::Esc => AppView { quit: true, ..self },
            KeyCode::Down => self.step_stash(true),
            KeyCode::Up => self.step_stash(false),
            KeyCode::Char(c) => if c == 'q' {
                AppView { quit: true, ..self }
            } else if c == 'j' {
                self.step_stash(true)
            } else if c == 'k' {
                self.step_stash(false)
            } else if c == 's' {
                self.prompt_stash()
            } else if c == 'p' {
                self.stash_pop(self.stash_name, self.stash_index())
            } else if c == 'a' {
                self.stash_action(true, self.stash_name, self.stash_index())
            } else if c == 'x' {
                self.ask_drop_stash()
            } else {
                self
            },
            _ => self,
        }
    }

    /// The worktree whose changed files the preview has to be filled with.
    pub open spec fn preview_wanted(self) -> Option<Seq<char>> {
        if self.view is List && self.tab == Tab::Worktrees && self.preview_for != Some(
            self.selected,
        ) {
            match self.worktree() {
                Some(w) => Some(w.name@),
                None => None,
            }
        } else {
            None
        }
    }

    /// After a key on the Settings tab.
    #[verifier::opaque]
    pub open spec fn settings_key(self, key: KeyEvent) -> AppView {
        let (s, outcome) = self.settings.press(key.code);
        let a = AppView { settings: s, ..self };
        match outcome {
            EditorOutcome::Save => a.ask(RequestView::SaveSettings),
            EditorOutcome::CheckForUpdates => a.checking(true).say("checking for updates…"@),
            EditorOutcome::Cancel => AppView { quit: true, ..a },
            _ => a,
        }
    }

    /// After a key on the tabs.
    #[verifier::opaque]
    pub open spec fn list_key(self, key: KeyEvent) -> AppView {
        match key.code {
            KeyCode::Tab => self.select_tab(Tab::at(self.tab.place() + 1)),
            KeyCode::BackTab => self.select_tab(Tab::at(self.tab.place() + 4)),
            _ => match self.tab {
                Tab::Worktrees => self.worktrees_key(key),
                Tab::Changes => self.changes_key(key),
                Tab::Branches => self.branches_key(key),
                Tab::Stash => self.stash_key(key),
                Tab::Settings => self.settings_key(key),
            },
        }
    }
}

impl App {
    /// Shows the worktrees, or the error. The cursor stays in the list.
    fn relist(&mut self, result: Result<Vec<WorktreeInfo>, String>)
        requires
            old(self).wf(),
        ensures
            final(self)@ == old(self)@.relisted(result),
            final(self).wf(),
    {
        match result {
            Ok(v) => {
                self.selected = operations::clamp_cursor(self.selected, v.len());
                self.worktrees = v;
            },
            Err(e) => self.set_error(e),
        }
        self.preview_for = None;
    }

    /// Takes the worktrees that a `Request::ListWorktrees` asked for.
    pub fn on_worktrees(&mut self, then: ListThen, result: Result<Vec<WorktreeInfo>, String>)
        requires
            old(self).wf(),
        ensures
            final(self)@ == old(self)@.worktrees_read(then@, result),
            final(self).wf(),
    {
        match then {
            ListThen::Refresh => self.relist(result),
            ListThen::Auto => {
                if let Ok(v) = result {
                    let at: usize = match self.selected_worktree() {
                        Some(w) => match find_worktree(&v, w.name.as_str()) {
                            Some(i) => i,
                            None => self.selected,
                        },
                        None => self.selected,
                    };
                    self.selected = operations::clamp_cursor(at, v.len());
                    self.worktrees = v;
                }
            },
            ListThen::Select(name) => {
                self.relist(result);
                if let Some(i) = find_worktree(&self.worktrees, name.as_str()) {
                    self.selected = i;
                }
            },
        }
    }

    /// Takes the branches that a `Request::ListBranches` asked for.
    pub fn on_branches(&mut self, then: BranchesThen, result: Result<Vec<BranchListItem>, String>)
        requires
            old(self).wf(),
        ensures
            final(self)@ == old(self)@.branches_read(then@, result),
            final(self).wf(),
    {
        match then {
            BranchesThen::At(i) => match result {
                Ok(v) => {
                    self.branch_selected = operations::clamp_cursor(i, v.len());
                    self.branches = v;
                },
                Err(e) => {
                    self.set_error(e);
                    self.tab = Tab::Worktrees;
                },
            },
            BranchesThen::Auto => {
                if let Ok(v) = result {
                    let at: usize = match self.selected_branch() {
                        Some(name) => match find_branch(&v, name.as_str()) {
                            Some(i) => i,
                            None => self.branch_selected,
                        },
                        None => self.branch_selected,
                    };
                    self.branch_selected = operations::clamp_cursor(at, v.len());
                    self.branches = v;
                }
            },
        }
    }

    /// The worktree whose changed files the preview has to be filled with: the
    /// selected one, while its tab is shown and the preview is of another.
    pub fn preview_due(&self) -> (r: Option<String>)
        ensures
            model::opt(r) == self@.preview_wanted(),
    {
        let shown = match self.view {
            View::List => self.tab == Tab::Worktrees,
            _ => false,
        };
        let filled = match self.preview_for {
            Some(i) => i == self.selected,
            None => false,
        };
        if shown && !filled {
            self.selected_name()
        } else {
            None
        }
    }

    /// Takes the changed files for the preview of the worktree at `index`.
    pub fn set_preview(&mut self, index: usize, files: Vec<crate::rows::StatusEntry>)
        requires
            old(self).wf(),
        ensures
            final(self)@ == (AppView {
                worktree_preview: files@,
                preview_for: Some(index as int),
                ..old(self)@
            }),
            final(self).wf(),
    {
        self.worktree_preview = files;
        self.preview_for = Some(index);
    }

    /// Takes the settings that a `Request::ReloadConfig` asked for.
    pub fn on_config(&mut self, result: Result<ConfigInfo, String>)
        requires
            old(self).wf(),
        ensures
            final(self)@ == old(self)@.config_read(result),
            final(self).wf(),
    {
        match result {
            Ok(c) => {
                self.open_command = c.open_command;
                self.worktree_base = c.worktree_base;
            },
            Err(e) => self.set_error(e),
        }
    }

    /// Takes the result of a `Request::WriteSetup`: the settings as they are
    /// then.
    pub fn on_setup_written(&mut self, result: Result<ConfigInfo, String>)
        requires
            old(self).wf(),
        ensures
            final(self)@ == old(self)@.setup_written(result),
            final(self).wf(),
    {
        match result {
            Ok(c) => {
                self.open_command = c.open_command;
                self.worktree_base = c.worktree_base;
                self.go_root();
                self.refresh();
                self.say(text::cat2("wrote ", config::CONFIG_FILE));
            },
            Err(e) => self.set_error(e),
        }
    }

    /// Asks for the settings, to show them on the Settings tab.
    pub fn open_settings_tab(&mut self)
        ensures
            final(self)@ == old(self)@.open_settings(),
    {
        self.ask(Request::ReloadSettings);
    }

    /// Takes the settings that a `Request::ReloadSettings` asked for.
    pub fn on_settings(&mut self, result: Result<config::RepoConfigFields, String>)
        requires
            old(self).wf(),
        ensures
            final(self)@ == old(self)@.settings_read(result),
            final(self).wf(),
    {
        match result {
            Ok(fields) => {
                self.settings.reload(fields);
                self.tab = Tab::Settings;
            },
            Err(e) => self.set_error(e),
        }
    }

    /// Takes the result of a `Request::SaveSettings`: the file that was written.
    pub fn on_settings_saved(&mut self, result: Result<String, String>)
        requires
            old(self).wf(),
        ensures
            final(self)@ == old(self)@.settings_saved(result),
            final(self).wf(),
    {
        match self.settings.save_fields(result, &mut self.message) {
            EditorOutcome::Saved(path) => {
                let theme = self.settings.effective_theme();
                self.ask(Request::SetTheme { theme });
                self.ask(Request::ReloadConfig);
                if self.message.is_none() {
                    self.say(text::cat2("saved ", path.as_str()));
                }
            },
            _ => {},
        }
    }

    /// Shows the stash entries of the selected worktree.
    pub fn open_stash_tab(&mut self)
        requires
            old(self).wf(),
        ensures
            final(self)@ == old(self)@.open_stash(),
            final(self).wf(),
    {
        if let Some(name) = self.selected_name() {
            if !text::same(name.as_str(), self.stash_name.as_str()) {
                self.stash_selected = 0;
            }
            self.tab = Tab::Stash;
            self.reload_stash_tab(name);
        }
    }

    /// Goes to the next tab, or the one before.
    pub fn cycle_tab(&mut self, forward: bool)
        requires
            old(self).wf(),
        ensures
            final(self)@ == old(self)@.select_tab(
                Tab::at(
                    old(self)@.tab.place() + (if forward {
                        1int
                    } else {
                        4int
                    }),
                ),
            ),
            final(self).wf(),
    {
        let next = if forward {
            self.tab.next()
        } else {
            self.tab.prev()
        };
        self.select_tab(next);
    }

    /// Goes to a tab and asks for what it shows.
    pub fn select_tab(&mut self, tab: Tab)
        requires
            old(self).wf(),
        ensures
            final(self)@ == old(self)@.select_tab(tab),
            final(self).wf(),
    {
        self.tab = tab;
        match tab {
            Tab::Branches => self.load_branches(0),
            Tab::Changes => {
                if let Some(name) = self.selected_name() {
                    if text::same(name.as_str(), self.changes.name.as_str()) {
                        self.refresh_diff();
                    } else {
                        self.open_changes_tab(name);
                    }
                }
            },
            Tab::Stash => self.open_stash_tab(),
            Tab::Settings => self.open_settings_tab(),
            Tab::Worktrees => {},
        }
    }

    /// Moves the cursor one worktree.
    pub fn step_worktree(&mut self, down: bool)
        requires
            old(self).wf(),
        ensures
            final(self)@ == old(self)@.step_worktree(down),
            final(self).wf(),
    {
        let count: usize = self.worktrees.len();
        if down {
            if self.selected < count && self.selected + 1 < count {
                self.selected = self.selected + 1;
                self.preview_scroll = 0;
            }
        } else if self.selected > 0 {
            self.selected = self.selected - 1;
            self.preview_scroll = 0;
        }
    }

    /// Scrolls the preview by `n` rows.
    pub fn scroll_preview(&mut self, down: bool, n: usize)
        requires
            old(self).wf(),
        ensures
            final(self)@ == old(self)@.scroll_preview(down, n as int),
            final(self).wf(),
    {
        self.preview_scroll = if down {
            self.preview_scroll.saturating_add(n)
        } else {
            self.preview_scroll.saturating_sub(n)
        };
    }

    /// Asks for the list of worktrees and says so.
    fn refresh_list(&mut self)
        requires
            old(self).wf(),
        ensures
            final(self)@ == old(self)@.refresh().say("refreshed"@),
            final(self).wf(),
    {
        self.refresh();
        self.say("refreshed".to_string());
    }

    /// Asks before the selected worktree is removed.
    fn ask_remove(&mut self)
        requires
            old(self).wf(),
        ensures
            final(self)@ == old(self)@.ask_remove(),
            final(self).wf(),
    {
        if let Some(w) = self.selected_worktree() {
            if w.is_main {
                self.say("cannot remove the main worktree".to_string());
            } else {
                let name = w.name.clone();
                let dirty: usize = w.dirty;
                let branch = model::copy_option(&w.branch);
                self.open_delete_modal(name, dirty, branch);
            }
        }
    }

    /// Opens the Changes tab on the selected worktree.
    fn enter_worktree(&mut self)
        requires
            old(self).wf(),
        ensures
            final(self)@ == old(self)@.enter_worktree(),
            final(self).wf(),
    {
        if let Some(name) = self.selected_name() {
            self.open_changes_tab(name);
        }
    }

    /// Handles a key on the Worktrees tab.
    pub fn on_worktrees_tab_key(&mut self, key: KeyEvent)
        requires
            old(self).wf(),
        ensures
            final(self)@ == old(self)@.worktrees_key(key),
            final(self).wf(),
    {
        proof {
            reveal(AppView::worktrees_key);
        }
        match key.code {
            KeyCode::Char('q') | KeyCode::Esc => self.quit = true,
            KeyCode::Up => if key.shift {
                self.scroll_preview(false, 1);
            } else {
                self.step_worktree(false);
            },
            KeyCode::Down => if key.shift {
                self.scroll_preview(true, 1);
            } else {
                self.step_worktree(true);
            },
            KeyCode::Char('j') => self.step_worktree(true),
            KeyCode::Char('k') => self.step_worktree(false),
            KeyCode::Char('r') => self.refresh_list(),
            KeyCode::Char('n') => self.open_create(),
            KeyCode::Char('c') => self.open_commit(),
            KeyCode::Char('o') => self.open_settings_tab(),
            KeyCode::Char('e') => self.run_open_command(),
            KeyCode::Char('s') => self.open_stash_tab(),
            KeyCode::Char('p') => self.start_pull(),
            KeyCode::Char('P') => self.start_push(),
            KeyCode::Char('f') => self.start_fetch(),
            KeyCode::Char('b') => self.open_switch(),
            KeyCode::Char('u') => self.start_update(),
            KeyCode::Char('l') => self.open_log(),
            KeyCode::Char('R') => self.open_rename_worktree(),
            KeyCode::Char('d') => self.ask_remove(),
            KeyCode::Enter => self.enter_worktree(),
            _ => {},
        }
    }

    /// Moves the cursor one branch.
    fn step_branch(&mut self, down: bool)
        requires
            old(self).wf(),
        ensures
            final(self)@ == old(self)@.step_branch(down),
            final(self).wf(),
    {
        let count: usize = self.branches.len();
        if down {
            if self.branch_selected < count && self.branch_selected + 1 < count {
                self.branch_selected = self.branch_selected + 1;
            }
        } else {
            self.branch_selected = self.branch_selected.saturating_sub(1);
        }
    }

    /// Asks for the branches and says so.
    fn refresh_branches(&mut self)
        requires
            old(self).wf(),
        ensures
            final(self)@ == old(self)@.load_branches(old(self)@.branch_selected).say("refreshed"@),
            final(self).wf(),
    {
        let at: usize = self.branch_selected;
        self.load_branches(at);
        self.say("refreshed".to_string());
    }

    /// Prompts for a new branch.
    fn prompt_branch(&mut self)
        requires
            old(self).wf(),
        ensures
            final(self)@ == old(self)@.prompt_branch(),
            final(self).wf(),
    {
        self.push_prompt(
            "new branch (no worktree)",
            TextInput::new(),
            "branch only, from HEAD · Esc cancels",
            ModalAction::BranchCreate,
        );
    }

    /// Prompts for the selected branch's new name.
    fn prompt_rename(&mut self)
        requires
            old(self).wf(),
        ensures
            final(self)@ == old(self)@.prompt_rename(),
            final(self).wf(),
    {
        if let Some(name) = self.selected_branch() {
            self.push_prompt(
                "rename branch",
                TextInput::with_value(name.clone()),
                "new branch name · Esc cancels",
                ModalAction::BranchRename { old: name },
            );
        }
    }

    /// Asks before the selected branch is deleted.
    fn ask_delete_branch(&mut self)
        requires
            old(self).wf(),
        ensures
            final(self)@ == old(self)@.ask_delete_branch(),
            final(self).wf(),
    {
        if let Some(name) = self.selected_branch() {
            self.open_branch_delete_modal(name);
        }
    }

    /// Opens the new-worktree dialog on the selected branch, unless it is
    /// checked out already.
    fn check_out_branch(&mut self)
        requires
            old(self).wf(),
        ensures
            final(self)@ == old(self)@.check_out_branch(),
            final(self).wf(),
    {
        if let Some(name) = self.selected_branch() {
            if self.branches[self.branch_selected].checked_out_path.is_some() {
                let q = request::quote(name.as_str());
                self.say(text::cat3("branch ", q.as_str(), " is already checked out"));
            } else {
                self.open_create_prefilled(name);
            }
        }
    }

    /// Handles a key on the Branches tab.
    pub fn on_branches_tab_key(&mut self, key: KeyEvent)
        requires
            old(self).wf(),
        ensures
            final(self)@ == old(self)@.branches_key(key),
            final(self).wf(),
    {
        proof {
            reveal(AppView::branches_key);
        }
        match key.code {
            KeyCode::Char('q') | KeyCode::Esc => self.quit = true,
            KeyCode::Down | KeyCode::Char('j') => self.step_branch(true),
            KeyCode::Up | KeyCode::Char('k') => self.step_branch(false),
            KeyCode::Char('r') => self.refresh_branches(),
            KeyCode::Char('f') => self.start_fetch(),
            KeyCode::Char('p') => self.start_branch_pull(),
            KeyCode::Char('n') => self.prompt_branch(),
            KeyCode::Char('R') => self.prompt_rename(),
            KeyCode::Char('d') => self.ask_delete_branch(),
            KeyCode::Enter => self.open_branch_commits(),
            KeyCode::Char('m') => self.open_merge_pick(),
            KeyCode::Char('c') => self.check_out_branch(),
            _ => {},
        }
    }

    /// The number of the stash entry under the cursor.
    fn stash_index(&self) -> (r: Option<u32>)
        ensures
            r == self@.stash_index(),
    {
        if self.stash_selected < self.stash_entries.len() {
            Some(self.stash_entries[self.stash_selected].index)
        } else {
            None
        }
    }

    /// Moves the cursor one stash entry.
    fn step_stash(&mut self, down: bool)
        requires
            old(self).wf(),
        ensures
            final(self)@ == old(self)@.step_stash(down),
            final(self).wf(),
    {
        let count: usize = self.stash_entries.len();
        if down {
            if self.stash_selected < count && self.stash_selected + 1 < count {
                self.stash_selected = self.stash_selected + 1;
            }
        } else {
            self.stash_selected = self.stash_selected.saturating_sub(1);
        }
    }

    /// Prompts for a stash message.
    fn prompt_stash(&mut self)
        requires
            old(self).wf(),
        ensures
            final(self)@ == old(self)@.prompt_stash(),
            final(self).wf(),
    {
        let name = self.stash_name.clone();
        self.push_prompt(
            "stash message (optional)",
            TextInput::new(),
            "blank Enter stashes without a message",
            ModalAction::StashPush { name },
        );
    }

    /// Asks before the stash entry under the cursor is dropped.
    fn ask_drop_stash(&mut self)
        requires
            old(self).wf(),
        ensures
            final(self)@ == old(self)@.ask_drop_stash(),
            final(self).wf(),
    {
        if self.stash_entries.len() > 0 {
            let name = self.stash_name.clone();
            let index = self.stash_index();
            self.open_stash_drop_modal(name, index);
        }
    }

    /// Handles a key on the Stash tab.
    pub fn on_stash_tab_key(&mut self, key: KeyEvent)
        requires
            old(self).wf(),
        ensures
            final(self)@ == old(self)@.stash_key(key),
            final(self).wf(),
    {
        proof {
            reveal(AppView::stash_key);
        }
        match key.code {
            KeyCode::Esc | KeyCode::Char('q') => self.quit = true,
            KeyCode::Down | KeyCode::Char('j') => self.step_stash(true),
            KeyCode::Up | KeyCode::Char('k') => self.step_stash(false),
            KeyCode::Char('s') => self.prompt_stash(),
            KeyCode::Char('p') => {
                let name = self.stash_name.clone();
                let index = self.stash_index();
                self.stash_pop(name, index);
            },
            KeyCode::Char('a') => {
                let name = self.stash_name.clone();
                let index = self.stash_index();
                self.stash_action(true, name, index);
            },
            KeyCode::Char('x') => self.ask_drop_stash(),
            _ => {},
        }
    }

    /// Handles a key on the Settings tab.
    pub fn on_settings_tab_key(&mut self, key: KeyEvent)
        requires
            old(self).wf(),
        ensures
            final(self)@ == old(self)@.settings_key(key),
            final(self).wf(),
    {
        proof {
            reveal(AppView::settings_key);
        }
        match self.settings.on_key(key) {
            EditorOutcome::Save => self.ask(Request::SaveSettings),
            EditorOutcome::CheckForUpdates => {
                self.start_update_check(true);
                self.say("checking for updates…".to_string());
            },
            EditorOutcome::Cancel => self.quit = true,
            EditorOutcome::Continue => {},
            EditorOutcome::Saved(_) => {},
        }
    }

    /// Handles a key on the tabs: goes to another tab, or lets the active one
    /// handle it.
    pub fn on_list_key(&mut self, key: KeyEvent)
        requires
            old(self).wf(),
        ensures
            final(self)@ == old(self)@.list_key(key),
            final(self).wf(),
    {
        proof {
            reveal(AppView::list_key);
        }
        if key.code == KeyCode::Tab {
            self.cycle_tab(true);
            return;
        }
        if key.code == KeyCode::BackTab {
            self.cycle_tab(false);
            return;
        }
        match self.tab {
            Tab::Worktrees => self.on_worktrees_tab_key(key),
            Tab::Changes => self.on_changes_tab_key(key),
            Tab::Branches => self.on_branches_tab_key(key),
            Tab::Stash => self.on_stash_tab_key(key),
            Tab::Settings => self.on_settings_tab_key(key),
        }
    }
}

/// Going on to the next tab and back ends on the tab that it started from.
pub proof fn next_tab_then_back(a: AppView)
    ensures
        ({
            let there = a.select_tab(Tab::at(a.tab.place() + 1));
            there.select_tab(Tab::at(there.tab.place() + 4)).tab == a.tab
        }),
{
}

/// Reading the worktrees anew keeps the cursor on the worktree it was on, as
/// long as that is still there and no other has its name.
pub proof fn cursor_follows_worktree(a: AppView, v: Vec<WorktreeInfo>, i: int)
    requires
        a.worktree() is Some,
        0 <= i < v@.len(),
        v@[i].name@ == a.worktree()->0.name@,
        forall|k: int| 0 <= k < v@.len() && k != i ==> (#[trigger] v@[k]).name@ != v@[i].name@,
    ensures
        a.worktrees_read(ListThenView::Auto, Ok(v)).worktree() == Some(v@[i]),
{
    named_is_only(v@, v@[i].name@, i, 0);
}

proof fn named_is_only(v: Seq<WorktreeInfo>, name: Seq<char>, i: int, from: int)
    requires
        0 <= from <= i < v.len(),
        v[i].name@ == name,
        forall|k: int| 0 <= k < v.len() && k != i ==> (#[trigger] v[k]).name@ != name,
    ensures
        worktree_named(v, name, from) == Some(i),
    decreases i - from,
{
    if from < i {
        named_is_only(v, name, i, from + 1);
    }
}

} // verus!
