//! What a key press does: to an error, the help panel, a modal, or the screen in
//! front.

use vstd::prelude::*;
use vstd::string::*;
use vstd::view::View as _;

use crate::app::{App, AppView, CommitFocus, Screen, Tab, View};
use crate::config::ConfigDraft;
use crate::help::HelpTab;
use crate::input::{KeyCode, KeyEvent};
use crate::modal::Modal;
use crate::request::{Request, RequestView};
use crate::setup;
use crate::setup::{Listing, OutcomeView, Step, StepView, WizardOutcome, WizardView};
use crate::text;

verus! {

impl WizardView {
    /// Whether a text field of the wizard listens for characters.
    pub open spec fn takes_text(self) -> bool {
        match self.step {
            StepView::ClonePath { .. } => true,
            StepView::LocationCustom { .. } => true,
            StepView::CopyFiles { .. } => true,
            StepView::RunCommands { .. } => true,
            StepView::Review { editing, .. } => editing is Some,
            _ => false,
        }
    }
}

impl AppView {
    /// Whether a text field listens for characters, so that `?` is one of them.
    pub open spec fn takes_text(self) -> bool {
        (self.modal matches Some(m) && !(m is Confirm)) || match self.view {
            Screen::Create(d) => d.selected == 0 && !d.base_focus && d.base_pick is None,
            Screen::Commit(d) => d.focus == CommitFocus::Message,
            Screen::Switch(_) => true,
            Screen::RunCommand { .. } => true,
            Screen::RenameWorktree { .. } => true,
            Screen::Creating(r) => !r.done,
            Screen::List => self.tab == Tab::Settings && self.settings.typing(),
            Screen::Setup(w) => w.takes_text(),
            _ => false,
        }
    }

    /// With the help panel open on the page for what is on screen.
    pub open spec fn open_help(self) -> AppView {
        AppView {
            help_tab: HelpTab::of(self.view, self.tab),
            help_scroll: 0,
            show_help: true,
            ..self
        }
    }

    /// With the help panel on another page.
    pub open spec fn on_help_tab(self, t: HelpTab) -> AppView {
        AppView { help_tab: t, help_scroll: 0, ..self }
    }

    /// With the help panel scrolled.
    pub open spec fn scroll_help(self, to: u16) -> AppView {
        AppView { help_scroll: to, ..self }
    }

    /// After a key in the help panel: another page, a scroll, or closed.
    #[verifier::opaque]
    pub open spec fn help_key(self, key: KeyEvent) -> AppView {
        let code = key.code;
        let at = self.help_scroll;
        if code is Tab || code is Right || code == KeyCode::Char('l') {
            self.on_help_tab(HelpTab::at(self.help_tab.place() + 1))
        } else if code is BackTab || code is Left || code == KeyCode::Char('h') {
            self.on_help_tab(HelpTab::at(self.help_tab.place() + 5))
        } else if code is Down || code == KeyCode::Char('j') {
            self.scroll_help(at.saturating_add(1))
        } else if code is Up || code == KeyCode::Char('k') {
            self.scroll_help(at.saturating_sub(1))
        } else if code is PageDown {
            self.scroll_help(at.saturating_add(10))
        } else if code is PageUp {
            self.scroll_help(at.saturating_sub(10))
        } else if code is Home || code == KeyCode::Char('g') {
            self.scroll_help(0)
        } else {
            AppView { show_help: false, ..self }
        }
    }

    /// With the wizard in another state.
    pub open spec fn in_setup(self, w: WizardView) -> AppView {
        AppView { view: Screen::Setup(w), ..self }
    }

    /// After a key in the wizard.
    #[verifier::opaque]
    pub open spec fn wizard_key(self, key: KeyEvent) -> AppView {
        match self.view {
            Screen::Setup(w) => {
                let (next, outcome) = w.press(key.code);
                let a = self.in_setup(next);
                match outcome {
                    OutcomeView::Quit => AppView { quit: true, ..a },
                    OutcomeView::Done => a.ask(RequestView::WriteSetup { draft: next.draft }),
                    OutcomeView::Ask(ask) => a.ask(RequestView::Wizard { ask }),
                    OutcomeView::Continue => a,
                }
            },
            _ => self,
        }
    }

    /// With the wizard in another state and a status line for an error, if the
    /// wizard is open.
    pub open spec fn wizard_told(self, w: WizardView, error: Option<Seq<char>>) -> AppView {
        match self.view {
            Screen::Setup(_) => AppView {
                message: setup::said(self.message, error),
                ..self
            }.in_setup(w),
            _ => self,
        }
    }

    /// The state of the wizard, if it is open.
    pub open spec fn wizard(self) -> WizardView {
        match self.view {
            Screen::Setup(w) => w,
            _ => WizardView::welcome(self.repo_root),
        }
    }

    /// After a key on the screen in front.
    #[verifier::opaque]
    pub open spec fn screen_key(self, key: KeyEvent) -> AppView {
        match self.view {
            Screen::List => self.list_key(key),
            Screen::Create(_) => self.create_key(key),
            Screen::RunCommand { .. } => self.command_key(key),
            Screen::RenameWorktree { .. } => self.rename_key(key),
            Screen::Creating(_) => self.run_key(key),
            Screen::Setup(_) => self.wizard_key(key),
            Screen::Commit(_) => self.commit_key(key),
            Screen::Switch(_) => self.switch_key(key),
            Screen::Log { .. } => self.log_key(key),
            Screen::CommitDiff(_) => self.commit_diff_key(key),
            Screen::BranchCommits(_) => self.history_key(key),
            Screen::CherryPick(_) => self.pick_key(key),
            Screen::MergePick { .. } => self.merge_key(key),
            Screen::ConflictResolver(_) => self.resolver_key(key),
            Screen::Busy { .. } => self,
        }
    }

    /// Whether a key opens the help panel: F1 always, `?` where no text field
    /// listens.
    pub open spec fn asks_help(self, key: KeyEvent) -> bool {
        key.code == KeyCode::F(1) || (key.code == KeyCode::Char('?') && !self.takes_text())
    }

    /// After a key. An error popup takes the key and goes away; then Ctrl+C,
    /// the help panel, the key for help, a modal and the screen in front come in
    /// turn.
    pub open spec fn press(self, key: KeyEvent) -> AppView {
        let a = AppView { message: None, ..self };
        if a.error is Some {
            AppView { error: None, ..a }
        } else if key.control && key.code == KeyCode::Char('c') {
            a.interrupt()
        } else if a.show_help {
            a.help_key(key)
        } else if a.asks_help(key) {
            a.open_help()
        } else if a.modal is Some {
            a.modal_key(key)
        } else {
            a.screen_key(key)
        }
    }
}

impl App {
    /// Whether a text field listens for characters, so that `?` reaches it.
    pub fn view_takes_text_input(&self) -> (r: bool)
        ensures
            r == self@.takes_text(),
    {
        match &self.modal {
            Some(Modal::Prompt { .. }) => {
                return true;
            },
            Some(Modal::HunkEditor(_)) => {
                return true;
            },
            _ => {},
        }
        match &self.view {
            View::Create { selected, base_focus, base_pick, .. } => *selected == 0 && !*base_focus
                && base_pick.is_none(),
            View::Commit { focus, .. } => *focus == CommitFocus::Message,
            View::Switch { .. } => true,
            View::RunCommand { .. } => true,
            View::RenameWorktree { .. } => true,
            View::Creating { done, .. } => !*done,
            View::List => self.tab == Tab::Settings && self.settings.is_typing(),
            View::Setup(w) => match &w.step {
                Step::ClonePath { .. } => true,
                Step::LocationCustom { .. } => true,
                Step::CopyFiles { .. } => true,
                Step::RunCommands { .. } => true,
                Step::Review { editing, .. } => editing.is_some(),
                _ => false,
            },
            _ => false,
        }
    }

    /// Opens the help panel on the page for what is on screen.
    pub fn open_help(&mut self)
        ensures
            final(self)@ == old(self)@.open_help(),
    {
        self.help_tab = HelpTab::for_view(&self.view, self.tab);
        self.help_scroll = 0;
        self.show_help = true;
    }

    /// Goes to another page of the help panel.
    fn set_help_tab(&mut self, tab: HelpTab)
        ensures
            final(self)@ == old(self)@.on_help_tab(tab),
    {
        self.help_tab = tab;
        self.help_scroll = 0;
    }

    /// Handles a key in the help panel.
    pub fn on_help_key(&mut self, key: KeyEvent)
        requires
            old(self).wf(),
        ensures
            final(self)@ == old(self)@.help_key(key),
            final(self).wf(),
    {
        proof {
            reveal(AppView::help_key);
        }
        match key.code {
            KeyCode::Tab | KeyCode::Right | KeyCode::Char('l') => {
                let next = self.help_tab.next();
                self.set_help_tab(next);
            },
            KeyCode::BackTab | KeyCode::Left | KeyCode::Char('h') => {
                let prev = self.help_tab.prev();
                self.set_help_tab(prev);
            },
            KeyCode::Down | KeyCode::Char('j') => {
                self.help_scroll = self.help_scroll.saturating_add(1);
            },
            KeyCode::Up | KeyCode::Char('k') => {
                self.help_scroll = self.help_scroll.saturating_sub(1);
            },
            KeyCode::PageDown => self.help_scroll = self.help_scroll.saturating_add(10),
            KeyCode::PageUp => self.help_scroll = self.help_scroll.saturating_sub(10),
            KeyCode::Home | KeyCode::Char('g') => self.help_scroll = 0,
            _ => self.show_help = false,
        }
    }

    /// Handles a key in the wizard.
    pub fn on_setup_key(&mut self, key: KeyEvent)
        requires
            old(self).wf(),
        ensures
            final(self)@ == old(self)@.wizard_key(key),
            final(self).wf(),
    {
        proof {
            reveal(AppView::wizard_key);
        }
        let mut asked: Option<Request> = None;
        let mut quit = false;
        if let View::Setup(w) = &mut self.view {
            match w.on_key(key) {
                WizardOutcome::Quit => quit = true,
                WizardOutcome::Done => asked = Some(Request::WriteSetup { draft: w.draft.clone() }),
                WizardOutcome::Ask(ask) => asked = Some(Request::Wizard { ask }),
                WizardOutcome::Continue => {},
            }
        }
        if quit {
            self.quit = true;
        } else if let Some(r) = asked {
            self.ask(r);
        }
    }

    /// Takes the listing that the wizard asked for to start its file browser.
    pub fn on_browse_started(&mut self, result: Listing)
        requires
            old(self).wf(),
        ensures
            final(self)@ == old(self)@.wizard_told(
                old(self)@.wizard().browse_started(result),
                setup::listing_error(result),
            ),
            final(self).wf(),
    {
        if let View::Setup(w) = &mut self.view {
            w.browse_started(result, &mut self.message);
        }
    }

    /// Takes the listing that the wizard's file browser asked for.
    pub fn on_browse_moved(&mut self, result: Listing)
        requires
            old(self).wf(),
        ensures
            final(self)@ == old(self)@.wizard_told(
                old(self)@.wizard().browse_moved(result),
                setup::listing_error(result),
            ),
            final(self).wf(),
    {
        if let View::Setup(w) = &mut self.view {
            w.browse_moved(result, &mut self.message);
        }
    }

    /// Takes the settings of another repository that the wizard asked for.
    pub fn on_clone_loaded(&mut self, result: Result<ConfigDraft, String>)
        requires
            old(self).wf(),
        ensures
            final(self)@ == old(self)@.wizard_told(
                old(self)@.wizard().clone_loaded(result),
                match result {
                    Ok(_) => None,
                    Err(e) => Some(setup::error_line(e@)),
                },
            ),
            final(self).wf(),
    {
        if let View::Setup(w) = &mut self.view {
            w.clone_loaded(result, &mut self.message);
        }
    }

    /// Takes the files worth copying that the wizard asked for.
    pub fn on_copy_suggested(&mut self, files: &Vec<String>)
        requires
            old(self).wf(),
        ensures
            final(self)@ == old(self)@.wizard_told(
                old(self)@.wizard().copy_suggested(text::views(files@)),
                None,
            ),
            final(self).wf(),
    {
        if let View::Setup(w) = &mut self.view {
            w.copy_suggested(files);
        }
    }

    /// Takes the setup commands that the wizard asked for.
    pub fn on_run_suggested(&mut self, suggested: &Vec<String>)
        requires
            old(self).wf(),
        ensures
            final(self)@ == old(self)@.wizard_told(
                old(self)@.wizard().run_suggested(text::views(suggested@)),
                None,
            ),
            final(self).wf(),
    {
        if let View::Setup(w) = &mut self.view {
            w.run_suggested(suggested);
        }
    }

    /// Handles a key on the screen in front.
    fn on_screen_key(&mut self, key: KeyEvent)
        requires
            old(self).wf(),
        ensures
            final(self)@ == old(self)@.screen_key(key),
            final(self).wf(),
    {
        proof {
            reveal(AppView::screen_key);
        }
        match &self.view {
            View::List => self.on_list_key(key),
            View::Create { .. } => self.on_create_key(key),
            View::RunCommand { .. } => self.on_command_key(key),
            View::RenameWorktree { .. } => self.on_rename_key(key),
            View::Creating { .. } => self.on_creating_key(key),
            View::Setup(_) => self.on_setup_key(key),
            View::Commit { .. } => self.on_commit_key(key),
            View::Switch { .. } => self.on_switch_key(key),
            View::Log { .. } => self.on_log_key(key),
            View::CommitDiff { .. } => self.on_commit_diff_key(key),
            View::BranchCommits { .. } => self.on_branch_commits_key(key),
            View::CherryPick { .. } => self.on_cherry_pick_key(key),
            View::MergePick { .. } => self.on_merge_pick_key(key),
            View::ConflictResolver { .. } => self.on_resolver_key(key),
            View::Busy { .. } => {},
        }
    }

    /// Handles a key press.
    pub fn on_key(&mut self, key: KeyEvent)
        requires
            old(self).wf(),
        ensures
            final(self)@ == old(self)@.press(key),
            final(self).wf(),
    {
        self.message = None;
        if self.error.is_some() {
            self.error = None;
            return;
        }
        if key.control && key.code == KeyCode::Char('c') {
            self.on_interrupt();
            return;
        }
        if self.show_help {
            self.on_help_key(key);
            return;
        }
        let wants_help = key.code == KeyCode::F(1) || (key.code == KeyCode::Char('?')
            && !self.view_takes_text_input());
        if wants_help {
            self.open_help();
        } else if self.modal.is_some() {
            self.on_modal_key(key);
        } else {
            self.on_screen_key(key);
        }
    }
}

} // verus!
