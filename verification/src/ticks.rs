//! What happens as time goes by: status lines expire, lists are read anew, and
//! the results of background operations are taken over.

use vstd::prelude::*;
use vstd::string::*;
use vstd::view::View as _;

use crate::app::{App, AppView, BusyThen, Screen, Tab, ThenView, View};
use crate::dialogs;
use crate::model::{CheckOutcome, ResolveKind, TaskView};
use crate::request::{
    BranchesThen, BranchesThenView, ListThen, ListThenView, OpError, Request, RequestView,
};
use crate::text;

verus! {

/// How long a status line stays, in milliseconds.
pub const MESSAGE_TIMEOUT: u64 = 4000;

/// How often the changed files are read anew, in milliseconds.
pub const DIFF_REFRESH_INTERVAL: u64 = 1000;

/// How often the lists are read anew, in milliseconds.
pub const AUTO_REFRESH_INTERVAL: u64 = 60000;

/// The time that has passed since `then`; none when that lies ahead.
pub open spec fn elapsed(now: u64, then: u64) -> u64 {
    if now >= then {
        (now - then) as u64
    } else {
        0
    }
}

impl AppView {
    /// With the time of a new status line noted, and an old one gone once it has
    /// been on screen long enough.
    pub open spec fn expired(self) -> AppView {
        match self.message {
            None => AppView { message_at: None, message_shown: None, ..self },
            Some(m) => if self.message_shown != Some(m) {
                AppView { message_shown: Some(m), message_at: Some(self.now), ..self }
            } else {
                match self.message_at {
                    Some(t) => if elapsed(self.now, t) >= MESSAGE_TIMEOUT {
                        AppView { message: None, message_at: None, message_shown: None, ..self }
                    } else {
                        self
                    },
                    None => self,
                }
            },
        }
    }

    /// Whether the lists are due: on the tabs, with no error and no modal in
    /// front, and long enough after they were last read.
    pub open spec fn lists_due(self) -> bool {
        self.view is List && self.error is None && self.modal is None && elapsed(
            self.now,
            self.last_auto_refresh,
        ) >= AUTO_REFRESH_INTERVAL
    }

    /// With the lists asked for anew when they are due.
    pub open spec fn auto_refreshed(self) -> AppView {
        if self.lists_due() {
            let a = self.list(ListThenView::Auto);
            if self.tab == Tab::Branches {
                a.ask(RequestView::ListBranches { then: BranchesThenView::Auto })
            } else {
                a
            }
        } else {
            self
        }
    }

    /// After an update check. Nothing is said about one that the user did not
    /// ask for.
    pub open spec fn update_checked(self, result: Result<CheckOutcome, String>) -> AppView {
        let requested = self.update_check_requested;
        let a = AppView { update_check: None, update_check_requested: false, ..self };
        match result {
            Ok(CheckOutcome::Available(release)) => if requested {
                AppView { update_available: Some(release), update_prompted: false, ..a }.say(
                    "wtm "@ + release.version@ + " is available"@,
                )
            } else {
                AppView { update_available: Some(release), ..a }
            },
            Ok(CheckOutcome::UpToDate { latest }) => {
                let b = AppView { update_available: None, ..a };
                if requested {
                    b.say("wtm "@ + latest@ + " is the latest version"@)
                } else {
                    b
                }
            },
            Err(e) => if requested {
                a.fail("update check failed: "@ + e@)
            } else {
                a
            },
        }
    }

    /// With the result of the update check taken over, if it is there.
    pub open spec fn update_polled(self) -> AppView {
        match self.update_check {
            Some(t) => if t.queue.len() > 0 {
                self.update_checked(t.queue.last())
            } else {
                self
            },
            None => self,
        }
    }

    /// Whether the update prompt has to wait: it was shown already, or something
    /// else is in front.
    pub open spec fn prompt_waits(self) -> bool {
        self.update_prompted || self.modal is Some || self.error is Some || self.show_help || !(
        self.view is List)
    }

    /// With the update prompt open, once a newer release is known and the screen
    /// is free.
    pub open spec fn prompted(self) -> AppView {
        if self.prompt_waits() {
            self
        } else {
            match self.update_available {
                Some(release) => AppView { update_prompted: true, ..self }.show(
                    dialogs::update_offer(release, self.version),
                ),
                None => self,
            }
        }
    }

    /// After a background operation that succeeded.
    pub open spec fn op_done(self, m: Seq<char>, then: ThenView) -> AppView {
        match then {
            ThenView::Restart { exe } => AppView {
                restart_exe: Some(exe),
                quit: true,
                ..self.say(m)
            },
            ThenView::DeleteBranch { name, branch } => self.refresh().ask(
                RequestView::TryDeleteBranch { name, branch },
            ),
            ThenView::Resolve { target, source_label, kind } => self.refresh().ask(
                RequestView::ListConflicts { target, source_label, kind, msg: m },
            ),
            ThenView::Stash(name) => self.say(m).refresh().load_stashes(name),
            ThenView::Branch => self.say(m).refresh().load_branches(self.branch_selected),
            ThenView::List => self.say(m).refresh(),
            ThenView::Commit(_) => self.say(m).refresh(),
            ThenView::Pull { .. } => self.say(m).refresh(),
        }
    }

    /// After a background operation that failed. A pull that was refused because
    /// the branch has diverged is offered again with a rebase, and the dialog of
    /// a commit comes back as it was.
    pub open spec fn op_failed(self, e: OpError, then: ThenView) -> AppView {
        match then {
            ThenView::Pull { name } => if e.non_fast_forward {
                self.refresh().rooted().show(dialogs::rebase_question(name))
            } else {
                self.fail(e.text@).refresh()
            },
            ThenView::Commit(d) => self.fail(e.text@).refresh().pushed(Screen::Commit(d)),
            _ => self.fail(e.text@).refresh(),
        }
    }

    /// With the result of the operation that the screen waits for taken over, if
    /// it is there.
    pub open spec fn busy_polled(self) -> AppView {
        match self.view {
            Screen::Busy { rx, then, .. } => if rx.queue.len() > 0 {
                let a = AppView { view: Screen::List, ..self };
                match rx.queue.last() {
                    Ok(m) => a.op_done(m@, then),
                    Err(e) => a.op_failed(e, then),
                }
            } else {
                self
            },
            _ => self,
        }
    }

    /// With the diff taken over, if it is there, and the changed files asked for
    /// anew when they are due.
    pub open spec fn changes_polled(self) -> AppView {
        let a = AppView { changes: self.changes.polled(), ..self };
        if elapsed(a.now, a.changes.last_refresh) >= DIFF_REFRESH_INTERVAL {
            a.refresh_diff()
        } else {
            a
        }
    }

    /// With the results for the screen in front taken over.
    pub open spec fn screen_polled(self) -> AppView {
        match self.view {
            Screen::Busy { .. } => self.busy_polled(),
            Screen::List => if self.tab == Tab::Changes {
                self.changes_polled()
            } else {
                self
            },
            Screen::CommitDiff(_) => self.poll_commit_diff(),
            Screen::Creating(_) => self.poll_create(),
            _ => self,
        }
    }

    /// After a tick of the clock.
    pub open spec fn ticked(self) -> AppView {
        AppView {
            tick_count: self.tick_count.wrapping_add(1),
            ..self
        }.expired().auto_refreshed().update_polled().prompted().screen_polled()
    }
}

/// The time that has passed since `then`; none when that lies ahead.
fn since(now: u64, then: u64) -> (r: u64)
    ensures
        r == elapsed(now, then),
{
    now.saturating_sub(then)
}

impl App {
    /// Notes the time of a new status line, and clears one that has been on
    /// screen long enough.
    pub fn expire_message(&mut self)
        requires
            old(self).wf(),
        ensures
            final(self)@ == old(self)@.expired(),
            final(self).wf(),
    {
        let fresh = match &self.message {
            None => {
                self.message_at = None;
                self.message_shown = None;
                return;
            },
            Some(m) => {
                let seen = match &self.message_shown {
                    Some(s) => text::same(s.as_str(), m.as_str()),
                    None => false,
                };
                if seen {
                    None
                } else {
                    Some(m.clone())
                }
            },
        };
        if let Some(m) = fresh {
            self.message_shown = Some(m);
            self.message_at = Some(self.now);
        } else if let Some(t) = self.message_at {
            if since(self.now, t) >= MESSAGE_TIMEOUT {
                self.message = None;
                self.message_at = None;
                self.message_shown = None;
            }
        }
    }

    /// Asks for the lists anew when they are due. Never while an error, a modal
    /// or another screen is in front.
    pub fn auto_refresh(&mut self)
        requires
            old(self).wf(),
        ensures
            final(self)@ == old(self)@.auto_refreshed(),
            final(self).wf(),
    {
        if !matches!(self.view, View::List) || self.error.is_some() || self.modal.is_some()
            || since(self.now, self.last_auto_refresh) < AUTO_REFRESH_INTERVAL {
            return;
        }
        self.last_auto_refresh = self.now;
        self.ask(Request::ListWorktrees { then: ListThen::Auto });
        if self.tab == Tab::Branches {
            self.ask(Request::ListBranches { then: BranchesThen::Auto });
        }
    }

    /// Takes the result of a `Request::CheckForUpdate`.
    pub fn deliver_update_check(&mut self, task: u64, result: Result<CheckOutcome, String>)
        ensures
            final(self)@ == match old(self)@.update_check {
                Some(t) => if t.id == task {
                    AppView {
                        update_check: Some(TaskView { queue: t.queue.push(result), ..t }),
                        ..old(self)@
                    }
                } else {
                    old(self)@
                },
                None => old(self)@,
            },
    {
        if let Some(t) = &mut self.update_check {
            if t.id == task {
                t.push(result);
            }
        }
    }

    /// Takes over the result of the update check, if it is there.
    pub fn poll_update_check(&mut self)
        requires
            old(self).wf(),
        ensures
            final(self)@ == old(self)@.update_polled(),
            final(self).wf(),
    {
        let found = match &mut self.update_check {
            Some(t) => t.poll_latest(),
            None => None,
        };
        match found {
            Some(result) => self.finish_update_check(result),
            None => {
                proof {
                    if let Some(t) = old(self)@.update_check {
                        assert(t.drained().queue =~= t.queue);
                    }
                }
            },
        }
    }

    /// Shows what an update check found, as far as the user asked for it.
    fn finish_update_check(&mut self, result: Result<CheckOutcome, String>)
        requires
            old(self).wf(),
        ensures
            final(self)@ == old(self)@.update_checked(result),
            final(self).wf(),
    {
        self.update_check = None;
        let requested = self.update_check_requested;
        self.update_check_requested = false;
        match result {
            Ok(CheckOutcome::Available(release)) => {
                if requested {
                    let m = text::cat3("wtm ", release.version.as_str(), " is available");
                    self.say(m);
                    self.update_prompted = false;
                }
                self.update_available = Some(release);
            },
            Ok(CheckOutcome::UpToDate { latest }) => {
                self.update_available = None;
                if requested {
                    self.say(text::cat3("wtm ", latest.as_str(), " is the latest version"));
                }
            },
            Err(e) => {
                if requested {
                    self.set_error(text::cat2("update check failed: ", e.as_str()));
                }
            },
        }
    }

    /// Opens the update prompt once a newer release is known and the screen is
    /// free.
    pub fn maybe_prompt_update(&mut self)
        requires
            old(self).wf(),
        ensures
            final(self)@ == old(self)@.prompted(),
            final(self).wf(),
    {
        if self.update_prompted || self.modal.is_some() || self.error.is_some() || self.show_help
            || !matches!(self.view, View::List) {
            return;
        }
        let release = match &self.update_available {
            Some(r) => r.clone(),
            None => {
                return;
            },
        };
        self.update_prompted = true;
        self.open_update_modal(release);
    }

    /// Takes the result of a `Request::Busy`.
    pub fn deliver_busy(&mut self, task: u64, result: Result<String, OpError>)
        ensures
            final(self)@ == match old(self)@.view {
                Screen::Busy { label, rx, then } => if rx.id == task {
                    AppView {
                        view: Screen::Busy {
                            label,
                            rx: TaskView { queue: rx.queue.push(result), ..rx },
                            then,
                        },
                        ..old(self)@
                    }
                } else {
                    old(self)@
                },
                _ => old(self)@,
            },
    {
        if let View::Busy { rx, .. } = &mut self.view {
            if rx.id == task {
                rx.push(result);
            }
        }
    }

    /// Asks for the conflicts that an operation left.
    fn finish_merge_op(
        &mut self,
        target: String,
        source_label: String,
        kind: ResolveKind,
        msg: String,
    )
        ensures
            final(self)@ == old(self)@.ask(
                RequestView::ListConflicts {
                    target: target@,
                    source_label: source_label@,
                    kind,
                    msg: msg@,
                },
            ),
    {
        self.ask(Request::ListConflicts { target, source_label, kind, msg });
    }

    /// Goes on after a background operation that succeeded.
    fn finish_op(&mut self, m: String, then: BusyThen)
        requires
            old(self).wf(),
        ensures
            final(self)@ == old(self)@.op_done(m@, then@),
            final(self).wf(),
    {
        match then {
            BusyThen::Restart { exe } => {
                self.say(m);
                self.restart_exe = Some(exe);
                self.quit = true;
            },
            BusyThen::DeleteBranch { name, branch } => {
                self.refresh();
                self.delete_branch_step(name, branch);
            },
            BusyThen::Resolve { target, source_label, kind } => {
                self.refresh();
                self.finish_merge_op(target, source_label, kind, m);
            },
            BusyThen::Stash(name) => {
                self.say(m);
                self.refresh();
                self.reload_stash_tab(name);
            },
            BusyThen::Branch => {
                self.say(m);
                self.refresh();
                let at: usize = self.branch_selected;
                self.load_branches(at);
            },
            BusyThen::List => {
                self.say(m);
                self.refresh();
            },
            BusyThen::Commit { .. } => {
                self.say(m);
                self.refresh();
            },
            BusyThen::Pull { .. } => {
                self.say(m);
                self.refresh();
            },
        }
    }

    /// Goes on after a background operation that failed.
    fn fail_op(&mut self, e: OpError, then: BusyThen)
        requires
            old(self).wf(),
        ensures
            final(self)@ == old(self)@.op_failed(e, then@),
            final(self).wf(),
    {
        match then {
            BusyThen::Pull { name } => {
                if e.non_fast_forward {
                    self.refresh();
                    self.open_pull_rebase_modal(name);
                } else {
                    self.set_error(e.text);
                    self.refresh();
                }
            },
            BusyThen::Commit { name, files, marked, cursor, input, focus } => {
                self.set_error(e.text);
                self.refresh();
                self.push_screen(View::Commit { name, files, marked, cursor, input, focus });
            },
            _ => {
                self.set_error(e.text);
                self.refresh();
            },
        }
    }

    /// Takes over the result of the operation that the screen waits for, if it
    /// is there.
    fn poll_busy(&mut self)
        requires
            old(self).wf(),
        ensures
            final(self)@ == old(self)@.busy_polled(),
            final(self).wf(),
    {
        let found = match &mut self.view {
            View::Busy { rx, .. } => rx.poll_latest(),
            _ => None,
        };
        match found {
            Some(result) => {
                let before = text::replace(&mut self.view, View::List);
                if let View::Busy { then, .. } = before {
                    match result {
                        Ok(m) => self.finish_op(m, then),
                        Err(e) => self.fail_op(e, then),
                    }
                }
            },
            None => {
                proof {
                    if let Screen::Busy { rx, .. } = old(self)@.view {
                        assert(rx.drained().queue =~= rx.queue);
                    }
                }
            },
        }
    }

    /// Takes over the diff, if it is there, and asks for the changed files anew
    /// when they are due.
    fn poll_changes(&mut self)
        requires
            old(self).wf(),
        ensures
            final(self)@ == old(self)@.changes_polled(),
            final(self).wf(),
    {
        self.poll_diff_load();
        if since(self.now, self.changes.last_refresh) >= DIFF_REFRESH_INTERVAL {
            self.refresh_diff();
        }
    }

    /// Takes over the results for the screen in front.
    fn poll_screen(&mut self)
        requires
            old(self).wf(),
        ensures
            final(self)@ == old(self)@.screen_polled(),
            final(self).wf(),
    {
        match &self.view {
            View::Busy { .. } => self.poll_busy(),
            View::List => {
                if self.tab == Tab::Changes {
                    self.poll_changes();
                }
            },
            View::CommitDiff { .. } => self.poll_commit_diff_load(),
            View::Creating { .. } => self.poll_create(),
            _ => {},
        }
    }

    /// Handles a tick of the clock: status lines expire, lists that are due are
    /// asked for, and results that have arrived are taken over.
    pub fn tick(&mut self)
        requires
            old(self).wf(),
        ensures
            final(self)@ == old(self)@.ticked(),
            final(self).wf(),
    {
        self.tick_count = self.tick_count.wrapping_add(1);
        self.expire_message();
        self.auto_refresh();
        self.poll_update_check();
        self.maybe_prompt_update();
        self.poll_screen();
    }
}

} // verus!
