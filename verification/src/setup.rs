//! The first-run setup wizard, shown while a repository has no settings file.
//!
//! A welcome screen offers two routes: answer three questions, or take over the
//! settings of another repository. Both end on a review screen where every
//! answer can still be edited. Esc steps back one screen and keeps the answers.
//!
//! The wizard itself touches no file. Where it needs one read it returns
//! `WizardOutcome::Ask`, and goes on when the reply is handed to it.

use vstd::prelude::*;
use vstd::string::*;

use crate::config;
use crate::config::{ConfigDraft, DraftView, DEFAULT_LOCATION, LOCATION_PRESETS};
use crate::input;
use crate::input::{KeyCode, KeyEvent, TextInput, TextState};
use crate::model;
use crate::rows;
use crate::text;

verus! {

/// Rows on the review screen.
pub const REVIEW_ROWS: usize = 4;

/// The two routes offered on the welcome screen.
pub const WELCOME_OPTIONS: [(&'static str, &'static str); 2] = [
    ("Set this repo up now", "three quick questions"),
    ("Copy settings from another repo", "reuse another repo's .wtm.toml"),
];

/// One row of a directory listing.
#[derive(Debug)]
pub struct BrowserEntry {
    pub name: String,
    pub path: String,
    pub is_dir: bool,
}

impl Clone for BrowserEntry {
    fn clone(&self) -> (r: Self)
        ensures
            r == *self,
    {
        BrowserEntry { name: self.name.clone(), path: self.path.clone(), is_dir: self.is_dir }
    }
}

/// Navigable directory listing for picking a settings file: all subdirectories
/// plus `.toml` files.
#[derive(Debug)]
pub struct FileBrowser {
    pub dir: String,
    pub entries: Vec<BrowserEntry>,
    pub selected: usize,
}

/// What the file browser shows.
pub struct BrowserView {
    pub dir: Seq<char>,
    pub entries: Seq<BrowserEntry>,
    pub selected: int,
}

impl View for FileBrowser {
    type V = BrowserView;

    open spec fn view(&self) -> BrowserView {
        BrowserView { dir: self.dir@, entries: self.entries@, selected: self.selected as int }
    }
}

/// Whether a directory entry is listed: directories and `.toml` files are.
pub open spec fn listed(e: BrowserEntry) -> bool {
    e.is_dir || text::ends(e.name@, ".toml"@)
}

/// The text by which an entry is sorted: directories first, then by name.
pub open spec fn sort_key(e: BrowserEntry) -> Seq<char> {
    seq![
        if e.is_dir {
            '0'
        } else {
            '1'
        },
    ] + e.name@
}

/// The sort keys of a list of entries.
pub open spec fn sort_keys_of(items: Seq<BrowserEntry>) -> Seq<Seq<char>> {
    items.map_values(|e: BrowserEntry| sort_key(e))
}

/// Those of the entries at the first `n` positions of `order` that are listed.
pub open spec fn listing_of(items: Seq<BrowserEntry>, order: Seq<int>, n: int) -> Seq<BrowserEntry>
    decreases n,
{
    if n <= 0 {
        Seq::empty()
    } else {
        let above = listing_of(items, order, n - 1);
        let e = items[order[n - 1]];
        if listed(e) {
            above.push(e)
        } else {
            above
        }
    }
}

/// The listing of a directory that holds `items`: directories and `.toml`
/// files, directories first, each group by name.
pub open spec fn listing(items: Seq<BrowserEntry>) -> Seq<BrowserEntry> {
    listing_of(items, rows::by_path(sort_keys_of(items)), items.len() as int)
}

/// Lists what a directory holds: directories and `.toml` files, directories
/// first, each group by name.
pub fn read_entries(items: &Vec<BrowserEntry>) -> (r: Vec<BrowserEntry>)
    ensures
        r@ == listing(items@),
{
    let mut keys: Vec<Vec<char>> = Vec::new();
    let mut i: usize = 0;
    while i < items.len()
        invariant
            i <= items@.len(),
            rows::spelled(keys@) == sort_keys_of(items@).take(i as int),
        decreases items@.len() - i,
    {
        let ghost before = keys@;
        let mut key = text::chars_of(items[i].name.as_str());
        key.insert(
            0,
            if items[i].is_dir {
                '0'
            } else {
                '1'
            },
        );
        assert(key@ =~= sort_key(items@[i as int]));
        keys.push(key);
        assert(rows::spelled(keys@) =~= rows::spelled(before).push(key@));
        assert(sort_keys_of(items@).take(i + 1) =~= sort_keys_of(items@).take(i as int).push(
            sort_key(items@[i as int]),
        ));
        i += 1;
    }
    assert(sort_keys_of(items@).take(items@.len() as int) =~= sort_keys_of(items@));
    let order = rows::sort_keys(&keys);
    let ghost o = rows::ints(order@);
    assert(rows::spelled(keys@).len() == keys@.len());
    let mut r: Vec<BrowserEntry> = Vec::new();
    let mut n: usize = 0;
    while n < order.len()
        invariant
            o == rows::ints(order@),
            order@.len() == items@.len(),
            rows::is_order(sort_keys_of(items@), o),
            n <= order@.len(),
            r@ == listing_of(items@, o, n as int),
        decreases order@.len() - n,
    {
        assert(o[n as int] == order@[n as int]);
        let e = &items[order[n]];
        if e.is_dir || text::ends_with(e.name.as_str(), ".toml") {
            r.push(e.clone());
        }
        n += 1;
    }
    r
}

impl FileBrowser {
    /// A browser on `dir`, which holds `items`, with the first row selected.
    pub fn new(dir: String, items: &Vec<BrowserEntry>) -> (r: FileBrowser)
        ensures
            r@ == (BrowserView { dir: dir@, entries: listing(items@), selected: 0 }),
    {
        FileBrowser { dir, entries: read_entries(items), selected: 0 }
    }

    /// The directory that the selected row leads into; none on a file or an
    /// empty listing.
    pub fn descend(&self) -> (r: Option<String>)
        ensures
            match r {
                Some(d) => self.selected < self.entries@.len()
                    && self.entries@[self.selected as int].is_dir && d
                    == self.entries@[self.selected as int].path,
                None => self.selected >= self.entries@.len()
                    || !self.entries@[self.selected as int].is_dir,
            },
    {
        if self.selected < self.entries.len() && self.entries[self.selected].is_dir {
            Some(self.entries[self.selected].path.clone())
        } else {
            None
        }
    }

    /// Moves to the directory above, or another one, which is given with what it
    /// holds; stays where it is when there is none, as at the root.
    pub fn parent(&mut self, above: Option<(String, Vec<BrowserEntry>)>)
        ensures
            final(self)@ == match above {
                Some((dir, items)) => BrowserView {
                    dir: dir@,
                    entries: listing(items@),
                    selected: 0,
                },
                None => old(self)@,
            },
    {
        if let Some((dir, items)) = above {
            *self = FileBrowser::new(dir, &items);
        }
    }
}

/// Which wizard screen is showing.
#[derive(Debug)]
pub enum Step {
    /// Which of the two routes to take.
    Welcome { selected: usize },
    /// Typed path to a repository or a settings file to copy from.
    ClonePath { input: TextInput },
    /// File browser in place of typing the path.
    CloneBrowse { browser: FileBrowser, prior_input: TextInput },
    /// Where new worktrees go: the presets plus "somewhere else".
    Location { selected: usize },
    /// Typed path for "somewhere else".
    LocationCustom { input: TextInput },
    /// Comma-separated files to copy into new worktrees.
    CopyFiles { input: TextInput },
    /// Setup commands, entered one per line until a blank one.
    RunCommands { commands: Vec<String>, input: TextInput },
    /// Editable summary of the draft; the last row writes the file.
    Review { selected: usize, editing: Option<TextInput> },
}

/// What a wizard screen shows.
pub enum StepView {
    Welcome { selected: int },
    ClonePath { input: TextState },
    CloneBrowse { browser: BrowserView, prior_input: TextState },
    Location { selected: int },
    LocationCustom { input: TextState },
    CopyFiles { input: TextState },
    RunCommands { commands: Seq<Seq<char>>, input: TextState },
    Review { selected: int, editing: Option<TextState> },
}

impl View for Step {
    type V = StepView;

    open spec fn view(&self) -> StepView {
        match self {
            Step::Welcome { selected } => StepView::Welcome { selected: *selected as int },
            Step::ClonePath { input } => StepView::ClonePath { input: input@ },
            Step::CloneBrowse { browser, prior_input } => StepView::CloneBrowse {
                browser: browser@,
                prior_input: prior_input@,
            },
            Step::Location { selected } => StepView::Location { selected: *selected as int },
            Step::LocationCustom { input } => StepView::LocationCustom { input: input@ },
            Step::CopyFiles { input } => StepView::CopyFiles { input: input@ },
            Step::RunCommands { commands, input } => StepView::RunCommands {
                commands: text::views(commands@),
                input: input@,
            },
            Step::Review { selected, editing } => StepView::Review {
                selected: *selected as int,
                editing: match editing {
                    Some(t) => Some(t@),
                    None => None,
                },
            },
        }
    }
}

impl Step {
    /// A short name for the screen.
    pub fn name(&self) -> (r: &'static str)
        ensures
            r@ == match self@ {
                StepView::Welcome { .. } => "welcome"@,
                StepView::ClonePath { .. } => "clone path"@,
                StepView::CloneBrowse { .. } => "clone browser"@,
                StepView::Location { .. } => "location"@,
                StepView::LocationCustom { .. } => "location path"@,
                StepView::CopyFiles { .. } => "copy files"@,
                StepView::RunCommands { .. } => "run commands"@,
                StepView::Review { .. } => "review"@,
            },
    {
        match self {
            Step::Welcome { .. } => "welcome",
            Step::ClonePath { .. } => "clone path",
            Step::CloneBrowse { .. } => "clone browser",
            Step::Location { .. } => "location",
            Step::LocationCustom { .. } => "location path",
            Step::CopyFiles { .. } => "copy files",
            Step::RunCommands { .. } => "run commands",
            Step::Review { .. } => "review",
        }
    }
}

/// What the wizard needs read before it can go on.
#[derive(Debug)]
pub enum WizardAsk {
    /// The listing of the directory above the repository, or of the repository
    /// itself when nothing is above it.
    BrowseStart,
    /// The listing of the directory above `dir`; nowhere at the root.
    BrowseUp { dir: String },
    /// The listing of `dir`.
    BrowseInto { dir: String },
    /// The settings found at `path`.
    LoadClone { path: String },
    /// The local files of the repository worth copying.
    SuggestCopy,
    /// The setup commands that the repository's files call for.
    SuggestRun,
}

/// What the wizard asks for.
pub enum AskView {
    BrowseStart,
    BrowseUp { dir: Seq<char> },
    BrowseInto { dir: Seq<char> },
    LoadClone { path: Seq<char> },
    SuggestCopy,
    SuggestRun,
}

impl View for WizardAsk {
    type V = AskView;

    open spec fn view(&self) -> AskView {
        match self {
            WizardAsk::BrowseStart => AskView::BrowseStart,
            WizardAsk::BrowseUp { dir } => AskView::BrowseUp { dir: dir@ },
            WizardAsk::BrowseInto { dir } => AskView::BrowseInto { dir: dir@ },
            WizardAsk::LoadClone { path } => AskView::LoadClone { path: path@ },
            WizardAsk::SuggestCopy => AskView::SuggestCopy,
            WizardAsk::SuggestRun => AskView::SuggestRun,
        }
    }
}

/// What a key press did, for the app to act on.
#[derive(Debug)]
pub enum WizardOutcome {
    Continue,
    /// The draft is final; write it and enter the normal list view.
    Done,
    Quit,
    /// Something has to be read first.
    Ask(WizardAsk),
}

/// What a key press did.
pub enum OutcomeView {
    Continue,
    Done,
    Quit,
    Ask(AskView),
}

impl View for WizardOutcome {
    type V = OutcomeView;

    open spec fn view(&self) -> OutcomeView {
        match self {
            WizardOutcome::Continue => OutcomeView::Continue,
            WizardOutcome::Done => OutcomeView::Done,
            WizardOutcome::Quit => OutcomeView::Quit,
            WizardOutcome::Ask(a) => OutcomeView::Ask(a@),
        }
    }
}

/// State of the first-run setup wizard.
#[derive(Debug)]
pub struct SetupWizard {
    pub repo_root: String,
    pub step: Step,
    /// The answers so far; written as the settings file when the wizard ends.
    pub draft: ConfigDraft,
    /// Whether the draft came from another repository.
    pub cloned: bool,
    /// The path last given for the settings to take over.
    pub clone_path: String,
    /// The location that was being typed when its question was left, as long as
    /// none was chosen since.
    pub typed_location: Option<String>,
    /// The text last left in the copy-files question, so that an answer that was
    /// cleared is not replaced by suggestions again.
    pub copy_answer: Option<String>,
    /// Whether the commands question has been answered, or left with what was
    /// entered so far.
    pub run_answered: bool,
    /// The line that was being typed when the commands question was left.
    pub run_line: String,
}

/// What the wizard holds.
pub struct WizardView {
    pub repo_root: Seq<char>,
    pub step: StepView,
    pub draft: DraftView,
    pub cloned: bool,
    pub clone_path: Seq<char>,
    pub typed_location: Option<Seq<char>>,
    pub copy_answer: Option<Seq<char>>,
    pub run_answered: bool,
    pub run_line: Seq<char>,
}

impl View for SetupWizard {
    type V = WizardView;

    open spec fn view(&self) -> WizardView {
        WizardView {
            repo_root: self.repo_root@,
            step: self.step@,
            draft: self.draft@,
            cloned: self.cloned,
            clone_path: self.clone_path@,
            typed_location: model::opt(self.typed_location),
            copy_answer: match self.copy_answer {
                Some(s) => Some(s@),
                None => None,
            },
            run_answered: self.run_answered,
            run_line: self.run_line@,
        }
    }
}

/// `text`, or the default location when it is blank.
pub open spec fn location_or_default(t: Seq<char>) -> Seq<char> {
    if text::trimmed(t).len() == 0 {
        DEFAULT_LOCATION@
    } else {
        text::trimmed(t)
    }
}

/// How a list is shown in a text field.
pub open spec fn shown_list(items: Seq<Seq<char>>) -> Seq<char> {
    text::join(items, ", "@)
}

impl WizardView {
    /// The wizard as it starts, on the welcome screen.
    pub open spec fn welcome(repo_root: Seq<char>) -> WizardView {
        WizardView {
            repo_root,
            step: StepView::Welcome { selected: 0 },
            draft: DraftView {
                worktree_dir: DEFAULT_LOCATION@,
                copy: Seq::empty(),
                run: Seq::empty(),
            },
            cloned: false,
            clone_path: Seq::empty(),
            typed_location: None,
            copy_answer: None,
            run_answered: false,
            run_line: Seq::empty(),
        }
    }

    /// The wizard on another screen.
    pub open spec fn at(self, step: StepView) -> WizardView {
        WizardView { step, ..self }
    }

    /// The wizard with a location chosen.
    pub open spec fn located(self, dir: Seq<char>) -> WizardView {
        WizardView {
            draft: DraftView { worktree_dir: dir, ..self.draft },
            typed_location: None,
            ..self
        }
    }

    /// Entering the typed-location question: with the text it was left with, or
    /// the location chosen so far.
    pub open spec fn to_location_custom(self) -> WizardView {
        self.at(
            StepView::LocationCustom {
                input: TextState::filled(
                    match self.typed_location {
                        Some(t) => t,
                        None => self.draft.worktree_dir,
                    },
                ),
            },
        )
    }

    /// Entering the copy-files question: with the answer already given, or after
    /// asking for suggestions.
    pub open spec fn to_copy_files(self) -> (WizardView, OutcomeView) {
        match self.copy_answer {
            Some(a) => (
                self.at(StepView::CopyFiles { input: TextState::filled(a) }),
                OutcomeView::Continue,
            ),
            None => (self, OutcomeView::Ask(AskView::SuggestCopy)),
        }
    }

    /// Entering the commands question: with the commands already answered, or
    /// after asking for suggestions.
    pub open spec fn to_run_commands(self) -> (WizardView, OutcomeView) {
        if self.run_answered {
            (
                self.at(
                    StepView::RunCommands {
                        commands: self.draft.run,
                        input: TextState::filled(self.run_line),
                    },
                ),
                OutcomeView::Continue,
            )
        } else {
            (self, OutcomeView::Ask(AskView::SuggestRun))
        }
    }

    /// The wizard with an edited review row stored in the draft. Editing a row
    /// counts as answering its question.
    pub open spec fn reviewed(self, row: int, buf: Seq<char>) -> WizardView {
        if row == 0 {
            self.located(location_or_default(buf))
        } else if row == 1 {
            WizardView {
                draft: DraftView { copy: config::list_items(buf), ..self.draft },
                copy_answer: Some(buf),
                ..self
            }
        } else if row == 2 {
            WizardView {
                draft: DraftView { run: config::list_items(buf), ..self.draft },
                run_answered: true,
                ..self
            }
        } else {
            self
        }
    }

    /// Entering the clone route, with the path last given.
    pub open spec fn to_clone_path(self) -> WizardView {
        self.at(StepView::ClonePath { input: TextState::filled(self.clone_path) })
    }

    /// Entering the question route, where the answers are this repository's own.
    pub open spec fn to_questions(self) -> WizardView {
        WizardView { cloned: false, step: StepView::Location { selected: 0 }, ..self }
    }

    /// The welcome screen after a key.
    pub open spec fn on_welcome(self, selected: int, code: KeyCode) -> (WizardView, OutcomeView) {
        match code {
            KeyCode::Down | KeyCode::Right | KeyCode::Tab | KeyCode::Char('j') | KeyCode::Char(
                'l',
            ) => (
                self.at(StepView::Welcome { selected: input::least(selected + 1, 1) }),
                OutcomeView::Continue,
            ),
            KeyCode::Up | KeyCode::Left | KeyCode::Char('k') | KeyCode::Char('h') => (
                self.at(
                    StepView::Welcome {
                        selected: if selected > 0 {
                            selected - 1
                        } else {
                            0
                        },
                    },
                ),
                OutcomeView::Continue,
            ),
            KeyCode::Char('1') => (self.to_questions(), OutcomeView::Continue),
            KeyCode::Char('2') => (self.to_clone_path(), OutcomeView::Continue),
            KeyCode::Enter => (
                if selected == 0 {
                    self.to_questions()
                } else {
                    self.to_clone_path()
                },
                OutcomeView::Continue,
            ),
            KeyCode::Esc | KeyCode::Char('q') => (self, OutcomeView::Quit),
            _ => (self, OutcomeView::Continue),
        }
    }

    /// The clone-path screen after a key.
    pub open spec fn on_clone_path(self, field: TextState, code: KeyCode) -> (
        WizardView,
        OutcomeView,
    ) {
        match code {
            KeyCode::Esc => (
                WizardView {
                    clone_path: field.value,
                    step: StepView::Welcome { selected: 1 },
                    ..self
                },
                OutcomeView::Continue,
            ),
            KeyCode::Tab => (self, OutcomeView::Ask(AskView::BrowseStart)),
            KeyCode::Enter => (
                WizardView { clone_path: field.value, ..self },
                OutcomeView::Ask(AskView::LoadClone { path: field.value }),
            ),
            _ => (
                self.at(StepView::ClonePath { input: field.after(code) }),
                OutcomeView::Continue,
            ),
        }
    }

    /// The file browser after a key.
    pub open spec fn on_clone_browse(
        self,
        browser: BrowserView,
        prior: TextState,
        code: KeyCode,
    ) -> (WizardView, OutcomeView) {
        match code {
            KeyCode::Esc | KeyCode::Char('q') => (
                self.at(StepView::ClonePath { input: prior }),
                OutcomeView::Continue,
            ),
            KeyCode::Down | KeyCode::Char('j') => (
                self.at(
                    StepView::CloneBrowse {
                        browser: BrowserView {
                            selected: if browser.selected + 1 < browser.entries.len() {
                                browser.selected + 1
                            } else {
                                browser.selected
                            },
                            ..browser
                        },
                        prior_input: prior,
                    },
                ),
                OutcomeView::Continue,
            ),
            KeyCode::Up | KeyCode::Char('k') => (
                self.at(
                    StepView::CloneBrowse {
                        browser: BrowserView {
                            selected: if browser.selected > 0 {
                                browser.selected - 1
                            } else {
                                0
                            },
                            ..browser
                        },
                        prior_input: prior,
                    },
                ),
                OutcomeView::Continue,
            ),
            KeyCode::Backspace | KeyCode::Left | KeyCode::Char('h') => (
                self,
                OutcomeView::Ask(AskView::BrowseUp { dir: browser.dir }),
            ),
            KeyCode::Enter => if 0 <= browser.selected < browser.entries.len() {
                let e = browser.entries[browser.selected];
                if e.is_dir {
                    (self, OutcomeView::Ask(AskView::BrowseInto { dir: e.path@ }))
                } else {
                    (
                        WizardView { clone_path: e.path@, ..self },
                        OutcomeView::Ask(AskView::LoadClone { path: e.path@ }),
                    )
                }
            } else {
                (self, OutcomeView::Continue)
            },
            _ => (self, OutcomeView::Continue),
        }
    }

    /// The location screen after a key.
    pub open spec fn on_location(self, selected: int, code: KeyCode) -> (WizardView, OutcomeView) {
        match code {
            KeyCode::Esc => (self.at(StepView::Welcome { selected: 0 }), OutcomeView::Continue),
            KeyCode::Down | KeyCode::Char('j') => (
                self.at(StepView::Location { selected: input::least(selected + 1, 3) }),
                OutcomeView::Continue,
            ),
            KeyCode::Up | KeyCode::Char('k') => (
                self.at(
                    StepView::Location {
                        selected: if selected > 0 {
                            selected - 1
                        } else {
                            0
                        },
                    },
                ),
                OutcomeView::Continue,
            ),
            KeyCode::Enter => if 0 <= selected < 3 {
                self.located(LOCATION_PRESETS[selected].0@).to_copy_files()
            } else {
                (self.to_location_custom(), OutcomeView::Continue)
            },
            _ => (self, OutcomeView::Continue),
        }
    }

    /// The typed-location screen after a key.
    pub open spec fn on_location_custom(self, field: TextState, code: KeyCode) -> (
        WizardView,
        OutcomeView,
    ) {
        match code {
            KeyCode::Esc => (
                WizardView {
                    typed_location: Some(field.value),
                    step: StepView::Location { selected: 3 },
                    ..self
                },
                OutcomeView::Continue,
            ),
            KeyCode::Enter => self.located(location_or_default(field.value)).to_copy_files(),
            _ => (
                self.at(StepView::LocationCustom { input: field.after(code) }),
                OutcomeView::Continue,
            ),
        }
    }

    /// The copy-files question after a key.
    pub open spec fn on_copy_files(self, field: TextState, code: KeyCode) -> (
        WizardView,
        OutcomeView,
    ) {
        match code {
            KeyCode::Esc => (
                WizardView {
                    copy_answer: Some(field.value),
                    step: StepView::Location { selected: 0 },
                    ..self
                },
                OutcomeView::Continue,
            ),
            KeyCode::Enter => WizardView {
                draft: DraftView { copy: config::list_items(field.value), ..self.draft },
                copy_answer: Some(field.value),
                ..self
            }.to_run_commands(),
            _ => (
                self.at(StepView::CopyFiles { input: field.after(code) }),
                OutcomeView::Continue,
            ),
        }
    }

    /// The commands question after a key.
    pub open spec fn on_run_commands(
        self,
        commands: Seq<Seq<char>>,
        field: TextState,
        code: KeyCode,
    ) -> (WizardView, OutcomeView) {
        if code is Esc {
            WizardView {
                draft: DraftView { run: commands, ..self.draft },
                run_answered: true,
                run_line: field.value,
                ..self
            }.to_copy_files()
        } else if code is Backspace && field.value.len() == 0 {
            (
                self.at(
                    if commands.len() > 0 {
                        StepView::RunCommands {
                            commands: commands.drop_last(),
                            input: TextState::filled(commands.last()),
                        }
                    } else {
                        StepView::RunCommands { commands, input: TextState::filled(Seq::empty()) }
                    },
                ),
                OutcomeView::Continue,
            )
        } else if code is Enter {
            let cmd = text::trimmed(field.value);
            if cmd.len() == 0 {
                (
                    WizardView {
                        draft: DraftView { run: commands, ..self.draft },
                        cloned: false,
                        run_answered: true,
                        run_line: Seq::empty(),
                        step: StepView::Review { selected: 0, editing: None },
                        ..self
                    },
                    OutcomeView::Continue,
                )
            } else {
                (
                    self.at(
                        StepView::RunCommands {
                            commands: commands.push(cmd),
                            input: TextState::filled(Seq::empty()),
                        },
                    ),
                    OutcomeView::Continue,
                )
            }
        } else {
            (
                self.at(StepView::RunCommands { commands, input: field.after(code) }),
                OutcomeView::Continue,
            )
        }
    }

    /// The review screen after a key while a row is edited.
    pub open spec fn on_review_edit(self, selected: int, field: TextState, code: KeyCode) -> (
        WizardView,
        OutcomeView,
    ) {
        match code {
            KeyCode::Esc => (
                self.at(StepView::Review { selected, editing: None }),
                OutcomeView::Continue,
            ),
            KeyCode::Enter => (
                self.reviewed(selected, field.value).at(
                    StepView::Review { selected, editing: None },
                ),
                OutcomeView::Continue,
            ),
            _ => (
                self.at(StepView::Review { selected, editing: Some(field.after(code)) }),
                OutcomeView::Continue,
            ),
        }
    }

    /// The review screen after a key while no row is edited.
    pub open spec fn on_review(self, selected: int, code: KeyCode) -> (WizardView, OutcomeView) {
        match code {
            KeyCode::Esc => if self.cloned {
                (self.to_clone_path(), OutcomeView::Continue)
            } else {
                self.to_run_commands()
            },
            KeyCode::Down | KeyCode::Char('j') => (
                self.at(
                    StepView::Review { selected: input::least(selected + 1, 3), editing: None },
                ),
                OutcomeView::Continue,
            ),
            KeyCode::Up | KeyCode::Char('k') => (
                self.at(
                    StepView::Review {
                        selected: if selected > 0 {
                            selected - 1
                        } else {
                            0
                        },
                        editing: None,
                    },
                ),
                OutcomeView::Continue,
            ),
            KeyCode::Enter => if selected == 3 {
                (self, OutcomeView::Done)
            } else {
                (
                    self.at(
                        StepView::Review {
                            selected,
                            editing: Some(
                                TextState::filled(
                                    if selected == 0 {
                                        self.draft.worktree_dir
                                    } else if selected == 1 {
                                        shown_list(self.draft.copy)
                                    } else {
                                        shown_list(self.draft.run)
                                    },
                                ),
                            ),
                        },
                    ),
                    OutcomeView::Continue,
                )
            },
            _ => (self, OutcomeView::Continue),
        }
    }

    /// The wizard after one key, and what the app has to do.
    pub open spec fn press(self, code: KeyCode) -> (WizardView, OutcomeView) {
        match self.step {
            StepView::Welcome { selected } => self.on_welcome(selected, code),
            StepView::ClonePath { input } => self.on_clone_path(input, code),
            StepView::CloneBrowse { browser, prior_input } => self.on_clone_browse(
                browser,
                prior_input,
                code,
            ),
            StepView::Location { selected } => self.on_location(selected, code),
            StepView::LocationCustom { input } => self.on_location_custom(input, code),
            StepView::CopyFiles { input } => self.on_copy_files(input, code),
            StepView::RunCommands { commands, input } => self.on_run_commands(
                commands,
                input,
                code,
            ),
            StepView::Review { selected, editing: Some(field) } => self.on_review_edit(
                selected,
                field,
                code,
            ),
            StepView::Review { selected, editing: None } => self.on_review(selected, code),
        }
    }

    /// The `step N of M` label. The clone route is shorter than answering the
    /// questions.
    pub open spec fn progress_label(self) -> Seq<char> {
        match self.step {
            StepView::Welcome { .. } => "welcome"@,
            StepView::ClonePath { .. } => "step 1 of 2"@,
            StepView::CloneBrowse { .. } => "step 1 of 2"@,
            StepView::Location { .. } => "step 1 of 4"@,
            StepView::LocationCustom { .. } => "step 1 of 4"@,
            StepView::CopyFiles { .. } => "step 2 of 4"@,
            StepView::RunCommands { .. } => "step 3 of 4"@,
            StepView::Review { .. } => if self.cloned {
                "step 2 of 2"@
            } else {
                "step 4 of 4"@
            },
        }
    }
}

/// An error as a status line.
pub open spec fn error_line(e: Seq<char>) -> Seq<char> {
    "error: "@ + e
}

/// A status line that a later error takes the place of.
pub open spec fn said(message: Option<Seq<char>>, error: Option<Seq<char>>) -> Option<Seq<char>> {
    match error {
        Some(e) => Some(e),
        None => message,
    }
}

/// What a directory holds, or why it could not be read.
#[derive(Debug)]
pub enum Listing {
    Read { dir: String, items: Vec<BrowserEntry> },
    /// There is no such directory: nothing is above the root.
    Nowhere,
    Failed(String),
}

/// The status line for a directory that could not be read.
pub open spec fn listing_error(l: Listing) -> Option<Seq<char>> {
    match l {
        Listing::Failed(e) => Some(error_line(e@)),
        _ => None,
    }
}

impl WizardView {
    /// With the file browser on a directory.
    pub open spec fn browse_started(self, l: Listing) -> WizardView {
        match (self.step, l) {
            (StepView::ClonePath { input }, Listing::Read { dir, items }) => self.at(
                StepView::CloneBrowse {
                    browser: BrowserView { dir: dir@, entries: listing(items@), selected: 0 },
                    prior_input: input,
                },
            ),
            _ => self,
        }
    }

    /// With the file browser on another directory.
    pub open spec fn browse_moved(self, l: Listing) -> WizardView {
        match (self.step, l) {
            (StepView::CloneBrowse { prior_input, .. }, Listing::Read { dir, items }) => self.at(
                StepView::CloneBrowse {
                    browser: BrowserView { dir: dir@, entries: listing(items@), selected: 0 },
                    prior_input,
                },
            ),
            _ => self,
        }
    }

    /// On the review screen with the settings of another repository.
    pub open spec fn clone_loaded(self, result: Result<ConfigDraft, String>) -> WizardView {
        match result {
            Ok(draft) => WizardView {
                draft: draft@,
                cloned: true,
                typed_location: None,
                step: StepView::Review { selected: 0, editing: None },
                ..self
            },
            Err(_) => self,
        }
    }

    /// At the copy-files question, prefilled with files.
    pub open spec fn copy_suggested(self, files: Seq<Seq<char>>) -> WizardView {
        self.at(StepView::CopyFiles { input: TextState::filled(shown_list(files)) })
    }

    /// At the commands question: the last suggestion sits in the input, the
    /// others go below what was answered before.
    pub open spec fn run_suggested(self, suggested: Seq<Seq<char>>) -> WizardView {
        self.at(
            if suggested.len() == 0 {
                StepView::RunCommands {
                    commands: self.draft.run,
                    input: TextState::filled(Seq::empty()),
                }
            } else {
                StepView::RunCommands {
                    commands: self.draft.run + suggested.drop_last(),
                    input: TextState::filled(suggested.last()),
                }
            },
        )
    }
}

impl SetupWizard {
    /// Starts the wizard on the welcome screen.
    pub fn new(repo_root: String) -> (r: SetupWizard)
        ensures
            r@ == WizardView::welcome(repo_root@),
    {
        let draft = ConfigDraft::default();
        assert(draft@.copy =~= Seq::<Seq<char>>::empty());
        assert(draft@.run =~= Seq::<Seq<char>>::empty());
        SetupWizard {
            repo_root,
            step: Step::Welcome { selected: 0 },
            draft,
            cloned: false,
            clone_path: String::new(),
            typed_location: None,
            copy_answer: None,
            run_answered: false,
            run_line: String::new(),
        }
    }

    /// A `step N of M` label for the panel title. The clone route is shorter
    /// than answering the questions.
    pub fn progress(&self) -> (r: String)
        ensures
            r@ == self@.progress_label(),
    {
        match &self.step {
            Step::Welcome { .. } => "welcome".to_string(),
            Step::ClonePath { .. } | Step::CloneBrowse { .. } => "step 1 of 2".to_string(),
            Step::Location { .. } | Step::LocationCustom { .. } => "step 1 of 4".to_string(),
            Step::CopyFiles { .. } => "step 2 of 4".to_string(),
            Step::RunCommands { .. } => "step 3 of 4".to_string(),
            Step::Review { .. } => if self.cloned {
                "step 2 of 2".to_string()
            } else {
                "step 4 of 4".to_string()
            },
        }
    }

    /// Handles one key press.
    pub fn on_key(&mut self, key: KeyEvent) -> (outcome: WizardOutcome)
        ensures
            (final(self)@, outcome@) == old(self)@.press(key.code),
    {
        let step = text::replace(&mut self.step, Step::Welcome { selected: 0 });
        let (next, outcome) = self.handle(step, key);
        self.step = next;
        outcome
    }

    /// The copy-files question with the answer already given, or the request
    /// for suggestions and `from` again.
    fn copy_files_step(&self, from: Step) -> (r: (Step, WizardOutcome))
        ensures
            (self@.at(r.0@), r.1@) == self@.at(from@).to_copy_files(),
    {
        match &self.copy_answer {
            Some(answer) => (
                Step::CopyFiles { input: TextInput::with_value(answer.clone()) },
                WizardOutcome::Continue,
            ),
            None => (from, WizardOutcome::Ask(WizardAsk::SuggestCopy)),
        }
    }

    /// The commands question with the commands already answered, or the request
    /// for suggestions and `from` again.
    fn run_commands_step(&self, from: Step) -> (r: (Step, WizardOutcome))
        ensures
            (self@.at(r.0@), r.1@) == self@.at(from@).to_run_commands(),
    {
        if self.run_answered {
            (
                Step::RunCommands {
                    commands: config::copy_strings(&self.draft.run),
                    input: TextInput::with_value(self.run_line.clone()),
                },
                WizardOutcome::Continue,
            )
        } else {
            (from, WizardOutcome::Ask(WizardAsk::SuggestRun))
        }
    }

    /// The path question of the clone route, with the path last given.
    fn clone_path_step(&self) -> (r: Step)
        ensures
            self@.at(r@) == self@.to_clone_path(),
    {
        Step::ClonePath { input: TextInput::with_value(self.clone_path.clone()) }
    }

    /// The typed-location question, with the text it was left with, or the
    /// location chosen so far.
    fn location_custom_step(&self) -> (r: Step)
        ensures
            self@.at(r@) == self@.to_location_custom(),
    {
        let value = match &self.typed_location {
            Some(t) => t.clone(),
            None => self.draft.worktree_dir.clone(),
        };
        Step::LocationCustom { input: TextInput::with_value(value) }
    }

    /// Stores the location chosen.
    fn choose_location(&mut self, dir: String)
        ensures
            final(self)@ == old(self)@.located(dir@),
            final(self).step == old(self).step,
    {
        self.draft.worktree_dir = dir;
        self.typed_location = None;
    }

    /// The first question, whose answer is this repository's own.
    fn location_step(&mut self) -> (r: Step)
        ensures
            final(self)@.at(r@) == old(self)@.to_questions(),
            final(self).step == old(self).step,
    {
        self.cloned = false;
        Step::Location { selected: 0 }
    }

    /// Handles one key press on `step`: the screen to show next and what the app
    /// has to do. The answers are kept in `self`.
    fn handle(&mut self, step: Step, key: KeyEvent) -> (r: (Step, WizardOutcome))
        ensures
            (final(self)@.at(r.0@), r.1@) == old(self)@.at(step@).press(key.code),
            final(self).step == old(self).step,
    {
        match step {
            Step::Welcome { selected } => match key.code {
                KeyCode::Down | KeyCode::Right | KeyCode::Tab | KeyCode::Char('j') | KeyCode::Char(
                    'l',
                ) => (Step::Welcome { selected: 1 }, WizardOutcome::Continue),
                KeyCode::Up | KeyCode::Left | KeyCode::Char('k') | KeyCode::Char('h') => (
                    Step::Welcome { selected: selected.saturating_sub(1) },
                    WizardOutcome::Continue,
                ),
                KeyCode::Char('1') => (self.location_step(), WizardOutcome::Continue),
                KeyCode::Char('2') => (self.clone_path_step(), WizardOutcome::Continue),
                KeyCode::Enter => if selected == 0 {
                    (self.location_step(), WizardOutcome::Continue)
                } else {
                    (self.clone_path_step(), WizardOutcome::Continue)
                },
                KeyCode::Esc | KeyCode::Char('q') => (
                    Step::Welcome { selected },
                    WizardOutcome::Quit,
                ),
                _ => (Step::Welcome { selected }, WizardOutcome::Continue),
            },
            Step::ClonePath { mut input } => match key.code {
                KeyCode::Esc => {
                    self.clone_path = input.value;
                    (Step::Welcome { selected: 1 }, WizardOutcome::Continue)
                },
                KeyCode::Tab => (
                    Step::ClonePath { input },
                    WizardOutcome::Ask(WizardAsk::BrowseStart),
                ),
                KeyCode::Enter => {
                    let path = input.value.clone();
                    self.clone_path = path.clone();
                    (
                        Step::ClonePath { input },
                        WizardOutcome::Ask(WizardAsk::LoadClone { path }),
                    )
                },
                _ => {
                    input.on_key(key);
                    (Step::ClonePath { input }, WizardOutcome::Continue)
                },
            },
            Step::CloneBrowse { mut browser, prior_input } => match key.code {
                KeyCode::Esc | KeyCode::Char('q') => (
                    Step::ClonePath { input: prior_input },
                    WizardOutcome::Continue,
                ),
                KeyCode::Down | KeyCode::Char('j') => {
                    let n: usize = browser.entries.len();
                    if n > 0 && browser.selected < n - 1 {
                        browser.selected = browser.selected + 1;
                    }
                    (Step::CloneBrowse { browser, prior_input }, WizardOutcome::Continue)
                },
                KeyCode::Up | KeyCode::Char('k') => {
                    browser.selected = browser.selected.saturating_sub(1);
                    (Step::CloneBrowse { browser, prior_input }, WizardOutcome::Continue)
                },
                KeyCode::Backspace | KeyCode::Left | KeyCode::Char('h') => {
                    let dir = browser.dir.clone();
                    (
                        Step::CloneBrowse { browser, prior_input },
                        WizardOutcome::Ask(WizardAsk::BrowseUp { dir }),
                    )
                },
                KeyCode::Enter => {
                    if browser.selected >= browser.entries.len() {
                        return (
                            Step::CloneBrowse { browser, prior_input },
                            WizardOutcome::Continue,
                        );
                    }
                    let ask = match browser.descend() {
                        Some(dir) => WizardAsk::BrowseInto { dir },
                        None => {
                            let path = browser.entries[browser.selected].path.clone();
                            self.clone_path = path.clone();
                            WizardAsk::LoadClone { path }
                        },
                    };
                    (Step::CloneBrowse { browser, prior_input }, WizardOutcome::Ask(ask))
                },
                _ => (Step::CloneBrowse { browser, prior_input }, WizardOutcome::Continue),
            },
            Step::Location { selected } => match key.code {
                KeyCode::Esc => (Step::Welcome { selected: 0 }, WizardOutcome::Continue),
                KeyCode::Down | KeyCode::Char('j') => (
                    Step::Location {
                        selected: if selected < 3 {
                            selected + 1
                        } else {
                            3
                        },
                    },
                    WizardOutcome::Continue,
                ),
                KeyCode::Up | KeyCode::Char('k') => (
                    Step::Location { selected: selected.saturating_sub(1) },
                    WizardOutcome::Continue,
                ),
                KeyCode::Enter => {
                    if selected < 3 {
                        self.choose_location(LOCATION_PRESETS[selected].0.to_string());
                        self.copy_files_step(Step::Location { selected })
                    } else {
                        (self.location_custom_step(), WizardOutcome::Continue)
                    }
                },
                _ => (Step::Location { selected }, WizardOutcome::Continue),
            },
            Step::LocationCustom { mut input } => match key.code {
                KeyCode::Esc => {
                    self.typed_location = Some(input.value);
                    (Step::Location { selected: 3 }, WizardOutcome::Continue)
                },
                KeyCode::Enter => {
                    self.choose_location(location_value(input.as_str()));
                    self.copy_files_step(Step::LocationCustom { input })
                },
                _ => {
                    input.on_key(key);
                    (Step::LocationCustom { input }, WizardOutcome::Continue)
                },
            },
            Step::CopyFiles { mut input } => match key.code {
                KeyCode::Esc => {
                    self.copy_answer = Some(input.value);
                    (Step::Location { selected: 0 }, WizardOutcome::Continue)
                },
                KeyCode::Enter => {
                    self.draft.copy = config::split_list(input.as_str());
                    self.copy_answer = Some(input.value.clone());
                    self.run_commands_step(Step::CopyFiles { input })
                },
                _ => {
                    input.on_key(key);
                    (Step::CopyFiles { input }, WizardOutcome::Continue)
                },
            },
            Step::RunCommands { mut commands, mut input } => match key.code {
                KeyCode::Esc => {
                    self.draft.run = config::copy_strings(&commands);
                    self.run_answered = true;
                    self.run_line = input.value.clone();
                    self.copy_files_step(Step::RunCommands { commands, input })
                },
                KeyCode::Backspace if input.len() == 0 => {
                    let ghost before = commands@;
                    match commands.pop() {
                        Some(restored) => {
                            assert(text::views(commands@) =~= text::views(before).drop_last());
                            (
                                Step::RunCommands {
                                    commands,
                                    input: TextInput::with_value(restored),
                                },
                                WizardOutcome::Continue,
                            )
                        },
                        None => {
                            assert(text::views(commands@) =~= text::views(before));
                            (
                                Step::RunCommands { commands, input: TextInput::new() },
                                WizardOutcome::Continue,
                            )
                        },
                    }
                },
                KeyCode::Enter => {
                    let cmd = input.trimmed();
                    if cmd.as_str().unicode_len() == 0 {
                        self.draft.run = commands;
                        self.cloned = false;
                        self.run_answered = true;
                        self.run_line = String::new();
                        (Step::Review { selected: 0, editing: None }, WizardOutcome::Continue)
                    } else {
                        let ghost before = commands@;
                        commands.push(cmd);
                        assert(text::views(commands@) =~= text::views(before).push(cmd@));
                        (
                            Step::RunCommands { commands, input: TextInput::new() },
                            WizardOutcome::Continue,
                        )
                    }
                },
                _ => {
                    input.on_key(key);
                    (Step::RunCommands { commands, input }, WizardOutcome::Continue)
                },
            },
            Step::Review { selected, editing: Some(mut buf) } => match key.code {
                KeyCode::Esc => (
                    Step::Review { selected, editing: None },
                    WizardOutcome::Continue,
                ),
                KeyCode::Enter => {
                    self.commit_review_edit(selected, buf.as_str());
                    (Step::Review { selected, editing: None }, WizardOutcome::Continue)
                },
                _ => {
                    buf.on_key(key);
                    (Step::Review { selected, editing: Some(buf) }, WizardOutcome::Continue)
                },
            },
            Step::Review { selected, editing: None } => match key.code {
                KeyCode::Esc => if self.cloned {
                    (self.clone_path_step(), WizardOutcome::Continue)
                } else {
                    self.run_commands_step(Step::Review { selected, editing: None })
                },
                KeyCode::Down | KeyCode::Char('j') => (
                    Step::Review {
                        selected: if selected < 3 {
                            selected + 1
                        } else {
                            3
                        },
                        editing: None,
                    },
                    WizardOutcome::Continue,
                ),
                KeyCode::Up | KeyCode::Char('k') => (
                    Step::Review { selected: selected.saturating_sub(1), editing: None },
                    WizardOutcome::Continue,
                ),
                KeyCode::Enter => {
                    if selected == REVIEW_ROWS - 1 {
                        return (Step::Review { selected, editing: None }, WizardOutcome::Done);
                    }
                    let current = if selected == 0 {
                        self.draft.worktree_dir.clone()
                    } else if selected == 1 {
                        text::join_with(&self.draft.copy, ", ")
                    } else {
                        text::join_with(&self.draft.run, ", ")
                    };
                    (
                        Step::Review { selected, editing: Some(TextInput::with_value(current)) },
                        WizardOutcome::Continue,
                    )
                },
                _ => (Step::Review { selected, editing: None }, WizardOutcome::Continue),
            },
        }
    }

    /// Stores an edited review row in the draft. An edit counts as answering the
    /// matching question.
    fn commit_review_edit(&mut self, row: usize, buf: &str)
        ensures
            final(self)@ == old(self)@.reviewed(row as int, buf@),
            final(self).step == old(self).step,
    {
        match row {
            0 => {
                self.choose_location(location_value(buf));
            },
            1 => {
                self.draft.copy = config::split_list(buf);
                self.copy_answer = Some(buf.to_string());
            },
            2 => {
                self.draft.run = config::split_list(buf);
                self.run_answered = true;
            },
            _ => {},
        }
    }

    /// Takes the listing that `WizardAsk::BrowseStart` asked for: the file
    /// browser on it, or the error in `message`.
    pub fn browse_started(&mut self, result: Listing, message: &mut Option<String>)
        ensures
            final(self)@ == old(self)@.browse_started(result),
            model::opt(*final(message)) == said(model::opt(*old(message)), listing_error(result)),
    {
        match result {
            Listing::Read { dir, items } => {
                if let Step::ClonePath { input } = &mut self.step {
                    let prior_input = text::replace(input, TextInput::new());
                    self.step = Step::CloneBrowse {
                        browser: FileBrowser::new(dir, &items),
                        prior_input,
                    };
                }
            },
            Listing::Nowhere => {},
            Listing::Failed(e) => {
                *message = Some(text::cat2("error: ", e.as_str()));
            },
        }
    }

    /// Takes the listing that `WizardAsk::BrowseUp` or `WizardAsk::BrowseInto`
    /// asked for: the browser moves there, or the error lands in `message`.
    pub fn browse_moved(&mut self, result: Listing, message: &mut Option<String>)
        ensures
            final(self)@ == old(self)@.browse_moved(result),
            model::opt(*final(message)) == said(model::opt(*old(message)), listing_error(result)),
    {
        match result {
            Listing::Read { dir, items } => {
                if let Step::CloneBrowse { browser, .. } = &mut self.step {
                    browser.parent(Some((dir, items)));
                }
            },
            Listing::Nowhere => {},
            Listing::Failed(e) => {
                *message = Some(text::cat2("error: ", e.as_str()));
            },
        }
    }

    /// Takes the settings that `WizardAsk::LoadClone` asked for: on to the
    /// review screen with them, or the error in `message`.
    pub fn clone_loaded(
        &mut self,
        result: Result<ConfigDraft, String>,
        message: &mut Option<String>,
    )
        ensures
            final(self)@ == old(self)@.clone_loaded(result),
            model::opt(*final(message)) == said(
                model::opt(*old(message)),
                match result {
                    Ok(_) => None,
                    Err(e) => Some(error_line(e@)),
                },
            ),
    {
        match result {
            Ok(draft) => {
                self.draft = draft;
                self.cloned = true;
                self.typed_location = None;
                self.step = Step::Review { selected: 0, editing: None };
            },
            Err(e) => {
                *message = Some(text::cat2("error: ", e.as_str()));
            },
        }
    }

    /// Takes the files that `WizardAsk::SuggestCopy` asked for: on to the
    /// copy-files question, prefilled with them.
    pub fn copy_suggested(&mut self, files: &Vec<String>)
        ensures
            final(self)@ == old(self)@.copy_suggested(text::views(files@)),
    {
        let value = text::join_with(files, ", ");
        self.step = Step::CopyFiles { input: TextInput::with_value(value) };
    }

    /// Takes the commands that `WizardAsk::SuggestRun` asked for: on to the
    /// commands question. The last suggestion sits in the input, where it can be
    /// edited or cleared; the others go below what was answered before.
    pub fn run_suggested(&mut self, suggested: &Vec<String>)
        ensures
            final(self)@ == old(self)@.run_suggested(text::views(suggested@)),
    {
        let mut commands = config::copy_strings(&self.draft.run);
        let n: usize = suggested.len();
        if n == 0 {
            self.step = Step::RunCommands { commands, input: TextInput::new() };
            return;
        }
        let ghost answered = text::views(commands@);
        let ghost more = text::views(suggested@).drop_last();
        let mut i: usize = 0;
        assert(answered + more.take(0) =~= answered);
        while i < n - 1
            invariant
                n == suggested@.len(),
                more == text::views(suggested@).drop_last(),
                i <= n - 1,
                text::views(commands@) == answered + more.take(i as int),
            decreases n - i,
        {
            let ghost before = commands@;
            commands.push(suggested[i].clone());
            assert(text::views(commands@) =~= text::views(before).push(suggested@[i as int]@));
            assert(answered + more.take(i + 1) =~= (answered + more.take(i as int)).push(
                more[i as int],
            ));
            i += 1;
        }
        assert(more.take(more.len() as int) =~= more);
        self.step = Step::RunCommands {
            commands,
            input: TextInput::with_value(suggested[n - 1].clone()),
        };
    }
}

/// `value` without white space around it, or the default location when blank.
fn location_value(value: &str) -> (r: String)
    ensures
        r@ == location_or_default(value@),
{
    let t = text::trim(value);
    if t.as_str().unicode_len() == 0 {
        DEFAULT_LOCATION.to_string()
    } else {
        t
    }
}

/// How a location reads on the review screen: the preset's plain label where
/// there is one, otherwise the value as it is.
pub open spec fn label_of_location(value: Seq<char>) -> Seq<char> {
    if value == LOCATION_PRESETS[0].0@ {
        LOCATION_PRESETS[0].1@
    } else if value == LOCATION_PRESETS[1].0@ {
        LOCATION_PRESETS[1].1@
    } else if value == LOCATION_PRESETS[2].0@ {
        LOCATION_PRESETS[2].1@
    } else {
        value
    }
}

/// How a location reads on the review screen: the preset's plain label where
/// there is one, otherwise the value as it is.
pub fn location_label(value: &str) -> (r: &str)
    ensures
        r@ == label_of_location(value@),
{
    if text::same(value, LOCATION_PRESETS[0].0) {
        LOCATION_PRESETS[0].1
    } else if text::same(value, LOCATION_PRESETS[1].0) {
        LOCATION_PRESETS[1].1
    } else if text::same(value, LOCATION_PRESETS[2].0) {
        LOCATION_PRESETS[2].1
    } else {
        value
    }
}

} // verus!
