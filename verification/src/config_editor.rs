//! The editor behind the Settings tab.
//!
//! It shows the settings as rows: text fields, rows that cycle through their
//! values, the list of commands that open a worktree, and an action that checks
//! for updates. Every change is to be written at once; the editor returns
//! `EditorOutcome::Save` and is told how that went. A cleared field unsets its
//! key, so that the inherited value applies again.

use vstd::prelude::*;
use vstd::string::*;

use crate::config;
use crate::config::{OpenCommand, OpenMode, RepoConfigFields, WORKTREES_LAYOUTS};
use crate::highlight;
use crate::highlight::{DEFAULT_DIFF_THEME, DIFF_THEMES};
use crate::input;
use crate::input::{KeyCode, KeyEvent, TextInput, TextState};
use crate::model;
use crate::text;

verus! {

/// Rows holding an editable value.
pub const TEXT_ROWS: usize = 4;

/// The row of the commands that open a worktree, which holds a list.
pub const OPEN_COMMAND_ROW: usize = 1;

/// The update-check toggle.
pub const UPDATE_ROW: usize = 4;

/// The diff-theme cycle row.
pub const THEME_ROW: usize = 5;

/// The Worktrees-tab layout cycle row.
pub const LAYOUT_ROW: usize = 6;

/// The Branches-tab cache timeout.
pub const BRANCHES_REFRESH_ROW: usize = 7;

/// The diff line-number toggle.
pub const DIFF_LINE_NUMBERS_ROW: usize = 8;

/// Number of setting rows.
pub const FIELD_ROWS: usize = 9;

/// The "check for updates now" row.
pub const CHECK_ROW: usize = 9;

/// Total selectable rows.
pub const ROWS: usize = 10;

/// A section header and the blank line under it.
pub const SECTION_HEADER_LINES: usize = 2;

/// An ordinary setting: value, description, blank line.
pub const SETTING_LINES: usize = 3;

/// Lines of the sample under the theme row.
pub const THEME_PREVIEW_SAMPLE_LINES: usize = 3;

/// Height of a setting's block.
pub open spec fn block_height(row: int) -> int {
    if row == THEME_ROW {
        SETTING_LINES + 1 + THEME_PREVIEW_SAMPLE_LINES
    } else {
        SETTING_LINES as int
    }
}

/// Height of the blocks above `row`.
pub open spec fn blocks_above(row: int) -> int
    decreases row,
{
    if row <= 0 {
        0
    } else {
        blocks_above(row - 1) + block_height(row - 1)
    }
}

/// The line that a setting's value stands on: below the header of its section
/// and everything above. Rows past the settings stand behind all of them.
pub open spec fn value_line(row: int) -> int {
    let r = if row < FIELD_ROWS {
        row
    } else {
        FIELD_ROWS as int
    };
    SECTION_HEADER_LINES + blocks_above(r) + if r >= UPDATE_ROW {
        SECTION_HEADER_LINES as int
    } else {
        0
    }
}

/// Height of a setting's block, with its trailing blank line.
fn setting_block_height(row: usize) -> (r: usize)
    ensures
        r == block_height(row as int),
{
    if row == THEME_ROW {
        SETTING_LINES + 1 + THEME_PREVIEW_SAMPLE_LINES
    } else {
        SETTING_LINES
    }
}

/// The line of a setting's value, which is the line that can be selected.
pub fn line_of_row(row: usize) -> (r: usize)
    ensures
        r == value_line(row as int),
{
    let mut line: usize = SECTION_HEADER_LINES;
    let mut i: usize = 0;
    while i < FIELD_ROWS
        invariant
            i <= FIELD_ROWS,
            i <= row,
            line == SECTION_HEADER_LINES + blocks_above(i as int) + if i > UPDATE_ROW {
                SECTION_HEADER_LINES as int
            } else {
                0
            },
            line <= 4 + 7 * i,
        decreases FIELD_ROWS - i,
    {
        if i == UPDATE_ROW {
            line = line + SECTION_HEADER_LINES;
        }
        if i == row {
            return line;
        }
        line = line + setting_block_height(i);
        i += 1;
    }
    line
}

/// The first line behind all settings.
pub fn footer_start() -> (r: usize)
    ensures
        r == value_line(FIELD_ROWS as int),
        r == 35,
{
    proof {
        reveal_with_fuel(blocks_above, 10);
    }
    line_of_row(FIELD_ROWS)
}

/// The label line above the theme sample.
pub fn theme_preview_label_line() -> (r: usize)
    ensures
        r == value_line(THEME_ROW as int) + 2,
{
    proof {
        reveal_with_fuel(blocks_above, 10);
    }
    line_of_row(THEME_ROW) + 2
}

/// The first line of the theme sample.
pub fn theme_preview_line() -> (r: usize)
    ensures
        r == value_line(THEME_ROW as int) + 3,
{
    proof {
        reveal_with_fuel(blocks_above, 10);
    }
    theme_preview_label_line() + 1
}

/// The line that shows where worktrees will be created.
pub fn preview_line() -> (r: usize)
    ensures
        r == value_line(FIELD_ROWS as int),
{
    footer_start()
}

/// The line that shows the running version.
pub fn version_line() -> (r: usize)
    ensures
        r == value_line(FIELD_ROWS as int) + 1,
{
    footer_start() + 1
}

/// The line of the "check for updates now" action.
pub open spec fn action_line() -> int {
    value_line(FIELD_ROWS as int) + 2
}

/// The line of the "check for updates now" action.
pub fn check_line() -> (r: usize)
    ensures
        r == action_line(),
{
    footer_start() + 2
}

/// Total lines of the form.
pub fn form_lines() -> (r: usize)
    ensures
        r == action_line() + 1,
{
    footer_start() + 3
}

/// The first setting from `row` on that stands on `line`.
pub open spec fn setting_on(line: int, row: int) -> Option<int>
    decreases FIELD_ROWS - row,
{
    if row < 0 || row >= FIELD_ROWS {
        None
    } else if value_line(row) == line {
        Some(row)
    } else {
        setting_on(line, row + 1)
    }
}

/// The row that a click on `line` selects.
pub open spec fn row_on(line: int) -> Option<int> {
    if line == action_line() {
        Some(CHECK_ROW as int)
    } else {
        setting_on(line, 0)
    }
}

/// The row that a click on `line` selects; `None` for descriptions, blank lines,
/// headers, the sample, the preview and the version.
pub fn row_at_line(line: usize) -> (r: Option<usize>)
    ensures
        match r {
            Some(row) => if row == CHECK_ROW {
                line == action_line()
            } else {
                row < FIELD_ROWS && value_line(row as int) == line
            },
            None => line != action_line() && forall|row: int|
                0 <= row < FIELD_ROWS ==> #[trigger] value_line(row) != line,
        },
        row_on(line as int) == match r {
            Some(row) => Some(row as int),
            None => None,
        },
{
    if line == check_line() {
        return Some(CHECK_ROW);
    }
    let mut row: usize = 0;
    while row < FIELD_ROWS
        invariant
            row <= FIELD_ROWS,
            line != action_line(),
            forall|k: int| 0 <= k < row ==> #[trigger] value_line(k) != line,
            setting_on(line as int, 0) == setting_on(line as int, row as int),
        decreases FIELD_ROWS - row,
    {
        if line_of_row(row) == line {
            return Some(row);
        }
        row += 1;
    }
    None
}

/// Settings further down stand on lines further down, and all of them above the
/// action line; so each line belongs to one row at most.
pub proof fn rows_have_their_own_lines(a: int, b: int)
    requires
        0 <= a < b < FIELD_ROWS,
    ensures
        value_line(a) < value_line(b) < action_line(),
{
    reveal_with_fuel(blocks_above, 10);
}

/// What a command that opens a worktree is.
pub struct CommandView {
    pub command: Seq<char>,
    pub mode: OpenMode,
    pub global: bool,
}

impl View for OpenCommand {
    type V = CommandView;

    open spec fn view(&self) -> CommandView {
        CommandView { command: self.command@, mode: self.mode, global: self.global }
    }
}

/// The views of a list of commands.
pub open spec fn command_views(v: Seq<OpenCommand>) -> Seq<CommandView> {
    v.map_values(|c: OpenCommand| c@)
}

/// A command that was just typed.
pub open spec fn new_command(t: Seq<char>) -> CommandView {
    CommandView { command: t, mode: OpenMode::Background, global: false }
}

/// The editor of the list of commands: the commands, then a row that adds one,
/// then a row that ends. It works on a copy of the list.
#[derive(Debug)]
pub struct OpenCommandEditor {
    pub commands: Vec<OpenCommand>,
    /// Cursor over the rows.
    pub selected: usize,
    /// The text while typing a command.
    pub input: Option<TextInput>,
    /// Which command `input` rewrites; none when it is a new one.
    pub editing_index: Option<usize>,
}

/// What the list editor shows.
pub struct ListView {
    pub commands: Seq<CommandView>,
    pub selected: int,
    pub input: Option<TextState>,
    pub editing_index: Option<int>,
}

impl View for OpenCommandEditor {
    type V = ListView;

    open spec fn view(&self) -> ListView {
        ListView {
            commands: command_views(self.commands@),
            selected: self.selected as int,
            input: match self.input {
                Some(t) => Some(t@),
                None => None,
            },
            editing_index: match self.editing_index {
                Some(i) => Some(i as int),
                None => None,
            },
        }
    }
}

/// What a key press did to the list editor.
#[derive(Clone, Copy, Debug, PartialEq, Eq, Structural)]
pub enum ListOutcome {
    Continue,
    /// Confirmed; the commands are to be taken over.
    Done,
    /// Cancelled; the working copy is dropped.
    Cancel,
}

impl ListView {
    /// The cursor is on a row, and what is rewritten is in the list.
    pub open spec fn wf(self) -> bool {
        &&& 0 <= self.selected <= self.commands.len() + 1
        &&& self.editing_index matches Some(i) ==> 0 <= i < self.commands.len() && self.input
            is Some
    }

    /// The editor opened on a list.
    pub open spec fn opened(commands: Seq<CommandView>) -> ListView {
        ListView { commands, selected: 0, input: None, editing_index: None }
    }

    /// Starting to type a new command.
    pub open spec fn adding(self) -> ListView {
        ListView {
            selected: self.commands.len() as int,
            editing_index: None,
            input: Some(TextState::filled(Seq::empty())),
            ..self
        }
    }

    /// The list editor after a key while a command is typed.
    pub open spec fn typed(self, field: TextState, code: KeyCode) -> ListView {
        let t = text::trimmed(field.value);
        match code {
            KeyCode::Esc => ListView { input: None, editing_index: None, ..self },
            KeyCode::Enter => if t.len() == 0 {
                ListView { input: None, editing_index: None, ..self }
            } else {
                match self.editing_index {
                    Some(i) => ListView {
                        commands: self.commands.update(
                            i,
                            CommandView { command: t, ..self.commands[i] },
                        ),
                        input: None,
                        editing_index: None,
                        ..self
                    },
                    None => ListView {
                        commands: self.commands.push(new_command(t)),
                        selected: self.commands.len() as int,
                        input: None,
                        editing_index: None,
                    },
                }
            },
            _ => ListView { input: Some(field.after(code)), ..self },
        }
    }

    /// The list editor after a key while no command is typed.
    pub open spec fn navigated(self, code: KeyCode) -> (ListView, ListOutcome) {
        let n = self.commands.len() as int;
        let on_command = self.selected < n;
        if code is Esc {
            (self, ListOutcome::Cancel)
        } else if code is Down || code == KeyCode::Char('j') {
            (
                ListView {
                    selected: input::least(
                        text::sat(self.selected + 1) as int,
                        text::sat(n + 1) as int,
                    ),
                    ..self
                },
                ListOutcome::Continue,
            )
        } else if code is Up || code == KeyCode::Char('k') {
            (
                ListView {
                    selected: if self.selected > 0 {
                        self.selected - 1
                    } else {
                        0
                    },
                    ..self
                },
                ListOutcome::Continue,
            )
        } else if code is Enter {
            if self.selected == n + 1 {
                (self, ListOutcome::Done)
            } else if self.selected == n {
                (self.adding(), ListOutcome::Continue)
            } else {
                (
                    ListView {
                        editing_index: Some(self.selected),
                        input: Some(TextState::filled(self.commands[self.selected].command)),
                        ..self
                    },
                    ListOutcome::Continue,
                )
            }
        } else if code == KeyCode::Char('a') {
            (self.adding(), ListOutcome::Continue)
        } else if (code == KeyCode::Char('d') || code is Delete) && on_command {
            (
                ListView { commands: self.commands.remove(self.selected), ..self },
                ListOutcome::Continue,
            )
        } else if code == KeyCode::Char('g') && on_command {
            let c = self.commands[self.selected];
            (
                ListView {
                    commands: self.commands.update(
                        self.selected,
                        CommandView { global: !c.global, ..c },
                    ),
                    ..self
                },
                ListOutcome::Continue,
            )
        } else if code == KeyCode::Char('t') && on_command {
            let c = self.commands[self.selected];
            (
                ListView {
                    commands: self.commands.update(
                        self.selected,
                        CommandView { mode: c.mode.flipped(), ..c },
                    ),
                    ..self
                },
                ListOutcome::Continue,
            )
        } else {
            (self, ListOutcome::Continue)
        }
    }

    /// The list editor after a key, and what the form has to do.
    pub open spec fn press(self, code: KeyCode) -> (ListView, ListOutcome) {
        match self.input {
            Some(field) => (self.typed(field, code), ListOutcome::Continue),
            None => self.navigated(code),
        }
    }
}

/// A copy of a list of commands.
fn copy_commands(v: &Vec<OpenCommand>) -> (r: Vec<OpenCommand>)
    ensures
        r@ == v@,
{
    let r = v.clone();
    assert(r@ =~= v@);
    r
}

impl OpenCommandEditor {
    /// The cursor is on a row, and what is rewritten is in the list.
    pub open spec fn wf(self) -> bool {
        self@.wf()
    }

    /// Opens the editor on `commands`, with the first row selected.
    pub fn new(commands: Vec<OpenCommand>) -> (r: OpenCommandEditor)
        ensures
            r@ == ListView::opened(command_views(commands@)),
            r.wf(),
    {
        OpenCommandEditor { commands, selected: 0, input: None, editing_index: None }
    }

    /// The "add a command" row, right behind the commands.
    pub fn add_row(&self) -> (r: usize)
        ensures
            r == self@.commands.len(),
    {
        self.commands.len()
    }

    /// The "done" row, the last one.
    pub fn done_row(&self) -> (r: usize)
        ensures
            r == text::sat(self.commands@.len() as int + 1),
    {
        self.commands.len().saturating_add(1)
    }

    /// Total rows: the commands, then add, then done.
    pub fn rows(&self) -> (r: usize)
        ensures
            r == text::sat(self.commands@.len() as int + 2),
    {
        self.commands.len().saturating_add(2)
    }

    /// Starts typing a new command.
    fn start_add(&mut self)
        ensures
            final(self)@ == old(self)@.adding(),
    {
        self.selected = self.commands.len();
        self.editing_index = None;
        self.input = Some(TextInput::new());
    }

    /// Handles one key press, whether typing a command or moving over rows.
    pub fn on_key(&mut self, key: KeyEvent) -> (r: ListOutcome)
        requires
            old(self).wf(),
        ensures
            (final(self)@, r) == old(self)@.press(key.code),
            final(self).wf(),
    {
        let ghost before = *self;
        let n: usize = self.commands.len();
        if let Some(mut input) = self.input.take() {
            match key.code {
                KeyCode::Esc => self.editing_index = None,
                KeyCode::Enter => {
                    let value = input.trimmed();
                    let index = self.editing_index.take();
                    if value.as_str().unicode_len() > 0 {
                        match index {
                            Some(i) => {
                                self.commands[i].command = value;
                                assert(self@.commands =~= before@.typed(
                                    before@.input->0,
                                    key.code,
                                ).commands);
                            },
                            None => {
                                self.commands.push(OpenCommand::new(value));
                                self.selected = n;
                                assert(self@.commands =~= before@.typed(
                                    before@.input->0,
                                    key.code,
                                ).commands);
                            },
                        }
                    }
                },
                _ => {
                    input.on_key(key);
                    self.input = Some(input);
                },
            }
            return ListOutcome::Continue;
        }
        match key.code {
            KeyCode::Esc => {
                return ListOutcome::Cancel;
            },
            KeyCode::Down | KeyCode::Char('j') => {
                let next: usize = self.selected.saturating_add(1);
                let last: usize = n.saturating_add(1);
                self.selected = if next <= last {
                    next
                } else {
                    last
                };
            },
            KeyCode::Up | KeyCode::Char('k') => self.selected = self.selected.saturating_sub(1),
            KeyCode::Enter => {
                if self.selected > n {
                    return ListOutcome::Done;
                }
                if self.selected == n {
                    self.start_add();
                } else {
                    let value = self.commands[self.selected].command.clone();
                    self.editing_index = Some(self.selected);
                    self.input = Some(TextInput::with_value(value));
                }
            },
            KeyCode::Char('a') => self.start_add(),
            KeyCode::Char('d') | KeyCode::Delete => {
                if self.selected < n {
                    let gone = self.commands.remove(self.selected);
                    assert(self@.commands =~= before@.commands.remove(before.selected as int));
                }
            },
            KeyCode::Char('g') => {
                if self.selected < n {
                    let i: usize = self.selected;
                    self.commands[i].global = !self.commands[i].global;
                    assert(self@.commands =~= before@.press(key.code).0.commands);
                }
            },
            KeyCode::Char('t') => {
                if self.selected < n {
                    let i: usize = self.selected;
                    self.commands[i].mode = self.commands[i].mode.toggled();
                    assert(self@.commands =~= before@.press(key.code).0.commands);
                }
            },
            _ => {},
        }
        ListOutcome::Continue
    }
}

/// What the settings say.
#[verifier::ext_equal]
pub struct FieldsView {
    pub worktree_dir: Seq<char>,
    pub open_command: Seq<CommandView>,
    pub copy: Seq<char>,
    pub run: Seq<char>,
    pub auto_update_check: Seq<char>,
    pub diff_theme: Seq<char>,
    pub worktrees_layout: Seq<char>,
    pub branches_refresh_mins: Seq<char>,
    pub diff_line_numbers: Seq<char>,
}

impl View for RepoConfigFields {
    type V = FieldsView;

    open spec fn view(&self) -> FieldsView {
        FieldsView {
            worktree_dir: self.worktree_dir@,
            open_command: command_views(self.open_command@),
            copy: self.copy@,
            run: self.run@,
            auto_update_check: self.auto_update_check@,
            diff_theme: self.diff_theme@,
            worktrees_layout: self.worktrees_layout@,
            branches_refresh_mins: self.branches_refresh_mins@,
            diff_line_numbers: self.diff_line_numbers@,
        }
    }
}

impl FieldsView {
    /// Nothing configured.
    pub open spec fn unset() -> FieldsView {
        FieldsView {
            worktree_dir: Seq::empty(),
            open_command: Seq::empty(),
            copy: Seq::empty(),
            run: Seq::empty(),
            auto_update_check: Seq::empty(),
            diff_theme: Seq::empty(),
            worktrees_layout: Seq::empty(),
            branches_refresh_mins: Seq::empty(),
            diff_line_numbers: Seq::empty(),
        }
    }

    /// The text of a row; empty for the list row and past the settings.
    pub open spec fn get(self, row: int) -> Seq<char> {
        if row == 0 {
            self.worktree_dir
        } else if row == 2 {
            self.copy
        } else if row == 3 {
            self.run
        } else if row == UPDATE_ROW {
            self.auto_update_check
        } else if row == THEME_ROW {
            self.diff_theme
        } else if row == LAYOUT_ROW {
            self.worktrees_layout
        } else if row == BRANCHES_REFRESH_ROW {
            self.branches_refresh_mins
        } else if row == DIFF_LINE_NUMBERS_ROW {
            self.diff_line_numbers
        } else {
            Seq::empty()
        }
    }

    /// The settings with the text of a row replaced; the list row and rows past
    /// the settings have none.
    pub open spec fn with(self, row: int, v: Seq<char>) -> FieldsView {
        if row == 0 {
            FieldsView { worktree_dir: v, ..self }
        } else if row == 2 {
            FieldsView { copy: v, ..self }
        } else if row == 3 {
            FieldsView { run: v, ..self }
        } else if row == UPDATE_ROW {
            FieldsView { auto_update_check: v, ..self }
        } else if row == THEME_ROW {
            FieldsView { diff_theme: v, ..self }
        } else if row == LAYOUT_ROW {
            FieldsView { worktrees_layout: v, ..self }
        } else if row == BRANCHES_REFRESH_ROW {
            FieldsView { branches_refresh_mins: v, ..self }
        } else if row == DIFF_LINE_NUMBERS_ROW {
            FieldsView { diff_line_numbers: v, ..self }
        } else {
            self
        }
    }
}

/// The next value of an on/off setting: default, on, off, and default again.
pub open spec fn cycled_flag(s: Seq<char>) -> Seq<char> {
    if s == "true"@ {
        "false"@
    } else if s == "false"@ {
        Seq::empty()
    } else {
        "true"@
    }
}

/// The next diff theme: the default, each of the catalogue, and the default
/// again.
pub open spec fn cycled_theme(s: Seq<char>) -> Seq<char> {
    let i = highlight::id_from(s, 0);
    if s.len() == 0 {
        DIFF_THEMES[0].0@
    } else if i + 1 >= 5 {
        Seq::empty()
    } else {
        DIFF_THEMES[i + 1].0@
    }
}

/// The next layout: the default, each layout, and the default again.
pub open spec fn cycled_layout(s: Seq<char>) -> Seq<char> {
    if s.len() == 0 {
        WORKTREES_LAYOUTS[0].0@
    } else if s == WORKTREES_LAYOUTS[1].0@ {
        Seq::empty()
    } else {
        WORKTREES_LAYOUTS[1].0@
    }
}

/// The value that a press on a cycle row changes its text to.
pub open spec fn cycled(row: int, s: Seq<char>) -> Seq<char> {
    if row == THEME_ROW {
        cycled_theme(s)
    } else if row == LAYOUT_ROW {
        cycled_layout(s)
    } else {
        cycled_flag(s)
    }
}

/// Whether a row cycles through its values.
pub open spec fn is_cycle_row(row: int) -> bool {
    row == UPDATE_ROW || row == THEME_ROW || row == LAYOUT_ROW || row == DIFF_LINE_NUMBERS_ROW
}

/// What a key press did, for the app to act on.
#[derive(Debug)]
pub enum EditorOutcome {
    Continue,
    /// The settings are to be written.
    Save,
    /// They were written to this file.
    Saved(String),
    /// An update check was asked for.
    CheckForUpdates,
    Cancel,
}

/// State of the Settings tab's editor.
#[derive(Debug)]
pub struct ConfigEditor {
    pub repo_root: String,
    /// The file that the global settings are read from and written to.
    pub global_config: Option<String>,
    /// The settings as shown, each empty when unset.
    pub fields: RepoConfigFields,
    /// Selected row: the settings, then the update check.
    pub selected: usize,
    /// The text while the selected row is edited.
    pub editing: Option<TextInput>,
    /// The list editor while it is open.
    pub open_list: Option<OpenCommandEditor>,
}

/// What the settings editor shows.
pub struct EditorView {
    pub repo_root: Seq<char>,
    pub global_config: Option<Seq<char>>,
    pub fields: FieldsView,
    pub selected: int,
    pub editing: Option<TextState>,
    pub open_list: Option<ListView>,
}

impl View for ConfigEditor {
    type V = EditorView;

    open spec fn view(&self) -> EditorView {
        EditorView {
            repo_root: self.repo_root@,
            global_config: model::opt(self.global_config),
            fields: self.fields@,
            selected: self.selected as int,
            editing: match self.editing {
                Some(t) => Some(t@),
                None => None,
            },
            open_list: match self.open_list {
                Some(l) => Some(l@),
                None => None,
            },
        }
    }
}

impl EditorView {
    /// The list editor, where it is open, is in order.
    pub open spec fn wf(self) -> bool {
        self.open_list matches Some(l) ==> l.wf()
    }

    /// The editor on settings just read.
    pub open spec fn loaded(
        repo_root: Seq<char>,
        global_config: Option<Seq<char>>,
        fields: FieldsView,
    ) -> EditorView {
        EditorView {
            repo_root,
            global_config,
            fields,
            selected: 0,
            editing: None,
            open_list: None,
        }
    }

    /// The editor with its settings read anew.
    pub open spec fn reloaded(self, fields: FieldsView) -> EditorView {
        EditorView::loaded(self.repo_root, self.global_config, fields)
    }

    /// The editor after a key while the list editor is open.
    pub open spec fn press_list(self, list: ListView, code: KeyCode) -> (
        EditorView,
        EditorOutcome,
    ) {
        let (l, outcome) = list.press(code);
        match outcome {
            ListOutcome::Continue => (
                EditorView { open_list: Some(l), ..self },
                EditorOutcome::Continue,
            ),
            ListOutcome::Done => (
                EditorView {
                    fields: FieldsView { open_command: l.commands, ..self.fields },
                    open_list: None,
                    ..self
                },
                EditorOutcome::Save,
            ),
            ListOutcome::Cancel => (
                EditorView { open_list: None, ..self },
                EditorOutcome::Continue,
            ),
        }
    }

    /// The editor after a key while a row is edited.
    pub open spec fn press_field(self, field: TextState, code: KeyCode) -> (
        EditorView,
        EditorOutcome,
    ) {
        match code {
            KeyCode::Esc => (EditorView { editing: None, ..self }, EditorOutcome::Continue),
            KeyCode::Enter => (
                EditorView {
                    fields: self.fields.with(self.selected, text::trimmed(field.value)),
                    editing: None,
                    ..self
                },
                EditorOutcome::Save,
            ),
            _ => (
                EditorView { editing: Some(field.after(code)), ..self },
                EditorOutcome::Continue,
            ),
        }
    }

    /// What a row's text field is prefilled with: its value, or the default
    /// where the timeout is unset.
    pub open spec fn prefill(self) -> Seq<char> {
        if self.selected == BRANCHES_REFRESH_ROW && self.fields.branches_refresh_mins.len() == 0 {
            text::decimal(config::DEFAULT_BRANCHES_REFRESH_MINS as nat)
        } else {
            self.fields.get(self.selected)
        }
    }

    /// The editor after a key while rows are navigated.
    pub open spec fn press_row(self, code: KeyCode) -> (EditorView, EditorOutcome) {
        let row = self.selected;
        if code is Esc || code == KeyCode::Char('q') {
            (self, EditorOutcome::Cancel)
        } else if code is Down || code == KeyCode::Char('j') {
            (EditorView { selected: input::least(row + 1, 9), ..self }, EditorOutcome::Continue)
        } else if code is Up || code == KeyCode::Char('k') {
            (
                EditorView {
                    selected: if row > 0 {
                        row - 1
                    } else {
                        0
                    },
                    ..self
                },
                EditorOutcome::Continue,
            )
        } else if code is Enter && row == CHECK_ROW {
            (self, EditorOutcome::CheckForUpdates)
        } else if (code is Enter || code == KeyCode::Char(' ')) && is_cycle_row(row) {
            (
                EditorView {
                    fields: self.fields.with(row, cycled(row, self.fields.get(row))),
                    ..self
                },
                EditorOutcome::Save,
            )
        } else if code is Enter && row == OPEN_COMMAND_ROW {
            (
                EditorView {
                    open_list: Some(ListView::opened(self.fields.open_command)),
                    ..self
                },
                EditorOutcome::Continue,
            )
        } else if code is Enter && (row < TEXT_ROWS || row == BRANCHES_REFRESH_ROW) {
            (
                EditorView { editing: Some(TextState::filled(self.prefill())), ..self },
                EditorOutcome::Continue,
            )
        } else {
            (self, EditorOutcome::Continue)
        }
    }

    /// The theme to draw diffs in: the configured one, or the default.
    pub open spec fn theme(self) -> Seq<char> {
        if self.fields.diff_theme.len() == 0 {
            DEFAULT_DIFF_THEME@
        } else {
            self.fields.diff_theme
        }
    }

    /// Whether a text field is open, so that printable keys are text.
    pub open spec fn typing(self) -> bool {
        self.editing is Some || (self.open_list matches Some(l) && l.input is Some)
    }

    /// The editor after a key, and what the app has to do.
    pub open spec fn press(self, code: KeyCode) -> (EditorView, EditorOutcome) {
        match self.open_list {
            Some(l) => self.press_list(l, code),
            None => match self.editing {
                Some(field) => self.press_field(field, code),
                None => self.press_row(code),
            },
        }
    }
}

/// The commands' texts.
pub open spec fn command_texts(v: Seq<CommandView>) -> Seq<Seq<char>> {
    v.map_values(|c: CommandView| c.command)
}

/// The list of commands in one line: the command itself when there is one, a
/// count and the commands when there are more, nothing when there is none.
pub open spec fn summary(v: Seq<CommandView>) -> Seq<char> {
    if v.len() == 0 {
        Seq::empty()
    } else if v.len() == 1 {
        v[0].command
    } else {
        text::decimal(v.len()) + " commands: "@ + text::join(command_texts(v), " \u{b7} "@)
    }
}

impl ConfigEditor {
    /// The list editor, where it is open, is in order.
    pub open spec fn wf(self) -> bool {
        self@.wf()
    }

    /// An editor on the settings that were read.
    pub fn load(repo_root: String, global_config: Option<String>, fields: RepoConfigFields) -> (r:
        ConfigEditor)
        ensures
            r@ == EditorView::loaded(repo_root@, model::opt(global_config), fields@),
            r.wf(),
    {
        ConfigEditor {
            repo_root,
            global_config,
            fields,
            selected: 0,
            editing: None,
            open_list: None,
        }
    }

    /// Takes settings read anew, keeping the files they belong to and moving the
    /// cursor back to the first row.
    pub fn reload(&mut self, fields: RepoConfigFields)
        ensures
            final(self)@ == old(self)@.reloaded(fields@),
            final(self).wf(),
    {
        self.fields = fields;
        self.selected = 0;
        self.editing = None;
        self.open_list = None;
    }

    /// An editor with every field unset, for a repository whose settings cannot
    /// be read yet.
    pub fn empty(repo_root: String, global_config: Option<String>) -> (r: ConfigEditor)
        ensures
            r@ == EditorView::loaded(
                repo_root@,
                model::opt(global_config),
                FieldsView::unset(),
            ),
            r.wf(),
    {
        let fields = RepoConfigFields::default();
        assert(fields@ =~= FieldsView::unset()) by {
            assert(fields@.open_command =~= Seq::<CommandView>::empty());
        }
        ConfigEditor {
            repo_root,
            global_config,
            fields,
            selected: 0,
            editing: None,
            open_list: None,
        }
    }

    /// Current text of a setting row; the list row reads as empty.
    pub fn field(&self, row: usize) -> (r: &str)
        ensures
            r@ == self@.fields.get(row as int),
    {
        if row == 0 {
            self.fields.worktree_dir.as_str()
        } else if row == 2 {
            self.fields.copy.as_str()
        } else if row == 3 {
            self.fields.run.as_str()
        } else if row == UPDATE_ROW {
            self.fields.auto_update_check.as_str()
        } else if row == THEME_ROW {
            self.fields.diff_theme.as_str()
        } else if row == LAYOUT_ROW {
            self.fields.worktrees_layout.as_str()
        } else if row == BRANCHES_REFRESH_ROW {
            self.fields.branches_refresh_mins.as_str()
        } else if row == DIFF_LINE_NUMBERS_ROW {
            self.fields.diff_line_numbers.as_str()
        } else {
            proof {
                reveal_strlit("");
                assert(""@ =~= Seq::<char>::empty());
            }
            ""
        }
    }

    /// The list row's value as one line: the command itself when there is one,
    /// otherwise a count followed by the commands.
    pub fn open_command_summary(&self) -> (r: String)
        ensures
            r@ == summary(self@.fields.open_command),
    {
        let commands = &self.fields.open_command;
        let ghost views = command_views(commands@);
        let n: usize = commands.len();
        if n == 0 {
            return String::new();
        }
        if n == 1 {
            return commands[0].command.clone();
        }
        let mut texts: Vec<String> = Vec::new();
        let mut i: usize = 0;
        while i < n
            invariant
                commands@ == self.fields.open_command@,
                views == command_views(commands@),
                n == commands@.len(),
                i <= n,
                text::views(texts@) == command_texts(views).take(i as int),
            decreases n - i,
        {
            let ghost before = texts@;
            texts.push(commands[i].command.clone());
            assert(text::views(texts@) =~= text::views(before).push(views[i as int].command));
            assert(command_texts(views).take(i + 1) =~= command_texts(views).take(i as int).push(
                views[i as int].command,
            ));
            i += 1;
        }
        assert(command_texts(views).take(n as int) =~= command_texts(views));
        let count = text::dec(n);
        let joined = text::join_with(&texts, " \u{b7} ");
        text::cat3(count.as_str(), " commands: ", joined.as_str())
    }

    /// Whether a text field is open, so that printable keys are text.
    pub fn is_typing(&self) -> (r: bool)
        ensures
            r == self@.typing(),
    {
        if self.editing.is_some() {
            return true;
        }
        match &self.open_list {
            Some(l) => l.input.is_some(),
            None => false,
        }
    }

    /// Replaces the text of a row; the list row and rows past the settings have
    /// none.
    pub fn set_field(&mut self, row: usize, value: String)
        ensures
            final(self)@ == (EditorView {
                fields: old(self)@.fields.with(row as int, value@),
                ..old(self)@
            }),
    {
        if row == 0 {
            self.fields.worktree_dir = value;
        } else if row == 2 {
            self.fields.copy = value;
        } else if row == 3 {
            self.fields.run = value;
        } else if row == UPDATE_ROW {
            self.fields.auto_update_check = value;
        } else if row == THEME_ROW {
            self.fields.diff_theme = value;
        } else if row == LAYOUT_ROW {
            self.fields.worktrees_layout = value;
        } else if row == BRANCHES_REFRESH_ROW {
            self.fields.branches_refresh_mins = value;
        } else if row == DIFF_LINE_NUMBERS_ROW {
            self.fields.diff_line_numbers = value;
        }
    }

    /// The theme to draw diffs in: the configured one, or the default.
    pub fn effective_theme(&self) -> (r: String)
        ensures
            r@ == self@.theme(),
    {
        if self.fields.diff_theme.as_str().unicode_len() == 0 {
            DEFAULT_DIFF_THEME.to_string()
        } else {
            self.fields.diff_theme.clone()
        }
    }

    /// Takes how writing the settings went: the file they were written to, or
    /// the error, which lands in `message`.
    pub fn save_fields(&self, result: Result<String, String>, message: &mut Option<String>) -> (r:
        EditorOutcome)
        ensures
            match result {
                Ok(path) => r == EditorOutcome::Saved(path) && *final(message) == *old(message),
                Err(e) => r == EditorOutcome::Continue && *final(message) is Some
                    && final(message)->0@ == "error: "@ + e@,
            },
    {
        match result {
            Ok(path) => EditorOutcome::Saved(path),
            Err(e) => {
                *message = Some(text::cat2("error: ", e.as_str()));
                EditorOutcome::Continue
            },
        }
    }

    /// Handles one key press.
    pub fn on_key(&mut self, key: KeyEvent) -> (r: EditorOutcome)
        requires
            old(self).wf(),
        ensures
            (final(self)@, r) == old(self)@.press(key.code),
            final(self).wf(),
    {
        if let Some(mut list) = self.open_list.take() {
            match list.on_key(key) {
                ListOutcome::Continue => {
                    self.open_list = Some(list);
                    return EditorOutcome::Continue;
                },
                ListOutcome::Done => {
                    self.fields.open_command = list.commands;
                    return EditorOutcome::Save;
                },
                ListOutcome::Cancel => {
                    return EditorOutcome::Continue;
                },
            }
        }
        if let Some(mut input) = self.editing.take() {
            match key.code {
                KeyCode::Esc => {},
                KeyCode::Enter => {
                    let value = input.trimmed();
                    self.set_field(self.selected, value);
                    return EditorOutcome::Save;
                },
                _ => {
                    input.on_key(key);
                    self.editing = Some(input);
                },
            }
            return EditorOutcome::Continue;
        }
        let row: usize = self.selected;
        let cycles = row == UPDATE_ROW || row == THEME_ROW || row == LAYOUT_ROW || row
            == DIFF_LINE_NUMBERS_ROW;
        match key.code {
            KeyCode::Esc | KeyCode::Char('q') => {
                return EditorOutcome::Cancel;
            },
            KeyCode::Down | KeyCode::Char('j') => {
                self.selected = if row < ROWS - 1 {
                    row + 1
                } else {
                    ROWS - 1
                };
            },
            KeyCode::Up | KeyCode::Char('k') => {
                self.selected = row.saturating_sub(1);
            },
            KeyCode::Enter => {
                if row == CHECK_ROW {
                    return EditorOutcome::CheckForUpdates;
                }
                if cycles {
                    let value = self.next_value(row);
                    self.set_field(row, value);
                    return EditorOutcome::Save;
                }
                if row == OPEN_COMMAND_ROW {
                    let list = OpenCommandEditor::new(copy_commands(&self.fields.open_command));
                    self.open_list = Some(list);
                } else if row < TEXT_ROWS || row == BRANCHES_REFRESH_ROW {
                    let initial = if row == BRANCHES_REFRESH_ROW
                        && self.fields.branches_refresh_mins.as_str().unicode_len() == 0 {
                        text::dec(config::DEFAULT_BRANCHES_REFRESH_MINS)
                    } else {
                        self.field(row).to_string()
                    };
                    self.editing = Some(TextInput::with_value(initial));
                }
            },
            KeyCode::Char(' ') => {
                if cycles {
                    let value = self.next_value(row);
                    self.set_field(row, value);
                    return EditorOutcome::Save;
                }
            },
            _ => {},
        }
        EditorOutcome::Continue
    }

    /// The value that a press on a cycle row changes its text to.
    fn next_value(&self, row: usize) -> (r: String)
        ensures
            r@ == cycled(row as int, self@.fields.get(row as int)),
    {
        let current = self.field(row);
        if row == THEME_ROW {
            if current.unicode_len() == 0 {
                return DIFF_THEMES[0].0.to_string();
            }
            let i: usize = highlight::id_index(current);
            if i + 1 >= 5 {
                String::new()
            } else {
                DIFF_THEMES[i + 1].0.to_string()
            }
        } else if row == LAYOUT_ROW {
            if current.unicode_len() == 0 {
                WORKTREES_LAYOUTS[0].0.to_string()
            } else if text::same(current, WORKTREES_LAYOUTS[1].0) {
                String::new()
            } else {
                WORKTREES_LAYOUTS[1].0.to_string()
            }
        } else if text::same(current, "true") {
            "false".to_string()
        } else if text::same(current, "false") {
            String::new()
        } else {
            "true".to_string()
        }
    }
}

/// A row that is set reads back what it was set to, and no other row changes,
/// nor does the list of commands.
pub proof fn set_row_reads_back(f: FieldsView, row: int, v: Seq<char>, other: int)
    requires
        0 <= row < FIELD_ROWS,
        row != OPEN_COMMAND_ROW,
    ensures
        f.with(row, v).get(row) == v,
        other != row ==> f.with(row, v).get(other) == f.get(other),
        f.with(row, v).open_command == f.open_command,
{
}

/// The list row and the rows past the settings read as empty, and setting one
/// changes nothing.
pub proof fn other_rows_hold_no_text(f: FieldsView, row: int, v: Seq<char>)
    requires
        row == OPEN_COMMAND_ROW || row >= FIELD_ROWS,
    ensures
        f.get(row) == Seq::<char>::empty(),
        f.with(row, v) == f,
{
}

/// An on/off setting comes back to the default after three presses.
pub proof fn flag_cycle()
    ensures
        cycled_flag(Seq::empty()) == "true"@,
        cycled_flag("true"@) == "false"@,
        cycled_flag("false"@) == Seq::<char>::empty(),
{
    reveal_strlit("true");
    reveal_strlit("false");
    assert(Seq::<char>::empty().len() != "true"@.len());
    assert(Seq::<char>::empty().len() != "false"@.len());
    assert("true"@.len() != "false"@.len());
}

/// The theme row goes from the default through the catalogue in its order and
/// back to the default.
pub proof fn theme_cycle(k: int)
    requires
        0 <= k < 5,
    ensures
        cycled_theme(Seq::empty()) == DIFF_THEMES[0].0@,
        cycled_theme(DIFF_THEMES[k].0@) == if k == 4 {
            Seq::empty()
        } else {
            DIFF_THEMES[k + 1].0@
        },
{
    highlight::ids_name_themselves(k);
    reveal_strlit("eighties");
    reveal_strlit("mocha");
    reveal_strlit("ocean");
    reveal_strlit("solarized");
    reveal_strlit("github");
}

/// The layout row goes from the default through the layouts and back to the
/// default.
pub proof fn layout_cycle()
    ensures
        cycled_layout(Seq::empty()) == WORKTREES_LAYOUTS[0].0@,
        cycled_layout(WORKTREES_LAYOUTS[0].0@) == WORKTREES_LAYOUTS[1].0@,
        cycled_layout(WORKTREES_LAYOUTS[1].0@) == Seq::<char>::empty(),
{
    reveal_strlit("two_panel");
    reveal_strlit("three_panel");
    assert("two_panel"@.len() != "three_panel"@.len());
}

/// Esc in the list editor, while no command is typed, leaves the saved list as
/// it was, whatever was done in the editor.
pub proof fn esc_drops_list_edits(e: EditorView, l: ListView)
    requires
        e.open_list == Some(l),
        l.input is None,
    ensures
        e.press(KeyCode::Esc).0 == (EditorView { open_list: None, ..e }),
        e.press(KeyCode::Esc).1 == EditorOutcome::Continue,
{
}

/// A blank entry adds no command and changes none.
pub proof fn blank_entry_adds_nothing(l: ListView, field: TextState)
    requires
        l.input == Some(field),
        text::trimmed(field.value).len() == 0,
    ensures
        l.press(KeyCode::Enter).0.commands == l.commands,
{
}

/// The two toggles of a command undo themselves.
pub proof fn command_toggles_undo(l: ListView)
    requires
        l.wf(),
        l.input is None,
        l.selected < l.commands.len(),
    ensures
        l.press(KeyCode::Char('g')).0.press(KeyCode::Char('g')).0 == l,
        l.press(KeyCode::Char('t')).0.press(KeyCode::Char('t')).0 == l,
{
    assert(l.press(KeyCode::Char('g')).0.press(KeyCode::Char('g')).0.commands =~= l.commands);
    assert(l.press(KeyCode::Char('t')).0.press(KeyCode::Char('t')).0.commands =~= l.commands);
}

/// Opening a text row and confirming it unchanged leaves the settings as they
/// are, when the value has no white space around it and is not an unset timeout.
pub proof fn unchanged_field_edit(e: EditorView)
    requires
        e.open_list is None,
        e.editing is None,
        e.selected == 0 || e.selected == 2 || e.selected == 3 || (e.selected
            == BRANCHES_REFRESH_ROW && e.fields.branches_refresh_mins.len() > 0),
        text::trimmed(e.fields.get(e.selected)) == e.fields.get(e.selected),
    ensures
        e.press(KeyCode::Enter).0.press(KeyCode::Enter).0 == e,
{
}

} // verus!
