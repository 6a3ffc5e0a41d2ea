//! Keys, the single-line text field and the multi-line hunk editor.

use vstd::prelude::*;
use vstd::string::*;

use crate::text;

verus! {

/// The keys the interface reacts to; every other key is `Other`.
#[derive(Clone, Copy, Debug, PartialEq, Eq, Structural)]
pub enum KeyCode {
    Char(char),
    F(u8),
    Enter,
    Esc,
    Backspace,
    Delete,
    Tab,
    BackTab,
    Left,
    Right,
    Up,
    Down,
    Home,
    End,
    PageUp,
    PageDown,
    Other,
}

/// One key press with the modifiers that matter.
#[derive(Clone, Copy, Debug, PartialEq, Eq, Structural)]
pub struct KeyEvent {
    pub code: KeyCode,
    pub shift: bool,
    pub control: bool,
}

impl KeyEvent {
    /// The key without modifiers.
    pub fn plain(code: KeyCode) -> (r: KeyEvent)
        ensures
            r.code == code,
            !r.shift,
            !r.control,
    {
        KeyEvent { code, shift: false, control: false }
    }

    /// The key with Ctrl held.
    pub fn ctrl(code: KeyCode) -> (r: KeyEvent)
        ensures
            r.code == code,
            !r.shift,
            r.control,
    {
        KeyEvent { code, shift: false, control: true }
    }
}

/// The smaller of two numbers.
pub open spec fn least(a: int, b: int) -> int {
    if a <= b {
        a
    } else {
        b
    }
}

/// `s` with `c` put in at character index `at`, or at the end when `at` is past it.
pub open spec fn inserted(s: Seq<char>, at: int, c: char) -> Seq<char> {
    s.insert(least(at, s.len() as int), c)
}

/// `s` without its characters from index `from` up to, not including, `to`;
/// indices past the end count as the end.
pub open spec fn cut(s: Seq<char>, from: int, to: int) -> Seq<char> {
    s.take(least(from, s.len() as int)) + s.skip(least(to, s.len() as int))
}

/// The spelling of `s` with `c` put in at character index `at`.
fn insert_char(s: &str, at: usize, c: char) -> (r: String)
    ensures
        r@ == inserted(s@, at as int, c),
{
    let mut v = text::chars_of(s);
    let i: usize = if at <= v.len() {
        at
    } else {
        v.len()
    };
    v.insert(i, c);
    let n: usize = v.len();
    assert(v@.subrange(0, n as int) =~= v@);
    text::string_of(&v, 0, n)
}

/// The spelling of `s` without its characters from `from` up to `to`.
fn cut_chars(s: &str, from: usize, to: usize) -> (r: String)
    requires
        from <= to,
    ensures
        r@ == cut(s@, from as int, to as int),
{
    let v = text::chars_of(s);
    let n: usize = v.len();
    let a: usize = if from <= n {
        from
    } else {
        n
    };
    let b: usize = if to <= n {
        to
    } else {
        n
    };
    let head = text::string_of(&v, 0, a);
    let tail = text::string_of(&v, b, n);
    let r = text::cat2(head.as_str(), tail.as_str());
    assert(r@ =~= cut(s@, from as int, to as int));
    r
}

/// Inserts `c` at character index `*cursor` in `s`, advancing the cursor.
pub fn line_insert(s: &mut String, cursor: &mut usize, c: char)
    ensures
        final(s)@ == inserted(old(s)@, *old(cursor) as int, c),
        *final(cursor) == text::sat(*old(cursor) + 1),
{
    *s = insert_char(s.as_str(), *cursor, c);
    *cursor = (*cursor).saturating_add(1);
}

/// Deletes the character before the cursor, if any.
pub fn line_backspace(s: &mut String, cursor: &mut usize)
    ensures
        *old(cursor) == 0 ==> final(s)@ == old(s)@ && *final(cursor) == 0,
        *old(cursor) > 0 ==> final(s)@ == cut(old(s)@, *old(cursor) - 1, *old(cursor) as int)
            && *final(cursor) == *old(cursor) - 1,
{
    if *cursor > 0 {
        *s = cut_chars(s.as_str(), *cursor - 1, *cursor);
        *cursor = *cursor - 1;
    }
}

/// Deletes the character at the cursor, if any.
pub fn line_delete(s: &mut String, cursor: usize)
    ensures
        cursor < old(s)@.len() ==> final(s)@ == cut(old(s)@, cursor as int, cursor + 1),
        cursor >= old(s)@.len() ==> final(s)@ == old(s)@,
{
    if cursor < s.as_str().unicode_len() {
        *s = cut_chars(s.as_str(), cursor, cursor + 1);
    }
}

/// A single-line text field with a movable insertion cursor, a character index
/// from 0 up to the length of the text.
#[derive(Debug)]
pub struct TextInput {
    pub value: String,
    pub cursor: usize,
}

/// What a text field shows: its text and where its cursor stands.
pub struct TextState {
    pub value: Seq<char>,
    pub cursor: int,
}

impl View for TextInput {
    type V = TextState;

    open spec fn view(&self) -> TextState {
        TextState { value: self.value@, cursor: self.cursor as int }
    }
}

/// Whether a text field takes the key as editing.
pub open spec fn edits(code: KeyCode) -> bool {
    code is Char || code is Backspace || code is Delete || code is Left || code is Right || code
        is Home || code is End
}

impl TextState {
    /// The cursor stands in the text or right behind it.
    pub open spec fn wf(self) -> bool {
        0 <= self.cursor <= self.value.len()
    }

    /// A field that holds `value` with the cursor behind it.
    pub open spec fn filled(value: Seq<char>) -> TextState {
        TextState { value, cursor: value.len() as int }
    }

    /// The field after one key.
    pub open spec fn after(self, code: KeyCode) -> TextState {
        match code {
            KeyCode::Char(c) => TextState {
                value: inserted(self.value, self.cursor, c),
                cursor: text::sat(self.cursor + 1) as int,
            },
            KeyCode::Backspace => if self.cursor > 0 {
                TextState {
                    value: cut(self.value, self.cursor - 1, self.cursor),
                    cursor: self.cursor - 1,
                }
            } else {
                self
            },
            KeyCode::Delete => if self.cursor < self.value.len() {
                TextState { value: cut(self.value, self.cursor, self.cursor + 1), ..self }
            } else {
                self
            },
            KeyCode::Left => if self.cursor > 0 {
                TextState { cursor: self.cursor - 1, ..self }
            } else {
                self
            },
            KeyCode::Right => if self.cursor < self.value.len() {
                TextState { cursor: self.cursor + 1, ..self }
            } else {
                self
            },
            KeyCode::Home => TextState { cursor: 0, ..self },
            KeyCode::End => TextState { cursor: self.value.len() as int, ..self },
            _ => self,
        }
    }
}

impl TextInput {
    /// The cursor stands in the text or right behind it.
    pub open spec fn wf(self) -> bool {
        self@.wf()
    }

    /// An empty field.
    pub fn new() -> (r: TextInput)
        ensures
            r@ == TextState::filled(Seq::empty()),
            r.wf(),
    {
        TextInput { value: String::new(), cursor: 0 }
    }

    /// Number of characters in the field.
    pub fn len(&self) -> (r: usize)
        ensures
            r == self.value@.len(),
    {
        self.value.as_str().unicode_len()
    }

    /// Puts `c` in at the cursor and steps over it.
    pub fn insert(&mut self, c: char)
        ensures
            final(self)@ == old(self)@.after(KeyCode::Char(c)),
    {
        line_insert(&mut self.value, &mut self.cursor, c);
    }

    /// Removes the character before the cursor.
    pub fn backspace(&mut self)
        ensures
            final(self)@ == old(self)@.after(KeyCode::Backspace),
    {
        line_backspace(&mut self.value, &mut self.cursor);
    }

    /// Removes the character at the cursor.
    pub fn delete(&mut self)
        ensures
            final(self)@ == old(self)@.after(KeyCode::Delete),
    {
        line_delete(&mut self.value, self.cursor);
    }

    /// Applies an editing key; true when the key was one, so that callers can
    /// treat other keys as their own actions.
    pub fn on_key(&mut self, key: KeyEvent) -> (r: bool)
        ensures
            final(self)@ == old(self)@.after(key.code),
            r == edits(key.code),
            !r ==> *final(self) == *old(self),
            old(self).wf() ==> final(self).wf(),
    {
        match key.code {
            KeyCode::Char(c) => self.insert(c),
            KeyCode::Backspace => self.backspace(),
            KeyCode::Delete => self.delete(),
            KeyCode::Left => self.cursor = self.cursor.saturating_sub(1),
            KeyCode::Right => {
                let n: usize = self.len();
                if self.cursor < n {
                    self.cursor = self.cursor + 1;
                }
            },
            KeyCode::Home => self.cursor = 0,
            KeyCode::End => self.cursor = self.len(),
            _ => {
                return false;
            },
        }
        true
    }

    /// The text of the field.
    pub fn as_str(&self) -> (r: &str)
        ensures
            r@ == self.value@,
    {
        self.value.as_str()
    }

    /// The text of the field without white space at either end.
    pub fn trimmed(&self) -> (r: String)
        ensures
            r@ == text::trimmed(self.value@),
    {
        text::trim(self.value.as_str())
    }

    /// A prefilled field with the cursor behind the text.
    pub fn with_value(value: String) -> (r: TextInput)
        ensures
            r.value == value,
            r@ == TextState::filled(value@),
            r.wf(),
    {
        let cursor: usize = value.as_str().unicode_len();
        TextInput { value, cursor }
    }
}

/// Every key leaves the cursor of a text field inside its text.
pub proof fn text_field_stays_wf(s: TextState, code: KeyCode)
    requires
        s.wf(),
    ensures
        s.after(code).wf(),
{
}

/// A character typed into a text field and taken back by Backspace leaves the
/// field as it was.
pub proof fn typing_then_backspace(s: TextState, c: char)
    requires
        s.wf(),
        s.cursor < usize::MAX,
    ensures
        s.after(KeyCode::Char(c)).after(KeyCode::Backspace) == s,
{
    let t = s.after(KeyCode::Char(c));
    assert(t.after(KeyCode::Backspace).value =~= s.value);
}

/// Delete at the cursor removes what Right and then Backspace would remove.
pub proof fn delete_is_right_then_backspace(s: TextState)
    requires
        s.wf(),
        s.cursor < s.value.len(),
    ensures
        s.after(KeyCode::Delete) == s.after(KeyCode::Right).after(KeyCode::Backspace),
{
}

/// A minimal multi-line text editor. Lines are held without their line ending;
/// whether the seed ended in a newline is remembered and restored by `text`.
#[derive(Debug)]
pub struct HunkEditor {
    /// The edited text, one entry per line.
    pub lines: Vec<String>,
    /// Cursor row into `lines`.
    pub row: usize,
    /// Cursor column as a character index into the current line.
    pub col: usize,
    /// Whether the seed text ended in a newline.
    pub trailing_newline: bool,
}

/// What the hunk editor shows.
pub struct HunkState {
    pub lines: Seq<Seq<char>>,
    pub row: int,
    pub col: int,
    pub trailing_newline: bool,
}

impl View for HunkEditor {
    type V = HunkState;

    open spec fn view(&self) -> HunkState {
        HunkState {
            lines: text::views(self.lines@),
            row: self.row as int,
            col: self.col as int,
            trailing_newline: self.trailing_newline,
        }
    }
}

impl HunkState {
    /// The cursor stands on a line, in it or right behind it.
    pub open spec fn wf(self) -> bool {
        0 <= self.row < self.lines.len() && 0 <= self.col <= self.lines[self.row].len()
    }

    /// The text that the lines spell.
    pub open spec fn text(self) -> Seq<char> {
        text::join(self.lines, seq!['\n']) + (if self.trailing_newline {
            seq!['\n']
        } else {
            Seq::empty()
        })
    }

    /// The editor seeded from `t`: one line per newline, without the empty one
    /// that a newline at the very end would leave.
    pub open spec fn seeded(t: Seq<char>) -> HunkState {
        let all = text::split(t, '\n');
        let newline = t.len() > 0 && t.last() == '\n';
        HunkState {
            lines: if newline {
                all.drop_last()
            } else {
                all
            },
            row: 0,
            col: 0,
            trailing_newline: newline,
        }
    }

    /// The editor with line `i` joined onto the end of line `i - 1`.
    pub open spec fn joined_up(self, i: int) -> Seq<Seq<char>> {
        self.lines.update(i - 1, self.lines[i - 1] + self.lines[i]).remove(i)
    }

    /// The editor after one key.
    pub open spec fn after(self, code: KeyCode) -> HunkState {
        let line = self.lines[self.row];
        match code {
            KeyCode::Char(c) => HunkState {
                lines: self.lines.update(self.row, inserted(line, self.col, c)),
                col: text::sat(self.col + 1) as int,
                ..self
            },
            KeyCode::Enter => HunkState {
                lines: self.lines.update(self.row, line.take(self.col)).insert(
                    self.row + 1,
                    line.skip(self.col),
                ),
                row: self.row + 1,
                col: 0,
                ..self
            },
            KeyCode::Backspace => if self.col > 0 {
                HunkState {
                    lines: self.lines.update(self.row, cut(line, self.col - 1, self.col)),
                    col: self.col - 1,
                    ..self
                }
            } else if self.row > 0 {
                HunkState {
                    lines: self.joined_up(self.row),
                    row: self.row - 1,
                    col: self.lines[self.row - 1].len() as int,
                    ..self
                }
            } else {
                self
            },
            KeyCode::Delete => if self.col < line.len() {
                HunkState {
                    lines: self.lines.update(self.row, cut(line, self.col, self.col + 1)),
                    ..self
                }
            } else if self.row + 1 < self.lines.len() {
                HunkState { lines: self.joined_up(self.row + 1), ..self }
            } else {
                self
            },
            KeyCode::Left => if self.col > 0 {
                HunkState { col: self.col - 1, ..self }
            } else if self.row > 0 {
                HunkState {
                    row: self.row - 1,
                    col: self.lines[self.row - 1].len() as int,
                    ..self
                }
            } else {
                self
            },
            KeyCode::Right => if self.col < line.len() {
                HunkState { col: self.col + 1, ..self }
            } else if self.row + 1 < self.lines.len() {
                HunkState { row: self.row + 1, col: 0, ..self }
            } else {
                self
            },
            KeyCode::Up => if self.row > 0 {
                HunkState {
                    row: self.row - 1,
                    col: least(self.col, self.lines[self.row - 1].len() as int),
                    ..self
                }
            } else {
                self
            },
            KeyCode::Down => if self.row + 1 < self.lines.len() {
                HunkState {
                    row: self.row + 1,
                    col: least(self.col, self.lines[self.row + 1].len() as int),
                    ..self
                }
            } else {
                self
            },
            KeyCode::Home => HunkState { col: 0, ..self },
            KeyCode::End => HunkState { col: line.len() as int, ..self },
            _ => self,
        }
    }
}

impl HunkEditor {
    /// The cursor stands on a line, in it or right behind it.
    pub open spec fn wf(self) -> bool {
        self@.wf()
    }

    /// Seeds the editor from `text`, splitting it into editable lines.
    pub fn new(text: &str) -> (r: HunkEditor)
        ensures
            r@ == HunkState::seeded(text@),
            r.wf(),
            r@.text() == text@,
    {
        let mut lines = text::split_at(text, '\n');
        let n: usize = text.unicode_len();
        let trailing_newline = n > 0 && text.get_char(n - 1) == '\n';
        proof {
            text::split_is_not_empty(text@, '\n');
            if trailing_newline {
                text::split_is_not_empty(text@.drop_last(), '\n');
            }
        }
        let ghost all = lines@;
        assert(text::views(all).len() == all.len());
        if trailing_newline {
            let last = lines.pop();
            assert(text::views(lines@) =~= text::views(all).drop_last());
        }
        let r = HunkEditor { lines, row: 0, col: 0, trailing_newline };
        proof {
            seed_round_trip(text@);
            assert(r@.lines =~= HunkState::seeded(text@).lines);
        }
        r
    }

    /// The edited text, with the seed's trailing newline restored.
    pub fn text(&self) -> (r: String)
        ensures
            r@ == self@.text(),
    {
        proof {
            reveal_strlit("\n");
            assert("\n"@ =~= seq!['\n']);
        }
        let mut s = text::join_with(&self.lines, "\n");
        if self.trailing_newline {
            s.push('\n');
        }
        assert(s@ =~= self@.text());
        s
    }

    /// Number of characters on the current line.
    pub fn cur_len(&self) -> (r: usize)
        requires
            self.row < self.lines@.len(),
        ensures
            r == self@.lines[self.row as int].len(),
    {
        self.lines[self.row].as_str().unicode_len()
    }

    /// Applies one key of editing: insert, delete, newline or cursor move.
    pub fn on_key(&mut self, key: KeyEvent)
        requires
            old(self).wf(),
        ensures
            final(self)@ == old(self)@.after(key.code),
            final(self).wf(),
    {
        let row: usize = self.row;
        let count: usize = self.lines.len();
        match key.code {
            KeyCode::Char(c) => {
                line_insert(&mut self.lines[row], &mut self.col, c);
                assert(self@.lines =~= old(self)@.after(key.code).lines);
            },
            KeyCode::Enter => {
                let chars = text::chars_of(self.lines[row].as_str());
                let n: usize = chars.len();
                let head = text::string_of(&chars, 0, self.col);
                let rest = text::string_of(&chars, self.col, n);
                assert(head@ =~= chars@.take(self.col as int));
                assert(rest@ =~= chars@.skip(self.col as int));
                self.lines[row] = head;
                self.lines.insert(row + 1, rest);
                self.row = row + 1;
                self.col = 0;
                assert(self@.lines =~= old(self)@.after(key.code).lines);
            },
            KeyCode::Backspace => {
                if self.col > 0 {
                    line_backspace(&mut self.lines[row], &mut self.col);
                    assert(self@.lines =~= old(self)@.after(key.code).lines);
                } else if row > 0 {
                    let cur = self.lines.remove(row);
                    self.row = row - 1;
                    self.col = self.cur_len();
                    let joined = text::cat2(self.lines[row - 1].as_str(), cur.as_str());
                    self.lines[row - 1] = joined;
                    assert(self@.lines =~= old(self)@.after(key.code).lines);
                }
            },
            KeyCode::Delete => {
                let n: usize = self.cur_len();
                if self.col < n {
                    line_delete(&mut self.lines[row], self.col);
                    assert(self@.lines =~= old(self)@.after(key.code).lines);
                } else if row + 1 < count {
                    let next = self.lines.remove(row + 1);
                    let joined = text::cat2(self.lines[row].as_str(), next.as_str());
                    self.lines[row] = joined;
                    assert(self@.lines =~= old(self)@.after(key.code).lines);
                }
            },
            KeyCode::Left => {
                if self.col > 0 {
                    self.col = self.col - 1;
                } else if row > 0 {
                    self.row = row - 1;
                    self.col = self.cur_len();
                }
            },
            KeyCode::Right => {
                let n: usize = self.cur_len();
                if self.col < n {
                    self.col = self.col + 1;
                } else if row + 1 < count {
                    self.row = row + 1;
                    self.col = 0;
                }
            },
            KeyCode::Up => {
                if row > 0 {
                    self.row = row - 1;
                    let n: usize = self.cur_len();
                    if n < self.col {
                        self.col = n;
                    }
                }
            },
            KeyCode::Down => {
                if row + 1 < count {
                    self.row = row + 1;
                    let n: usize = self.cur_len();
                    if n < self.col {
                        self.col = n;
                    }
                }
            },
            KeyCode::Home => self.col = 0,
            KeyCode::End => self.col = self.cur_len(),
            _ => {},
        }
    }
}

/// The text that an editor gives back before any key is the text it was seeded
/// with.
pub proof fn seed_round_trip(t: Seq<char>)
    ensures
        HunkState::seeded(t).text() == t,
{
    if t.len() > 0 && t.last() == '\n' {
        let init = t.drop_last();
        text::split_join(init, '\n');
        assert(text::split(t, '\n').drop_last() =~= text::split(init, '\n'));
        assert(init + seq!['\n'] =~= t);
    } else {
        text::split_join(t, '\n');
        assert(t + Seq::<char>::empty() =~= t);
    }
}

/// Every key leaves the cursor of the hunk editor on a line and inside it.
pub proof fn hunk_editor_stays_wf(s: HunkState, code: KeyCode)
    requires
        s.wf(),
    ensures
        s.after(code).wf(),
{
}

/// A line broken with Enter and joined again with Backspace is the line it was.
pub proof fn enter_then_backspace(s: HunkState)
    requires
        s.wf(),
    ensures
        s.after(KeyCode::Enter).after(KeyCode::Backspace) == s,
{
    let t = s.after(KeyCode::Enter);
    let line = s.lines[s.row];
    assert(line.take(s.col) + line.skip(s.col) =~= line);
    assert(t.after(KeyCode::Backspace).lines =~= s.lines);
}

/// A character typed into the hunk editor and taken back by Backspace leaves
/// the editor as it was.
pub proof fn hunk_typing_then_backspace(s: HunkState, c: char)
    requires
        s.wf(),
        s.col < usize::MAX,
    ensures
        s.after(KeyCode::Char(c)).after(KeyCode::Backspace) == s,
{
    let t = s.after(KeyCode::Char(c));
    assert(t.after(KeyCode::Backspace).lines[s.row] =~= s.lines[s.row]);
    assert(t.after(KeyCode::Backspace).lines =~= s.lines);
}

/// Cursor keys leave the text of the hunk editor alone.
pub proof fn moving_keeps_text(s: HunkState, code: KeyCode)
    requires
        !(code is Char || code is Enter || code is Backspace || code is Delete),
    ensures
        s.after(code).text() == s.text(),
{
}

} // verus!
