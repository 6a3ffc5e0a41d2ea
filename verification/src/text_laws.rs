//! What holds of the small operations on texts.

use vstd::prelude::*;
use vstd::string::*;

use crate::input::{HunkState, KeyCode, TextState};
use crate::rows;
use crate::text;

verus! {

/// Whether every character is white space.
pub open spec fn blank(s: Seq<char>) -> bool {
    forall|i: int| 0 <= i < s.len() ==> text::is_white(#[trigger] s[i])
}

proof fn start_is_blank(s: Seq<char>) -> (head: Seq<char>)
    ensures
        blank(head),
        s == head + text::trim_start(s),
        text::trim_start(s).len() > 0 ==> !text::is_white(text::trim_start(s)[0]),
    decreases s.len(),
{
    if s.len() > 0 && text::is_white(s[0]) {
        let rest = start_is_blank(s.drop_first());
        let head = seq![s[0]] + rest;
        let t = text::trim_start(s.drop_first());
        assert(s =~= seq![s[0]] + s.drop_first());
        assert(seq![s[0]] + (rest + t) =~= head + t);
        assert(text::trim_start(s) == t);
        head
    } else {
        assert(s =~= Seq::<char>::empty() + s);
        Seq::empty()
    }
}

proof fn end_is_blank(s: Seq<char>) -> (tail: Seq<char>)
    ensures
        blank(tail),
        s == text::trim_end(s) + tail,
        text::trim_end(s).len() > 0 ==> !text::is_white(text::trim_end(s).last()),
    decreases s.len(),
{
    if s.len() > 0 && text::is_white(s.last()) {
        let rest = end_is_blank(s.drop_last());
        let tail = rest.push(s.last());
        let t = text::trim_end(s.drop_last());
        assert(s =~= s.drop_last().push(s.last()));
        assert((t + rest).push(s.last()) =~= t + tail);
        assert(text::trim_end(s) == t);
        tail
    } else {
        assert(s =~= s + Seq::<char>::empty());
        Seq::empty()
    }
}

/// Trimming takes white space away at both ends, and nothing else: what is left
/// begins and ends with something else, or is nothing at all.
pub proof fn trimming_takes_the_blanks(s: Seq<char>)
    ensures
        exists|head: Seq<char>, tail: Seq<char>|
            blank(head) && blank(tail) && s == #[trigger] (head + text::trimmed(s) + tail),
        text::trimmed(s).len() > 0 ==> !text::is_white(text::trimmed(s)[0])
            && !text::is_white(text::trimmed(s).last()),
        text::trimmed(s).len() == 0 <==> blank(s),
{
    let head = start_is_blank(s);
    let rest = text::trim_start(s);
    let tail = end_is_blank(rest);
    assert(s =~= head + text::trimmed(s) + tail);
    if text::trimmed(s).len() > 0 {
        assert(text::trimmed(s)[0] == rest[0]);
        assert(s[head.len() as int] == rest[0]);
    } else {
        assert forall|i: int| 0 <= i < s.len() implies text::is_white(#[trigger] s[i]) by {
            if i < head.len() {
                assert(s[i] == head[i]);
            } else {
                assert(s[i] == tail[i - head.len()]);
            }
        }
    }
}

/// Blanks, tabs and line ends are white space; letters, digits and signs of ASCII
/// are not.
pub proof fn white_space_is_what_it_is(c: char)
    ensures
        c == ' ' || c == '\t' || c == '\n' || c == '\r' ==> text::is_white(c),
        33 <= c as int <= 126 ==> !text::is_white(c),
{
}

/// A text begins with another when it is that text and something behind it, ends
/// with another when that stands behind something, and holds another when it
/// stands anywhere in it.
pub proof fn parts_of_a_text(s: Seq<char>, t: Seq<char>)
    ensures
        text::begins(s, t) <==> exists|b: Seq<char>| s == #[trigger] (t + b),
        text::ends(s, t) <==> exists|a: Seq<char>| s == #[trigger] (a + t),
        text::has(s, t) <==> exists|a: Seq<char>, b: Seq<char>| s == #[trigger] (a + t + b),
{
    let n = t.len() as int;
    if text::begins(s, t) {
        assert(s =~= s.subrange(0, n) + s.skip(n));
        assert(s == t + s.skip(n));
    }
    if exists|b: Seq<char>| s == #[trigger] (t + b) {
        assert(s.subrange(0, n) =~= t);
    }
    if text::ends(s, t) {
        let k = s.len() - n;
        assert(s =~= s.take(k) + s.subrange(k, s.len() as int));
        assert(s == s.take(k) + t);
    }
    if exists|a: Seq<char>| s == #[trigger] (a + t) {
        assert(s.subrange(s.len() - n, s.len() as int) =~= t);
    }
    if text::has(s, t) {
        let i = choose|i: int| text::occurs_at(s, t, i);
        assert(s =~= s.take(i) + s.subrange(i, i + n) + s.skip(i + n));
        assert(s == s.take(i) + t + s.skip(i + n));
    }
    if exists|a: Seq<char>, b: Seq<char>| s == #[trigger] (a + t + b) {
        let (a, b) = choose|a: Seq<char>, b: Seq<char>| s == #[trigger] (a + t + b);
        assert(s.subrange(a.len() as int, a.len() + n) =~= t);
        assert(text::occurs_at(s, t, a.len() as int));
    }
}

/// The number that digits spell in base ten.
pub open spec fn read_number(s: Seq<char>) -> int
    decreases s.len(),
{
    if s.len() == 0 {
        0
    } else {
        10 * read_number(s.drop_last()) + (s.last() as int - '0' as int)
    }
}

/// A number that is written in base ten reads back as itself, in digits alone and
/// without a zero in front.
pub proof fn numbers_read_back(n: nat)
    ensures
        read_number(text::decimal(n)) == n,
        text::decimal(n).len() > 0,
        forall|i: int|
            0 <= i < text::decimal(n).len() ==> '0' as int <= (#[trigger] text::decimal(n)[i]) as int
                <= '9' as int,
        n > 0 ==> text::decimal(n)[0] != '0',
    decreases n,
{
    if n < 10 {
        reveal_with_fuel(read_number, 2);
        assert(text::decimal(n).drop_last() =~= Seq::<char>::empty());
    } else {
        numbers_read_back(n / 10);
        assert(text::decimal(n).drop_last() =~= text::decimal(n / 10));
    }
}

/// A text is read line by line: a line ends at its newline, and a carriage return
/// before that is no part of it; nothing stands behind the last newline.
pub proof fn lines_end_at_newlines(line: Seq<char>, rest: Seq<char>)
    requires
        !line.contains('\n'),
    ensures
        text::lines_of(Seq::empty()).len() == 0,
        line.len() > 0 ==> text::lines_of(line) == seq![line],
        text::lines_of(line.push('\n') + rest) == seq![
            if line.len() > 0 && line.last() == '\r' {
                line.drop_last()
            } else {
                line
            },
        ] + text::lines_of(rest),
{
    text::split_plain(Seq::empty(), '\n');
    text::split_plain(line, '\n');
    text::split_concat(line, rest, '\n');
    text::split_is_not_empty(rest, '\n');
    let p = text::split(rest, '\n');
    let all = text::split(line.push('\n') + rest, '\n');
    assert(all =~= seq![line] + p);
    assert(all.last() == p.last());
    if line.len() > 0 {
        assert(text::lines_of(line) =~= seq![line]);
    }
    assert(text::lines_of(line.push('\n') + rest) =~= seq![text::without_return(line)]
        + text::lines_of(rest));
}

/// Of two texts the one comes first that has the smaller character where they
/// differ first; a text comes before everything that it begins.
pub proof fn order_of_texts(common: Seq<char>, a: Seq<char>, b: Seq<char>)
    requires
        b.len() > 0,
    ensures
        a.len() == 0 ==> rows::lex_lt(common + a, common + b) && !rows::lex_lt(
            common + b,
            common + a,
        ),
        a.len() > 0 && (a[0] as int) < b[0] as int ==> rows::lex_lt(common + a, common + b)
            && !rows::lex_lt(common + b, common + a),
    decreases common.len(),
{
    if common.len() > 0 {
        assert((common + a).drop_first() =~= common.drop_first() + a);
        assert((common + b).drop_first() =~= common.drop_first() + b);
        order_of_texts(common.drop_first(), a, b);
    } else {
        assert(common + a =~= a);
        assert(common + b =~= b);
    }
}

/// A text field takes a character in at its cursor, Backspace takes the one before
/// it out and Delete the one at it; the arrows, Home and End move the cursor alone.
pub proof fn text_field_keys(before: Seq<char>, c: char, after: Seq<char>)
    requires
        before.len() + after.len() + 1 < usize::MAX,
    ensures
        (TextState { value: before + after, cursor: before.len() as int }).after(KeyCode::Char(c))
            == (TextState { value: before.push(c) + after, cursor: before.len() as int + 1 }),
        (TextState { value: before.push(c) + after, cursor: before.len() as int + 1 }).after(
            KeyCode::Backspace,
        ) == (TextState { value: before + after, cursor: before.len() as int }),
        (TextState { value: before.push(c) + after, cursor: before.len() as int }).after(
            KeyCode::Delete,
        ) == (TextState { value: before + after, cursor: before.len() as int }),
        (TextState { value: before.push(c) + after, cursor: before.len() as int + 1 }).after(
            KeyCode::Left,
        ) == (TextState { value: before.push(c) + after, cursor: before.len() as int }),
        (TextState { value: before.push(c) + after, cursor: before.len() as int }).after(
            KeyCode::Right,
        ) == (TextState { value: before.push(c) + after, cursor: before.len() as int + 1 }),
        (TextState { value: before + after, cursor: before.len() as int }).after(KeyCode::Home)
            == (TextState { value: before + after, cursor: 0 }),
        (TextState { value: before + after, cursor: before.len() as int }).after(KeyCode::End)
            == (TextState {
            value: before + after,
            cursor: before.len() as int + after.len(),
        }),
{
    let n = before.len() as int;
    assert((before + after).insert(n, c) =~= before.push(c) + after);
    let v = before.push(c) + after;
    assert(v.take(n) + v.skip(n + 1) =~= before + after);
}

/// In the editor for a conflict a character goes in at the cursor, and Enter breaks
/// the line there; no other line changes.
pub proof fn hunk_editor_keys(s: HunkState, before: Seq<char>, c: char, after: Seq<char>)
    requires
        0 <= s.row < s.lines.len(),
        s.lines[s.row] == before + after,
        s.col == before.len(),
        before.len() < usize::MAX,
    ensures
        s.after(KeyCode::Char(c)) == (HunkState {
            lines: s.lines.update(s.row, before.push(c) + after),
            col: before.len() as int + 1,
            ..s
        }),
        s.after(KeyCode::Enter) == (HunkState {
            lines: s.lines.take(s.row) + seq![before, after] + s.lines.skip(s.row + 1),
            row: s.row + 1,
            col: 0,
            ..s
        }),
{
    let n = before.len() as int;
    assert((before + after).insert(n, c) =~= before.push(c) + after);
    assert((before + after).take(n) =~= before);
    assert((before + after).skip(n) =~= after);
    assert(s.after(KeyCode::Enter).lines =~= s.lines.take(s.row) + seq![before, after]
        + s.lines.skip(s.row + 1));
}

} // verus!
