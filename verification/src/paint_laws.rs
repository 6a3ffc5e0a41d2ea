//! How diffs are coloured, and how paths are spelled.

use vstd::prelude::*;
use vstd::string::*;

use crate::highlight;
use crate::highlight::{RegionView, DEFAULT_DIFF_THEME, DIFF_THEMES};
use crate::paths;
use crate::paths::PartView;
use crate::styled::Style;
use crate::text;
use crate::theme::Color;

verus! {

/// An added line is drawn over dark green with a bold green plus, a removed one
/// over dark red with a bold red minus, and one that stayed over nothing. Without
/// highlighting the code has the colour of its sign.
pub proof fn signs_decide_the_colours(line: Seq<char>)
    requires
        line.len() > 0,
    ensures
        highlight::painted_code(line, None).spans.len() == 2,
        highlight::painted_code(line, None).spans[0].text == seq![line[0]],
        highlight::painted_code(line, None).spans[1].text == line.skip(1),
        line[0] == '+' ==> highlight::painted_code(line, None).spans[0].style == (Style {
            fg: Some(Color::Green),
            bg: Some(Color::Rgb(16, 60, 30)),
            bold: true,
            dim: false,
        }) && highlight::painted_code(line, None).spans[1].style == (Style {
            fg: Some(Color::Green),
            bg: Some(Color::Rgb(16, 60, 30)),
            bold: false,
            dim: false,
        }),
        line[0] == '-' ==> highlight::painted_code(line, None).spans[0].style == (Style {
            fg: Some(Color::Red),
            bg: Some(Color::Rgb(72, 24, 24)),
            bold: true,
            dim: false,
        }) && highlight::painted_code(line, None).spans[1].style == (Style {
            fg: Some(Color::Red),
            bg: Some(Color::Rgb(72, 24, 24)),
            bold: false,
            dim: false,
        }),
        line[0] == ' ' ==> highlight::painted_code(line, None).spans[0].style == (Style {
            fg: None,
            bg: None,
            bold: false,
            dim: false,
        }),
{
}

/// Highlighted code keeps the colour of each of its pieces, in their order, over
/// the background that the sign of the line asks for.
pub proof fn pieces_keep_their_colours(line: Seq<char>, rs: Seq<RegionView>, i: int)
    requires
        line.len() > 0,
        0 <= i < rs.len(),
    ensures
        highlight::painted_code(line, Some(rs)).spans.len() == rs.len() + 1,
        highlight::painted_code(line, Some(rs)).spans[i + 1].text == rs[i].text,
        highlight::painted_code(line, Some(rs)).spans[i + 1].style.fg == Some(
            Color::Rgb(rs[i].red, rs[i].green, rs[i].blue),
        ),
        line[0] == '+' ==> highlight::painted_code(line, Some(rs)).spans[i + 1].style.bg == Some(
            Color::Rgb(16, 60, 30),
        ),
        line[0] == '-' ==> highlight::painted_code(line, Some(rs)).spans[i + 1].style.bg == Some(
            Color::Rgb(72, 24, 24),
        ),
        line[0] != '+' && line[0] != '-' ==> highlight::painted_code(
            line,
            Some(rs),
        ).spans[i + 1].style.bg is None,
{
}

/// The headers of a diff are no code: the names of its files are bold, the places
/// of its changes cyan, and its first line bold and magenta. Any other line that
/// starts with a sign is code.
pub proof fn headers_have_their_own_look(rest: Seq<char>, line: Seq<char>)
    ensures
        highlight::header_line("+++"@ + rest).style == (Style {
            fg: None,
            bg: None,
            bold: true,
            dim: false,
        }),
        highlight::header_line("---"@ + rest).style == (Style {
            fg: None,
            bg: None,
            bold: true,
            dim: false,
        }),
        highlight::header_line("@@"@ + rest).style == (Style {
            fg: Some(Color::Cyan),
            bg: None,
            bold: false,
            dim: false,
        }),
        highlight::header_line("diff --git"@ + rest).style == (Style {
            fg: Some(Color::Magenta),
            bg: None,
            bold: true,
            dim: false,
        }),
        !highlight::is_code("+++"@ + rest),
        !highlight::is_code("---"@ + rest),
        line.len() > 1 && (line[0] == '+' || line[0] == '-' || line[0] == ' ') && line[1]
            != line[0] ==> highlight::is_code(line),
        line.len() == 0 || (line[0] != '+' && line[0] != '-' && line[0] != ' ')
            ==> !highlight::is_code(line),
{
    reveal_strlit("+++");
    reveal_strlit("---");
    reveal_strlit("@@");
    reveal_strlit("diff --git");
    begins_with_its_head("+++"@, rest);
    begins_with_its_head("---"@, rest);
    begins_with_its_head("@@"@, rest);
    begins_with_its_head("diff --git"@, rest);
    let a = "---"@ + rest;
    assert(a[0] == '-');
    other_head(a, "+++"@);
    let b = "@@"@ + rest;
    assert(b[0] == '@');
    other_head(b, "+++"@);
    other_head(b, "---"@);
    let c = "diff --git"@ + rest;
    assert(c[0] == 'd');
    other_head(c, "+++"@);
    other_head(c, "---"@);
    other_head(c, "@@"@);
    if line.len() > 1 {
        if text::begins(line, "+++"@) {
            assert(line.subrange(0, 3)[0] == line[0] && line.subrange(0, 3)[1] == line[1]);
        }
        if text::begins(line, "---"@) {
            assert(line.subrange(0, 3)[0] == line[0] && line.subrange(0, 3)[1] == line[1]);
        }
        if text::begins(line, "@@"@) {
            assert(line.subrange(0, 2)[0] == line[0]);
        }
        if text::begins(line, "diff --git"@) {
            assert(line.subrange(0, 10)[0] == line[0]);
        }
    }
}

proof fn begins_with_its_head(head: Seq<char>, rest: Seq<char>)
    ensures
        text::begins(head + rest, head),
{
    assert((head + rest).subrange(0, head.len() as int) =~= head);
}

proof fn other_head(s: Seq<char>, head: Seq<char>)
    requires
        s.len() > 0,
        head.len() > 0,
        s[0] != head[0],
    ensures
        !text::begins(s, head),
{
    if text::begins(s, head) {
        assert(s.subrange(0, head.len() as int)[0] == s[0]);
    }
}

/// The themes for diffs, by the name that is configured and the name that syntect
/// knows them by; the first one is the default, also where nothing is configured.
pub proof fn themes_in_their_order(blank: Seq<char>)
    requires
        text::trimmed(blank).len() == 0,
    ensures
        DIFF_THEMES[0].0@ == "eighties"@ && DIFF_THEMES[0].2@ == "base16-eighties.dark"@,
        DIFF_THEMES[1].0@ == "mocha"@ && DIFF_THEMES[1].2@ == "base16-mocha.dark"@,
        DIFF_THEMES[2].0@ == "ocean"@ && DIFF_THEMES[2].2@ == "base16-ocean.dark"@,
        DIFF_THEMES[3].0@ == "solarized"@ && DIFF_THEMES[3].2@ == "Solarized (dark)"@,
        DIFF_THEMES[4].0@ == "github"@ && DIFF_THEMES[4].2@ == "InspiredGitHub"@,
        DEFAULT_DIFF_THEME@ == "eighties"@,
        highlight::theme_index(blank) == 0,
{
}

/// A diff of more than four thousand lines is drawn without highlighting.
pub proof fn long_diffs_are_plain(
    set: syntect::parsing::SyntaxSet,
    theme: syntect::highlighting::Theme,
    path: Seq<char>,
    content: Seq<char>,
)
    ensures
        text::lines_of(content).len() > 4000 ==> highlight::highlighter_for(
            set,
            theme,
            path,
            content,
        ) is None,
        highlight::syntax_of_path(set, path) is None ==> highlight::highlighter_for(
            set,
            theme,
            path,
            content,
        ) is None,
        text::lines_of(content).len() <= 4000 && highlight::syntax_of_path(
            set,
            path,
        ) is Some ==> highlight::highlighter_for(set, theme, path, content) is Some,
{
}

/// A named segment and the `..` behind it cancel each other; a `..` at the start
/// or behind another stays.
pub proof fn pairs_cancel(parts: Seq<PartView>, s: Seq<char>)
    ensures
        paths::tidied(parts.push(PartView::Normal(s)).push(PartView::ParentDir)) == paths::tidied(
            parts,
        ),
        paths::tidied(parts.push(PartView::Normal(s))) == paths::tidied(parts).push(
            PartView::Normal(s),
        ),
        paths::tidied(seq![PartView::ParentDir]) == seq![PartView::ParentDir],
{
    let one = parts.push(PartView::Normal(s));
    let two = one.push(PartView::ParentDir);
    assert(one.drop_last() =~= parts);
    assert(two.drop_last() =~= one);
    assert(paths::tidied(one) == paths::tidied(parts).push(PartView::Normal(s)));
    assert(paths::tidied(two) =~= paths::tidied(parts));
    reveal_with_fuel(paths::tidied, 3);
    let up = seq![PartView::ParentDir];
    assert(up.drop_last() =~= Seq::<PartView>::empty());
    assert(paths::tidied(up) =~= up);
}

/// The segments of a path are spelled with one separator between them, and none
/// behind the root.
pub proof fn segments_are_parted(parts: Seq<PartView>, s: Seq<char>, sep: char)
    ensures
        parts.len() > 0 && (parts.last() is Normal || parts.last() is ParentDir || parts.last()
            is CurDir) ==> paths::spelled(parts.push(PartView::Normal(s)), sep) == paths::spelled(
            parts,
            sep,
        ).push(sep) + s,
        parts.len() > 0 && parts.last() is RootDir ==> paths::spelled(
            parts.push(PartView::Normal(s)),
            sep,
        ) == paths::spelled(parts, sep) + s,
        paths::spelled(seq![PartView::Normal(s)], sep) == s,
        paths::spelled(seq![PartView::RootDir], sep) == seq![sep],
        paths::spelled(seq![PartView::ParentDir], sep) == seq!['.', '.'],
{
    let all = parts.push(PartView::Normal(s));
    assert(all.drop_last() =~= parts);
    reveal_with_fuel(paths::spelled, 3);
    let a = seq![PartView::Normal(s)];
    let b = seq![PartView::RootDir];
    let c = seq![PartView::ParentDir];
    assert(a.drop_last() =~= Seq::<PartView>::empty());
    assert(b.drop_last() =~= Seq::<PartView>::empty());
    assert(c.drop_last() =~= Seq::<PartView>::empty());
    assert(Seq::<char>::empty() + s =~= s);
    assert(Seq::<char>::empty() + seq![sep] =~= seq![sep]);
    assert(Seq::<char>::empty() + seq!['.', '.'] =~= seq!['.', '.']);
}

} // verus!
