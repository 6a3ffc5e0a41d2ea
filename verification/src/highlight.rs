//! Syntax-highlighted rendering of unified diff text.
//!
//! Added and removed lines get a green or red background across the whole line,
//! and the code on it is coloured by syntect from the file's extension. Headers
//! (`diff --git`, `+++`, `---`, `@@`) have styles of their own.

use syntect::easy::HighlightLines;
use syntect::highlighting::{Theme, ThemeSet};
use syntect::parsing::{SyntaxReference, SyntaxSet};
use vstd::prelude::*;
use vstd::string::*;

use crate::styled;
use crate::styled::{Line, LineView, Span, SpanView, Style};
use crate::text;
use crate::theme::{Color, ACCENT, INFO};

verus! {

/// Diffs longer than this are not highlighted, so that a huge diff never stalls
/// the redraw.
pub const MAX_HIGHLIGHT_LINES: usize = 4000;

/// The themes for the diff pane: short id, label, and syntect's name for it.
pub const DIFF_THEMES: [(&'static str, &'static str, &'static str); 5] = [
    ("eighties", "Eighties", "base16-eighties.dark"),
    ("mocha", "Mocha", "base16-mocha.dark"),
    ("ocean", "Ocean", "base16-ocean.dark"),
    ("solarized", "Solarized", "Solarized (dark)"),
    ("github", "GitHub", "InspiredGitHub"),
];

/// The theme that applies when none is configured.
pub const DEFAULT_DIFF_THEME: &'static str = "eighties";

/// A small diff that shows what a theme looks like.
pub const THEME_PREVIEW_SAMPLE: &'static str =
    "@@ -1,2 +1,2 @@\n-fn greet(n: i32) { println!(\"{n}\"); }\n+fn greet(n: i32) { println!(\"{n}!\"); }\n";

/// syntect's set of syntax definitions.
#[verifier::external_type_specification]
#[verifier::external_body]
pub struct ExSyntaxSet(SyntaxSet);

/// One of syntect's syntax definitions.
#[verifier::external_type_specification]
#[verifier::external_body]
pub struct ExSyntaxReference(SyntaxReference);

/// syntect's set of colour themes.
#[verifier::external_type_specification]
#[verifier::external_body]
pub struct ExThemeSet(ThemeSet);

/// One of syntect's colour themes.
#[verifier::external_type_specification]
#[verifier::external_body]
pub struct ExTheme(Theme);

/// syntect's line highlighter: where it stands in a file.
#[verifier::external_type_specification]
#[verifier::external_body]
pub struct ExHighlightLines<'a>(HighlightLines<'a>);

/// A piece of highlighted code: its foreground colour and its text.
#[derive(Debug)]
pub struct Region {
    pub red: u8,
    pub green: u8,
    pub blue: u8,
    pub text: String,
}

/// What a piece of highlighted code shows.
pub struct RegionView {
    pub red: u8,
    pub green: u8,
    pub blue: u8,
    pub text: Seq<char>,
}

impl View for Region {
    type V = RegionView;

    open spec fn view(&self) -> RegionView {
        RegionView { red: self.red, green: self.green, blue: self.blue, text: self.text@ }
    }
}

/// The views of a list of regions.
pub open spec fn region_views(v: Seq<Region>) -> Seq<RegionView> {
    v.map_values(|r: Region| r@)
}

/// The views of the pieces of a line, if it could be highlighted.
pub open spec fn pieces(v: Option<Vec<Region>>) -> Option<Seq<RegionView>> {
    match v {
        Some(rs) => Some(region_views(rs@)),
        None => None,
    }
}

/// The pieces one after the other, as text.
pub open spec fn region_text(rs: Seq<RegionView>) -> Seq<char>
    decreases rs.len(),
{
    if rs.len() == 0 {
        Seq::empty()
    } else {
        region_text(rs.drop_last()) + rs.last().text
    }
}

/// Whether a set is the one that `SyntaxSet::load_defaults_newlines` gives.
pub uninterp spec fn bundled(set: SyntaxSet) -> bool;

/// What `SyntaxSet::find_syntax_by_extension` finds for an extension.
pub uninterp spec fn syntax_for(set: SyntaxSet, extension: Seq<char>) -> Option<SyntaxReference>;

/// The theme that a `ThemeSet` holds under a name.
pub uninterp spec fn theme_for(set: ThemeSet, name: Seq<char>) -> Option<Theme>;

/// What `HighlightLines::new` makes of a syntax and a theme.
pub uninterp spec fn fresh(syntax: SyntaxReference, theme: Theme) -> HighlightLines<'static>;

/// What `HighlightLines::highlight_line` makes of a line: the highlighter behind
/// it, and the pieces of the line with their colours, if it could be parsed.
pub uninterp spec fn highlighted(h: HighlightLines<'static>, line: Seq<char>, set: SyntaxSet) -> (
    HighlightLines<'static>,
    Option<Seq<RegionView>>,
);

/// The highlighter after it was given `lines` one by one.
pub open spec fn fed(h: HighlightLines<'static>, lines: Seq<Seq<char>>, set: SyntaxSet) -> HighlightLines<
    'static,
>
    decreases lines.len(),
{
    if lines.len() == 0 {
        h
    } else {
        highlighted(fed(h, lines.drop_last(), set), lines.last(), set).0
    }
}

/// Whether `h` is what became of a highlighter for a syntax of `set` that was
/// given `lines` with that set.
pub open spec fn comes_from(
    h: HighlightLines<'static>,
    set: SyntaxSet,
    extension: Seq<char>,
    theme: Theme,
    lines: Seq<Seq<char>>,
) -> bool {
    syntax_for(set, extension) matches Some(syntax) && h == fed(fresh(syntax, theme), lines, set)
}

/// Whether a syntax is one of those that come with syntect.
pub open spec fn comes_along(syntax: SyntaxReference) -> bool {
    exists|set: SyntaxSet, extension: Seq<char>|
        bundled(set) && #[trigger] syntax_for(set, extension) == Some(syntax)
}

/// Whether `h` highlights with a syntax of `set`.
pub open spec fn fits(h: HighlightLines<'static>, set: SyntaxSet) -> bool {
    exists|extension: Seq<char>, theme: Theme, lines: Seq<Seq<char>>|
        comes_from(h, set, extension, theme, lines)
}

/// `SyntaxSet::load_defaults_newlines` gives the syntax definitions that come
/// with syntect. Of what they are nothing is said but that they are these: other
/// sets can hold definitions on which syntect panics.
#[verifier::external_body]
fn load_syntaxes() -> (r: SyntaxSet)
    ensures
        bundled(r),
{
    SyntaxSet::load_defaults_newlines()
}

/// `ThemeSet::load_defaults` gives the themes that come with syntect; those of
/// `DIFF_THEMES` are among them.
#[verifier::external_body]
fn load_themes() -> (r: ThemeSet)
    ensures
        forall|i: int| 0 <= i < 5 ==> theme_for(r, #[trigger] DIFF_THEMES[i].2@) is Some,
{
    ThemeSet::load_defaults()
}

/// `SyntaxSet::find_syntax_by_extension` looks a syntax up by a file extension
/// or a full file name; what it finds depends on the set and that text alone.
#[verifier::external_body]
fn find_syntax<'a>(set: &'a SyntaxSet, extension: &str) -> (r: Option<&'a SyntaxReference>)
    ensures
        match r {
            Some(s) => syntax_for(*set, extension@) == Some(*s),
            None => syntax_for(*set, extension@) is None,
        },
{
    set.find_syntax_by_extension(extension)
}

/// `BTreeMap::get` on the `themes` of a `ThemeSet` looks a theme up by its name.
#[verifier::external_body]
fn find_theme<'a>(set: &'a ThemeSet, name: &str) -> (r: Option<&'a Theme>)
    ensures
        match r {
            Some(t) => theme_for(*set, name@) == Some(*t),
            None => theme_for(*set, name@) is None,
        },
{
    set.themes.get(name)
}

/// `HighlightLines::new` starts highlighting a file; the highlighter depends on
/// the syntax and the theme alone. The syntax has to be one that comes with
/// syntect, since one without a start context makes it panic.
#[verifier::external_body]
fn start_file<'a>(syntax: &SyntaxReference, theme: &'a Theme) -> (r: HighlightLines<'a>)
    requires
        comes_along(*syntax),
    ensures
        r == fresh(*syntax, *theme),
{
    HighlightLines::new(syntax, theme)
}

/// `HighlightLines::highlight_line` highlights the next line of a file. Where
/// the highlighter then stands, and the coloured pieces (none when the line
/// could not be parsed), depend on where it stood, the line and the set alone.
/// The pieces are the line cut into parts, from its start on; they may end early
/// where a scope cannot be applied. The set has to be the one that comes with
/// syntect, and the highlighter's syntax has to be from it.
#[verifier::external_body]
fn next_line<'a>(h: &mut HighlightLines<'a>, line: &str, set: &SyntaxSet) -> (r: Option<
    Vec<Region>,
>)
    requires
        bundled(*set),
        fits(*old(h), *set),
    ensures
        *final(h) == highlighted(*old(h), line@, *set).0,
        match r {
            Some(v) => highlighted(*old(h), line@, *set).1 == Some(region_views(v@)),
            None => highlighted(*old(h), line@, *set).1 is None,
        },
        match r {
            Some(v) => region_text(region_views(v@)).is_prefix_of(line@),
            None => true,
        },
{
    let found = h.highlight_line(line, set).ok()?;
    let regions = found.into_iter().map(
        |(style, text)| Region {
            red: style.foreground.r,
            green: style.foreground.g,
            blue: style.foreground.b,
            text: text.to_string(),
        },
    );
    Some(regions.collect())
}

/// Background of added lines.
pub open spec fn add_bg() -> Color {
    Color::Rgb(16, 60, 30)
}

/// Background of removed lines.
pub open spec fn del_bg() -> Color {
    Color::Rgb(72, 24, 24)
}

/// Whether the trimmed text `t` names theme `i`, by its id in any case or by
/// syntect's name for it.
pub open spec fn names_theme(t: Seq<char>, i: int) -> bool {
    text::same_letters(t, DIFF_THEMES[i].0@) || t == DIFF_THEMES[i].2@
}

/// The first theme from `i` on that `t` names; the default where there is none.
pub open spec fn theme_from(t: Seq<char>, i: int) -> int
    decreases 5 - i,
{
    if i >= 5 {
        0
    } else if names_theme(t, i) {
        i
    } else {
        theme_from(t, i + 1)
    }
}

/// The theme that a configured value stands for; the default where it is blank
/// or unknown.
pub open spec fn theme_index(raw: Seq<char>) -> int {
    if text::trimmed(raw).len() == 0 {
        0
    } else {
        theme_from(text::trimmed(raw), 0)
    }
}

proof fn theme_from_in_range(t: Seq<char>, i: int)
    requires
        0 <= i <= 5,
    ensures
        0 <= theme_from(t, i) < 5,
    decreases 5 - i,
{
    if i < 5 {
        theme_from_in_range(t, i + 1);
    }
}

/// The place in the catalogue of the theme that `raw` stands for.
fn find_theme_index(raw: &str) -> (r: usize)
    ensures
        r == theme_index(raw@),
        r < 5,
{
    let t = text::trim(raw);
    if t.as_str().unicode_len() == 0 {
        return 0;
    }
    let mut i: usize = 0;
    while i < 5
        invariant
            i <= 5,
            t@.len() > 0,
            t@ == text::trimmed(raw@),
            theme_index(raw@) == theme_from(t@, i as int),
        decreases 5 - i,
    {
        if text::same_ignoring_case(t.as_str(), DIFF_THEMES[i].0) || text::same(
            t.as_str(),
            DIFF_THEMES[i].2,
        ) {
            return i;
        }
        i += 1;
    }
    0
}

/// Resolves a configured value (short id or syntect's name) to a known short id.
pub fn normalize_theme_id(raw: &str) -> (r: &'static str)
    ensures
        r@ == DIFF_THEMES[theme_index(raw@)].0@,
{
    DIFF_THEMES[find_theme_index(raw)].0
}

/// The label of a theme.
pub fn theme_label(id: &str) -> (r: &'static str)
    ensures
        r@ == DIFF_THEMES[theme_index(id@)].1@,
{
    DIFF_THEMES[find_theme_index(id)].1
}

/// syntect's name of a theme.
fn syntect_name_for(id: &str) -> (r: &'static str)
    ensures
        r@ == DIFF_THEMES[theme_index(id@)].2@,
        0 <= theme_index(id@) < 5,
{
    DIFF_THEMES[find_theme_index(id)].2
}

/// A rendered diff, kept so that drawing the same diff again costs nothing.
pub struct Rendered {
    pub theme_id: String,
    pub path: String,
    pub content: String,
    pub lines: Vec<Line>,
}

/// What diffs are rendered with: the syntaxes and themes, the theme in use, and
/// the diff rendered last.
pub struct Highlight {
    pub syntaxes: SyntaxSet,
    pub themes: ThemeSet,
    pub theme_id: String,
    pub cache: Option<Rendered>,
}

impl Highlight {
    /// The syntaxes are the bundled ones, every theme of the catalogue can be had,
    /// the theme in use is one of them, and what is kept is what rendering again
    /// would give.
    pub open spec fn wf(self) -> bool {
        &&& bundled(self.syntaxes)
        &&& forall|i: int|
            0 <= i < 5 ==> theme_for(self.themes, #[trigger] DIFF_THEMES[i].2@) is Some
        &&& exists|i: int| 0 <= i < 5 && self.theme_id@ == #[trigger] DIFF_THEMES[i].0@
        &&& self.cache matches Some(c) ==> styled::line_views(c.lines@) == self.rendering(
            c.theme_id@,
            c.path@,
            c.content@,
        ) && shows_diff(styled::line_views(c.lines@), c.content@)
    }

    /// The rendering of a diff in a theme.
    pub open spec fn rendering(self, theme_id: Seq<char>, path: Seq<char>, content: Seq<char>) -> Seq<
        LineView,
    > {
        rendered(
            self.syntaxes,
            theme_for(self.themes, DIFF_THEMES[theme_index(theme_id)].2@)->0,
            path,
            content,
        )
    }

    /// The bundled syntaxes and themes, with the default theme in use.
    pub fn new() -> (r: Highlight)
        ensures
            r.wf(),
            r.theme_id@ == DEFAULT_DIFF_THEME@,
            r.cache is None,
    {
        let r = Highlight {
            syntaxes: load_syntaxes(),
            themes: load_themes(),
            theme_id: DEFAULT_DIFF_THEME.to_string(),
            cache: None,
        };
        assert(r.theme_id@ == DIFF_THEMES[0].0@);
        r
    }

    /// The theme with the given short id.
    fn theme_by_id(&self, id: &str) -> (r: &Theme)
        requires
            self.wf(),
        ensures
            theme_for(self.themes, DIFF_THEMES[theme_index(id@)].2@) == Some(*r),
    {
        let name = syntect_name_for(id);
        find_theme(&self.themes, name).unwrap()
    }
}

/// The short id of the theme in use.
pub fn active_theme_id(h: &Highlight) -> (r: String)
    ensures
        r == h.theme_id,
{
    h.theme_id.clone()
}

/// Switches to `raw` (a short id or syntect's name), dropping what is kept of
/// another theme.
pub fn set_theme(h: &mut Highlight, raw: &str)
    requires
        old(h).wf(),
    ensures
        final(h).wf(),
        final(h).theme_id@ == DIFF_THEMES[theme_index(raw@)].0@,
        final(h).syntaxes == old(h).syntaxes,
        final(h).themes == old(h).themes,
        if old(h).theme_id@ == DIFF_THEMES[theme_index(raw@)].0@ {
            *final(h) == *old(h)
        } else {
            final(h).cache is None
        },
{
    let i: usize = find_theme_index(raw);
    let id = DIFF_THEMES[i].0;
    if text::same(h.theme_id.as_str(), id) {
        return;
    }
    h.theme_id = id.to_string();
    h.cache = None;
    assert(h.theme_id@ == DIFF_THEMES[i as int].0@);
}

/// The place of a short id in the catalogue, from `i` on; none where it is not.
pub open spec fn id_from(id: Seq<char>, i: int) -> int
    decreases 5 - i,
{
    if i >= 5 {
        0
    } else if id == DIFF_THEMES[i].0@ {
        i
    } else {
        id_from(id, i + 1)
    }
}

/// The place of a short id in the catalogue.
pub fn id_index(id: &str) -> (r: usize)
    ensures
        r == id_from(id@, 0),
        r < 5,
{
    let mut i: usize = 0;
    while i < 5
        invariant
            i <= 5,
            id_from(id@, 0) == id_from(id@, i as int),
        decreases 5 - i,
    {
        if text::same(id, DIFF_THEMES[i].0) {
            return i;
        }
        i += 1;
    }
    0
}

/// The place after `i` in the catalogue, wrapping at its end.
pub open spec fn next_index(i: int) -> int {
    (i + 1) % 5
}

/// Cycles to the next theme of the catalogue, returning its short id.
pub fn cycle_theme(h: &mut Highlight) -> (r: &'static str)
    requires
        old(h).wf(),
    ensures
        final(h).wf(),
        r@ == DIFF_THEMES[next_index(id_from(old(h).theme_id@, 0))].0@,
        final(h).theme_id@ == r@,
        final(h).syntaxes == old(h).syntaxes,
        final(h).themes == old(h).themes,
{
    let i: usize = id_index(h.theme_id.as_str());
    let k: usize = (i + 1) % 5;
    let next = DIFF_THEMES[k].0;
    proof {
        ids_name_themselves(k as int);
    }
    set_theme(h, next);
    next
}

/// The marker that a code line begins with: added, removed or context.
pub open spec fn is_code(line: Seq<char>) -> bool {
    !is_header(line) && line.len() > 0 && (line[0] == '+' || line[0] == '-' || line[0] == ' ')
}

/// Whether a line is one of a diff's headers.
pub open spec fn is_header(line: Seq<char>) -> bool {
    text::begins(line, "+++"@) || text::begins(line, "---"@) || text::begins(line, "@@"@)
        || text::begins(line, "diff --git"@)
}

/// How a line that is not code is drawn.
pub open spec fn header_line(line: Seq<char>) -> LineView {
    styled::styled_line(
        line,
        if text::begins(line, "+++"@) || text::begins(line, "---"@) {
            styled::bold()
        } else if text::begins(line, "@@"@) {
            styled::colored(ACCENT)
        } else if text::begins(line, "diff --git"@) {
            Style { bold: true, ..styled::colored(INFO) }
        } else {
            styled::plain()
        },
    )
}

/// The background of a code line with this marker.
pub open spec fn tint(marker: char) -> Option<Color> {
    if marker == '+' {
        Some(add_bg())
    } else if marker == '-' {
        Some(del_bg())
    } else {
        None
    }
}

/// The foreground of a code line with this marker.
pub open spec fn marker_fg(marker: char) -> Option<Color> {
    if marker == '+' {
        Some(Color::Green)
    } else if marker == '-' {
        Some(Color::Red)
    } else {
        None
    }
}

/// How a piece of highlighted code is drawn over the tint of its line.
pub open spec fn region_span(r: RegionView, bg: Option<Color>) -> SpanView {
    SpanView {
        text: r.text,
        style: Style {
            fg: Some(Color::Rgb(r.red, r.green, r.blue)),
            bg,
            bold: false,
            dim: false,
        },
    }
}

/// How a code line is drawn: its marker, then the highlighted pieces over the
/// tint, or the code in one colour when it is not highlighted.
pub open spec fn painted_code(line: Seq<char>, regions: Option<Seq<RegionView>>) -> LineView {
    let m = line[0];
    let bg = tint(m);
    let fg = marker_fg(m);
    let marker = SpanView {
        text: seq![m],
        style: Style { fg, bg, bold: fg is Some, dim: false },
    };
    styled::line_of(
        seq![marker] + match regions {
            Some(rs) => rs.map_values(|r: RegionView| region_span(r, bg)),
            None => seq![
                SpanView {
                    text: line.skip(1),
                    style: Style { fg, bg, bold: false, dim: false },
                },
            ],
        },
    )
}

/// A code line drawn with the pieces that highlighting it gave.
pub fn code_line(line: &str, regions: Option<Vec<Region>>) -> (r: Line)
    requires
        is_code(line@),
    ensures
        r@ == painted_code(line@, pieces(regions)),
{
    let m = line.get_char(0);
    let bg = if m == '+' {
        Some(Color::Rgb(16, 60, 30))
    } else if m == '-' {
        Some(Color::Rgb(72, 24, 24))
    } else {
        None
    };
    let fg = if m == '+' {
        Some(Color::Green)
    } else if m == '-' {
        Some(Color::Red)
    } else {
        None
    };
    let mut marker = String::new();
    marker.push(m);
    assert(marker@ =~= seq![m]);
    let mut spans: Vec<Span> = Vec::new();
    spans.push(
        Span { text: marker, style: Style { fg, bg, bold: fg.is_some(), dim: false } },
    );
    let ghost first = spans@[0]@;
    assert(styled::span_views(spans@) =~= seq![first]);
    match regions {
        Some(v) => {
            let ghost all = region_views(v@).map_values(|r: RegionView| region_span(r, bg));
            let mut i: usize = 0;
            assert(seq![first] + all.take(0) =~= seq![first]);
            while i < v.len()
                invariant
                    i <= v@.len(),
                    all == region_views(v@).map_values(|r: RegionView| region_span(r, bg)),
                    styled::span_views(spans@) == seq![first] + all.take(i as int),
                decreases v@.len() - i,
            {
                let ghost before = spans@;
                let style = Style {
                    fg: Some(Color::Rgb(v[i].red, v[i].green, v[i].blue)),
                    bg,
                    bold: false,
                    dim: false,
                };
                spans.push(Span { text: v[i].text.clone(), style });
                assert(region_views(v@)[i as int] == v@[i as int]@);
                assert(styled::span_views(spans@) =~= styled::span_views(before).push(
                    all[i as int],
                ));
                assert(seq![first] + all.take(i + 1) =~= (seq![first] + all.take(i as int)).push(
                    all[i as int],
                ));
                i += 1;
            }
            assert(all.take(all.len() as int) =~= all);
        },
        None => {
            let ghost before = spans@;
            let chars = text::chars_of(line);
            let n: usize = chars.len();
            let code = text::string_of(&chars, 1, n);
            assert(code@ =~= line@.skip(1));
            spans.push(Span { text: code, style: Style { fg, bg, bold: false, dim: false } });
            assert(styled::span_views(spans@) =~= seq![first] + seq![spans@[1]@]);
        },
    }
    Line::of(spans)
}

proof fn pieces_text(marker: SpanView, rs: Seq<RegionView>, bg: Option<Color>)
    ensures
        styled::spans_text(seq![marker] + rs.map_values(|r: RegionView| region_span(r, bg)))
            == marker.text + region_text(rs),
    decreases rs.len(),
{
    let f = |r: RegionView| region_span(r, bg);
    let all = seq![marker] + rs.map_values(f);
    reveal_with_fuel(styled::spans_text, 2);
    if rs.len() == 0 {
        assert(all =~= seq![marker]);
        assert(all.drop_last() =~= Seq::<SpanView>::empty());
        assert(styled::spans_text(all) =~= marker.text + region_text(rs));
    } else {
        pieces_text(marker, rs.drop_last(), bg);
        assert(all.drop_last() =~= seq![marker] + rs.drop_last().map_values(f));
        assert(all.last() == region_span(rs.last(), bg));
        assert(styled::spans_text(all) =~= marker.text + region_text(rs));
    }
}

/// A code line shows its marker and then the pieces of its code; one that is not
/// highlighted shows its own text.
pub proof fn code_shows(line: Seq<char>, regions: Option<Seq<RegionView>>)
    requires
        is_code(line),
    ensures
        styled::spans_text(painted_code(line, regions).spans) == match regions {
            Some(rs) => seq![line[0]] + region_text(rs),
            None => line,
        },
{
    let spans = painted_code(line, regions).spans;
    match regions {
        Some(rs) => pieces_text(spans[0], rs, tint(line[0])),
        None => {
            reveal_with_fuel(styled::spans_text, 3);
            assert(spans.drop_last() =~= seq![spans[0]]);
            assert(spans.drop_last().drop_last() =~= Seq::<SpanView>::empty());
            assert(styled::spans_text(spans) =~= line);
        },
    }
}

/// A line that is not code shows its own text.
pub proof fn header_shows(line: Seq<char>)
    requires
        !line.contains('\n'),
    ensures
        styled::spans_text(header_line(line).spans) == line,
{
    text::split_plain(line, '\n');
    let spans = header_line(line).spans;
    reveal_with_fuel(styled::spans_text, 2);
    if line.len() == 0 {
        assert(spans.len() == 0);
    } else {
        assert(spans.len() == 1);
        assert(spans.drop_last() =~= Seq::<SpanView>::empty());
        assert(spans.last().text == line);
    }
    assert(styled::spans_text(spans) =~= line);
}

/// Whether every line shows text of its own line of a diff, from the start on.
pub open spec fn shows_diff(shown: Seq<LineView>, content: Seq<char>) -> bool {
    let lines = text::lines_of(content);
    &&& shown.len() == lines.len()
    &&& forall|i: int|
        0 <= i < lines.len() ==> styled::spans_text(#[trigger] shown[i].spans).is_prefix_of(
            lines[i],
        )
}

proof fn lines_are_plain(content: Seq<char>, i: int)
    requires
        0 <= i < text::lines_of(content).len(),
    ensures
        !text::lines_of(content)[i].contains('\n'),
{
    let p = text::split(content, '\n');
    text::split_is_not_empty(content, '\n');
    text::split_pieces_plain(content, '\n', i);
    let l = text::lines_of(content)[i];
    assert forall|k: int| 0 <= k < l.len() implies l[k] != '\n' by {
        assert(l[k] == p[i][k]);
        assert(p[i].contains(p[i][k]));
    }
}

/// Where the highlighter stands behind a line, and how the line is drawn. Only
/// code lines are highlighted.
pub open spec fn painted(
    h: Option<HighlightLines<'static>>,
    line: Seq<char>,
    set: SyntaxSet,
) -> (Option<HighlightLines<'static>>, LineView) {
    if !is_code(line) {
        (h, header_line(line))
    } else {
        match h {
            Some(s) => (
                Some(highlighted(s, line.skip(1), set).0),
                painted_code(line, highlighted(s, line.skip(1), set).1),
            ),
            None => (None, painted_code(line, None)),
        }
    }
}

/// Styles one diff line: headers keep their accent colours; `+` and `-` lines
/// get a full-line tint with the code highlighted on top.
fn diff_line<'a>(line: &str, highlighter: &mut Option<HighlightLines<'a>>, set: &SyntaxSet) -> (r:
    Line)
    requires
        bundled(*set),
        *old(highlighter) matches Some(h) ==> fits(h, *set),
    ensures
        (*final(highlighter), r@) == painted(*old(highlighter), line@, *set),
        *final(highlighter) matches Some(h) ==> fits(h, *set),
        !line@.contains('\n') ==> styled::spans_text(r@.spans).is_prefix_of(line@),
{
    proof {
        reveal_strlit("+++");
        reveal_strlit("---");
        reveal_strlit("@@");
        reveal_strlit("diff --git");
        if !line@.contains('\n') {
            header_shows(line@);
            assert(line@.subrange(0, line@.len() as int) =~= line@);
        }
    }
    if text::starts_with(line, "+++") || text::starts_with(line, "---") {
        return Line::styled(line, Style::bold());
    }
    if text::starts_with(line, "@@") {
        return Line::styled(line, styled::color(ACCENT));
    }
    if text::starts_with(line, "diff --git") {
        return Line::styled(
            line,
            Style { fg: Some(INFO), bg: None, bold: true, dim: false },
        );
    }
    let chars = text::chars_of(line);
    let n: usize = chars.len();
    if n == 0 || !(chars[0] == '+' || chars[0] == '-' || chars[0] == ' ') {
        return Line::styled(line, Style::new());
    }
    let code = text::string_of(&chars, 1, n);
    assert(code@ =~= line@.skip(1));
    let regions = match highlighter {
        Some(h) => {
            let ghost h0 = *h;
            let found = next_line(h, code.as_str(), set);
            proof {
                stays_fitting(h0, code@, *set);
            }
            found
        },
        None => None,
    };
    proof {
        let rs = pieces(regions);
        code_shows(line@, rs);
        if let Some(v) = rs {
            let shown = seq![line@[0]] + region_text(v);
            assert(shown =~= line@.subrange(0, shown.len() as int));
        }
    }
    code_line(line, regions)
}

/// A highlighter that fits a set still fits it after a line.
proof fn stays_fitting(h: HighlightLines<'static>, line: Seq<char>, set: SyntaxSet)
    requires
        fits(h, set),
    ensures
        fits(highlighted(h, line, set).0, set),
{
    let (extension, theme, lines) = choose|
        extension: Seq<char>,
        theme: Theme,
        lines: Seq<Seq<char>>,
    |
        comes_from(h, set, extension, theme, lines);
    assert(lines.push(line).drop_last() =~= lines);
    assert(comes_from(highlighted(h, line, set).0, set, extension, theme, lines.push(line)));
}

/// Where the highlighter stands behind the first `n` lines, and how they are
/// drawn.
pub open spec fn painted_lines(
    h: Option<HighlightLines<'static>>,
    lines: Seq<Seq<char>>,
    n: int,
    set: SyntaxSet,
) -> (Option<HighlightLines<'static>>, Seq<LineView>)
    decreases n,
{
    if n <= 0 {
        (h, Seq::empty())
    } else {
        let done = painted_lines(h, lines, n - 1, set);
        let next = painted(done.0, lines[n - 1], set);
        (next.0, done.1.push(next.1))
    }
}

/// The syntax for a path: by what stands behind its last dot, then by its file
/// name.
pub open spec fn syntax_of_path(set: SyntaxSet, path: Seq<char>) -> Option<SyntaxReference> {
    match syntax_for(set, text::split(path, '.').last()) {
        Some(s) => Some(s),
        None => syntax_for(set, text::split(path, '/').last()),
    }
}

/// The highlighter that a diff is rendered with; none where no syntax is known
/// for its path, or it is too long.
pub open spec fn highlighter_for(
    set: SyntaxSet,
    theme: Theme,
    path: Seq<char>,
    content: Seq<char>,
) -> Option<HighlightLines<'static>> {
    match syntax_of_path(set, path) {
        Some(s) => if text::lines_of(content).len() <= MAX_HIGHLIGHT_LINES {
            Some(fresh(s, theme))
        } else {
            None
        },
        None => None,
    }
}

/// The rendering of a diff in a theme.
pub open spec fn rendered(
    set: SyntaxSet,
    theme: Theme,
    path: Seq<char>,
    content: Seq<char>,
) -> Seq<LineView> {
    let lines = text::lines_of(content);
    painted_lines(
        highlighter_for(set, theme, path, content),
        lines,
        lines.len() as int,
        set,
    ).1
}

/// The last piece of `s` between occurrences of `sep`.
fn last_piece(s: &str, sep: char) -> (r: String)
    ensures
        r@ == text::split(s@, sep).last(),
{
    proof {
        text::split_is_not_empty(s@, sep);
    }
    let mut parts = text::split_at(s, sep);
    assert(text::views(parts@).len() == parts@.len());
    parts.pop().unwrap()
}

/// Renders a diff with an explicit theme.
fn render_with_theme(path: &str, content: &str, syntaxes: &SyntaxSet, theme: &Theme) -> (r: Vec<
    Line,
>)
    requires
        bundled(*syntaxes),
    ensures
        styled::line_views(r@) == rendered(*syntaxes, *theme, path@, content@),
        shows_diff(styled::line_views(r@), content@),
{
    let ext = last_piece(path, '.');
    let name = last_piece(path, '/');
    let lines = text::lines(content);
    let ghost all = text::lines_of(content@);
    assert(text::views(lines@).len() == lines@.len());
    let syntax = match find_syntax(syntaxes, ext.as_str()) {
        Some(s) => Some(s),
        None => find_syntax(syntaxes, name.as_str()),
    };
    let mut highlighter = match syntax {
        Some(s) => if lines.len() <= MAX_HIGHLIGHT_LINES {
            let ghost token = if syntax_for(*syntaxes, ext@) is Some {
                ext@
            } else {
                name@
            };
            assert(syntax_for(*syntaxes, token) == Some(*s));
            let h = start_file(s, theme);
            proof {
                assert(comes_from(h, *syntaxes, token, *theme, Seq::empty()));
            }
            Some(h)
        } else {
            None
        },
        None => None,
    };
    let ghost h0 = highlighter;
    let mut r: Vec<Line> = Vec::new();
    let mut i: usize = 0;
    assert(styled::line_views(r@) =~= Seq::<LineView>::empty());
    while i < lines.len()
        invariant
            bundled(*syntaxes),
            text::views(lines@) == all,
            i <= lines@.len(),
            highlighter matches Some(h) ==> fits(h, *syntaxes),
            (highlighter, styled::line_views(r@)) == painted_lines(h0, all, i as int, *syntaxes),
            all == text::lines_of(content@),
            r@.len() == i,
            forall|k: int|
                0 <= k < i ==> styled::spans_text(
                    #[trigger] styled::line_views(r@)[k].spans,
                ).is_prefix_of(all[k]),
        decreases lines@.len() - i,
    {
        let ghost before = r@;
        assert(all[i as int] == lines@[i as int]@);
        proof {
            lines_are_plain(content@, i as int);
        }
        let line = diff_line(lines[i].as_str(), &mut highlighter, syntaxes);
        r.push(line);
        assert(styled::line_views(r@) =~= styled::line_views(before).push(line@));
        i += 1;
    }
    r
}

/// Renders the sample diff in a theme, leaving the theme in use alone.
pub fn theme_preview_lines(h: &Highlight, theme_id: &str) -> (r: Vec<Line>)
    requires
        h.wf(),
    ensures
        styled::line_views(r@) == h.rendering(
            theme_id@,
            "preview.rs"@,
            THEME_PREVIEW_SAMPLE@,
        ),
        shows_diff(styled::line_views(r@), THEME_PREVIEW_SAMPLE@),
{
    let theme = h.theme_by_id(theme_id);
    render_with_theme("preview.rs", THEME_PREVIEW_SAMPLE, &h.syntaxes, theme)
}

/// Renders a diff in the theme in use, without keeping it.
pub fn render(h: &Highlight, path: &str, content: &str) -> (r: Vec<Line>)
    requires
        h.wf(),
    ensures
        styled::line_views(r@) == h.rendering(h.theme_id@, path@, content@),
        shows_diff(styled::line_views(r@), content@),
{
    let theme = h.theme_by_id(h.theme_id.as_str());
    render_with_theme(path, content, &h.syntaxes, theme)
}

/// Renders a diff in the theme in use: syntax-highlighted code with green and
/// red backgrounds for added and removed lines. The last rendering is kept, so
/// drawing the same diff in every frame is cheap.
pub fn diff_lines(h: &mut Highlight, path: &str, content: &str) -> (r: Vec<Line>)
    requires
        old(h).wf(),
    ensures
        styled::line_views(r@) == old(h).rendering(old(h).theme_id@, path@, content@),
        shows_diff(styled::line_views(r@), content@),
        final(h).wf(),
        *final(h) == (Highlight { cache: final(h).cache, ..*old(h) }),
{
    if let Some(c) = &h.cache {
        if text::same(c.theme_id.as_str(), h.theme_id.as_str()) && text::same(
            c.path.as_str(),
            path,
        ) && text::same(c.content.as_str(), content) {
            return styled::copy_lines(&c.lines);
        }
    }
    let lines = render(h, path, content);
    let kept = styled::copy_lines(&lines);
    h.cache = Some(
        Rendered {
            theme_id: h.theme_id.clone(),
            path: path.to_string(),
            content: content.to_string(),
            lines: kept,
        },
    );
    lines
}

/// Each short id of the catalogue stands for its own theme, and is found at its
/// own place.
pub proof fn ids_name_themselves(k: int)
    requires
        0 <= k < 5,
    ensures
        theme_index(DIFF_THEMES[k].0@) == k,
        id_from(DIFF_THEMES[k].0@, 0) == k,
{
    reveal_strlit("eighties");
    reveal_strlit("mocha");
    reveal_strlit("ocean");
    reveal_strlit("solarized");
    reveal_strlit("github");
    reveal_strlit("base16-eighties.dark");
    reveal_strlit("base16-mocha.dark");
    reveal_strlit("base16-ocean.dark");
    reveal_strlit("Solarized (dark)");
    reveal_strlit("InspiredGitHub");
    let t = DIFF_THEMES[k].0@;
    assert(text::trimmed(t) == t);
    assert forall|i: int| 0 <= i < 5 implies #[trigger] names_theme(t, i) == (i == k) by {
        let u = DIFF_THEMES[i].0@;
        let lt = t.map_values(|c: char| text::ascii_lower(c));
        let lu = u.map_values(|c: char| text::ascii_lower(c));
        assert(lt =~= t);
        assert(lu =~= u);
        assert(t[0] == u[0] ==> i == k);
        assert(t != DIFF_THEMES[i].2@) by {
            assert(t.len() != DIFF_THEMES[i].2@.len());
        }
    }
    assert forall|i: int| 0 <= i < 5 implies (t == #[trigger] DIFF_THEMES[i].0@) == (i == k) by {
        assert(names_theme(t, i) == (i == k));
    }
    reveal_with_fuel(theme_from, 6);
    reveal_with_fuel(id_from, 6);
    assert(names_theme(t, 0) == (k == 0) && names_theme(t, 1) == (k == 1) && names_theme(t, 2) == (k
        == 2) && names_theme(t, 3) == (k == 3) && names_theme(t, 4) == (k == 4));
}

/// The id that a value is normalised to normalises to itself.
pub proof fn normalizing_is_idempotent(raw: Seq<char>)
    ensures
        0 <= theme_index(raw) < 5,
        theme_index(DIFF_THEMES[theme_index(raw)].0@) == theme_index(raw),
{
    theme_from_in_range(text::trimmed(raw), 0);
    ids_name_themselves(theme_index(raw));
}

/// Cycling through the catalogue comes back to where it began after as many
/// steps as there are themes, and not before.
pub proof fn cycling_has_full_period(i: int)
    requires
        0 <= i < 5,
    ensures
        next_index(next_index(next_index(next_index(next_index(i))))) == i,
        next_index(i) != i,
        next_index(next_index(i)) != i,
        next_index(next_index(next_index(i))) != i,
        next_index(next_index(next_index(next_index(i)))) != i,
{
}

/// A rendered diff has a line for each line of the diff.
pub proof fn one_line_each(
    h: Option<HighlightLines<'static>>,
    lines: Seq<Seq<char>>,
    n: int,
    set: SyntaxSet,
)
    requires
        0 <= n,
    ensures
        painted_lines(h, lines, n, set).1.len() == n,
    decreases n,
{
    if n > 0 {
        one_line_each(h, lines, n - 1, set);
    }
}

/// Whether the highlighted pieces of line `i` of a diff end before the line does.
pub open spec fn cut_short(
    set: SyntaxSet,
    theme: Theme,
    path: Seq<char>,
    content: Seq<char>,
    i: int,
) -> bool {
    let lines = text::lines_of(content);
    let code = lines[i].skip(1);
    is_code(lines[i]) && match painted_lines(
        highlighter_for(set, theme, path, content),
        lines,
        i,
        set,
    ).0 {
        Some(h) => match highlighted(h, code, set).1 {
            Some(rs) => region_text(rs) != code,
            None => false,
        },
        None => false,
    }
}

proof fn line_painted_alone(
    h: Option<HighlightLines<'static>>,
    lines: Seq<Seq<char>>,
    n: int,
    set: SyntaxSet,
    i: int,
)
    requires
        0 <= i < n,
    ensures
        painted_lines(h, lines, n, set).1.len() == n,
        painted_lines(h, lines, n, set).1[i] == painted(
            painted_lines(h, lines, i, set).0,
            lines[i],
            set,
        ).1,
    decreases n,
{
    one_line_each(h, lines, n - 1, set);
    if i < n - 1 {
        line_painted_alone(h, lines, n - 1, set, i);
    }
}

proof fn stays_without_highlighter(lines: Seq<Seq<char>>, n: int, set: SyntaxSet)
    ensures
        painted_lines(None, lines, n, set).0 is None,
    decreases n,
{
    if n > 0 {
        stays_without_highlighter(lines, n - 1, set);
    }
}

/// Every line of a rendered diff shows the text of its own line of the diff, all
/// of it, unless syntect's pieces of that line end early.
pub proof fn lines_show_themselves(
    set: SyntaxSet,
    theme: Theme,
    path: Seq<char>,
    content: Seq<char>,
    i: int,
)
    requires
        0 <= i < text::lines_of(content).len(),
        !cut_short(set, theme, path, content, i),
    ensures
        rendered(set, theme, path, content).len() == text::lines_of(content).len(),
        styled::spans_text(rendered(set, theme, path, content)[i].spans) == text::lines_of(
            content,
        )[i],
{
    let lines = text::lines_of(content);
    let line = lines[i];
    let h0 = highlighter_for(set, theme, path, content);
    line_painted_alone(h0, lines, lines.len() as int, set, i);
    lines_are_plain(content, i);
    if is_code(line) {
        let regions = match painted_lines(h0, lines, i, set).0 {
            Some(h) => highlighted(h, line.skip(1), set).1,
            None => None,
        };
        code_shows(line, regions);
        assert(seq![line[0]] + line.skip(1) =~= line);
    } else {
        header_shows(line);
    }
}

/// A diff for whose path no syntax is known, or that is too long to be
/// highlighted, is shown as it is, line by line.
pub proof fn plain_diff_shows_itself(
    set: SyntaxSet,
    theme: Theme,
    path: Seq<char>,
    content: Seq<char>,
)
    requires
        syntax_of_path(set, path) is None || text::lines_of(content).len() > MAX_HIGHLIGHT_LINES,
    ensures
        rendered(set, theme, path, content).len() == text::lines_of(content).len(),
        forall|i: int|
            0 <= i < text::lines_of(content).len() ==> styled::spans_text(
                #[trigger] rendered(set, theme, path, content)[i].spans,
            ) == text::lines_of(content)[i],
{
    let lines = text::lines_of(content);
    one_line_each(None, lines, lines.len() as int, set);
    assert forall|i: int| 0 <= i < lines.len() implies styled::spans_text(
        #[trigger] rendered(set, theme, path, content)[i].spans,
    ) == lines[i] by {
        stays_without_highlighter(lines, i, set);
        lines_show_themselves(set, theme, path, content, i);
    }
}

/// The rendering of a diff depends on the theme, the path and the content alone:
/// what else was rendered in between, and what is kept of it, does not matter.
pub proof fn rendering_ignores_what_is_kept(
    h: Highlight,
    kept: Option<Rendered>,
    theme_in_use: String,
    theme_id: Seq<char>,
    path: Seq<char>,
    content: Seq<char>,
)
    ensures
        (Highlight { cache: kept, theme_id: theme_in_use, ..h }).rendering(
            theme_id,
            path,
            content,
        ) == h.rendering(theme_id, path, content),
{
}

/// Every span of a code line has the tint of its marker behind it, whatever
/// highlighting made of the code.
pub proof fn tint_covers_line(line: Seq<char>, regions: Option<Seq<RegionView>>, i: int)
    requires
        is_code(line),
        0 <= i < painted_code(line, regions).spans.len(),
    ensures
        painted_code(line, regions).spans[i].style.bg == tint(line[0]),
{
}

} // verus!
