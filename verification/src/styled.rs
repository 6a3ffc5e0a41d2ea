//! Styled lines of text.

use vstd::prelude::*;
use vstd::string::*;

use crate::text;
use crate::theme::Color;

verus! {

/// How a piece of text is drawn.
#[derive(Clone, Copy, Debug, PartialEq, Eq, Structural)]
pub struct Style {
    pub fg: Option<Color>,
    pub bg: Option<Color>,
    pub bold: bool,
    pub dim: bool,
}

/// The terminal's own style.
pub open spec fn plain() -> Style {
    Style { fg: None, bg: None, bold: false, dim: false }
}

/// Bold text.
pub open spec fn bold() -> Style {
    Style { fg: None, bg: None, bold: true, dim: false }
}

/// Dimmed text.
pub open spec fn dim() -> Style {
    Style { fg: None, bg: None, bold: false, dim: true }
}

impl Style {
    /// The terminal's own style.
    pub fn new() -> (r: Style)
        ensures
            r == plain(),
    {
        Style { fg: None, bg: None, bold: false, dim: false }
    }

    /// Bold text.
    pub fn bold() -> (r: Style)
        ensures
            r == bold(),
    {
        Style { fg: None, bg: None, bold: true, dim: false }
    }

    /// Dimmed text.
    pub fn dim() -> (r: Style)
        ensures
            r == dim(),
    {
        Style { fg: None, bg: None, bold: false, dim: true }
    }
}

/// Text in one colour.
pub open spec fn colored(c: Color) -> Style {
    Style { fg: Some(c), ..plain() }
}

/// Text in one colour.
pub fn color(c: Color) -> (r: Style)
    ensures
        r == colored(c),
{
    Style { fg: Some(c), bg: None, bold: false, dim: false }
}

/// A piece of text in one style.
#[derive(Debug)]
pub struct Span {
    pub text: String,
    pub style: Style,
}

/// What a span shows.
pub struct SpanView {
    pub text: Seq<char>,
    pub style: Style,
}

impl View for Span {
    type V = SpanView;

    open spec fn view(&self) -> SpanView {
        SpanView { text: self.text@, style: self.style }
    }
}

impl Clone for Span {
    fn clone(&self) -> (r: Self)
        ensures
            r@ == self@,
    {
        Span { text: self.text.clone(), style: self.style }
    }
}

/// A line made of spans, with a style beneath all of them.
#[derive(Debug)]
pub struct Line {
    pub style: Style,
    pub spans: Vec<Span>,
}

/// What a line shows.
pub struct LineView {
    pub style: Style,
    pub spans: Seq<SpanView>,
}

/// The views of a list of spans.
pub open spec fn span_views(v: Seq<Span>) -> Seq<SpanView> {
    v.map_values(|s: Span| s@)
}

/// The views of a list of lines.
pub open spec fn line_views(v: Seq<Line>) -> Seq<LineView> {
    v.map_values(|l: Line| l@)
}

impl View for Line {
    type V = LineView;

    open spec fn view(&self) -> LineView {
        LineView { style: self.style, spans: span_views(self.spans@) }
    }
}

/// A span in the terminal's own style.
pub open spec fn raw_span(t: Seq<char>) -> SpanView {
    SpanView { text: t, style: plain() }
}

/// A bold span.
pub open spec fn bold_span(t: Seq<char>) -> SpanView {
    SpanView { text: t, style: bold() }
}

/// A line that draws `t` in `style`: one span for each line of `t`.
pub open spec fn styled_line(t: Seq<char>, style: Style) -> LineView {
    LineView { style, spans: text::lines_of(t).map_values(|l: Seq<char>| raw_span(l)) }
}

/// A line that draws `t` in the terminal's own style.
pub open spec fn raw_line(t: Seq<char>) -> LineView {
    styled_line(t, plain())
}

/// A line made of `spans`.
pub open spec fn line_of(spans: Seq<SpanView>) -> LineView {
    LineView { style: plain(), spans }
}

/// The spans one after the other, as text.
pub open spec fn spans_text(spans: Seq<SpanView>) -> Seq<char>
    decreases spans.len(),
{
    if spans.len() == 0 {
        Seq::empty()
    } else {
        spans_text(spans.drop_last()) + spans.last().text
    }
}

impl Span {
    /// A span in the terminal's own style.
    pub fn raw(t: &str) -> (r: Span)
        ensures
            r@ == raw_span(t@),
    {
        Span { text: t.to_string(), style: Style::new() }
    }

    /// A bold span.
    pub fn bold(t: &str) -> (r: Span)
        ensures
            r@ == bold_span(t@),
    {
        Span { text: t.to_string(), style: Style::bold() }
    }

    /// A span in `style`.
    pub fn styled(t: &str, style: Style) -> (r: Span)
        ensures
            r@ == (SpanView { text: t@, style }),
    {
        Span { text: t.to_string(), style }
    }
}

impl Line {
    /// A line that draws `t` in `style`.
    pub fn styled(t: &str, style: Style) -> (r: Line)
        ensures
            r@ == styled_line(t@, style),
    {
        let pieces = text::lines(t);
        let mut spans: Vec<Span> = Vec::new();
        let mut i: usize = 0;
        let ghost all = styled_line(t@, style).spans;
        while i < pieces.len()
            invariant
                text::views(pieces@) == text::lines_of(t@),
                all == text::lines_of(t@).map_values(|l: Seq<char>| raw_span(l)),
                i <= pieces@.len(),
                span_views(spans@) == all.take(i as int),
            decreases pieces@.len() - i,
        {
            let ghost before = spans@;
            assert(text::views(pieces@)[i as int] == pieces@[i as int]@);
            spans.push(Span::raw(pieces[i].as_str()));
            assert(span_views(spans@) =~= span_views(before).push(all[i as int]));
            assert(all.take(i + 1) =~= all.take(i as int).push(all[i as int]));
            i += 1;
        }
        assert(text::views(pieces@).len() == pieces@.len());
        assert(all.take(all.len() as int) =~= all);
        Line { style, spans }
    }

    /// A line that draws `t` in the terminal's own style.
    pub fn raw(t: &str) -> (r: Line)
        ensures
            r@ == raw_line(t@),
    {
        Line::styled(t, Style::new())
    }

    /// A line made of `spans`.
    pub fn of(spans: Vec<Span>) -> (r: Line)
        ensures
            r@ == line_of(span_views(spans@)),
    {
        Line { style: Style::new(), spans }
    }

    /// A copy of the line.
    pub fn copied(&self) -> (r: Line)
        ensures
            r@ == self@,
    {
        let mut spans: Vec<Span> = Vec::new();
        let mut i: usize = 0;
        while i < self.spans.len()
            invariant
                i <= self.spans@.len(),
                span_views(spans@) == span_views(self.spans@).take(i as int),
            decreases self.spans@.len() - i,
        {
            let ghost before = spans@;
            spans.push(self.spans[i].clone());
            assert(span_views(spans@) =~= span_views(before).push(self.spans@[i as int]@));
            assert(span_views(self.spans@).take(i + 1) =~= span_views(self.spans@).take(
                i as int,
            ).push(self.spans@[i as int]@));
            i += 1;
        }
        assert(span_views(self.spans@).take(self.spans@.len() as int) =~= span_views(
            self.spans@,
        ));
        Line { style: self.style, spans }
    }

    /// The text of the line without its styles.
    pub fn text(&self) -> (r: String)
        ensures
            r@ == spans_text(self@.spans),
    {
        let mut s = String::new();
        let mut i: usize = 0;
        let ghost all = self@.spans;
        while i < self.spans.len()
            invariant
                all == self@.spans,
                i <= self.spans@.len(),
                s@ == spans_text(all.take(i as int)),
            decreases self.spans@.len() - i,
        {
            assert(all.take(i + 1).drop_last() =~= all.take(i as int));
            assert(all.take(i + 1).last() == self.spans@[i as int]@);
            s.append(self.spans[i].text.as_str());
            i += 1;
        }
        assert(all.take(all.len() as int) =~= all);
        s
    }
}

/// A copy of a list of lines.
pub fn copy_lines(v: &Vec<Line>) -> (r: Vec<Line>)
    ensures
        line_views(r@) == line_views(v@),
{
    let mut r: Vec<Line> = Vec::new();
    let mut i: usize = 0;
    while i < v.len()
        invariant
            i <= v@.len(),
            line_views(r@) == line_views(v@).take(i as int),
        decreases v@.len() - i,
    {
        let ghost before = r@;
        r.push(v[i].copied());
        assert(line_views(r@) =~= line_views(before).push(v@[i as int]@));
        assert(line_views(v@).take(i + 1) =~= line_views(v@).take(i as int).push(
            v@[i as int]@,
        ));
        i += 1;
    }
    assert(line_views(v@).take(v@.len() as int) =~= line_views(v@));
    r
}

/// A line of two spans.
pub fn line2(a: Span, b: Span) -> (r: Line)
    ensures
        r@ == line_of(seq![a@, b@]),
{
    let spans = vec![a, b];
    assert(span_views(spans@) =~= seq![a@, b@]);
    Line::of(spans)
}

/// A line of three spans.
pub fn line3(a: Span, b: Span, c: Span) -> (r: Line)
    ensures
        r@ == line_of(seq![a@, b@, c@]),
{
    let spans = vec![a, b, c];
    assert(span_views(spans@) =~= seq![a@, b@, c@]);
    Line::of(spans)
}

/// A line that draws `t` dimmed.
pub open spec fn dim_line(t: Seq<char>) -> LineView {
    line_of(seq![SpanView { text: t, style: dim() }])
}

/// A line that draws `t` dimmed.
pub fn new_dim_line(t: &str) -> (r: Line)
    ensures
        r@ == dim_line(t@),
{
    let spans = vec![Span::styled(t, Style::dim())];
    assert(span_views(spans@) =~= dim_line(t@).spans);
    Line::of(spans)
}

/// One line as a list.
pub fn lines1(a: Line) -> (r: Vec<Line>)
    ensures
        line_views(r@) == seq![a@],
{
    let r = vec![a];
    assert(line_views(r@) =~= seq![a@]);
    r
}

/// Two lines as a list.
pub fn lines2(a: Line, b: Line) -> (r: Vec<Line>)
    ensures
        line_views(r@) == seq![a@, b@],
{
    let r = vec![a, b];
    assert(line_views(r@) =~= seq![a@, b@]);
    r
}

} // verus!
