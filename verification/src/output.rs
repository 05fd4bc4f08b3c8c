//! What a command hands back for display: lines of text, each made of spans that carry the
//! emphasis the terminal should give them. Painting the spans is left to the caller.

use vstd::prelude::*;

verus! {

/// The emphasis of a span of text.
#[derive(Debug, Clone, Copy, PartialEq, Eq, Structural)]
pub enum Style {
    /// Ordinary text.
    Plain,
    /// The heading of a block of output, and the name of a result column: bold cyan.
    Heading,
    /// The banner of a screen: bold green.
    Banner,
    /// A command in the reference text: cyan.
    Command,
    /// The name of a graph: yellow.
    Graph,
    /// The heading of the examples in the reference text: bold yellow.
    Examples,
    /// The label of an error report: red.
    Failure,
}

/// A run of text with one emphasis.
#[derive(Debug, Clone, PartialEq, Eq)]
pub struct Span {
    pub text: String,
    pub style: Style,
}

/// One line of output, without its line end. The text of a span may itself hold line ends,
/// where it is a document that was written out as a whole.
#[derive(Debug, Clone, PartialEq, Eq)]
pub struct Line {
    pub spans: Vec<Span>,
}

/// The mathematical model of a `Span`.
pub struct SpanView {
    pub text: Seq<char>,
    pub style: Style,
}

impl DeepView for Span {
    type V = SpanView;

    open spec fn deep_view(&self) -> SpanView {
        SpanView { text: self.text@, style: self.style }
    }
}

impl View for Span {
    type V = SpanView;

    open spec fn view(&self) -> SpanView {
        self.deep_view()
    }
}

impl DeepView for Line {
    type V = Seq<SpanView>;

    open spec fn deep_view(&self) -> Seq<SpanView> {
        self.spans.deep_view()
    }
}

impl View for Line {
    type V = Seq<SpanView>;

    open spec fn view(&self) -> Seq<SpanView> {
        self.deep_view()
    }
}

/// A span of ordinary text.
pub open spec fn plain(text: Seq<char>) -> SpanView {
    SpanView { text, style: Style::Plain }
}

/// A span of emphasised text.
pub open spec fn styled(text: Seq<char>, style: Style) -> SpanView {
    SpanView { text, style }
}

/// A line that is one span of ordinary text.
pub open spec fn plain_line(text: Seq<char>) -> Seq<SpanView> {
    seq![plain(text)]
}

/// A line that is one span of emphasised text.
pub open spec fn styled_line(text: Seq<char>, style: Style) -> Seq<SpanView> {
    seq![styled(text, style)]
}

/// The text of the first `n` spans of a line, without emphasis.
pub open spec fn text_of_spans(spans: Seq<SpanView>, n: int) -> Seq<char>
    decreases n,
{
    if n <= 0 || n > spans.len() {
        Seq::empty()
    } else {
        text_of_spans(spans, n - 1) + spans[n - 1].text
    }
}

/// The text of a line, without emphasis.
pub open spec fn line_text(line: Seq<SpanView>) -> Seq<char> {
    text_of_spans(line, line.len() as int)
}

impl Span {
    /// A span of ordinary text.
    pub fn plain(text: &str) -> (r: Span)
        ensures
            r@ == plain(text@),
    {
        Span { text: String::from_str(text), style: Style::Plain }
    }

    /// A span of emphasised text.
    pub fn styled(text: &str, style: Style) -> (r: Span)
        ensures
            r@ == styled(text@, style),
    {
        Span { text: String::from_str(text), style }
    }
}

impl Line {
    /// The line without any span.
    pub fn new() -> (r: Line)
        ensures
            r@ == Seq::<SpanView>::empty(),
    {
        let r = Line { spans: Vec::new() };
        assert(r@ =~= Seq::<SpanView>::empty());
        r
    }

    /// A line that is one span of ordinary text.
    pub fn plain(text: &str) -> (r: Line)
        ensures
            r@ == plain_line(text@),
    {
        let mut r = Line::new();
        r.push(Span::plain(text));
        assert(r@ =~= plain_line(text@));
        r
    }

    /// A line that is one span of emphasised text.
    pub fn styled(text: &str, style: Style) -> (r: Line)
        ensures
            r@ == styled_line(text@, style),
    {
        let mut r = Line::new();
        r.push(Span::styled(text, style));
        assert(r@ =~= styled_line(text@, style));
        r
    }

    /// Adds a span at the end of the line.
    pub fn push(&mut self, span: Span)
        ensures
            final(self)@ == old(self)@.push(span@),
    {
        self.spans.push(span);
        assert(self@ =~= old(self)@.push(span@));
    }

    /// The text of the line, without emphasis.
    pub fn text(&self) -> (r: String)
        ensures
            r@ == line_text(self@),
    {
        let mut r = String::new();
        let mut i: usize = 0;
        while i < self.spans.len()
            invariant
                i <= self.spans.len(),
                self@.len() == self.spans.len(),
                r@ == text_of_spans(self@, i as int),
            decreases self.spans.len() - i,
        {
            r.append(self.spans[i].text.as_str());
            i = i + 1;
        }
        r
    }
}

/// Adds a line at the end of `lines`.
pub fn push_line(lines: &mut Vec<Line>, line: Line)
    ensures
        final(lines).deep_view() == old(lines).deep_view().push(line@),
{
    lines.push(line);
    assert(lines.deep_view() =~= old(lines).deep_view().push(line@));
}

/// The texts of rendered lines, without emphasis.
pub fn texts_of(lines: &Vec<Line>) -> (r: Vec<String>)
    ensures
        r.deep_view() == lines.deep_view().map_values(|l: Seq<SpanView>| line_text(l)),
{
    let mut r: Vec<String> = Vec::new();
    let mut i: usize = 0;
    while i < lines.len()
        invariant
            i <= lines.len(),
            r.len() == i,
            forall|k: int| 0 <= k < i ==> (#[trigger] r@[k])@ == line_text(lines@[k]@),
        decreases lines.len() - i,
    {
        r.push(lines[i].text());
        i = i + 1;
    }
    assert(r.deep_view() =~= lines.deep_view().map_values(|l: Seq<SpanView>| line_text(l)));
    r
}

} // verus!
