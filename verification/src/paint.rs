//! Tinted text. A listing is laid out as a sequence of spans, each a text
//! with a tint; `render` turns the spans into the characters that go to the
//! terminal, where the `colored` crate decides whether a tint is written
//! out as escape sequences or dropped.

use colored::Colorize;
use vstd::prelude::*;
use vstd::string::StringExecFns;

verus! {

/// How a span is to look on the terminal.
#[derive(Clone, Copy, Debug, PartialEq, Eq, Structural)]
pub enum Tint {
    Plain,
    Green,
    Red,
    RedOnYellow,
    BlueBold,
}

/// A run of text with one tint.
#[derive(Debug, PartialEq, Eq)]
pub struct Span {
    pub text: String,
    pub tint: Tint,
}

/// What a span stands for: its characters and its tint.
pub struct SpanView {
    pub text: Seq<char>,
    pub tint: Tint,
}

impl View for Span {
    type V = SpanView;

    open spec fn view(&self) -> SpanView {
        SpanView { text: self.text@, tint: self.tint }
    }
}

/// The views of `spans`, in order.
pub open spec fn span_views(spans: Seq<Span>) -> Seq<SpanView> {
    spans.map_values(|s: Span| s@)
}

/// An untinted span.
pub open spec fn plain(text: Seq<char>) -> SpanView {
    SpanView { text, tint: Tint::Plain }
}

/// A span of `text` in `tint`.
pub open spec fn tinted(text: Seq<char>, tint: Tint) -> SpanView {
    SpanView { text, tint }
}

/// The escape character that starts a terminal control sequence.
pub open spec fn escape() -> char {
    '\x1b'
}

/// The parameters of the control sequence that switches `tint` on: style,
/// then background, then foreground, separated by semicolons.
pub open spec fn tint_codes(tint: Tint) -> Seq<char> {
    match tint {
        Tint::Plain => Seq::empty(),
        Tint::Green => seq!['3', '2'],
        Tint::Red => seq!['3', '1'],
        Tint::RedOnYellow => seq!['4', '3', ';', '3', '1'],
        Tint::BlueBold => seq!['1', ';', '3', '4'],
    }
}

/// The control sequence that switches `tint` on.
pub open spec fn opening(tint: Tint) -> Seq<char> {
    seq![escape(), '['] + tint_codes(tint) + seq!['m']
}

/// The control sequence that switches every tint off.
pub open spec fn closing() -> Seq<char> {
    seq![escape(), '[', '0', 'm']
}

/// `text` as it stands inside a frame that `open` opens: after every
/// closing sequence that `text` itself holds, `open` stands again, so that
/// what follows keeps its tint.
pub open spec fn reopened(text: Seq<char>, open: Seq<char>) -> Seq<char>
    decreases text.len(),
{
    if text.len() == 0 {
        text
    } else if text.len() >= 4 && text.subrange(0, 4) == closing() {
        closing() + open + reopened(text.skip(4), open)
    } else {
        seq![text[0]] + reopened(text.skip(1), open)
    }
}

/// `out` is `text` in its frame: the opening sequence of `tint`, then
/// `text` with the tint opened again after every closing sequence inside
/// it, then the closing sequence.
pub open spec fn framed(out: Seq<char>, text: Seq<char>, tint: Tint) -> bool {
    out == opening(tint) + reopened(text, opening(tint)) + closing()
}

/// `out` is a way to write `text` in `tint`: the bare text, or, for a tint
/// other than `Plain`, the text framed by control sequences.
pub open spec fn is_painting(out: Seq<char>, text: Seq<char>, tint: Tint) -> bool {
    out == text || (tint != Tint::Plain && framed(out, text, tint))
}

/// The pieces one after the other.
pub open spec fn join(pieces: Seq<Seq<char>>) -> Seq<char>
    decreases pieces.len(),
{
    if pieces.len() == 0 {
        Seq::empty()
    } else {
        join(pieces.drop_last()) + pieces.last()
    }
}

/// `pieces` holds one painting for each span, in order.
pub open spec fn paints(pieces: Seq<Seq<char>>, spans: Seq<SpanView>) -> bool {
    &&& pieces.len() == spans.len()
    &&& forall|i: int|
        0 <= i < spans.len() ==> is_painting(#[trigger] pieces[i], spans[i].text, spans[i].tint)
}

/// `out` is what the terminal may be sent for `spans`: a painting of each
/// span, one after the other.
pub open spec fn is_rendering(out: Seq<char>, spans: Seq<SpanView>) -> bool {
    exists|pieces: Seq<Seq<char>>| paints(pieces, spans) && out == join(pieces)
}

/// The texts of `spans` one after the other, tints dropped.
pub open spec fn plain_text(spans: Seq<SpanView>) -> Seq<char>
    decreases spans.len(),
{
    if spans.len() == 0 {
        Seq::empty()
    } else {
        plain_text(spans.drop_last()) + spans.last().text
    }
}

/// Calls `colored`'s `green` on `text` and formats the result. With colours
/// switched off for the process `colored` writes the text as it is; with
/// colours on it writes `ESC[32m`, the text and `ESC[0m`, and after each
/// `ESC[0m` that the text itself holds it writes `ESC[32m` again. Which of
/// the two it is `colored` decides from the environment, once for the
/// process unless its override is changed.
#[verifier::external_body]
fn green(text: &str) -> (out: String)
    ensures
        is_painting(out@, text@, Tint::Green),
{
    text.green().to_string()
}

/// Calls `colored`'s `red` on `text` and formats the result: the text as it
/// is, or the text between `ESC[31m` and `ESC[0m`, as for `green`.
#[verifier::external_body]
fn red(text: &str) -> (out: String)
    ensures
        is_painting(out@, text@, Tint::Red),
{
    text.red().to_string()
}

/// Calls `colored`'s `red` and `on_yellow` on `text` and formats the result:
/// the text as it is, or the text between `ESC[43;31m` and `ESC[0m`, as for
/// `green`.
#[verifier::external_body]
fn red_on_yellow(text: &str) -> (out: String)
    ensures
        is_painting(out@, text@, Tint::RedOnYellow),
{
    text.red().on_yellow().to_string()
}

/// Calls `colored`'s `blue` and `bold` on `text` and formats the result: the
/// text as it is, or the text between `ESC[1;34m` and `ESC[0m`, as for
/// `green`.
#[verifier::external_body]
fn blue_bold(text: &str) -> (out: String)
    ensures
        is_painting(out@, text@, Tint::BlueBold),
{
    text.blue().bold().to_string()
}

/// Writes `text` in `tint`.
pub fn paint(text: &str, tint: Tint) -> (out: String)
    ensures
        is_painting(out@, text@, tint),
        tint == Tint::Plain ==> out@ == text@,
{
    match tint {
        Tint::Plain => String::from_str(text),
        Tint::Green => green(text),
        Tint::Red => red(text),
        Tint::RedOnYellow => red_on_yellow(text),
        Tint::BlueBold => blue_bold(text),
    }
}

/// Writes the spans one after the other, each in its tint.
pub fn render(spans: &Vec<Span>) -> (out: String)
    ensures
        is_rendering(out@, span_views(spans@)),
{
    let mut out = String::new();
    let ghost mut pieces: Seq<Seq<char>> = Seq::empty();
    let mut i: usize = 0;
    while i < spans.len()
        invariant
            i <= spans.len(),
            pieces.len() == i,
            out@ == join(pieces),
            forall|j: int|
                0 <= j < i ==> is_painting(#[trigger] pieces[j], spans@[j]@.text, spans@[j]@.tint),
        decreases spans.len() - i,
    {
        let piece = paint(spans[i].text.as_str(), spans[i].tint);
        out.append(piece.as_str());
        proof {
            let grown = pieces.push(piece@);
            assert(grown.drop_last() =~= pieces);
            pieces = grown;
        }
        i = i + 1;
    }
    assert(paints(pieces, span_views(spans@)));
    out
}

/// Appends an untinted span of `text` to `out`.
pub fn push_plain(out: &mut Vec<Span>, text: &str)
    ensures
        span_views(final(out)@) == span_views(old(out)@).push(plain(text@)),
{
    out.push(Span { text: String::from_str(text), tint: Tint::Plain });
    assert(span_views(out@) =~= span_views(old(out)@).push(plain(text@)));
}

/// Appends a span of `text` in `tint` to `out`.
pub fn push_tinted(out: &mut Vec<Span>, text: String, tint: Tint)
    ensures
        span_views(final(out)@) == span_views(old(out)@).push(tinted(text@, tint)),
{
    let ghost shown = text@;
    out.push(Span { text, tint });
    assert(span_views(out@) =~= span_views(old(out)@).push(tinted(shown, tint)));
}

} // verus!
