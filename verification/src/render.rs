use vstd::prelude::*;
use crate::color::{default_bg, spec_default_bg, Color};
use crate::grid::Cell;

verus! {

/// A run of adjacent cells of one row that share their colours, as it is
/// drawn: a background rectangle (where `fill`), then `text`.
#[derive(Debug)]
pub struct Span {
    /// Column of the first cell.
    pub start: usize,
    /// Number of cells.
    pub width: usize,
    pub fg: Color,
    pub bg: Color,
    /// The background differs from the default one and is painted.
    pub fill: bool,
    /// The characters of the run without trailing whitespace.
    pub text: Vec<char>,
}

/// `c` has the Unicode `White_Space` property.
pub open spec fn is_white_space(c: char) -> bool {
    let u = c as u32;
    ||| 0x09 <= u <= 0x0D
    ||| u == 0x20
    ||| u == 0x85
    ||| u == 0xA0
    ||| u == 0x1680
    ||| 0x2000 <= u <= 0x200A
    ||| u == 0x2028
    ||| u == 0x2029
    ||| u == 0x202F
    ||| u == 0x205F
    ||| u == 0x3000
}

/// `s` without its trailing whitespace.
pub open spec fn trim_end(s: Seq<char>) -> Seq<char>
    decreases s.len(),
{
    if s.len() > 0 && is_white_space(s.last()) {
        trim_end(s.drop_last())
    } else {
        s
    }
}

/// The characters of `row` in columns `from..to`.
pub open spec fn chars_of(row: Seq<Cell>, from: int, to: int) -> Seq<char> {
    row.subrange(from, to).map_values(|cell: Cell| cell.c)
}

/// Two cells are drawn in the same colours.
pub open spec fn same_colors(a: Cell, b: Cell) -> bool {
    a.fg == b.fg && a.bg == b.bg
}

/// Span `s` is the run of `row` over columns `start .. start + width`: all
/// its cells share the colours of the first, and it carries their
/// characters with trailing whitespace trimmed.
pub open spec fn span_of(s: Span, row: Seq<Cell>) -> bool {
    let start = s.start as int;
    let end = s.start + s.width;
    &&& s.width >= 1
    &&& end <= row.len()
    &&& s.fg == row[start].fg
    &&& s.bg == row[start].bg
    &&& s.fill == (s.bg != spec_default_bg())
    &&& forall|c: int| start <= c < end ==> same_colors(#[trigger] row[c], row[start])
    &&& s.text@ == trim_end(chars_of(row, start, end))
}

/// `spans` cut `row` into maximal runs of equal colours, left to right.
pub open spec fn spans_of_row(spans: Seq<Span>, row: Seq<Cell>) -> bool {
    &&& row.len() == 0 <==> spans.len() == 0
    &&& spans.len() > 0 ==> spans[0].start == 0
    &&& spans.len() > 0 ==> spans.last().start + spans.last().width == row.len()
    &&& forall|i: int| 0 <= i < spans.len() ==> span_of(#[trigger] spans[i], row)
    &&& forall|i: int|
        0 <= i < spans.len() - 1 ==> {
            &&& #[trigger] spans[i].start + spans[i].width == spans[i + 1].start
            &&& !same_colors(row[spans[i].start as int], row[spans[i + 1].start as int])
        }
}

/// Whether `c` is whitespace (has the Unicode `White_Space` property).
pub fn is_white_space_exec(c: char) -> (ws: bool)
    ensures
        ws == is_white_space(c),
{
    let u = c as u32;
    (0x09 <= u && u <= 0x0D) || u == 0x20 || u == 0x85 || u == 0xA0 || u == 0x1680 || (0x2000 <= u
        && u <= 0x200A) || u == 0x2028 || u == 0x2029 || u == 0x202F || u == 0x205F || u == 0x3000
}

/// Removes the trailing whitespace of `text`.
fn trim_end_exec(text: &mut Vec<char>)
    ensures
        final(text)@ == trim_end(old(text)@),
{
    let ghost orig = text@;
    let mut k = text.len();
    assert(orig.subrange(0, k as int) =~= orig);
    loop
        invariant
            k <= orig.len(),
            text@ == orig,
            trim_end(orig) == trim_end(orig.subrange(0, k as int)),
        ensures
            k <= orig.len(),
            text@ == orig,
            trim_end(orig) == orig.subrange(0, k as int),
        decreases k,
    {
        if k == 0 {
            break;
        }
        if !is_white_space_exec(text[k - 1]) {
            assert(orig.subrange(0, k as int).last() == text@[k - 1]);
            break;
        }
        assert(orig.subrange(0, k as int).drop_last() =~= orig.subrange(0, k - 1));
        k = k - 1;
    }
    text.truncate(k);
}

/// Cuts `row` into the runs of adjacent cells with equal colours, in order.
pub fn row_spans(row: &Vec<Cell>) -> (spans: Vec<Span>)
    ensures
        spans_of_row(spans@, row@),
{
    let n = row.len();
    let mut spans: Vec<Span> = Vec::new();
    let mut col: usize = 0;
    while col < n
        invariant
            n == row@.len(),
            col <= n,
            spans@.len() == 0 <==> col == 0,
            spans@.len() > 0 ==> spans@[0].start == 0,
            spans@.len() > 0 ==> spans@.last().start + spans@.last().width == col,
            spans@.len() > 0 && col < n ==> !same_colors(row@[spans@.last().start as int], row@[col as int]),
            forall|i: int| 0 <= i < spans@.len() ==> span_of(#[trigger] spans@[i], row@),
            forall|i: int|
                0 <= i < spans@.len() - 1 ==> {
                    &&& #[trigger] spans@[i].start + spans@[i].width == spans@[i + 1].start
                    &&& !same_colors(row@[spans@[i].start as int], row@[spans@[i + 1].start as int])
                },
        decreases n - col,
    {
        let start = col;
        let fg = row[col].fg;
        let bg = row[col].bg;
        let mut text: Vec<char> = Vec::new();
        loop
            invariant
                n == row@.len(),
                start < n,
                start < col <= n || col == start,
                col <= n,
                fg == row@[start as int].fg,
                bg == row@[start as int].bg,
                forall|c: int| start <= c < col ==> same_colors(#[trigger] row@[c], row@[start as int]),
                text@ == chars_of(row@, start as int, col as int),
            ensures
                start < col <= n,
                col < n ==> !same_colors(row@[col as int], row@[start as int]),
                forall|c: int| start <= c < col ==> same_colors(#[trigger] row@[c], row@[start as int]),
                text@ == chars_of(row@, start as int, col as int),
            decreases n - col,
        {
            if col >= n {
                break;
            }
            if !(row[col].fg == fg && row[col].bg == bg) {
                break;
            }
            text.push(row[col].c);
            col = col + 1;
            assert(text@ =~= chars_of(row@, start as int, col as int));
        }
        trim_end_exec(&mut text);
        let fill = !(bg == default_bg());
        let span = Span { start, width: col - start, fg, bg, fill, text };
        spans.push(span);
    }
    spans
}

} // verus!
