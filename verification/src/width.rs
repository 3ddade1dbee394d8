//! How wide a cell and a column are on the terminal.
//!
//! A cell may hold several lines. Its width is that of its widest line, and a
//! column is as wide as its widest cell; a column without cells has width 0.

use unicode_width::UnicodeWidthStr;
use vstd::prelude::*;

verus! {

/// The number of terminal columns that `text` takes up, by the rules of the
/// Unicode standard on character widths. It is a function of the text alone.
pub uninterp spec fn display_width(text: Seq<char>) -> nat;

/// Calls `UnicodeWidthStr::width` of the crate unicode-width.
/// Trusted: the result is the display width of the text, which is all that is
/// known of it here. The call reads the text and nothing else.
#[verifier::external_body]
fn str_width(text: &str) -> (width: usize)
    ensures
        width == display_width(text@),
{
    UnicodeWidthStr::width(text)
}

/// The number of characters of `text` that stand before its first line feed;
/// the length of `text` if it holds none.
pub open spec fn first_line_len(text: Seq<char>) -> nat
    decreases text.len(),
{
    if text.len() == 0 || text[0] == '\n' {
        0
    } else {
        1 + first_line_len(text.skip(1))
    }
}

/// `line` without the carriage return at its end, if it ends in one.
pub open spec fn without_carriage_return(line: Seq<char>) -> Seq<char> {
    if line.len() > 0 && line.last() == '\r' {
        line.drop_last()
    } else {
        line
    }
}

/// The lines of `text`. A line ends at a line feed, or at a carriage return
/// followed by a line feed, and holds neither. What follows the last line feed
/// is a line too unless it is empty, and it keeps a carriage return at its end.
pub open spec fn lines_of(text: Seq<char>) -> Seq<Seq<char>>
    decreases text.len(),
{
    if text.len() == 0 {
        Seq::empty()
    } else {
        let n = first_line_len(text);
        if n >= text.len() {
            seq![text]
        } else {
            seq![without_carriage_return(text.take(n as int))] + lines_of(text.skip(n as int + 1))
        }
    }
}

/// Calls `str::lines` of the standard library and collects what it yields.
/// Trusted: the slices that come back are the lines of the text as `lines_of`
/// states them, in order.
#[verifier::external_body]
fn str_lines(text: &str) -> (lines: Vec<&str>)
    ensures
        lines@.len() == lines_of(text@).len(),
        forall|i: int| 0 <= i < lines@.len() ==> (#[trigger] lines@[i])@ == lines_of(text@)[i],
{
    text.lines().collect()
}

/// The greatest of `widths`; 0 if there are none.
pub open spec fn spec_widest(widths: Seq<nat>) -> nat
    decreases widths.len(),
{
    if widths.len() == 0 {
        0
    } else {
        let rest = spec_widest(widths.drop_last());
        if widths.last() > rest {
            widths.last()
        } else {
            rest
        }
    }
}

/// `widths` as natural numbers.
pub open spec fn as_nats(widths: Seq<usize>) -> Seq<nat> {
    Seq::new(widths.len(), |i: int| widths[i] as nat)
}

/// `spec_widest` is the maximum: no width is greater, and it is one of the
/// widths unless there are none, in which case it is 0.
pub proof fn lemma_widest_is_maximum(widths: Seq<nat>)
    ensures
        forall|i: int| 0 <= i < widths.len() ==> widths[i] <= spec_widest(widths),
        widths.len() > 0 ==> exists|i: int| 0 <= i < widths.len() && widths[i] == spec_widest(widths),
        widths.len() == 0 ==> spec_widest(widths) == 0,
    decreases widths.len(),
{
    if widths.len() > 0 {
        let front = widths.drop_last();
        lemma_widest_is_maximum(front);
        assert forall|i: int| 0 <= i < widths.len() implies widths[i] <= spec_widest(widths) by {
            if i < front.len() {
                assert(front[i] == widths[i]);
            }
        }
        if widths.last() > spec_widest(front) || front.len() == 0 {
            assert(widths[widths.len() - 1] == spec_widest(widths));
        } else {
            let i = choose|i: int| 0 <= i < front.len() && front[i] == spec_widest(front);
            assert(widths[i] == spec_widest(widths));
        }
    }
}

/// Adding a width at the end keeps the maximum or raises it to the new width.
pub proof fn lemma_widest_push(widths: Seq<nat>, width: nat)
    ensures
        spec_widest(widths.push(width)) == if width > spec_widest(widths) {
            width
        } else {
            spec_widest(widths)
        },
{
    assert(widths.push(width).drop_last() =~= widths);
}

/// The greatest of `widths`; 0 if there are none.
pub fn widest(widths: &[usize]) -> (width: usize)
    ensures
        width == spec_widest(as_nats(widths@)),
{
    let mut width: usize = 0;
    let mut i: usize = 0;
    while i < widths.len()
        invariant
            i <= widths.len(),
            width == spec_widest(as_nats(widths@.take(i as int))),
        decreases widths.len() - i,
    {
        proof {
            let front = as_nats(widths@.take(i as int));
            assert(as_nats(widths@.take(i as int + 1)) =~= front.push(widths@[i as int] as nat));
            lemma_widest_push(front, widths@[i as int] as nat);
        }
        if widths[i] > width {
            width = widths[i];
        }
        i += 1;
    }
    assert(widths@.take(i as int) =~= widths@);
    width
}

/// The display width of each line of `text`.
pub open spec fn line_widths(text: Seq<char>) -> Seq<nat> {
    Seq::new(lines_of(text).len(), |i: int| display_width(lines_of(text)[i]))
}

/// The width of a cell that holds `text`: that of its widest line.
pub open spec fn spec_cell_width(text: Seq<char>) -> nat {
    spec_widest(line_widths(text))
}

/// The width of a cell that holds `text`: that of its widest line, 0 for a
/// cell without text.
pub fn cell_width(text: &str) -> (width: usize)
    ensures
        width == spec_cell_width(text@),
{
    let lines = str_lines(text);
    let mut widths: Vec<usize> = Vec::new();
    let mut i: usize = 0;
    while i < lines.len()
        invariant
            i <= lines.len(),
            lines@.len() == lines_of(text@).len(),
            forall|j: int| 0 <= j < lines@.len() ==> (#[trigger] lines@[j])@ == lines_of(text@)[j],
            widths@.len() == i,
            forall|j: int| 0 <= j < i ==> (#[trigger] widths@[j]) as nat == display_width(lines_of(text@)[j]),
        decreases lines.len() - i,
    {
        let width = str_width(lines[i]);
        widths.push(width);
        i += 1;
    }
    assert(as_nats(widths@) =~= line_widths(text@));
    widest(widths.as_slice())
}

/// The width of every cell of column `column`, row by row. A row is the
/// sequence of its cells.
pub open spec fn cell_widths(rows: Seq<Seq<Seq<char>>>, column: int) -> Seq<nat> {
    Seq::new(rows.len(), |i: int| spec_cell_width(rows[i][column]))
}

/// The width of column `column`: that of its widest cell, 0 without rows.
pub open spec fn column_width(rows: Seq<Seq<Seq<char>>>, column: int) -> nat {
    spec_widest(cell_widths(rows, column))
}

/// The width of each of the first `columns` columns.
pub open spec fn column_widths(rows: Seq<Seq<Seq<char>>>, columns: nat) -> Seq<nat> {
    Seq::new(columns, |column: int| column_width(rows, column))
}

/// The width of a cell is that of its widest line: no line is wider, one line
/// is as wide unless the cell holds no line, and such a cell has width 0.
pub proof fn lemma_cell_width_is_maximum(text: Seq<char>)
    ensures
        forall|i: int|
            0 <= i < lines_of(text).len() ==> display_width(#[trigger] lines_of(text)[i])
                <= spec_cell_width(text),
        lines_of(text).len() > 0 ==> exists|i: int|
            0 <= i < lines_of(text).len() && display_width(#[trigger] lines_of(text)[i])
                == spec_cell_width(text),
        lines_of(text).len() == 0 ==> spec_cell_width(text) == 0,
{
    let widths = line_widths(text);
    lemma_widest_is_maximum(widths);
    assert forall|i: int| 0 <= i < lines_of(text).len() implies display_width(
        #[trigger] lines_of(text)[i],
    ) <= spec_cell_width(text) by {
        assert(widths[i] == display_width(lines_of(text)[i]));
    }
    if widths.len() > 0 {
        let i = choose|i: int| 0 <= i < widths.len() && widths[i] == spec_widest(widths);
        assert(display_width(lines_of(text)[i]) == spec_cell_width(text));
    }
}

/// The width of a column is that of its widest cell: no cell of the column
/// is wider, one cell is as wide unless there are no rows, and without rows
/// the width is 0.
pub proof fn lemma_column_width_is_maximum(rows: Seq<Seq<Seq<char>>>, column: int)
    ensures
        forall|i: int|
            0 <= i < rows.len() ==> spec_cell_width(#[trigger] rows[i][column]) <= column_width(
                rows,
                column,
            ),
        rows.len() > 0 ==> exists|i: int|
            0 <= i < rows.len() && spec_cell_width(#[trigger] rows[i][column]) == column_width(
                rows,
                column,
            ),
        rows.len() == 0 ==> column_width(rows, column) == 0,
{
    let widths = cell_widths(rows, column);
    lemma_widest_is_maximum(widths);
    assert forall|i: int| 0 <= i < rows.len() implies spec_cell_width(#[trigger] rows[i][column])
        <= column_width(rows, column) by {
        assert(widths[i] == spec_cell_width(rows[i][column]));
    }
    if widths.len() > 0 {
        let i = choose|i: int| 0 <= i < widths.len() && widths[i] == spec_widest(widths);
        assert(spec_cell_width(rows[i][column]) == column_width(rows, column));
    }
}

} // verus!
