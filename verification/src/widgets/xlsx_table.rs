//! The table: the cells of one sheet laid out in columns, each column as
//! wide as its widest cell.

use vstd::prelude::*;
use vstd::string::{StrSliceExecFns, StringExecFns};
use vstd::utf8::{encode_utf8, is_char_boundary};
use crate::layout::Rect;

verus! {

/// The rows that one row of the table takes on the grid.
pub const ITEM_HEIGHT: u16 = 4;

/// The width given to a number or a truth value.
pub const VALUE_WIDTH: usize = 8;

/// `calamine::Range`, the rectangle of cells of one sheet. Nothing of its
/// inside is known here: it is read through `range_height`, `range_width`
/// and `range_cell` only.
#[verifier::external_type_specification]
#[verifier::external_body]
#[verifier::reject_recursive_types(T)]
pub struct ExRange<T>(calamine::Range<T>);

/// `calamine::Data`, the value of one cell. Nothing of its inside is known
/// here.
#[verifier::external_type_specification]
#[verifier::external_body]
pub struct ExData(calamine::Data);

/// What the layout reads of a cell: its kind, and the text of a text cell.
#[derive(Debug, PartialEq, Eq)]
pub enum Cell {
    Text(String),
    Int(i64),
    Real,
    Bool(bool),
    Other,
}

/// A cell with its text as a sequence of characters.
pub enum CellView {
    Text(Seq<char>),
    Int(i64),
    Real,
    Bool(bool),
    Other,
}

impl View for Cell {
    type V = CellView;

    open spec fn view(&self) -> CellView {
        match self {
            Cell::Text(text) => CellView::Text(text@),
            Cell::Int(value) => CellView::Int(*value),
            Cell::Real => CellView::Real,
            Cell::Bool(value) => CellView::Bool(*value),
            Cell::Other => CellView::Other,
        }
    }
}

/// The cells of a range, row by row: what `calamine::Range::get` gives at
/// each position inside the range, by kind.
pub uninterp spec fn range_cells(range: calamine::Range<calamine::Data>) -> Seq<Seq<CellView>>;

/// The width that a cell asks of its column: the length in bytes of a text,
/// eight cells for a number or a truth value, nothing for the rest.
pub open spec fn cell_width(cell: CellView) -> nat {
    match cell {
        CellView::Text(text) => encode_utf8(text).len(),
        CellView::Int(_) => VALUE_WIDTH as nat,
        CellView::Real => VALUE_WIDTH as nat,
        CellView::Bool(_) => VALUE_WIDTH as nat,
        CellView::Other => 0,
    }
}

/// The width of column `col` over the first `rows` rows: the widest cell of
/// the column among them.
pub open spec fn column_width(cells: Seq<Seq<CellView>>, col: int, rows: nat) -> nat
    decreases rows,
{
    if rows == 0 {
        0
    } else {
        let above = column_width(cells, col, (rows - 1) as nat);
        let here = cell_width(cells[rows - 1][col]);
        if here > above {
            here
        } else {
            above
        }
    }
}

/// The number of columns of a table: the length of its rows, and none for a
/// table without rows.
pub open spec fn column_count(cells: Seq<Seq<CellView>>) -> nat {
    if cells.len() == 0 {
        0
    } else {
        cells[0].len()
    }
}

/// The width of every column of a table.
pub open spec fn column_widths(cells: Seq<Seq<CellView>>) -> Seq<usize> {
    Seq::new(column_count(cells), |col: int| column_width(cells, col, cells.len()) as usize)
}

/// Where the text of one cell goes: the cell's row and column in the sheet,
/// the grid position of its first character, and the width of its column.
#[derive(Clone, Copy, PartialEq, Eq, Structural, Debug)]
pub struct Place {
    pub row: usize,
    pub col: usize,
    pub x: u16,
    pub y: u16,
    pub width: usize,
}

/// The grid row on which row `row` of the table is written.
pub open spec fn row_top(area: Rect, row: nat) -> int {
    let y = area.y + row * ITEM_HEIGHT;
    if y <= u16::MAX {
        y
    } else {
        u16::MAX as int
    }
}

/// The first grid row below `area`.
pub open spec fn bottom(area: Rect) -> int {
    let y = area.y + area.height;
    if y <= u16::MAX {
        y
    } else {
        u16::MAX as int
    }
}

/// The first grid column right of `area`.
pub open spec fn right(area: Rect) -> int {
    let x = area.x + area.width;
    if x <= u16::MAX {
        x
    } else {
        u16::MAX as int
    }
}

/// The grid column at which the next cell starts, behind a cell at `x` in a
/// column of width `width`: one cell of space lies between them.
pub open spec fn next_x(x: int, width: usize) -> int {
    if x + width + 1 <= u16::MAX {
        x + width + 1
    } else {
        u16::MAX as int
    }
}

/// The places of the cells of row `row` from column `col` on, the first of
/// them at `x`. A row ends with the first cell behind which the next would
/// start at or beyond the right edge of the area.
pub open spec fn row_places(widths: Seq<usize>, area: Rect, row: nat, col: nat, x: int) -> Seq<
    Place,
>
    decreases widths.len() - col,
{
    if col >= widths.len() {
        Seq::empty()
    } else {
        let place = Place {
            row: row as usize,
            col: col as usize,
            x: x as u16,
            y: row_top(area, row) as u16,
            width: widths[col as int],
        };
        let next = next_x(x, widths[col as int]);
        if next >= right(area) {
            seq![place]
        } else {
            seq![place] + row_places(widths, area, row, col + 1, next)
        }
    }
}

/// The places of the cells from row `row` on. The table shows as many rows
/// as fit into the height of the area at four grid rows each, and stops
/// before a row that would be written at or below the bottom of the area.
pub open spec fn table_places(widths: Seq<usize>, rows: nat, area: Rect, row: nat) -> Seq<Place>
    decreases rows - row,
{
    if row >= rows || row >= area.height / ITEM_HEIGHT || row_top(area, row) >= bottom(area) {
        Seq::empty()
    } else {
        row_places(widths, area, row, 0, area.x as int) + table_places(
            widths,
            rows,
            area,
            row + 1,
        )
    }
}

/// Calls `calamine::Range::height`: the number of rows of the range.
#[verifier::external_body]
fn range_height(range: &calamine::Range<calamine::Data>) -> (height: usize)
    ensures
        height == range_cells(*range).len(),
{
    range.height()
}

/// Calls `calamine::Range::width`: the number of columns, which is the
/// length of every row, and zero for a range without rows.
#[verifier::external_body]
fn range_width(range: &calamine::Range<calamine::Data>) -> (width: usize)
    ensures
        width == column_count(range_cells(*range)),
        forall|row: int|
            0 <= row < range_cells(*range).len() ==> (#[trigger] range_cells(*range)[row]).len()
                == width,
{
    range.width()
}

/// Calls `calamine::Range::get` at a position inside the range and hands
/// the cell back by kind: the text of a text cell, the value of an integer
/// or a truth value, and only the kind of everything else.
#[verifier::external_body]
fn range_cell(range: &calamine::Range<calamine::Data>, row: usize, col: usize) -> (cell: Cell)
    requires
        row < range_cells(*range).len(),
        col < range_cells(*range)[row as int].len(),
    ensures
        cell@ == range_cells(*range)[row as int][col as int],
{
    match range.get((row, col)) {
        Some(calamine::Data::String(text)) => Cell::Text(text.clone()),
        Some(calamine::Data::Int(value)) => Cell::Int(*value),
        Some(calamine::Data::Float(_)) => Cell::Real,
        Some(calamine::Data::Bool(value)) => Cell::Bool(*value),
        Some(calamine::Data::DateTime(_)) => Cell::Other,
        Some(calamine::Data::DateTimeIso(_)) => Cell::Other,
        Some(calamine::Data::DurationIso(_)) => Cell::Other,
        Some(calamine::Data::Error(_)) => Cell::Other,
        Some(calamine::Data::Empty) => Cell::Other,
        None => Cell::Other,
    }
}

/// The width that `cell` asks of its column.
pub fn width_of(cell: &Cell) -> (width: usize)
    ensures
        width == cell_width(cell@),
{
    match cell {
        Cell::Text(text) => text.as_str().as_bytes().len(),
        Cell::Int(_) => VALUE_WIDTH,
        Cell::Real => VALUE_WIDTH,
        Cell::Bool(_) => VALUE_WIDTH,
        Cell::Other => 0,
    }
}

/// `text` filled up with spaces on the right to `width` characters; a text
/// of that many characters or more stays as it is.
pub open spec fn padded(text: Seq<char>, width: nat) -> Seq<char> {
    if text.len() >= width {
        text
    } else {
        text + Seq::new((width - text.len()) as nat, |i: int| ' ')
    }
}

/// The text of a cell as it is written into a column `width` bytes wide: a
/// text of more bytes is cut to its first `width` bytes, every other text
/// is filled up with spaces to `width` characters. A longer text can only
/// be cut where a character ends.
pub fn fit_text(text: &str, width: usize) -> (shown: String)
    requires
        encode_utf8(text@).len() > width ==> is_char_boundary(encode_utf8(text@), width as int),
    ensures
        encode_utf8(text@).len() > width ==> encode_utf8(shown@) == encode_utf8(text@).subrange(
            0,
            width as int,
        ),
        encode_utf8(text@).len() <= width ==> shown@ == padded(text@, width as nat),
{
    if text.as_bytes().len() > width {
        let (head, _) = text.split_at(width);
        head.to_owned()
    } else {
        let mut shown = text.to_owned();
        let mut chars = text.unicode_len();
        proof {
            reveal_strlit(" ");
            assert(shown@ =~= text@ + Seq::new(0, |i: int| ' '));
        }
        while chars < width
            invariant
                chars >= text@.len(),
                " "@ == seq![' '],
                chars < width ==> shown@ == text@ + Seq::new(
                    (chars - text@.len()) as nat,
                    |i: int| ' ',
                ),
                chars >= width ==> shown@ == padded(text@, width as nat),
            decreases width - chars,
        {
            shown.append(" ");
            chars += 1;
            assert(shown@ =~= text@ + Seq::new((chars - text@.len()) as nat, |i: int| ' '));
        }
        shown
    }
}

/// A sheet's cells and the width of each of its columns.
pub struct XlsxTableWidget {
    range: calamine::Range<calamine::Data>,
    column_widths: Vec<usize>,
}

impl XlsxTableWidget {
    /// The cells of the table, row by row.
    pub closed spec fn cells(self) -> Seq<Seq<CellView>> {
        range_cells(self.range)
    }

    /// The widths of the table's columns.
    pub closed spec fn widths(self) -> Seq<usize> {
        self.column_widths@
    }

    /// The table of the cells of `range`, each column as wide as its widest
    /// cell.
    pub fn new(range: calamine::Range<calamine::Data>) -> (table: XlsxTableWidget)
        ensures
            table.cells() == range_cells(range),
            table.widths() == column_widths(range_cells(range)),
    {
        let ghost cells = range_cells(range);
        let height = range_height(&range);
        let width = range_width(&range);
        let mut widths: Vec<usize> = Vec::new();
        let mut col: usize = 0;
        while col < width
            invariant
                col <= width,
                widths@.len() == col,
                forall|c: int| 0 <= c < col ==> #[trigger] widths@[c] == 0,
            decreases width - col,
        {
            widths.push(0);
            col += 1;
        }
        let mut row: usize = 0;
        while row < height
            invariant
                row <= height,
                cells == range_cells(range),
                height == cells.len(),
                width == column_count(cells),
                forall|r: int| 0 <= r < cells.len() ==> (#[trigger] cells[r]).len() == width,
                widths@.len() == width,
                forall|c: int|
                    0 <= c < width ==> #[trigger] widths@[c] == column_width(cells, c, row as nat),
            decreases height - row,
        {
            let mut col: usize = 0;
            while col < width
                invariant
                    col <= width,
                    row < height,
                    cells == range_cells(range),
                    height == cells.len(),
                    forall|r: int| 0 <= r < cells.len() ==> (#[trigger] cells[r]).len() == width,
                    widths@.len() == width,
                    forall|c: int|
                        0 <= c < col ==> #[trigger] widths@[c] == column_width(
                            cells,
                            c,
                            (row + 1) as nat,
                        ),
                    forall|c: int|
                        col <= c < width ==> #[trigger] widths@[c] == column_width(
                            cells,
                            c,
                            row as nat,
                        ),
                decreases width - col,
            {
                let cell = range_cell(&range, row, col);
                let here = width_of(&cell);
                if here > widths[col] {
                    widths.set(col, here);
                }
                col += 1;
            }
            row += 1;
        }
        assert(widths@ =~= column_widths(cells));
        XlsxTableWidget { range, column_widths: widths }
    }

    /// The sheet's cells.
    pub fn range(&self) -> (range: &calamine::Range<calamine::Data>)
        ensures
            range_cells(*range) == self.cells(),
    {
        &self.range
    }

    /// The widths of the columns, left to right.
    pub fn column_widths(&self) -> (widths: &Vec<usize>)
        ensures
            widths@ == self.widths(),
    {
        &self.column_widths
    }

    /// Where the text of each visible cell goes when the table is written
    /// into `area`: row by row from the top, four grid rows apart, and
    /// within a row column by column from the left, one cell of space
    /// between columns.
    pub fn render_ref(&self, area: Rect) -> (places: Vec<Place>)
        ensures
            places@ == table_places(self.widths(), self.cells().len(), area, 0),
    {
        let height = range_height(&self.range);
        let visible = (area.height / ITEM_HEIGHT) as usize;
        let bottom: u16 = area.y.saturating_add(area.height);
        let right: u16 = area.x.saturating_add(area.width);
        let ghost widths = self.column_widths@;
        let ghost whole = table_places(widths, height as nat, area, 0);
        let mut places: Vec<Place> = Vec::new();
        let mut row: usize = 0;
        while row < height && row < visible
            invariant
                widths == self.column_widths@,
                height == self.cells().len(),
                visible == area.height / ITEM_HEIGHT,
                bottom == self::bottom(area),
                right == self::right(area),
                whole == table_places(widths, height as nat, area, 0),
                whole == places@ + table_places(widths, height as nat, area, row as nat),
            decreases height - row,
        {
            let y: u16 = area.y.saturating_add((row as u16) * ITEM_HEIGHT);
            if y >= bottom {
                assert(places@ + Seq::<Place>::empty() =~= places@);
                return places;
            }
            let ghost before = places@;
            let ghost this_row = row_places(widths, area, row as nat, 0, area.x as int);
            let mut x: u16 = area.x;
            let mut col: usize = 0;
            let mut open = true;
            while open && col < self.column_widths.len()
                invariant
                    widths == self.column_widths@,
                    y == row_top(area, row as nat),
                    right == self::right(area),
                    open ==> before + this_row == places@ + row_places(
                        widths,
                        area,
                        row as nat,
                        col as nat,
                        x as int,
                    ),
                    !open ==> before + this_row == places@,
                decreases self.column_widths.len() - col + if open { 1nat } else { 0nat },
            {
                let width = self.column_widths[col];
                places.push(Place { row, col, x, y, width });
                let ghost rest = row_places(widths, area, row as nat, (col + 1) as nat, next_x(x as int, width));
                x = if width >= 0xffff {
                    u16::MAX
                } else {
                    x.saturating_add(width as u16 + 1)
                };
                if x >= right {
                    open = false;
                    assert(before + this_row =~= places@);
                } else {
                    assert(before + this_row =~= places@ + rest);
                }
                col += 1;
            }
            assert(before + this_row =~= places@) by {
                if open {
                    assert(places@ + Seq::<Place>::empty() =~= places@);
                }
            }
            assert(whole =~= places@ + table_places(widths, height as nat, area, (row + 1) as nat));
            row += 1;
        }
        assert(places@ + Seq::<Place>::empty() =~= places@);
        places
    }
}

} // verus!
