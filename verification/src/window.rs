//! Rectangular windows on the terminal, framed by box-drawing characters, and the drawing
//! commands that put characters and text at terminal positions.

use vstd::prelude::*;

verus! {

/// One thing to put on the terminal: a single character, or a text that starts at a position.
#[derive(Clone, Debug, PartialEq, Eq)]
pub enum Draw {
    Glyph { column: u16, row: u16, character: char },
    Text { column: u16, row: u16, text: String },
}

/// A drawing command with its text taken by its characters.
pub enum DrawView {
    Glyph { column: u16, row: u16, character: char },
    Text { column: u16, row: u16, text: Seq<char> },
}

impl View for Draw {
    type V = DrawView;

    open spec fn view(&self) -> DrawView {
        match self {
            Draw::Glyph { column, row, character } => DrawView::Glyph {
                column: *column,
                row: *row,
                character: *character,
            },
            Draw::Text { column, row, text } => DrawView::Text {
                column: *column,
                row: *row,
                text: text@,
            },
        }
    }
}

/// The views of a list of drawing commands.
pub open spec fn draws_view(s: Seq<Draw>) -> Seq<DrawView> {
    s.map_values(|d: Draw| d@)
}

/// A rectangle on the terminal, given by the rows and columns of its frame.
#[derive(Clone, Copy, Debug, PartialEq, Eq, Structural)]
pub struct Window {
    pub begin_row: u16,
    pub begin_column: u16,
    pub end_row: u16,
    pub end_column: u16,
}

/// A position on the terminal.
#[derive(Clone, Copy, Debug, PartialEq, Eq, Structural)]
pub struct CursorPosition {
    pub column: u16,
    pub row: u16,
}

pub const UPPER_LEFT_CORNER: char = '╔';
pub const LOWER_LEFT_CORNER: char = '╚';
pub const UPPER_RIGHT_CORNER: char = '╗';
pub const LOWER_RIGHT_CORNER: char = '╝';
pub const LINE_UP_DOWN: char = '║';
pub const LINE_LEFT_RIGHT: char = '═';

/// A single character at a position.
pub open spec fn glyph(column: u16, row: u16, character: char) -> DrawView {
    DrawView::Glyph { column, row, character }
}

/// The four corners of the frame of `w`.
pub open spec fn corner_cells(w: Window) -> Seq<DrawView> {
    seq![
        glyph(w.begin_column, w.begin_row, UPPER_LEFT_CORNER),
        glyph(w.begin_column, w.end_row, LOWER_LEFT_CORNER),
        glyph(w.end_column, w.begin_row, UPPER_RIGHT_CORNER),
        glyph(w.end_column, w.end_row, LOWER_RIGHT_CORNER),
    ]
}

/// The characters in column `column` from row `begin` up to, not including, row `end`.
pub open spec fn vertical_cells(column: u16, begin: u16, end: u16) -> Seq<DrawView> {
    Seq::new(
        if begin < end { (end - begin) as nat } else { 0 },
        |i: int| glyph(column, (begin + i) as u16, LINE_UP_DOWN),
    )
}

/// The characters in row `row` from column `begin` up to, not including, column `end`.
pub open spec fn horizontal_cells(row: u16, begin: u16, end: u16) -> Seq<DrawView> {
    Seq::new(
        if begin < end { (end - begin) as nat } else { 0 },
        |i: int| glyph((begin + i) as u16, row, LINE_LEFT_RIGHT),
    )
}

/// The frame of `w`, in the order in which it is drawn: the corners, the left and the right
/// side, then the top and the bottom.
pub open spec fn window_cells(w: Window) -> Seq<DrawView> {
    corner_cells(w) + vertical_cells(w.begin_column, (w.begin_row + 1) as u16, w.end_row)
        + vertical_cells(w.end_column, (w.begin_row + 1) as u16, w.end_row) + horizontal_cells(
        w.begin_row,
        (w.begin_column + 1) as u16,
        w.end_column,
    ) + horizontal_cells(w.end_row, (w.begin_column + 1) as u16, w.end_column)
}

/// The position where text inside `w` starts: two columns right and two rows down from the
/// upper left corner.
pub open spec fn writing_position(w: Window) -> CursorPosition {
    CursorPosition { column: (w.begin_column + 2) as u16, row: (w.begin_row + 2) as u16 }
}

impl Window {
    /// The drawing commands of the frame of this window.
    pub fn create_window(&self) -> (res: Vec<Draw>)
        requires
            self.begin_row < u16::MAX,
            self.begin_column < u16::MAX,
        ensures
            draws_view(res@) == window_cells(*self),
    {
        let mut cells = self.create_corners();
        let mut left = Self::create_left_right(self.begin_column, self.begin_row + 1, self.end_row);
        let mut right = Self::create_left_right(self.end_column, self.begin_row + 1, self.end_row);
        let mut top = Self::create_up_down(self.begin_row, self.begin_column + 1, self.end_column);
        let mut bottom = Self::create_up_down(self.end_row, self.begin_column + 1, self.end_column);
        let ghost c0 = cells@;
        let ghost l = left@;
        let ghost r = right@;
        let ghost t = top@;
        let ghost b = bottom@;
        cells.append(&mut left);
        cells.append(&mut right);
        cells.append(&mut top);
        cells.append(&mut bottom);
        assert(cells@ =~= c0 + l + r + t + b);
        assert(draws_view(cells@) =~= draws_view(c0) + draws_view(l) + draws_view(r) + draws_view(
            t,
        ) + draws_view(b));
        cells
    }

    /// The position where text inside this window starts.
    pub fn get_writing_positon(&self) -> (res: CursorPosition)
        requires
            self.begin_column <= u16::MAX - 2,
            self.begin_row <= u16::MAX - 2,
        ensures
            res == writing_position(*self),
    {
        CursorPosition { column: self.begin_column + 2, row: self.begin_row + 2 }
    }

    fn create_corners(&self) -> (res: Vec<Draw>)
        ensures
            draws_view(res@) == corner_cells(*self),
    {
        let mut cells: Vec<Draw> = Vec::new();
        cells.push(Self::create_line(self.begin_column, self.begin_row, UPPER_LEFT_CORNER));
        cells.push(Self::create_line(self.begin_column, self.end_row, LOWER_LEFT_CORNER));
        cells.push(Self::create_line(self.end_column, self.begin_row, UPPER_RIGHT_CORNER));
        cells.push(Self::create_line(self.end_column, self.end_row, LOWER_RIGHT_CORNER));
        assert(draws_view(cells@) =~= corner_cells(*self));
        cells
    }

    fn create_left_right(column: u16, begin: u16, end: u16) -> (res: Vec<Draw>)
        ensures
            draws_view(res@) == vertical_cells(column, begin, end),
    {
        let mut cells: Vec<Draw> = Vec::new();
        let mut row: u16 = begin;
        while row < end
            invariant
                begin <= row,
                row <= end || row == begin,
                draws_view(cells@) == vertical_cells(column, begin, row),
            decreases end - row,
        {
            let ghost before = cells@;
            cells.push(Self::create_line(column, row, LINE_UP_DOWN));
            assert(draws_view(cells@) =~= draws_view(before).push(glyph(column, row, LINE_UP_DOWN)));
            row = row + 1;
            assert(draws_view(cells@) =~= vertical_cells(column, begin, row));
        }
        assert(draws_view(cells@) =~= vertical_cells(column, begin, end));
        cells
    }

    fn create_up_down(row: u16, begin: u16, end: u16) -> (res: Vec<Draw>)
        ensures
            draws_view(res@) == horizontal_cells(row, begin, end),
    {
        let mut cells: Vec<Draw> = Vec::new();
        let mut column: u16 = begin;
        while column < end
            invariant
                begin <= column,
                column <= end || column == begin,
                draws_view(cells@) == horizontal_cells(row, begin, column),
            decreases end - column,
        {
            let ghost before = cells@;
            cells.push(Self::create_line(column, row, LINE_LEFT_RIGHT));
            assert(draws_view(cells@) =~= draws_view(before).push(glyph(column, row, LINE_LEFT_RIGHT)));
            column = column + 1;
            assert(draws_view(cells@) =~= horizontal_cells(row, begin, column));
        }
        assert(draws_view(cells@) =~= horizontal_cells(row, begin, end));
        cells
    }

    fn create_line(column: u16, row: u16, character: char) -> (res: Draw)
        ensures
            res@ == glyph(column, row, character),
    {
        Draw::Glyph { column, row, character }
    }
}


/// A window whose frame has its begin row and column before its end row and column.
pub open spec fn valid_window(w: Window) -> bool {
    w.begin_column < w.end_column && w.begin_row < w.end_row
}

/// The position lies on the frame of `w`.
pub open spec fn on_frame(w: Window, column: int, row: int) -> bool {
    ||| (column == w.begin_column || column == w.end_column) && w.begin_row <= row <= w.end_row
    ||| (row == w.begin_row || row == w.end_row) && w.begin_column <= column <= w.end_column
}

/// The character of the frame of `w` at a position on it.
pub open spec fn frame_char(w: Window, column: int, row: int) -> char {
    if column == w.begin_column && row == w.begin_row {
        UPPER_LEFT_CORNER
    } else if column == w.begin_column && row == w.end_row {
        LOWER_LEFT_CORNER
    } else if column == w.end_column && row == w.begin_row {
        UPPER_RIGHT_CORNER
    } else if column == w.end_column && row == w.end_row {
        LOWER_RIGHT_CORNER
    } else if column == w.begin_column || column == w.end_column {
        LINE_UP_DOWN
    } else {
        LINE_LEFT_RIGHT
    }
}

/// The command at index `i` of the frame of a valid window, by the part of the frame it is in.
proof fn lemma_window_cell_at(w: Window, i: int)
    requires
        valid_window(w),
        0 <= i < window_cells(w).len(),
    ensures
        window_cells(w).len() == 4 + 2 * (w.end_row - w.begin_row - 1) + 2 * (w.end_column
            - w.begin_column - 1),
        ({
            let n = w.end_row - w.begin_row - 1;
            let m = w.end_column - w.begin_column - 1;
            window_cells(w)[i] == if i < 4 {
                corner_cells(w)[i]
            } else if i < 4 + n {
                glyph(w.begin_column, (w.begin_row + 1 + (i - 4)) as u16, LINE_UP_DOWN)
            } else if i < 4 + 2 * n {
                glyph(w.end_column, (w.begin_row + 1 + (i - 4 - n)) as u16, LINE_UP_DOWN)
            } else if i < 4 + 2 * n + m {
                glyph((w.begin_column + 1 + (i - 4 - 2 * n)) as u16, w.begin_row, LINE_LEFT_RIGHT)
            } else {
                glyph(
                    (w.begin_column + 1 + (i - 4 - 2 * n - m)) as u16,
                    w.end_row,
                    LINE_LEFT_RIGHT,
                )
            }
        }),
{
    let n = w.end_row - w.begin_row - 1;
    let m = w.end_column - w.begin_column - 1;
    let c = corner_cells(w);
    let l = vertical_cells(w.begin_column, (w.begin_row + 1) as u16, w.end_row);
    let r = vertical_cells(w.end_column, (w.begin_row + 1) as u16, w.end_row);
    let t = horizontal_cells(w.begin_row, (w.begin_column + 1) as u16, w.end_column);
    let b = horizontal_cells(w.end_row, (w.begin_column + 1) as u16, w.end_column);
    assert(l.len() == n && r.len() == n && t.len() == m && b.len() == m);
    assert(window_cells(w) == c + l + r + t + b);
    if i < 4 {
        assert((c + l + r + t + b)[i] == c[i]);
    } else if i < 4 + n {
        assert((c + l + r + t + b)[i] == l[i - 4]);
    } else if i < 4 + 2 * n {
        assert((c + l + r + t + b)[i] == r[i - 4 - n]);
    } else if i < 4 + 2 * n + m {
        assert((c + l + r + t + b)[i] == t[i - 4 - 2 * n]);
    } else {
        assert((c + l + r + t + b)[i] == b[i - 4 - 2 * n - m]);
    }
}

/// Every character that the frame of a valid window draws lies on the frame, and is the
/// frame's character there: a corner character at the corners, a vertical line on the sides and
/// a horizontal line at the top and the bottom.
pub proof fn lemma_window_cells_on_frame(w: Window)
    requires
        valid_window(w),
    ensures
        forall|i: int|
            0 <= i < window_cells(w).len() ==> (#[trigger] window_cells(w)[i] matches DrawView::Glyph {
                column,
                row,
                character,
            } && on_frame(w, column as int, row as int) && character == frame_char(
                w,
                column as int,
                row as int,
            )),
{
    assert forall|i: int| 0 <= i < window_cells(w).len() implies (#[trigger] window_cells(
        w,
    )[i] matches DrawView::Glyph { column, row, character } && on_frame(
        w,
        column as int,
        row as int,
    ) && character == frame_char(w, column as int, row as int)) by {
        lemma_window_cell_at(w, i);
    }
}

/// The frame of a valid window draws every position on the frame.
pub proof fn lemma_window_frame_covered(w: Window)
    requires
        valid_window(w),
    ensures
        forall|column: int, row: int|
            #![trigger on_frame(w, column, row)]
            on_frame(w, column, row) ==> exists|i: int|
                0 <= i < window_cells(w).len() && #[trigger] window_cells(w)[i] == glyph(
                    column as u16,
                    row as u16,
                    frame_char(w, column, row),
                ),
{
    let n = w.end_row - w.begin_row - 1;
    let m = w.end_column - w.begin_column - 1;
    assert forall|column: int, row: int|
        #![trigger on_frame(w, column, row)]
        on_frame(w, column, row) implies exists|i: int|
            0 <= i < window_cells(w).len() && #[trigger] window_cells(w)[i] == glyph(
                column as u16,
                row as u16,
                frame_char(w, column, row),
            ) by {
        let i: int = if column == w.begin_column && row == w.begin_row {
            0
        } else if column == w.begin_column && row == w.end_row {
            1
        } else if column == w.end_column && row == w.begin_row {
            2
        } else if column == w.end_column && row == w.end_row {
            3
        } else if column == w.begin_column {
            4 + (row - w.begin_row - 1)
        } else if column == w.end_column {
            4 + n + (row - w.begin_row - 1)
        } else if row == w.begin_row {
            4 + 2 * n + (column - w.begin_column - 1)
        } else {
            4 + 2 * n + m + (column - w.begin_column - 1)
        };
        lemma_window_cell_at(w, i);
    }
}

/// The frame of a valid window draws no position twice.
pub proof fn lemma_window_cells_distinct(w: Window)
    requires
        valid_window(w),
    ensures
        forall|i: int, j: int|
            0 <= i < window_cells(w).len() && 0 <= j < window_cells(w).len() && i != j ==> (
            #[trigger] window_cells(w)[i] matches DrawView::Glyph { column: c1, row: r1, .. }
                && #[trigger] window_cells(w)[j] matches DrawView::Glyph {
                column: c2,
                row: r2,
                ..
            } && (c1 != c2 || r1 != r2)),
{
    assert forall|i: int, j: int|
        0 <= i < window_cells(w).len() && 0 <= j < window_cells(w).len() && i != j implies (
        #[trigger] window_cells(w)[i] matches DrawView::Glyph { column: c1, row: r1, .. }
            && #[trigger] window_cells(w)[j] matches DrawView::Glyph {
            column: c2,
            row: r2,
            ..
        } && (c1 != c2 || r1 != r2)) by {
        lemma_window_cell_at(w, i);
        lemma_window_cell_at(w, j);
    }
}

} // verus!
