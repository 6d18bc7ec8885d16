//! The mapping between pointer pixels and board cells, in both directions,
//! under either orientation of the board.

use vstd::prelude::*;

verus! {

/// Number of cells along each edge of the board.
pub const BOARD_SIZE: i32 = 8;

/// Number of cells on the board.
pub const CELL_COUNT: usize = 64;

/// Edge length of one cell on the screen, in pixels.
pub const SQUARE_SIZE: i32 = 96;

/// Width of the window, in pixels.
pub const WINDOW_WIDTH: i32 = 768;

/// Height of the window, in pixels.
pub const WINDOW_HEIGHT: i32 = 768;

/// A cell of the board by column `x` and row `y`. The value itself is not
/// held to the board: a click beside the board converts to a position that
/// lies outside it.
#[derive(Clone, Copy, Debug, PartialEq, Eq, Structural)]
pub struct BoardPosition {
    pub x: i32,
    pub y: i32,
}

/// A point of the window, in pixels from its top left corner.
#[derive(Clone, Copy, Debug, PartialEq, Eq, Structural)]
pub struct ScreenPoint {
    pub x: i32,
    pub y: i32,
}

/// Which way round the board is shown.
#[derive(Clone, Copy, Debug, PartialEq, Eq, Structural)]
pub enum Orientation {
    /// Board row `r` is drawn as screen row `r`.
    Normal,
    /// Board row `r` is drawn as screen row `BOARD_SIZE - 1 - r`.
    Flipped,
}

/// Whether column `x` and row `y` name a cell of the board.
pub open spec fn cell_on_board(x: int, y: int) -> bool {
    0 <= x < BOARD_SIZE && 0 <= y < BOARD_SIZE
}

/// The row inversion: row `r` counted from the other edge.
pub open spec fn flipped_row(row: int) -> int {
    BOARD_SIZE - 1 - row
}

/// The screen row that shows board row `row`, and the board row shown by
/// screen row `row`: the same map both ways.
pub open spec fn oriented_row(row: int, orientation: Orientation) -> int {
    match orientation {
        Orientation::Normal => row,
        Orientation::Flipped => flipped_row(row),
    }
}

/// Quotient of `a` by `b` rounded toward zero.
pub open spec fn quotient_toward_zero(a: int, b: int) -> int {
    if a >= 0 {
        a / b
    } else {
        -((-a) / b)
    }
}

/// The cell, as column and row, under the pixel `(px, py)` when cells are
/// `square_size` pixels wide.
pub open spec fn cell_under_pixel(px: int, py: int, square_size: int, orientation: Orientation) -> (
    int,
    int,
) {
    (
        quotient_toward_zero(px, square_size),
        oriented_row(quotient_toward_zero(py, square_size), orientation),
    )
}

/// The pixel at the top left corner of the cell in column `x` and row `y`.
pub open spec fn corner_of_cell(x: int, y: int, square_size: int, orientation: Orientation) -> (
    int,
    int,
) {
    (x * square_size, oriented_row(y, orientation) * square_size)
}

/// The cell that is reached as number `index` when the board is walked row
/// by row, each row from its first column.
pub open spec fn nth_cell(index: int) -> BoardPosition {
    BoardPosition {
        x: (index % (BOARD_SIZE as int)) as i32,
        y: (index / (BOARD_SIZE as int)) as i32,
    }
}

/// The cells of the board in the order in which it is walked: row by row,
/// each row from its first column.
pub open spec fn scan_cells() -> Seq<BoardPosition> {
    Seq::new(CELL_COUNT as nat, |index: int| nth_cell(index))
}

impl BoardPosition {
    /// The place of the cell in the walk over the board.
    pub open spec fn scan_index(self) -> int {
        self.y * BOARD_SIZE + self.x
    }

    /// Whether the position names a cell of the board.
    pub open spec fn on_board(self) -> bool {
        cell_on_board(self.x as int, self.y as int)
    }

    /// Whether the position names a cell of the board.
    pub fn in_bounds(&self) -> (inside: bool)
        ensures
            inside == self.on_board(),
    {
        self.x >= 0 && self.x < BOARD_SIZE && self.y >= 0 && self.y < BOARD_SIZE
    }
}

impl Orientation {
    /// The other orientation.
    pub open spec fn other(self) -> Orientation {
        match self {
            Orientation::Normal => Orientation::Flipped,
            Orientation::Flipped => Orientation::Normal,
        }
    }

    /// The other orientation.
    pub fn toggled(self) -> (o: Orientation)
        ensures
            o == self.other(),
    {
        match self {
            Orientation::Normal => Orientation::Flipped,
            Orientation::Flipped => Orientation::Normal,
        }
    }

    /// Whether rows are drawn inverted.
    pub fn is_flipped(&self) -> (flipped: bool)
        ensures
            flipped == (*self == Orientation::Flipped),
    {
        match self {
            Orientation::Normal => false,
            Orientation::Flipped => true,
        }
    }
}

/// The cell reached as number `index` of the walk over the board.
pub(crate) fn cell_of_index(index: usize) -> (cell: BoardPosition)
    requires
        index < CELL_COUNT,
    ensures
        cell == nth_cell(index as int),
        cell == scan_cells()[index as int],
        cell.on_board(),
        cell.scan_index() == index,
{
    BoardPosition { x: (index % 8) as i32, y: (index / 8) as i32 }
}

/// The place of a cell of the board in the walk over the board.
pub(crate) fn index_of_cell(cell: BoardPosition) -> (index: usize)
    requires
        cell.on_board(),
    ensures
        index == cell.scan_index(),
        index < CELL_COUNT,
        nth_cell(index as int) == cell,
{
    (cell.y * BOARD_SIZE + cell.x) as usize
}

/// The walk over the board reaches every cell of the board, each once, and
/// nothing else.
pub proof fn lemma_scan_reaches_each_cell_once()
    ensures
        scan_cells().len() == CELL_COUNT,
        scan_cells().no_duplicates(),
        forall|cell: BoardPosition| #[trigger] scan_cells().contains(cell) <==> cell.on_board(),
        forall|cell: BoardPosition|
            cell.on_board() ==> 0 <= #[trigger] cell.scan_index() < CELL_COUNT
                && scan_cells()[cell.scan_index()] == cell,
{
    assert forall|cell: BoardPosition| cell.on_board() implies scan_cells().contains(cell) by {
        assert(scan_cells()[cell.scan_index()] == cell);
    }
}

/// Inverts a row. The one row that cannot be inverted in 32 bits is left
/// to the caller.
pub fn vertical_flip(row: i32) -> (flipped: i32)
    requires
        flipped_row(row as int) <= i32::MAX,
    ensures
        flipped == flipped_row(row as int),
{
    BOARD_SIZE - 1 - row
}

/// The cell under a pixel: each axis divided by the size of a square and
/// rounded toward zero, the row then inverted where the board is flipped.
/// Nothing holds the result to the board. The size of a square may be any
/// number but zero; column and row must fit in 32 bits.
pub fn screen_to_cell(px: i32, py: i32, square_size: i32, orientation: Orientation) -> (cell:
    BoardPosition)
    requires
        square_size != 0,
        quotient_toward_zero(px as int, square_size as int) <= i32::MAX,
        quotient_toward_zero(py as int, square_size as int) <= i32::MAX,
        cell_under_pixel(px as int, py as int, square_size as int, orientation).1 <= i32::MAX,
    ensures
        (cell.x as int, cell.y as int) == cell_under_pixel(
            px as int,
            py as int,
            square_size as int,
            orientation,
        ),
{
    proof {
        lemma_quotient_is_no_longer(px as int, square_size as int);
        lemma_quotient_is_no_longer(py as int, square_size as int);
    }
    let column: i32 = px / square_size;
    let row: i32 = py / square_size;
    match orientation {
        Orientation::Normal => BoardPosition { x: column, y: row },
        Orientation::Flipped => BoardPosition { x: column, y: vertical_flip(row) },
    }
}

/// The pixel at which a cell is drawn: its top left corner.
pub fn cell_to_screen(cell: BoardPosition, square_size: i32, orientation: Orientation) -> (point:
    ScreenPoint)
    requires
        i32::MIN <= corner_of_cell(cell.x as int, cell.y as int, square_size as int, orientation).0
            <= i32::MAX,
        i32::MIN <= corner_of_cell(cell.x as int, cell.y as int, square_size as int, orientation).1
            <= i32::MAX,
        oriented_row(cell.y as int, orientation) <= i32::MAX,
    ensures
        (point.x as int, point.y as int) == corner_of_cell(
            cell.x as int,
            cell.y as int,
            square_size as int,
            orientation,
        ),
{
    let row: i32 = match orientation {
        Orientation::Normal => cell.y,
        Orientation::Flipped => vertical_flip(cell.y),
    };
    ScreenPoint { x: cell.x * square_size, y: row * square_size }
}

/// A quotient rounded toward zero is no further from zero than what was
/// divided.
pub proof fn lemma_quotient_is_no_longer(a: int, b: int)
    requires
        b != 0,
    ensures
        a >= 0 ==> -a <= quotient_toward_zero(a, b) <= a,
        a <= 0 ==> a <= quotient_toward_zero(a, b) <= -a,
{
    let n = if a >= 0 {
        a
    } else {
        -a
    };
    let q = n / b;
    assert(-n <= q <= n) by (nonlinear_arith)
        requires
            n >= 0,
            b != 0,
            q == n / b,
    ;
}

/// Inverting a row twice gives the row back.
pub proof fn lemma_flip_is_involution(row: int)
    ensures
        flipped_row(flipped_row(row)) == row,
        cell_on_board(0, row) <==> cell_on_board(0, flipped_row(row)),
{
}

/// Toggling the orientation twice gives the orientation back, and once
/// never does.
pub proof fn lemma_toggle_is_involution(orientation: Orientation)
    ensures
        orientation.other().other() == orientation,
        orientation.other() != orientation,
{
}

/// A cell of the board, drawn and then looked up under the pixel where it
/// was drawn, is found again, under either orientation and whatever the
/// size of a square.
pub proof fn lemma_cell_round_trip(x: int, y: int, square_size: int, orientation: Orientation)
    requires
        cell_on_board(x, y),
        square_size != 0,
    ensures
        ({
            let corner = corner_of_cell(x, y, square_size, orientation);
            cell_under_pixel(corner.0, corner.1, square_size, orientation) == (x, y)
        }),
{
    let r = oriented_row(y, orientation);
    lemma_product_divides_back(x, square_size);
    lemma_product_divides_back(r, square_size);
}

/// A product of a number that is not negative, divided by the other factor
/// and rounded toward zero, gives the number back.
proof fn lemma_product_divides_back(n: int, b: int)
    requires
        n >= 0,
        b != 0,
    ensures
        quotient_toward_zero(n * b, b) == n,
{
    if b > 0 {
        assert(n * b >= 0 && (n * b) / b == n) by (nonlinear_arith)
            requires
                n >= 0,
                b > 0,
        ;
    } else {
        assert(n * b <= 0 && -(n * b) == n * (-b)) by (nonlinear_arith)
            requires
                n >= 0,
                b < 0,
        ;
        if n == 0 {
            assert(n * b == 0);
            assert(0int / b == 0) by (nonlinear_arith)
                requires
                    b != 0,
            ;
        } else {
            assert(n * b < 0) by (nonlinear_arith)
                requires
                    n > 0,
                    b < 0,
            ;
            assert((n * (-b)) / b == -n) by (nonlinear_arith)
                requires
                    b < 0,
            ;
        }
    }
}

/// A pixel of the window at or right of and below its corner, looked up and
/// drawn again, lands on the corner of its own square: each coordinate is
/// rounded down to the grid.
pub proof fn lemma_pixel_snaps_to_grid(px: int, py: int, square_size: int, orientation: Orientation)
    requires
        px >= 0,
        py >= 0,
        square_size > 0,
    ensures
        ({
            let cell = cell_under_pixel(px, py, square_size, orientation);
            corner_of_cell(cell.0, cell.1, square_size, orientation) == (
                px - px % square_size,
                py - py % square_size,
            )
        }),
{
    assert((px / square_size) * square_size == px - px % square_size) by (nonlinear_arith)
        requires
            square_size > 0,
    ;
    assert((py / square_size) * square_size == py - py % square_size) by (nonlinear_arith)
        requires
            square_size > 0,
    ;
}

} // verus!
