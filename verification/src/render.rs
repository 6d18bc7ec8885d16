//! What is to be drawn for one frame, as plain values: where each piece
//! goes, which square is marked as selected, which squares are marked as
//! reachable, and whether the game is over. Drawing itself is left to the
//! program around the library.

use vstd::prelude::*;
use crate::controller::InteractionController;
use crate::geometry::{
    cell_of_index, cell_to_screen, corner_of_cell, scan_cells, BoardPosition, Orientation,
    ScreenPoint, CELL_COUNT, SQUARE_SIZE,
};
use crate::pieces::Piece;
use crate::selection::SelectionState;
use crate::snapshot::BoardView;

verus! {

/// A piece and the pixel at which it is drawn.
#[derive(Clone, Copy, Debug, PartialEq, Eq, Structural)]
pub struct Sprite {
    pub piece: Piece,
    pub at: ScreenPoint,
}

/// All that one frame shows.
pub struct Frame {
    /// The pieces, in the order of the walk over the board.
    pub pieces: Vec<Sprite>,
    /// The corner of the selected square, if a cell is selected.
    pub selected: Option<ScreenPoint>,
    /// The corners of the squares that the selected piece may go to, in the
    /// order of the walk over the board.
    pub targets: Vec<ScreenPoint>,
    /// Whether the end of the game is to be announced.
    pub game_over: bool,
}

/// The pixel at which a cell is drawn in a window whose squares have the
/// standard size.
pub open spec fn window_position(at: BoardPosition, orientation: Orientation) -> ScreenPoint {
    ScreenPoint {
        x: corner_of_cell(at.x as int, at.y as int, SQUARE_SIZE as int, orientation).0 as i32,
        y: corner_of_cell(at.x as int, at.y as int, SQUARE_SIZE as int, orientation).1 as i32,
    }
}

/// What is drawn for a cell: the piece on it at the cell's corner, or
/// nothing for an empty cell.
pub open spec fn sprite_on(
    board: &BoardView,
    orientation: Orientation,
    at: BoardPosition,
) -> Option<Sprite> {
    match board.piece_at(at) {
        Some(piece) => Some(Sprite { piece, at: window_position(at, orientation) }),
        None => None,
    }
}

/// The pieces of a position with their places in the window, in the order
/// of the walk over the board.
pub open spec fn sprites_of(board: &BoardView, orientation: Orientation) -> Seq<Sprite> {
    scan_cells().filter_map(|at: BoardPosition| sprite_on(board, orientation, at))
}

/// The mark for a cell: its corner if the cell is among `targets`.
pub open spec fn marker_on(
    targets: Seq<BoardPosition>,
    orientation: Orientation,
    at: BoardPosition,
) -> Option<ScreenPoint> {
    if targets.contains(at) {
        Some(window_position(at, orientation))
    } else {
        None
    }
}

/// The corners of the cells of the board that are among `targets`, in the
/// order of the walk over the board, each once.
pub open spec fn markers_of(targets: Seq<BoardPosition>, orientation: Orientation) -> Seq<
    ScreenPoint,
> {
    scan_cells().filter_map(|at: BoardPosition| marker_on(targets, orientation, at))
}

/// The mark of the selection: the corner of the selected square.
pub open spec fn selection_marker(selection: SelectionState, orientation: Orientation) -> Option<
    ScreenPoint,
> {
    match selection {
        SelectionState::Idle => None,
        SelectionState::Selected(origin) => Some(window_position(origin, orientation)),
    }
}

/// The marks of the reachable squares: those of the selected cell's
/// legal-move set, or none where nothing is selected.
pub open spec fn target_markers(
    board: &BoardView,
    selection: SelectionState,
    orientation: Orientation,
) -> Seq<ScreenPoint> {
    match selection {
        SelectionState::Idle => Seq::empty(),
        SelectionState::Selected(origin) => markers_of(board.targets_at(origin), orientation),
    }
}

/// The pixel at which a cell of the board is drawn when squares have the
/// standard size.
pub fn board_to_window_position(at: BoardPosition, orientation: Orientation) -> (point: ScreenPoint)
    requires
        i32::MIN <= corner_of_cell(at.x as int, at.y as int, SQUARE_SIZE as int, orientation).0
            <= i32::MAX,
        i32::MIN <= corner_of_cell(at.x as int, at.y as int, SQUARE_SIZE as int, orientation).1
            <= i32::MAX,
    ensures
        point == window_position(at, orientation),
{
    cell_to_screen(at, SQUARE_SIZE, orientation)
}

/// Where each piece of the position is drawn: one sprite for every
/// occupied cell, in the order of the walk over the board.
pub fn piece_sprites(board: &BoardView, orientation: Orientation) -> (sprites: Vec<Sprite>)
    ensures
        sprites@ == sprites_of(board, orientation),
{
    let ghost draw = |at: BoardPosition| sprite_on(board, orientation, at);
    let mut sprites: Vec<Sprite> = Vec::new();
    let mut index: usize = 0;
    while index < CELL_COUNT
        invariant
            index <= CELL_COUNT,
            scan_cells().len() == CELL_COUNT,
            draw == |at: BoardPosition| sprite_on(board, orientation, at),
            sprites@ == scan_cells().take(index as int).filter_map(draw),
        decreases CELL_COUNT - index,
    {
        let at = cell_of_index(index);
        proof {
            scan_cells().lemma_filter_map_take_succ(draw, index as int);
        }
        match board.get_piece(at) {
            Some(piece) => {
                sprites.push(Sprite { piece, at: board_to_window_position(at, orientation) });
            },
            None => {},
        }
        index += 1;
    }
    proof {
        scan_cells().lemma_take_len();
    }
    sprites
}

/// Where the squares reachable from `origin` are marked: one mark for
/// every cell of the board that the snapshot lists for `origin`, in the
/// order of the walk over the board.
pub fn move_markers(board: &BoardView, origin: BoardPosition, orientation: Orientation) -> (markers:
    Vec<ScreenPoint>)
    ensures
        markers@ == markers_of(board.targets_at(origin), orientation),
{
    let ghost mark = |at: BoardPosition| marker_on(board.targets_at(origin), orientation, at);
    let mut markers: Vec<ScreenPoint> = Vec::new();
    let mut index: usize = 0;
    while index < CELL_COUNT
        invariant
            index <= CELL_COUNT,
            scan_cells().len() == CELL_COUNT,
            mark == |at: BoardPosition| marker_on(board.targets_at(origin), orientation, at),
            markers@ == scan_cells().take(index as int).filter_map(mark),
        decreases CELL_COUNT - index,
    {
        let at = cell_of_index(index);
        proof {
            scan_cells().lemma_filter_map_take_succ(mark, index as int);
        }
        if board.reaches(origin, at) {
            markers.push(board_to_window_position(at, orientation));
        }
        index += 1;
    }
    proof {
        scan_cells().lemma_take_len();
    }
    markers
}

/// Puts together what one frame shows of a game: every piece at its place,
/// the mark of the selection, the marks of the squares that the selected
/// piece may go to, and whether the game is over, all read from the one
/// snapshot that the controller holds.
pub fn compose_frame(controller: &InteractionController) -> (frame: Frame)
    ensures
        frame.pieces@ == sprites_of(&controller.board(), controller.orientation()),
        frame.selected == selection_marker(controller.selection(), controller.orientation()),
        frame.targets@ == target_markers(
            &controller.board(),
            controller.selection(),
            controller.orientation(),
        ),
        controller.selection() matches SelectionState::Selected(origin) ==> frame.targets@
            == markers_of(controller.engine().legal_targets(origin), controller.orientation()),
        frame.game_over == controller.is_over(),
{
    let board = controller.snapshot();
    let orientation = controller.current_orientation();
    let pieces = piece_sprites(board, orientation);
    let (selected, targets) = match controller.selection_state() {
        SelectionState::Idle => (None, Vec::new()),
        SelectionState::Selected(origin) => (
            Some(board_to_window_position(origin, orientation)),
            move_markers(board, origin, orientation),
        ),
    };
    Frame { pieces, selected, targets, game_over: controller.is_terminal() }
}

} // verus!
