//! A snapshot of the board: for every cell the piece on it and the cells
//! that the piece may go to, and the player to move. All that the controller
//! decides and all that is drawn for one frame is read from one snapshot.

use vstd::prelude::*;
use crate::geometry::{cell_of_index, index_of_cell, nth_cell, BoardPosition, CELL_COUNT};
use crate::pieces::{holds_piece_of, Color, Piece};
use crate::rules::RulesEngine;

verus! {

/// What a snapshot holds of one cell.
struct CellView {
    piece: Option<Piece>,
    targets: Vec<BoardPosition>,
}

/// What stands on each cell of the board and where it may go.
pub struct BoardView {
    cells: Vec<CellView>,
    to_move: Color,
}

impl BoardView {
    #[verifier::type_invariant]
    spec fn has_every_cell(&self) -> bool {
        self.cells@.len() == CELL_COUNT
    }

    /// The piece on a cell, if there is one. Beside the board there is none.
    pub closed spec fn piece_at(&self, at: BoardPosition) -> Option<Piece> {
        if at.on_board() {
            self.cells@[at.scan_index()].piece
        } else {
            None
        }
    }

    /// The cells that the snapshot lists as reachable from a cell, in the
    /// order in which it lists them. Beside the board there are none.
    pub closed spec fn targets_at(&self, at: BoardPosition) -> Seq<BoardPosition> {
        if at.on_board() {
            self.cells@[at.scan_index()].targets@
        } else {
            Seq::empty()
        }
    }

    /// The player whose turn it is.
    pub closed spec fn to_move(&self) -> Color {
        self.to_move
    }

    /// Whether the snapshot shows the engine's position: the same player to
    /// move, on every cell the same piece, and for every piece the
    /// legal-move set that the engine gives for its cell. For an empty cell
    /// the engine is not asked and the snapshot lists nothing.
    pub open spec fn reflects(&self, engine: RulesEngine) -> bool {
        &&& self.to_move() == engine.to_move()
        &&& forall|at: BoardPosition| #[trigger]
            self.piece_at(at) == engine.piece_at(at)
        &&& forall|at: BoardPosition| #[trigger]
            self.targets_at(at) == if at.on_board() && engine.piece_at(at) is Some {
                engine.legal_targets(at)
            } else {
                Seq::empty()
            }
    }

    /// Whether the snapshot lists cells to go to for pieces of the player to
    /// move alone.
    pub open spec fn only_mover_has_targets(&self) -> bool {
        forall|at: BoardPosition|
            (#[trigger] self.targets_at(at)).len() > 0 ==> holds_piece_of(
                self.piece_at(at),
                self.to_move(),
            )
    }

    /// A snapshot of a board without pieces.
    pub fn empty(to_move: Color) -> (view: BoardView)
        ensures
            view.to_move() == to_move,
            forall|at: BoardPosition| #[trigger] view.piece_at(at) is None,
            forall|at: BoardPosition| (#[trigger] view.targets_at(at)).len() == 0,
    {
        let mut cells: Vec<CellView> = Vec::new();
        let mut index: usize = 0;
        while index < CELL_COUNT
            invariant
                index <= CELL_COUNT,
                cells@.len() == index,
                forall|i: int|
                    0 <= i < index ==> (#[trigger] cells@[i]).piece is None && cells@[i].targets@
                        == Seq::<BoardPosition>::empty(),
            decreases CELL_COUNT - index,
        {
            cells.push(CellView { piece: None, targets: Vec::new() });
            index += 1;
        }
        BoardView { cells, to_move }
    }

    /// The snapshot with a piece put on a cell of the board, with the cells
    /// it may go to, in place of what the snapshot held for that cell. The
    /// other cells stay as they are. Beside the board nothing can stand:
    /// for such a cell the snapshot is handed back as it is.
    pub fn with_piece(self, at: BoardPosition, piece: Piece, targets: Vec<BoardPosition>) -> (view:
        BoardView)
        ensures
            !at.on_board() ==> view == self,
            view.to_move() == self.to_move(),
            at.on_board() ==> view.piece_at(at) == Some(piece),
            at.on_board() ==> view.targets_at(at) == targets@,
            forall|other: BoardPosition|
                other != at ==> #[trigger] view.piece_at(other) == self.piece_at(other),
            forall|other: BoardPosition|
                other != at ==> #[trigger] view.targets_at(other) == self.targets_at(other),
    {
        proof {
            use_type_invariant(&self);
        }
        if !at.in_bounds() {
            return self;
        }
        let index = index_of_cell(at);
        let BoardView { mut cells, to_move } = self;
        cells.set(index, CellView { piece: Some(piece), targets });
        BoardView { cells, to_move }
    }

    /// Takes a snapshot of the engine's position. Every cell is looked up;
    /// for every occupied cell the engine is asked for the legal-move set.
    pub fn capture(engine: &RulesEngine) -> (view: BoardView)
        ensures
            view.reflects(*engine),
            view.only_mover_has_targets(),
    {
        let mut cells: Vec<CellView> = Vec::new();
        let mut index: usize = 0;
        while index < CELL_COUNT
            invariant
                index <= CELL_COUNT,
                cells@.len() == index,
                forall|i: int|
                    0 <= i < index ==> (#[trigger] cells@[i]).piece == engine.piece_at(nth_cell(i))
                        && cells@[i].targets@ == if engine.piece_at(nth_cell(i)) is Some {
                        engine.legal_targets(nth_cell(i))
                    } else {
                        Seq::empty()
                    },
                forall|i: int|
                    0 <= i < index && (#[trigger] cells@[i]).targets@.len() > 0 ==> holds_piece_of(
                        engine.piece_at(nth_cell(i)),
                        engine.to_move(),
                    ),
            decreases CELL_COUNT - index,
        {
            let at = cell_of_index(index);
            let piece = engine.get_piece(at);
            let targets = if piece.is_some() {
                engine.get_legal_moves(at)
            } else {
                Vec::new()
            };
            cells.push(CellView { piece, targets });
            index += 1;
        }
        let view = BoardView { cells, to_move: engine.player_to_move() };
        proof {
            assert forall|at: BoardPosition| #[trigger]
                view.piece_at(at) == engine.piece_at(at) by {
                if at.on_board() {
                    assert(nth_cell(at.scan_index()) == at);
                }
            }
            assert forall|at: BoardPosition| #[trigger]
                view.targets_at(at) == if at.on_board() && engine.piece_at(at) is Some {
                    engine.legal_targets(at)
                } else {
                    Seq::empty()
                } by {
                if at.on_board() {
                    assert(nth_cell(at.scan_index()) == at);
                }
            }
        }
        view
    }

    /// The piece on a cell, or none where the cell is empty or lies beside
    /// the board.
    pub fn get_piece(&self, at: BoardPosition) -> (piece: Option<Piece>)
        ensures
            piece == self.piece_at(at),
    {
        proof {
            use_type_invariant(self);
        }
        if at.in_bounds() {
            self.cells[index_of_cell(at)].piece
        } else {
            None
        }
    }

    /// The player whose turn it is.
    pub fn player_to_move(&self) -> (color: Color)
        ensures
            color == self.to_move(),
    {
        self.to_move
    }

    /// How many cells the snapshot lists as reachable from a cell.
    pub fn move_count(&self, from: BoardPosition) -> (count: usize)
        ensures
            count == self.targets_at(from).len(),
    {
        proof {
            use_type_invariant(self);
        }
        if from.in_bounds() {
            self.cells[index_of_cell(from)].targets.len()
        } else {
            0
        }
    }

    /// Whether the snapshot lists `to` as reachable from `from`.
    pub fn reaches(&self, from: BoardPosition, to: BoardPosition) -> (listed: bool)
        ensures
            listed == self.targets_at(from).contains(to),
    {
        proof {
            use_type_invariant(self);
        }
        if !from.in_bounds() {
            return false;
        }
        let targets = &self.cells[index_of_cell(from)].targets;
        let mut index: usize = 0;
        while index < targets.len()
            invariant
                index <= targets@.len(),
                targets@ == self.targets_at(from),
                forall|i: int| 0 <= i < index ==> targets@[i] != to,
            decreases targets@.len() - index,
        {
            if targets[index] == to {
                return true;
            }
            index += 1;
        }
        false
    }
}

} // verus!
