//! The interaction controller: one click at a time it checks that the game
//! still runs, finds the clicked cell, lets the selection state machine
//! decide, and hands an attempted move to the rules engine.

use vstd::prelude::*;
use crate::engine::initial_piece;
use crate::geometry::{
    cell_under_pixel, screen_to_cell, BoardPosition, Orientation, SQUARE_SIZE,
};
use crate::oracle::{checkmate, engine_has_no_move, lemma_flag_follows_engine};
use crate::pieces::{holds_piece_of, Color, Piece};
use crate::rules::RulesEngine;
use crate::selection::{
    asks_for_move, cycle_result, handle_click, resolve_attempt, ClickAction, SelectionState,
};
use crate::snapshot::BoardView;

verus! {

/// The cell under a pixel of the window when the board is shown in the
/// given orientation.
pub open spec fn clicked_cell(px: i32, py: i32, orientation: Orientation) -> BoardPosition {
    let cell = cell_under_pixel(px as int, py as int, SQUARE_SIZE as int, orientation);
    BoardPosition { x: cell.0 as i32, y: cell.1 as i32 }
}

/// The state of one game on the screen: the engine with its position, a
/// snapshot of that position, the selection and the orientation.
pub struct InteractionController {
    engine: RulesEngine,
    board: BoardView,
    selection: SelectionState,
    orientation: Orientation,
}

impl InteractionController {
    #[verifier::type_invariant]
    spec fn consistent(&self) -> bool {
        &&& self.board.reflects(self.engine)
        &&& self.board.only_mover_has_targets()
        &&& self.selection matches SelectionState::Selected(origin) ==> origin.on_board()
            && holds_piece_of(self.engine.piece_at(origin), self.engine.to_move())
    }

    /// The rules engine with the position that the game has reached.
    pub closed spec fn engine(&self) -> RulesEngine {
        self.engine
    }

    /// What is selected.
    pub closed spec fn selection(&self) -> SelectionState {
        self.selection
    }

    /// Which way round the board is shown.
    pub closed spec fn orientation(&self) -> Orientation {
        self.orientation
    }

    /// The snapshot from which the controller reads the position.
    pub closed spec fn board(&self) -> BoardView {
        self.board
    }

    /// Whether the game is over: no occupied cell of the board has a
    /// non-empty legal-move set.
    pub open spec fn is_over(&self) -> bool {
        engine_has_no_move(self.engine())
    }

    /// The cell under a pixel of the window as the board is shown now.
    pub open spec fn cell_at(&self, px: i32, py: i32) -> BoardPosition {
        clicked_cell(px, py, self.orientation())
    }

    /// Whether a click on the pixel gets through the two guards: the game
    /// is not over and the pixel lies on the board.
    pub open spec fn accepts_input(&self, px: i32, py: i32) -> bool {
        !self.is_over() && self.cell_at(px, py).on_board()
    }

    /// Whether a click on the pixel attempts a move: it gets through the
    /// guards and a cell other than the clicked one is selected.
    pub open spec fn attempts_move(&self, px: i32, py: i32) -> bool {
        self.accepts_input(px, py) && asks_for_move(self.selection(), self.cell_at(px, py))
    }

    /// Whether a click on the pixel makes a move: it attempts one, and the
    /// engine has a legal move from the selected cell to the clicked one.
    pub open spec fn makes_move(&self, px: i32, py: i32) -> bool {
        self.attempts_move(px, py) && self.engine().can_move(
            self.selection()->0,
            self.cell_at(px, py),
        )
    }

    /// A controller at the start of a game: the pieces in their first
    /// places, White to move, nothing selected, the board not flipped.
    pub fn new() -> (controller: InteractionController)
        ensures
            controller.selection() == SelectionState::Idle,
            controller.orientation() == Orientation::Normal,
            controller.engine().to_move() == Color::White,
            forall|at: BoardPosition| #[trigger]
                controller.engine().piece_at(at) == initial_piece(at),
    {
        let engine = RulesEngine::new();
        let board = BoardView::capture(&engine);
        InteractionController {
            engine,
            board,
            selection: SelectionState::Idle,
            orientation: Orientation::Normal,
        }
    }

    /// Handles one click on the pixel `(px, py)` of the window and says
    /// whether it made a move.
    ///
    /// Once the game is over, and for a pixel beside the board, nothing
    /// changes. Otherwise the selection state machine decides on the
    /// clicked cell; where it asks for a move, the engine is asked to make
    /// it. An accepted move clears the selection, turns the board round and
    /// passes the turn; a rejected one leaves everything as it was.
    pub fn handle_input(&mut self, px: i32, py: i32) -> (moved: bool)
        ensures
            moved == old(self).makes_move(px, py),
            // Behind either guard, and after a rejected move, nothing changes.
            !old(self).accepts_input(px, py) ==> *final(self) == *old(self),
            old(self).attempts_move(px, py) && !moved ==> *final(self) == *old(self),
            // Selection and orientation go by the selection state machine.
            old(self).accepts_input(px, py) ==> (final(self).selection(), final(self).orientation())
                == cycle_result(
                old(self).selection(),
                old(self).orientation(),
                old(self).cell_at(px, py),
                old(self).engine().to_move(),
                old(self).engine().piece_at(old(self).cell_at(px, py)),
                moved,
            ),
            // The board turns round with every move and with nothing else.
            final(self).orientation() == if moved {
                old(self).orientation().other()
            } else {
                old(self).orientation()
            },
            // The position changes with a move and with nothing else.
            !moved ==> final(self).engine() == old(self).engine(),
            !moved ==> final(self).board() == old(self).board(),
            moved ==> final(self).engine().to_move() == old(self).engine().to_move().other(),
            moved ==> final(self).engine().piece_at(old(self).selection()->0) is None,
            moved ==> holds_piece_of(
                final(self).engine().piece_at(old(self).cell_at(px, py)),
                old(self).engine().to_move(),
            ),
    {
        proof {
            use_type_invariant(&*self);
            lemma_flag_follows_engine(&self.board, self.engine);
        }
        if checkmate(&self.board) {
            return false;
        }
        let clicked = screen_to_cell(px, py, SQUARE_SIZE, self.orientation);
        if !clicked.in_bounds() {
            return false;
        }
        let occupant = self.board.get_piece(clicked);
        let mover = self.board.player_to_move();
        let (next, action) = handle_click(self.selection, clicked, mover, occupant);
        match action {
            ClickAction::Nothing => {
                self.selection = next;
                false
            },
            ClickAction::AttemptMove { from, to } => {
                let mut engine = self.engine;
                let accepted = engine.try_make_move(from, to);
                let (selection, orientation) = resolve_attempt(from, self.orientation, accepted);
                if accepted {
                    let board = BoardView::capture(&engine);
                    *self = InteractionController { engine, board, selection, orientation };
                }
                accepted
            },
        }
    }

    /// What is selected.
    pub fn selection_state(&self) -> (state: SelectionState)
        ensures
            state == self.selection(),
            state matches SelectionState::Selected(origin) ==> origin.on_board() && holds_piece_of(
                self.engine().piece_at(origin),
                self.engine().to_move(),
            ),
    {
        proof {
            use_type_invariant(self);
        }
        self.selection
    }

    /// Which way round the board is shown.
    pub fn current_orientation(&self) -> (orientation: Orientation)
        ensures
            orientation == self.orientation(),
    {
        self.orientation
    }

    /// The snapshot of the position: what stands where and may go where.
    pub fn snapshot(&self) -> (board: &BoardView)
        ensures
            *board == self.board(),
            board.reflects(self.engine()),
            board.only_mover_has_targets(),
    {
        proof {
            use_type_invariant(self);
        }
        &self.board
    }

    /// The rules engine with the position that the game has reached.
    pub fn rules(&self) -> (engine: &RulesEngine)
        ensures
            *engine == self.engine(),
    {
        &self.engine
    }

    /// The legal-move set of the selected piece, asked of the engine anew
    /// on every call; empty where nothing is selected.
    pub fn selected_moves(&self) -> (targets: Vec<BoardPosition>)
        ensures
            targets@ == match self.selection() {
                SelectionState::Idle => Seq::<BoardPosition>::empty(),
                SelectionState::Selected(origin) => self.engine().legal_targets(origin),
            },
            targets@.no_duplicates(),
    {
        match self.selection {
            SelectionState::Idle => Vec::new(),
            SelectionState::Selected(origin) => self.engine.get_legal_moves(origin),
        }
    }

    /// The piece on a cell, if there is one.
    pub fn piece_at(&self, at: BoardPosition) -> (piece: Option<Piece>)
        ensures
            piece == self.engine().piece_at(at),
    {
        proof {
            use_type_invariant(self);
        }
        self.board.get_piece(at)
    }

    /// Whether the game is over: true exactly if the engine's legal-move
    /// set is empty for every occupied cell of the board, whichever player
    /// owns the piece on it.
    pub fn is_terminal(&self) -> (terminal: bool)
        ensures
            terminal == self.is_over(),
    {
        proof {
            use_type_invariant(self);
            lemma_flag_follows_engine(&self.board, self.engine);
        }
        checkmate(&self.board)
    }
}

} // verus!
