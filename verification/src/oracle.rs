//! The end of the game, found by looking at every cell: the engine offers no
//! such test, so the board is walked and each piece asked for its moves.
//!
//! The walk asks the pieces of both players, not only those of the player to
//! move. The flag it computes is therefore coarser than checkmate or
//! stalemate: as long as either player has a move it reports that the game
//! goes on. This is the flag the controller goes by. It is kept on purpose,
//! though it may be doubted. The stricter test, which asks the pieces of the
//! player to move alone, stands beside it; on a snapshot of the engine's
//! position, where only the player to move has moves, the two agree.

use vstd::prelude::*;
use crate::geometry::{cell_of_index, scan_cells, BoardPosition, CELL_COUNT};
use crate::pieces::holds_piece_of;
use crate::rules::RulesEngine;
use crate::snapshot::BoardView;

verus! {

/// Whether no piece on the board, of either player, has a cell to go to.
pub open spec fn no_piece_can_move(board: &BoardView) -> bool {
    forall|at: BoardPosition|
        at.on_board() && board.piece_at(at) is Some ==> (#[trigger] board.targets_at(at)).len() == 0
}

/// Whether no piece of the player to move has a cell to go to.
pub open spec fn mover_cannot_move(board: &BoardView) -> bool {
    forall|at: BoardPosition|
        at.on_board() && holds_piece_of(board.piece_at(at), board.to_move()) ==> (
        #[trigger] board.targets_at(at)).len() == 0
}

/// Whether the engine gives an empty legal-move set for every occupied cell
/// of its position.
pub open spec fn engine_has_no_move(engine: RulesEngine) -> bool {
    forall|at: BoardPosition|
        at.on_board() && engine.piece_at(at) is Some ==> (#[trigger] engine.legal_targets(at)).len()
            == 0
}

/// Whether the game is over: true exactly if no occupied cell of the board
/// has a cell to go to, whoever owns the piece on it. The walk stops at the
/// first piece that can move.
pub fn checkmate(board: &BoardView) -> (terminal: bool)
    ensures
        terminal == no_piece_can_move(board),
{
    let mut index: usize = 0;
    while index < CELL_COUNT
        invariant
            index <= CELL_COUNT,
            forall|i: int|
                0 <= i < index && board.piece_at(scan_cells()[i]) is Some ==> (
                #[trigger] board.targets_at(scan_cells()[i])).len() == 0,
        decreases CELL_COUNT - index,
    {
        let at = cell_of_index(index);
        if board.get_piece(at).is_some() && board.move_count(at) > 0 {
            return false;
        }
        index += 1;
    }
    proof {
        assert forall|at: BoardPosition| at.on_board() && board.piece_at(at) is Some implies (
        #[trigger] board.targets_at(at)).len() == 0 by {
            assert(scan_cells()[at.scan_index()] == at);
        }
    }
    true
}

/// The stricter test: true exactly if no piece of the player to move has a
/// cell to go to. The walk stops at the first such piece that can move.
pub fn checkmate_for_mover(board: &BoardView) -> (terminal: bool)
    ensures
        terminal == mover_cannot_move(board),
{
    let mover = board.player_to_move();
    let mut index: usize = 0;
    while index < CELL_COUNT
        invariant
            index <= CELL_COUNT,
            mover == board.to_move(),
            forall|i: int|
                0 <= i < index && holds_piece_of(board.piece_at(scan_cells()[i]), mover) ==> (
                #[trigger] board.targets_at(scan_cells()[i])).len() == 0,
        decreases CELL_COUNT - index,
    {
        let at = cell_of_index(index);
        let own = match board.get_piece(at) {
            Some(piece) => piece.color() == mover,
            None => false,
        };
        if own && board.move_count(at) > 0 {
            return false;
        }
        index += 1;
    }
    proof {
        assert forall|at: BoardPosition|
            at.on_board() && holds_piece_of(board.piece_at(at), board.to_move()) implies (
        #[trigger] board.targets_at(at)).len() == 0 by {
            assert(scan_cells()[at.scan_index()] == at);
        }
    }
    true
}

/// The walk over both players' pieces reports the end of the game only
/// where the stricter test reports it too: it may miss an end, it never
/// invents one.
pub proof fn lemma_walk_is_coarser(board: &BoardView)
    requires
        no_piece_can_move(board),
    ensures
        mover_cannot_move(board),
{
}

/// Where only pieces of the player to move have cells to go to, as on
/// every snapshot of the engine's position, the walk over both players'
/// pieces and the stricter test give the same answer.
pub proof fn lemma_walks_agree(board: &BoardView)
    requires
        board.only_mover_has_targets(),
    ensures
        no_piece_can_move(board) <==> mover_cannot_move(board),
{
}

/// On a snapshot of the engine's position the flag is true exactly if, for
/// every occupied cell of the board, the engine's legal-move set is empty;
/// one piece of either player with a non-empty set makes it false.
pub proof fn lemma_flag_follows_engine(board: &BoardView, engine: RulesEngine)
    requires
        board.reflects(engine),
    ensures
        no_piece_can_move(board) <==> engine_has_no_move(engine),
        forall|at: BoardPosition|
            at.on_board() && engine.piece_at(at) is Some
                && (#[trigger] engine.legal_targets(at)).len() > 0 ==> !no_piece_can_move(board),
{
    if engine_has_no_move(engine) {
        assert forall|at: BoardPosition| at.on_board() && board.piece_at(at) is Some implies (
        #[trigger] board.targets_at(at)).len() == 0 by {
            assert(board.piece_at(at) == engine.piece_at(at));
        }
    }
    if no_piece_can_move(board) {
        assert forall|at: BoardPosition| at.on_board() && engine.piece_at(at) is Some implies (
        #[trigger] engine.legal_targets(at)).len() == 0 by {
            assert(board.piece_at(at) == engine.piece_at(at));
            assert(board.targets_at(at).len() == 0);
        }
    }
}

} // verus!
