//! The rules engine as the controller consumes it: what stands on a cell,
//! whose turn it is, where a piece may go, and an attempt at a move that the
//! engine either applies or turns down.

use vstd::prelude::*;
use crate::engine::{
    color_on, generate_moves, initial_piece, kind_on, legal_moves_of, occupant, play,
    side_to_move, start_position, turn_of, EngineMove,
};
use crate::geometry::{
    cell_of_index, lemma_scan_reaches_each_cell_once, scan_cells, BoardPosition, CELL_COUNT,
};
use crate::pieces::{holds_piece_of, Color, Piece};

verus! {

/// Whether a move takes a piece from `from` to `to`, whatever a pawn turns
/// into on the way.
pub open spec fn joins(m: EngineMove, from: BoardPosition, to: BoardPosition) -> bool {
    m.from == from && m.to == to
}

/// Whether one of `moves` takes a piece from `from` to `to`.
pub open spec fn connects(moves: Seq<EngineMove>, from: BoardPosition, to: BoardPosition) -> bool {
    exists|i: int| 0 <= i < moves.len() && joins(#[trigger] moves[i], from, to)
}

/// The cells of the board that `moves` reach from `from`, in the order of
/// the walk over the board, each once.
pub open spec fn destinations_among(moves: Seq<EngineMove>, from: BoardPosition) -> Seq<
    BoardPosition,
> {
    scan_cells().filter(|to: BoardPosition| connects(moves, from, to))
}

/// A selection from a list without repetitions has none.
proof fn lemma_filter_keeps_distinct<A>(s: Seq<A>, keep: spec_fn(A) -> bool)
    requires
        s.no_duplicates(),
    ensures
        s.filter(keep).no_duplicates(),
    decreases s.len(),
{
    reveal(Seq::filter);
    if s.len() > 0 {
        let rest = s.drop_last();
        lemma_filter_keeps_distinct(rest, keep);
        if keep(s.last()) {
            if rest.filter(keep).contains(s.last()) {
                rest.lemma_filter_contains_rev(keep, s.last());
                let i = choose|i: int| 0 <= i < rest.len() && rest[i] == s.last();
                assert(s[i] == s[s.len() - 1]);
            }
        }
    }
}

/// The destinations from a cell are cells of the board, none twice, and a
/// cell is among them exactly if one of the moves leads there from `from`.
pub proof fn lemma_destinations_are_a_set(moves: Seq<EngineMove>, from: BoardPosition)
    ensures
        destinations_among(moves, from).no_duplicates(),
        forall|to: BoardPosition|
            #[trigger] destinations_among(moves, from).contains(to) <==> to.on_board() && connects(
                moves,
                from,
                to,
            ),
{
    let keep = |to: BoardPosition| connects(moves, from, to);
    let found = scan_cells().filter(keep);
    lemma_scan_reaches_each_cell_once();
    lemma_filter_keeps_distinct(scan_cells(), keep);
    assert forall|to: BoardPosition| #[trigger] found.contains(to) <==> to.on_board() && connects(
        moves,
        from,
        to,
    ) by {
        if found.contains(to) {
            scan_cells().lemma_filter_contains_rev(keep, to);
            let i = choose|i: int| 0 <= i < found.len() && found[i] == to;
            scan_cells().lemma_filter_pred(keep, i);
        }
        if to.on_board() && connects(moves, from, to) {
            scan_cells().lemma_filter_contains(keep, to.scan_index());
        }
    }
}

/// The first of `moves` that leads from `from` to `to`, by its index.
pub fn find_move(moves: &Vec<EngineMove>, from: BoardPosition, to: BoardPosition) -> (found: Option<
    usize,
>)
    ensures
        found is None <==> !connects(moves@, from, to),
        found matches Some(index) ==> index < moves@.len() && joins(moves@[index as int], from, to),
        found matches Some(index) ==> forall|earlier: int|
            0 <= earlier < index ==> !joins(#[trigger] moves@[earlier], from, to),
{
    let mut index: usize = 0;
    while index < moves.len()
        invariant
            index <= moves@.len(),
            forall|earlier: int|
                0 <= earlier < index ==> !joins(#[trigger] moves@[earlier], from, to),
        decreases moves@.len() - index,
    {
        let m = moves[index];
        if m.from.x == from.x && m.from.y == from.y && m.to.x == to.x && m.to.y == to.y {
            return Some(index);
        }
        index += 1;
    }
    None
}

/// The cells that `moves` reach from `from`: the legal-move set of the
/// piece on `from`, listed in the order of the walk over the board.
pub fn destinations(moves: &Vec<EngineMove>, from: BoardPosition) -> (targets: Vec<BoardPosition>)
    ensures
        targets@ == destinations_among(moves@, from),
        targets@.no_duplicates(),
        forall|to: BoardPosition|
            #[trigger] targets@.contains(to) <==> to.on_board() && connects(moves@, from, to),
{
    let ghost keep = |to: BoardPosition| connects(moves@, from, to);
    let mut targets: Vec<BoardPosition> = Vec::new();
    let mut index: usize = 0;
    while index < CELL_COUNT
        invariant
            index <= CELL_COUNT,
            scan_cells().len() == CELL_COUNT,
            keep == |to: BoardPosition| connects(moves@, from, to),
            targets@ == scan_cells().take(index as int).filter(keep),
        decreases CELL_COUNT - index,
    {
        let to = cell_of_index(index);
        let found = find_move(moves, from, to);
        proof {
            scan_cells().lemma_take_succ_push(index as int);
            scan_cells().take(index as int).lemma_filter_push(to, keep);
        }
        if found.is_some() {
            targets.push(to);
        }
        index += 1;
    }
    proof {
        scan_cells().lemma_take_len();
        lemma_destinations_are_a_set(moves@, from);
    }
    targets
}

/// The rules engine with the position that the game has reached.
#[derive(Clone, Copy)]
pub struct RulesEngine {
    board: chess::Board,
}

impl RulesEngine {
    /// The engine's position.
    pub closed spec fn position(self) -> chess::Board {
        self.board
    }

    /// The piece on a cell, if there is one. Beside the board there is none.
    pub open spec fn piece_at(self, at: BoardPosition) -> Option<Piece> {
        occupant(self.position(), at)
    }

    /// The player whose turn it is.
    pub open spec fn to_move(self) -> Color {
        turn_of(self.position())
    }

    /// Every legal move of the position, as the engine generates them.
    pub open spec fn moves(self) -> Seq<EngineMove> {
        legal_moves_of(self.position())
    }

    /// Whether the engine has a legal move from `from` to `to`.
    pub open spec fn can_move(self, from: BoardPosition, to: BoardPosition) -> bool {
        connects(self.moves(), from, to)
    }

    /// The legal-move set of the piece on `from`, in the order of the walk
    /// over the board.
    pub open spec fn legal_targets(self, from: BoardPosition) -> Seq<BoardPosition> {
        destinations_among(self.moves(), from)
    }

    /// An engine at the start of a game: the pieces stand in their first
    /// places and White is to move.
    pub fn new() -> (engine: RulesEngine)
        ensures
            engine.to_move() == Color::White,
            forall|at: BoardPosition| #[trigger] engine.piece_at(at) == initial_piece(at),
    {
        RulesEngine { board: start_position() }
    }

    /// The piece on a cell, or none where the cell is empty or lies beside
    /// the board.
    pub fn get_piece(&self, at: BoardPosition) -> (piece: Option<Piece>)
        ensures
            piece == self.piece_at(at),
    {
        if !at.in_bounds() {
            return None;
        }
        match (color_on(&self.board, at), kind_on(&self.board, at)) {
            (Some(color), Some(kind)) => Some(Piece { color, kind }),
            _ => None,
        }
    }

    /// The player whose turn it is.
    pub fn player_to_move(&self) -> (color: Color)
        ensures
            color == self.to_move(),
    {
        side_to_move(&self.board)
    }

    /// The cells to which the piece on `from` may legally go: no cell
    /// twice, and none at all where `from` is empty, holds a piece that has
    /// no move, or lies beside the board.
    pub fn get_legal_moves(&self, from: BoardPosition) -> (targets: Vec<BoardPosition>)
        ensures
            targets@ == self.legal_targets(from),
            targets@.no_duplicates(),
            forall|to: BoardPosition| #[trigger] targets@.contains(to) <==> self.can_move(from, to),
            forall|i: int| 0 <= i < targets@.len() ==> (#[trigger] targets@[i]).on_board(),
            !holds_piece_of(self.piece_at(from), self.to_move()) ==> targets@.len() == 0,
    {
        let moves = generate_moves(&self.board);
        let targets = destinations(&moves, from);
        proof {
            assert forall|to: BoardPosition| self.can_move(from, to) implies to.on_board()
                && holds_piece_of(self.piece_at(from), self.to_move()) by {
                let i = choose|i: int|
                    0 <= i < moves@.len() && joins(#[trigger] moves@[i], from, to);
                assert(moves@[i].from == from && moves@[i].to == to);
            }
            if targets@.len() > 0 {
                assert(targets@.contains(targets@[0]));
            }
        }
        targets
    }

    /// Attempts the move from `from` to `to`. Where the engine has a legal
    /// move between the two cells, the first such move that it generates is
    /// applied, the turn passes to the other player and the answer is
    /// `true`. Otherwise nothing changes and the answer is `false`.
    pub fn try_make_move(&mut self, from: BoardPosition, to: BoardPosition) -> (accepted: bool)
        ensures
            accepted == old(self).can_move(from, to),
            !accepted ==> *final(self) == *old(self),
            accepted ==> final(self).to_move() == old(self).to_move().other(),
            accepted ==> final(self).piece_at(from) is None,
            accepted ==> holds_piece_of(final(self).piece_at(to), old(self).to_move()),
            accepted ==> holds_piece_of(old(self).piece_at(from), old(self).to_move()),
    {
        let moves = generate_moves(&self.board);
        match find_move(&moves, from, to) {
            Some(index) => {
                self.board = play(&self.board, moves[index]);
                true
            },
            None => false,
        }
    }
}

} // verus!
