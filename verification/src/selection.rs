//! The selection state machine: what one click on a cell of the board does
//! to the selection, and what the engine's answer to an attempted move does
//! to selection and orientation.

use vstd::prelude::*;
use crate::geometry::{BoardPosition, Orientation};
use crate::pieces::{holds_piece_of, Color, Piece};

verus! {

/// What is selected on the board.
#[derive(Clone, Copy, Debug, PartialEq, Eq, Structural)]
pub enum SelectionState {
    /// No cell is selected.
    Idle,
    /// One cell is selected. It held a piece of the player to move when it
    /// was selected.
    Selected(BoardPosition),
}

/// What a click asks of the rules engine.
#[derive(Clone, Copy, Debug, PartialEq, Eq, Structural)]
pub enum ClickAction {
    /// Nothing: the click changed the selection at most.
    Nothing,
    /// To attempt the move of the piece on `from` to `to`.
    AttemptMove { from: BoardPosition, to: BoardPosition },
}

/// The selection after a click on `clicked`, and what the click asks of the
/// engine. `occupant` is what stands on the clicked cell. Where a move is to
/// be attempted the selection stays as it is until the engine has answered.
pub open spec fn click_result(
    state: SelectionState,
    clicked: BoardPosition,
    current_player: Color,
    occupant: Option<Piece>,
) -> (SelectionState, ClickAction) {
    match state {
        SelectionState::Idle => if holds_piece_of(occupant, current_player) {
            (SelectionState::Selected(clicked), ClickAction::Nothing)
        } else {
            (SelectionState::Idle, ClickAction::Nothing)
        },
        SelectionState::Selected(origin) => if clicked == origin {
            (SelectionState::Idle, ClickAction::Nothing)
        } else {
            (state, ClickAction::AttemptMove { from: origin, to: clicked })
        },
    }
}

/// Selection and orientation once the engine has answered an attempt to
/// move the piece on `origin`.
pub open spec fn attempt_result(
    origin: BoardPosition,
    orientation: Orientation,
    accepted: bool,
) -> (SelectionState, Orientation) {
    if accepted {
        (SelectionState::Idle, orientation.other())
    } else {
        (SelectionState::Selected(origin), orientation)
    }
}

/// Selection and orientation after one whole click: the click itself and,
/// where it asked for a move, the engine's answer `accepted`.
pub open spec fn cycle_result(
    state: SelectionState,
    orientation: Orientation,
    clicked: BoardPosition,
    current_player: Color,
    occupant: Option<Piece>,
    accepted: bool,
) -> (SelectionState, Orientation) {
    match click_result(state, clicked, current_player, occupant).1 {
        ClickAction::Nothing => (
            click_result(state, clicked, current_player, occupant).0,
            orientation,
        ),
        ClickAction::AttemptMove { from, to } => attempt_result(from, orientation, accepted),
    }
}

/// One click as the state machine takes it in: the clicked cell of the
/// board, the player to move, what stands on the cell, and the engine's
/// answer in case the click asks for a move.
#[derive(Clone, Copy, Debug, PartialEq, Eq, Structural)]
pub struct Click {
    pub clicked: BoardPosition,
    pub current_player: Color,
    pub occupant: Option<Piece>,
    pub accepted: bool,
}

/// Selection and orientation after a run of clicks, each taken as a whole.
pub open spec fn run_result(
    state: SelectionState,
    orientation: Orientation,
    clicks: Seq<Click>,
) -> (SelectionState, Orientation)
    decreases clicks.len(),
{
    if clicks.len() == 0 {
        (state, orientation)
    } else {
        let before = run_result(state, orientation, clicks.drop_last());
        let click = clicks.last();
        cycle_result(
            before.0,
            before.1,
            click.clicked,
            click.current_player,
            click.occupant,
            click.accepted,
        )
    }
}

/// How many clicks of a run made a move: asked for one and had it accepted.
pub open spec fn moves_made(
    state: SelectionState,
    orientation: Orientation,
    clicks: Seq<Click>,
) -> nat
    decreases clicks.len(),
{
    if clicks.len() == 0 {
        0
    } else {
        let before = run_result(state, orientation, clicks.drop_last());
        let click = clicks.last();
        let earlier = moves_made(state, orientation, clicks.drop_last());
        if asks_for_move(before.0, click.clicked) && click.accepted {
            earlier + 1
        } else {
            earlier
        }
    }
}

/// Whether a click in this state on this cell asks the engine for a move.
pub open spec fn asks_for_move(state: SelectionState, clicked: BoardPosition) -> bool {
    state matches SelectionState::Selected(origin) && origin != clicked
}

impl SelectionState {
    /// The selected cell, if one is selected.
    pub fn selected(&self) -> (cell: Option<BoardPosition>)
        ensures
            cell == match *self {
                SelectionState::Idle => None::<BoardPosition>,
                SelectionState::Selected(origin) => Some(origin),
            },
    {
        match self {
            SelectionState::Idle => None,
            SelectionState::Selected(origin) => Some(*origin),
        }
    }
}

/// Decides what a click on a cell of the board does. With nothing
/// selected, a click on a piece of the player to move selects its cell and
/// any other click does nothing. With a cell selected, a click on that cell
/// clears the selection, and a click elsewhere asks for the move from the
/// selected cell to the clicked one and leaves the selection to the engine's
/// answer.
pub fn handle_click(
    state: SelectionState,
    clicked: BoardPosition,
    current_player: Color,
    occupant: Option<Piece>,
) -> (next: (SelectionState, ClickAction))
    requires
        clicked.on_board(),
    ensures
        next == click_result(state, clicked, current_player, occupant),
        state is Idle && holds_piece_of(occupant, current_player) ==> next == (
            SelectionState::Selected(clicked),
            ClickAction::Nothing,
        ),
        state is Idle && !holds_piece_of(occupant, current_player) ==> next == (
            SelectionState::Idle,
            ClickAction::Nothing,
        ),
        state == SelectionState::Selected(clicked) ==> next == (
            SelectionState::Idle,
            ClickAction::Nothing,
        ),
        asks_for_move(state, clicked) ==> next == (
            state,
            (ClickAction::AttemptMove { from: state->0, to: clicked }),
        ),
{
    match state {
        SelectionState::Idle => {
            let own = match occupant {
                Some(piece) => piece.color() == current_player,
                None => false,
            };
            if own {
                (SelectionState::Selected(clicked), ClickAction::Nothing)
            } else {
                (SelectionState::Idle, ClickAction::Nothing)
            }
        },
        SelectionState::Selected(origin) => {
            if clicked == origin {
                (SelectionState::Idle, ClickAction::Nothing)
            } else {
                (state, ClickAction::AttemptMove { from: origin, to: clicked })
            }
        },
    }
}

/// Takes the engine's answer to an attempted move. An accepted move clears
/// the selection and turns the board round; a rejected one leaves the
/// selection on `origin` and the board as it was.
pub fn resolve_attempt(origin: BoardPosition, orientation: Orientation, accepted: bool) -> (next: (
    SelectionState,
    Orientation,
))
    ensures
        next == attempt_result(origin, orientation, accepted),
        accepted ==> next == (SelectionState::Idle, orientation.other()),
        !accepted ==> next == (SelectionState::Selected(origin), orientation),
{
    if accepted {
        (SelectionState::Idle, orientation.toggled())
    } else {
        (SelectionState::Selected(origin), orientation)
    }
}

/// Over one whole click the orientation turns exactly when the click asked
/// for a move and the engine accepted it: not on a rejected move, not when
/// a selection is made or cleared, and not on a click that does nothing.
pub proof fn lemma_orientation_turns_with_accepted_moves(
    state: SelectionState,
    orientation: Orientation,
    clicked: BoardPosition,
    current_player: Color,
    occupant: Option<Piece>,
    accepted: bool,
)
    ensures
        ({
            let after = cycle_result(
                state,
                orientation,
                clicked,
                current_player,
                occupant,
                accepted,
            );
            let moved = asks_for_move(state, clicked) && accepted;
            &&& moved ==> after.1 == orientation.other() && after.1 != orientation
            &&& !moved ==> after.1 == orientation
        }),
{
}

/// Over any run of clicks the board has turned round once for every move
/// made and not once more: it shows its first face after an even number of
/// moves and its other face after an odd number.
pub proof fn lemma_orientation_counts_moves(
    state: SelectionState,
    orientation: Orientation,
    clicks: Seq<Click>,
)
    ensures
        run_result(state, orientation, clicks).1 == if moves_made(state, orientation, clicks) % 2
            == 0 {
            orientation
        } else {
            orientation.other()
        },
    decreases clicks.len(),
{
    if clicks.len() > 0 {
        lemma_orientation_counts_moves(state, orientation, clicks.drop_last());
    }
}

/// Over one whole click the selection ends as the rules of selection say:
/// nothing selected and a click on an own piece selects it; a click on the
/// selected cell or an accepted move clears the selection; everything else
/// leaves it as it was.
pub proof fn lemma_selection_after_click(
    state: SelectionState,
    orientation: Orientation,
    clicked: BoardPosition,
    current_player: Color,
    occupant: Option<Piece>,
    accepted: bool,
)
    ensures
        ({
            let after = cycle_result(
                state,
                orientation,
                clicked,
                current_player,
                occupant,
                accepted,
            );
            after.0 == match state {
                SelectionState::Idle => if holds_piece_of(occupant, current_player) {
                    SelectionState::Selected(clicked)
                } else {
                    SelectionState::Idle
                },
                SelectionState::Selected(origin) => if origin == clicked || accepted {
                    SelectionState::Idle
                } else {
                    SelectionState::Selected(origin)
                },
            }
        }),
{
}

} // verus!
