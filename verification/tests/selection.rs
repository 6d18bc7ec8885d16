use chess_gui::geometry::{BoardPosition, Orientation};
use chess_gui::pieces::{Color, Piece, PieceType};
use chess_gui::selection::{handle_click, resolve_attempt, ClickAction, SelectionState};

fn white_pawn() -> Option<Piece> {
    Some(Piece { color: Color::White, kind: PieceType::Pawn })
}

fn black_pawn() -> Option<Piece> {
    Some(Piece { color: Color::Black, kind: PieceType::Pawn })
}

#[test]
fn idle_click_on_own_piece_selects_it() {
    let clicked = BoardPosition { x: 5, y: 1 };
    let next = handle_click(SelectionState::Idle, clicked, Color::White, white_pawn());
    assert_eq!(next, (SelectionState::Selected(clicked), ClickAction::Nothing));
}

#[test]
fn idle_click_on_empty_cell_stays_idle() {
    let clicked = BoardPosition { x: 5, y: 3 };
    let next = handle_click(SelectionState::Idle, clicked, Color::White, None);
    assert_eq!(next, (SelectionState::Idle, ClickAction::Nothing));
}

#[test]
fn idle_click_on_opponent_piece_stays_idle() {
    let clicked = BoardPosition { x: 5, y: 6 };
    let next = handle_click(SelectionState::Idle, clicked, Color::White, black_pawn());
    assert_eq!(next, (SelectionState::Idle, ClickAction::Nothing));
    let next = handle_click(SelectionState::Idle, clicked, Color::Black, white_pawn());
    assert_eq!(next, (SelectionState::Idle, ClickAction::Nothing));
}

#[test]
fn click_on_selected_cell_clears_selection() {
    let origin = BoardPosition { x: 5, y: 1 };
    let next = handle_click(SelectionState::Selected(origin), origin, Color::White, white_pawn());
    assert_eq!(next, (SelectionState::Idle, ClickAction::Nothing));
}

#[test]
fn click_elsewhere_asks_for_a_move() {
    let origin = BoardPosition { x: 5, y: 1 };
    let clicked = BoardPosition { x: 5, y: 3 };
    let next = handle_click(SelectionState::Selected(origin), clicked, Color::White, None);
    assert_eq!(
        next,
        (
            SelectionState::Selected(origin),
            ClickAction::AttemptMove { from: origin, to: clicked }
        )
    );
}

#[test]
fn click_on_another_own_piece_asks_for_a_move_too() {
    let origin = BoardPosition { x: 5, y: 1 };
    let clicked = BoardPosition { x: 4, y: 1 };
    let next = handle_click(SelectionState::Selected(origin), clicked, Color::White, white_pawn());
    assert_eq!(
        next,
        (
            SelectionState::Selected(origin),
            ClickAction::AttemptMove { from: origin, to: clicked }
        )
    );
}

#[test]
fn accepted_move_clears_selection_and_turns_the_board() {
    let origin = BoardPosition { x: 5, y: 1 };
    assert_eq!(
        resolve_attempt(origin, Orientation::Normal, true),
        (SelectionState::Idle, Orientation::Flipped)
    );
    assert_eq!(
        resolve_attempt(origin, Orientation::Flipped, true),
        (SelectionState::Idle, Orientation::Normal)
    );
}

#[test]
fn rejected_move_leaves_selection_and_orientation() {
    let origin = BoardPosition { x: 5, y: 1 };
    assert_eq!(
        resolve_attempt(origin, Orientation::Normal, false),
        (SelectionState::Selected(origin), Orientation::Normal)
    );
    assert_eq!(
        resolve_attempt(origin, Orientation::Flipped, false),
        (SelectionState::Selected(origin), Orientation::Flipped)
    );
}

#[test]
fn selected_cell_is_read_back() {
    let origin = BoardPosition { x: 2, y: 6 };
    assert_eq!(SelectionState::Idle.selected(), None);
    assert_eq!(SelectionState::Selected(origin).selected(), Some(origin));
}

#[test]
fn piece_reports_color_and_kind() {
    let piece = Piece { color: Color::Black, kind: PieceType::Queen };
    assert_eq!(piece.color(), Color::Black);
    assert_eq!(piece.kind(), PieceType::Queen);
    assert_eq!(Color::White.opponent(), Color::Black);
    assert_eq!(Color::Black.opponent(), Color::White);
}
