use chess_gui::geometry::BoardPosition;
use chess_gui::oracle::{checkmate, checkmate_for_mover};
use chess_gui::pieces::{Color, Piece, PieceType};
use chess_gui::snapshot::BoardView;

fn king(color: Color) -> Piece {
    Piece { color, kind: PieceType::King }
}

fn two_kings(white_moves: Vec<BoardPosition>, black_moves: Vec<BoardPosition>) -> BoardView {
    BoardView::empty(Color::White)
        .with_piece(BoardPosition { x: 0, y: 0 }, king(Color::White), white_moves)
        .with_piece(BoardPosition { x: 7, y: 7 }, king(Color::Black), black_moves)
}

#[test]
fn two_kings_without_moves_end_the_game() {
    let board = two_kings(vec![], vec![]);
    assert!(checkmate(&board));
    assert!(checkmate_for_mover(&board));
}

#[test]
fn one_king_with_a_free_square_keeps_the_game_going() {
    let board = two_kings(vec![BoardPosition { x: 1, y: 0 }], vec![]);
    assert!(!checkmate(&board));
    assert!(!checkmate_for_mover(&board));
}

#[test]
fn a_move_of_the_player_not_to_move_keeps_the_game_going() {
    let board = two_kings(vec![], vec![BoardPosition { x: 6, y: 7 }]);
    assert!(!checkmate(&board));
    assert!(checkmate_for_mover(&board));
}

#[test]
fn a_move_on_the_last_cell_of_the_walk_is_found() {
    let board = BoardView::empty(Color::Black).with_piece(
        BoardPosition { x: 7, y: 7 },
        king(Color::Black),
        vec![BoardPosition { x: 7, y: 6 }],
    );
    assert!(!checkmate(&board));
    assert!(!checkmate_for_mover(&board));
}

#[test]
fn board_without_pieces_is_terminal() {
    let board = BoardView::empty(Color::White);
    assert!(checkmate(&board));
    assert!(checkmate_for_mover(&board));
}

#[test]
fn snapshot_reads_back_what_was_placed() {
    let at = BoardPosition { x: 3, y: 4 };
    let to = BoardPosition { x: 3, y: 5 };
    let board = BoardView::empty(Color::Black).with_piece(at, king(Color::Black), vec![to]);
    assert_eq!(board.player_to_move(), Color::Black);
    assert_eq!(board.get_piece(at), Some(king(Color::Black)));
    assert_eq!(board.get_piece(to), None);
    assert_eq!(board.get_piece(BoardPosition { x: 8, y: 0 }), None);
    assert_eq!(board.move_count(at), 1);
    assert_eq!(board.move_count(to), 0);
    assert_eq!(board.move_count(BoardPosition { x: -1, y: 4 }), 0);
    assert!(board.reaches(at, to));
    assert!(!board.reaches(at, at));
    assert!(!board.reaches(to, at));
    assert!(!board.reaches(BoardPosition { x: 3, y: 12 }, to));
}

#[test]
fn placing_again_replaces_the_cell() {
    let at = BoardPosition { x: 0, y: 0 };
    let board = BoardView::empty(Color::White)
        .with_piece(at, king(Color::White), vec![BoardPosition { x: 1, y: 1 }])
        .with_piece(at, king(Color::Black), vec![]);
    assert_eq!(board.get_piece(at), Some(king(Color::Black)));
    assert_eq!(board.move_count(at), 0);
    assert!(checkmate(&board));
}

#[test]
fn nothing_is_placed_beside_the_board() {
    let outside = BoardPosition { x: 8, y: 0 };
    let board = BoardView::empty(Color::White).with_piece(
        outside,
        king(Color::White),
        vec![BoardPosition { x: 7, y: 0 }],
    );
    assert_eq!(board.get_piece(outside), None);
    assert_eq!(board.move_count(outside), 0);
    for y in 0..8 {
        for x in 0..8 {
            assert_eq!(board.get_piece(BoardPosition { x, y }), None);
        }
    }
    assert!(checkmate(&board));
}
