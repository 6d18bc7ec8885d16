use chess_gui::geometry::{
    cell_to_screen, screen_to_cell, vertical_flip, BoardPosition, Orientation, ScreenPoint,
    BOARD_SIZE, SQUARE_SIZE, WINDOW_HEIGHT, WINDOW_WIDTH,
};

#[test]
fn click_maps_to_cell_in_normal_orientation() {
    let cell = screen_to_cell(480, 96, 96, Orientation::Normal);
    assert_eq!(cell, BoardPosition { x: 5, y: 1 });
}

#[test]
fn click_maps_to_inverted_row_when_flipped() {
    let cell = screen_to_cell(480, 96, 96, Orientation::Flipped);
    assert_eq!(cell, BoardPosition { x: 5, y: 6 });
}

#[test]
fn every_pixel_of_a_square_maps_to_its_cell() {
    assert_eq!(screen_to_cell(95, 95, 96, Orientation::Normal), BoardPosition { x: 0, y: 0 });
    assert_eq!(screen_to_cell(96, 95, 96, Orientation::Normal), BoardPosition { x: 1, y: 0 });
    assert_eq!(screen_to_cell(767, 767, 96, Orientation::Normal), BoardPosition { x: 7, y: 7 });
    assert_eq!(screen_to_cell(767, 767, 96, Orientation::Flipped), BoardPosition { x: 7, y: 0 });
}

#[test]
fn division_rounds_toward_zero_left_of_the_window() {
    assert_eq!(screen_to_cell(-50, -95, 96, Orientation::Normal), BoardPosition { x: 0, y: 0 });
    assert_eq!(screen_to_cell(-96, -97, 96, Orientation::Normal), BoardPosition { x: -1, y: -1 });
    assert_eq!(screen_to_cell(-96, -97, 96, Orientation::Flipped), BoardPosition { x: -1, y: 8 });
}

#[test]
fn conversion_does_not_hold_the_cell_to_the_board() {
    let cell = screen_to_cell(800, 1000, 96, Orientation::Normal);
    assert_eq!(cell, BoardPosition { x: 8, y: 10 });
    assert!(!cell.in_bounds());
    let flipped = screen_to_cell(800, 1000, 96, Orientation::Flipped);
    assert_eq!(flipped, BoardPosition { x: 8, y: -3 });
    assert!(!flipped.in_bounds());
}

#[test]
fn cell_is_drawn_at_its_corner() {
    let cell = BoardPosition { x: 5, y: 1 };
    assert_eq!(cell_to_screen(cell, 96, Orientation::Normal), ScreenPoint { x: 480, y: 96 });
    assert_eq!(cell_to_screen(cell, 96, Orientation::Flipped), ScreenPoint { x: 480, y: 576 });
    assert_eq!(cell_to_screen(cell, 10, Orientation::Flipped), ScreenPoint { x: 50, y: 60 });
}

#[test]
fn round_trip_finds_every_cell_again() {
    for orientation in [Orientation::Normal, Orientation::Flipped] {
        for size in [1, 2, 96, 100] {
            for y in 0..BOARD_SIZE {
                for x in 0..BOARD_SIZE {
                    let cell = BoardPosition { x, y };
                    let point = cell_to_screen(cell, size, orientation);
                    assert_eq!(screen_to_cell(point.x, point.y, size, orientation), cell);
                }
            }
        }
    }
}

#[test]
fn pixel_snaps_to_the_corner_of_its_square() {
    for orientation in [Orientation::Normal, Orientation::Flipped] {
        let cell = screen_to_cell(500, 100, 96, orientation);
        assert_eq!(cell_to_screen(cell, 96, orientation), ScreenPoint { x: 480, y: 96 });
    }
}

#[test]
fn flip_counts_rows_from_the_other_edge() {
    assert_eq!(vertical_flip(0), 7);
    assert_eq!(vertical_flip(7), 0);
    assert_eq!(vertical_flip(3), 4);
    assert_eq!(vertical_flip(-1), 8);
    assert_eq!(vertical_flip(8), -1);
    for row in -20..20 {
        assert_eq!(vertical_flip(vertical_flip(row)), row);
    }
}

#[test]
fn bounds_are_the_eight_by_eight_board() {
    assert!(BoardPosition { x: 0, y: 0 }.in_bounds());
    assert!(BoardPosition { x: 7, y: 7 }.in_bounds());
    assert!(!BoardPosition { x: 8, y: 0 }.in_bounds());
    assert!(!BoardPosition { x: 0, y: 8 }.in_bounds());
    assert!(!BoardPosition { x: -1, y: 0 }.in_bounds());
    assert!(!BoardPosition { x: 0, y: -1 }.in_bounds());
}

#[test]
fn orientation_toggles_back_and_forth() {
    assert_eq!(Orientation::Normal.toggled(), Orientation::Flipped);
    assert_eq!(Orientation::Flipped.toggled(), Orientation::Normal);
    assert!(!Orientation::Normal.is_flipped());
    assert!(Orientation::Flipped.is_flipped());
}

#[test]
fn square_of_negative_size_divides_toward_zero_too() {
    assert_eq!(screen_to_cell(480, 96, -96, Orientation::Normal), BoardPosition { x: -5, y: -1 });
    assert_eq!(screen_to_cell(500, -100, -96, Orientation::Normal), BoardPosition { x: -5, y: 1 });
    assert_eq!(screen_to_cell(-480, -96, -96, Orientation::Flipped), BoardPosition { x: 5, y: 6 });
    let cell = BoardPosition { x: 5, y: 1 };
    let point = cell_to_screen(cell, -96, Orientation::Flipped);
    assert_eq!(point, ScreenPoint { x: -480, y: -576 });
    assert_eq!(screen_to_cell(point.x, point.y, -96, Orientation::Flipped), cell);
}

#[test]
fn extreme_pixels_convert_without_overflow() {
    assert_eq!(
        screen_to_cell(i32::MAX, i32::MIN, 96, Orientation::Normal),
        BoardPosition { x: 22369621, y: -22369621 }
    );
    assert_eq!(
        screen_to_cell(i32::MIN, i32::MAX, 96, Orientation::Flipped),
        BoardPosition { x: -22369621, y: -22369614 }
    );
    assert_eq!(
        screen_to_cell(i32::MIN, i32::MIN + 8, 1, Orientation::Flipped),
        BoardPosition { x: i32::MIN, y: i32::MAX }
    );
}

#[test]
fn window_holds_the_whole_board() {
    assert_eq!(BOARD_SIZE * SQUARE_SIZE, WINDOW_WIDTH);
    assert_eq!(BOARD_SIZE * SQUARE_SIZE, WINDOW_HEIGHT);
}
