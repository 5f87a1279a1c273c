use editor_core::cursor::{CursorController, Direction};

fn repeat(cursor: &mut CursorController, direction: Direction, count: usize) {
    for _ in 0..count {
        cursor.move_cursor(direction);
    }
}

#[test]
fn new_cursor_stands_at_the_origin() {
    let cursor = CursorController::new((80, 24));
    assert_eq!(cursor.x(), 0);
    assert_eq!(cursor.y(), 0);
    assert_eq!(cursor.window(), (80, 24));
}

#[test]
fn left_stops_at_column_zero() {
    let mut cursor = CursorController::new((80, 24));
    repeat(&mut cursor, Direction::Right, 7);
    repeat(&mut cursor, Direction::Left, 3);
    assert_eq!(cursor.x(), 4);
    repeat(&mut cursor, Direction::Left, 10);
    assert_eq!(cursor.x(), 0);
    assert_eq!(cursor.y(), 0);
}

#[test]
fn left_at_column_zero_does_not_wrap() {
    let mut cursor = CursorController::new((80, 24));
    repeat(&mut cursor, Direction::Down, 2);
    cursor.move_cursor(Direction::Left);
    assert_eq!((cursor.x(), cursor.y()), (0, 2));
}

#[test]
fn right_stops_at_the_width() {
    let mut cursor = CursorController::new((10, 4));
    repeat(&mut cursor, Direction::Right, 9);
    assert_eq!(cursor.x(), 9);
    cursor.move_cursor(Direction::Right);
    assert_eq!(cursor.x(), 10);
    repeat(&mut cursor, Direction::Right, 25);
    assert_eq!(cursor.x(), 10);
    assert_eq!(cursor.y(), 0);
}

#[test]
fn up_stops_at_row_zero() {
    let mut cursor = CursorController::new((10, 4));
    repeat(&mut cursor, Direction::Down, 3);
    repeat(&mut cursor, Direction::Up, 2);
    assert_eq!(cursor.y(), 1);
    repeat(&mut cursor, Direction::Up, 5);
    assert_eq!(cursor.y(), 0);
}

#[test]
fn down_stops_at_the_height() {
    let mut cursor = CursorController::new((10, 4));
    repeat(&mut cursor, Direction::Down, 4);
    assert_eq!(cursor.y(), 4);
    cursor.move_cursor(Direction::Down);
    assert_eq!(cursor.y(), 4);
    assert_eq!(cursor.x(), 0);
}

#[test]
fn home_and_end_ignore_the_old_column() {
    let mut cursor = CursorController::new((80, 24));
    repeat(&mut cursor, Direction::Down, 5);
    cursor.move_cursor(Direction::End);
    assert_eq!((cursor.x(), cursor.y()), (80, 5));
    cursor.move_cursor(Direction::End);
    assert_eq!(cursor.x(), 80);
    cursor.move_cursor(Direction::Home);
    assert_eq!((cursor.x(), cursor.y()), (0, 5));
    repeat(&mut cursor, Direction::Right, 17);
    cursor.move_cursor(Direction::Home);
    assert_eq!(cursor.x(), 0);
}

#[test]
fn five_right_then_home_and_thirty_down() {
    let mut cursor = CursorController::new((80, 24));
    assert_eq!((cursor.x(), cursor.y()), (0, 0));
    repeat(&mut cursor, Direction::Right, 5);
    cursor.move_cursor(Direction::Home);
    assert_eq!(cursor.x(), 0);
    repeat(&mut cursor, Direction::Down, 30);
    assert_eq!(cursor.y(), 24);
}

#[test]
fn any_walk_stays_inside_the_window() {
    let directions = [
        Direction::Right,
        Direction::Down,
        Direction::End,
        Direction::Down,
        Direction::Right,
        Direction::Up,
        Direction::Left,
        Direction::Home,
        Direction::Left,
        Direction::Up,
        Direction::Up,
        Direction::Down,
    ];
    let mut cursor = CursorController::new((3, 2));
    for round in 0..40 {
        for (index, direction) in directions.iter().enumerate() {
            if (round + index) % 3 != 0 {
                cursor.move_cursor(*direction);
            }
            assert!(cursor.x() <= 3);
            assert!(cursor.y() <= 2);
            assert_eq!(cursor.window(), (3, 2));
        }
    }
}

#[test]
fn empty_window_keeps_the_cursor_at_the_origin() {
    let mut cursor = CursorController::new((0, 0));
    for direction in [
        Direction::Left,
        Direction::Right,
        Direction::Up,
        Direction::Down,
        Direction::Home,
        Direction::End,
    ] {
        cursor.move_cursor(direction);
        assert_eq!((cursor.x(), cursor.y()), (0, 0));
    }
}

#[test]
fn widest_window_does_not_overflow() {
    let mut cursor = CursorController::new((usize::MAX, usize::MAX));
    cursor.move_cursor(Direction::End);
    assert_eq!(cursor.x(), usize::MAX);
    cursor.move_cursor(Direction::Right);
    assert_eq!(cursor.x(), usize::MAX);
    cursor.move_cursor(Direction::Left);
    assert_eq!(cursor.x(), usize::MAX - 1);
}
