use editor_core::control::MAX_POSITION;
use editor_core::keys::KeyCode;
use editor_core::output::Output;

const HIDE: &str = "\x1b[?25l";
const SHOW: &str = "\x1b[?25h";
const ERASE: &str = "\x1b[K";

fn moved(output: &mut Output, code: KeyCode, count: usize) {
    for _ in 0..count {
        output.move_cursor(code);
    }
}

#[test]
fn new_screen_has_nothing_pending() {
    let output = Output::new((80, 24));
    assert_eq!(output.window(), (80, 24));
    assert_eq!(output.cursor(), (0, 0));
    assert_eq!(output.pending(), "");
}

#[test]
fn welcome_fills_one_column_less_than_the_window() {
    let output = Output::new((80, 24));
    let expected = format!("{}Version 0.0.1{}", " ".repeat(33), " ".repeat(33));
    assert_eq!(output.welcome(), expected);
    assert_eq!(Output::new((4, 24)).welcome(), "Vers");
    assert_eq!(Output::new((0, 24)).welcome(), "");
}

#[test]
fn clear_screen_erases_all_and_goes_home() {
    assert_eq!(Output::clear_screen(), "\x1b[2J\x1b[1;1H");
}

#[test]
fn rows_of_a_small_window() {
    let mut output = Output::new((10, 3));
    output.draw_rows();
    assert_eq!(output.pending(), "~\x1b[K\r\n~\x1b[KVersion 0.\r\n~\x1b[K");
}

#[test]
fn rows_are_drawn_behind_what_is_pending() {
    let mut output = Output::new((20, 2));
    output.draw_rows();
    output.draw_rows();
    let once = "~\x1b[K   Version 0.0.1   \r\n~\x1b[K";
    assert_eq!(output.pending(), format!("{once}{once}"));
}

#[test]
fn window_without_rows_draws_no_rows() {
    let mut output = Output::new((80, 0));
    output.draw_rows();
    assert_eq!(output.pending(), "");
    assert_eq!(output.refresh_screen(), "\x1b[?25l\x1b[1;1H\x1b[1;1H\x1b[?25h");
}

#[test]
fn single_row_has_the_banner_and_no_line_break() {
    let mut output = Output::new((15, 1));
    assert_eq!(
        output.refresh_screen(),
        "\x1b[?25l\x1b[1;1H~\x1b[KVersion 0.0.1 \x1b[1;1H\x1b[?25h"
    );
}

#[test]
fn frame_of_a_small_window() {
    let mut output = Output::new((10, 3));
    let frame = output.refresh_screen();
    assert_eq!(
        frame,
        "\x1b[?25l\x1b[1;1H~\x1b[K\r\n~\x1b[KVersion 0.\r\n~\x1b[K\x1b[1;1H\x1b[?25h"
    );
}

#[test]
fn frame_of_a_usual_window() {
    let mut output = Output::new((80, 24));
    let banner = format!("{}Version 0.0.1{}", " ".repeat(33), " ".repeat(33));
    let mut expected = String::new();
    expected.push_str(HIDE);
    expected.push_str("\x1b[1;1H");
    for row in 0..24 {
        expected.push('~');
        expected.push_str(ERASE);
        if row == 8 {
            expected.push_str(&banner);
        }
        if row < 23 {
            expected.push_str("\r\n");
        }
    }
    expected.push_str("\x1b[1;1H");
    expected.push_str(SHOW);
    assert_eq!(output.refresh_screen(), expected);
}

#[test]
fn frame_has_one_marker_per_row_and_a_break_between_rows() {
    for rows in 0..40usize {
        let mut output = Output::new((30, rows));
        let frame = output.refresh_screen();
        assert_eq!(frame.matches('~').count(), rows);
        assert_eq!(frame.matches("\r\n").count(), rows.saturating_sub(1));
        assert_eq!(frame.matches('\r').count(), rows.saturating_sub(1));
        assert_eq!(frame.matches('\n').count(), rows.saturating_sub(1));
        assert_eq!(frame.matches("~\x1b[K").count(), rows);
        assert_eq!(frame.matches("Version 0.0.1").count(), if rows == 0 { 0 } else { 1 });
        assert!(!frame.ends_with("\r\n\x1b[1;1H\x1b[?25h"));
    }
}

#[test]
fn banner_stands_a_third_of_the_way_down() {
    let mut output = Output::new((20, 7));
    output.draw_rows();
    let text = output.pending().to_string();
    let rows: Vec<&str> = text.split("\r\n").collect();
    assert_eq!(rows.len(), 7);
    for (index, row) in rows.iter().enumerate() {
        if index == 2 {
            assert_eq!(*row, "~\x1b[K   Version 0.0.1   ");
        } else {
            assert_eq!(*row, "~\x1b[K");
        }
    }
}

#[test]
fn frame_puts_the_cursor_where_it_stands() {
    let mut output = Output::new((120, 40));
    moved(&mut output, KeyCode::Right, 9);
    moved(&mut output, KeyCode::Down, 12);
    assert_eq!(output.cursor(), (9, 12));
    let frame = output.refresh_screen();
    assert!(frame.starts_with("\x1b[?25l\x1b[1;1H~\x1b[K\r\n"));
    assert!(frame.ends_with("~\x1b[K\x1b[13;10H\x1b[?25h"));
    output.move_cursor(KeyCode::End);
    moved(&mut output, KeyCode::Down, 100);
    assert_eq!(output.cursor(), (120, 40));
    let frame = output.refresh_screen();
    assert!(frame.ends_with("~\x1b[K\x1b[41;121H\x1b[?25h"));
}

#[test]
fn largest_window_can_be_addressed() {
    let mut output = Output::new((MAX_POSITION, 2));
    output.move_cursor(KeyCode::End);
    moved(&mut output, KeyCode::Down, 2);
    assert_eq!(output.cursor(), (65534, 2));
    let frame = output.refresh_screen();
    assert!(frame.ends_with("\x1b[3;65535H\x1b[?25h"));
    let mut output = Output::new((2, MAX_POSITION));
    moved(&mut output, KeyCode::Down, 70000);
    assert_eq!(output.cursor(), (0, 65534));
    let frame = output.refresh_screen();
    assert!(frame.ends_with("\x1b[65535;1H\x1b[?25h"));
    assert_eq!(frame.matches('~').count(), 65534);
}

#[test]
fn refresh_leaves_the_buffer_empty() {
    let mut output = Output::new((40, 12));
    let first = output.refresh_screen();
    assert_eq!(output.pending(), "");
    let second = output.refresh_screen();
    assert_eq!(output.pending(), "");
    assert_eq!(first, second);
    output.move_cursor(KeyCode::Right);
    let third = output.refresh_screen();
    assert_ne!(second, third);
    assert_eq!(third.len(), first.len());
    assert_eq!(output.pending(), "");
}

#[test]
fn refresh_hands_out_what_was_pending_too() {
    let mut output = Output::new((10, 1));
    output.draw_rows();
    let frame = output.refresh_screen();
    assert_eq!(
        frame,
        "~\x1b[KVersion 0.\x1b[?25l\x1b[1;1H~\x1b[KVersion 0.\x1b[1;1H\x1b[?25h"
    );
    assert_eq!(output.pending(), "");
}

#[test]
fn movement_keys_move_the_cursor() {
    let mut output = Output::new((80, 24));
    output.move_cursor(KeyCode::Right);
    output.move_cursor(KeyCode::Right);
    output.move_cursor(KeyCode::Down);
    assert_eq!(output.cursor(), (2, 1));
    output.move_cursor(KeyCode::Left);
    output.move_cursor(KeyCode::Up);
    assert_eq!(output.cursor(), (1, 0));
    output.move_cursor(KeyCode::End);
    assert_eq!(output.cursor(), (80, 0));
    output.move_cursor(KeyCode::Home);
    assert_eq!(output.cursor(), (0, 0));
}

#[test]
fn keys_without_direction_leave_the_cursor() {
    let mut output = Output::new((80, 24));
    moved(&mut output, KeyCode::Right, 3);
    moved(&mut output, KeyCode::Down, 4);
    for code in [
        KeyCode::Char('c'),
        KeyCode::Char('x'),
        KeyCode::Char('h'),
        KeyCode::Char('l'),
        KeyCode::Char('k'),
        KeyCode::Char('j'),
        KeyCode::Enter,
        KeyCode::F(2),
        KeyCode::Other,
    ] {
        output.move_cursor(code);
        assert_eq!(output.cursor(), (3, 4));
        assert_eq!(output.window(), (80, 24));
        assert_eq!(output.pending(), "");
    }
}
