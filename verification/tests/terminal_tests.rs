use hector::terminal::{clear_screen, cursor_position, cursor_show, decimal};
use hector::{Position, Size};

#[test]
fn decimal_writes_numerals() {
    assert_eq!(decimal(0), "0");
    assert_eq!(decimal(7), "7");
    assert_eq!(decimal(10), "10");
    assert_eq!(decimal(1234567890), "1234567890");
    assert_eq!(decimal(u64::MAX), "18446744073709551615");
}

#[test]
fn cursor_position_is_one_based_line_first() {
    assert_eq!(cursor_position(&Position { x: 0, y: 0 }), "\x1b[1;1H\n");
    assert_eq!(cursor_position(&Position { x: 4, y: 11 }), "\x1b[12;5H\n");
    assert_eq!(cursor_position(&Position { x: 65534, y: 0 }), "\x1b[1;65535H\n");
}

#[test]
fn cursor_position_keeps_the_low_sixteen_bits() {
    assert_eq!(cursor_position(&Position { x: 65535, y: 2 }), "\x1b[3;0H\n");
    assert_eq!(cursor_position(&Position { x: 65536, y: 65537 }), "\x1b[2;1H\n");
    assert_eq!(cursor_position(&Position { x: usize::MAX, y: 0 }), "\x1b[1;65535H\n");
}

#[test]
fn clear_screen_sequence() {
    assert_eq!(clear_screen(), "\x1b[2J\n");
}

#[test]
fn cursor_show_sequence() {
    assert_eq!(cursor_show(), "\x1b[?25h\n");
}

#[test]
fn size_holds_columns_and_lines() {
    let size = Size { width: 80, height: 24 };
    assert_eq!(size.width, 80);
    assert_eq!(size.height, 24);
    assert_eq!(size, Size { width: 80, height: 24 });
}
