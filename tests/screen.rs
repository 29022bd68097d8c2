use ansi_cursor::{Control, Cursor, Effect, Error, Screen, Token};

fn lit(s: &str) -> Token {
    Token::Literal(s.as_bytes().to_vec())
}

fn ctl(c: Control) -> Token {
    Token::Control(c)
}

#[test]
fn new_screen_is_blank() {
    let s = Screen::new(10, 2, b' ');
    assert_eq!(s.width(), 10);
    assert_eq!(s.height(), 2);
    assert_eq!(s.blank(), b' ');
    assert_eq!(s.cells(), &[b' '; 20][..]);
}

#[test]
fn literal_hello_at_origin() {
    let mut s = Screen::new(10, 2, b' ');
    let mut c = Cursor { x: 0, y: 0 };
    assert_eq!(s.apply(&mut c, &lit("hello")), Ok(Effect::Applied));
    assert_eq!(&s.cells()[..10], b"hello     ");
    assert_eq!(&s.cells()[10..], b"          ");
    assert_eq!(c, Cursor { x: 5, y: 0 });
}

#[test]
fn literal_advance_is_not_clamped() {
    let mut s = Screen::new(10, 2, b' ');
    let mut c = Cursor { x: 8, y: 0 };
    assert_eq!(s.apply(&mut c, &lit("abcd")), Ok(Effect::Applied));
    assert_eq!(c, Cursor { x: 12, y: 0 });
    assert_eq!(s.cells(), b"        abcd        ");
}

#[test]
fn literal_longer_than_a_row_wraps_whole_rows() {
    let mut s = Screen::new(4, 3, b'.');
    let mut c = Cursor { x: 1, y: 0 };
    assert_eq!(s.apply(&mut c, &lit("abcdef")), Ok(Effect::Applied));
    assert_eq!(c, Cursor { x: 3, y: 1 });
    assert_eq!(s.cells(), b".abcdef.....");
}

#[test]
fn set_cursor_position_is_absolute() {
    let mut s = Screen::new(10, 2, b' ');
    let mut c = Cursor { x: 7, y: 0 };
    let op = ctl(Control::SetCursorPosition { row: 1, col: 3 });
    assert_eq!(s.apply(&mut c, &op), Ok(Effect::Applied));
    assert_eq!(c, Cursor { x: 3, y: 1 });
    let mut c2 = Cursor { x: 0, y: 1 };
    assert_eq!(s.apply(&mut c2, &op), Ok(Effect::Applied));
    assert_eq!(c2, Cursor { x: 3, y: 1 });
}

#[test]
fn cursor_moves() {
    let mut s = Screen::new(10, 5, b' ');
    let mut c = Cursor { x: 4, y: 2 };
    assert_eq!(s.apply(&mut c, &ctl(Control::CursorUp(2))), Ok(Effect::Applied));
    assert_eq!(c, Cursor { x: 4, y: 0 });
    assert_eq!(s.apply(&mut c, &ctl(Control::CursorDown(3))), Ok(Effect::Applied));
    assert_eq!(c, Cursor { x: 4, y: 3 });
    assert_eq!(s.apply(&mut c, &ctl(Control::CursorForward(5))), Ok(Effect::Applied));
    assert_eq!(c, Cursor { x: 9, y: 3 });
    assert_eq!(s.apply(&mut c, &ctl(Control::CursorBackward(9))), Ok(Effect::Applied));
    assert_eq!(c, Cursor { x: 0, y: 3 });
}

#[test]
fn cursor_move_below_zero_overflows() {
    let mut s = Screen::new(10, 5, b' ');
    let mut c = Cursor { x: 1, y: 1 };
    assert_eq!(s.apply(&mut c, &ctl(Control::CursorUp(2))), Err(Error::BufferOverflow));
    assert_eq!(s.apply(&mut c, &ctl(Control::CursorBackward(2))), Err(Error::BufferOverflow));
    assert_eq!(c, Cursor { x: 1, y: 1 });
    let mut far = Cursor { x: usize::MAX, y: usize::MAX };
    assert_eq!(s.apply(&mut far, &ctl(Control::CursorForward(1))), Err(Error::BufferOverflow));
    assert_eq!(s.apply(&mut far, &ctl(Control::CursorDown(1))), Err(Error::BufferOverflow));
    assert_eq!(far, Cursor { x: usize::MAX, y: usize::MAX });
}

#[test]
fn literal_past_the_end_overflows() {
    let mut s = Screen::new(10, 2, b' ');
    let mut c = Cursor { x: 8, y: 1 };
    assert_eq!(s.apply(&mut c, &lit("abc")), Err(Error::BufferOverflow));
    assert_eq!(c, Cursor { x: 8, y: 1 });
    assert_eq!(s.cells(), &[b' '; 20][..]);
    // exactly filling the last cells is fine
    assert_eq!(s.apply(&mut c, &lit("ab")), Ok(Effect::Applied));
    assert_eq!(c, Cursor { x: 10, y: 1 });
    assert_eq!(&s.cells()[18..], b"ab");
}

#[test]
fn literal_from_a_row_past_the_screen_overflows() {
    let mut s = Screen::new(10, 2, b' ');
    let mut c = Cursor { x: 0, y: 3 };
    assert_eq!(s.apply(&mut c, &lit("a")), Err(Error::BufferOverflow));
    let mut huge = Cursor { x: 0, y: usize::MAX };
    assert_eq!(s.apply(&mut huge, &lit("a")), Err(Error::BufferOverflow));
    assert_eq!(s.cells(), &[b' '; 20][..]);
}

#[test]
fn erase_to_end_of_line() {
    let mut s = Screen::new(5, 2, b' ');
    let mut c = Cursor { x: 0, y: 0 };
    s.apply(&mut c, &lit("abcdefghij")).unwrap();
    let mut at = Cursor { x: 2, y: 0 };
    assert_eq!(s.apply(&mut at, &ctl(Control::EraseToEndOfLine)), Ok(Effect::Applied));
    assert_eq!(s.cells(), b"ab   fghij");
    assert_eq!(at, Cursor { x: 2, y: 0 });
}

#[test]
fn erase_to_end_of_line_out_of_bounds() {
    let mut s = Screen::new(5, 2, b' ');
    let mut c = Cursor { x: 6, y: 0 };
    assert_eq!(s.apply(&mut c, &ctl(Control::EraseToEndOfLine)), Err(Error::BufferOverflow));
    let mut below = Cursor { x: 0, y: 2 };
    assert_eq!(s.apply(&mut below, &ctl(Control::EraseToEndOfLine)), Err(Error::BufferOverflow));
}

#[test]
fn erase_to_end_of_display() {
    let mut s = Screen::new(5, 2, b'-');
    let mut c = Cursor { x: 0, y: 0 };
    s.apply(&mut c, &lit("abcdefghij")).unwrap();
    let mut at = Cursor { x: 3, y: 0 };
    assert_eq!(s.apply(&mut at, &ctl(Control::EraseToEndOfDisplay)), Ok(Effect::Applied));
    assert_eq!(s.cells(), b"abc-------");
    let mut past = Cursor { x: 1, y: 2 };
    assert_eq!(s.apply(&mut past, &ctl(Control::EraseToEndOfDisplay)), Err(Error::BufferOverflow));
}

#[test]
fn erase_to_end_of_display_twice_is_once() {
    let mut once = Screen::new(4, 3, b' ');
    let mut twice = Screen::new(4, 3, b' ');
    let mut c1 = Cursor { x: 0, y: 0 };
    let mut c2 = Cursor { x: 0, y: 0 };
    once.apply(&mut c1, &lit("0123456789ab")).unwrap();
    twice.apply(&mut c2, &lit("0123456789ab")).unwrap();
    let mut a = Cursor { x: 1, y: 1 };
    let mut b = Cursor { x: 1, y: 1 };
    once.apply(&mut a, &ctl(Control::EraseToEndOfDisplay)).unwrap();
    twice.apply(&mut b, &ctl(Control::EraseToEndOfDisplay)).unwrap();
    twice.apply(&mut b, &ctl(Control::EraseToEndOfDisplay)).unwrap();
    assert_eq!(once.cells(), twice.cells());
    assert_eq!(once.cells(), b"01234       ");
    assert_eq!(a, b);
}

#[test]
fn unrecognized_control_changes_nothing() {
    let mut s = Screen::new(4, 2, b' ');
    let mut c = Cursor { x: 0, y: 0 };
    s.apply(&mut c, &lit("abcde")).unwrap();
    let before = s.cells().to_vec();
    let cur = c;
    assert_eq!(s.apply(&mut c, &ctl(Control::Other)), Ok(Effect::Ignored));
    assert_eq!(s.cells(), &before[..]);
    assert_eq!(c, cur);
}
