//! The text that drives the terminal: control sequences and decimal numbers.

use crate::editor::Position;
use vstd::prelude::*;
use vstd::string::*;

verus! {

/// The size of the terminal in character cells.
#[derive(Clone, Copy, Debug, PartialEq, Eq, Structural)]
pub struct Size {
    pub width: u16,
    pub height: u16,
}

/// The character of a decimal digit.
pub open spec fn digit_char(d: nat) -> char {
    if d == 0 {
        '0'
    } else if d == 1 {
        '1'
    } else if d == 2 {
        '2'
    } else if d == 3 {
        '3'
    } else if d == 4 {
        '4'
    } else if d == 5 {
        '5'
    } else if d == 6 {
        '6'
    } else if d == 7 {
        '7'
    } else if d == 8 {
        '8'
    } else {
        '9'
    }
}

/// The decimal numeral of `n`, without leading zeros.
pub open spec fn decimal_digits(n: nat) -> Seq<char>
    decreases n,
{
    if n < 10 {
        seq![digit_char(n)]
    } else {
        decimal_digits(n / 10).push(digit_char(n % 10))
    }
}

/// The sequence that moves the hardware cursor to column `x` of line `y`,
/// both counted from 1: the line comes first.
pub open spec fn goto_sequence(x: u16, y: u16) -> Seq<char> {
    seq!['\x1b', '['] + decimal_digits(y as nat) + seq![';'] + decimal_digits(x as nat) + seq!['H']
}

/// The sequence that clears the whole screen.
pub open spec fn clear_sequence() -> Seq<char> {
    seq!['\x1b', '[', '2', 'J']
}

/// The sequence that makes the hardware cursor visible.
pub open spec fn show_sequence() -> Seq<char> {
    seq!['\x1b', '[', '?', '2', '5', 'h']
}

/// The terminal's coordinate for the buffer-style coordinate `v`: one more,
/// saturating, of which the terminal takes the low 16 bits.
pub open spec fn terminal_cell(v: usize) -> u16 {
    if v == usize::MAX {
        (v % 65536) as u16
    } else {
        ((v + 1) % 65536) as u16
    }
}

/// The text of `termion::cursor::Goto(x, y)` as its `Display` impl writes
/// it: the escape character, `[`, the line `y` in decimal, `;`, the column
/// `x` in decimal, `H`. In a debug build that impl refuses the position
/// `(0, 0)`, which the precondition leaves out.
#[verifier::external_body]
fn goto_escape(x: u16, y: u16) -> (text: String)
    requires
        x != 0 || y != 0,
    ensures
        text@ == goto_sequence(x, y),
{
    format!("{}", termion::cursor::Goto(x, y))
}

/// The text of `termion::clear::All` as its `Display` impl writes it: the
/// control sequence introducer followed by `2J`.
#[verifier::external_body]
fn clear_escape() -> (text: String)
    ensures
        text@ == clear_sequence(),
{
    format!("{}", termion::clear::All)
}

/// The text of `termion::cursor::Show` as its `Display` impl writes it: the
/// control sequence introducer followed by `?25h`.
#[verifier::external_body]
fn show_escape() -> (text: String)
    ensures
        text@ == show_sequence(),
{
    format!("{}", termion::cursor::Show)
}

fn digit(d: u64) -> (c: char)
    requires
        d < 10,
    ensures
        c == digit_char(d as nat),
{
    if d == 0 {
        '0'
    } else if d == 1 {
        '1'
    } else if d == 2 {
        '2'
    } else if d == 3 {
        '3'
    } else if d == 4 {
        '4'
    } else if d == 5 {
        '5'
    } else if d == 6 {
        '6'
    } else if d == 7 {
        '7'
    } else if d == 8 {
        '8'
    } else {
        '9'
    }
}

/// The decimal numeral of `n`.
pub fn decimal(n: u64) -> (text: String)
    ensures
        text@ == decimal_digits(n as nat),
    decreases n,
{
    if n < 10 {
        let mut text = String::new();
        text.push(digit(n));
        text
    } else {
        let mut text = decimal(n / 10);
        text.push(digit(n % 10));
        text
    }
}

fn cell(v: usize) -> (c: u16)
    ensures
        c == terminal_cell(v),
{
    let next = if v == usize::MAX {
        v
    } else {
        v + 1
    };
    (next % 65536) as u16
}

/// The output that places the hardware cursor at the buffer-style position
/// `position`, which counts from 0 where the terminal counts from 1, ended
/// by a line feed.
pub fn cursor_position(position: &Position) -> (out: String)
    requires
        terminal_cell(position.x) != 0 || terminal_cell(position.y) != 0,
    ensures
        out@ == goto_sequence(terminal_cell(position.x), terminal_cell(position.y)).push('\n'),
{
    let mut out = goto_escape(cell(position.x), cell(position.y));
    out.push('\n');
    out
}

/// The output that clears the whole screen, ended by a line feed.
pub fn clear_screen() -> (out: String)
    ensures
        out@ == clear_sequence().push('\n'),
{
    let mut out = clear_escape();
    out.push('\n');
    out
}

/// The output that shows the hardware cursor, ended by a line feed.
pub fn cursor_show() -> (out: String)
    ensures
        out@ == show_sequence().push('\n'),
{
    let mut out = show_escape();
    out.push('\n');
    out
}

} // verus!
