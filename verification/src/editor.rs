//! The controller: cursor and scroll-offset state, the transitions that the
//! keys cause, and the text of each frame.

use crate::document::Document;
use crate::row::{render_spec, Row};
use crate::terminal::{
    clear_screen, clear_sequence, cursor_position, cursor_show, decimal, decimal_digits,
    goto_sequence, show_sequence, terminal_cell, Size,
};
use vstd::prelude::*;
use vstd::string::*;

verus! {

/// A pair of coordinates, in the buffer or on the screen: `x` is the column
/// and `y` the line, both counted from 0.
#[derive(Clone, Copy, Debug, PartialEq, Eq, Structural)]
pub struct Position {
    pub x: usize,
    pub y: usize,
}

impl Default for Position {
    /// The origin.
    fn default() -> (position: Position)
        ensures
            position == (Position { x: 0, y: 0 }),
    {
        Position { x: 0, y: 0 }
    }
}

/// A decoded key event.
#[derive(Clone, Copy, Debug, PartialEq, Eq, Structural)]
pub enum Key {
    Up,
    Down,
    Left,
    Right,
    PageUp,
    PageDown,
    Home,
    End,
    /// A character typed with the control key held.
    Ctrl(char),
    /// A plain character.
    Char(char),
    /// Any key that the editor gives no meaning.
    Other,
}

/// The version shown in the welcome banner.
pub const VERSION: &'static str = "0.1.0";

/// The last line on which the cursor may stand: the terminal's line count
/// less one, and 0 for a terminal without lines.
pub open spec fn last_line(size: Size) -> usize {
    size.height.saturating_sub(1) as usize
}

/// The last column in which the cursor may stand: the terminal's column
/// count less one, and 0 for a terminal without columns.
pub open spec fn last_column(size: Size) -> usize {
    size.width.saturating_sub(1) as usize
}

/// The cursor position and the offset, in this order, after `key` was
/// pressed. Up on line 0 and Down on the last line scroll the offset and
/// leave the cursor; Left and Right stop at the edges; no coordinate ever
/// leaves the range of its type.
pub open spec fn move_spec(cursor: Position, offset: Position, key: Key, size: Size) -> (
    Position,
    Position,
) {
    match key {
        Key::Up => if cursor.y > 0 {
            (Position { x: cursor.x, y: (cursor.y - 1) as usize }, offset)
        } else {
            (cursor, Position { x: offset.x, y: offset.y.saturating_sub(1) })
        },
        Key::Down => if cursor.y < last_line(size) {
            (Position { x: cursor.x, y: (cursor.y + 1) as usize }, offset)
        } else {
            (cursor, Position { x: offset.x, y: offset.y.saturating_add(1) })
        },
        Key::Left => (Position { x: cursor.x.saturating_sub(1), y: cursor.y }, offset),
        Key::Right => if cursor.x < last_column(size) {
            (Position { x: (cursor.x + 1) as usize, y: cursor.y }, offset)
        } else {
            (cursor, offset)
        },
        Key::PageDown => (Position { x: cursor.x, y: last_line(size) }, offset),
        Key::PageUp => (Position { x: cursor.x, y: 0 }, offset),
        Key::Home => (Position { x: 0, y: cursor.y }, offset),
        Key::End => (Position { x: last_column(size), y: cursor.y }, offset),
        _ => (cursor, offset),
    }
}

/// The offset along one axis that brings the coordinate `at` into a window
/// of `extent` cells: unchanged where `at` is inside the window, `at` where
/// it lies before it, and else the least offset whose window holds `at`.
pub open spec fn scroll_axis(at: usize, offset: usize, extent: usize) -> usize {
    if at < offset {
        at
    } else if at >= offset.saturating_add(extent) {
        at.saturating_sub(extent).saturating_add(1)
    } else {
        offset
    }
}

/// The offset that brings `cursor` into the window of `size` cells.
pub open spec fn scroll_spec(cursor: Position, offset: Position, size: Size) -> Position {
    Position {
        x: scroll_axis(cursor.x, offset.x, size.width as usize),
        y: scroll_axis(cursor.y, offset.y, size.height as usize),
    }
}

/// The line drawn where the buffer has no row.
pub open spec fn placeholder_line() -> Seq<char> {
    seq!['~', '\r', '\n']
}

/// The line drawn for a row: its label in decimal, a dot and a space, the
/// cells `[start, start + width)` of the row, and the line's end.
pub open spec fn row_line(content: Seq<char>, label: nat, start: nat, width: nat) -> Seq<char> {
    decimal_digits(label) + seq!['.', ' '] + render_spec(content, start, start + width)
        + seq!['\r', '\n']
}

/// The editor's name and version, ended by a carriage return.
pub open spec fn welcome_text() -> Seq<char> {
    "Hector editor --version"@ + VERSION@ + seq!['\r']
}

/// The number of spaces that center the welcome text in `width` columns.
pub open spec fn welcome_spaces(width: nat) -> nat {
    let text = welcome_text();
    let padding = (if width > text.len() {
        width - text.len()
    } else {
        0
    }) / 2;
    if padding > 0 {
        (padding - 1) as nat
    } else {
        0
    }
}

/// The welcome banner: a tilde, the centering spaces and the welcome text,
/// cut to `width` characters, and the line's end.
pub open spec fn welcome_line(width: nat) -> Seq<char> {
    let full = seq!['~'] + Seq::new(welcome_spaces(width), |i: int| ' ') + welcome_text();
    let keep = if width < full.len() {
        width
    } else {
        full.len()
    };
    full.take(keep as int) + seq!['\r', '\n']
}

/// The text of screen line `r`: the row `r + offset.y` where the buffer has
/// it, labelled with its line number counted from 1, `r + offset.y + 1`; the
/// welcome banner on line `height / 3` of an empty buffer; else the
/// placeholder.
pub open spec fn screen_line(rows: Seq<Seq<char>>, offset: Position, size: Size, r: nat) -> Seq<
    char,
> {
    if r + offset.y < rows.len() {
        row_line(
            rows[r + offset.y],
            (r + offset.y + 1) as nat,
            offset.x as nat,
            size.width as nat,
        )
    } else if rows.len() == 0 && r == size.height / 3 {
        welcome_line(size.width as nat)
    } else {
        placeholder_line()
    }
}

/// The text of the first `n` screen lines, top down.
pub open spec fn screen_lines(rows: Seq<Seq<char>>, offset: Position, size: Size, n: nat) -> Seq<
    char,
>
    decreases n,
{
    if n == 0 {
        Seq::empty()
    } else {
        screen_lines(rows, offset, size, (n - 1) as nat) + screen_line(
            rows,
            offset,
            size,
            (n - 1) as nat,
        )
    }
}

/// Where the hardware cursor goes: the cursor position plus the offset,
/// each sum saturating.
pub open spec fn hardware_cursor(cursor: Position, offset: Position) -> Position {
    Position { x: cursor.x.saturating_add(offset.x), y: cursor.y.saturating_add(offset.y) }
}

/// The output that clears the screen and homes the cursor.
pub open spec fn reset_text() -> Seq<char> {
    clear_sequence().push('\n') + goto_sequence(1, 1).push('\n')
}

/// The output of one frame, in the order in which the terminal gets it:
/// clear and home; then, unless the editor is quitting, the screen lines,
/// the hardware cursor's placement, and the sequence that shows the cursor.
pub open spec fn frame_text(
    rows: Seq<Seq<char>>,
    cursor: Position,
    offset: Position,
    size: Size,
    quitting: bool,
) -> Seq<char> {
    if quitting {
        reset_text()
    } else {
        let at = hardware_cursor(cursor, offset);
        reset_text() + screen_lines(rows, offset, size, size.height as nat) + goto_sequence(
            terminal_cell(at.x),
            terminal_cell(at.y),
        ).push('\n') + show_sequence().push('\n')
    }
}

/// The output on quitting: clear and home, then the farewell line.
pub open spec fn farewell_text() -> Seq<char> {
    reset_text() + seq!['G', 'o', 'o', 'd', 'B', 'y', 'e', '.', '\r', '\n']
}

/// A position as the state line shows it.
pub open spec fn position_text(position: Position) -> Seq<char> {
    "Position { x: "@ + decimal_digits(position.x as nat) + ", y: "@ + decimal_digits(
        position.y as nat,
    ) + " }"@
}

/// The line that describes the controller's state: cursor position, offset,
/// frame count and the terminal's size.
pub open spec fn state_text(cursor: Position, offset: Position, frames: u32, size: Size) -> Seq<
    char,
> {
    "cursor_position : "@ + position_text(cursor) + " offset : "@ + position_text(offset)
        + " frame_counter : "@ + decimal_digits(frames as nat) + " term_width: "@
        + decimal_digits(size.width as nat) + " , term_height: "@ + decimal_digits(
        size.height as nat,
    )
}

fn describe_position(position: &Position) -> (text: String)
    ensures
        text@ == position_text(*position),
{
    let mut text = String::from_str("Position { x: ");
    text.append(decimal(position.x as u64).as_str());
    text.append(", y: ");
    text.append(decimal(position.y as u64).as_str());
    text.append(" }");
    text
}

/// The controller's state. It owns the buffer, the cursor position and the
/// offset, which is the buffer coordinate shown at the screen's origin.
pub struct Editor {
    pub should_quit: bool,
    pub cursor_position: Position,
    pub document: Document,
    pub offset: Position,
    pub frame_counter: u32,
}

impl Editor {
    /// An editor on `document`, with cursor and offset at the origin.
    pub fn new(document: Document) -> (editor: Editor)
        ensures
            editor.document == document,
            !editor.should_quit,
            editor.cursor_position == (Position { x: 0, y: 0 }),
            editor.offset == (Position { x: 0, y: 0 }),
            editor.frame_counter == 0,
    {
        Editor {
            should_quit: false,
            cursor_position: Position { x: 0, y: 0 },
            document,
            offset: Position::default(),
            frame_counter: 0,
        }
    }

    /// The line that describes the state, for a log.
    pub fn print_state(&self, size: &Size) -> (text: String)
        ensures
            text@ == state_text(self.cursor_position, self.offset, self.frame_counter, *size),
    {
        let mut text = String::from_str("cursor_position : ");
        text.append(describe_position(&self.cursor_position).as_str());
        text.append(" offset : ");
        text.append(describe_position(&self.offset).as_str());
        text.append(" frame_counter : ");
        text.append(decimal(self.frame_counter as u64).as_str());
        text.append(" term_width: ");
        text.append(decimal(size.width as u64).as_str());
        text.append(" , term_height: ");
        text.append(decimal(size.height as u64).as_str());
        text
    }

    /// Moves the cursor, or scrolls, as `key` says on a terminal of `size`
    /// cells. Keys other than the eight navigation keys change nothing.
    pub fn move_cursor(&mut self, key: Key, size: &Size)
        ensures
            (final(self).cursor_position, final(self).offset) == move_spec(
                old(self).cursor_position,
                old(self).offset,
                key,
                *size,
            ),
            final(self).document == old(self).document,
            final(self).should_quit == old(self).should_quit,
            final(self).frame_counter == old(self).frame_counter,
    {
        let Position { mut x, mut y } = self.cursor_position;
        let height = size.height.saturating_sub(1) as usize;
        let width = size.width.saturating_sub(1) as usize;
        match key {
            Key::Up => {
                if y > 0 {
                    y = y.saturating_sub(1);
                } else {
                    self.offset.y = self.offset.y.saturating_sub(1);
                }
            },
            Key::Down => {
                if y < height {
                    y = y.saturating_add(1);
                } else {
                    self.offset.y = self.offset.y.saturating_add(1);
                }
            },
            Key::Left => x = x.saturating_sub(1),
            Key::Right => {
                if x < width {
                    x = x.saturating_add(1);
                }
            },
            Key::PageDown => y = height,
            Key::PageUp => y = 0,
            Key::Home => x = 0,
            Key::End => x = width,
            _ => (),
        };
        self.cursor_position = Position { x, y };
    }

    /// Handles one key: control-q asks to quit, a navigation key moves the
    /// cursor, any other key changes nothing.
    pub fn process_keypress(&mut self, key: Key, size: &Size)
        ensures
            final(self).should_quit == (old(self).should_quit || key == Key::Ctrl('q')),
            (final(self).cursor_position, final(self).offset) == move_spec(
                old(self).cursor_position,
                old(self).offset,
                key,
                *size,
            ),
            final(self).document == old(self).document,
            final(self).frame_counter == old(self).frame_counter,
    {
        match key {
            Key::Ctrl('q') => self.should_quit = true,
            Key::Up
            | Key::Down
            | Key::Left
            | Key::Right
            | Key::PageUp
            | Key::PageDown
            | Key::End
            | Key::Home => self.move_cursor(key, size),
            _ => (),
        }
    }

    /// Chooses the offset that shows the cursor in a window of `size` cells.
    pub fn scroll(&mut self, size: &Size)
        ensures
            final(self).offset == scroll_spec(old(self).cursor_position, old(self).offset, *size),
            final(self).cursor_position == old(self).cursor_position,
            final(self).document == old(self).document,
            final(self).should_quit == old(self).should_quit,
            final(self).frame_counter == old(self).frame_counter,
    {
        let Position { x, y } = self.cursor_position;
        let width = size.width as usize;
        let height = size.height as usize;
        if y < self.offset.y {
            self.offset.y = y;
        } else if y >= self.offset.y.saturating_add(height) {
            self.offset.y = y.saturating_sub(height).saturating_add(1);
        }
        if x < self.offset.x {
            self.offset.x = x;
        } else if x >= self.offset.x.saturating_add(width) {
            self.offset.x = x.saturating_sub(width).saturating_add(1);
        }
    }

    /// The line drawn for `row` under the label `row_num`, its line number
    /// counted from 1: the part of the row that the terminal's width shows
    /// from the horizontal offset on.
    pub fn draw_row(&self, row: &Row, row_num: usize, size: &Size) -> (line: String)
        ensures
            line@ == row_line(row@, row_num as nat, self.offset.x as nat, size.width as nat),
    {
        let start = self.offset.x;
        let end = self.offset.x.saturating_add(size.width as usize);
        let text = row.render(start, end);
        let mut line = decimal(row_num as u64);
        line.push('.');
        line.push(' ');
        line.append(text.as_str());
        line.push('\r');
        line.push('\n');
        line
    }

    /// The welcome banner for a terminal of `size` cells.
    pub fn draw_welcome_message(&self, size: &Size) -> (line: String)
        ensures
            line@ == welcome_line(size.width as nat),
    {
        let mut text = String::from_str("Hector editor --version");
        text.append(VERSION);
        text.push('\r');
        let width = size.width as usize;
        let len = text.as_str().unicode_len();
        let padding = (if width > len {
            width - len
        } else {
            0
        }) / 2;
        let spaces = if padding > 0 {
            padding - 1
        } else {
            0
        };
        let mut full = String::new();
        full.push('~');
        for i in 0..spaces
            invariant
                full@ == seq!['~'] + Seq::new(i as nat, |j: int| ' '),
        {
            full.push(' ');
        }
        full.append(text.as_str());
        let total = full.as_str().unicode_len();
        let keep = if width < total {
            width
        } else {
            total
        };
        let mut line = String::from_str(full.as_str().substring_char(0, keep));
        line.push('\r');
        line.push('\n');
        line
    }

    /// The text of the screen lines of a terminal of `size` cells, top down.
    pub fn draw_rows(&self, size: &Size) -> (out: String)
        ensures
            out@ == screen_lines(self.document@, self.offset, *size, size.height as nat),
    {
        let height = size.height;
        let count = self.document.len();
        let mut out = String::new();
        for terminal_row in 0..height
            invariant
                height == size.height,
                count == self.document@.len(),
                out@ == screen_lines(self.document@, self.offset, *size, terminal_row as nat),
        {
            let index = (terminal_row as usize).checked_add(self.offset.y);
            let found = match index {
                Some(i) => match self.document.row(i) {
                    Some(row) => Some((i, row)),
                    None => None,
                },
                None => None,
            };
            let line = match found {
                Some((i, row)) => self.draw_row(row, i + 1, size),
                None => {
                    if self.document.is_empty() && terminal_row == height / 3 {
                        self.draw_welcome_message(size)
                    } else {
                        let mut tilde = String::new();
                        tilde.push('~');
                        tilde.push('\r');
                        tilde.push('\n');
                        tilde
                    }
                },
            };
            out.append(line.as_str());
        }
        out
    }

    /// Counts the frame and gives its output: see [`frame_text`].
    pub fn refresh_screen(&mut self, size: &Size) -> (out: String)
        requires
            old(self).frame_counter < u32::MAX,
            !old(self).should_quit ==> {
                let at = hardware_cursor(old(self).cursor_position, old(self).offset);
                terminal_cell(at.x) != 0 || terminal_cell(at.y) != 0
            },
        ensures
            out@ == frame_text(
                old(self).document@,
                old(self).cursor_position,
                old(self).offset,
                *size,
                old(self).should_quit,
            ),
            final(self).frame_counter == old(self).frame_counter + 1,
            final(self).cursor_position == old(self).cursor_position,
            final(self).offset == old(self).offset,
            final(self).document == old(self).document,
            final(self).should_quit == old(self).should_quit,
    {
        let mut out = clear_screen();
        let home = cursor_position(&Position::default());
        out.append(home.as_str());
        self.frame_counter += 1;
        if self.should_quit {
            return out;
        }
        let rows = self.draw_rows(size);
        out.append(rows.as_str());
        let at = cursor_position(
            &Position {
                x: self.cursor_position.x.saturating_add(self.offset.x),
                y: self.cursor_position.y.saturating_add(self.offset.y),
            },
        );
        out.append(at.as_str());
        let show = cursor_show();
        out.append(show.as_str());
        out
    }

    /// Ends one turn of the run loop. Where the editor is quitting the
    /// result is the farewell output and nothing changes; else the frame is
    /// counted and there is no output.
    pub fn finish_turn(&mut self) -> (out: Option<String>)
        requires
            !old(self).should_quit ==> old(self).frame_counter < u32::MAX,
        ensures
            old(self).should_quit ==> out is Some && out->0@ == farewell_text() && *final(self)
                == *old(self),
            !old(self).should_quit ==> out is None && final(self).frame_counter == old(
                self,
            ).frame_counter + 1,
            final(self).cursor_position == old(self).cursor_position,
            final(self).offset == old(self).offset,
            final(self).document == old(self).document,
            final(self).should_quit == old(self).should_quit,
    {
        if self.should_quit {
            let mut out = clear_screen();
            let home = cursor_position(&Position::default());
            out.append(home.as_str());
            proof {
                reveal_strlit("GoodBye.\r\n");
            }
            out.append("GoodBye.\r\n");
            Some(out)
        } else {
            self.frame_counter += 1;
            None
        }
    }
}

/// At the right edge Right leaves the cursor where it is, and at the left
/// edge Left does; neither touches the offset.
pub proof fn lemma_horizontal_edges(cursor: Position, offset: Position, size: Size)
    ensures
        cursor.x == last_column(size) ==> move_spec(cursor, offset, Key::Right, size) == (
            cursor,
            offset,
        ),
        cursor.x == 0 ==> move_spec(cursor, offset, Key::Left, size) == (cursor, offset),
{
}

/// No key takes a cursor that is on the screen off it.
pub proof fn lemma_cursor_stays_on_screen(cursor: Position, offset: Position, key: Key, size: Size)
    requires
        cursor.x <= last_column(size),
        cursor.y <= last_line(size),
    ensures
        move_spec(cursor, offset, key, size).0.x <= last_column(size),
        move_spec(cursor, offset, key, size).0.y <= last_line(size),
{
}

/// On the last line Down leaves the cursor and scrolls the offset one line
/// down; on line 0 Up leaves the cursor and scrolls one line up, as far as
/// the offset can go.
pub proof fn lemma_vertical_edges(cursor: Position, offset: Position, size: Size)
    ensures
        cursor.y == last_line(size) ==> move_spec(cursor, offset, Key::Down, size) == (
            cursor,
            Position { x: offset.x, y: offset.y.saturating_add(1) },
        ),
        cursor.y == 0 ==> move_spec(cursor, offset, Key::Up, size) == (
            cursor,
            Position { x: offset.x, y: offset.y.saturating_sub(1) },
        ),
{
}

/// After scrolling, the cursor lies inside the window that starts at the
/// offset, on every axis along which the terminal has a cell.
pub proof fn lemma_scroll_shows_cursor(cursor: Position, offset: Position, size: Size)
    ensures
        size.width > 0 ==> scroll_spec(cursor, offset, size).x <= cursor.x < scroll_spec(
            cursor,
            offset,
            size,
        ).x + size.width,
        size.height > 0 ==> scroll_spec(cursor, offset, size).y <= cursor.y < scroll_spec(
            cursor,
            offset,
            size,
        ).y + size.height,
{
}

} // verus!
