//! The text buffer: an ordered sequence of rows with an optional file name.

use crate::editor::Position;
use crate::row::{insert_spec, Row};
use vstd::prelude::*;
use vstd::string::*;

verus! {

/// The number of line feeds in `text`.
pub open spec fn count_line_feeds(text: Seq<char>) -> nat
    decreases text.len(),
{
    if text.len() == 0 {
        0
    } else if text.last() == '\n' {
        count_line_feeds(text.drop_last()) + 1
    } else {
        count_line_feeds(text.drop_last())
    }
}

/// A line without the carriage return that stood before its line feed.
pub open spec fn strip_carriage_return(line: Seq<char>) -> Seq<char> {
    if line.len() > 0 && line.last() == '\r' {
        line.drop_last()
    } else {
        line
    }
}

/// What follows the last line feed of `text`: the line that no terminator
/// has closed yet.
pub open spec fn open_line(text: Seq<char>) -> Seq<char>
    decreases text.len(),
{
    if text.len() == 0 || text.last() == '\n' {
        Seq::empty()
    } else {
        open_line(text.drop_last()).push(text.last())
    }
}

/// The lines of `text` that a line feed closes, in order, each without its
/// terminator (a line feed, or a carriage return and a line feed).
pub open spec fn closed_lines(text: Seq<char>) -> Seq<Seq<char>>
    decreases text.len(),
{
    if text.len() == 0 {
        Seq::empty()
    } else if text.last() == '\n' {
        closed_lines(text.drop_last()).push(strip_carriage_return(open_line(text.drop_last())))
    } else {
        closed_lines(text.drop_last())
    }
}

/// The lines of `text`: those that a terminator closes, then the rest of the
/// text as a last line where it is not empty.
pub open spec fn split_lines(text: Seq<char>) -> Seq<Seq<char>> {
    if open_line(text).len() == 0 {
        closed_lines(text)
    } else {
        closed_lines(text).push(open_line(text))
    }
}

/// The rows of a buffer after `c` was inserted at column `x` of line `y`.
/// Line `len` is the line after the last one: it is created and holds `c`
/// alone, whatever `x` is. A line further down is out of range and nothing
/// changes.
pub open spec fn document_insert_spec(rows: Seq<Seq<char>>, x: nat, y: nat, c: char) -> Seq<
    Seq<char>,
> {
    if y == rows.len() {
        rows.push(seq![c])
    } else if y < rows.len() {
        rows.update(y as int, insert_spec(rows[y as int], x, c))
    } else {
        rows
    }
}

/// The name shown for a buffer that has no file name.
pub open spec fn default_buffer_name() -> Seq<char> {
    seq!['D', 'e', 'f', 'a', 'u', 'l', 't', '-', 'B', 'u', 'f', 'f', 'e', 'r']
}

/// The text buffer. Its view is the sequence of its lines, each the
/// sequence of its characters; line `i` of the view is row `i`.
pub struct Document {
    rows: Vec<Row>,
    filename: Option<String>,
}

impl View for Document {
    type V = Seq<Seq<char>>;

    closed spec fn view(&self) -> Seq<Seq<char>> {
        self.rows@.map_values(|row: Row| row@)
    }
}

impl Default for Document {
    /// The empty buffer without a file name.
    fn default() -> (doc: Document)
        ensures
            doc@ == Seq::<Seq<char>>::empty(),
            doc.file_name() is None,
    {
        Document { rows: Vec::new(), filename: None }
    }
}

impl Document {
    /// The file name of the buffer, where it has one.
    pub closed spec fn file_name(&self) -> Option<Seq<char>> {
        match self.filename {
            Some(name) => Some(name@),
            None => None,
        }
    }

    /// The buffer of the file `filename` whose whole text is `contents`: one
    /// row per line, in order, without the terminators. An empty text gives
    /// a buffer without rows.
    pub fn from_text(filename: &str, contents: &str) -> (doc: Document)
        ensures
            doc@ == split_lines(contents@),
            doc.file_name() == Some(filename@),
    {
        broadcast use axiom_spec_iter;

        let mut rows: Vec<Row> = Vec::new();
        let mut line: Vec<char> = Vec::new();
        for c in it: contents.chars()
            invariant
                it.seq() == contents@,
                rows@.map_values(|row: Row| row@) == closed_lines(contents@.take(it.index())),
                line@ == open_line(contents@.take(it.index())),
        {
            assert(contents@.take(it.index() + 1).drop_last() =~= contents@.take(it.index()));
            if c == '\n' {
                let n = line.len();
                if n > 0 && line[n - 1] == '\r' {
                    line.pop();
                }
                let row = Row::from_chars(&line);
                rows.push(row);
                line = Vec::new();
            } else {
                line.push(c);
            }
        }
        assert(contents@.take(contents@.len() as int) =~= contents@);
        if line.len() > 0 {
            let row = Row::from_chars(&line);
            rows.push(row);
        }
        Document { rows, filename: Some(String::from_str(filename)) }
    }

    /// The buffer to start with after an attempt to read the file
    /// `filename`: the buffer of its text where the read gave one, and the
    /// empty buffer without a name where it failed.
    pub fn from_read(filename: &str, read: Option<&str>) -> (doc: Document)
        ensures
            match read {
                Some(contents) => doc@ == split_lines(contents@) && doc.file_name() == Some(
                    filename@,
                ),
                None => doc@ == Seq::<Seq<char>>::empty() && doc.file_name() is None,
            },
    {
        match read {
            Some(contents) => Document::from_text(filename, contents),
            None => Document::default(),
        }
    }

    /// The row at line `index`, or nothing where the buffer has no such line.
    pub fn row(&self, index: usize) -> (found: Option<&Row>)
        ensures
            index < self@.len() ==> found is Some && found->0@ == self@[index as int],
            index >= self@.len() ==> found is None,
    {
        if index < self.rows.len() {
            Some(&self.rows[index])
        } else {
            None
        }
    }

    /// Whether the buffer has no row.
    pub fn is_empty(&self) -> (b: bool)
        ensures
            b == (self@.len() == 0),
    {
        self.rows.len() == 0
    }

    /// The number of rows.
    pub fn len(&self) -> (n: usize)
        ensures
            n == self@.len(),
    {
        self.rows.len()
    }

    /// The name to show for the buffer: its file name, or `Default-Buffer`
    /// where it has none.
    pub fn get_file_name(&self) -> (name: String)
        ensures
            name@ == match self.file_name() {
                Some(file) => file,
                None => default_buffer_name(),
            },
    {
        match &self.filename {
            Some(name) => name.clone(),
            None => {
                proof {
                    reveal_strlit("Default-Buffer");
                }
                String::from_str("Default-Buffer")
            },
        }
    }

    /// Inserts `c` at column `at.x` of line `at.y`. At the line after the
    /// last one a new row is appended that holds `c` alone. A line further
    /// down, or a column past the end of its row, is ignored without notice.
    pub fn insert(&mut self, at: &Position, c: char)
        ensures
            final(self)@ == document_insert_spec(old(self)@, at.x as nat, at.y as nat, c),
            final(self).file_name() == old(self).file_name(),
    {
        if at.y == self.len() {
            let mut row = Row::default();
            row.insert(0, c);
            assert(row@ =~= seq![c]);
            self.rows.push(row);
        } else if at.y < self.len() {
            self.rows[at.y].insert(at.x, c);
        }
    }
}

/// Whether `line` holds no line feed.
pub open spec fn has_no_line_feed(line: Seq<char>) -> bool {
    forall|j: int| 0 <= j < line.len() ==> line[j] != '\n'
}

proof fn lemma_open_line_has_no_line_feed(text: Seq<char>)
    ensures
        has_no_line_feed(open_line(text)),
        has_no_line_feed(strip_carriage_return(open_line(text))),
    decreases text.len(),
{
    if text.len() > 0 && text.last() != '\n' {
        lemma_open_line_has_no_line_feed(text.drop_last());
    }
}

proof fn lemma_closed_lines_have_no_line_feed(text: Seq<char>)
    ensures
        forall|i: int|
            0 <= i < closed_lines(text).len() ==> has_no_line_feed(#[trigger] closed_lines(text)[i]),
    decreases text.len(),
{
    if text.len() > 0 {
        lemma_closed_lines_have_no_line_feed(text.drop_last());
        lemma_open_line_has_no_line_feed(text.drop_last());
        assert forall|i: int| 0 <= i < closed_lines(text).len() implies has_no_line_feed(
            #[trigger] closed_lines(text)[i],
        ) by {
            if i < closed_lines(text.drop_last()).len() {
                assert(closed_lines(text)[i] == closed_lines(text.drop_last())[i]);
            }
        }
    }
}

/// No line of a text holds a line feed: every terminator is consumed.
pub proof fn lemma_lines_have_no_line_feed(text: Seq<char>)
    ensures
        forall|i: int|
            0 <= i < split_lines(text).len() ==> has_no_line_feed(#[trigger] split_lines(text)[i]),
{
    lemma_closed_lines_have_no_line_feed(text);
    lemma_open_line_has_no_line_feed(text);
}

/// Every line feed closes exactly one line.
pub proof fn lemma_closed_lines_len(text: Seq<char>)
    ensures
        closed_lines(text).len() == count_line_feeds(text),
    decreases text.len(),
{
    if text.len() > 0 {
        lemma_closed_lines_len(text.drop_last());
    }
}

/// A text that is empty or ends with a line feed has as many lines as it
/// has line feeds; the empty text has none.
pub proof fn lemma_terminated_text_lines(text: Seq<char>)
    requires
        text.len() == 0 || text.last() == '\n',
    ensures
        split_lines(text).len() == count_line_feeds(text),
        text.len() == 0 ==> split_lines(text).len() == 0,
{
    lemma_closed_lines_len(text);
}

/// Inserting at the line after the last one adds exactly one row, which
/// holds the inserted character alone; the rows before it stay as they are.
pub proof fn lemma_insert_new_line(rows: Seq<Seq<char>>, x: nat, c: char)
    ensures
        document_insert_spec(rows, x, rows.len(), c).len() == rows.len() + 1,
        document_insert_spec(rows, x, rows.len(), c).last() == seq![c],
        document_insert_spec(rows, x, rows.len(), c).drop_last() == rows,
{
}

/// Inserting inside an existing row makes that row one cell longer, keeps
/// the number of rows, and leaves every other row as it was.
pub proof fn lemma_insert_in_row(rows: Seq<Seq<char>>, x: nat, y: nat, c: char)
    requires
        y < rows.len(),
        x <= rows[y as int].len(),
    ensures
        document_insert_spec(rows, x, y, c).len() == rows.len(),
        document_insert_spec(rows, x, y, c)[y as int].len() == rows[y as int].len() + 1,
        document_insert_spec(rows, x, y, c)[y as int] == rows[y as int].insert(x as int, c),
        forall|i: int|
            0 <= i < rows.len() && i != y ==> #[trigger] document_insert_spec(rows, x, y, c)[i]
                == rows[i],
{
}

} // verus!
