//! One line of text, addressed by character cell.

use vstd::prelude::*;
use vstd::string::*;

verus! {

/// `String::push` of the standard library: the character is appended at the
/// end of the string and nothing else changes.
pub assume_specification[ String::push ](s: &mut String, c: char)
    ensures
        final(s)@ == old(s)@.push(c),
;

/// The smaller of two cell indices.
pub open spec fn min_cell(a: nat, b: nat) -> nat {
    if a < b {
        a
    } else {
        b
    }
}

/// The cells `[start, end)` of `content`, clipped to its length at both ends.
/// An empty or inverted range, or one that starts past the end, is empty.
pub open spec fn render_spec(content: Seq<char>, start: nat, end: nat) -> Seq<char> {
    let hi = min_cell(end, content.len());
    let lo = min_cell(start, hi);
    content.subrange(lo as int, hi as int)
}

/// `content` after `c` was put before cell `at`; unchanged where `at` lies
/// past the end of the line.
pub open spec fn insert_spec(content: Seq<char>, at: nat, c: char) -> Seq<char> {
    if at <= content.len() {
        content.insert(at as int, c)
    } else {
        content
    }
}

/// A line of the buffer. Its view is the sequence of its characters, one
/// per cell, without any line terminator.
pub struct Row {
    content: String,
}

impl View for Row {
    type V = Seq<char>;

    closed spec fn view(&self) -> Seq<char> {
        self.content@
    }
}

impl Default for Row {
    /// The empty line.
    fn default() -> (row: Row)
        ensures
            row@ == Seq::<char>::empty(),
    {
        Row { content: String::new() }
    }
}

impl Row {
    /// The row that holds `line` verbatim.
    pub fn from(line: &str) -> (row: Row)
        ensures
            row@ == line@,
    {
        Row { content: String::from_str(line) }
    }

    /// The row whose cells are `cells`, in order.
    pub fn from_chars(cells: &Vec<char>) -> (row: Row)
        ensures
            row@ == cells@,
    {
        let mut content = String::new();
        for i in 0..cells.len()
            invariant
                content@ == cells@.take(i as int),
        {
            content.push(cells[i]);
        }
        Row { content }
    }

    /// The number of cells of the row.
    pub fn len(&self) -> (n: usize)
        ensures
            n == self@.len(),
    {
        self.content.as_str().unicode_len()
    }

    /// Whether the row has no cell.
    pub fn is_empty(&self) -> (b: bool)
        ensures
            b == (self@.len() == 0),
    {
        self.len() == 0
    }

    /// The text of the row.
    pub fn as_str(&self) -> (s: &str)
        ensures
            s@ == self@,
    {
        self.content.as_str()
    }

    /// Puts `c` before cell `at`; `at == len` appends. An index past the end
    /// of the row is ignored and the row stays as it is.
    pub fn insert(&mut self, at: usize, c: char)
        ensures
            final(self)@ == insert_spec(old(self)@, at as nat, c),
    {
        let len = self.len();
        if at <= len {
            let mut next = String::from_str(self.content.as_str().substring_char(0, at));
            next.push(c);
            next.append(self.content.as_str().substring_char(at, len));
            self.content = next;
        }
    }

    /// The text of cells `[start, end)`, clipped to the row at both ends.
    /// The result is made of whole characters of the row.
    pub fn render(&self, start: usize, end: usize) -> (text: String)
        ensures
            text@ == render_spec(self@, start as nat, end as nat),
            text@.len() <= self@.len() <= usize::MAX,
            start <= end ==> text@.len() <= end - start,
    {
        let len = self.len();
        let hi = if end < len { end } else { len };
        let lo = if start < hi { start } else { hi };
        String::from_str(self.content.as_str().substring_char(lo, hi))
    }
}

/// Rendering is idempotent: the rendered text, rendered again from its
/// start over at least the width of the range, is itself.
pub proof fn lemma_render_idempotent(content: Seq<char>, start: nat, end: nat, width: nat)
    requires
        width >= end - start,
    ensures
        render_spec(render_spec(content, start, end), 0, width) == render_spec(
            content,
            start,
            end,
        ),
{
}

/// A rendered range never holds more cells than the range has, and every
/// cell of it is the row's cell at the same distance from `start`.
pub proof fn lemma_render_bounded(content: Seq<char>, start: nat, end: nat)
    ensures
        start <= end ==> render_spec(content, start, end).len() <= end - start,
        end < start ==> render_spec(content, start, end).len() == 0,
        forall|k: int|
            0 <= k < render_spec(content, start, end).len() ==> #[trigger] render_spec(
                content,
                start,
                end,
            )[k] == content[start + k],
{
}

/// Rendering the whole row gives the row.
pub proof fn lemma_render_full(content: Seq<char>)
    ensures
        render_spec(content, 0, content.len()) == content,
{
}

} // verus!
