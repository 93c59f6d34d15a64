//! What a text field shows, as plain values, and how editing changes it.

use crate::text::{lemma_split_lines_len, split_lines};
use vstd::prelude::*;

verus! {

/// A place in a text: a row and a column in it, counted in characters from 0.
pub type Place = (int, int);

/// A move of the cursor.
#[derive(Clone, Copy, Debug, PartialEq, Eq, Structural)]
pub enum Direction {
    /// One character on.
    Forward,
    /// One character back.
    Back,
    /// One line up.
    Up,
    /// One line down.
    Down,
    /// To the start of the line.
    Head,
    /// To the end of the line.
    End,
    /// To the first line.
    Top,
    /// To the last line.
    Bottom,
}

/// What a text area shows: its lines, its cursor, and the place where the
/// selection began, if one is under way.
pub struct Buffer {
    pub lines: Seq<Seq<char>>,
    pub cursor: Place,
    pub anchor: Option<Place>,
}

impl Buffer {
    /// One empty line, with the cursor at its start and nothing selected.
    pub open spec fn empty() -> Buffer {
        Buffer { lines: seq![Seq::<char>::empty()], cursor: (0, 0), anchor: None }
    }

    /// The lines of `text` with the cursor behind the last character and
    /// nothing selected.
    pub open spec fn showing(text: Seq<char>) -> Buffer {
        let lines = split_lines(text);
        Buffer { lines, cursor: (lines.len() - 1, lines.last().len() as int), anchor: None }
    }

    /// `place` is at a character of the text or at the end of a line.
    pub open spec fn holds(self, place: Place) -> bool {
        0 <= place.0 < self.lines.len() && 0 <= place.1 <= self.lines[place.0].len()
    }

    /// There is a line, and the cursor and the anchor are in the text.
    pub open spec fn wf(self) -> bool {
        &&& self.lines.len() >= 1
        &&& self.holds(self.cursor)
        &&& self.anchor matches Some(a) ==> self.holds(a)
    }

    /// The selected range, from its first place up to the place behind it:
    /// what lies between the anchor and the cursor, if that is anything.
    pub open spec fn selection(self) -> Option<(Place, Place)> {
        match self.anchor {
            Some(a) => if comes_before(a, self.cursor) {
                Some((a, self.cursor))
            } else if comes_before(self.cursor, a) {
                Some((self.cursor, a))
            } else {
                None
            },
            None => None,
        }
    }

    /// The buffer once the selected range is deleted and the selection is
    /// over: the cursor stands where the range began.
    pub open spec fn without_selection(self) -> Buffer {
        match self.selection() {
            Some((from, to)) => Buffer {
                lines: self.lines.take(from.0) + seq![
                    self.lines[from.0].take(from.1) + self.lines[to.0].skip(to.1),
                ] + self.lines.skip(to.0 + 1),
                cursor: from,
                anchor: None,
            },
            None => Buffer { anchor: None, ..self },
        }
    }

    /// The buffer once `c`, which is no line break, is put in: it replaces
    /// the selection and the cursor moves behind it.
    pub open spec fn with_char(self, c: char) -> Buffer {
        let b = self.without_selection();
        let (row, col) = b.cursor;
        Buffer { lines: b.lines.update(row, b.lines[row].insert(col, c)), cursor: (row, col + 1), ..b }
    }

    /// The buffer once the line is broken at the cursor: the break replaces
    /// the selection, and the cursor moves to the start of the new line.
    pub open spec fn with_line_break(self) -> Buffer {
        let b = self.without_selection();
        let (row, col) = b.cursor;
        Buffer {
            lines: b.lines.take(row) + seq![b.lines[row].take(col), b.lines[row].skip(col)]
                + b.lines.skip(row + 1),
            cursor: (row + 1, 0),
            ..b
        }
    }

    /// The buffer once `c` is typed: a line feed or a carriage return breaks
    /// the line, any other character is put in.
    pub open spec fn inserted(self, c: char) -> Buffer {
        if c == '\n' || c == '\r' {
            self.with_line_break()
        } else {
            self.with_char(c)
        }
    }

    /// The place that a move of the cursor leads to. Forward and back go
    /// over the ends of lines; up, down, top and bottom keep the column as
    /// far as the line reaches; a move that has nowhere to go stays.
    pub open spec fn place_after(self, direction: Direction) -> Place {
        let (row, col) = self.cursor;
        let last = self.lines.len() - 1;
        match direction {
            Direction::Forward => if col < self.lines[row].len() {
                (row, col + 1)
            } else if row < last {
                (row + 1, 0)
            } else {
                (row, col)
            },
            Direction::Back => if col > 0 {
                (row, col - 1)
            } else if row > 0 {
                (row - 1, self.lines[row - 1].len() as int)
            } else {
                (row, col)
            },
            Direction::Up => if row > 0 {
                self.fitted(row - 1, col)
            } else {
                (row, col)
            },
            Direction::Down => if row < last {
                self.fitted(row + 1, col)
            } else {
                (row, col)
            },
            Direction::Head => (row, 0),
            Direction::End => (row, self.lines[row].len() as int),
            Direction::Top => self.fitted(0, col),
            Direction::Bottom => self.fitted(last, col),
        }
    }

    /// The place in `row` at `col`, or at the end of the row where it is
    /// shorter.
    pub open spec fn fitted(self, row: int, col: int) -> Place {
        if col <= self.lines[row].len() {
            (row, col)
        } else {
            (row, self.lines[row].len() as int)
        }
    }

    /// The buffer once the cursor has moved: the text and the anchor stay.
    pub open spec fn moved(self, direction: Direction) -> Buffer {
        Buffer { cursor: self.place_after(direction), ..self }
    }

    /// Whether deleting backwards finds anything to delete.
    pub open spec fn can_rub(self) -> bool {
        self.selection() is Some || self.cursor.0 > 0 || self.cursor.1 > 0
    }

    /// The buffer once it is deleted backwards: without the selection, if
    /// there is one; else without the character before the cursor; at the
    /// start of a line, with that line joined to the one above.
    pub open spec fn rubbed(self) -> Buffer {
        let (row, col) = self.cursor;
        if self.selection() is Some {
            self.without_selection()
        } else if col > 0 {
            Buffer {
                lines: self.lines.update(row, self.lines[row].remove(col - 1)),
                cursor: (row, col - 1),
                anchor: None,
            }
        } else if row > 0 {
            Buffer {
                lines: self.lines.take(row - 1) + seq![self.lines[row - 1] + self.lines[row]]
                    + self.lines.skip(row + 1),
                cursor: (row - 1, self.lines[row - 1].len() as int),
                anchor: None,
            }
        } else {
            Buffer { anchor: None, ..self }
        }
    }
}

/// The two places, the earlier first.
pub open spec fn in_order(p: Place, q: Place) -> (Place, Place) {
    if comes_before(q, p) {
        (q, p)
    } else {
        (p, q)
    }
}

/// `p` lies before `q` in reading order.
pub open spec fn comes_before(p: Place, q: Place) -> bool {
    p.0 < q.0 || (p.0 == q.0 && p.1 < q.1)
}

/// The buffer that shows a text is well formed.
pub proof fn lemma_showing_wf(text: Seq<char>)
    ensures
        Buffer::showing(text).wf(),
{
    lemma_split_lines_len(text);
}

/// Deleting the selection keeps a buffer well formed, and changes nothing
/// but the anchor where nothing is selected.
pub proof fn lemma_without_selection_wf(b: Buffer)
    requires
        b.wf(),
    ensures
        b.without_selection().wf(),
        b.selection() is None ==> b.without_selection().lines == b.lines
            && b.without_selection().cursor == b.cursor,
{
    if let Some((from, to)) = b.selection() {
        let after = b.without_selection();
        assert(after.lines[from.0] == b.lines[from.0].take(from.1) + b.lines[to.0].skip(to.1));
    }
}

/// Typing a character keeps a buffer well formed.
pub proof fn lemma_inserted_wf(b: Buffer, c: char)
    requires
        b.wf(),
    ensures
        b.inserted(c).wf(),
{
    lemma_without_selection_wf(b);
}

/// Moving the cursor keeps a buffer well formed.
pub proof fn lemma_moved_wf(b: Buffer, direction: Direction)
    requires
        b.wf(),
    ensures
        b.moved(direction).wf(),
{
}

/// Deleting backwards keeps a buffer well formed.
pub proof fn lemma_rubbed_wf(b: Buffer)
    requires
        b.wf(),
    ensures
        b.rubbed().wf(),
{
    lemma_without_selection_wf(b);
    let (row, col) = b.cursor;
    if b.selection() is None && col == 0 && row > 0 {
        let after = b.rubbed();
        assert(after.lines[row - 1] == b.lines[row - 1] + b.lines[row]);
    }
}

/// Deleting backwards takes a character that was just typed away again: what
/// is left is the buffer as it was before, without its selection.
pub proof fn lemma_rub_undoes_insert(b: Buffer, c: char)
    requires
        b.wf(),
    ensures
        b.inserted(c).can_rub(),
        b.inserted(c).rubbed() == b.without_selection(),
{
    lemma_without_selection_wf(b);
    let base = b.without_selection();
    let typed = b.inserted(c);
    let (row, col) = base.cursor;
    assert(typed.selection() is None);
    if c == '\n' || c == '\r' {
        assert(typed.lines[row] + typed.lines[row + 1] =~= base.lines[row]);
        assert(typed.lines.take(row) + seq![base.lines[row]] + typed.lines.skip(row + 2)
            =~= base.lines);
    } else {
        assert(base.lines[row].insert(col, c).remove(col) =~= base.lines[row]);
        assert(typed.lines.update(row, typed.lines[row].remove(col)) =~= base.lines);
    }
}

} // verus!
