//! One editable text field: its buffer and whether it is the active one.

use crate::area::{
    area_buffer, area_delete_char, area_input, area_insert_char, area_insert_str,
    area_move_cursor, area_new, area_to_cursor, area_to_lines, area_to_selection, area_typed,
    Area,
};
use crate::buffer::{
    in_order, lemma_inserted_wf, lemma_moved_wf, lemma_rubbed_wf, lemma_showing_wf, Buffer,
    Direction,
};
use crate::input::Input;
use crate::number::{is_decimal_literal, is_float};
use crate::text::{join, join_lines};
use vstd::prelude::*;

verus! {

/// How a field is to be drawn.
#[derive(Clone, Copy, Debug, PartialEq, Eq, Structural)]
pub enum Visual {
    /// The field has the focus: a plain border and a visible cursor.
    Active,
    /// The field does not have the focus: a dimmed border and no cursor.
    Inactive,
}

impl Visual {
    /// The visual state of a field that is active, or not.
    pub open spec fn of(active: bool) -> Visual {
        if active {
            Visual::Active
        } else {
            Visual::Inactive
        }
    }
}

/// A field as a plain value: what it shows and how it is drawn.
pub struct FieldView {
    pub buffer: Buffer,
    pub visual: Visual,
}

impl FieldView {
    /// The text of the field: its lines, joined by line feeds.
    pub open spec fn text(self) -> Seq<char> {
        join_lines(self.buffer.lines)
    }

    /// The text of the field is a decimal literal.
    pub open spec fn valid(self) -> bool {
        is_decimal_literal(self.text())
    }

    /// The field is the active one.
    pub open spec fn active(self) -> bool {
        self.visual == Visual::Active
    }

    /// The same buffer, drawn as an active field or as an inactive one.
    pub open spec fn with_active(self, active: bool) -> FieldView {
        FieldView { visual: Visual::of(active), ..self }
    }

    /// The same field with another buffer.
    pub open spec fn with_buffer(self, buffer: Buffer) -> FieldView {
        FieldView { buffer, ..self }
    }
}

/// An editable text field.
pub struct Field {
    area: Area,
    visual: Visual,
}

impl View for Field {
    type V = FieldView;

    closed spec fn view(&self) -> FieldView {
        FieldView { buffer: area_buffer(self.area), visual: self.visual }
    }
}

impl Field {
    /// The buffer is well formed.
    pub open spec fn wf(&self) -> bool {
        self@.buffer.wf()
    }

    /// What the key bindings of the text area make of the field and an
    /// event, and whether they modify its text.
    pub closed spec fn bound(&self, input: Input) -> (FieldView, bool) {
        let (area, modified) = area_typed(self.area, input);
        (FieldView { buffer: area_buffer(area), visual: self.visual }, modified)
    }

    /// The field once it has taken an event, and whether the event modified
    /// its text. An event that types a character puts it in place of the
    /// selection, which modifies the text; what any other event does is up
    /// to the key bindings of the text area.
    pub open spec fn typed(&self, input: Input) -> (FieldView, bool) {
        match input.typed_char() {
            Some(c) => (self@.with_buffer(self@.buffer.inserted(c)), true),
            None => self.bound(input),
        }
    }

    /// The key bindings leave a field drawn as it was.
    pub proof fn lemma_bound(&self, input: Input)
        ensures
            self.bound(input).0.visual == self@.visual,
    {
    }

    /// An empty field.
    pub fn new(active: bool) -> (field: Field)
        ensures
            field.wf(),
            field@ == (FieldView { buffer: Buffer::empty(), visual: Visual::of(active) }),
    {
        let visual = if active {
            Visual::Active
        } else {
            Visual::Inactive
        };
        Field { area: area_new(), visual }
    }

    /// Makes the field the active one, or an inactive one. The buffer stays
    /// as it is.
    pub fn set_active(&mut self, active: bool)
        ensures
            final(self)@ == old(self)@.with_active(active),
    {
        self.visual = if active {
            Visual::Active
        } else {
            Visual::Inactive
        };
    }

    /// Whether the field is the active one.
    pub fn is_active(&self) -> (active: bool)
        ensures
            active == self@.active(),
    {
        self.visual == Visual::Active
    }

    /// How the field is to be drawn.
    pub fn visual(&self) -> (visual: Visual)
        ensures
            visual == self@.visual,
    {
        self.visual
    }

    /// Hands an event to the field, and says whether it modified the text.
    pub fn input(&mut self, input: &Input) -> (modified: bool)
        ensures
            (final(self)@, modified) == old(self).typed(*input),
            final(self)@.visual == old(self)@.visual,
            old(self).wf() ==> final(self).wf(),
    {
        area_input(&mut self.area, input)
    }

    /// Types one character, which replaces the selection; a line feed or a
    /// carriage return breaks the line. The text always changes.
    pub fn insert_char(&mut self, c: char) -> (changed: bool)
        requires
            old(self).wf(),
        ensures
            final(self).wf(),
            final(self)@ == old(self)@.with_buffer(old(self)@.buffer.inserted(c)),
            changed,
    {
        proof {
            lemma_inserted_wf(self@.buffer, c);
        }
        area_insert_char(&mut self.area, c);
        true
    }

    /// Moves the cursor. The text never changes.
    pub fn move_cursor(&mut self, direction: Direction) -> (changed: bool)
        requires
            old(self).wf(),
        ensures
            final(self).wf(),
            final(self)@ == old(self)@.with_buffer(old(self)@.buffer.moved(direction)),
            !changed,
    {
        proof {
            lemma_moved_wf(self@.buffer, direction);
        }
        area_move_cursor(&mut self.area, direction);
        false
    }

    /// Deletes backwards from the cursor: the selection, if there is one,
    /// else the character before the cursor, else the line break before it.
    /// Says whether there was anything to delete.
    pub fn delete_char_before_cursor(&mut self) -> (deleted: bool)
        requires
            old(self).wf(),
        ensures
            final(self).wf(),
            final(self)@ == old(self)@.with_buffer(old(self)@.buffer.rubbed()),
            deleted == old(self)@.buffer.can_rub(),
    {
        proof {
            lemma_rubbed_wf(self@.buffer);
        }
        area_delete_char(&mut self.area)
    }

    /// Replaces all that the field holds by `text`, and puts the cursor
    /// behind it.
    pub fn replace_all(&mut self, text: &str)
        ensures
            final(self).wf(),
            final(self)@ == old(self)@.with_buffer(Buffer::showing(text@)),
    {
        proof {
            lemma_showing_wf(text@);
        }
        self.area = area_new();
        area_insert_str(&mut self.area, text);
    }

    /// The lines of the field.
    pub fn lines(&self) -> (lines: Vec<String>)
        ensures
            lines.deep_view() == self@.buffer.lines,
    {
        area_to_lines(&self.area)
    }

    /// The text of the field: its lines, joined by line feeds.
    pub fn text(&self) -> (text: String)
        ensures
            text@ == self@.text(),
    {
        let lines = area_to_lines(&self.area);
        join(lines.as_slice())
    }

    /// Whether the text of the field is a decimal literal.
    pub fn is_valid(&self) -> (valid: bool)
        ensures
            valid == self@.valid(),
    {
        let lines = area_to_lines(&self.area);
        is_float(lines.as_slice())
    }

    /// The row and the column of the cursor.
    pub fn cursor(&self) -> (cursor: (usize, usize))
        ensures
            (cursor.0 as int, cursor.1 as int) == self@.buffer.cursor,
    {
        area_to_cursor(&self.area)
    }

    /// The anchor and the cursor, the earlier of the two first, while a
    /// selection is under way.
    pub fn selection_range(&self) -> (range: Option<((usize, usize), (usize, usize))>)
        ensures
            range is Some == self@.buffer.anchor is Some,
            range matches Some((from, to)) ==> ((from.0 as int, from.1 as int), (
                to.0 as int,
                to.1 as int,
            )) == in_order(self@.buffer.anchor->0, self@.buffer.cursor),
    {
        area_to_selection(&self.area)
    }
}

} // verus!
