//! The text area that holds the buffer of a field: a
//! `tui_textarea::TextArea`, and what the library takes for granted of it.
//!
//! Nothing in this module is proved. Each function makes one call into the
//! text area, and its contract says over [`Buffer`] what that call does to
//! the lines, the cursor and the selection, as the source of the text area
//! has it. The rest of the library is proved from these contracts.
//!
//! The library never draws a text area. To the text area that means a
//! viewport without rows and columns: the keys that scroll it, page up, page
//! down and the mouse wheel, put the cursor at the start of a line.

use crate::buffer::{in_order, Buffer, Direction};
use crate::input::{Input, Key};
use tui_textarea::Key::{
    Backspace, Char, Delete, Down, End, Enter, Esc, Home, Left, MouseScrollDown, MouseScrollUp,
    Null, PageDown, PageUp, Right, Tab, Up, F,
};
use tui_textarea::{CursorMove, TextArea};
use vstd::prelude::*;

verus! {

/// The text area of one field. What is inside is hidden from the verifier,
/// which knows of it what [`area_lines`], [`area_cursor`] and
/// [`area_anchor`] say.
#[verifier::external_body]
pub struct Area {
    inner: TextArea<'static>,
}

/// The lines that a text area holds, top to bottom, each as its characters.
pub uninterp spec fn area_lines(area: Area) -> Seq<Seq<char>>;

/// The row and the column of the cursor of a text area, in characters.
pub uninterp spec fn area_cursor(area: Area) -> (int, int);

/// The place where the selection of a text area began, if one is under way.
pub uninterp spec fn area_anchor(area: Area) -> Option<(int, int)>;

/// The text area that `TextArea::input` makes of a text area and an event,
/// and whether it reports that the event modified the text. The key bindings
/// of the text area decide both.
pub uninterp spec fn area_typed(area: Area, input: Input) -> (Area, bool);

/// What a text area shows.
pub open spec fn area_buffer(area: Area) -> Buffer {
    Buffer { lines: area_lines(area), cursor: area_cursor(area), anchor: area_anchor(area) }
}

/// What a text area shows once it has taken an event, and whether the event
/// modified the text. An event that types a character puts it in place of the
/// selection; what any other event does is up to the text area.
pub open spec fn typed_buffer(area: Area, input: Input) -> (Buffer, bool) {
    match input.typed_char() {
        Some(c) => (area_buffer(area).inserted(c), true),
        None => (area_buffer(area_typed(area, input).0), area_typed(area, input).1),
    }
}

/// `TextArea::default`: a text area with one empty line, the cursor at its
/// start and no selection.
#[verifier::external_body]
pub(crate) fn area_new() -> (area: Area)
    ensures
        area_buffer(area) == Buffer::empty(),
{
    Area { inner: TextArea::default() }
}

/// `TextArea::lines`: the lines of the text area, copied.
#[verifier::external_body]
pub(crate) fn area_to_lines(area: &Area) -> (lines: Vec<String>)
    ensures
        lines.deep_view() == area_lines(*area),
{
    area.inner.lines().to_vec()
}

/// `TextArea::cursor`: the row and the column of the cursor.
#[verifier::external_body]
pub(crate) fn area_to_cursor(area: &Area) -> (cursor: (usize, usize))
    ensures
        (cursor.0 as int, cursor.1 as int) == area_cursor(*area),
{
    area.inner.cursor()
}

/// `TextArea::selection_range`: the anchor and the cursor, the earlier of the
/// two first, while a selection is under way.
#[verifier::external_body]
pub(crate) fn area_to_selection(area: &Area) -> (range: Option<((usize, usize), (usize, usize))>)
    ensures
        range is Some == area_anchor(*area) is Some,
        range matches Some((from, to)) ==> ((from.0 as int, from.1 as int), (to.0 as int, to.1 as int))
            == in_order(area_anchor(*area)->0, area_cursor(*area)),
{
    area.inner.selection_range()
}

/// `TextArea::input`: the text area takes the event by its own key bindings,
/// and says whether that modified the text. What it becomes has the name
/// [`area_typed`]. Claimed of it: a character key without Ctrl and Alt types
/// its character and modifies the text ([`typed_buffer`]), and after any
/// event the cursor and the anchor are in the text if they were.
#[verifier::external_body]
pub(crate) fn area_input(area: &mut Area, input: &Input) -> (modified: bool)
    ensures
        (*final(area), modified) == area_typed(*old(area), *input),
        (area_buffer(*final(area)), modified) == typed_buffer(*old(area), *input),
        area_buffer(*old(area)).wf() ==> area_buffer(*final(area)).wf(),
{
    let key = match input.key {
        Key::Char(c) => Char(c),
        Key::F(n) => F(n),
        Key::Backspace => Backspace, Key::Enter => Enter, Key::Tab => Tab,
        Key::Left => Left, Key::Right => Right, Key::Up => Up, Key::Down => Down,
        Key::Delete => Delete, Key::Home => Home, Key::End => End, Key::Esc => Esc,
        Key::PageUp => PageUp, Key::PageDown => PageDown, Key::Null => Null,
        Key::MouseScrollDown => MouseScrollDown, Key::MouseScrollUp => MouseScrollUp,
        Key::Copy => tui_textarea::Key::Copy, Key::Cut => tui_textarea::Key::Cut,
        Key::Paste => tui_textarea::Key::Paste,
    };
    area.inner.input(tui_textarea::Input { key, ctrl: input.ctrl, alt: input.alt, shift: input.shift })
}

/// `TextArea::insert_char`: the selected range is deleted, and the character
/// goes in at the cursor, which moves behind it. A line feed and a carriage
/// return break the line at the cursor instead.
#[verifier::external_body]
pub(crate) fn area_insert_char(area: &mut Area, c: char)
    requires
        area_buffer(*old(area)).wf(),
    ensures
        area_buffer(*final(area)) == area_buffer(*old(area)).inserted(c),
{
    area.inner.insert_char(c)
}

/// `TextArea::move_cursor`, for the eight moves of [`Direction`]: the cursor
/// goes where `CursorMove::next_cursor` sends it, or stays where that gives
/// no place. The text stays, and so does the anchor: a selection that is
/// under way goes on, and none begins.
#[verifier::external_body]
pub(crate) fn area_move_cursor(area: &mut Area, direction: Direction)
    requires
        area_buffer(*old(area)).wf(),
    ensures
        area_buffer(*final(area)) == area_buffer(*old(area)).moved(direction),
{
    area.inner.move_cursor(
        match direction {
            Direction::Forward => CursorMove::Forward,
            Direction::Back => CursorMove::Back,
            Direction::Up => CursorMove::Up,
            Direction::Down => CursorMove::Down,
            Direction::Head => CursorMove::Head,
            Direction::End => CursorMove::End,
            Direction::Top => CursorMove::Top,
            Direction::Bottom => CursorMove::Bottom,
        },
    )
}

/// `TextArea::delete_char`: deletes the selected range, if there is one;
/// else the character before the cursor; else, at the start of a line, the
/// line break before it. The selection is over in any case. The result says
/// whether anything was deleted.
#[verifier::external_body]
pub(crate) fn area_delete_char(area: &mut Area) -> (deleted: bool)
    requires
        area_buffer(*old(area)).wf(),
    ensures
        area_buffer(*final(area)) == area_buffer(*old(area)).rubbed(),
        deleted == area_buffer(*old(area)).can_rub(),
{
    area.inner.delete_char()
}

/// `TextArea::insert_str`, on a text area that shows the empty buffer: it
/// then shows the lines of `text`, which it splits at line feeds, dropping
/// the carriage return that ends a line, with the cursor behind the last of
/// them. The result says whether anything was inserted.
#[verifier::external_body]
pub(crate) fn area_insert_str(area: &mut Area, text: &str) -> (inserted: bool)
    requires
        area_buffer(*old(area)) == Buffer::empty(),
    ensures
        area_buffer(*final(area)) == Buffer::showing(text@),
        inserted == (Buffer::showing(text@) != Buffer::empty()),
{
    area.inner.insert_str(text)
}

} // verus!
