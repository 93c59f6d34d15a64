//! The three fields and the focus: the whole state of the calculator, and
//! what each event does to it.

use crate::buffer::{lemma_rub_undoes_insert, lemma_without_selection_wf, Buffer};
use crate::field::{Field, FieldView, Visual};
use crate::focus::{index_after, index_before, net, Focus, Move, Role};
use crate::input::{Command, Input};
use crate::report::{debug_lines, debug_text, report_line, report_text, Region, FIELD_ROWS};
use vstd::prelude::*;

verus! {

/// What the event loop is to do once an event is handled.
#[derive(Clone, Copy, Debug, PartialEq, Eq, Structural)]
pub enum Step {
    /// Leave the loop and report.
    Quit,
    /// Wait for the next event.
    Continue,
    /// Work out the percent change from the two input fields, which both hold
    /// a number, show it, and wait for the next event.
    Derive,
}

/// The state as a plain value.
pub struct AppView {
    pub initial: FieldView,
    pub final_: FieldView,
    pub percent_change: FieldView,
    /// The index of the field that has the focus.
    pub focus: int,
}

impl AppView {
    /// Three empty fields, the first of them active.
    pub open spec fn start() -> AppView {
        AppView {
            initial: FieldView { buffer: Buffer::empty(), visual: Visual::Active },
            final_: FieldView { buffer: Buffer::empty(), visual: Visual::Inactive },
            percent_change: FieldView { buffer: Buffer::empty(), visual: Visual::Inactive },
            focus: 0,
        }
    }

    /// The field at an index in focus order.
    pub open spec fn field(self, i: int) -> FieldView {
        if i == 0 {
            self.initial
        } else if i == 1 {
            self.final_
        } else {
            self.percent_change
        }
    }

    /// The state with `field` at index `i`.
    pub open spec fn with_field(self, i: int, field: FieldView) -> AppView {
        if i == 0 {
            AppView { initial: field, ..self }
        } else if i == 1 {
            AppView { final_: field, ..self }
        } else {
            AppView { percent_change: field, ..self }
        }
    }

    /// The field that has the focus.
    pub open spec fn active(self) -> FieldView {
        self.field(self.focus)
    }

    /// How many of the fields are active.
    pub open spec fn active_fields(self) -> int {
        (if self.initial.active() {
            1int
        } else {
            0
        }) + (if self.final_.active() {
            1int
        } else {
            0
        }) + (if self.percent_change.active() {
            1int
        } else {
            0
        })
    }

    /// The focus is on one of the three fields, that field and no other is
    /// active, and every buffer is well formed.
    pub open spec fn wf(self) -> bool {
        &&& 0 <= self.focus < 3
        &&& self.initial.active() <==> self.focus == 0
        &&& self.final_.active() <==> self.focus == 1
        &&& self.percent_change.active() <==> self.focus == 2
        &&& self.initial.buffer.wf()
        &&& self.final_.buffer.wf()
        &&& self.percent_change.buffer.wf()
    }

    /// The state with the focus on the field at index `i`.
    pub open spec fn focused(self, i: int) -> AppView {
        AppView {
            initial: self.initial.with_active(i == 0),
            final_: self.final_.with_active(i == 1),
            percent_change: self.percent_change.with_active(i == 2),
            focus: i,
        }
    }

    /// The state with the focus moved one field on.
    pub open spec fn advanced(self) -> AppView {
        self.focused(index_after(self.focus))
    }

    /// The state with the focus moved one field back.
    pub open spec fn retreated(self) -> AppView {
        self.focused(index_before(self.focus))
    }

    /// The state after one move of the focus.
    pub open spec fn moved(self, m: Move) -> AppView {
        match m {
            Move::Advance => self.advanced(),
            Move::Retreat => self.retreated(),
        }
    }

    /// The state after the moves of the focus, made in order.
    pub open spec fn moved_all(self, moves: Seq<Move>) -> AppView
        decreases moves.len(),
    {
        if moves.len() == 0 {
            self
        } else {
            self.moved_all(moves.drop_last()).moved(moves.last())
        }
    }

    /// Both input fields hold a number.
    pub open spec fn derivable(self) -> bool {
        self.initial.valid() && self.final_.valid()
    }

    /// The state with `text` as all that the percent change field holds.
    pub open spec fn with_percent_change(self, text: Seq<char>) -> AppView {
        AppView {
            percent_change: self.percent_change.with_buffer(Buffer::showing(text)),
            ..self
        }
    }

    /// What becomes of an edit of the active field. An edit that did not
    /// modify the text stands. One that left a number stands, and asks for
    /// the percent change where it was made in an input field and both input
    /// fields hold a number. After any other, the active field is deleted
    /// backwards once.
    pub open spec fn settled(self, modified: bool) -> (AppView, Step) {
        if !modified {
            (self, Step::Continue)
        } else if self.active().valid() {
            if self.focus != 2 && self.derivable() {
                (self, Step::Derive)
            } else {
                (self, Step::Continue)
            }
        } else {
            let active = self.active();
            (
                self.with_field(self.focus, active.with_buffer(active.buffer.rubbed())),
                Step::Continue,
            )
        }
    }
}

/// The state of the calculator: the three fields and the focus.
pub struct App {
    initial: Field,
    final_: Field,
    percent_change: Field,
    focus: Focus,
}

impl View for App {
    type V = AppView;

    closed spec fn view(&self) -> AppView {
        AppView {
            initial: self.initial@,
            final_: self.final_@,
            percent_change: self.percent_change@,
            focus: self.focus.index(),
        }
    }
}

impl App {
    /// The state is well formed.
    pub open spec fn wf(&self) -> bool {
        self@.wf()
    }

    /// What the key bindings of the text area make of the state and an
    /// event that the active field takes, and whether they modify the text
    /// of that field ([`Field::bound`]).
    pub closed spec fn bound(&self, input: Input) -> (AppView, bool) {
        let i = self.focus.index();
        let (field, modified) = if i == 0 {
            self.initial.bound(input)
        } else if i == 1 {
            self.final_.bound(input)
        } else {
            self.percent_change.bound(input)
        };
        (self@.with_field(i, field), modified)
    }

    /// The state once the active field has taken an event, and whether the
    /// event modified the text of that field. An event that types a
    /// character puts it in place of the selection, which modifies the text;
    /// what any other event does is up to the key bindings of the text area.
    pub open spec fn typed(&self, input: Input) -> (AppView, bool) {
        match input.typed_char() {
            Some(c) => (
                self@.with_field(
                    self@.focus,
                    self@.active().with_buffer(self@.active().buffer.inserted(c)),
                ),
                true,
            ),
            None => self.bound(input),
        }
    }

    /// The key bindings leave the focus, the fields without it and the way
    /// the active field is drawn as they were.
    pub proof fn lemma_bound(&self, input: Input)
        requires
            self.wf(),
        ensures
            self.bound(input).0.focus == self@.focus,
            forall|i: int|
                0 <= i < 3 && i != self@.focus ==> self.bound(input).0.field(i) == self@.field(i),
            self.bound(input).0.active().visual == self@.active().visual,
    {
        self.initial.lemma_bound(input);
        self.final_.lemma_bound(input);
        self.percent_change.lemma_bound(input);
    }

    /// What an edit makes of the state: the active field takes the event,
    /// and the edit is settled.
    pub open spec fn edited(&self, input: Input) -> (AppView, Step) {
        let (state, modified) = self.typed(input);
        state.settled(modified)
    }

    /// What an event makes of the state, and what the event loop is to do
    /// next.
    pub open spec fn handled(&self, input: Input) -> (AppView, Step) {
        match input.command() {
            Command::Quit => (self@, Step::Quit),
            Command::Retreat => (self@.retreated(), Step::Continue),
            Command::Advance => (self@.advanced(), Step::Continue),
            Command::Ignore => (self@, Step::Continue),
            Command::Edit => self.edited(input),
        }
    }

    /// Three empty fields, the first of them active.
    pub fn new() -> (app: App)
        ensures
            app.wf(),
            app@ == AppView::start(),
    {
        App {
            initial: Field::new(true),
            final_: Field::new(false),
            percent_change: Field::new(false),
            focus: Focus::new(),
        }
    }

    /// The index of the field that has the focus.
    pub fn focus(&self) -> (i: usize)
        ensures
            i == self@.focus,
            i < 3,
    {
        self.focus.which()
    }

    /// The field with the given role.
    pub fn field(&self, role: Role) -> (field: &Field)
        ensures
            field@ == self@.field(role.index()),
    {
        match role {
            Role::Initial => &self.initial,
            Role::Final => &self.final_,
            Role::PercentChange => &self.percent_change,
        }
    }

    fn activate(&mut self, active: bool)
        ensures
            final(self)@ == old(self)@.with_field(
                old(self)@.focus,
                old(self)@.active().with_active(active),
            ),
    {
        let i: usize = self.focus.which();
        if i == 0 {
            self.initial.set_active(active);
        } else if i == 1 {
            self.final_.set_active(active);
        } else {
            self.percent_change.set_active(active);
        }
    }

    /// Moves the focus to the next field, from the last one to the first.
    pub fn advance(&mut self)
        requires
            old(self).wf(),
        ensures
            final(self).wf(),
            final(self)@ == old(self)@.advanced(),
    {
        self.activate(false);
        self.focus.advance();
        self.activate(true);
    }

    /// Moves the focus to the field before, from the first one to the last.
    pub fn retreat(&mut self)
        requires
            old(self).wf(),
        ensures
            final(self).wf(),
            final(self)@ == old(self)@.retreated(),
    {
        self.activate(false);
        self.focus.retreat();
        self.activate(true);
    }

    /// Hands an event to the active field, and says whether it modified the
    /// text of that field.
    pub fn edit(&mut self, input: &Input) -> (modified: bool)
        requires
            old(self).wf(),
        ensures
            final(self).wf(),
            (final(self)@, modified) == old(self).typed(*input),
    {
        let i: usize = self.focus.which();
        if i == 0 {
            self.initial.input(input)
        } else if i == 1 {
            self.final_.input(input)
        } else {
            self.percent_change.input(input)
        }
    }

    /// Settles an edit of the active field, of which `modified` says whether
    /// it modified the text.
    pub fn settle(&mut self, modified: bool) -> (step: Step)
        requires
            old(self).wf(),
        ensures
            final(self).wf(),
            (final(self)@, step) == old(self)@.settled(modified),
    {
        if !modified {
            return Step::Continue;
        }
        let i: usize = self.focus.which();
        let valid = if i == 0 {
            self.initial.is_valid()
        } else if i == 1 {
            self.final_.is_valid()
        } else {
            self.percent_change.is_valid()
        };
        if valid {
            if i != 2 && self.initial.is_valid() && self.final_.is_valid() {
                Step::Derive
            } else {
                Step::Continue
            }
        } else {
            if i == 0 {
                self.initial.delete_char_before_cursor();
            } else if i == 1 {
                self.final_.delete_char_before_cursor();
            } else {
                self.percent_change.delete_char_before_cursor();
            }
            Step::Continue
        }
    }

    /// Handles one event: quits, moves the focus, swallows the event, or
    /// hands it to the active field and settles the edit.
    ///
    /// Whatever the event, exactly one field is active afterwards, and the
    /// fields without the focus hold what they held. A character that is
    /// typed where nothing is selected and that does not leave a number
    /// changes the text of no field.
    pub fn handle(&mut self, input: &Input) -> (step: Step)
        requires
            old(self).wf(),
        ensures
            final(self).wf(),
            (final(self)@, step) == old(self).handled(*input),
            final(self)@.active_fields() == 1,
            forall|i: int|
                0 <= i < 3 && i != old(self)@.focus ==> final(self)@.field(i).buffer == old(
                    self,
                )@.field(i).buffer,
            step == Step::Derive ==> old(self)@.focus != 2 && final(self)@.derivable(),
            input.typed_char() matches Some(c) ==> old(self)@.active().buffer.selection() is None
                ==> !old(self)@.active().with_buffer(old(self)@.active().buffer.inserted(c)).valid()
                ==> final(self)@.active().buffer.lines == old(self)@.active().buffer.lines,
    {
        proof {
            self.lemma_one_way(*input);
            if let Some(c) = input.typed_char() {
                if self@.active().buffer.selection() is None && !self@.active().with_buffer(
                    self@.active().buffer.inserted(c),
                ).valid() {
                    self.lemma_rejected_char(*input, c);
                }
            }
        }
        match input.classify() {
            Command::Quit => Step::Quit,
            Command::Retreat => {
                self.retreat();
                Step::Continue
            },
            Command::Advance => {
                self.advance();
                Step::Continue
            },
            Command::Ignore => Step::Continue,
            Command::Edit => {
                let modified = self.edit(input);
                self.settle(modified)
            },
        }
    }

    /// The texts of the two input fields, where both hold a number.
    pub fn operands(&self) -> (texts: Option<(String, String)>)
        ensures
            texts is Some == self@.derivable(),
            texts matches Some((initial, final_)) ==> initial@ == self@.initial.text() && final_@
                == self@.final_.text(),
    {
        if self.initial.is_valid() && self.final_.is_valid() {
            Some((self.initial.text(), self.final_.text()))
        } else {
            None
        }
    }

    /// The two lines of the report, on the first and on the second field:
    /// the label, then the lines of the field as `{:?}` writes them.
    pub fn report(&self) -> (lines: (String, String))
        ensures
            lines.0@ == report_text("Left textarea"@, debug_text(self@.initial.buffer.lines)),
            lines.1@ == report_text("Right textarea"@, debug_text(self@.final_.buffer.lines)),
    {
        let left = debug_lines(&self.initial.lines());
        let right = debug_lines(&self.final_.lines());
        (
            report_line("Left textarea", left.as_str()),
            report_line("Right textarea", right.as_str()),
        )
    }

    /// What a frame shows: the three fields from top to bottom, each in a
    /// region of its own with its title, three rows tall.
    pub fn regions(&self) -> (regions: Vec<Region>)
        ensures
            regions.len() == 3,
            forall|i: int|
                0 <= i < 3 ==> (#[trigger] regions[i]).rows == FIELD_ROWS && regions[i].visual
                    == self@.field(i).visual,
            regions[0].title@ == Role::Initial.title(),
            regions[1].title@ == Role::Final.title(),
            regions[2].title@ == Role::PercentChange.title(),
    {
        let mut regions: Vec<Region> = Vec::new();
        regions.push(
            Region {
                title: Role::Initial.label(),
                rows: FIELD_ROWS,
                visual: self.initial.visual(),
            },
        );
        regions.push(
            Region { title: Role::Final.label(), rows: FIELD_ROWS, visual: self.final_.visual() },
        );
        regions.push(
            Region {
                title: Role::PercentChange.label(),
                rows: FIELD_ROWS,
                visual: self.percent_change.visual(),
            },
        );
        regions
    }

    /// Shows `text` in the percent change field, in place of all that it
    /// held.
    pub fn show_percent_change(&mut self, text: &str)
        requires
            old(self).wf(),
        ensures
            final(self).wf(),
            final(self)@ == old(self)@.with_percent_change(text@),
    {
        self.percent_change.replace_all(text);
    }
}

/// In a well-formed state exactly one field is active: the one that has the
/// focus.
pub proof fn lemma_one_active(state: AppView)
    requires
        state.wf(),
    ensures
        state.active_fields() == 1,
        state.active().active(),
{
}

/// Whatever moves the focus makes, the state stays well formed, so that
/// exactly one field is active; the focus is on the field whose index is the
/// index at the start plus the advances less the retreats, modulo 3; and
/// every field shows what it did.
pub proof fn lemma_focus_moves(state: AppView, moves: Seq<Move>)
    requires
        state.wf(),
    ensures
        state.moved_all(moves).wf(),
        state.moved_all(moves).active_fields() == 1,
        state.moved_all(moves).focus == (state.focus + net(moves)) % 3,
        forall|i: int| 0 <= i < 3 ==> state.moved_all(moves).field(i).buffer == state.field(i).buffer,
    decreases moves.len(),
{
    if moves.len() > 0 {
        lemma_focus_moves(state, moves.drop_last());
    }
}

/// Showing the same text in the percent change field once more changes
/// nothing, and what the field then shows depends on the text alone.
pub proof fn lemma_show_again(state: AppView, other: AppView, text: Seq<char>)
    ensures
        state.with_percent_change(text).with_percent_change(text) == state.with_percent_change(
            text,
        ),
        state.with_percent_change(text).percent_change.buffer == other.with_percent_change(
            text,
        ).percent_change.buffer,
        state.with_percent_change(text).initial == state.initial,
        state.with_percent_change(text).final_ == state.final_,
{
}

impl App {
    /// A character that is typed where nothing is selected and that does not
    /// leave a number is rejected: every field holds the text that it held
    /// before, and no percent change is asked for.
    pub proof fn lemma_rejected_char(&self, input: Input, c: char)
        requires
            self.wf(),
            input.typed_char() == Some(c),
            self@.active().buffer.selection() is None,
            !self@.active().with_buffer(self@.active().buffer.inserted(c)).valid(),
        ensures
            self.handled(input).1 == Step::Continue,
            self.handled(input).0.focus == self@.focus,
            forall|i: int|
                0 <= i < 3 ==> self.handled(input).0.field(i).buffer.lines == self@.field(
                    i,
                ).buffer.lines,
            self.handled(input).0.active().buffer.cursor == self@.active().buffer.cursor,
    {
        lemma_rub_undoes_insert(self@.active().buffer, c);
        lemma_without_selection_wf(self@.active().buffer);
    }

    /// A character that is typed and leaves a number is accepted: the active
    /// field holds it in place of the selection, and the percent change is
    /// asked for exactly where the field is an input field and both input
    /// fields then hold a number.
    pub proof fn lemma_accepted_char(&self, input: Input, c: char)
        requires
            self.wf(),
            input.typed_char() == Some(c),
            self@.active().with_buffer(self@.active().buffer.inserted(c)).valid(),
        ensures
            self.handled(input).0 == self@.with_field(
                self@.focus,
                self@.active().with_buffer(self@.active().buffer.inserted(c)),
            ),
            self.handled(input).1 == Step::Derive <==> self@.focus != 2 && self.handled(
                input,
            ).0.derivable(),
            self.handled(input).1 != Step::Quit,
    {
    }

    /// No event changes what a field without the focus holds, and the
    /// percent change is only asked for after an edit of an input field that
    /// leaves a number in both. So an edit of the percent change field never
    /// changes the input fields, whatever is typed there.
    pub proof fn lemma_one_way(&self, input: Input)
        requires
            self.wf(),
        ensures
            forall|i: int|
                0 <= i < 3 && i != self@.focus ==> self.handled(input).0.field(i).buffer
                    == self@.field(i).buffer,
            self.handled(input).1 == Step::Derive ==> self@.focus != 2 && self.handled(
                input,
            ).0.derivable(),
            self@.focus == 2 ==> self.handled(input).0.initial.buffer == self@.initial.buffer
                && self.handled(input).0.final_.buffer == self@.final_.buffer,
    {
        self.lemma_bound(input);
    }

    /// An event that quits leaves the state as it is, so that what is
    /// reported is what the fields held when the event came.
    pub proof fn lemma_quit(&self, input: Input)
        requires
            input.command() == Command::Quit,
        ensures
            self.handled(input) == (self@, Step::Quit),
    {
    }
}

} // verus!
