//! What is reported when the event loop ends, and what is asked of the
//! screen for each frame.

use crate::field::Visual;
use crate::focus::Role;
use vstd::prelude::*;

verus! {

/// The lines as `{:?}` writes a list of strings: in square brackets, each
/// string in double quotes and escaped.
pub uninterp spec fn debug_text(lines: Seq<Seq<char>>) -> Seq<char>;

/// `format!` with `{:?}`, on a list of strings. The contract only gives the
/// result its name, [`debug_text`].
#[verifier::external_body]
pub(crate) fn debug_lines(lines: &Vec<String>) -> (text: String)
    ensures
        text@ == debug_text(lines.deep_view()),
{
    format!("{:?}", lines)
}

/// One line of the report: the label, a colon, a space, and the lines of the
/// field as `quoted` gives them.
pub open spec fn report_text(label: Seq<char>, quoted: Seq<char>) -> Seq<char> {
    label + seq![':', ' '] + quoted
}

/// Writes one line of the report.
pub fn report_line(label: &str, quoted: &str) -> (line: String)
    ensures
        line@ == report_text(label@, quoted@),
{
    let mut line = String::new();
    line.append(label);
    line.append(": ");
    line.append(quoted);
    proof {
        reveal_strlit(": ");
        assert(": "@ =~= seq![':', ' ']);
        assert(line@ =~= report_text(label@, quoted@));
    }
    line
}

/// The rows that each field takes on the screen, its border included.
pub const FIELD_ROWS: u16 = 3;

/// One region of the screen: a bordered box with a title that shows a field.
#[derive(Debug)]
pub struct Region {
    /// The title in the border.
    pub title: &'static str,
    /// The rows that the region takes.
    pub rows: u16,
    /// How the field in it is drawn.
    pub visual: Visual,
}

impl Role {
    /// The title of the field on the screen.
    pub open spec fn title(self) -> Seq<char> {
        match self {
            Role::Initial => "initial"@,
            Role::Final => "final"@,
            Role::PercentChange => "percent change"@,
        }
    }

    /// The title of the field on the screen.
    pub fn label(self) -> (title: &'static str)
        ensures
            title@ == self.title(),
    {
        match self {
            Role::Initial => "initial",
            Role::Final => "final",
            Role::PercentChange => "percent change",
        }
    }
}

} // verus!
