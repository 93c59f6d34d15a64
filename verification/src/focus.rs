//! Which of the three fields has the focus, and how it moves.

use vstd::prelude::*;

verus! {

/// The number of fields.
pub const FIELDS: usize = 3;

/// What a field is for. The roles are in focus order.
#[derive(Clone, Copy, Debug, PartialEq, Eq, Structural)]
pub enum Role {
    /// The value to start from.
    Initial,
    /// The value arrived at.
    Final,
    /// The change from the one to the other, as a share of the first.
    PercentChange,
}

impl Role {
    /// The place of the role in focus order.
    pub open spec fn index(self) -> int {
        match self {
            Role::Initial => 0,
            Role::Final => 1,
            Role::PercentChange => 2,
        }
    }

    /// The place of the role in focus order.
    pub fn position(self) -> (i: usize)
        ensures
            i == self.index(),
    {
        match self {
            Role::Initial => 0,
            Role::Final => 1,
            Role::PercentChange => 2,
        }
    }

    /// The role at a place in focus order.
    pub fn at(i: usize) -> (role: Option<Role>)
        ensures
            (role is Some) == (i < FIELDS),
            role matches Some(r) ==> r.index() == i,
    {
        if i == 0 {
            Some(Role::Initial)
        } else if i == 1 {
            Some(Role::Final)
        } else if i == 2 {
            Some(Role::PercentChange)
        } else {
            None
        }
    }
}

/// One move of the focus.
#[derive(Clone, Copy, Debug, PartialEq, Eq, Structural)]
pub enum Move {
    /// To the next field, from the last one to the first.
    Advance,
    /// To the field before, from the first one to the last.
    Retreat,
}

impl Move {
    /// By how many fields the move takes the focus on.
    pub open spec fn delta(self) -> int {
        match self {
            Move::Advance => 1,
            Move::Retreat => -1,
        }
    }
}

/// The index one on from `i`, around the three fields.
pub open spec fn index_after(i: int) -> int {
    (i + 1) % 3
}

/// The index one back from `i`, around the three fields.
pub open spec fn index_before(i: int) -> int {
    (i + 2) % 3
}

/// The index that one move leads to from `i`.
pub open spec fn moved(i: int, m: Move) -> int {
    match m {
        Move::Advance => index_after(i),
        Move::Retreat => index_before(i),
    }
}

/// The index that the moves lead to from `start`, made in order.
pub open spec fn moved_all(start: int, moves: Seq<Move>) -> int
    decreases moves.len(),
{
    if moves.len() == 0 {
        start
    } else {
        moved(moved_all(start, moves.drop_last()), moves.last())
    }
}

/// The advances among the moves, less the retreats.
pub open spec fn net(moves: Seq<Move>) -> int
    decreases moves.len(),
{
    if moves.len() == 0 {
        0
    } else {
        net(moves.drop_last()) + moves.last().delta()
    }
}

/// After any moves the focus is on one of the three fields: on the one whose
/// index is the start plus the advances less the retreats, modulo 3.
pub proof fn lemma_moved_all(start: int, moves: Seq<Move>)
    requires
        0 <= start < 3,
    ensures
        0 <= moved_all(start, moves) < 3,
        moved_all(start, moves) == (start + net(moves)) % 3,
    decreases moves.len(),
{
    if moves.len() > 0 {
        lemma_moved_all(start, moves.drop_last());
    }
}

/// The index of the field that has the focus.
pub struct Focus {
    which: usize,
}

impl Focus {
    #[verifier::type_invariant]
    spec fn in_range(self) -> bool {
        self.which < FIELDS
    }

    /// The index of the field that has the focus: 0, 1 or 2.
    pub closed spec fn index(self) -> int {
        self.which as int
    }

    /// The focus on the first field.
    pub fn new() -> (focus: Focus)
        ensures
            focus.index() == 0,
    {
        Focus { which: 0 }
    }

    /// The index of the field that has the focus.
    pub fn which(&self) -> (i: usize)
        ensures
            i == self.index(),
            i < FIELDS,
    {
        proof {
            use_type_invariant(self);
        }
        self.which
    }

    /// Moves the focus to the next field, from the last one to the first.
    pub fn advance(&mut self)
        ensures
            final(self).index() == index_after(old(self).index()),
    {
        proof {
            use_type_invariant(&*self);
        }
        self.which = (self.which + 1) % FIELDS;
    }

    /// Moves the focus to the field before, from the first one to the last.
    pub fn retreat(&mut self)
        ensures
            final(self).index() == index_before(old(self).index()),
    {
        proof {
            use_type_invariant(&*self);
        }
        self.which = (self.which + FIELDS - 1) % FIELDS;
    }
}

} // verus!
