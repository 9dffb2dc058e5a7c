//! The data model: an addition equation with one hidden slot.

use vstd::prelude::*;

verus! {

/// A summand of an addition equation.
pub type Summand = i32;

/// The sum slot of an addition equation.
pub type Sum = i32;

/// A seed drawn from the random source.
pub type Number = i32;

/// The value that restores the hidden slot of an equation.
pub type Solution = i32;

/// Selects which slot of the generated equation is hidden.
#[derive(Debug, Clone, Copy, PartialEq, Eq, Structural)]
pub enum ExerciseType {
    /// `_ + b = c`: the left summand is hidden.
    AdditionFindSummand1,
    /// `a + _ = c`: the right summand is hidden.
    AdditionFindSummand2,
    /// `a + b = _`: the sum is hidden.
    AdditionFindSum,
}

/// An addition equation `s1 + s2 = sum`. A `None` slot is the unknown
/// to be solved; a present slot carries its value. Zero is a legal
/// value, so absence is a variant of the slot, never a sentinel.
#[derive(Debug, PartialEq, Eq)]
pub struct Addition {
    pub s1: Option<Summand>,
    pub s2: Option<Summand>,
    pub sum: Option<Sum>,
}

/// An exercise; addition is the only kind this drill offers.
#[derive(Debug, PartialEq, Eq)]
pub enum Exercise {
    Addition(Addition),
}

impl Addition {
    pub fn new(s1: Option<Summand>, s2: Option<Summand>, sum: Option<Sum>) -> (r: Self)
        ensures
            r == (Addition { s1, s2, sum }),
    {
        Addition { s1, s2, sum }
    }
}

/// How many of the three slots are hidden.
pub open spec fn hidden_slots(a: Addition) -> int {
    (if a.s1 is None { 1int } else { 0int })
    + (if a.s2 is None { 1int } else { 0int })
    + (if a.sum is None { 1int } else { 0int })
}

/// Every slot that is present holds a nonnegative value.
pub open spec fn visible_nonneg(a: Addition) -> bool {
    &&& a.s1 is Some ==> a.s1->0 >= 0
    &&& a.s2 is Some ==> a.s2->0 >= 0
    &&& a.sum is Some ==> a.sum->0 >= 0
}

/// The equation with its hidden slot restored by `answer` satisfies
/// `left + right = sum`.
pub open spec fn restored_consistent(a: Addition, answer: int) -> bool {
    (if a.s1 is Some { a.s1->0 as int } else { answer })
    + (if a.s2 is Some { a.s2->0 as int } else { answer })
    == (if a.sum is Some { a.sum->0 as int } else { answer })
}

/// A well-formed round result: exactly one slot hidden, the visible
/// slots nonnegative, the answer nonnegative and restoring the equation.
pub open spec fn round_well_formed(a: Addition, answer: int) -> bool {
    &&& hidden_slots(a) == 1
    &&& visible_nonneg(a)
    &&& answer >= 0
    &&& restored_consistent(a, answer)
}

} // verus!
