//! The presenter: renders an equation as `"L + R = S"`, with an
//! underscore standing for the hidden slot.

use vstd::prelude::*;
use crate::equation::{Addition, Exercise, visible_nonneg};

verus! {

/// The ASCII digit character for a value below ten.
pub open spec fn digit_char(d: int) -> char {
    if d == 0 { '0' }
    else if d == 1 { '1' }
    else if d == 2 { '2' }
    else if d == 3 { '3' }
    else if d == 4 { '4' }
    else if d == 5 { '5' }
    else if d == 6 { '6' }
    else if d == 7 { '7' }
    else if d == 8 { '8' }
    else { '9' }
}

/// The decimal rendering of a nonnegative integer, most significant
/// digit first, with no leading zeros (a single `'0'` for zero).
pub open spec fn spec_decimal(n: nat) -> Seq<char>
    decreases n,
{
    if n < 10 {
        seq![digit_char(n as int)]
    } else {
        spec_decimal(n / 10).push(digit_char((n % 10) as int))
    }
}

/// How one slot is shown: its decimal value when present, the
/// placeholder glyph when hidden.
pub open spec fn spec_slot_str(slot: Option<i32>) -> Seq<char> {
    match slot {
        Some(n) => spec_decimal(n as nat),
        None => seq!['_'],
    }
}

/// The full rendering of an addition equation.
pub open spec fn spec_addition_str(a: Addition) -> Seq<char> {
    spec_slot_str(a.s1) + " + "@ + spec_slot_str(a.s2) + " = "@ + spec_slot_str(a.sum)
}

/// The rendering of an exercise.
pub open spec fn spec_exercise_str(e: Exercise) -> Seq<char> {
    match e {
        Exercise::Addition(a) => spec_addition_str(a),
    }
}

/// The one-character string for a decimal digit.
pub fn digit_str(d: u32) -> (r: &'static str)
    requires
        d < 10,
    ensures
        r@ == seq![digit_char(d as int)],
{
    proof {
        reveal_strlit("0");
        reveal_strlit("1");
        reveal_strlit("2");
        reveal_strlit("3");
        reveal_strlit("4");
        reveal_strlit("5");
        reveal_strlit("6");
        reveal_strlit("7");
        reveal_strlit("8");
        reveal_strlit("9");
    }
    match d {
        0 => "0",
        1 => "1",
        2 => "2",
        3 => "3",
        4 => "4",
        5 => "5",
        6 => "6",
        7 => "7",
        8 => "8",
        _ => "9",
    }
}

/// Renders a nonnegative integer in decimal.
pub fn u32_to_string(n: u32) -> (r: String)
    ensures
        r@ == spec_decimal(n as nat),
    decreases n,
{
    if n < 10 {
        String::from_str(digit_str(n))
    } else {
        let mut s = u32_to_string(n / 10);
        s.append(digit_str(n % 10));
        proof {
            assert(s@ =~= spec_decimal(n as nat));
        }
        s
    }
}

/// Renders one slot: the decimal value when present, an underscore
/// when the slot is the unknown.
pub fn number2string(number: Option<i32>) -> (r: String)
    requires
        number is Some ==> number->0 >= 0,
    ensures
        r@ == spec_slot_str(number),
{
    match number {
        Some(n) => u32_to_string(n as u32),
        None => {
            proof {
                reveal_strlit("_");
            }
            String::from_str("_")
        },
    }
}

impl Addition {
    /// The display form `"L + R = S"` of this equation.
    pub fn to_display_string(&self) -> (r: String)
        requires
            visible_nonneg(*self),
        ensures
            r@ == spec_addition_str(*self),
    {
        let mut s = number2string(self.s1);
        s.append(" + ");
        let mid = number2string(self.s2);
        s.append(mid.as_str());
        s.append(" = ");
        let last = number2string(self.sum);
        s.append(last.as_str());
        proof {
            assert(s@ =~= spec_addition_str(*self));
        }
        s
    }
}

impl Exercise {
    /// The display form of this exercise.
    pub fn to_display_string(&self) -> (r: String)
        requires
            *self matches Exercise::Addition(a) ==> visible_nonneg(a),
        ensures
            r@ == spec_exercise_str(*self),
    {
        match self {
            Exercise::Addition(a) => a.to_display_string(),
        }
    }
}

} // verus!
