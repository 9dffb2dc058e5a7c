//! Session statistics: how many rounds there are and how many were
//! answered correctly.

use vstd::prelude::*;
use crate::render::{digit_char, digit_str, spec_decimal, u32_to_string};

verus! {

/// The share of correct answers in hundredths of a percent,
/// truncated; zero rounds count as zero percent.
pub open spec fn spec_percent_hundredths(correct: int, all: int) -> int {
    if all == 0 {
        0
    } else {
        correct * 10000 / all
    }
}

/// The percentage rendered with two fractional digits, as in `"66.66"`.
pub open spec fn spec_percent_string(correct: int, all: int) -> Seq<char> {
    let h = spec_percent_hundredths(correct, all);
    spec_decimal((h / 100) as nat) + "."@ + seq![digit_char(h / 10 % 10), digit_char(h % 10)]
}

/// The running tally of a session: `all` rounds in total, `correct`
/// of them answered right so far.
#[derive(Debug, PartialEq, Eq, Structural)]
pub struct Stats {
    pub all: u32,
    pub correct: u32,
}

impl Stats {
    /// No more answers can be correct than there are rounds.
    pub open spec fn well_formed(&self) -> bool {
        self.correct <= self.all
    }

    pub fn new(all: u32) -> (r: Self)
        ensures
            r.all == all,
            r.correct == 0,
            r.well_formed(),
    {
        Stats { all, correct: 0 }
    }

    /// Records one more correct answer.
    pub fn increment_correct(&mut self)
        requires
            old(self).correct < old(self).all,
        ensures
            final(self).all == old(self).all,
            final(self).correct == old(self).correct + 1,
            final(self).well_formed(),
    {
        self.correct += 1;
    }

    /// Scores one round: increments the tally exactly when the
    /// learner's input equals the solution, and reports which it was.
    pub fn record_round(&mut self, solution: i32, input: i32) -> (correct: bool)
        requires
            input == solution ==> old(self).correct < old(self).all,
        ensures
            correct == (input == solution),
            final(self).all == old(self).all,
            correct ==> final(self).correct == old(self).correct + 1,
            !correct ==> *final(self) == *old(self),
    {
        if input == solution {
            self.increment_correct();
            true
        } else {
            false
        }
    }

    /// The share of correct answers in hundredths of a percent.
    pub fn percent_correct_hundredths(&self) -> (r: u32)
        requires
            self.well_formed(),
        ensures
            r == spec_percent_hundredths(self.correct as int, self.all as int),
            r <= 10000,
    {
        if self.all == 0 {
            0
        } else {
            let h = (self.correct as u64 * 10000) / (self.all as u64);
            proof {
                assert(self.correct as int * 10000 / (self.all as int) <= 10000) by (nonlinear_arith)
                    requires
                        0 <= self.correct as int <= self.all as int,
                        0 < self.all as int,
                ;
            }
            h as u32
        }
    }

    /// The percentage of correct answers with two fractional digits.
    pub fn percent_correct_string(&self) -> (r: String)
        requires
            self.well_formed(),
        ensures
            r@ == spec_percent_string(self.correct as int, self.all as int),
    {
        let h = self.percent_correct_hundredths();
        let mut s = u32_to_string(h / 100);
        s.append(".");
        s.append(digit_str(h / 10 % 10));
        s.append(digit_str(h % 10));
        proof {
            assert(s@ =~= spec_percent_string(self.correct as int, self.all as int));
        }
        s
    }
}

} // verus!
