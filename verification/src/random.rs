//! The random source: two seeds per round, drawn uniformly from the
//! small nonnegative range the generator expects.

use vstd::prelude::*;
use rand::Rng;
use crate::equation::{Exercise, ExerciseType, Number, Solution, round_well_formed};
use crate::generate::{
    generate_exercise, lemma_generate_one_hidden, lemma_generate_restores_equation,
    lemma_generate_visible_nonneg, spec_generate,
};

verus! {

/// Relies on rand's thread_rng and Rng::gen_range: gen_range samples
/// uniformly from the given range and panics only when the range is
/// empty, so a sample from the inclusive range [0, 10] lies within
/// those bounds.
#[verifier::external_body]
fn random_integer() -> (r: Number)
    ensures
        0 <= r <= 10,
{
    let mut rng = rand::thread_rng();
    rng.gen_range(0..=10)
}

/// Draws two seeds and generates one exercise. The seeds are random,
/// so the result is pinned down only up to them: it is the
/// generator's output for some pair of in-range seeds, and therefore
/// a well-formed round whatever the random source returned.
pub fn generate_random_exercise(exercise_type: ExerciseType) -> (r: (Exercise, Solution))
    ensures
        exists|n1: i32, n2: i32|
            {
                &&& 0 <= n1 <= 10
                &&& 0 <= n2 <= 10
                &&& r.0 == Exercise::Addition(#[trigger] spec_generate(exercise_type, n1, n2).0)
                &&& r.1 == spec_generate(exercise_type, n1, n2).1
            },
        r.0 matches Exercise::Addition(a) && round_well_formed(a, r.1 as int),
{
    let n1 = random_integer();
    let n2 = random_integer();
    let r = generate_exercise(exercise_type, n1, n2);
    proof {
        lemma_generate_restores_equation(exercise_type, n1, n2);
        lemma_generate_visible_nonneg(exercise_type, n1, n2);
        lemma_generate_one_hidden(exercise_type, n1, n2);
    }
    r
}

} // verus!
