//! The exercise generator: from a variant selector and two seeds,
//! produce an equation with one hidden slot and its solution.

use vstd::prelude::*;
use crate::equation::{
    Addition, Exercise, ExerciseType, Number, Solution,
    hidden_slots, restored_consistent, visible_nonneg,
};

verus! {

/// The fully-filled equation the generator canonicalizes the seeds
/// into: the larger seed becomes the sum, the smaller one a summand,
/// and their difference the other summand, so that every slot is
/// nonnegative regardless of seed ordering.
pub open spec fn spec_full_addition(n1: i32, n2: i32) -> Addition {
    if n1 >= n2 {
        Addition { s1: Some((n1 - n2) as i32), s2: Some(n2), sum: Some(n1) }
    } else {
        Addition { s1: Some((n2 - n1) as i32), s2: Some(n1), sum: Some(n2) }
    }
}

/// What the generator returns: the canonical equation with the slot
/// selected by `et` hidden, and the value of that slot as the answer.
pub open spec fn spec_generate(et: ExerciseType, n1: i32, n2: i32) -> (Addition, i32) {
    let full = spec_full_addition(n1, n2);
    match et {
        ExerciseType::AdditionFindSummand1 => (
            Addition { s1: None, s2: full.s2, sum: full.sum },
            full.s1->0,
        ),
        ExerciseType::AdditionFindSummand2 => (
            Addition { s1: full.s1, s2: None, sum: full.sum },
            full.s2->0,
        ),
        ExerciseType::AdditionFindSum => (
            Addition { s1: full.s1, s2: full.s2, sum: None },
            full.sum->0,
        ),
    }
}

/// Builds the canonical fully-filled equation for two seeds.
pub fn generate_addition(n1: Number, n2: Number) -> (r: Exercise)
    requires
        0 <= n1 <= 10,
        0 <= n2 <= 10,
    ensures
        r == Exercise::Addition(spec_full_addition(n1, n2)),
{
    let n0 = n1 - n2;
    if n0 >= 0 {
        Exercise::Addition(Addition::new(Some(n0), Some(n2), Some(n1)))
    } else {
        Exercise::Addition(Addition::new(Some(-n0), Some(n1), Some(n2)))
    }
}

/// Generates `_ + b = c`: the left summand is hidden; the answer is
/// the difference of the seeds.
pub fn generate_addition_find_summand1(n1: Number, n2: Number) -> (r: (Exercise, Solution))
    requires
        0 <= n1 <= 10,
        0 <= n2 <= 10,
    ensures
        ({
            let (a, s) = spec_generate(ExerciseType::AdditionFindSummand1, n1, n2);
            r.0 == Exercise::Addition(a) && r.1 == s
        }),
{
    let n0 = n1 - n2;
    let exercise = generate_addition(n1, n2);
    let exercise = match exercise {
        Exercise::Addition(a) => Exercise::Addition(Addition::new(None, a.s2, a.sum)),
    };

    if n0 >= 0 {
        (exercise, n0)
    } else {
        (exercise, -n0)
    }
}

/// Generates `a + _ = c`: the right summand is hidden; the answer is
/// the smaller seed.
pub fn generate_addition_find_summand2(n1: Number, n2: Number) -> (r: (Exercise, Solution))
    requires
        0 <= n1 <= 10,
        0 <= n2 <= 10,
    ensures
        ({
            let (a, s) = spec_generate(ExerciseType::AdditionFindSummand2, n1, n2);
            r.0 == Exercise::Addition(a) && r.1 == s
        }),
{
    let n0 = n1 - n2;
    let exercise = generate_addition(n1, n2);
    let exercise = match exercise {
        Exercise::Addition(a) => Exercise::Addition(Addition::new(a.s1, None, a.sum)),
    };

    if n0 >= 0 {
        (exercise, n2)
    } else {
        (exercise, n1)
    }
}

/// Generates `a + b = _`: the sum is hidden; the answer is the larger
/// seed.
pub fn generate_addition_find_sum(n1: Number, n2: Number) -> (r: (Exercise, Solution))
    requires
        0 <= n1 <= 10,
        0 <= n2 <= 10,
    ensures
        ({
            let (a, s) = spec_generate(ExerciseType::AdditionFindSum, n1, n2);
            r.0 == Exercise::Addition(a) && r.1 == s
        }),
{
    let n0 = n1 - n2;
    let exercise = generate_addition(n1, n2);
    let exercise = match exercise {
        Exercise::Addition(a) => Exercise::Addition(Addition::new(a.s1, a.s2, None)),
    };

    if n0 >= 0 {
        (exercise, n1)
    } else {
        (exercise, n2)
    }
}

/// Dispatches on the variant tag; a pure function of its inputs, so
/// the caller injects all randomness.
pub fn generate_exercise(exercise_type: ExerciseType, n1: Number, n2: Number) -> (r: (
    Exercise,
    Solution,
))
    requires
        0 <= n1 <= 10,
        0 <= n2 <= 10,
    ensures
        ({
            let (a, s) = spec_generate(exercise_type, n1, n2);
            r.0 == Exercise::Addition(a) && r.1 == s
        }),
{
    match exercise_type {
        ExerciseType::AdditionFindSummand1 => generate_addition_find_summand1(n1, n2),
        ExerciseType::AdditionFindSummand2 => generate_addition_find_summand2(n1, n2),
        ExerciseType::AdditionFindSum => generate_addition_find_sum(n1, n2),
    }
}

/// Restoring the hidden slot with the reported answer yields an
/// equation that satisfies `left + right = sum`.
pub proof fn lemma_generate_restores_equation(et: ExerciseType, n1: i32, n2: i32)
    requires
        0 <= n1 <= 10,
        0 <= n2 <= 10,
    ensures
        ({
            let (a, s) = spec_generate(et, n1, n2);
            restored_consistent(a, s as int) && s >= 0
        }),
{
}

/// Every visible slot of a generated equation is a nonnegative
/// integer, and no slot exceeds twice the seed bound.
pub proof fn lemma_generate_visible_nonneg(et: ExerciseType, n1: i32, n2: i32)
    requires
        0 <= n1 <= 10,
        0 <= n2 <= 10,
    ensures
        visible_nonneg(spec_generate(et, n1, n2).0),
        ({
            let a = spec_generate(et, n1, n2).0;
            &&& a.s1 is Some ==> a.s1->0 <= 20
            &&& a.s2 is Some ==> a.s2->0 <= 20
            &&& a.sum is Some ==> a.sum->0 <= 20
        }),
{
}

/// Exactly one of the three slots of a generated equation is absent.
pub proof fn lemma_generate_one_hidden(et: ExerciseType, n1: i32, n2: i32)
    requires
        0 <= n1 <= 10,
        0 <= n2 <= 10,
    ensures
        hidden_slots(spec_generate(et, n1, n2).0) == 1,
{
}

/// The generator is deterministic: equal inputs yield equal outputs.
pub proof fn lemma_generate_deterministic(
    eta: ExerciseType,
    n1a: i32,
    n2a: i32,
    etb: ExerciseType,
    n1b: i32,
    n2b: i32,
)
    requires
        eta == etb,
        n1a == n1b,
        n2a == n2b,
    ensures
        spec_generate(eta, n1a, n2a) == spec_generate(etb, n1b, n2b),
{
}

/// The answer in closed form: the larger seed for a hidden sum, the
/// absolute seed difference for a hidden left summand, the smaller
/// seed for a hidden right summand.
pub proof fn lemma_generate_answer_formulas(n1: i32, n2: i32)
    requires
        0 <= n1 <= 10,
        0 <= n2 <= 10,
    ensures
        spec_generate(ExerciseType::AdditionFindSum, n1, n2).1
            == vstd::math::max(n1 as int, n2 as int),
        spec_generate(ExerciseType::AdditionFindSummand1, n1, n2).1
            == vstd::math::abs(n1 - n2),
        spec_generate(ExerciseType::AdditionFindSummand2, n1, n2).1
            == vstd::math::min(n1 as int, n2 as int),
{
}

} // verus!
