use addition_drill::equation::ExerciseType;
use addition_drill::generate::generate_exercise;
use addition_drill::parse::parse_answer;
use addition_drill::stats::Stats;

/// Three rounds of find-the-sum with seeded draws (2,5), (3,2),
/// (4,4); the learner types `5`, then `q` (re-prompted), then `3`
/// and `4`. All three rounds end correct, the summary says 100.00.
#[test]
fn seeded_session_reaches_a_perfect_score() {
    let seeds = [(2, 5), (3, 2), (4, 4)];
    let typed = ["5", "q", "3", "4"];
    let mut next_input = 0;
    let mut stats = Stats::new(seeds.len() as u32);

    for (n1, n2) in seeds {
        let (equation, solution) = generate_exercise(ExerciseType::AdditionFindSum, n1, n2);
        let _prompt = equation.to_display_string();
        let answer = loop {
            let line = typed[next_input];
            next_input += 1;
            match parse_answer(line) {
                Some(v) => break v,
                None => {
                    // the "only numbers" notice; the round is not advanced
                }
            }
        };
        assert!(stats.correct < stats.all);
        let correct = stats.record_round(solution, answer);
        assert!(correct);
    }

    assert_eq!(next_input, typed.len());
    assert_eq!(stats.correct, 3);
    assert_eq!(stats.all, 3);
    assert_eq!(stats.percent_correct_string(), "100.00");
}

/// A wrong answer is counted but not credited.
#[test]
fn wrong_answers_do_not_move_the_tally() {
    let mut stats = Stats::new(2);
    let (_, solution) = generate_exercise(ExerciseType::AdditionFindSummand1, 2, 5);
    assert_eq!(solution, 3);
    assert!(!stats.record_round(solution, 4));
    assert!(stats.record_round(solution, 3));
    assert_eq!(stats.correct, 1);
    assert_eq!(stats.percent_correct_string(), "50.00");
}
