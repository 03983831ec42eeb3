use rock_paper_scissors::gesture::Gesture;
use rock_paper_scissors::simulation::{
    play_round, play_simulation, ConstantSource, RoundResult,
};

#[test]
fn should_return_draw() {
    let mut contender = ConstantSource { gesture: Gesture::Scissors };
    let mut opponent = ConstantSource { gesture: Gesture::Scissors };
    assert_eq!(play_round(&mut contender, &mut opponent), RoundResult::Draw);
}

#[test]
fn should_return_win() {
    let mut contender = ConstantSource { gesture: Gesture::Scissors };
    let mut opponent = ConstantSource { gesture: Gesture::Paper };
    assert_eq!(
        play_round(&mut contender, &mut opponent),
        RoundResult::ContenderWin
    );
}

#[test]
fn should_return_loss() {
    let mut contender = ConstantSource { gesture: Gesture::Scissors };
    let mut opponent = ConstantSource { gesture: Gesture::Rock };
    assert_eq!(
        play_round(&mut contender, &mut opponent),
        RoundResult::OpponentWin
    );
}

#[test]
fn should_work_multiple_times() {
    let mut contender = ConstantSource { gesture: Gesture::Scissors };
    let mut opponent = ConstantSource { gesture: Gesture::Scissors };
    assert_eq!(play_round(&mut contender, &mut opponent), RoundResult::Draw);
    assert_eq!(play_round(&mut contender, &mut opponent), RoundResult::Draw);
}

#[test]
fn simulation_collects_one_outcome_per_round() {
    let result = play_simulation();
    assert_eq!(result.round_results.len(), 100);
    let wins = result
        .round_results
        .iter()
        .filter(|r| **r == RoundResult::ContenderWin)
        .count();
    let draws = result
        .round_results
        .iter()
        .filter(|r| **r == RoundResult::Draw)
        .count();
    let losses = result
        .round_results
        .iter()
        .filter(|r| **r == RoundResult::OpponentWin)
        .count();
    assert_eq!(wins + draws + losses, 100);
}
