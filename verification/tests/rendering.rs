use rock_paper_scissors::simulation::{RoundResult, SimulationResult};

#[test]
fn should_print_an_empty_result() {
    let display = SimulationResult { round_results: vec![] }.render();
    assert_eq!(display, "Wins=0, Draws=0, Losses=0");
}

#[test]
fn should_print_a_result_with_multiple_wins() {
    let display = SimulationResult {
        round_results: vec![RoundResult::ContenderWin, RoundResult::ContenderWin],
    }
    .render();
    assert_eq!(display, "Wins=2, Draws=0, Losses=0");
}

#[test]
fn should_print_a_result_with_multiple_draws() {
    let display = SimulationResult {
        round_results: vec![RoundResult::Draw, RoundResult::Draw],
    }
    .render();
    assert_eq!(display, "Wins=0, Draws=2, Losses=0");
}

#[test]
fn should_print_a_result_with_multiple_losses() {
    let display = SimulationResult {
        round_results: vec![RoundResult::OpponentWin, RoundResult::OpponentWin],
    }
    .render();
    assert_eq!(display, "Wins=0, Draws=0, Losses=2");
}

#[test]
fn should_print_a_result_with_mixed_results() {
    let display = SimulationResult {
        round_results: vec![
            RoundResult::ContenderWin,
            RoundResult::Draw,
            RoundResult::OpponentWin,
        ],
    }
    .render();
    assert_eq!(display, "Wins=1, Draws=1, Losses=1");
}

#[test]
fn should_print_multi_digit_counts() {
    let display = SimulationResult {
        round_results: vec![RoundResult::ContenderWin; 12],
    }
    .render();
    assert_eq!(display, "Wins=12, Draws=0, Losses=0");
}

#[test]
fn rendering_ignores_outcome_order() {
    let forward = SimulationResult {
        round_results: vec![
            RoundResult::ContenderWin,
            RoundResult::Draw,
            RoundResult::OpponentWin,
        ],
    }
    .render();
    let backward = SimulationResult {
        round_results: vec![
            RoundResult::OpponentWin,
            RoundResult::Draw,
            RoundResult::ContenderWin,
        ],
    }
    .render();
    assert_eq!(forward, backward);
}
