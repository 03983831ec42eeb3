use rock_paper_scissors::gesture::{CanChallenge, Gesture};

#[test]
fn rock_wins_against_scissors() {
    assert!(Gesture::Rock.wins_against(Gesture::Scissors));
}

#[test]
fn rock_loses_against_paper() {
    assert!(!Gesture::Rock.wins_against(Gesture::Paper));
}

#[test]
fn paper_wins_against_rock() {
    assert!(Gesture::Paper.wins_against(Gesture::Rock));
}

#[test]
fn paper_loses_against_scissors() {
    assert!(!Gesture::Paper.wins_against(Gesture::Scissors));
}

#[test]
fn scissors_win_against_paper() {
    assert!(Gesture::Scissors.wins_against(Gesture::Paper));
}

#[test]
fn scissors_lose_against_rock() {
    assert!(!Gesture::Scissors.wins_against(Gesture::Rock));
}

#[test]
fn exactly_one_of_beats_either_way_or_equal_holds() {
    let gestures = [Gesture::Rock, Gesture::Paper, Gesture::Scissors];
    for a in gestures {
        for b in gestures {
            let forward = a.wins_against(b);
            let backward = b.wins_against(a);
            let equal = a == b;
            let holds = [forward, backward, equal];
            assert_eq!(holds.iter().filter(|h| **h).count(), 1);
        }
    }
}

#[test]
fn ordinals_round_trip() {
    let gestures = [Gesture::Rock, Gesture::Paper, Gesture::Scissors];
    for g in gestures {
        assert_eq!(Gesture::from_ordinal(g.ordinal()), Some(g));
    }
    assert_eq!(Gesture::from_ordinal(-1), None);
    assert_eq!(Gesture::from_ordinal(3), None);
}
