//! The gesture enumeration and its cyclic beats-relation.

use vstd::prelude::*;

verus! {

/// One of the three playable gestures, ordered by ordinal position:
/// `Rock` is 0, `Paper` is 1, `Scissors` is 2.
#[derive(Clone, Copy, Debug, PartialEq, Eq, Structural)]
pub enum Gesture {
    Rock,
    Paper,
    Scissors,
}

/// The fixed cyclic win-rule: rock blunts scissors, scissors cut paper,
/// paper wraps rock, and never the reverse.
pub open spec fn beats(a: Gesture, b: Gesture) -> bool {
    match a {
        Gesture::Rock => b == Gesture::Scissors,
        Gesture::Paper => b == Gesture::Rock,
        Gesture::Scissors => b == Gesture::Paper,
    }
}

/// The beats-relation is a trichotomy: for every pair of gestures exactly
/// one of `beats(a, b)`, `beats(b, a)` and `a == b` holds.
pub proof fn lemma_beats_trichotomy(a: Gesture, b: Gesture)
    ensures
        beats(a, b) ==> !beats(b, a) && a != b,
        beats(b, a) ==> !beats(a, b) && a != b,
        a == b ==> !beats(a, b) && !beats(b, a),
        beats(a, b) || beats(b, a) || a == b,
{
}

impl Gesture {
    /// The fixed ordinal position of a gesture in the enumeration.
    pub open spec fn ordinal_spec(self) -> i8 {
        match self {
            Gesture::Rock => 0,
            Gesture::Paper => 1,
            Gesture::Scissors => 2,
        }
    }

    /// The ordinal position of this gesture.
    pub fn ordinal(&self) -> (r: i8)
        ensures
            r == self.ordinal_spec(),
    {
        match self {
            Gesture::Rock => 0,
            Gesture::Paper => 1,
            Gesture::Scissors => 2,
        }
    }

    /// The gesture at an ordinal position, if the position names one.
    pub fn from_ordinal(ordinal: i8) -> (r: Option<Gesture>)
        ensures
            r is Some <==> 0 <= ordinal <= 2,
            r is Some ==> r->Some_0.ordinal_spec() == ordinal,
    {
        if ordinal == 0 {
            Some(Gesture::Rock)
        } else if ordinal == 1 {
            Some(Gesture::Paper)
        } else if ordinal == 2 {
            Some(Gesture::Scissors)
        } else {
            None
        }
    }
}

/// The capability of challenging a gesture under the beats-relation.
pub trait CanChallenge {
    /// What the challenge decides, stated over the challenger's value.
    spec fn spec_wins_against(&self, other: Gesture) -> bool;

    /// Whether this challenger defeats `other`.
    fn wins_against(&self, other: Gesture) -> (r: bool)
        ensures
            r == self.spec_wins_against(other),
    ;
}

impl CanChallenge for Gesture {
    open spec fn spec_wins_against(&self, other: Gesture) -> bool {
        beats(*self, other)
    }

    fn wins_against(&self, other: Gesture) -> (r: bool) {
        match self {
            Gesture::Paper => other == Gesture::Rock,
            Gesture::Scissors => other == Gesture::Paper,
            Gesture::Rock => other == Gesture::Scissors,
        }
    }
}

} // verus!
