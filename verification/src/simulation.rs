//! Round simulation: gesture sources, the round classifier, the fixed-count
//! simulation loop, and the rendered tally.

use vstd::prelude::*;

use crate::gesture::{beats, CanChallenge, Gesture};
use crate::sampler::{fresh_rng, UniformGesture};
use crate::text::{decimal, push_decimal};

verus! {

/// How one round ended, seen from the contender's side.
#[derive(Clone, Copy, Debug, PartialEq, Eq, Structural)]
pub enum RoundResult {
    ContenderWin,
    OpponentWin,
    Draw,
}

/// How a pair of gestures is classified: equal gestures draw, a contender
/// gesture that beats the opponent's wins, anything else loses.
pub open spec fn round_result(contender: Gesture, opponent: Gesture) -> RoundResult {
    if contender == opponent {
        RoundResult::Draw
    } else if beats(contender, opponent) {
        RoundResult::ContenderWin
    } else {
        RoundResult::OpponentWin
    }
}

/// A supplier of one gesture per round. Sources are intentionally
/// inexhaustible: a draw never fails, and never changes which gestures the
/// source may later yield.
pub trait GestureSource {
    /// Whether the source is in a state fit for drawing.
    spec fn wf(&self) -> bool;

    /// Whether the source can yield `g` on a draw.
    spec fn may_yield(&self, g: Gesture) -> bool;

    /// Draw the next gesture.
    fn next_gesture(&mut self) -> (g: Gesture)
        requires
            old(self).wf(),
        ensures
            final(self).wf(),
            old(self).may_yield(g),
            forall|h: Gesture| final(self).may_yield(h) == old(self).may_yield(h),
    ;
}

/// A source that yields the same gesture every round.
#[derive(Clone, Copy, Debug, PartialEq, Eq, Structural)]
pub struct ConstantSource {
    pub gesture: Gesture,
}

impl GestureSource for ConstantSource {
    open spec fn wf(&self) -> bool {
        true
    }

    open spec fn may_yield(&self, g: Gesture) -> bool {
        g == self.gesture
    }

    fn next_gesture(&mut self) -> (g: Gesture) {
        self.gesture
    }
}

/// A source that draws each round's gesture uniformly from a fixed range.
pub struct RandomSource {
    pub sampler: UniformGesture,
    pub rng: rand::rngs::ThreadRng,
}

impl RandomSource {
    /// A random source over the given sampler's range, drawing from the
    /// thread-local generator.
    pub fn new(sampler: UniformGesture) -> (r: RandomSource)
        ensures
            r.sampler == sampler,
    {
        RandomSource { sampler, rng: fresh_rng() }
    }
}

impl GestureSource for RandomSource {
    open spec fn wf(&self) -> bool {
        self.sampler.wf()
    }

    open spec fn may_yield(&self, g: Gesture) -> bool {
        self.sampler.contains(g)
    }

    fn next_gesture(&mut self) -> (g: Gesture) {
        UniformGesture::sample(&self.sampler, &mut self.rng)
    }
}

/// Draw one gesture from each source and classify the pair. The result is
/// the classification of some pair the two sources may yield; what each
/// source may yield is unchanged by the round.
pub fn play_round<C: GestureSource, O: GestureSource>(
    contender: &mut C,
    opponent: &mut O,
) -> (r: RoundResult)
    requires
        old(contender).wf(),
        old(opponent).wf(),
    ensures
        final(contender).wf(),
        final(opponent).wf(),
        forall|g: Gesture| final(contender).may_yield(g) == old(contender).may_yield(g),
        forall|g: Gesture| final(opponent).may_yield(g) == old(opponent).may_yield(g),
        exists|cg: Gesture, og: Gesture|
            old(contender).may_yield(cg) && old(opponent).may_yield(og) && r == round_result(
                cg,
                og,
            ),
{
    let contender_gesture = contender.next_gesture();
    let opponent_gesture = opponent.next_gesture();

    let r = if contender_gesture == opponent_gesture {
        RoundResult::Draw
    } else if contender_gesture.wins_against(opponent_gesture) {
        RoundResult::ContenderWin
    } else {
        RoundResult::OpponentWin
    };
    proof {
        assert(old(contender).may_yield(contender_gesture) && old(opponent).may_yield(
            opponent_gesture,
        ) && r == round_result(contender_gesture, opponent_gesture));
    }
    r
}

/// Any outcome a round between two copies of one constant source can
/// produce is a draw: identical constant sources always tie, however often
/// the round is replayed.
pub proof fn lemma_identical_constant_sources_draw(source: ConstantSource, r: RoundResult)
    requires
        exists|cg: Gesture, og: Gesture|
            source.may_yield(cg) && source.may_yield(og) && r == round_result(cg, og),
    ensures
        r == RoundResult::Draw,
{
    let (cg, og) = choose|cg: Gesture, og: Gesture|
        source.may_yield(cg) && source.may_yield(og) && r == round_result(cg, og);
    assert(cg == source.gesture && og == source.gesture);
}

/// The collected outcomes of one simulation, in call order.
#[derive(Clone)]
pub struct SimulationResult {
    pub round_results: Vec<RoundResult>,
}

/// How many outcomes of a sequence equal `target`.
pub open spec fn count_of(s: Seq<RoundResult>, target: RoundResult) -> nat
    decreases s.len(),
{
    if s.len() == 0 {
        0
    } else {
        count_of(s.drop_last(), target) + (if s.last() == target {
            1nat
        } else {
            0nat
        })
    }
}

/// The summary line for a tally of wins, draws and losses.
pub open spec fn render_tally(wins: nat, draws: nat, losses: nat) -> Seq<char> {
    "Wins="@ + decimal(wins) + ", Draws="@ + decimal(draws) + ", Losses="@ + decimal(losses)
}

impl SimulationResult {
    /// The summary line of this result: wins, draws and losses counted over
    /// the whole outcome sequence, independently of order.
    pub open spec fn rendered(self) -> Seq<char> {
        render_tally(
            count_of(self.round_results@, RoundResult::ContenderWin),
            count_of(self.round_results@, RoundResult::Draw),
            count_of(self.round_results@, RoundResult::OpponentWin),
        )
    }

    /// Render the summary line `Wins={w}, Draws={d}, Losses={l}`.
    pub fn render(&self) -> (r: String)
        ensures
            r@ == self.rendered(),
    {
        let results = &self.round_results;
        let n = results.len();
        let mut wins: usize = 0;
        let mut draws: usize = 0;
        let mut losses: usize = 0;
        let mut i: usize = 0;
        while i < n
            invariant
                i <= n,
                n == results@.len(),
                wins == count_of(results@.take(i as int), RoundResult::ContenderWin),
                draws == count_of(results@.take(i as int), RoundResult::Draw),
                losses == count_of(results@.take(i as int), RoundResult::OpponentWin),
                wins <= i,
                draws <= i,
                losses <= i,
            decreases n - i,
        {
            proof {
                assert(results@.take(i as int + 1).drop_last() =~= results@.take(i as int));
                assert(results@.take(i as int + 1).last() == results@[i as int]);
            }
            match results[i] {
                RoundResult::ContenderWin => {
                    wins = wins + 1;
                },
                RoundResult::Draw => {
                    draws = draws + 1;
                },
                RoundResult::OpponentWin => {
                    losses = losses + 1;
                },
            }
            i = i + 1;
        }
        proof {
            assert(results@.take(n as int) =~= results@);
        }
        let mut out = String::from_str("Wins=");
        push_decimal(&mut out, wins);
        out.append(", Draws=");
        push_decimal(&mut out, draws);
        out.append(", Losses=");
        push_decimal(&mut out, losses);
        proof {
            assert(out@ =~= self.rendered());
        }
        out
    }
}

/// Run `rounds` rounds between the two sources, collecting one outcome per
/// round in call order. Every collected outcome classifies some pair the
/// sources may yield.
pub fn play_rounds<C: GestureSource, O: GestureSource>(
    contender: &mut C,
    opponent: &mut O,
    rounds: usize,
) -> (r: SimulationResult)
    requires
        old(contender).wf(),
        old(opponent).wf(),
    ensures
        final(contender).wf(),
        final(opponent).wf(),
        forall|g: Gesture| final(contender).may_yield(g) == old(contender).may_yield(g),
        forall|g: Gesture| final(opponent).may_yield(g) == old(opponent).may_yield(g),
        r.round_results@.len() == rounds,
        forall|i: int|
            0 <= i < rounds ==> exists|cg: Gesture, og: Gesture|
                old(contender).may_yield(cg) && old(opponent).may_yield(og)
                    && #[trigger] r.round_results@[i] == round_result(cg, og),
{
    let mut round_results: Vec<RoundResult> = Vec::new();
    let mut i: usize = 0;
    while i < rounds
        invariant
            i <= rounds,
            contender.wf(),
            opponent.wf(),
            forall|g: Gesture| contender.may_yield(g) == old(contender).may_yield(g),
            forall|g: Gesture| opponent.may_yield(g) == old(opponent).may_yield(g),
            round_results@.len() == i,
            forall|j: int|
                0 <= j < i ==> exists|cg: Gesture, og: Gesture|
                    old(contender).may_yield(cg) && old(opponent).may_yield(og)
                        && #[trigger] round_results@[j] == round_result(cg, og),
        decreases rounds - i,
    {
        let outcome = play_round(contender, opponent);
        round_results.push(outcome);
        i = i + 1;
    }
    let result = SimulationResult { round_results };
    proof {
        assert forall|j: int| 0 <= j < rounds implies exists|cg: Gesture, og: Gesture|
            old(contender).may_yield(cg) && old(opponent).may_yield(og) && #[trigger] result
                .round_results@[j] == round_result(cg, og) by {
            let (cg, og) = choose|cg: Gesture, og: Gesture|
                old(contender).may_yield(cg) && old(opponent).may_yield(og)
                    && #[trigger] round_results@[j] == round_result(cg, og);
            assert(old(contender).may_yield(cg) && old(opponent).may_yield(og)
                && result.round_results@[j] == round_result(cg, og));
        }
    }
    result
}

/// Run the stock match: one hundred rounds of a constant rock-playing
/// contender against an opponent drawn uniformly over the whole
/// enumeration, each round independently.
pub fn play_simulation() -> (r: SimulationResult)
    ensures
        r.round_results@.len() == 100,
        forall|i: int|
            0 <= i < 100 ==> exists|og: Gesture| #[trigger] r.round_results@[i] == round_result(
                Gesture::Rock,
                og,
            ),
{
    let mut contender = ConstantSource { gesture: Gesture::Rock };
    let sampler = match UniformGesture::new_inclusive(Gesture::Rock, Gesture::Scissors) {
        Ok(sampler) => sampler,
        Err(_) => vstd::pervasive::unreached(),
    };
    let mut opponent = RandomSource::new(sampler);
    let result = play_rounds(&mut contender, &mut opponent, 100);
    proof {
        assert forall|i: int| 0 <= i < 100 implies exists|og: Gesture| #[trigger] result
            .round_results@[i] == round_result(Gesture::Rock, og) by {
            let (cg, og) = choose|cg: Gesture, og: Gesture|
                contender.may_yield(cg) && opponent.may_yield(og) && result.round_results@[i]
                    == round_result(cg, og);
            assert(result.round_results@[i] == round_result(Gesture::Rock, og));
        }
    }
    result
}

} // verus!
