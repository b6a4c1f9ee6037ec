use vstd::prelude::*;

use crate::card::Card;
use crate::score::{Score, Stats};

verus! {

/// The two cards a player holds.
#[derive(Clone, Copy, Debug, Hash, PartialEq, Eq, Structural)]
pub struct Hand(pub Card, pub Card);

/// How many of two flags are set.
pub open spec fn how_many(first: bool, second: bool) -> int {
    (if first { 1int } else { 0int }) + (if second { 1int } else { 0int })
}

/// The value of a card towards a tag: its own value if it carries the tag,
/// nothing if it does not.
pub open spec fn tagged_value(tagged: bool, value: int) -> int {
    if tagged {
        value
    } else {
        0
    }
}

/// The larger of two integers.
pub open spec fn larger(a: int, b: int) -> int {
    if a >= b {
        a
    } else {
        b
    }
}

impl Hand {
    /// The bonus for holding two works of one painter.
    pub open spec fn pair_bonus(self) -> int {
        if self.0.listing().artist == self.1.listing().artist {
            2
        } else {
            0
        }
    }

    /// What the hand is worth: the values of both cards and the pair bonus,
    /// then for masterpieces and for early works how many the hand holds and
    /// the best value among them (zero where it holds none).
    pub open spec fn stats(self) -> Stats {
        let a = self.0.listing();
        let b = self.1.listing();
        Stats {
            score: a.value + b.value + self.pair_bonus(),
            max_masterpiece_score: larger(
                tagged_value(a.masterpiece, a.value),
                tagged_value(b.masterpiece, b.value),
            ),
            masterpiece_count: how_many(a.masterpiece, b.masterpiece),
            max_early_work_score: larger(
                tagged_value(a.early_work, a.value),
                tagged_value(b.early_work, b.value),
            ),
            early_work_count: how_many(a.early_work, b.early_work),
        }
    }

    /// The same two cards, held the other way round.
    pub open spec fn swapped(self) -> Hand {
        Hand(self.1, self.0)
    }

    /// Scores the hand.
    pub fn calculate_score(&self) -> (score: Score)
        ensures
            score@ == self.stats(),
            self.0.listing().artist == self.1.listing().artist ==> score.score
                == self.0.listing().value + self.1.listing().value + 2,
            self.0.listing().artist != self.1.listing().artist ==> score.score
                == self.0.listing().value + self.1.listing().value,
            0 <= score.masterpiece_count <= 2,
            0 <= score.early_work_count <= 2,
            score.max_masterpiece_score == 0 <==> score.masterpiece_count == 0,
            score.max_early_work_score == 0 <==> score.early_work_count == 0,
    {
        let a = self.0;
        let b = self.1;
        let mut score = a.value() + b.value();
        if a.artist() == b.artist() {
            score += 2;
        }
        let max_masterpiece_score = match (a.is_masterpiece(), b.is_masterpiece()) {
            (true, true) => Hand::greater(a.value(), b.value()),
            (true, false) => a.value(),
            (false, true) => b.value(),
            (false, false) => 0,
        };
        let max_early_work_score = match (a.is_early_work(), b.is_early_work()) {
            (true, true) => Hand::greater(a.value(), b.value()),
            (true, false) => a.value(),
            (false, true) => b.value(),
            (false, false) => 0,
        };
        let masterpiece_count = Hand::flag(a.is_masterpiece()) + Hand::flag(b.is_masterpiece());
        let early_work_count = Hand::flag(a.is_early_work()) + Hand::flag(b.is_early_work());
        Score {
            score,
            max_masterpiece_score,
            masterpiece_count,
            max_early_work_score,
            early_work_count,
        }
    }

    /// One for a set flag, zero for a cleared one.
    fn flag(set: bool) -> (n: u8)
        ensures
            n == if set { 1int } else { 0int },
    {
        if set {
            1
        } else {
            0
        }
    }

    /// The greater of two values.
    fn greater(a: u8, b: u8) -> (m: u8)
        ensures
            m == larger(a as int, b as int),
    {
        if a >= b {
            a
        } else {
            b
        }
    }

    /// A hand is worth the same whichever way round it is held.
    pub proof fn lemma_stats_ignore_order(hand: Hand)
        ensures
            hand.swapped().stats() == hand.stats(),
    {
    }

    /// Two works of one painter earn two points on top of their values; two
    /// works of different painters earn their values and no more.
    pub proof fn lemma_pair_bonus(hand: Hand)
        ensures
            hand.0.listing().artist == hand.1.listing().artist ==> hand.stats().score
                == hand.0.listing().value + hand.1.listing().value + 2,
            hand.0.listing().artist != hand.1.listing().artist ==> hand.stats().score
                == hand.0.listing().value + hand.1.listing().value,
            4 <= hand.stats().score <= 10,
    {
    }

    /// A hand holds zero, one or two cards of a tag, and its best value for
    /// the tag is zero exactly when it holds none.
    pub proof fn lemma_counts_and_bests(hand: Hand)
        ensures
            0 <= hand.stats().masterpiece_count <= 2,
            0 <= hand.stats().early_work_count <= 2,
            hand.stats().max_masterpiece_score == 0 <==> hand.stats().masterpiece_count == 0,
            hand.stats().max_early_work_score == 0 <==> hand.stats().early_work_count == 0,
            hand.stats().masterpiece_count + hand.stats().early_work_count <= 2,
    {
    }

    /// With four different cards on the two hands the game cannot end in a
    /// dead heat: one of the two scores beats the other.
    pub proof fn lemma_distinct_hands_never_tie(one: Hand, two: Hand)
        requires
            one.0 != one.1,
            two.0 != two.1,
            one.0 != two.0,
            one.0 != two.1,
            one.1 != two.0,
            one.1 != two.1,
        ensures
            Stats::winner(one.stats(), two.stats()) is Some,
    {
    }
}

} // verus!
