use vstd::prelude::*;

use crate::player::Player;

verus! {

/// What a hand is worth, as the players compare it when the game stops.
#[derive(Clone, Copy, Debug, Hash, PartialEq, Eq, Structural)]
pub struct Score {
    pub score: u8,
    pub max_masterpiece_score: u8,
    pub masterpiece_count: u8,
    pub max_early_work_score: u8,
    pub early_work_count: u8,
}

/// The five figures of a score as plain integers.
pub struct Stats {
    pub score: int,
    pub max_masterpiece_score: int,
    pub masterpiece_count: int,
    pub max_early_work_score: int,
    pub early_work_count: int,
}

impl View for Score {
    type V = Stats;

    open spec fn view(&self) -> Stats {
        Stats {
            score: self.score as int,
            max_masterpiece_score: self.max_masterpiece_score as int,
            masterpiece_count: self.masterpiece_count as int,
            max_early_work_score: self.max_early_work_score as int,
            early_work_count: self.early_work_count as int,
        }
    }
}

impl Stats {
    /// `self` beats `other`: at the first figure on which the two differ,
    /// taken in the order score, number of masterpieces, number of early
    /// works, best masterpiece, best early work, `self` has the better one.
    /// More is better everywhere but for the number of early works, where
    /// fewer is better.
    pub open spec fn beats(self, other: Stats) -> bool {
        ||| self.score > other.score
        ||| self.score == other.score
            && self.masterpiece_count > other.masterpiece_count
        ||| self.score == other.score
            && self.masterpiece_count == other.masterpiece_count
            && self.early_work_count < other.early_work_count
        ||| self.score == other.score
            && self.masterpiece_count == other.masterpiece_count
            && self.early_work_count == other.early_work_count
            && self.max_masterpiece_score > other.max_masterpiece_score
        ||| self.score == other.score
            && self.masterpiece_count == other.masterpiece_count
            && self.early_work_count == other.early_work_count
            && self.max_masterpiece_score == other.max_masterpiece_score
            && self.max_early_work_score > other.max_early_work_score
    }

    /// Who wins when player one holds `one` and player two holds `two`.
    /// `None` stands for a dead heat: all five figures agree.
    pub open spec fn winner(one: Stats, two: Stats) -> Option<Player> {
        if one.beats(two) {
            Some(Player::One)
        } else if two.beats(one) {
            Some(Player::Two)
        } else {
            None
        }
    }

    /// Nobody beats an equal score, two scores never beat each other, and
    /// of two different scores one beats the other.
    pub proof fn lemma_beats_is_strict_total(a: Stats, b: Stats)
        ensures
            !a.beats(a),
            !(a.beats(b) && b.beats(a)),
            a != b ==> a.beats(b) || b.beats(a),
    {
    }

    /// Beating carries over: what beats a score also beats all that this
    /// score beats.
    pub proof fn lemma_beats_is_transitive(a: Stats, b: Stats, c: Stats)
        requires
            a.beats(b),
            b.beats(c),
        ensures
            a.beats(c),
    {
    }

    /// The game is a dead heat exactly when the two scores are the same.
    pub proof fn lemma_dead_heat_iff_equal(one: Stats, two: Stats)
        ensures
            Stats::winner(one, two) is None <==> one == two,
    {
    }

    /// Swapping the seats swaps the winner.
    pub proof fn lemma_winner_swaps_with_seats(one: Stats, two: Stats)
        ensures
            Stats::winner(two, one) == match Stats::winner(one, two) {
                Some(player) => Some(player.opponent()),
                None => None,
            },
    {
    }
}

impl Score {
    /// Compares the scores of the two players and names the winner, or
    /// `None` in a dead heat. The figures are taken one after another and
    /// the first that differs decides.
    pub fn decide(player_one: &Score, player_two: &Score) -> (winner: Option<Player>)
        ensures
            winner == Stats::winner(player_one@, player_two@),
    {
        if player_one.score != player_two.score {
            return Some(Score::higher(player_one.score, player_two.score));
        }
        if player_one.masterpiece_count != player_two.masterpiece_count {
            return Some(Score::higher(player_one.masterpiece_count, player_two.masterpiece_count));
        }
        if player_one.early_work_count != player_two.early_work_count {
            return Some(Score::higher(player_two.early_work_count, player_one.early_work_count));
        }
        if player_one.max_masterpiece_score != player_two.max_masterpiece_score {
            return Some(
                Score::higher(player_one.max_masterpiece_score, player_two.max_masterpiece_score),
            );
        }
        if player_one.max_early_work_score != player_two.max_early_work_score {
            return Some(
                Score::higher(player_one.max_early_work_score, player_two.max_early_work_score),
            );
        }
        None
    }

    /// The player whose figure is the larger of two that differ.
    fn higher(one: u8, two: u8) -> (leader: Player)
        requires
            one != two,
        ensures
            leader == if one > two { Player::One } else { Player::Two },
    {
        if one > two {
            Player::One
        } else {
            Player::Two
        }
    }
}

} // verus!
