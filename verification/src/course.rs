use vstd::prelude::*;

use crate::player::Player;
use crate::table::{Roll, Table};

verus! {

impl Table {
    /// The table after the moves that `rolls` select, made one after
    /// another.
    pub open spec fn after_all(self, rolls: Seq<Roll>) -> Table
        decreases rolls.len(),
    {
        if rolls.len() == 0 {
            self
        } else {
            self.after_all(rolls.drop_last()).after(rolls.last())
        }
    }

    /// What the last of the moves that `rolls` select announces; nothing
    /// if no move is made.
    pub open spec fn announced(self, rolls: Seq<Roll>) -> Option<Player> {
        if rolls.len() == 0 {
            None
        } else {
            self.after_all(rolls.drop_last()).outcome(rolls.last())
        }
    }

    /// `rolls` is a course that a game can take from this table: no move
    /// but the last ends the game.
    pub open spec fn is_course(self, rolls: Seq<Roll>) -> bool {
        forall|i: int|
            0 <= i < rolls.len() - 1 ==> !(#[trigger] self.after_all(rolls.take(i))).ends_with(
                rolls[i],
            )
    }

    /// A course that has not ended the game can be continued by any move.
    pub proof fn lemma_course_continues(self, rolls: Seq<Roll>, roll: Roll)
        requires
            self.is_course(rolls),
            rolls.len() > 0 ==> !self.after_all(rolls.drop_last()).ends_with(rolls.last()),
        ensures
            self.is_course(rolls.push(roll)),
            self.after_all(rolls.push(roll)) == self.after_all(rolls).after(roll),
            self.announced(rolls.push(roll)) == self.after_all(rolls).outcome(roll),
    {
        let longer = rolls.push(roll);
        assert(longer.drop_last() =~= rolls);
        assert forall|i: int| 0 <= i < longer.len() - 1 implies !(#[trigger] self.after_all(
            longer.take(i),
        )).ends_with(longer[i]) by {
            assert(longer.take(i) =~= rolls.take(i));
            if i == rolls.len() - 1 {
                assert(rolls.take(i) =~= rolls.drop_last());
            }
        }
    }

    /// The turn passes with every move: after an even number of moves the
    /// same player is up as at the start, after an odd number the other.
    pub proof fn lemma_turns_pass(self, rolls: Seq<Roll>)
        ensures
            self.after_all(rolls).player_to_play == if rolls.len() % 2 == 0 {
                self.player_to_play
            } else {
                self.player_to_play.opponent()
            },
        decreases rolls.len(),
    {
        if rolls.len() > 0 {
            self.lemma_turns_pass(rolls.drop_last());
        }
    }

    /// However a game runs from a table in order, the table stays in
    /// order: it holds the same nine cards, four in hand and five in the
    /// two piles, and while no winner is announced a card is left in the
    /// private collection.
    pub proof fn lemma_course_keeps_order(self, rolls: Seq<Roll>)
        requires
            self.in_order(),
            self.in_play(),
            self.is_course(rolls),
        ensures
            self.after_all(rolls).in_order(),
            self.after_all(rolls).cards().to_multiset() == self.cards().to_multiset(),
            self.after_all(rolls).cards().len() == 9,
            self.after_all(rolls).gallery.len() + self.after_all(rolls).private_collection.len()
                == 5,
            self.announced(rolls) is None ==> self.after_all(rolls).in_play(),
        decreases rolls.len(),
    {
        if rolls.len() > 0 {
            let earlier = rolls.drop_last();
            assert forall|i: int| 0 <= i < earlier.len() - 1 implies !(#[trigger] self.after_all(
                earlier.take(i),
            )).ends_with(earlier[i]) by {
                assert(earlier.take(i) =~= rolls.take(i));
            }
            self.lemma_course_keeps_order(earlier);
            if earlier.len() > 0 {
                let i = earlier.len() - 1;
                assert(rolls.take(i) =~= earlier.drop_last());
                assert(!self.after_all(rolls.take(i)).ends_with(rolls[i]));
                assert(earlier.last() == rolls[i]);
            }
            let before = self.after_all(earlier);
            before.lemma_move_keeps_order(rolls.last());
            before.lemma_move_keeps_cards(rolls.last());
        }
        self.after_all(rolls).lemma_order_counts();
    }
}

} // verus!
