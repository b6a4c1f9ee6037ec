use vstd::multiset::Multiset;
use vstd::prelude::*;
use vstd::seq_lib::{
    lemma_multiset_commutative, to_multiset_build, to_multiset_contains, to_multiset_update,
};

use crate::card::Card;
use crate::deck::is_full_deck;
use crate::hand::Hand;
use crate::player::Player;
use crate::score::Stats;

verus! {

/// What chance decides in one move: whether the alarm goes off if the
/// player can pull it, which of the two cards in hand is given up, and
/// whether it is exchanged with the gallery or with the private collection.
#[derive(Clone, Copy, Debug, Hash, PartialEq, Eq, Structural)]
pub struct Roll {
    pub alarm: bool,
    pub first_card: bool,
    pub gallery: bool,
}

/// The table as the rules see it: both hands, whose turn it is, the gallery
/// (face up, taken from the front) and the private collection (face down,
/// taken from the back).
pub struct Table {
    pub player_one_hand: Hand,
    pub player_two_hand: Hand,
    pub player_to_play: Player,
    pub gallery: Seq<Card>,
    pub private_collection: Seq<Card>,
}

impl Table {
    /// The table after dealing `deck`: the first two cards to player one,
    /// the next two to player two, the fifth to the gallery and the last
    /// four to the private collection, with player one to move.
    pub open spec fn deal(deck: Seq<Card>) -> Table {
        Table {
            player_one_hand: Hand(deck[0], deck[1]),
            player_two_hand: Hand(deck[2], deck[3]),
            player_to_play: Player::One,
            gallery: deck.subrange(4, 5),
            private_collection: deck.subrange(5, 9),
        }
    }

    /// The four cards that the players hold, player one's first.
    pub open spec fn in_hands(self) -> Seq<Card> {
        seq![
            self.player_one_hand.0,
            self.player_one_hand.1,
            self.player_two_hand.0,
            self.player_two_hand.1,
        ]
    }

    /// Every card on the table: the hands, then the gallery, then the
    /// private collection.
    pub open spec fn cards(self) -> Seq<Card> {
        self.in_hands() + self.gallery + self.private_collection
    }

    /// The table of a game in progress or just over: the nine paintings
    /// are all there, each once, and the gallery is not empty.
    pub open spec fn in_order(self) -> bool {
        &&& is_full_deck(self.cards())
        &&& self.gallery.len() >= 1
    }

    /// The private collection still holds a card.
    pub open spec fn in_play(self) -> bool {
        self.private_collection.len() >= 1
    }

    /// The hand of `player`.
    pub open spec fn hand_of(self, player: Player) -> Hand {
        match player {
            Player::One => self.player_one_hand,
            Player::Two => self.player_two_hand,
        }
    }

    /// The table with `hand` given to `player`.
    pub open spec fn with_hand(self, player: Player, hand: Hand) -> Table {
        match player {
            Player::One => Table { player_one_hand: hand, ..self },
            Player::Two => Table { player_two_hand: hand, ..self },
        }
    }

    /// Who wins if the game stops now; `None` in a dead heat.
    pub open spec fn verdict(self) -> Option<Player> {
        Stats::winner(self.player_one_hand.stats(), self.player_two_hand.stats())
    }

    /// The player to move holds a painting that is wired to the alarm.
    pub open spec fn alarm_in_reach(self) -> bool {
        let hand = self.hand_of(self.player_to_play);
        Card::alarmed().contains(hand.0) || Card::alarmed().contains(hand.1)
    }

    /// The alarm stops the game on this move: chance allows it and the
    /// player to move can pull it.
    pub open spec fn alarm_rings(self, roll: Roll) -> bool {
        roll.alarm && self.alarm_in_reach()
    }

    /// The card that the player to move gives up.
    pub open spec fn given_up(self, roll: Roll) -> Card {
        let hand = self.hand_of(self.player_to_play);
        if roll.first_card {
            hand.0
        } else {
            hand.1
        }
    }

    /// The card that the player to move takes: the front of the gallery or
    /// the top of the private collection.
    pub open spec fn taken(self, roll: Roll) -> Card {
        if roll.gallery {
            self.gallery.first()
        } else {
            self.private_collection.last()
        }
    }

    /// The table after the move that `roll` selects. The turn passes in
    /// any case. Unless the alarm rings, the player swaps one card: with
    /// the front of the gallery, where the card given up takes the place of
    /// the one taken, or with the top of the private collection, where the
    /// card given up goes to the back of the gallery.
    pub open spec fn after(self, roll: Roll) -> Table {
        let player = self.player_to_play;
        let hand = self.hand_of(player);
        let passed = Table { player_to_play: player.opponent(), ..self };
        if self.alarm_rings(roll) {
            passed
        } else {
            let new_hand = if roll.first_card {
                Hand(self.taken(roll), hand.1)
            } else {
                Hand(hand.0, self.taken(roll))
            };
            let exchanged = passed.with_hand(player, new_hand);
            if roll.gallery {
                Table { gallery: self.gallery.update(0, self.given_up(roll)), ..exchanged }
            } else {
                Table {
                    gallery: self.gallery.push(self.given_up(roll)),
                    private_collection: self.private_collection.drop_last(),
                    ..exchanged
                }
            }
        }
    }

    /// The move that `roll` selects ends the game: the alarm rings, or the
    /// last card leaves the private collection.
    pub open spec fn ends_with(self, roll: Roll) -> bool {
        self.alarm_rings(roll) || (!roll.gallery && self.private_collection.len() == 1)
    }

    /// What the move that `roll` selects announces: the winner by the hands
    /// as they are after it if it ends the game, nothing if the game goes
    /// on.
    pub open spec fn outcome(self, roll: Roll) -> Option<Player> {
        if self.ends_with(roll) {
            self.after(roll).verdict()
        } else {
            None
        }
    }

    /// The move that `roll` selects can be made: the pile it takes from is
    /// not empty, and if it ends the game the hands are not in a dead heat.
    pub open spec fn admits(self, roll: Roll) -> bool {
        &&& !self.alarm_rings(roll) ==> if roll.gallery {
            self.gallery.len() >= 1
        } else {
            self.private_collection.len() >= 1
        }
        &&& self.ends_with(roll) ==> self.after(roll).verdict() is Some
    }

    /// Any move can be made, whatever chance decides.
    pub open spec fn ready(self) -> bool {
        forall|roll: Roll| #[trigger] self.admits(roll)
    }
}

/// Three piles laid end to end hold what the piles hold together.
proof fn lemma_piles_add_up(hands: Seq<Card>, gallery: Seq<Card>, private_collection: Seq<Card>)
    ensures
        (hands + gallery + private_collection).to_multiset() == hands.to_multiset().add(
            gallery.to_multiset(),
        ).add(private_collection.to_multiset()),
        (hands + gallery + private_collection).len() == hands.len() + gallery.len()
            + private_collection.len(),
{
    lemma_multiset_commutative(hands, gallery);
    lemma_multiset_commutative(hands + gallery, private_collection);
}

/// Trading a card of one pile for a card of another changes nothing in
/// what the piles hold together.
proof fn lemma_trade_keeps_sum(
    hands: Multiset<Card>,
    gallery: Multiset<Card>,
    rest: Multiset<Card>,
    given: Card,
    taken: Card,
)
    requires
        hands.count(given) >= 1,
        gallery.count(taken) >= 1,
    ensures
        hands.insert(taken).remove(given).add(gallery.insert(given).remove(taken)).add(rest)
            == hands.add(gallery).add(rest),
{
    broadcast use vstd::multiset::group_multiset_axioms;

    assert(hands.insert(taken).remove(given).add(gallery.insert(given).remove(taken)).add(rest)
        =~= hands.add(gallery).add(rest));
}

/// Taking a card from the third pile into the first, and giving one of the
/// first to the second, changes nothing in what the piles hold together.
proof fn lemma_draw_keeps_sum(
    hands: Multiset<Card>,
    gallery: Multiset<Card>,
    rest: Multiset<Card>,
    given: Card,
    taken: Card,
)
    requires
        hands.count(given) >= 1,
    ensures
        hands.insert(taken).remove(given).add(gallery.insert(given)).add(rest) == hands.add(
            gallery,
        ).add(rest.insert(taken)),
{
    broadcast use vstd::multiset::group_multiset_axioms;

    assert(hands.insert(taken).remove(given).add(gallery.insert(given)).add(rest) =~= hands.add(
        gallery,
    ).add(rest.insert(taken)));
}

impl Table {
    /// Dealing lays the deck out in order: nothing is lost or added, the
    /// gallery gets one card and the private collection four.
    pub proof fn lemma_deal_lays_out_deck(deck: Seq<Card>)
        requires
            deck.len() == 9,
        ensures
            Table::deal(deck).cards() == deck,
            Table::deal(deck).gallery.len() == 1,
            Table::deal(deck).private_collection.len() == 4,
            is_full_deck(deck) ==> Table::deal(deck).in_order() && Table::deal(deck).in_play(),
    {
        assert(Table::deal(deck).cards() =~= deck);
    }

    /// A table in order holds nine cards: four in hand and five in the two
    /// piles together.
    pub proof fn lemma_order_counts(self)
        requires
            self.in_order(),
        ensures
            self.cards().len() == 9,
            self.gallery.len() + self.private_collection.len() == 5,
            1 <= self.gallery.len() <= 5,
            self.private_collection.len() <= 4,
    {
    }

    /// On a table that holds the full deck the four cards in hand differ,
    /// so there is a winner whenever the game stops.
    pub proof fn lemma_full_table_has_verdict(self)
        requires
            is_full_deck(self.cards()),
        ensures
            self.verdict() is Some,
    {
        let cards = self.cards();
        assert(cards[0] == self.player_one_hand.0);
        assert(cards[1] == self.player_one_hand.1);
        assert(cards[2] == self.player_two_hand.0);
        assert(cards[3] == self.player_two_hand.1);
        Hand::lemma_distinct_hands_never_tie(self.player_one_hand, self.player_two_hand);
    }

    /// The verdict reads the two hands and nothing else: tables with the
    /// same hands have the same winner.
    pub proof fn lemma_verdict_reads_hands_only(self, other: Table)
        requires
            self.player_one_hand == other.player_one_hand,
            self.player_two_hand == other.player_two_hand,
        ensures
            self.verdict() == other.verdict(),
    {
    }

    /// A move only moves cards: where the pile it takes from is not empty,
    /// the table holds the same cards after it as before, each as often.
    /// An exchange with the gallery leaves both piles at their sizes; an
    /// exchange with the private collection moves one card's worth from
    /// there to the gallery; a ringing alarm leaves the piles alone.
    pub proof fn lemma_move_keeps_cards(self, roll: Roll)
        requires
            if roll.gallery {
                self.gallery.len() >= 1
            } else {
                self.private_collection.len() >= 1
            },
        ensures
            self.after(roll).cards().to_multiset() == self.cards().to_multiset(),
            self.after(roll).cards().len() == self.cards().len(),
            self.alarm_rings(roll) || roll.gallery ==> {
                &&& self.after(roll).gallery.len() == self.gallery.len()
                &&& self.after(roll).private_collection == self.private_collection
            },
            !self.alarm_rings(roll) && !roll.gallery ==> {
                &&& self.after(roll).gallery.len() == self.gallery.len() + 1
                &&& self.after(roll).private_collection.len() == self.private_collection.len() - 1
            },
    {
        let next = self.after(roll);
        let hands = self.in_hands();
        let next_hands = next.in_hands();
        let given = self.given_up(roll);
        let taken = self.taken(roll);
        lemma_piles_add_up(hands, self.gallery, self.private_collection);
        lemma_piles_add_up(next_hands, next.gallery, next.private_collection);
        if self.alarm_rings(roll) {
            assert(next_hands =~= hands);
        } else {
            let at: int = match self.player_to_play {
                Player::One => if roll.first_card { 0 } else { 1 },
                Player::Two => if roll.first_card { 2 } else { 3 },
            };
            assert(hands[at] == given);
            assert(next_hands =~= hands.update(at, taken));
            to_multiset_update(hands, at, taken);
            to_multiset_contains(hands, given);
            if roll.gallery {
                to_multiset_update(self.gallery, 0, given);
                to_multiset_contains(self.gallery, taken);
                lemma_trade_keeps_sum(
                    hands.to_multiset(),
                    self.gallery.to_multiset(),
                    self.private_collection.to_multiset(),
                    given,
                    taken,
                );
            } else {
                assert(self.private_collection =~= next.private_collection.push(taken));
                to_multiset_build(next.private_collection, taken);
                to_multiset_build(self.gallery, given);
                lemma_draw_keeps_sum(
                    hands.to_multiset(),
                    self.gallery.to_multiset(),
                    next.private_collection.to_multiset(),
                    given,
                    taken,
                );
            }
        }
    }

    /// A game in progress stays in order: on a table that holds the full
    /// deck, with a card left in the private collection, every move can be
    /// made and leaves a table that holds the full deck, with the gallery
    /// not empty. The move announces a winner exactly when it ends the game;
    /// otherwise a card is left in the private collection for the next
    /// move.
    pub proof fn lemma_move_keeps_order(self, roll: Roll)
        requires
            self.in_order(),
            self.in_play(),
        ensures
            self.admits(roll),
            self.after(roll).in_order(),
            self.outcome(roll) is Some <==> self.ends_with(roll),
            self.outcome(roll) is Some ==> self.outcome(roll) == self.after(roll).verdict(),
            self.outcome(roll) is None ==> self.after(roll).in_play(),
    {
        self.lemma_move_keeps_cards(roll);
        crate::deck::lemma_rearranged_full_deck(self.cards(), self.after(roll).cards());
        self.after(roll).lemma_full_table_has_verdict();
    }

    /// A table in order with a card left in the private collection is
    /// ready for any move.
    pub proof fn lemma_order_makes_ready(self)
        requires
            self.in_order(),
            self.in_play(),
        ensures
            self.ready(),
    {
        assert forall|roll: Roll| #[trigger] self.admits(roll) by {
            self.lemma_move_keeps_order(roll);
        }
    }

    /// While the game is open the next move can always be made: after a
    /// move that announces no winner, on a table in order, the table is
    /// ready for any move again.
    pub proof fn lemma_open_game_stays_ready(self, roll: Roll)
        requires
            self.in_order(),
            self.in_play(),
            self.outcome(roll) is None,
        ensures
            self.after(roll).ready(),
    {
        self.lemma_move_keeps_order(roll);
        self.after(roll).lemma_order_makes_ready();
    }
}

} // verus!
