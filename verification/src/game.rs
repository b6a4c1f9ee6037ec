use vstd::prelude::*;

use crate::card::Card;
use crate::chance::draw;
use crate::deck::is_full_deck;
use crate::hand::Hand;
use crate::player::Player;
use crate::score::Score;
use crate::table::{Roll, Table};

verus! {

/// One game: both hands, whose turn it is, and the two shared piles. The
/// gallery is taken from the front, the private collection from the back.
#[derive(Clone, Debug, Hash, PartialEq, Eq)]
pub struct GameState {
    pub player_one_hand: Hand,
    pub player_two_hand: Hand,
    pub player_to_play: Player,
    pub gallery_deck: Vec<Card>,
    pub private_collection_deck: Vec<Card>,
}

impl View for GameState {
    type V = Table;

    open spec fn view(&self) -> Table {
        Table {
            player_one_hand: self.player_one_hand,
            player_two_hand: self.player_two_hand,
            player_to_play: self.player_to_play,
            gallery: self.gallery_deck@,
            private_collection: self.private_collection_deck@,
        }
    }
}

impl GameState {
    /// Deals `deck`: two cards to each player, one to the gallery, the last
    /// four to the private collection, of which the last is on top. Player
    /// one moves first.
    pub fn new(deck: [Card; 9]) -> (state: Self)
        ensures
            state@ == Table::deal(deck@),
            state@.cards() == deck@,
            is_full_deck(deck@) ==> state@.in_order() && state@.in_play() && state@.ready(),
    {
        let mut gallery_deck = Vec::with_capacity(5);
        gallery_deck.push(deck[4]);
        let state = GameState {
            player_one_hand: Hand(deck[0], deck[1]),
            player_two_hand: Hand(deck[2], deck[3]),
            player_to_play: Player::One,
            gallery_deck,
            private_collection_deck: vec![deck[5], deck[6], deck[7], deck[8]],
        };
        proof {
            assert(state@.gallery =~= deck@.subrange(4, 5));
            assert(state@.private_collection =~= deck@.subrange(5, 9));
            Table::lemma_deal_lays_out_deck(deck@);
            if is_full_deck(deck@) {
                state@.lemma_order_makes_ready();
            }
        }
        state
    }

    /// Names the winner by the two hands as they are. The hands must not
    /// be in a dead heat, which cannot happen while the table holds the
    /// full deck.
    pub fn calculate_winner(&self) -> (winner: Player)
        requires
            self@.verdict() is Some,
        ensures
            self@.verdict() == Some(winner),
    {
        let player_one = self.player_one_hand.calculate_score();
        let player_two = self.player_two_hand.calculate_score();
        match Score::decide(&player_one, &player_two) {
            Some(winner) => winner,
            None => unreached(),
        }
    }

    /// The hand of the player to move.
    fn hand_to_play(&self) -> (hand: Hand)
        ensures
            hand == self@.hand_of(self.player_to_play),
    {
        match self.player_to_play {
            Player::One => self.player_one_hand,
            Player::Two => self.player_two_hand,
        }
    }

    /// Whether the player to move holds a painting wired to the alarm.
    fn alarm_in_reach(&self) -> (yes: bool)
        ensures
            yes == self@.alarm_in_reach(),
    {
        let hand = self.hand_to_play();
        hand.0.is_pull_alarm() || hand.1.is_pull_alarm()
    }

    /// Makes the move that `roll` selects and announces the winner if it
    /// ends the game. The turn passes first. If chance allows the alarm and
    /// the player holds a painting wired to it, the game stops as the hands
    /// are. Otherwise the player swaps the chosen card with the front of
    /// the gallery, or with the top of the private collection, in which case
    /// the card given up goes to the back of the gallery and the game stops
    /// once the private collection is empty.
    pub fn play_move(&mut self, roll: Roll) -> (winner: Option<Player>)
        requires
            old(self)@.admits(roll),
        ensures
            final(self)@ == old(self)@.after(roll),
            winner == old(self)@.outcome(roll),
            winner is Some <==> old(self)@.ends_with(roll),
            winner is Some ==> winner == final(self)@.verdict(),
            final(self)@.cards().to_multiset() == old(self)@.cards().to_multiset(),
            final(self)@.cards().len() == old(self)@.cards().len(),
            old(self)@.in_order() ==> final(self)@.in_order(),
            old(self)@.in_play() && winner is None ==> final(self)@.in_play(),
    {
        proof {
            if !old(self)@.alarm_rings(roll) {
                old(self)@.lemma_move_keeps_cards(roll);
                if old(self)@.in_order() {
                    crate::deck::lemma_rearranged_full_deck(
                        old(self)@.cards(),
                        old(self)@.after(roll).cards(),
                    );
                }
            } else {
                assert(old(self)@.after(roll).cards() =~= old(self)@.cards());
            }
        }
        let player = self.player_to_play;
        let hand = self.hand_to_play();
        let alarm = roll.alarm && self.alarm_in_reach();
        self.player_to_play = player.next();
        if alarm {
            return Some(self.calculate_winner());
        }
        let card_to_play = if roll.first_card {
            hand.0
        } else {
            hand.1
        };
        let top_card = if roll.gallery {
            let front = self.gallery_deck[0];
            self.gallery_deck.set(0, card_to_play);
            front
        } else {
            let top = self.private_collection_deck.pop().unwrap();
            self.gallery_deck.push(card_to_play);
            top
        };
        let new_hand = if roll.first_card {
            Hand(top_card, hand.1)
        } else {
            Hand(hand.0, top_card)
        };
        match player {
            Player::One => {
                self.player_one_hand = new_hand;
            },
            Player::Two => {
                self.player_two_hand = new_hand;
            },
        }
        assert(self@ == old(self)@.after(roll));
        if !roll.gallery && self.private_collection_deck.is_empty() {
            return Some(self.calculate_winner());
        }
        None
    }

    /// Makes the next move, with chance deciding as the rules say: the
    /// alarm is allowed one time in ten; unless it rings, either card is
    /// given up as often as the other, and the gallery and the private
    /// collection are chosen as often as each other. The result is that of
    /// `play_move` for the roll that came up.
    pub fn play_next_move(&mut self) -> (winner: Option<Player>)
        requires
            old(self)@.ready(),
        ensures
            exists|roll: Roll|
                {
                    &&& final(self)@ == #[trigger] old(self)@.after(roll)
                    &&& winner == old(self)@.outcome(roll)
                },
            winner is Some ==> winner == final(self)@.verdict(),
            final(self)@.cards().to_multiset() == old(self)@.cards().to_multiset(),
            final(self)@.cards().len() == old(self)@.cards().len(),
            old(self)@.in_order() ==> final(self)@.in_order(),
            winner is None ==> final(self)@.in_play(),
            old(self)@.in_order() && winner is None ==> final(self)@.ready(),
    {
        let mut rng = rand::thread_rng();
        let alarm = draw(&mut rng, 1, 10);
        let roll = if alarm && self.alarm_in_reach() {
            Roll { alarm, first_card: false, gallery: false }
        } else {
            let first_card = draw(&mut rng, 1, 2);
            let gallery = draw(&mut rng, 1, 2);
            Roll { alarm, first_card, gallery }
        };
        proof {
            let quiet = Roll { alarm: false, first_card: true, gallery: false };
            assert(self@.admits(quiet));
            assert(self@.admits(roll));
        }
        let winner = self.play_move(roll);
        proof {
            if old(self)@.in_order() && winner is None {
                self@.lemma_order_makes_ready();
            }
        }
        winner
    }

    /// Plays on from a table in order until a move announces a winner or
    /// `ply_cap` moves are made, whichever comes first. `None` says that
    /// the cap was reached with the game still open.
    pub fn play_out(&mut self, ply_cap: u32) -> (winner: Option<Player>)
        requires
            old(self)@.in_order(),
            old(self)@.in_play(),
        ensures
            exists|rolls: Seq<Roll>|
                {
                    &&& rolls.len() <= ply_cap
                    &&& old(self)@.is_course(rolls)
                    &&& final(self)@ == #[trigger] old(self)@.after_all(rolls)
                    &&& winner == old(self)@.announced(rolls)
                    &&& winner is None ==> rolls.len() == ply_cap
                },
            winner is Some ==> winner == final(self)@.verdict(),
            winner is None ==> final(self)@.in_play(),
            final(self)@.in_order(),
            final(self)@.cards().to_multiset() == old(self)@.cards().to_multiset(),
    {
        let mut winner = None;
        let mut turns_remaining = ply_cap;
        let ghost start = self@;
        let ghost mut rolls: Seq<Roll> = Seq::empty();
        while turns_remaining > 0 && winner.is_none()
            invariant
                rolls.len() == ply_cap - turns_remaining,
                start.in_order(),
                start.in_play(),
                start.is_course(rolls),
                self@ == start.after_all(rolls),
                winner == start.announced(rolls),
                self@.in_order(),
                winner is None ==> self@.in_play(),
                winner is Some ==> winner == self@.verdict(),
                winner is None && rolls.len() > 0 ==> !start.after_all(rolls.drop_last()).ends_with(
                    rolls.last(),
                ),
            decreases turns_remaining,
        {
            turns_remaining -= 1;
            let ghost before = self@;
            proof {
                before.lemma_order_makes_ready();
            }
            winner = self.play_next_move();
            proof {
                let roll = choose|roll: Roll|
                    self@ == #[trigger] before.after(roll) && winner == before.outcome(roll);
                before.lemma_move_keeps_order(roll);
                start.lemma_course_continues(rolls, roll);
                assert(rolls.push(roll).drop_last() =~= rolls);
                rolls = rolls.push(roll);
            }
        }
        proof {
            start.lemma_course_keeps_order(rolls);
        }
        winner
    }

    /// Plays one game from a fresh shuffle, for at most `ply_cap` moves.
    /// `None` says that the cap was reached with the game still open: a
    /// stalemate.
    pub fn play_game(ply_cap: u32) -> (winner: Option<Player>)
        ensures
            exists|deck: Seq<Card>, rolls: Seq<Roll>|
                {
                    &&& is_full_deck(deck)
                    &&& rolls.len() <= ply_cap
                    &&& Table::deal(deck).is_course(rolls)
                    &&& winner == #[trigger] Table::deal(deck).announced(rolls)
                    &&& winner is None ==> rolls.len() == ply_cap
                },
    {
        let deck = Card::new_deck();
        let mut game_state = GameState::new(deck);
        let ghost start = game_state@;
        let winner = game_state.play_out(ply_cap);
        proof {
            let rolls = choose|rolls: Seq<Roll>|
                {
                    &&& rolls.len() <= ply_cap
                    &&& start.is_course(rolls)
                    &&& game_state@ == #[trigger] start.after_all(rolls)
                    &&& winner == start.announced(rolls)
                    &&& winner is None ==> rolls.len() == ply_cap
                };
            assert(winner == Table::deal(deck@).announced(rolls));
        }
        winner
    }
}

} // verus!
