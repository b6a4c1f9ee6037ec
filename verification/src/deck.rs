use vstd::prelude::*;
use vstd::seq_lib::{to_multiset_contains, to_multiset_len};

use crate::card::Card;
use crate::chance::shuffle_deck;

verus! {

/// A full deck holds each of the nine paintings exactly once, in any order.
pub open spec fn is_full_deck(cards: Seq<Card>) -> bool {
    &&& cards.len() == 9
    &&& cards.no_duplicates()
    &&& forall|card: Card| cards.contains(card)
}

impl Card {
    /// The nine paintings in catalogue order.
    pub open spec fn catalogue() -> Seq<Card> {
        seq![
            Card::WaterLilies,
            Card::MonaLisa,
            Card::StarryNight,
            Card::Guernica,
            Card::BlueNude,
            Card::TheNightWatch,
            Card::ThePotatoEaters,
            Card::Haystacks,
            Card::Sunflowers,
        ]
    }

    /// A freshly shuffled deck: the nine paintings, each once, in an order
    /// left to chance.
    pub fn new_deck() -> (deck: [Card; 9])
        ensures
            is_full_deck(deck@),
            deck@.to_multiset() == Card::catalogue().to_multiset(),
    {
        let mut deck = [
            Card::WaterLilies,
            Card::MonaLisa,
            Card::StarryNight,
            Card::Guernica,
            Card::BlueNude,
            Card::TheNightWatch,
            Card::ThePotatoEaters,
            Card::Haystacks,
            Card::Sunflowers,
        ];
        assert(deck@ =~= Card::catalogue());
        let mut rng = rand::thread_rng();
        shuffle_deck(&mut deck, &mut rng);
        proof {
            lemma_full_deck_iff_rearranged_catalogue(deck@);
        }
        deck
    }
}

/// The catalogue itself is a full deck.
pub proof fn lemma_catalogue_is_full_deck()
    ensures
        is_full_deck(Card::catalogue()),
{
    let all = Card::catalogue();
    assert forall|card: Card| all.contains(card) by {
        let at: int = match card {
            Card::WaterLilies => 0,
            Card::MonaLisa => 1,
            Card::StarryNight => 2,
            Card::Guernica => 3,
            Card::BlueNude => 4,
            Card::TheNightWatch => 5,
            Card::ThePotatoEaters => 6,
            Card::Haystacks => 7,
            Card::Sunflowers => 8,
        };
        assert(all[at] == card);
    }
}

/// In a full deck every painting occurs exactly once.
pub proof fn lemma_full_deck_counts(cards: Seq<Card>)
    requires
        is_full_deck(cards),
    ensures
        forall|card: Card| cards.to_multiset().count(card) == 1,
{
    cards.lemma_multiset_has_no_duplicates();
    assert forall|card: Card| cards.to_multiset().count(card) == 1 by {
        assert(cards.contains(card));
        to_multiset_contains(cards, card);
    }
}

/// The full decks are exactly the rearrangements of the catalogue: the
/// sequences that hold the same cards as often.
pub proof fn lemma_full_deck_iff_rearranged_catalogue(cards: Seq<Card>)
    ensures
        is_full_deck(cards) <==> cards.to_multiset() == Card::catalogue().to_multiset(),
{
    let all = Card::catalogue();
    lemma_catalogue_is_full_deck();
    lemma_full_deck_counts(all);
    if is_full_deck(cards) {
        lemma_full_deck_counts(cards);
        assert(cards.to_multiset() =~= all.to_multiset());
    }
    if cards.to_multiset() == all.to_multiset() {
        to_multiset_len(cards);
        to_multiset_len(all);
        cards.lemma_multiset_has_no_duplicates_conv();
        assert forall|card: Card| cards.contains(card) by {
            to_multiset_contains(cards, card);
        }
    }
}

/// Rearranging a full deck gives a full deck.
pub proof fn lemma_rearranged_full_deck(before: Seq<Card>, after: Seq<Card>)
    requires
        is_full_deck(before),
        after.to_multiset() == before.to_multiset(),
    ensures
        is_full_deck(after),
{
    lemma_full_deck_iff_rearranged_catalogue(before);
    lemma_full_deck_iff_rearranged_catalogue(after);
}

} // verus!
