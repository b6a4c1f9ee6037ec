use std::collections::HashSet;

use art_heist::Card;

const CATALOGUE: [Card; 9] = [
    Card::WaterLilies,
    Card::MonaLisa,
    Card::StarryNight,
    Card::Guernica,
    Card::BlueNude,
    Card::TheNightWatch,
    Card::ThePotatoEaters,
    Card::Haystacks,
    Card::Sunflowers,
];

#[test]
fn new_deck_holds_each_card_once() {
    for _ in 0..2000 {
        let deck = Card::new_deck();
        let seen: HashSet<Card> = deck.iter().copied().collect();
        assert_eq!(deck.len(), 9);
        assert_eq!(seen.len(), 9);
        for card in CATALOGUE {
            assert!(seen.contains(&card), "{:?} is missing", card);
        }
    }
}

#[test]
fn new_deck_is_shuffled() {
    let mut moved = 0;
    for _ in 0..200 {
        if Card::new_deck() != CATALOGUE {
            moved += 1;
        }
    }
    assert!(moved >= 190, "only {} of 200 decks left catalogue order", moved);
}

#[test]
fn new_deck_puts_every_card_in_every_place() {
    let mut seen: HashSet<(usize, Card)> = HashSet::new();
    for _ in 0..5000 {
        let deck = Card::new_deck();
        for (place, card) in deck.iter().enumerate() {
            seen.insert((place, *card));
        }
    }
    assert_eq!(seen.len(), 81);
}

#[test]
fn new_decks_differ_from_each_other() {
    let decks: HashSet<[Card; 9]> = (0..100).map(|_| Card::new_deck()).collect();
    assert!(decks.len() >= 90, "only {} different decks in 100", decks.len());
}
