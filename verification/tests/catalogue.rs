use art_heist::{Artist, Card};

const ALL: [Card; 9] = [
    Card::WaterLilies,
    Card::MonaLisa,
    Card::StarryNight,
    Card::Guernica,
    Card::BlueNude,
    Card::TheNightWatch,
    Card::ThePotatoEaters,
    Card::Haystacks,
    Card::Sunflowers,
];

fn row(card: Card) -> (Artist, u8, bool, bool, bool) {
    (
        card.artist(),
        card.value(),
        card.is_masterpiece(),
        card.is_early_work(),
        card.is_pull_alarm(),
    )
}

#[test]
fn water_lilies_row() {
    assert_eq!(row(Card::WaterLilies), (Artist::Monet, 4, false, false, false));
}

#[test]
fn mona_lisa_row() {
    assert_eq!(row(Card::MonaLisa), (Artist::DaVinci, 4, true, false, false));
}

#[test]
fn starry_night_row() {
    assert_eq!(row(Card::StarryNight), (Artist::VanGogh, 3, false, false, false));
}

#[test]
fn guernica_row() {
    assert_eq!(row(Card::Guernica), (Artist::Picasso, 3, true, false, false));
}

#[test]
fn blue_nude_row() {
    assert_eq!(row(Card::BlueNude), (Artist::Picasso, 3, false, true, false));
}

#[test]
fn the_night_watch_row() {
    assert_eq!(row(Card::TheNightWatch), (Artist::Rembrandt, 2, true, false, true));
}

#[test]
fn the_potato_eaters_row() {
    assert_eq!(row(Card::ThePotatoEaters), (Artist::VanGogh, 2, false, true, true));
}

#[test]
fn haystacks_row() {
    assert_eq!(row(Card::Haystacks), (Artist::Monet, 2, false, false, false));
}

#[test]
fn sunflowers_row() {
    assert_eq!(row(Card::Sunflowers), (Artist::VanGogh, 2, true, false, true));
}

#[test]
fn values_are_two_three_or_four() {
    for card in ALL {
        assert!((2..=4).contains(&card.value()), "{:?}", card);
    }
    let total: u32 = ALL.iter().map(|card| u32::from(card.value())).sum();
    assert_eq!(total, 25);
}

#[test]
fn four_masterpieces_two_early_works_three_alarmed() {
    let masterpieces: Vec<Card> = ALL.iter().copied().filter(|c| c.is_masterpiece()).collect();
    let early_works: Vec<Card> = ALL.iter().copied().filter(|c| c.is_early_work()).collect();
    let alarmed: Vec<Card> = ALL.iter().copied().filter(|c| c.is_pull_alarm()).collect();
    assert_eq!(
        masterpieces,
        vec![Card::MonaLisa, Card::Guernica, Card::TheNightWatch, Card::Sunflowers]
    );
    assert_eq!(early_works, vec![Card::BlueNude, Card::ThePotatoEaters]);
    assert_eq!(
        alarmed,
        vec![Card::TheNightWatch, Card::ThePotatoEaters, Card::Sunflowers]
    );
}

#[test]
fn no_card_is_both_masterpiece_and_early_work() {
    for card in ALL {
        assert!(!(card.is_masterpiece() && card.is_early_work()), "{:?}", card);
    }
}

#[test]
fn painters_by_number_of_works() {
    let count = |artist: Artist| ALL.iter().filter(|c| c.artist() == artist).count();
    assert_eq!(count(Artist::Monet), 2);
    assert_eq!(count(Artist::DaVinci), 1);
    assert_eq!(count(Artist::VanGogh), 3);
    assert_eq!(count(Artist::Picasso), 2);
    assert_eq!(count(Artist::Rembrandt), 1);
}

#[test]
fn painter_names() {
    assert_eq!(Artist::Monet.name(), "Monet");
    assert_eq!(Artist::DaVinci.name(), "DaVinci");
    assert_eq!(Artist::VanGogh.name(), "VanGogh");
    assert_eq!(Artist::Picasso.name(), "Picasso");
    assert_eq!(Artist::Rembrandt.name(), "Rembrandt");
}

#[test]
fn card_titles() {
    let titles: Vec<&str> = ALL.iter().map(|card| card.name()).collect();
    assert_eq!(
        titles,
        vec![
            "WaterLilies",
            "MonaLisa",
            "StarryNight",
            "Guernica",
            "BlueNude",
            "TheNightWatch",
            "ThePotatoEaters",
            "Haystacks",
            "Sunflowers",
        ]
    );
}

#[test]
fn describe_writes_title_painter_value_and_tags() {
    assert_eq!(
        Card::WaterLilies.describe(),
        "WaterLilies (Monet, 4, masterpiece: false, early_work: false)"
    );
    assert_eq!(
        Card::MonaLisa.describe(),
        "MonaLisa (DaVinci, 4, masterpiece: true, early_work: false)"
    );
    assert_eq!(
        Card::StarryNight.describe(),
        "StarryNight (VanGogh, 3, masterpiece: false, early_work: false)"
    );
    assert_eq!(
        Card::Guernica.describe(),
        "Guernica (Picasso, 3, masterpiece: true, early_work: false)"
    );
    assert_eq!(
        Card::BlueNude.describe(),
        "BlueNude (Picasso, 3, masterpiece: false, early_work: true)"
    );
    assert_eq!(
        Card::TheNightWatch.describe(),
        "TheNightWatch (Rembrandt, 2, masterpiece: true, early_work: false)"
    );
    assert_eq!(
        Card::ThePotatoEaters.describe(),
        "ThePotatoEaters (VanGogh, 2, masterpiece: false, early_work: true)"
    );
    assert_eq!(
        Card::Haystacks.describe(),
        "Haystacks (Monet, 2, masterpiece: false, early_work: false)"
    );
    assert_eq!(
        Card::Sunflowers.describe(),
        "Sunflowers (VanGogh, 2, masterpiece: true, early_work: false)"
    );
}

#[test]
fn describe_agrees_with_the_lookups() {
    for card in ALL {
        let expected = format!(
            "{} ({}, {}, masterpiece: {}, early_work: {})",
            card.name(),
            card.artist().name(),
            card.value(),
            card.is_masterpiece(),
            card.is_early_work()
        );
        assert_eq!(card.describe(), expected);
    }
}
