use vstd::prelude::*;

verus! {

/// The painters whose works make up the deck.
#[derive(Clone, Copy, Debug, Hash, PartialEq, Eq, Structural)]
pub enum Artist {
    Monet,
    DaVinci,
    VanGogh,
    Picasso,
    Rembrandt,
}

/// The nine paintings of the deck. Each exists exactly once.
#[derive(Clone, Copy, Debug, Hash, PartialEq, Eq, Structural)]
pub enum Card {
    WaterLilies,
    MonaLisa,
    StarryNight,
    Guernica,
    BlueNude,
    TheNightWatch,
    ThePotatoEaters,
    Haystacks,
    Sunflowers,
}

/// One line of the catalogue: everything the rules know about a painting
/// except whether it can trip the alarm.
pub struct Listing {
    pub artist: Artist,
    pub value: int,
    pub masterpiece: bool,
    pub early_work: bool,
}

impl Card {
    /// The catalogue, painting by painting.
    pub open spec fn listing(self) -> Listing {
        match self {
            Card::WaterLilies => Listing {
                artist: Artist::Monet,
                value: 4,
                masterpiece: false,
                early_work: false,
            },
            Card::MonaLisa => Listing {
                artist: Artist::DaVinci,
                value: 4,
                masterpiece: true,
                early_work: false,
            },
            Card::StarryNight => Listing {
                artist: Artist::VanGogh,
                value: 3,
                masterpiece: false,
                early_work: false,
            },
            Card::Guernica => Listing {
                artist: Artist::Picasso,
                value: 3,
                masterpiece: true,
                early_work: false,
            },
            Card::BlueNude => Listing {
                artist: Artist::Picasso,
                value: 3,
                masterpiece: false,
                early_work: true,
            },
            Card::TheNightWatch => Listing {
                artist: Artist::Rembrandt,
                value: 2,
                masterpiece: true,
                early_work: false,
            },
            Card::ThePotatoEaters => Listing {
                artist: Artist::VanGogh,
                value: 2,
                masterpiece: false,
                early_work: true,
            },
            Card::Haystacks => Listing {
                artist: Artist::Monet,
                value: 2,
                masterpiece: false,
                early_work: false,
            },
            Card::Sunflowers => Listing {
                artist: Artist::VanGogh,
                value: 2,
                masterpiece: true,
                early_work: false,
            },
        }
    }

    /// The paintings that are wired to the alarm.
    pub open spec fn alarmed() -> Set<Card> {
        set![Card::TheNightWatch, Card::ThePotatoEaters, Card::Sunflowers]
    }

    /// Who painted it.
    pub fn artist(&self) -> (artist: Artist)
        ensures
            artist == self.listing().artist,
    {
        match self {
            Card::WaterLilies | Card::Haystacks => Artist::Monet,
            Card::MonaLisa => Artist::DaVinci,
            Card::StarryNight | Card::ThePotatoEaters | Card::Sunflowers => Artist::VanGogh,
            Card::Guernica | Card::BlueNude => Artist::Picasso,
            Card::TheNightWatch => Artist::Rembrandt,
        }
    }

    /// Its point value: 2, 3 or 4.
    pub fn value(&self) -> (value: u8)
        ensures
            value == self.listing().value,
    {
        match self {
            Card::WaterLilies | Card::MonaLisa => 4,
            Card::StarryNight | Card::Guernica | Card::BlueNude => 3,
            Card::TheNightWatch | Card::ThePotatoEaters | Card::Haystacks | Card::Sunflowers => 2,
        }
    }

    /// Whether it counts as a masterpiece.
    pub fn is_masterpiece(&self) -> (yes: bool)
        ensures
            yes == self.listing().masterpiece,
    {
        match self {
            Card::MonaLisa | Card::Guernica | Card::Sunflowers | Card::TheNightWatch => true,
            _ => false,
        }
    }

    /// Whether it counts as an early work.
    pub fn is_early_work(&self) -> (yes: bool)
        ensures
            yes == self.listing().early_work,
    {
        match self {
            Card::BlueNude | Card::ThePotatoEaters => true,
            _ => false,
        }
    }

    /// Whether holding it lets a player pull the alarm.
    pub fn is_pull_alarm(&self) -> (yes: bool)
        ensures
            yes == Card::alarmed().contains(*self),
    {
        match self {
            Card::TheNightWatch | Card::ThePotatoEaters | Card::Sunflowers => true,
            _ => false,
        }
    }

    /// Every painting is worth 2, 3 or 4 points, and none is both a
    /// masterpiece and an early work.
    pub proof fn lemma_listing_bounds(card: Card)
        ensures
            2 <= card.listing().value <= 4,
            !(card.listing().masterpiece && card.listing().early_work),
    {
    }
}

/// How a flag is written out.
pub open spec fn flag_text(flag: bool) -> Seq<char> {
    if flag {
        "true"@
    } else {
        "false"@
    }
}

/// How a point value is written out.
pub open spec fn value_text(value: int) -> Seq<char> {
    if value == 2 {
        "2"@
    } else if value == 3 {
        "3"@
    } else {
        "4"@
    }
}

impl Artist {
    /// The painter's name as it is written out.
    pub open spec fn name_text(self) -> Seq<char> {
        match self {
            Artist::Monet => "Monet"@,
            Artist::DaVinci => "DaVinci"@,
            Artist::VanGogh => "VanGogh"@,
            Artist::Picasso => "Picasso"@,
            Artist::Rembrandt => "Rembrandt"@,
        }
    }

    /// The painter's name.
    pub fn name(&self) -> (name: &'static str)
        ensures
            name@ == self.name_text(),
    {
        match self {
            Artist::Monet => "Monet",
            Artist::DaVinci => "DaVinci",
            Artist::VanGogh => "VanGogh",
            Artist::Picasso => "Picasso",
            Artist::Rembrandt => "Rembrandt",
        }
    }
}

impl Card {
    /// The painting's title as it is written out.
    pub open spec fn title(self) -> Seq<char> {
        match self {
            Card::WaterLilies => "WaterLilies"@,
            Card::MonaLisa => "MonaLisa"@,
            Card::StarryNight => "StarryNight"@,
            Card::Guernica => "Guernica"@,
            Card::BlueNude => "BlueNude"@,
            Card::TheNightWatch => "TheNightWatch"@,
            Card::ThePotatoEaters => "ThePotatoEaters"@,
            Card::Haystacks => "Haystacks"@,
            Card::Sunflowers => "Sunflowers"@,
        }
    }

    /// The painting's line in a report: its title, then in brackets its
    /// painter, its value and its two tags.
    pub open spec fn description(self) -> Seq<char> {
        self.title() + " ("@ + self.listing().artist.name_text() + ", "@ + value_text(
            self.listing().value,
        ) + ", masterpiece: "@ + flag_text(self.listing().masterpiece) + ", early_work: "@
            + flag_text(self.listing().early_work) + ")"@
    }

    /// The painting's title.
    pub fn name(&self) -> (name: &'static str)
        ensures
            name@ == self.title(),
    {
        match self {
            Card::WaterLilies => "WaterLilies",
            Card::MonaLisa => "MonaLisa",
            Card::StarryNight => "StarryNight",
            Card::Guernica => "Guernica",
            Card::BlueNude => "BlueNude",
            Card::TheNightWatch => "TheNightWatch",
            Card::ThePotatoEaters => "ThePotatoEaters",
            Card::Haystacks => "Haystacks",
            Card::Sunflowers => "Sunflowers",
        }
    }

    /// Writes the painting out for a report, as in
    /// `Guernica (Picasso, 3, masterpiece: true, early_work: false)`.
    pub fn describe(&self) -> (text: String)
        ensures
            text@ == self.description(),
    {
        let mut text = String::from_str(self.name());
        text.append(" (");
        text.append(self.artist().name());
        text.append(", ");
        text.append(Card::digit(self.value()));
        text.append(", masterpiece: ");
        text.append(Card::word(self.is_masterpiece()));
        text.append(", early_work: ");
        text.append(Card::word(self.is_early_work()));
        text.append(")");
        text
    }

    /// A point value as text.
    fn digit(value: u8) -> (text: &'static str)
        requires
            2 <= value <= 4,
        ensures
            text@ == value_text(value as int),
    {
        if value == 2 {
            "2"
        } else if value == 3 {
            "3"
        } else {
            "4"
        }
    }

    /// A flag as text.
    fn word(flag: bool) -> (text: &'static str)
        ensures
            text@ == flag_text(flag),
    {
        if flag {
            "true"
        } else {
            "false"
        }
    }
}

} // verus!
