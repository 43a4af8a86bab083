//! The cards a pile is made of: ranks, suits and arcana, and the fixed
//! enumerations the decks are composed from.

use vstd::prelude::*;

verus! {

/// The rank of a minor arcana card.
#[derive(Clone, Copy, Debug, PartialEq, Eq, Hash, Structural)]
pub enum Rank {
    Zero,
    Ace,
    Two,
    Three,
    Four,
    Five,
    Six,
    Seven,
    Eight,
    Nine,
    Ten,
    Progeny,
    Cavalier,
    Queen,
    King,
    NinetyNine,
}

/// The suit of a minor arcana card. `Void` marks a card that has none.
#[derive(Clone, Copy, Debug, PartialEq, Eq, Hash, Structural)]
pub enum Suit {
    Wands,
    Cups,
    Swords,
    Pentacles,
    Void,
}

/// A card of the minor arcana: one rank in one suit.
#[derive(Clone, Copy, Debug, PartialEq, Eq, Hash, Structural)]
pub struct MinorArcana {
    pub rank: Rank,
    pub suit: Suit,
}

/// A card of the major arcana. The first twenty-two belong to every deck,
/// the last five to the Silicon Dawn deck only.
#[derive(Clone, Copy, Debug, PartialEq, Eq, Hash, Structural)]
pub enum MajorArcana {
    Fool,
    Magician,
    HighPriestess,
    Empress,
    Emperor,
    Hierophant,
    Lovers,
    Chariot,
    Strength,
    Hermit,
    WheelOfFortune,
    Justice,
    HangedMan,
    Death,
    Temperance,
    Devil,
    Tower,
    Star,
    Moon,
    Sun,
    Judgement,
    World,
    History,
    Maya,
    VultureMother,
    SheIsLegend,
    AlephFour,
}

/// Any card that can lie in a pile.
#[derive(Clone, Copy, Debug, PartialEq, Eq, Hash, Structural)]
pub enum Card {
    Minor(MinorArcana),
    Major(MajorArcana),
    White,
    Black,
}

impl Rank {
    /// The fourteen ranks of a standard deck, lowest first.
    pub open spec fn standard_ranks() -> Seq<Rank> {
        seq![
            Rank::Ace,
            Rank::Two,
            Rank::Three,
            Rank::Four,
            Rank::Five,
            Rank::Six,
            Rank::Seven,
            Rank::Eight,
            Rank::Nine,
            Rank::Ten,
            Rank::Progeny,
            Rank::Cavalier,
            Rank::Queen,
            Rank::King,
        ]
    }

    /// The five ranks that the Silicon Dawn deck also holds without a suit.
    pub open spec fn void_ranks() -> Seq<Rank> {
        seq![Rank::Zero, Rank::Progeny, Rank::Cavalier, Rank::Queen, Rank::King]
    }

    /// The ranks of a standard deck, as `standard_ranks` lists them.
    pub fn standard() -> (ranks: Vec<Rank>)
        ensures
            ranks@ == Rank::standard_ranks(),
    {
        vec![
            Rank::Ace,
            Rank::Two,
            Rank::Three,
            Rank::Four,
            Rank::Five,
            Rank::Six,
            Rank::Seven,
            Rank::Eight,
            Rank::Nine,
            Rank::Ten,
            Rank::Progeny,
            Rank::Cavalier,
            Rank::Queen,
            Rank::King,
        ]
    }

    /// The ranks of the suitless cards, as `void_ranks` lists them.
    pub fn voids() -> (ranks: Vec<Rank>)
        ensures
            ranks@ == Rank::void_ranks(),
    {
        vec![Rank::Zero, Rank::Progeny, Rank::Cavalier, Rank::Queen, Rank::King]
    }
}

impl Suit {
    /// The four suits of a standard deck.
    pub open spec fn standard_suits() -> Seq<Suit> {
        seq![Suit::Wands, Suit::Cups, Suit::Swords, Suit::Pentacles]
    }

    /// The suits of a standard deck, as `standard_suits` lists them.
    pub fn standard() -> (suits: Vec<Suit>)
        ensures
            suits@ == Suit::standard_suits(),
    {
        vec![Suit::Wands, Suit::Cups, Suit::Swords, Suit::Pentacles]
    }
}

impl MajorArcana {
    /// The twenty-two major arcana of a standard deck, in their usual order.
    pub open spec fn standard_arcana() -> Seq<MajorArcana> {
        seq![
            MajorArcana::Fool,
            MajorArcana::Magician,
            MajorArcana::HighPriestess,
            MajorArcana::Empress,
            MajorArcana::Emperor,
            MajorArcana::Hierophant,
            MajorArcana::Lovers,
            MajorArcana::Chariot,
            MajorArcana::Strength,
            MajorArcana::Hermit,
            MajorArcana::WheelOfFortune,
            MajorArcana::Justice,
            MajorArcana::HangedMan,
            MajorArcana::Death,
            MajorArcana::Temperance,
            MajorArcana::Devil,
            MajorArcana::Tower,
            MajorArcana::Star,
            MajorArcana::Moon,
            MajorArcana::Sun,
            MajorArcana::Judgement,
            MajorArcana::World,
        ]
    }

    /// The five major arcana that only the Silicon Dawn deck holds.
    pub open spec fn silicon_dawn_arcana() -> Seq<MajorArcana> {
        seq![
            MajorArcana::History,
            MajorArcana::Maya,
            MajorArcana::VultureMother,
            MajorArcana::SheIsLegend,
            MajorArcana::AlephFour,
        ]
    }

    /// The major arcana of a standard deck, as `standard_arcana` lists them.
    pub fn standard() -> (arcana: Vec<MajorArcana>)
        ensures
            arcana@ == MajorArcana::standard_arcana(),
    {
        vec![
            MajorArcana::Fool,
            MajorArcana::Magician,
            MajorArcana::HighPriestess,
            MajorArcana::Empress,
            MajorArcana::Emperor,
            MajorArcana::Hierophant,
            MajorArcana::Lovers,
            MajorArcana::Chariot,
            MajorArcana::Strength,
            MajorArcana::Hermit,
            MajorArcana::WheelOfFortune,
            MajorArcana::Justice,
            MajorArcana::HangedMan,
            MajorArcana::Death,
            MajorArcana::Temperance,
            MajorArcana::Devil,
            MajorArcana::Tower,
            MajorArcana::Star,
            MajorArcana::Moon,
            MajorArcana::Sun,
            MajorArcana::Judgement,
            MajorArcana::World,
        ]
    }

    /// The major arcana of the Silicon Dawn deck alone, as
    /// `silicon_dawn_arcana` lists them.
    pub fn silicon_dawn() -> (arcana: Vec<MajorArcana>)
        ensures
            arcana@ == MajorArcana::silicon_dawn_arcana(),
    {
        vec![
            MajorArcana::History,
            MajorArcana::Maya,
            MajorArcana::VultureMother,
            MajorArcana::SheIsLegend,
            MajorArcana::AlephFour,
        ]
    }
}

} // verus!
