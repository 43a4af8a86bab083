//! What the two decks are composed of. Each part of a deck can be built on
//! its own, from any enumeration of ranks, suits or arcana; a deck is its
//! parts laid one after the other.

use crate::card::{Card, MajorArcana, MinorArcana, Rank, Suit};
use vstd::prelude::*;

verus! {

/// The cards of one rank, one for each of `suits`, in their order.
pub open spec fn minor_row(rank: Rank, suits: Seq<Suit>) -> Seq<Card> {
    suits.map_values(|suit: Suit| Card::Minor(MinorArcana { rank, suit }))
}

/// Every rank of `ranks` in every suit of `suits`: all the cards of the first
/// rank, then all those of the second, and so on.
pub open spec fn minor_cards(ranks: Seq<Rank>, suits: Seq<Suit>) -> Seq<Card> {
    ranks.map_values(|rank: Rank| minor_row(rank, suits)).flatten()
}

/// The card of rank ninety-nine in each of `suits`.
pub open spec fn ninety_nine_cards(suits: Seq<Suit>) -> Seq<Card> {
    minor_row(Rank::NinetyNine, suits)
}

/// The suitless card of each of `ranks`.
pub open spec fn void_cards(ranks: Seq<Rank>) -> Seq<Card> {
    ranks.map_values(|rank: Rank| Card::Minor(MinorArcana { rank, suit: Suit::Void }))
}

/// One card for each of `arcana`.
pub open spec fn major_cards(arcana: Seq<MajorArcana>) -> Seq<Card> {
    arcana.map_values(|arcanum: MajorArcana| Card::Major(arcanum))
}

/// The two cards that belong to no arcana.
pub open spec fn extra_cards() -> Seq<Card> {
    seq![Card::White, Card::Black]
}

/// The standard deck: the minor arcana, then the major arcana.
pub open spec fn standard_deck() -> Seq<Card> {
    minor_cards(Rank::standard_ranks(), Suit::standard_suits()) + major_cards(
        MajorArcana::standard_arcana(),
    )
}

/// The Silicon Dawn deck: the standard minor arcana, the ninety-nines, the
/// suitless cards, the standard and the deck's own major arcana, and the two
/// extra cards.
pub open spec fn silicon_dawn_deck() -> Seq<Card> {
    minor_cards(Rank::standard_ranks(), Suit::standard_suits()) + ninety_nine_cards(
        Suit::standard_suits(),
    ) + void_cards(Rank::void_ranks()) + major_cards(
        MajorArcana::standard_arcana() + MajorArcana::silicon_dawn_arcana(),
    ) + extra_cards()
}

/// The minor arcana of the given ranks and suits.
pub fn minor_arcana(ranks: &Vec<Rank>, suits: &Vec<Suit>) -> (cards: Vec<Card>)
    ensures
        cards@ == minor_cards(ranks@, suits@),
        cards@.len() == ranks@.len() * suits@.len(),
{
    let mut cards: Vec<Card> = Vec::new();
    let ghost rows = ranks@.map_values(|rank: Rank| minor_row(rank, suits@));
    let mut i: usize = 0;
    while i < ranks.len()
        invariant
            i <= ranks.len(),
            rows == ranks@.map_values(|rank: Rank| minor_row(rank, suits@)),
            cards@ == rows.take(i as int).flatten(),
        decreases ranks.len() - i,
    {
        let rank = ranks[i];
        let ghost before = cards@;
        let mut j: usize = 0;
        while j < suits.len()
            invariant
                j <= suits.len(),
                cards@ == before + minor_row(rank, suits@).take(j as int),
            decreases suits.len() - j,
        {
            cards.push(Card::Minor(MinorArcana { rank, suit: suits[j] }));
            j += 1;
        }
        proof {
            assert(minor_row(rank, suits@).take(j as int) =~= minor_row(rank, suits@));
            assert(rows.take(i + 1) =~= rows.take(i as int).push(minor_row(rank, suits@)));
            rows.take(i as int).lemma_flatten_push(minor_row(rank, suits@));
        }
        i += 1;
    }
    proof {
        assert(rows.take(i as int) =~= rows);
        lemma_minor_cards_len(ranks@, suits@);
    }
    cards
}

/// The card of rank ninety-nine in each of the given suits.
pub fn ninety_nines(suits: &Vec<Suit>) -> (cards: Vec<Card>)
    ensures
        cards@ == ninety_nine_cards(suits@),
{
    let mut cards: Vec<Card> = Vec::new();
    let mut j: usize = 0;
    while j < suits.len()
        invariant
            j <= suits.len(),
            cards@ == ninety_nine_cards(suits@).take(j as int),
        decreases suits.len() - j,
    {
        cards.push(Card::Minor(MinorArcana { rank: Rank::NinetyNine, suit: suits[j] }));
        j += 1;
    }
    proof {
        assert(ninety_nine_cards(suits@).take(j as int) =~= ninety_nine_cards(suits@));
    }
    cards
}

/// The suitless card of each of the given ranks.
pub fn voids(ranks: &Vec<Rank>) -> (cards: Vec<Card>)
    ensures
        cards@ == void_cards(ranks@),
{
    let mut cards: Vec<Card> = Vec::new();
    let mut i: usize = 0;
    while i < ranks.len()
        invariant
            i <= ranks.len(),
            cards@ == void_cards(ranks@).take(i as int),
        decreases ranks.len() - i,
    {
        cards.push(Card::Minor(MinorArcana { rank: ranks[i], suit: Suit::Void }));
        i += 1;
    }
    proof {
        assert(void_cards(ranks@).take(i as int) =~= void_cards(ranks@));
    }
    cards
}

/// One card for each of the given major arcana.
pub fn major_arcana(arcana: &Vec<MajorArcana>) -> (cards: Vec<Card>)
    ensures
        cards@ == major_cards(arcana@),
{
    let mut cards: Vec<Card> = Vec::new();
    let mut i: usize = 0;
    while i < arcana.len()
        invariant
            i <= arcana.len(),
            cards@ == major_cards(arcana@).take(i as int),
        decreases arcana.len() - i,
    {
        cards.push(Card::Major(arcana[i]));
        i += 1;
    }
    proof {
        assert(major_cards(arcana@).take(i as int) =~= major_cards(arcana@));
    }
    cards
}

/// The two cards that belong to no arcana: the white one, then the black one.
pub fn extras() -> (cards: Vec<Card>)
    ensures
        cards@ == extra_cards(),
{
    vec![Card::White, Card::Black]
}

/// There are as many minor arcana as ranks times suits.
pub proof fn lemma_minor_cards_len(ranks: Seq<Rank>, suits: Seq<Suit>)
    ensures
        minor_cards(ranks, suits).len() == ranks.len() * suits.len(),
    decreases ranks.len(),
{
    let rows = ranks.map_values(|rank: Rank| minor_row(rank, suits));
    if ranks.len() == 0 {
        assert(rows.flatten() =~= Seq::<Card>::empty());
    } else {
        let front = ranks.drop_last();
        let front_rows = front.map_values(|rank: Rank| minor_row(rank, suits));
        lemma_minor_cards_len(front, suits);
        assert(rows =~= front_rows.push(minor_row(ranks.last(), suits)));
        front_rows.lemma_flatten_push(minor_row(ranks.last(), suits));
        assert((ranks.len() - 1) * suits.len() + suits.len() == ranks.len() * suits.len())
            by (nonlinear_arith);
    }
}

/// The standard deck has seventy-eight cards: fifty-six minor and twenty-two
/// major arcana.
pub proof fn standard_deck_has_78_cards()
    ensures
        standard_deck().len() == 78,
{
    lemma_minor_cards_len(Rank::standard_ranks(), Suit::standard_suits());
    assert(Rank::standard_ranks().len() == 14 && Suit::standard_suits().len() == 4);
}

/// The Silicon Dawn deck has ninety-four cards.
pub proof fn silicon_dawn_deck_has_94_cards()
    ensures
        silicon_dawn_deck().len() == 94,
{
    lemma_minor_cards_len(Rank::standard_ranks(), Suit::standard_suits());
    assert(Rank::standard_ranks().len() == 14 && Suit::standard_suits().len() == 4);
}

} // verus!
