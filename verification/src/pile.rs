//! A pile: cards in an order, with no owner and no name. It is built as one
//! of two decks or from any cards, and shuffled by a riffle whose cut point
//! and chunk size a random number generator picks.

use crate::card::{Card, MajorArcana, Rank, Suit};
use crate::deck::{
    extras, major_arcana, minor_arcana, ninety_nines, silicon_dawn_deck,
    silicon_dawn_deck_has_94_cards, standard_deck, standard_deck_has_78_cards, voids,
};
use crate::riffle::{
    cut_bounds, cut_range_is_not_empty, is_shuffle_of, riffle, riffled,
};
use rand::prng::XorShiftRng;
use rand::Rng;
use vstd::prelude::*;

verus! {

/// The Xorshift generator of the `rand` crate, which picks where a shuffle
/// cuts and how many cards fall at a time. Nothing of its state is visible
/// here.
#[verifier::external_type_specification]
#[verifier::external_body]
pub struct ExXorShiftRng(rand::prng::XorShiftRng);

/// A pile of cards, the top card first.
#[derive(Debug, PartialEq, Eq)]
pub struct Pile {
    cards: Vec<Card>,
}

impl View for Pile {
    type V = Seq<Card>;

    /// The cards of the pile in their order.
    closed spec fn view(&self) -> Seq<Card> {
        self.cards@
    }
}

impl From<Vec<Card>> for Pile {
    /// A pile of the given cards, in their order.
    fn from(cards: Vec<Card>) -> (pile: Pile)
        ensures
            pile@ == cards@,
    {
        Pile { cards }
    }
}

impl vstd::std_specs::convert::FromSpecImpl<Vec<Card>> for Pile {
    open spec fn obeys_from_spec() -> bool {
        true
    }

    closed spec fn from_spec(cards: Vec<Card>) -> Pile {
        Pile { cards }
    }
}

/// Draws a number with `Rng::gen_range`, which samples from the half-open
/// range that starts at `low` and ends before `high`, and panics where the
/// range is empty. Which number of the range comes is left open.
#[verifier::external_body]
fn draw(rng: &mut XorShiftRng, low: usize, high: usize) -> (drawn: usize)
    requires
        low < high,
    ensures
        low <= drawn < high,
{
    rng.gen_range(low, high)
}

impl Pile {
    /// A new pile of the standard deck: the fifty-six minor arcana, rank by
    /// rank, then the twenty-two major arcana. The order is fixed, not random.
    pub fn standard() -> (pile: Pile)
        ensures
            pile@ == standard_deck(),
            pile@.len() == 78,
    {
        let ranks = Rank::standard();
        let suits = Suit::standard();
        let arcana = MajorArcana::standard();
        let mut cards = minor_arcana(&ranks, &suits);
        let mut major = major_arcana(&arcana);
        cards.append(&mut major);
        proof {
            standard_deck_has_78_cards();
        }
        Pile { cards }
    }

    /// A new pile of the Silicon Dawn deck: the standard minor arcana, the
    /// ninety-nine of each suit, the five suitless cards, the major arcana of
    /// the standard deck and of this one, and the white and the black card.
    /// The order is fixed, not random.
    pub fn silicon_dawn() -> (pile: Pile)
        ensures
            pile@ == silicon_dawn_deck(),
            pile@.len() == 94,
    {
        let ranks = Rank::standard();
        let suits = Suit::standard();
        let void_ranks = Rank::voids();
        let mut arcana = MajorArcana::standard();
        let mut own_arcana = MajorArcana::silicon_dawn();
        arcana.append(&mut own_arcana);
        let mut cards = minor_arcana(&ranks, &suits);
        let mut ninety_nines = ninety_nines(&suits);
        let mut voids = voids(&void_ranks);
        let mut major = major_arcana(&arcana);
        let mut extra = extras();
        cards.append(&mut ninety_nines);
        cards.append(&mut voids);
        cards.append(&mut major);
        cards.append(&mut extra);
        proof {
            silicon_dawn_deck_has_94_cards();
        }
        Pile { cards }
    }

    /// The cards of the pile in their order, the top card first.
    pub fn cards(&self) -> (cards: &Vec<Card>)
        ensures
            cards@ == self@,
    {
        &self.cards
    }

    /// Riffles the pile once: cuts it before the card at `cut_point`, breaks
    /// both halves into chunks of `chunk_size` cards and lets the chunks fall
    /// alternately, the lower half's first. Both halves must hold a card.
    pub fn riffle(&mut self, cut_point: usize, chunk_size: usize)
        requires
            0 < cut_point < old(self)@.len(),
            chunk_size > 0,
        ensures
            final(self)@ == riffled(old(self)@, cut_point as nat, chunk_size as nat),
            final(self)@.to_multiset() == old(self)@.to_multiset(),
            final(self)@.len() == old(self)@.len(),
    {
        self.cards = riffle(&self.cards, cut_point, chunk_size);
    }

    /// Shuffles the pile as a hand would. A pile of fewer than two cards is
    /// left as it is, and the generator is not touched. Any other pile is
    /// riffled once: the generator picks the cut point, within a sixth of the
    /// pile's size of its middle, and then whether two or three cards fall at
    /// a time. No card is lost, added or changed.
    pub fn shuffle(&mut self, rng: &mut XorShiftRng)
        ensures
            old(self)@.len() < 2 ==> final(self)@ == old(self)@ && *final(rng) == *old(rng),
            old(self)@.len() >= 2 ==> is_shuffle_of(final(self)@, old(self)@),
            final(self)@.to_multiset() == old(self)@.to_multiset(),
            final(self)@.len() == old(self)@.len(),
    {
        let n: usize = self.cards.len();
        if n < 2 {
            return ;
        }
        let (low, high) = cut_bounds(n);
        proof {
            cut_range_is_not_empty(n as nat);
        }
        let cut_point: usize = draw(rng, low, high);
        let chunk_size: usize = draw(rng, 2, 4);
        self.riffle(cut_point, chunk_size);
    }
}

} // verus!
