use rand::prng::XorShiftRng;
use rand::{Rng, RngCore};
use rand_core::SeedableRng;
use tarot_pile::card::{Card, MajorArcana, MinorArcana, Rank, Suit};
use tarot_pile::pile::Pile;
use tarot_pile::riffle::{cut_bounds, riffle};

fn rng() -> XorShiftRng {
    XorShiftRng::from_seed([0, 1, 2, 3, 4, 5, 6, 7, 8, 9, 10, 11, 12, 13, 14, 15])
}

fn seeded(k: u8) -> XorShiftRng {
    let mut seed = [0u8; 16];
    for i in 0..16u8 {
        seed[i as usize] = (k.wrapping_mul(97).wrapping_add(i.wrapping_mul(59)) ^ (k >> (i % 5))) | 1;
    }
    XorShiftRng::from_seed(seed)
}

fn count(cards: &Vec<Card>, card: Card) -> usize {
    cards.iter().filter(|c| **c == card).count()
}

#[test]
fn count_standard_pile() {
    assert_eq!(Pile::standard().cards().len(), 78)
}

#[test]
fn count_silicon_dawn() {
    assert_eq!(Pile::silicon_dawn().cards().len(), 94)
}

#[test]
fn shuffle_one_card_pile() {
    Pile::from(vec![Card::Black]).shuffle(&mut rng())
}

#[test]
fn shuffle_two_card_pile() {
    Pile::from(vec![Card::Black]).shuffle(&mut rng());
    let mut pair = Pile::from(vec![Card::Black, Card::White]);
    pair.shuffle(&mut rng());
    assert_eq!(*pair.cards(), vec![Card::White, Card::Black]);
}

#[test]
fn shuffle_two_card_pile_always_swaps() {
    let mut pile = Pile::from(vec![Card::Black, Card::White]);
    pile.shuffle(&mut rng());
    assert_eq!(*pile.cards(), vec![Card::White, Card::Black]);
    pile.shuffle(&mut rng());
    assert_eq!(*pile.cards(), vec![Card::Black, Card::White]);
    pile.shuffle(&mut rng());
    assert_eq!(*pile.cards(), vec![Card::White, Card::Black]);
    pile.shuffle(&mut rng());
    assert_eq!(*pile.cards(), vec![Card::Black, Card::White]);
}

#[test]
fn shuffle_four_card_pile_always_swaps_pairs() {
    let cards = vec![
        Card::Major(MajorArcana::Fool),
        Card::Major(MajorArcana::Magician),
        Card::Major(MajorArcana::HighPriestess),
        Card::Major(MajorArcana::Empress),
    ];
    let swapped = vec![
        Card::Major(MajorArcana::HighPriestess),
        Card::Major(MajorArcana::Empress),
        Card::Major(MajorArcana::Fool),
        Card::Major(MajorArcana::Magician),
    ];
    let mut pile = Pile::from(cards.clone());
    pile.shuffle(&mut rng());
    assert_eq!(*pile.cards(), swapped);
    pile.shuffle(&mut rng());
    assert_eq!(*pile.cards(), cards);
    pile.shuffle(&mut rng());
    assert_eq!(*pile.cards(), swapped);
    pile.shuffle(&mut rng());
    assert_eq!(*pile.cards(), cards);
}

#[test]
fn pile_from_cards_keeps_their_order() {
    let cards = vec![Card::White, Card::Major(MajorArcana::Tower), Card::Black, Card::White];
    let pile = Pile::from(cards.clone());
    assert_eq!(*pile.cards(), cards);
    assert_eq!(pile, Pile::from(cards));
    assert_ne!(pile, Pile::from(vec![Card::White]));
}

#[test]
fn shuffle_empty_pile_changes_nothing_and_draws_nothing() {
    let mut pile = Pile::from(Vec::new());
    let mut used = rng();
    pile.shuffle(&mut used);
    assert!(pile.cards().is_empty());
    let mut fresh = rng();
    assert_eq!(used.next_u64(), fresh.next_u64());
    assert_eq!(used.next_u32(), fresh.next_u32());
}

#[test]
fn shuffle_single_card_changes_nothing_and_draws_nothing() {
    let mut pile = Pile::from(vec![Card::Major(MajorArcana::Moon)]);
    let mut used = rng();
    pile.shuffle(&mut used);
    assert_eq!(*pile.cards(), vec![Card::Major(MajorArcana::Moon)]);
    let mut fresh = rng();
    assert_eq!(used.next_u64(), fresh.next_u64());
    assert_eq!(used.next_u32(), fresh.next_u32());
}

#[test]
fn shuffle_of_a_larger_pile_draws_from_the_generator() {
    let mut pile = Pile::standard();
    let mut used = rng();
    pile.shuffle(&mut used);
    let mut fresh = rng();
    assert_ne!(
        (used.next_u64(), used.next_u64()),
        (fresh.next_u64(), fresh.next_u64())
    );
}

#[test]
fn shuffle_three_card_pile_cuts_after_the_first() {
    let a = Card::Major(MajorArcana::Sun);
    let b = Card::Major(MajorArcana::Moon);
    let c = Card::Major(MajorArcana::Star);
    for first in 0..40u8 {
        let mut pile = Pile::from(vec![a, b, c]);
        pile.shuffle(&mut seeded(first));
        assert_eq!(*pile.cards(), vec![b, c, a]);
    }
}

#[test]
fn shuffle_four_card_pile_swaps_pairs_for_any_seed() {
    let a = Card::Major(MajorArcana::Sun);
    let b = Card::Major(MajorArcana::Moon);
    let c = Card::Major(MajorArcana::Star);
    let d = Card::Black;
    for first in 0..40u8 {
        let mut pile = Pile::from(vec![a, b, c, d]);
        pile.shuffle(&mut seeded(first));
        assert_eq!(*pile.cards(), vec![c, d, a, b]);
        pile.shuffle(&mut seeded(first));
        assert_eq!(*pile.cards(), vec![a, b, c, d]);
    }
}

#[test]
fn shuffle_keeps_every_card_of_the_standard_deck() {
    let before = Pile::standard();
    for first in 0..20u8 {
        let mut pile = Pile::standard();
        pile.shuffle(&mut seeded(first));
        assert_eq!(pile.cards().len(), 78);
        for card in before.cards() {
            assert_eq!(count(pile.cards(), *card), 1);
        }
    }
}

#[test]
fn shuffle_keeps_repeated_cards_as_often() {
    let mut cards = Vec::new();
    for i in 0..31 {
        cards.push(if i % 3 == 0 {
            Card::White
        } else if i % 3 == 1 {
            Card::Black
        } else {
            Card::Major(MajorArcana::Death)
        });
    }
    let mut pile = Pile::from(cards.clone());
    let mut generator = rng();
    for _ in 0..10 {
        pile.shuffle(&mut generator);
        assert_eq!(pile.cards().len(), 31);
        assert_eq!(count(pile.cards(), Card::White), 11);
        assert_eq!(count(pile.cards(), Card::Black), 10);
        assert_eq!(count(pile.cards(), Card::Major(MajorArcana::Death)), 10);
    }
    assert_ne!(*pile.cards(), cards);
}

#[test]
fn shuffle_is_reproducible_for_a_seed() {
    for first in 0..20u8 {
        let mut one = Pile::silicon_dawn();
        let mut other = Pile::silicon_dawn();
        one.shuffle(&mut seeded(first));
        other.shuffle(&mut seeded(first));
        assert_eq!(one, other);
        let mut generator = seeded(first);
        let mut same_generator = seeded(first);
        for _ in 0..5 {
            one.shuffle(&mut generator);
            other.shuffle(&mut same_generator);
            assert_eq!(one.cards(), other.cards());
        }
    }
}

#[test]
fn shuffle_is_a_riffle_at_a_cut_point_near_the_middle() {
    for first in 0..30u8 {
        let before = Pile::standard();
        let mut pile = Pile::standard();
        pile.shuffle(&mut seeded(first));
        let (low, high) = cut_bounds(78);
        let mut found = 0;
        for cut_point in low..high {
            for chunk_size in 2..4 {
                if riffle(before.cards(), cut_point, chunk_size) == *pile.cards() {
                    found += 1;
                }
            }
        }
        assert_eq!(found, 1);
        assert_ne!(pile, before);
    }
}

#[test]
fn shuffle_moves_the_lower_half_first() {
    let mut pile = Pile::standard();
    pile.shuffle(&mut rng());
    let top = pile.cards()[0];
    let (low, high) = cut_bounds(78);
    let position = Pile::standard().cards().iter().position(|c| *c == top).unwrap();
    assert!(low <= position && position < high);
}

#[test]
fn pile_riffle_with_given_cut_and_chunk() {
    let a = Card::Black;
    let b = Card::White;
    let c = Card::Major(MajorArcana::Fool);
    let d = Card::Major(MajorArcana::Magician);
    let e = Card::Minor(MinorArcana { rank: Rank::Ace, suit: Suit::Cups });
    let mut pile = Pile::from(vec![a, b, c, d, e]);
    pile.riffle(2, 2);
    assert_eq!(*pile.cards(), vec![c, d, a, b, e]);
    let mut pile = Pile::from(vec![a, b, c, d, e]);
    pile.riffle(2, 3);
    assert_eq!(*pile.cards(), vec![c, d, e, a, b]);
    let mut pile = Pile::from(vec![a, b, c, d, e]);
    pile.riffle(4, 1);
    assert_eq!(*pile.cards(), vec![e, a, b, c, d]);
    let mut pile = Pile::from(vec![a, b, c, d, e]);
    pile.riffle(1, 1);
    assert_eq!(*pile.cards(), vec![b, a, c, d, e]);
}

#[test]
fn shuffle_draws_the_cut_point_then_the_chunk_size() {
    let mut cuts = Vec::new();
    let mut sizes = Vec::new();
    for first in 0..60u8 {
        let before = Pile::silicon_dawn();
        let (low, high) = cut_bounds(94);
        let mut generator = seeded(first);
        let cut_point: usize = generator.gen_range(low, high);
        let chunk_size: usize = generator.gen_range(2, 4);
        let mut pile = Pile::silicon_dawn();
        let mut used = seeded(first);
        pile.shuffle(&mut used);
        assert_eq!(*pile.cards(), riffle(before.cards(), cut_point, chunk_size));
        assert_eq!(used.next_u64(), generator.next_u64());
        cuts.push(cut_point);
        sizes.push(chunk_size);
    }
    assert!(cuts.iter().any(|c| *c != cuts[0]));
    assert!(sizes.contains(&2));
    assert!(sizes.contains(&3));
}
