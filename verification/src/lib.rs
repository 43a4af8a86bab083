//! An ordered pile of tarot cards: two fixed decks to build it from and a
//! riffle shuffle that reorders it.

pub mod card;
pub mod deck;
pub mod pile;
pub mod riffle;
