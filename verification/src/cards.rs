//! Suits, ranks and the thirty-two cards of a Belote pack.

use vstd::prelude::*;
use vstd::string::StringExecFns;

verus! {

/// The four suits. A bid that names a value also names one of them as trump.
#[derive(Debug, Copy, Clone, PartialEq, Eq, Structural, Hash)]
pub enum Suit {
    Clubs,
    Diamonds,
    Hearts,
    Spades,
}

impl Suit {
    /// The suits in their canonical order.
    pub open spec fn all() -> Seq<Suit> {
        seq![Suit::Clubs, Suit::Diamonds, Suit::Hearts, Suit::Spades]
    }

    /// The name of the suit.
    pub open spec fn spec_name(&self) -> Seq<char> {
        match *self {
            Suit::Clubs => "Clubs"@,
            Suit::Diamonds => "Diamonds"@,
            Suit::Hearts => "Hearts"@,
            Suit::Spades => "Spades"@,
        }
    }

    /// The name of the suit.
    pub fn name(&self) -> (name: &'static str)
        ensures
            name@ == self.spec_name(),
    {
        match *self {
            Suit::Clubs => "Clubs",
            Suit::Diamonds => "Diamonds",
            Suit::Hearts => "Hearts",
            Suit::Spades => "Spades",
        }
    }

    /// Every suit once, in canonical order.
    pub fn iterator() -> (suits: Vec<Suit>)
        ensures
            suits@ == Suit::all(),
    {
        vec![Suit::Clubs, Suit::Diamonds, Suit::Hearts, Suit::Spades]
    }
}

/// Belote is played with the ranks from seven to ace.
#[derive(Debug, Copy, Clone, PartialEq, Eq, Structural, Hash)]
pub enum Rank {
    Seven,
    Eight,
    Nine,
    Ten,
    Jack,
    Queen,
    King,
    Ace,
}

impl Rank {
    /// The ranks in their canonical order.
    pub open spec fn all() -> Seq<Rank> {
        seq![
            Rank::Seven,
            Rank::Eight,
            Rank::Nine,
            Rank::Ten,
            Rank::Jack,
            Rank::Queen,
            Rank::King,
            Rank::Ace,
        ]
    }

    /// The name of the rank.
    pub open spec fn spec_name(&self) -> Seq<char> {
        match *self {
            Rank::Seven => "Seven"@,
            Rank::Eight => "Eight"@,
            Rank::Nine => "Nine"@,
            Rank::Ten => "Ten"@,
            Rank::Jack => "Jack"@,
            Rank::Queen => "Queen"@,
            Rank::King => "King"@,
            Rank::Ace => "Ace"@,
        }
    }

    /// The name of the rank.
    pub fn name(&self) -> (name: &'static str)
        ensures
            name@ == self.spec_name(),
    {
        match *self {
            Rank::Seven => "Seven",
            Rank::Eight => "Eight",
            Rank::Nine => "Nine",
            Rank::Ten => "Ten",
            Rank::Jack => "Jack",
            Rank::Queen => "Queen",
            Rank::King => "King",
            Rank::Ace => "Ace",
        }
    }

    /// Every rank once, in canonical order.
    pub fn iterator() -> (ranks: Vec<Rank>)
        ensures
            ranks@ == Rank::all(),
    {
        vec![
            Rank::Seven,
            Rank::Eight,
            Rank::Nine,
            Rank::Ten,
            Rank::Jack,
            Rank::Queen,
            Rank::King,
            Rank::Ace,
        ]
    }
}

/// A playing card.
#[derive(Debug, Copy, Clone, PartialEq, Eq, Structural, Hash)]
pub struct Card {
    pub suit: Suit,
    pub rank: Rank,
}

impl Card {
    /// The card of this suit and rank.
    pub fn new(suit: Suit, rank: Rank) -> (card: Card)
        ensures
            card == (Card { suit, rank }),
    {
        Card { suit, rank }
    }

    /// The card in words: its rank, then ` of `, then its suit.
    pub fn to_text(&self) -> (text: String)
        ensures
            text@ == self.rank.spec_name() + " of "@ + self.suit.spec_name(),
    {
        let mut text = self.rank.name().to_owned();
        text.append(" of ");
        text.append(self.suit.name());
        text
    }
}

} // verus!
