//! The pack of thirty-two cards: shuffling it and dealing it out.

use rand::{Rng, StdRng};
use vstd::prelude::*;
use vstd::seq_lib::lemma_multiset_commutative;

use crate::cards::{Card, Rank, Suit};

verus! {

/// `StdRng`, the standard generator of the rand crate. A deck carries one
/// along; nothing is known of what it holds.
#[verifier::external_type_specification]
#[verifier::external_body]
pub struct ExStdRng(rand::StdRng);

/// The thirty-two cards in their canonical order: suit by suit, and within
/// a suit rank by rank.
pub open spec fn pack() -> Seq<Card> {
    Seq::new(32, |i: int| Card { suit: Suit::all()[i / 8], rank: Rank::all()[i % 8] })
}

/// Whether `cards` are the thirty-two cards of the pack in some order.
pub open spec fn is_shuffled_pack(cards: Seq<Card>) -> bool {
    cards.to_multiset() == pack().to_multiset()
}

/// The hand that the player of index `player` (0 to 3) gets when `cards`
/// are dealt: three cards of the first twelve, two of the next eight, and
/// three of the last twelve.
pub open spec fn hand_of(cards: Seq<Card>, player: int) -> Seq<Card> {
    cards.subrange(3 * player, 3 * player + 3) + cards.subrange(12 + 2 * player, 12 + 2 * player + 2)
        + cards.subrange(20 + 3 * player, 20 + 3 * player + 3)
}

/// The pack holds thirty-two cards, and none of them twice.
pub proof fn lemma_pack_has_no_duplicates()
    ensures
        pack().len() == 32,
        pack().no_duplicates(),
{
    assert forall|i: int, j: int| 0 <= i < 32 && 0 <= j < 32 && i != j implies pack()[i] != pack()[j] by {
        assert(i / 8 != j / 8 || i % 8 != j % 8);
    }
}

/// Cards that are the pack in some order are thirty-two, and none of them
/// occurs twice.
pub proof fn lemma_shuffled_pack_has_no_duplicates(cards: Seq<Card>)
    requires
        is_shuffled_pack(cards),
    ensures
        cards.len() == 32,
        cards.no_duplicates(),
{
    lemma_pack_has_no_duplicates();
    pack().lemma_multiset_has_no_duplicates();
    cards.lemma_multiset_has_no_duplicates_conv();
    cards.to_multiset_ensures();
    pack().to_multiset_ensures();
}

/// Dealing gives eight cards to each player and every card of the deck to
/// exactly one of them: the four hands together are the deck in another
/// order.
pub proof fn lemma_deal_gives_every_card_once(cards: Seq<Card>)
    requires
        cards.len() == 32,
    ensures
        forall|player: int| 0 <= player < 4 ==> (#[trigger] hand_of(cards, player)).len() == 8,
        (hand_of(cards, 0) + hand_of(cards, 1) + hand_of(cards, 2) + hand_of(cards, 3)).to_multiset()
            == cards.to_multiset(),
{
    broadcast use lemma_multiset_commutative;

    let first = cards.subrange(0, 12);
    let second = cards.subrange(12, 20);
    let third = cards.subrange(20, 32);
    assert(cards =~= first + second + third);
    assert(first =~= cards.subrange(0, 3) + cards.subrange(3, 6) + cards.subrange(6, 9)
        + cards.subrange(9, 12));
    assert(second =~= cards.subrange(12, 14) + cards.subrange(14, 16) + cards.subrange(16, 18)
        + cards.subrange(18, 20));
    assert(third =~= cards.subrange(20, 23) + cards.subrange(23, 26) + cards.subrange(26, 29)
        + cards.subrange(29, 32));
    assert((hand_of(cards, 0) + hand_of(cards, 1) + hand_of(cards, 2) + hand_of(cards, 3)).to_multiset()
        =~= cards.to_multiset());
}

/// The index of the first card that is dealt in the round of index
/// `round`: the rounds take twelve, eight and twelve cards.
spec fn round_start(round: int) -> int {
    if round <= 0 {
        0
    } else if round == 1 {
        12
    } else if round == 2 {
        20
    } else {
        32
    }
}

/// The part of the hand of `player` that the first `rounds` rounds of the
/// deal have given out.
spec fn dealt(cards: Seq<Card>, player: int, rounds: int) -> Seq<Card> {
    let first = cards.subrange(3 * player, 3 * player + 3);
    let second = cards.subrange(12 + 2 * player, 12 + 2 * player + 2);
    let third = cards.subrange(20 + 3 * player, 20 + 3 * player + 3);
    if rounds <= 0 {
        Seq::empty()
    } else if rounds == 1 {
        first
    } else if rounds == 2 {
        first + second
    } else {
        first + second + third
    }
}

/// A pack of cards with the generator that shuffles it.
#[derive(Debug)]
pub struct Deck {
    pub cards: [Card; 32],
    randomness: StdRng,
}

impl View for Deck {
    type V = Seq<Card>;

    closed spec fn view(&self) -> Seq<Card> {
        self.cards@
    }
}

impl Clone for Deck {
    /// The same cards in the same order, with a generator in the same state.
    fn clone(&self) -> (copy: Deck)
        ensures
            copy@ == self@,
    {
        Deck { cards: self.cards, randomness: self.randomness }
    }
}

/// `StdRng::new` of the rand crate: a generator seeded from the operating
/// system, or nothing where no randomness could be had to seed it. Nothing
/// is claimed of the generator, nor of when there is one.
#[verifier::external_body]
fn seeded_rng() -> (rng: Option<StdRng>) {
    StdRng::new().ok()
}

/// `Rng::shuffle` of the rand crate, on a `StdRng`: it swaps cards of the
/// array among themselves, so the array holds the same cards afterwards,
/// each as often as before. Nothing is claimed of their order.
#[verifier::external_body]
fn shuffle_cards(rng: &mut StdRng, cards: &mut [Card; 32])
    ensures
        final(cards)@.to_multiset() == old(cards)@.to_multiset(),
{
    rng.shuffle(cards);
}

impl Deck {
    /// Whether the deck holds the thirty-two cards of the pack.
    pub open spec fn wf(&self) -> bool {
        is_shuffled_pack(self@)
    }

    /// A shuffled pack, or nothing where no generator could be seeded to
    /// shuffle it with.
    pub fn new() -> (deck: Option<Deck>)
        ensures
            deck matches Some(deck) ==> deck.wf(),
    {
        // Whether there is a generator is not for the deck to say: what
        // becomes of either answer is said by `from_rng`.
        let rng = seeded_rng();
        Deck::from_rng(rng)
    }

    /// The pack, shuffled with the given generator.
    fn with_rng(randomness: StdRng) -> (deck: Deck)
        ensures
            deck.wf(),
    {
        let suits = Suit::iterator();
        let ranks = Rank::iterator();
        let mut cards = [Card::new(Suit::Spades, Rank::Ace); 32];
        let mut s: usize = 0;
        while s < 4
            invariant
                s <= 4,
                suits@ == Suit::all(),
                ranks@ == Rank::all(),
                forall|k: int| 0 <= k < 8 * s ==> cards@[k] == pack()[k],
            decreases 4 - s,
        {
            let mut r: usize = 0;
            while r < 8
                invariant
                    s < 4,
                    r <= 8,
                    suits@ == Suit::all(),
                    ranks@ == Rank::all(),
                    forall|k: int| 0 <= k < 8 * s + r ==> cards@[k] == pack()[k],
                decreases 8 - r,
            {
                cards[8 * s + r] = Card::new(suits[s], ranks[r]);
                r += 1;
            }
            s += 1;
        }
        assert(cards@ =~= pack());
        let mut deck = Deck { cards, randomness };
        // Always return a shuffled deck.
        deck.shuffle();
        deck
    }

    /// Shuffles the cards in place.
    pub fn shuffle(&mut self)
        ensures
            final(self)@.to_multiset() == old(self)@.to_multiset(),
    {
        shuffle_cards(&mut self.randomness, &mut self.cards);
    }

    /// Deals the cards to the four players, eight cards each. Dealing in
    /// belote is done in a 3-2-3 way: three cards to each player in turn,
    /// then two to each, then three to each.
    pub fn deal(&self) -> (hands: [Vec<Card>; 4])
        ensures
            forall|player: int| 0 <= player < 4 ==> (#[trigger] hands@[player])@ == hand_of(self@, player),
    {
        let mut cards1: Vec<Card> = Vec::new();
        let mut cards2: Vec<Card> = Vec::new();
        let mut cards3: Vec<Card> = Vec::new();
        let mut cards4: Vec<Card> = Vec::new();

        // index in the deck
        let mut j: usize = 0;
        let mut round: usize = 0;
        while round < 3
            invariant
                round <= 3,
                j == round_start(round as int),
                cards1@ == dealt(self@, 0, round as int),
                cards2@ == dealt(self@, 1, round as int),
                cards3@ == dealt(self@, 2, round as int),
                cards4@ == dealt(self@, 3, round as int),
            decreases 3 - round,
        {
            let num_cards: usize = if round == 1 { 2 } else { 3 };
            take_cards(&mut cards1, &self.cards, j, num_cards);
            j += num_cards;
            take_cards(&mut cards2, &self.cards, j, num_cards);
            j += num_cards;
            take_cards(&mut cards3, &self.cards, j, num_cards);
            j += num_cards;
            take_cards(&mut cards4, &self.cards, j, num_cards);
            j += num_cards;
            round += 1;
        }

        [cards1, cards2, cards3, cards4]
    }

    /// The pack, shuffled with the generator if there is one, and nothing
    /// if there is none.
    pub fn from_rng(rng: Option<StdRng>) -> (deck: Option<Deck>)
        ensures
            deck is Some <==> rng is Some,
            deck matches Some(deck) ==> deck.wf(),
    {
        match rng {
            Some(rng) => Some(Deck::with_rng(rng)),
            None => None,
        }
    }
}

/// Appends to `hand` the `count` cards of `cards` that start at index
/// `from`.
fn take_cards(hand: &mut Vec<Card>, cards: &[Card; 32], from: usize, count: usize)
    requires
        from + count <= 32,
    ensures
        final(hand)@ == old(hand)@ + cards@.subrange(from as int, from + count),
{
    let mut taken: usize = 0;
    while taken < count
        invariant
            taken <= count,
            from + count <= 32,
            hand@ == old(hand)@ + cards@.subrange(from as int, from + taken),
        decreases count - taken,
    {
        hand.push(cards[from + taken]);
        taken += 1;
    }
}

} // verus!
