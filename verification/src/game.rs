//! A whole game: rounds are played until a team has passed the goal.

use vstd::prelude::*;

use crate::cards::Card;
use crate::deck::{is_shuffled_pack, Deck};
use crate::players::{Player, Team};
use crate::round::Round;

verus! {

/// The points a team has to pass to win the game.
pub const SCORE_GOAL: usize = 1000;

/// The points that `team` has made over all of `rounds`, each of which
/// holds a score for the team.
pub open spec fn total_score(rounds: Seq<Round>, team: Team) -> nat
    decreases rounds.len(),
{
    if rounds.len() == 0 {
        0
    } else {
        total_score(rounds.drop_last(), team) + rounds.last()@.score(team)->0 as nat
    }
}

/// The team that has won with these totals, if any: South and North if
/// they have passed the goal and lead, else East and West if they have
/// passed the goal.
pub open spec fn winner_of(south_north: nat, east_west: nat) -> Option<Team> {
    if south_north > SCORE_GOAL && south_north > east_west {
        Some(Team::SouthNorth)
    } else if east_west > SCORE_GOAL {
        Some(Team::EastWest)
    } else {
        None
    }
}

/// Adds up the points of `team` over `rounds`.
pub fn total_points(rounds: &[Round], team: Team) -> (total: u128)
    requires
        forall|i: int| 0 <= i < rounds@.len() ==> (#[trigger] rounds@[i])@.score(team) is Some,
    ensures
        total == total_score(rounds@, team),
{
    let mut total: u128 = 0;
    let mut i: usize = 0;
    while i < rounds.len()
        invariant
            i <= rounds.len(),
            forall|k: int| 0 <= k < rounds@.len() ==> (#[trigger] rounds@[k])@.score(team) is Some,
            total == total_score(rounds@.take(i as int), team),
            total <= i * usize::MAX,
        decreases rounds.len() - i,
    {
        proof {
            assert(rounds@.take(i + 1).drop_last() == rounds@.take(i as int));
            assert((i + 1) * usize::MAX <= u128::MAX) by (nonlinear_arith)
                requires
                    i < usize::MAX,
                    usize::MAX <= 0xffff_ffff_ffff_ffff,
            ;
        }
        if let Some(points) = rounds[i].score(team) {
            total += points as u128;
        }
        i += 1;
    }
    assert(rounds@.take(i as int) == rounds@);
    total
}

/// Decides who has won with these totals.
pub fn winner(south_north: u128, east_west: u128) -> (winner: Option<Team>)
    ensures
        winner == winner_of(south_north as nat, east_west as nat),
{
    if south_north > SCORE_GOAL as u128 && south_north > east_west {
        Some(Team::SouthNorth)
    } else if east_west > SCORE_GOAL as u128 {
        Some(Team::EastWest)
    } else {
        None
    }
}

/// What a game is made of.
pub struct GameView {
    /// Who starts the current round.
    pub first_player: Player,
    /// The rounds played so far.
    pub rounds: Seq<Round>,
    /// The cards of the deck, in their order.
    pub deck: Seq<Card>,
}

/// A game of Belote: who starts the round, the rounds played, and the deck.
#[derive(Debug, Clone)]
pub struct Game {
    /// Which player is starting the current round. Moves clockwise by one
    /// at the end of a round: south, west, north, east, south.
    first_player: Player,
    /// All the rounds of the current game.
    rounds: Vec<Round>,
    /// The deck the game is played with.
    deck: Deck,
}

impl View for Game {
    type V = GameView;

    closed spec fn view(&self) -> GameView {
        GameView { first_player: self.first_player, rounds: self.rounds@, deck: self.deck@ }
    }
}

impl Game {
    /// Whether every round holds a score for both teams and the deck holds
    /// the thirty-two cards of the pack.
    pub closed spec fn wf(&self) -> bool {
        &&& forall|i: int| 0 <= i < self.rounds@.len() ==> (#[trigger] self.rounds@[i])@.wf()
        &&& self.deck.wf()
    }

    /// A game in which South starts the first round, with a shuffled
    /// deck; or nothing where no deck could be had.
    pub fn new() -> (game: Option<Game>)
        ensures
            game matches Some(game) ==> {
                &&& game.wf()
                &&& game@.first_player == Player::South
                &&& game@.rounds.len() == 0
                &&& is_shuffled_pack(game@.deck)
            },
    {
        // Whether there is a deck is not for the game to say: what becomes
        // of either answer is said by `from_deck`.
        let deck = Deck::new();
        Game::from_deck(deck)
    }

    /// Whether no round has been played yet.
    fn is_initial_round(&self) -> (initial: bool)
        ensures
            initial == (self@.rounds.len() == 0),
    {
        self.rounds.is_empty()
    }

    /// Starts a round: the player after the one who started the last
    /// round starts it, except in the first round, and the deck is shuffled
    /// and dealt.
    pub fn new_round(&mut self)
        ensures
            final(self)@.first_player == if old(self)@.rounds.len() == 0 {
                old(self)@.first_player
            } else {
                old(self)@.first_player.next_player()
            },
            final(self)@.rounds == old(self)@.rounds,
            final(self)@.deck.to_multiset() == old(self)@.deck.to_multiset(),
            old(self).wf() ==> final(self).wf(),
    {
        // move to next player except on the first round
        if !self.is_initial_round() {
            self.first_player = self.first_player.next_player();
        }
        self.deck.shuffle();
        let _hands = self.deck.deal();
    }

    /// The team that has won the game, if there is one.
    pub fn has_winner(&self) -> (winner: Option<Team>)
        requires
            self.wf(),
        ensures
            winner == winner_of(
                total_score(self@.rounds, Team::SouthNorth),
                total_score(self@.rounds, Team::EastWest),
            ),
    {
        let south_north = total_points(self.rounds.as_slice(), Team::SouthNorth);
        let east_west = total_points(self.rounds.as_slice(), Team::EastWest);
        winner(south_north, east_west)
    }

    /// A game in which South starts the first round and no round has been
    /// played, with the given deck as it is; nothing if there is no deck.
    pub fn from_deck(deck: Option<Deck>) -> (game: Option<Game>)
        ensures
            game is Some <==> deck is Some,
            game matches Some(game) ==> {
                &&& game@.first_player == Player::South
                &&& game@.rounds == Seq::<Round>::empty()
                &&& game@.deck == deck->0@
                &&& deck->0.wf() ==> game.wf()
            },
    {
        match deck {
            Some(deck) => Some(Game { first_player: Player::South, rounds: Vec::new(), deck }),
            None => None,
        }
    }
}

} // verus!
