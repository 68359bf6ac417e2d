//! A round of the game proper, played once the auction has given a
//! contract.

use std::collections::HashMap;
use vstd::prelude::*;
use vstd::std_specs::hash::group_hash_axioms;

use crate::bids::Contract;
use crate::players::Team;

verus! {

broadcast use group_hash_axioms;

/// What a round is made of.
#[verifier::ext_equal]
pub struct RoundView {
    /// The contract the round is played for.
    pub contract: Contract,
    /// The points of the teams, each under the key of its team.
    pub scores: Map<u8, usize>,
}

impl RoundView {
    /// The points of `team`, if the team has a score.
    pub open spec fn score(self, team: Team) -> Option<usize> {
        if self.scores.contains_key(team.key()) {
            Some(self.scores[team.key()])
        } else {
            None
        }
    }

    /// Whether both teams have a score.
    pub open spec fn wf(self) -> bool {
        self.score(Team::SouthNorth) is Some && self.score(Team::EastWest) is Some
    }
}

/// A round of the actual game, after a contract has been established.
#[derive(Debug, PartialEq, Eq, Clone)]
pub struct Round {
    contract: Contract,
    /// The points of each team, under the team's key.
    pub scores: HashMap<u8, usize>,
}

impl View for Round {
    type V = RoundView;

    closed spec fn view(&self) -> RoundView {
        RoundView { contract: self.contract, scores: self.scores@ }
    }
}

impl Round {
    /// A round for `contract` in which both teams have a score, and no
    /// points yet.
    pub fn new(contract: Contract) -> (round: Round)
        ensures
            round@ == (RoundView {
                contract,
                scores: map![Team::SouthNorth.key() => 0usize, Team::EastWest.key() => 0usize],
            }),
    {
        let mut scores: HashMap<u8, usize> = HashMap::new();
        scores.insert(Team::SouthNorth.key(), 0);
        scores.insert(Team::EastWest.key(), 0);
        Round { contract, scores }
    }

    /// The points of `team`, if the team has a score.
    pub fn score(&self, team: Team) -> (points: Option<usize>)
        ensures
            points == self@.score(team),
    {
        match self.scores.get(&team.key()) {
            Some(points) => Some(*points),
            None => None,
        }
    }

    /// Counts the points of each team according to the contract. No rule
    /// of the game gives points to anybody here: the round stays as it is.
    pub fn calculate_points(&mut self)
        ensures
            *final(self) == *old(self),
    {
    }
}

} // verus!
