//! The four seats and the two partnerships.

use vstd::prelude::*;

verus! {

/// A seat at the table.
#[derive(Debug, PartialEq, Eq, Structural, Copy, Clone, Hash)]
pub enum Player {
    North,
    West,
    South,
    East,
}

/// A partnership of two facing seats.
#[derive(Debug, PartialEq, Eq, Structural, Copy, Clone, Hash)]
pub enum Team {
    SouthNorth,
    EastWest,
}

impl Player {
    /// The seat that plays after this one: South, West, North, East, South.
    pub open spec fn spec_next_player(&self) -> Player {
        match *self {
            Player::South => Player::West,
            Player::West => Player::North,
            Player::North => Player::East,
            Player::East => Player::South,
        }
    }

    /// The partnership this seat belongs to.
    pub open spec fn spec_team(&self) -> Team {
        match *self {
            Player::South | Player::North => Team::SouthNorth,
            Player::East | Player::West => Team::EastWest,
        }
    }

    /// The seat that plays after this one.
    #[verifier::when_used_as_spec(spec_next_player)]
    pub fn next_player(&self) -> (next: Player)
        ensures
            next == self.spec_next_player(),
    {
        match *self {
            Player::South => Player::West,
            Player::West => Player::North,
            Player::North => Player::East,
            Player::East => Player::South,
        }
    }

    /// The partnership this seat belongs to.
    #[verifier::when_used_as_spec(spec_team)]
    pub fn team(&self) -> (team: Team)
        ensures
            team == self.spec_team(),
    {
        match *self {
            Player::South | Player::North => Team::SouthNorth,
            Player::East | Player::West => Team::EastWest,
        }
    }
}

impl Team {
    /// The number under which the scores of a team are kept.
    pub open spec fn spec_key(&self) -> u8 {
        match *self {
            Team::SouthNorth => 0,
            Team::EastWest => 1,
        }
    }

    /// The number under which the scores of the team are kept.
    #[verifier::when_used_as_spec(spec_key)]
    pub fn key(&self) -> (key: u8)
        ensures
            key == self.spec_key(),
    {
        match *self {
            Team::SouthNorth => 0,
            Team::EastWest => 1,
        }
    }
}

} // verus!
