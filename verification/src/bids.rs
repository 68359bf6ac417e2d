//! The bids of the auction, the contract an auction ends in, and the
//! auction itself.

use core::cmp::Ordering;
use vstd::prelude::*;
use vstd::std_specs::cmp::PartialOrdSpecImpl;

use crate::auction::{
    allowed_after, allowed_filter, called_after, contract_of, last_real_bid,
    lemma_last_value_bid_is, lemma_trailing_passes_is, phase_of, trailing_passes, Auction,
};
use crate::cards::Suit;
use crate::laws::lemma_submit_keeps_reachable;
use crate::players::Player;

verus! {

/// What a player may announce on their turn. The variants are listed from
/// the lowest to the highest; `<` and `>` compare by that order.
#[derive(Debug, PartialEq, Eq, Structural, Copy, Clone, Hash, Ord)]
pub enum Bid {
    Pass,
    Eighty,
    Ninety,
    Hundred,
    HundredTen,
    HundredTwenty,
    HundredThirty,
    HundredForty,
    HundredFifty,
    HundredSixty,
    /// The opposing team is to win no trick at all.
    Capot,
    Counter,
    DoubleCounter,
}

impl Bid {
    /// Every bid once, from the lowest to the highest.
    pub open spec fn ladder() -> Seq<Bid> {
        seq![
            Bid::Pass,
            Bid::Eighty,
            Bid::Ninety,
            Bid::Hundred,
            Bid::HundredTen,
            Bid::HundredTwenty,
            Bid::HundredThirty,
            Bid::HundredForty,
            Bid::HundredFifty,
            Bid::HundredSixty,
            Bid::Capot,
            Bid::Counter,
            Bid::DoubleCounter,
        ]
    }

    /// The position of a bid on the ladder.
    pub open spec fn spec_rank(&self) -> u8 {
        match *self {
            Bid::Pass => 0,
            Bid::Eighty => 1,
            Bid::Ninety => 2,
            Bid::Hundred => 3,
            Bid::HundredTen => 4,
            Bid::HundredTwenty => 5,
            Bid::HundredThirty => 6,
            Bid::HundredForty => 7,
            Bid::HundredFifty => 8,
            Bid::HundredSixty => 9,
            Bid::Capot => 10,
            Bid::Counter => 11,
            Bid::DoubleCounter => 12,
        }
    }

    /// Whether a bid must come with a trump suit: all but the three calls
    /// `Pass`, `Counter` and `DoubleCounter`.
    pub open spec fn spec_requires_suit(&self) -> bool {
        *self != Bid::Pass && *self != Bid::Counter && *self != Bid::DoubleCounter
    }

    /// The ladder as a vector.
    pub fn iterator() -> (bids: Vec<Bid>)
        ensures
            bids@ == Bid::ladder(),
    {
        vec![
            Bid::Pass,
            Bid::Eighty,
            Bid::Ninety,
            Bid::Hundred,
            Bid::HundredTen,
            Bid::HundredTwenty,
            Bid::HundredThirty,
            Bid::HundredForty,
            Bid::HundredFifty,
            Bid::HundredSixty,
            Bid::Capot,
            Bid::Counter,
            Bid::DoubleCounter,
        ]
    }

    /// The position of the bid on the ladder, from 0 for the pass to 12 for
    /// the double counter.
    #[verifier::when_used_as_spec(spec_rank)]
    pub fn rank(&self) -> (rank: u8)
        ensures
            rank == self.spec_rank(),
    {
        match *self {
            Bid::Pass => 0,
            Bid::Eighty => 1,
            Bid::Ninety => 2,
            Bid::Hundred => 3,
            Bid::HundredTen => 4,
            Bid::HundredTwenty => 5,
            Bid::HundredThirty => 6,
            Bid::HundredForty => 7,
            Bid::HundredFifty => 8,
            Bid::HundredSixty => 9,
            Bid::Capot => 10,
            Bid::Counter => 11,
            Bid::DoubleCounter => 12,
        }
    }

    /// Whether the bid must come with a trump suit.
    #[verifier::when_used_as_spec(spec_requires_suit)]
    pub fn requires_suit(&self) -> (needed: bool)
        ensures
            needed == self.spec_requires_suit(),
    {
        match *self {
            Bid::Pass | Bid::Counter | Bid::DoubleCounter => false,
            _ => true,
        }
    }

    /// The ladder lists the bids by rank: a bid stands at the index that
    /// is its rank, and nowhere else.
    pub proof fn lemma_ladder_by_rank()
        ensures
            Bid::ladder().len() == 13,
            forall|b: Bid| #[trigger] Bid::ladder()[b.rank() as int] == b,
            forall|i: int| 0 <= i < 13 ==> (#[trigger] Bid::ladder()[i]).rank() == i,
    {
    }
}

impl PartialOrd for Bid {
    /// Compares two bids by their ranks.
    fn partial_cmp(&self, other: &Bid) -> (order: Option<Ordering>) {
        let mine = self.rank();
        let theirs = other.rank();
        if mine < theirs {
            Some(Ordering::Less)
        } else if mine == theirs {
            Some(Ordering::Equal)
        } else {
            Some(Ordering::Greater)
        }
    }
}

impl PartialOrdSpecImpl for Bid {
    open spec fn obeys_partial_cmp_spec() -> bool {
        true
    }

    open spec fn partial_cmp_spec(&self, other: &Bid) -> Option<Ordering> {
        if self.rank() < other.rank() {
            Some(Ordering::Less)
        } else if self.rank() == other.rank() {
            Some(Ordering::Equal)
        } else {
            Some(Ordering::Greater)
        }
    }
}

/// One turn of the auction: who spoke, what they announced, and the trump
/// suit they named with it, if any.
pub type BidEntry = (Player, Bid, Option<Suit>);

/// Why a bid was refused, or why no contract can be had.
#[derive(Debug, PartialEq, Eq, Structural, Copy, Clone, Hash)]
pub enum BidError {
    /// The auction is settled: nobody can bid any more.
    PhaseClosed,
    /// It is another player's turn.
    WrongTurn,
    /// The bid is not among those the player may make now.
    IllegalBid,
    /// The bid names a value and came without a trump suit.
    MissingSuit,
    /// The auction has not ended with a standing bid.
    NoContract,
    /// The auction is marked as won, yet its history holds no bid with a
    /// value and a suit that could have won it.
    NoWinningBid,
}

impl BidError {
    /// What `message` says of each error.
    pub open spec fn spec_message(&self) -> Seq<char> {
        match *self {
            BidError::PhaseClosed => "The bidding phase is over!"@,
            BidError::WrongTurn => "Wrong player"@,
            BidError::IllegalBid => "Bid not possible"@,
            BidError::MissingSuit => "A bid other than pass/counter/doublecounter must have a suit associated"@,
            BidError::NoContract => "Invalid bidding state: expected the bidding phase to be done with a bid"@,
            BidError::NoWinningBid => "Couldn't get a contract from the list of bids"@,
        }
    }

    /// The error in words.
    pub fn message(&self) -> (text: String)
        ensures
            text@ == self.spec_message(),
    {
        match *self {
            BidError::PhaseClosed => "The bidding phase is over!".to_owned(),
            BidError::WrongTurn => "Wrong player".to_owned(),
            BidError::IllegalBid => "Bid not possible".to_owned(),
            BidError::MissingSuit => "A bid other than pass/counter/doublecounter must have a suit associated".to_owned(),
            BidError::NoContract => "Invalid bidding state: expected the bidding phase to be done with a bid".to_owned(),
            BidError::NoWinningBid => "Couldn't get a contract from the list of bids".to_owned(),
        }
    }
}

/// The bid that won the auction, and whether it was countered and double
/// countered.
#[derive(Debug, PartialEq, Eq, Structural, Copy, Clone)]
pub struct Contract {
    pub player: Player,
    pub bid: Bid,
    pub suit: Suit,
    pub countered: bool,
    pub double_countered: bool,
}

impl Contract {
    /// Reads the contract off the turns of an auction, scanning them from
    /// the most recent one back to the last bid that names a value.
    pub fn new(bids: &[BidEntry]) -> (contract: Result<Contract, BidError>)
        ensures
            contract == contract_of(bids@),
    {
        let mut countered = false;
        let mut double_countered = false;
        let mut i: usize = bids.len();
        while i > 0
            invariant
                i <= bids.len(),
                forall|j: int| i <= j < bids.len() ==> !(#[trigger] bids@[j]).1.requires_suit(),
                countered == called_after(bids@, i - 1, Bid::Counter),
                double_countered == called_after(bids@, i - 1, Bid::DoubleCounter),
            decreases i,
        {
            i -= 1;
            let (player, bid, suit) = bids[i];
            if bid.requires_suit() {
                proof {
                    lemma_last_value_bid_is(bids@, i as int);
                }
                return match suit {
                    Some(suit) => Ok(Contract { player, bid, suit, countered, double_countered }),
                    None => Err(BidError::NoWinningBid),
                };
            }
            if bid == Bid::DoubleCounter {
                double_countered = true;
            }
            if bid == Bid::Counter {
                countered = true;
            }
        }
        proof {
            lemma_last_value_bid_is(bids@, -1);
        }
        Err(BidError::NoWinningBid)
    }
}

/// Where the auction stands.
#[derive(Debug, PartialEq, Eq, Structural, Copy, Clone, Hash, PartialOrd, Ord)]
pub enum BiddingState {
    /// Players can bid.
    Ongoing,
    /// All players passed without any bid: the cards are dealt again.
    DealAgain,
    /// A bid stands and the game can start.
    Done,
}

/// The auction of one round: who speaks first, the turns taken so far and
/// the phase they have brought the auction to.
#[derive(Debug, PartialEq, Eq, Clone)]
pub struct BidPhase {
    /// Who is starting the auction.
    starting_player: Player,
    /// All the turns that were accepted, oldest first.
    bids: Vec<BidEntry>,
    pub state: BiddingState,
}

impl View for BidPhase {
    type V = Auction;

    closed spec fn view(&self) -> Auction {
        Auction { starting_player: self.starting_player, history: self.bids@, state: self.state }
    }
}

impl BidPhase {
    /// Whether the auction is a fresh one or has come from one by bids that
    /// were all accepted.
    pub open spec fn wf(&self) -> bool {
        self@.reachable()
    }

    /// An auction in which nobody has spoken yet.
    pub fn new(starting_player: Player) -> (phase: BidPhase)
        ensures
            phase@ == Auction::fresh(starting_player),
            phase.wf(),
    {
        BidPhase { starting_player, bids: Vec::new(), state: BiddingState::Ongoing }
    }

    /// Where the auction stands.
    pub fn state(&self) -> (state: BiddingState)
        ensures
            state == self@.state,
    {
        self.state
    }

    /// All the bids that `player` may make now, in the order of the ladder.
    pub fn available_bids(&self, player: Player) -> (bids: Vec<Bid>)
        ensures
            bids@ == self@.legal_bids(player),
    {
        let last = self.last_bid();
        let ladder = Bid::iterator();
        let ghost allowed = allowed_filter(last, player);
        let mut bids: Vec<Bid> = Vec::new();
        let mut i: usize = 0;
        while i < ladder.len()
            invariant
                i <= ladder.len(),
                allowed == allowed_filter(last, player),
                bids@ == ladder@.take(i as int).filter(allowed),
            decreases ladder.len() - i,
        {
            let bid = ladder[i];
            proof {
                reveal(Seq::filter);
                assert(ladder@.take(i + 1).drop_last() == ladder@.take(i as int));
            }
            if allows(last, player, bid) {
                bids.push(bid);
            }
            i += 1;
        }
        assert(ladder@.take(i as int) == ladder@);
        bids
    }

    /// The phase that the turns taken so far put the auction in.
    fn next_state(&self) -> (state: BiddingState)
        ensures
            state == phase_of(self@.history),
    {
        let turns = self.bids.len();
        if turns <= 3 {
            return BiddingState::Ongoing;
        }
        let passes = trailing_pass_count(self.bids.as_slice());
        if passes == turns {
            // Everyone passed without any bid.
            BiddingState::DealAgain
        } else if passes >= 3 {
            // A bid stands and everyone else passed.
            BiddingState::Done
        } else {
            BiddingState::Ongoing
        }
    }

    /// The last turn that was not a pass.
    pub fn last_bid(&self) -> (last: Option<(Player, Bid)>)
        ensures
            last == last_real_bid(self@.history),
    {
        let turns = self.bids.len();
        let passes = trailing_pass_count(self.bids.as_slice());
        if passes >= turns {
            None
        } else {
            let entry = self.bids[turns - 1 - passes];
            Some((entry.0, entry.1))
        }
    }

    /// Takes the turn of `player` if the bid can be accepted, and says why
    /// if it cannot. A refused bid leaves the auction as it was. What is
    /// accepted, and which refusal comes first, is said by `Auction::submit`.
    pub fn bid(&mut self, player: Player, bid: Bid, suit: Option<Suit>) -> (outcome: Result<
        (),
        BidError,
    >)
        ensures
            match old(self)@.submit(player, bid, suit) {
                Ok(next) => outcome is Ok && final(self)@ == next,
                Err(reason) => outcome == Err::<(), BidError>(reason) && final(self)@ == old(self)@,
            },
            old(self).wf() ==> final(self).wf(),
    {
        if self.state != BiddingState::Ongoing {
            return Err(BidError::PhaseClosed);
        }
        // Is a player trying to be sneaky and skip the order?
        let turns = self.bids.len();
        let expected = if turns == 0 {
            self.starting_player
        } else {
            self.bids[turns - 1].0.next_player()
        };
        if player != expected {
            return Err(BidError::WrongTurn);
        }
        // The first turn of an auction is taken as it comes.
        if turns > 0 {
            if !allows(self.last_bid(), player, bid) {
                return Err(BidError::IllegalBid);
            }
            if suit.is_none() && bid.requires_suit() {
                return Err(BidError::MissingSuit);
            }
        }
        self.bids.push((player, bid, suit));
        self.state = self.next_state();
        proof {
            if old(self).wf() {
                lemma_submit_keeps_reachable(old(self)@, player, bid, suit);
            }
        }
        Ok(())
    }

    /// The contract that the auction has ended in.
    pub fn get_contract(&self) -> (contract: Result<Contract, BidError>)
        ensures
            contract == self@.contract(),
    {
        if self.state != BiddingState::Done {
            return Err(BidError::NoContract);
        }
        Contract::new(self.bids.as_slice())
    }
}

/// Counts the passes at the end of `bids`.
fn trailing_pass_count(bids: &[BidEntry]) -> (passes: usize)
    ensures
        passes == trailing_passes(bids@),
{
    let turns = bids.len();
    let mut passes: usize = 0;
    while passes < turns && bids[turns - 1 - passes].1 == Bid::Pass
        invariant
            turns == bids.len(),
            passes <= turns,
            forall|j: int| turns - passes <= j < turns ==> (#[trigger] bids@[j]).1 == Bid::Pass,
        decreases turns - passes,
    {
        passes += 1;
    }
    proof {
        lemma_trailing_passes_is(bids@, passes as nat);
    }
    passes
}

/// Decides whether `player` may announce `bid` when `last` is the most
/// recent turn that was not a pass.
fn allows(last: Option<(Player, Bid)>, player: Player, bid: Bid) -> (allowed: bool)
    ensures
        allowed == allowed_after(last, player, bid),
{
    match last {
        // Nothing stands yet: everything but a counter.
        None => bid != Bid::Counter && bid != Bid::DoubleCounter,
        Some((bidder, standing)) => {
            if standing == Bid::DoubleCounter {
                // The game should start now.
                false
            } else if standing == Bid::Counter {
                // The team that countered can only pass, the other one can
                // also double.
                bid == Bid::Pass || (bid == Bid::DoubleCounter && bidder.team() != player.team())
            } else {
                bid == Bid::Pass || (bid > standing && bid != Bid::DoubleCounter)
            }
        },
    }
}

} // verus!
