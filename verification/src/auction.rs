//! The auction as a mathematical object.
//!
//! An auction is a starting player, the sequence of turns taken so far and
//! a phase. Everything the executable code promises is stated over the
//! functions of this module.

use vstd::prelude::*;

use crate::bids::{Bid, BidEntry, BidError, BiddingState, Contract};
use crate::cards::Suit;
use crate::players::Player;

verus! {

/// How many turns at the end of the history are passes.
pub open spec fn trailing_passes(history: Seq<BidEntry>) -> nat
    decreases history.len(),
{
    if history.len() == 0 || history.last().1 != Bid::Pass {
        0
    } else {
        1 + trailing_passes(history.drop_last())
    }
}

/// The most recent turn that was not a pass, as its player and bid.
pub open spec fn last_real_bid(history: Seq<BidEntry>) -> Option<(Player, Bid)> {
    let passes = trailing_passes(history);
    if passes >= history.len() {
        None
    } else {
        let entry = history[history.len() - 1 - passes];
        Some((entry.0, entry.1))
    }
}

/// Whether `player` may announce `bid` when `last` is the most recent turn
/// that was not a pass.
///
/// Before any such turn everything but the two counters is allowed. After
/// a double counter nothing is. After a counter everybody may pass and the
/// other team may double. After any other bid a player may pass, or go
/// higher with anything but a double counter.
pub open spec fn allowed_after(last: Option<(Player, Bid)>, player: Player, bid: Bid) -> bool {
    match last {
        None => bid != Bid::Counter && bid != Bid::DoubleCounter,
        Some((bidder, standing)) => {
            if standing == Bid::DoubleCounter {
                false
            } else if standing == Bid::Counter {
                bid == Bid::Pass || (bid == Bid::DoubleCounter && bidder.team() != player.team())
            } else {
                bid == Bid::Pass || (bid.rank() > standing.rank() && bid != Bid::DoubleCounter)
            }
        },
    }
}

/// Whether `player` may announce `bid` after the turns in `history`.
pub open spec fn is_legal(history: Seq<BidEntry>, player: Player, bid: Bid) -> bool {
    allowed_after(last_real_bid(history), player, bid)
}

/// `allowed_after` as a predicate on bids.
pub open spec fn allowed_filter(last: Option<(Player, Bid)>, player: Player) -> spec_fn(Bid) -> bool {
    |bid: Bid| allowed_after(last, player, bid)
}

/// The bids that `player` may announce after the turns in `history`, in
/// the order of the ladder.
pub open spec fn legal_bids(history: Seq<BidEntry>, player: Player) -> Seq<Bid> {
    Bid::ladder().filter(allowed_filter(last_real_bid(history), player))
}

/// The phase that a history puts the auction in.
///
/// With fewer than four turns the auction goes on. From four turns on it is
/// to be dealt again if every turn was a pass, it is done if the last three
/// turns were passes, and it goes on otherwise.
pub open spec fn phase_of(history: Seq<BidEntry>) -> BiddingState {
    if history.len() <= 3 {
        BiddingState::Ongoing
    } else if trailing_passes(history) == history.len() {
        BiddingState::DealAgain
    } else if trailing_passes(history) >= 3 {
        BiddingState::Done
    } else {
        BiddingState::Ongoing
    }
}

/// The index of the most recent turn whose bid names a value, or -1 if
/// there is none.
pub open spec fn last_value_bid(history: Seq<BidEntry>) -> int
    decreases history.len(),
{
    if history.len() == 0 {
        -1
    } else if history.last().1.requires_suit() {
        history.len() - 1
    } else {
        last_value_bid(history.drop_last())
    }
}

/// Whether `call` was announced in some turn after index `from`.
pub open spec fn called_after(history: Seq<BidEntry>, from: int, call: Bid) -> bool {
    exists|j: int| from < j < history.len() && (#[trigger] history[j]).1 == call
}

/// The contract that a history amounts to: the most recent bid with a
/// value, its player and suit, and whether a counter and a double counter
/// followed it. There is none if no bid with a value was made or if that bid
/// came without a suit.
pub open spec fn contract_of(history: Seq<BidEntry>) -> Result<Contract, BidError> {
    let winner = last_value_bid(history);
    if winner < 0 {
        Err(BidError::NoWinningBid)
    } else {
        match history[winner].2 {
            None => Err(BidError::NoWinningBid),
            Some(suit) => Ok(
                Contract {
                    player: history[winner].0,
                    bid: history[winner].1,
                    suit,
                    countered: called_after(history, winner, Bid::Counter),
                    double_countered: called_after(history, winner, Bid::DoubleCounter),
                },
            ),
        }
    }
}

/// Who speaks in the turn of index `turn` when `starting_player` speaks
/// first: the players follow each other in rotation, round after round.
pub open spec fn seat(starting_player: Player, turn: nat) -> Player
    decreases turn,
{
    if turn == 0 {
        starting_player
    } else {
        seat(starting_player, (turn - 1) as nat).next_player()
    }
}

/// Whether the players of `history` are those of the rotation that starts
/// at `starting_player`, one turn each and nobody skipped.
pub open spec fn in_rotation(starting_player: Player, history: Seq<BidEntry>) -> bool {
    forall|i: int|
        0 <= i < history.len() ==> (#[trigger] history[i]).0 == seat(starting_player, i as nat)
}

/// Whether every bid of `history` but the first that names a value came
/// with a suit.
pub open spec fn suits_named(history: Seq<BidEntry>) -> bool {
    forall|i: int|
        1 <= i < history.len() && (#[trigger] history[i]).1.requires_suit() ==> history[i].2 is Some
}

/// The state of an auction.
#[verifier::ext_equal]
pub struct Auction {
    /// Who speaks first.
    pub starting_player: Player,
    /// The turns taken so far, oldest first.
    pub history: Seq<BidEntry>,
    pub state: BiddingState,
}

impl Auction {
    /// The auction before anybody has spoken.
    pub open spec fn fresh(starting_player: Player) -> Auction {
        Auction { starting_player, history: Seq::empty(), state: BiddingState::Ongoing }
    }

    /// Whose turn it is.
    pub open spec fn expected_player(self) -> Player {
        if self.history.len() == 0 {
            self.starting_player
        } else {
            self.history.last().0.next_player()
        }
    }

    /// The bids that `player` may announce now, in the order of the ladder.
    pub open spec fn legal_bids(self, player: Player) -> Seq<Bid> {
        legal_bids(self.history, player)
    }

    /// The auction after one more turn.
    pub open spec fn after(self, player: Player, bid: Bid, suit: Option<Suit>) -> Auction {
        let history = self.history.push((player, bid, suit));
        Auction { starting_player: self.starting_player, history, state: phase_of(history) }
    }

    /// What becomes of the submission of `bid` by `player`: the auction
    /// after it, or the reason why it is refused.
    ///
    /// The auction must be going on, and it must be the player's turn. The
    /// very first turn of an auction is then accepted as it comes. Any later
    /// bid must be legal, and must come with a suit if it names a value.
    pub open spec fn submit(self, player: Player, bid: Bid, suit: Option<Suit>) -> Result<
        Auction,
        BidError,
    > {
        if self.state != BiddingState::Ongoing {
            Err(BidError::PhaseClosed)
        } else if player != self.expected_player() {
            Err(BidError::WrongTurn)
        } else if self.history.len() == 0 {
            Ok(self.after(player, bid, suit))
        } else if !is_legal(self.history, player, bid) {
            Err(BidError::IllegalBid)
        } else if bid.requires_suit() && suit is None {
            Err(BidError::MissingSuit)
        } else {
            Ok(self.after(player, bid, suit))
        }
    }

    /// Whether the auction is a fresh one or has come from one by
    /// submissions that were all accepted.
    pub open spec fn reachable(self) -> bool
        decreases self.history.len(),
    {
        if self.history.len() == 0 {
            self == Auction::fresh(self.starting_player)
        } else {
            let turn = self.history.last();
            let before = Auction {
                starting_player: self.starting_player,
                history: self.history.drop_last(),
                state: BiddingState::Ongoing,
            };
            before.reachable() && before.submit(turn.0, turn.1, turn.2) == Ok::<Auction, BidError>(
                self,
            )
        }
    }

    /// The contract the auction has ended in, or the reason why there is
    /// none.
    pub open spec fn contract(self) -> Result<Contract, BidError> {
        if self.state != BiddingState::Done {
            Err(BidError::NoContract)
        } else {
            contract_of(self.history)
        }
    }
}

/// The last `passes` turns are passes and the turn before them, if there is
/// one, is not: then `passes` is the number of trailing passes.
pub proof fn lemma_trailing_passes_is(history: Seq<BidEntry>, passes: nat)
    requires
        passes <= history.len(),
        forall|j: int| history.len() - passes <= j < history.len() ==> (#[trigger] history[j]).1 == Bid::Pass,
        passes < history.len() ==> history[history.len() - 1 - passes].1 != Bid::Pass,
    ensures
        trailing_passes(history) == passes,
    decreases passes,
{
    if passes > 0 {
        lemma_trailing_passes_is(history.drop_last(), (passes - 1) as nat);
    }
}

/// The trailing passes are passes, and the turn before them is none.
pub proof fn lemma_trailing_passes(history: Seq<BidEntry>)
    ensures
        trailing_passes(history) <= history.len(),
        forall|j: int|
            history.len() - trailing_passes(history) <= j < history.len() ==> (#[trigger] history[j]).1
                == Bid::Pass,
        trailing_passes(history) < history.len() ==> history[history.len() - 1
            - trailing_passes(history)].1 != Bid::Pass,
    decreases history.len(),
{
    if history.len() > 0 && history.last().1 == Bid::Pass {
        let earlier = history.drop_last();
        lemma_trailing_passes(earlier);
        assert forall|j: int|
            history.len() - trailing_passes(history) <= j < history.len() implies (#[trigger] history[j]).1
            == Bid::Pass by {
            if j < earlier.len() {
                assert(earlier[j].1 == Bid::Pass);
            }
        }
    }
}

/// The turn at `winner` names a value and no later turn does, or `winner`
/// is -1 and no turn does: then `winner` is the last bid with a value.
pub proof fn lemma_last_value_bid_is(history: Seq<BidEntry>, winner: int)
    requires
        -1 <= winner < history.len(),
        forall|j: int| winner < j < history.len() ==> !(#[trigger] history[j]).1.requires_suit(),
        winner >= 0 ==> history[winner].1.requires_suit(),
    ensures
        last_value_bid(history) == winner,
    decreases history.len(),
{
    if history.len() > 0 && winner < history.len() - 1 {
        lemma_last_value_bid_is(history.drop_last(), winner);
    }
}

/// The last bid with a value names a value, and no later turn does.
pub proof fn lemma_last_value_bid(history: Seq<BidEntry>)
    ensures
        -1 <= last_value_bid(history) < history.len(),
        forall|j: int|
            last_value_bid(history) < j < history.len() ==> !(#[trigger] history[j]).1.requires_suit(),
        last_value_bid(history) >= 0 ==> history[last_value_bid(history)].1.requires_suit(),
    decreases history.len(),
{
    if history.len() > 0 && !history.last().1.requires_suit() {
        let earlier = history.drop_last();
        lemma_last_value_bid(earlier);
        assert forall|j: int| last_value_bid(history) < j < history.len() implies !(
        #[trigger] history[j]).1.requires_suit() by {
            if j < earlier.len() {
                assert(!earlier[j].1.requires_suit());
            }
        }
    }
}

} // verus!
