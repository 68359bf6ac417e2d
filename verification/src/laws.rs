//! What holds of every auction.
//!
//! The laws are stated over the model of [`crate::auction`]. They hold of
//! the executable auction through the contracts of its functions, which
//! say that `BidPhase::bid` does what `Auction::submit` says, that
//! `BidPhase::available_bids` returns `Auction::legal_bids`, and that
//! `BidPhase::get_contract` returns `Auction::contract`.

use vstd::prelude::*;

use crate::auction::{
    allowed_filter, in_rotation, is_legal, last_real_bid, last_value_bid, legal_bids,
    lemma_last_value_bid, lemma_last_value_bid_is, lemma_trailing_passes, phase_of, seat,
    suits_named, trailing_passes, Auction,
};
use crate::bids::{Bid, BidEntry, BidError, BiddingState, Contract};
use crate::cards::Suit;
use crate::players::Player;

verus! {

/// The bids picked from the first `steps + 1` steps of the ladder are those
/// picked from the first `steps` steps, and after them the bid of step
/// `steps` if it is picked.
proof fn lemma_pick_step(pick: spec_fn(Bid) -> bool, steps: int)
    requires
        0 <= steps < 13,
    ensures
        Bid::ladder().take(steps + 1).filter(pick) == if pick(Bid::ladder()[steps]) {
            Bid::ladder().take(steps).filter(pick).push(Bid::ladder()[steps])
        } else {
            Bid::ladder().take(steps).filter(pick)
        },
        Bid::ladder()[steps].rank() == steps,
        Bid::ladder().take(0).filter(pick) == Seq::<Bid>::empty(),
{
    reveal(Seq::filter);
    Bid::lemma_ladder_by_rank();
    assert(Bid::ladder().take(steps + 1).drop_last() == Bid::ladder().take(steps));
}

/// The bids picked from the first `steps` steps of the ladder stand below
/// step `steps`, and the later of two of them is the higher one.
proof fn lemma_picked_bids_ascend(pick: spec_fn(Bid) -> bool, steps: int)
    requires
        0 <= steps <= 13,
    ensures
        forall|i: int|
            0 <= i < Bid::ladder().take(steps).filter(pick).len() ==> (#[trigger] Bid::ladder().take(
                steps,
            ).filter(pick)[i]).rank() < steps,
        forall|i: int, j: int|
            0 <= i < j < Bid::ladder().take(steps).filter(pick).len() ==> (#[trigger] Bid::ladder().take(
                steps,
            ).filter(pick)[i]).rank() < (#[trigger] Bid::ladder().take(steps).filter(pick)[j]).rank(),
    decreases steps,
{
    if steps > 0 {
        lemma_picked_bids_ascend(pick, steps - 1);
        lemma_pick_step(pick, steps - 1);
    } else {
        lemma_pick_step(pick, 0);
    }
}

/// Before any real bid, the bids allowed among the first `steps` steps of
/// the ladder are all of them up to the capot.
proof fn lemma_first_bids_upto(player: Player, steps: int)
    requires
        0 <= steps <= 13,
    ensures
        Bid::ladder().take(steps).filter(allowed_filter(None, player)) == Bid::ladder().take(
            if steps <= 11 {
                steps
            } else {
                11
            },
        ),
    decreases steps,
{
    if steps > 0 {
        lemma_first_bids_upto(player, steps - 1);
        lemma_pick_step(allowed_filter(None, player), steps - 1);
    } else {
        lemma_pick_step(allowed_filter(None, player), 0);
    }
}

/// Above a standing bid that names a value, the bids allowed among the
/// first `steps` steps of the ladder are the pass and the steps above the
/// standing bid, the double counter excepted.
proof fn lemma_bids_above_upto(bidder: Player, standing: Bid, player: Player, steps: int)
    requires
        standing.requires_suit(),
        1 <= steps <= 13,
    ensures
        Bid::ladder().take(steps).filter(allowed_filter(Some((bidder, standing)), player)) == seq![
            Bid::Pass,
        ] + Bid::ladder().subrange(
            standing.rank() + 1,
            if steps <= standing.rank() + 1 {
                standing.rank() + 1
            } else if steps <= 12 {
                steps
            } else {
                12
            },
        ),
    decreases steps,
{
    if steps > 1 {
        lemma_bids_above_upto(bidder, standing, player, steps - 1);
    }
    lemma_pick_step(allowed_filter(Some((bidder, standing)), player), steps - 1);
}

/// After a counter, the bids allowed among the first `steps` steps of the
/// ladder are the pass and, for the other team, the double counter.
proof fn lemma_bids_after_counter_upto(bidder: Player, player: Player, steps: int)
    requires
        1 <= steps <= 13,
    ensures
        Bid::ladder().take(steps).filter(allowed_filter(Some((bidder, Bid::Counter)), player)) == if steps
            == 13 && bidder.team() != player.team() {
            seq![Bid::Pass, Bid::DoubleCounter]
        } else {
            seq![Bid::Pass]
        },
    decreases steps,
{
    if steps > 1 {
        lemma_bids_after_counter_upto(bidder, player, steps - 1);
    }
    lemma_pick_step(allowed_filter(Some((bidder, Bid::Counter)), player), steps - 1);
}

/// A pass leaves the last real bid as it was and is one more trailing
/// pass. Any other turn becomes the last real bid, with no pass after it.
pub proof fn lemma_last_real_bid_after(
    history: Seq<BidEntry>,
    player: Player,
    bid: Bid,
    suit: Option<Suit>,
)
    ensures
        last_real_bid(history.push((player, bid, suit))) == if bid == Bid::Pass {
            last_real_bid(history)
        } else {
            Some((player, bid))
        },
        trailing_passes(history.push((player, bid, suit))) == if bid == Bid::Pass {
            trailing_passes(history) + 1
        } else {
            0
        },
{
    let longer = history.push((player, bid, suit));
    assert(longer.drop_last() == history);
    lemma_trailing_passes(history);
}

/// A bid is among the legal bids exactly if it is legal.
pub proof fn lemma_legal_bids_membership(history: Seq<BidEntry>, player: Player, bid: Bid)
    ensures
        legal_bids(history, player).contains(bid) <==> is_legal(history, player, bid),
{
    let allowed = allowed_filter(last_real_bid(history), player);
    Bid::lemma_ladder_by_rank();
    if is_legal(history, player, bid) {
        Bid::ladder().lemma_filter_contains(allowed, bid.rank() as int);
    }
    if legal_bids(history, player).contains(bid) {
        let i = choose|i: int|
            0 <= i < legal_bids(history, player).len() && legal_bids(history, player)[i] == bid;
        Bid::ladder().lemma_filter_pred(allowed, i);
    }
}

/// The legal bids stand in the order of the ladder, each at most once: the
/// later of two of them is the higher one.
pub proof fn lemma_legal_bids_ascend(history: Seq<BidEntry>, player: Player)
    ensures
        forall|i: int, j: int|
            0 <= i < j < legal_bids(history, player).len() ==> (#[trigger] legal_bids(history, player)[i]).rank()
                < (#[trigger] legal_bids(history, player)[j]).rank(),
{
    lemma_picked_bids_ascend(allowed_filter(last_real_bid(history), player), 13);
    assert(Bid::ladder().take(13) == Bid::ladder());
}

/// In a fresh auction every player may announce anything but a counter and
/// a double counter: the legal bids are the ladder without its last two
/// steps.
pub proof fn lemma_fresh_auction_bids(starting_player: Player, player: Player)
    ensures
        Auction::fresh(starting_player).legal_bids(player) == seq![
            Bid::Pass,
            Bid::Eighty,
            Bid::Ninety,
            Bid::Hundred,
            Bid::HundredTen,
            Bid::HundredTwenty,
            Bid::HundredThirty,
            Bid::HundredForty,
            Bid::HundredFifty,
            Bid::HundredSixty,
            Bid::Capot,
        ],
{
    lemma_first_bids_upto(player, 13);
    assert(Bid::ladder().take(13) == Bid::ladder());
}

/// Once a bid that names a value has been accepted, every player may pass
/// or announce what stands higher on the ladder, the double counter
/// excepted, and nothing else.
pub proof fn lemma_bids_after_value_bid(
    auction: Auction,
    player: Player,
    bid: Bid,
    suit: Option<Suit>,
    next: Player,
)
    requires
        auction.submit(player, bid, suit) is Ok,
        bid.requires_suit(),
    ensures
        auction.after(player, bid, suit).legal_bids(next) == seq![Bid::Pass] + Bid::ladder().subrange(
            bid.rank() + 1,
            12,
        ),
        forall|other: Bid|
            auction.after(player, bid, suit).legal_bids(next).contains(other) <==> other == Bid::Pass
                || (other.rank() > bid.rank() && other != Bid::DoubleCounter),
{
    let after = auction.after(player, bid, suit);
    lemma_last_real_bid_after(auction.history, player, bid, suit);
    assert forall|other: Bid|
        after.legal_bids(next).contains(other) <==> other == Bid::Pass || (other.rank() > bid.rank()
            && other != Bid::DoubleCounter) by {
        lemma_legal_bids_membership(after.history, next, other);
    }
    lemma_bids_above_upto(player, bid, next, 13);
    assert(Bid::ladder().take(13) == Bid::ladder());
}

/// Once a counter has been accepted, the players of the team that
/// countered may only pass, and the players of the other team may pass or
/// double.
pub proof fn lemma_bids_after_counter(
    auction: Auction,
    player: Player,
    suit: Option<Suit>,
    next: Player,
)
    requires
        auction.submit(player, Bid::Counter, suit) is Ok,
    ensures
        auction.after(player, Bid::Counter, suit).legal_bids(next) == if next.team() == player.team() {
            seq![Bid::Pass]
        } else {
            seq![Bid::Pass, Bid::DoubleCounter]
        },
{
    lemma_last_real_bid_after(auction.history, player, Bid::Counter, suit);
    lemma_bids_after_counter_upto(player, next, 13);
    assert(Bid::ladder().take(13) == Bid::ladder());
}

/// Once a double counter stands, no bid is accepted any more: whoever
/// submits whatever, the auction stays as it is.
pub proof fn lemma_nothing_after_double_counter(
    auction: Auction,
    player: Player,
    bid: Bid,
    suit: Option<Suit>,
)
    requires
        last_real_bid(auction.history) matches Some((_, standing)) && standing == Bid::DoubleCounter,
    ensures
        auction.submit(player, bid, suit) is Err,
{
    lemma_trailing_passes(auction.history);
}

/// When the four players pass in turn in a fresh auction, each pass is
/// accepted, the cards are to be dealt again, and there is no contract.
pub proof fn lemma_four_passes(
    starting_player: Player,
    suit1: Option<Suit>,
    suit2: Option<Suit>,
    suit3: Option<Suit>,
    suit4: Option<Suit>,
)
    ensures
        ({
            let second = starting_player.next_player();
            let third = second.next_player();
            let fourth = third.next_player();
            let fresh = Auction::fresh(starting_player);
            let one = fresh.after(starting_player, Bid::Pass, suit1);
            let two = one.after(second, Bid::Pass, suit2);
            let three = two.after(third, Bid::Pass, suit3);
            let four = three.after(fourth, Bid::Pass, suit4);
            &&& fresh.submit(starting_player, Bid::Pass, suit1) == Ok::<Auction, BidError>(one)
            &&& one.submit(second, Bid::Pass, suit2) == Ok::<Auction, BidError>(two)
            &&& two.submit(third, Bid::Pass, suit3) == Ok::<Auction, BidError>(three)
            &&& three.submit(fourth, Bid::Pass, suit4) == Ok::<Auction, BidError>(four)
            &&& four.state == BiddingState::DealAgain
            &&& four.contract() == Err::<Contract, BidError>(BidError::NoContract)
        }),
{
    let second = starting_player.next_player();
    let third = second.next_player();
    let fourth = third.next_player();
    let fresh = Auction::fresh(starting_player);
    let one = fresh.after(starting_player, Bid::Pass, suit1);
    let two = one.after(second, Bid::Pass, suit2);
    let three = two.after(third, Bid::Pass, suit3);
    lemma_last_real_bid_after(fresh.history, starting_player, Bid::Pass, suit1);
    lemma_last_real_bid_after(one.history, second, Bid::Pass, suit2);
    lemma_last_real_bid_after(two.history, third, Bid::Pass, suit3);
    lemma_last_real_bid_after(three.history, fourth, Bid::Pass, suit4);
}

/// When a bid that names a value has been accepted and the three players
/// after its bidder pass in turn, each pass is accepted and the auction is
/// done. If the bid came with a suit, the contract is that bid with its
/// bidder and suit, neither countered nor double countered. If it came
/// without one, which only the first turn of an auction can, there is no
/// contract.
pub proof fn lemma_bid_then_three_passes(
    auction: Auction,
    player: Player,
    bid: Bid,
    suit: Option<Suit>,
    suit1: Option<Suit>,
    suit2: Option<Suit>,
    suit3: Option<Suit>,
)
    requires
        auction.submit(player, bid, suit) is Ok,
        bid.requires_suit(),
    ensures
        suit is None ==> auction.history.len() == 0,
        ({
            let second = player.next_player();
            let third = second.next_player();
            let fourth = third.next_player();
            let bidden = auction.after(player, bid, suit);
            let one = bidden.after(second, Bid::Pass, suit1);
            let two = one.after(third, Bid::Pass, suit2);
            let three = two.after(fourth, Bid::Pass, suit3);
            &&& bidden.submit(second, Bid::Pass, suit1) == Ok::<Auction, BidError>(one)
            &&& one.submit(third, Bid::Pass, suit2) == Ok::<Auction, BidError>(two)
            &&& two.submit(fourth, Bid::Pass, suit3) == Ok::<Auction, BidError>(three)
            &&& three.state == BiddingState::Done
            &&& three.contract() == match suit {
                Some(suit) => Ok::<Contract, BidError>(
                    Contract { player, bid, suit, countered: false, double_countered: false },
                ),
                None => Err::<Contract, BidError>(BidError::NoWinningBid),
            }
        }),
{
    let second = player.next_player();
    let third = second.next_player();
    let fourth = third.next_player();
    let bidden = auction.after(player, bid, suit);
    let one = bidden.after(second, Bid::Pass, suit1);
    let two = one.after(third, Bid::Pass, suit2);
    let three = two.after(fourth, Bid::Pass, suit3);
    lemma_last_real_bid_after(auction.history, player, bid, suit);
    lemma_last_real_bid_after(bidden.history, second, Bid::Pass, suit1);
    lemma_last_real_bid_after(one.history, third, Bid::Pass, suit2);
    lemma_last_real_bid_after(two.history, fourth, Bid::Pass, suit3);
    lemma_last_value_bid_is(three.history, auction.history.len() as int);
}

/// While the auction goes on, a bid by anybody but the player whose turn
/// it is is refused as out of turn. (Once the auction is settled, every bid
/// is refused for that.)
pub proof fn lemma_out_of_turn(auction: Auction, player: Player, bid: Bid, suit: Option<Suit>)
    requires
        auction.state == BiddingState::Ongoing,
        player != auction.expected_player(),
    ensures
        auction.submit(player, bid, suit) == Err::<Auction, BidError>(BidError::WrongTurn),
{
}

/// A bid that names a value and comes without a suit is refused for the
/// missing suit, provided that nothing else decides before: the auction
/// goes on, it is the player's turn, it is not the first turn of the
/// auction, and the bid is legal.
pub proof fn lemma_missing_suit(auction: Auction, player: Player, bid: Bid)
    requires
        auction.state == BiddingState::Ongoing,
        player == auction.expected_player(),
        auction.history.len() > 0,
        is_legal(auction.history, player, bid),
        bid.requires_suit(),
    ensures
        auction.submit(player, bid, None) == Err::<Auction, BidError>(BidError::MissingSuit),
{
}

/// The first turn of an auction is accepted whatever the bid and the suit,
/// if the auction goes on and the starting player takes it.
pub proof fn lemma_first_turn_is_accepted(auction: Auction, bid: Bid, suit: Option<Suit>)
    requires
        auction.state == BiddingState::Ongoing,
        auction.history.len() == 0,
    ensures
        auction.submit(auction.starting_player, bid, suit) == Ok::<Auction, BidError>(
            auction.after(auction.starting_player, bid, suit),
        ),
{
}

/// A fresh auction is reachable.
pub proof fn lemma_fresh_is_reachable(starting_player: Player)
    ensures
        Auction::fresh(starting_player).reachable(),
{
}

/// What an accepted submission makes of a reachable auction is reachable.
pub proof fn lemma_submit_keeps_reachable(
    auction: Auction,
    player: Player,
    bid: Bid,
    suit: Option<Suit>,
)
    requires
        auction.reachable(),
        auction.submit(player, bid, suit) is Ok,
    ensures
        auction.after(player, bid, suit).reachable(),
{
    assert(auction.after(player, bid, suit).history.drop_last() == auction.history);
}

/// In a reachable auction the phase is the one that the history gives, the
/// players have spoken in rotation from the starting player on, and every
/// bid but the first that names a value came with a suit.
pub proof fn lemma_reachable_is_consistent(auction: Auction)
    requires
        auction.reachable(),
    ensures
        auction.state == phase_of(auction.history),
        in_rotation(auction.starting_player, auction.history),
        suits_named(auction.history),
    decreases auction.history.len(),
{
    if auction.history.len() > 0 {
        let earlier = auction.history.drop_last();
        let before = Auction {
            starting_player: auction.starting_player,
            history: earlier,
            state: BiddingState::Ongoing,
        };
        lemma_reachable_is_consistent(before);
        assert forall|i: int| 0 <= i < auction.history.len() implies (#[trigger] auction.history[i]).0
            == seat(auction.starting_player, i as nat) by {
            if 0 < i < earlier.len() {
                assert(earlier[i].0 == auction.history[i].0);
            }
        }
        assert forall|i: int|
            1 <= i < auction.history.len() && (#[trigger] auction.history[i]).1.requires_suit() implies auction.history[i].2 is Some by {
            if i < earlier.len() {
                assert(earlier[i] == auction.history[i]);
            }
        }
    }
}

/// In a reachable auction that did not open with a counter or a double
/// counter, a bid that names a value was made before any turn that was not a
/// pass.
proof fn lemma_real_bid_follows_value(auction: Auction)
    requires
        auction.reachable(),
        auction.history.len() > 0 ==> auction.history[0].1 != Bid::Counter && auction.history[0].1
            != Bid::DoubleCounter,
    ensures
        last_real_bid(auction.history) is Some ==> last_value_bid(auction.history) >= 0,
    decreases auction.history.len(),
{
    if auction.history.len() > 0 {
        let earlier = auction.history.drop_last();
        let turn = auction.history.last();
        let before = Auction {
            starting_player: auction.starting_player,
            history: earlier,
            state: BiddingState::Ongoing,
        };
        lemma_real_bid_follows_value(before);
        lemma_last_real_bid_after(earlier, turn.0, turn.1, turn.2);
    }
}

/// A reachable auction that is done has a contract, provided that its
/// first turn was a pass or a bid with a value and a suit. (The first turn
/// is accepted as it comes: where it was a counter, or a bid without a
/// suit, a done auction may be left without a contract.)
pub proof fn lemma_done_has_contract(auction: Auction)
    requires
        auction.reachable(),
        auction.state == BiddingState::Done,
        auction.history[0].1 != Bid::Counter,
        auction.history[0].1 != Bid::DoubleCounter,
        auction.history[0].1.requires_suit() ==> auction.history[0].2 is Some,
    ensures
        auction.contract() is Ok,
{
    lemma_reachable_is_consistent(auction);
    lemma_trailing_passes(auction.history);
    lemma_real_bid_follows_value(auction);
    lemma_last_value_bid(auction.history);
    let winner = last_value_bid(auction.history);
}

} // verus!
