use belote::bids::{Bid, Contract};
use belote::cards::{Card, Rank, Suit};
use belote::deck::Deck;
use belote::game::{total_points, winner, Game, SCORE_GOAL};
use belote::players::{Player, Team};
use belote::round::Round;

#[test]
fn the_players_follow_each_other_clockwise() {
    assert_eq!(Player::South.next_player(), Player::West);
    assert_eq!(Player::West.next_player(), Player::North);
    assert_eq!(Player::North.next_player(), Player::East);
    assert_eq!(Player::East.next_player(), Player::South);
}

#[test]
fn the_turn_comes_back_after_four_players() {
    for player in [Player::North, Player::West, Player::South, Player::East] {
        let back = player.next_player().next_player().next_player().next_player();
        assert_eq!(back, player);
    }
}

#[test]
fn facing_players_are_partners() {
    assert_eq!(Player::South.team(), Team::SouthNorth);
    assert_eq!(Player::North.team(), Team::SouthNorth);
    assert_eq!(Player::East.team(), Team::EastWest);
    assert_eq!(Player::West.team(), Team::EastWest);
    for player in [Player::North, Player::West, Player::South, Player::East] {
        assert_ne!(player.next_player().team(), player.team());
        assert_eq!(player.next_player().next_player().team(), player.team());
    }
}

#[test]
fn each_team_has_its_own_key() {
    assert_eq!(Team::SouthNorth.key(), 0);
    assert_eq!(Team::EastWest.key(), 1);
}

#[test]
fn the_suits_and_ranks_come_in_their_order() {
    assert_eq!(
        Suit::iterator(),
        vec![Suit::Clubs, Suit::Diamonds, Suit::Hearts, Suit::Spades]
    );
    assert_eq!(
        Rank::iterator(),
        vec![
            Rank::Seven,
            Rank::Eight,
            Rank::Nine,
            Rank::Ten,
            Rank::Jack,
            Rank::Queen,
            Rank::King,
            Rank::Ace,
        ]
    );
}

#[test]
fn a_card_has_the_suit_and_rank_it_was_made_with() {
    let card = Card::new(Suit::Hearts, Rank::Jack);
    assert_eq!(card.suit, Suit::Hearts);
    assert_eq!(card.rank, Rank::Jack);
    assert_eq!(card, Card { suit: Suit::Hearts, rank: Rank::Jack });
    assert_ne!(card, Card::new(Suit::Hearts, Rank::Queen));
    assert_ne!(card, Card::new(Suit::Spades, Rank::Jack));
}

#[test]
fn a_card_reads_as_its_rank_of_its_suit() {
    assert_eq!(Card::new(Suit::Spades, Rank::Ace).to_text(), "Ace of Spades");
    assert_eq!(Card::new(Suit::Diamonds, Rank::Seven).to_text(), "Seven of Diamonds");
    assert_eq!(Card::new(Suit::Clubs, Rank::Ten).to_text(), "Ten of Clubs");
    assert_eq!(Card::new(Suit::Hearts, Rank::Queen).to_text(), "Queen of Hearts");
    for suit in Suit::iterator() {
        for rank in Rank::iterator() {
            assert_eq!(
                Card::new(suit, rank).to_text(),
                format!("{:?} of {:?}", rank, suit)
            );
            assert_eq!(rank.name(), format!("{:?}", rank));
            assert_eq!(suit.name(), format!("{:?}", suit));
        }
    }
}

fn some_contract() -> Contract {
    Contract {
        player: Player::South,
        bid: Bid::Hundred,
        suit: Suit::Hearts,
        countered: false,
        double_countered: false,
    }
}

#[test]
fn a_new_round_has_no_points_for_either_team() {
    let round = Round::new(some_contract());
    assert_eq!(round.scores.len(), 2);
    assert_eq!(round.scores[&Team::SouthNorth.key()], 0);
    assert_eq!(round.scores[&Team::EastWest.key()], 0);
    assert_eq!(round.score(Team::SouthNorth), Some(0));
    assert_eq!(round.score(Team::EastWest), Some(0));
}

#[test]
fn a_round_gives_the_points_that_were_put_in() {
    let mut round = Round::new(some_contract());
    round.scores.insert(Team::EastWest.key(), 162);
    assert_eq!(round.score(Team::SouthNorth), Some(0));
    assert_eq!(round.score(Team::EastWest), Some(162));
    round.scores.remove(&Team::SouthNorth.key());
    assert_eq!(round.score(Team::SouthNorth), None);
}

#[test]
fn counting_points_leaves_the_round_as_it_is() {
    let mut round = Round::new(some_contract());
    round.scores.insert(Team::SouthNorth.key(), 90);
    let before = round.clone();
    round.calculate_points();
    assert_eq!(round, before);
}

fn round_with(south_north: usize, east_west: usize) -> Round {
    let mut round = Round::new(some_contract());
    round.scores.insert(Team::SouthNorth.key(), south_north);
    round.scores.insert(Team::EastWest.key(), east_west);
    round
}

#[test]
fn the_points_of_a_team_add_up_over_the_rounds() {
    assert_eq!(total_points(&[], Team::SouthNorth), 0);
    assert_eq!(total_points(&[], Team::EastWest), 0);
    let rounds = [round_with(90, 72), round_with(0, 162), round_with(500, 10)];
    assert_eq!(total_points(&rounds, Team::SouthNorth), 590);
    assert_eq!(total_points(&rounds, Team::EastWest), 244);
    assert_eq!(total_points(&rounds[..1], Team::SouthNorth), 90);
    assert_eq!(total_points(&rounds[1..], Team::EastWest), 172);
}

#[test]
fn the_points_add_up_beyond_what_one_round_can_hold() {
    let rounds = [round_with(usize::MAX, 1), round_with(usize::MAX, 2)];
    assert_eq!(
        total_points(&rounds, Team::SouthNorth),
        2 * (usize::MAX as u128)
    );
    assert_eq!(total_points(&rounds, Team::EastWest), 3);
}

#[test]
fn the_totals_of_the_rounds_decide_the_winner() {
    let rounds = [round_with(600, 300), round_with(401, 500)];
    assert_eq!(
        winner(
            total_points(&rounds, Team::SouthNorth),
            total_points(&rounds, Team::EastWest)
        ),
        Some(Team::SouthNorth)
    );
    let rounds = [round_with(600, 300), round_with(400, 500)];
    assert_eq!(
        winner(
            total_points(&rounds, Team::SouthNorth),
            total_points(&rounds, Team::EastWest)
        ),
        None
    );
    let rounds = [round_with(600, 700), round_with(500, 500)];
    assert_eq!(
        winner(
            total_points(&rounds, Team::SouthNorth),
            total_points(&rounds, Team::EastWest)
        ),
        Some(Team::EastWest)
    );
}

#[test]
fn the_goal_is_a_thousand_points() {
    assert_eq!(SCORE_GOAL, 1000);
}

#[test]
fn nobody_has_won_before_passing_the_goal() {
    assert_eq!(winner(0, 0), None);
    assert_eq!(winner(1000, 1000), None);
    assert_eq!(winner(1000, 0), None);
    assert_eq!(winner(0, 1000), None);
    assert_eq!(winner(999, 1000), None);
}

#[test]
fn the_team_past_the_goal_has_won() {
    assert_eq!(winner(1001, 0), Some(Team::SouthNorth));
    assert_eq!(winner(1001, 1000), Some(Team::SouthNorth));
    assert_eq!(winner(0, 1001), Some(Team::EastWest));
    assert_eq!(winner(1000, 1001), Some(Team::EastWest));
}

#[test]
fn with_both_teams_past_the_goal_south_and_north_must_lead_to_win() {
    assert_eq!(winner(3000, 2000), Some(Team::SouthNorth));
    assert_eq!(winner(2000, 3000), Some(Team::EastWest));
    assert_eq!(winner(1001, 1001), Some(Team::EastWest));
    assert_eq!(winner(u128::MAX, u128::MAX), Some(Team::EastWest));
    assert_eq!(winner(u128::MAX, u128::MAX - 1), Some(Team::SouthNorth));
}

#[test]
fn a_new_game_has_no_winner() {
    let mut game = Game::new().unwrap();
    assert_eq!(game.has_winner(), None);
    game.new_round();
    assert_eq!(game.has_winner(), None);
    let copy = game.clone();
    assert_eq!(copy.has_winner(), None);
}

#[test]
fn there_is_no_game_without_a_deck() {
    assert!(Game::from_deck(None).is_none());
}

#[test]
fn a_deck_gives_a_game_without_a_winner() {
    let game = Game::from_deck(Deck::new()).unwrap();
    assert_eq!(game.has_winner(), None);
}
