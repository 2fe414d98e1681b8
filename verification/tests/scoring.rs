use blackjack::card::{generate_cards, Card, Rank, Suit};
use blackjack::participant::{generate_dealer, generate_player};
use blackjack::score::score;

fn card(rank: Rank) -> Card {
    Card { rank, suit: Suit::Hearts, drawn: true }
}

fn hand(ranks: &[Rank]) -> Vec<Card> {
    ranks.iter().map(|r| card(*r)).collect()
}

#[test]
fn empty_hand_scores_zero() {
    assert_eq!(score(&Vec::new()), 0);
}

#[test]
fn hand_without_aces_scores_the_sum() {
    assert_eq!(score(&hand(&[Rank::Two, Rank::Nine, Rank::King])), 21);
    assert_eq!(score(&hand(&[Rank::Ten, Rank::Jack, Rank::Queen])), 30);
    assert_eq!(score(&hand(&[Rank::Three, Rank::Four, Rank::Five, Rank::Six])), 18);
}

#[test]
fn single_ace_is_soft_when_the_rest_is_ten_or_less() {
    assert_eq!(score(&hand(&[Rank::Ace])), 11);
    assert_eq!(score(&hand(&[Rank::Ace, Rank::King])), 21);
    assert_eq!(score(&hand(&[Rank::King, Rank::Ace])), 21);
    assert_eq!(score(&hand(&[Rank::Four, Rank::Ace, Rank::Six])), 21);
    assert_eq!(score(&hand(&[Rank::Two, Rank::Three, Rank::Ace])), 16);
}

#[test]
fn single_ace_is_hard_after_more_than_ten() {
    assert_eq!(score(&hand(&[Rank::King, Rank::Five, Rank::Ace])), 16);
    assert_eq!(score(&hand(&[Rank::Six, Rank::Five, Rank::Ace])), 12);
    assert_eq!(score(&hand(&[Rank::King, Rank::Queen, Rank::Ace])), 21);
}

#[test]
fn ace_is_judged_when_met_and_not_again() {
    // The ace came first and counted 11; the later cards do not demote it.
    assert_eq!(score(&hand(&[Rank::Ace, Rank::King, Rank::Five])), 26);
    assert_eq!(score(&hand(&[Rank::Ace, Rank::Five, Rank::King])), 26);
}

#[test]
fn second_ace_counts_one() {
    assert_eq!(score(&hand(&[Rank::Ace, Rank::Ace])), 12);
    assert_eq!(score(&hand(&[Rank::Ace, Rank::Ace, Rank::Nine])), 21);
    assert_eq!(score(&hand(&[Rank::Ace, Rank::Ace, Rank::Ace])), 13);
}

#[test]
fn rank_values() {
    let expected: [(Rank, u8); 13] = [
        (Rank::Two, 2),
        (Rank::Three, 3),
        (Rank::Four, 4),
        (Rank::Five, 5),
        (Rank::Six, 6),
        (Rank::Seven, 7),
        (Rank::Eight, 8),
        (Rank::Nine, 9),
        (Rank::Ten, 10),
        (Rank::Jack, 10),
        (Rank::Queen, 10),
        (Rank::King, 10),
        (Rank::Ace, 11),
    ];
    for (rank, value) in expected {
        assert_eq!(rank.value(), value);
        assert_eq!(card(rank).value(), value);
        assert_eq!(card(rank).is_ace(), value == 11);
    }
}

#[test]
fn fresh_cards_are_the_fifty_two() {
    let cards = generate_cards();
    assert_eq!(cards.len(), 52);
    for (i, c) in cards.iter().enumerate() {
        assert_eq!(c.rank, Rank::from_index(i % 13));
        assert_eq!(c.suit, Suit::from_index(i / 13));
        assert!(!c.drawn);
        for other in &cards[i + 1..] {
            assert!(c.rank != other.rank || c.suit != other.suit);
        }
    }
    assert_eq!(cards[0], Card { rank: Rank::Two, suit: Suit::Spades, drawn: false });
    assert_eq!(cards[12], Card { rank: Rank::Ace, suit: Suit::Spades, drawn: false });
    assert_eq!(cards[13], Card { rank: Rank::Two, suit: Suit::Hearts, drawn: false });
    assert_eq!(cards[51], Card { rank: Rank::Ace, suit: Suit::Clubs, drawn: false });
    let total: u32 = cards.iter().map(|c| c.value() as u32).sum();
    assert_eq!(total, 380);
}

#[test]
fn player_score_follows_the_hand() {
    let mut player = generate_player(50);
    assert_eq!(player.score(), 0);
    assert_eq!(player.bet(), 50);
    assert!(!player.check_busted());
    player.add_card(card(Rank::Nine));
    player.add_card(card(Rank::Six));
    assert_eq!(player.score(), 15);
    assert_eq!(player.calc_score(), 15);
    assert!(!player.check_busted());
    assert_eq!(player.bet(), 50);
    player.add_card(card(Rank::King));
    assert_eq!(player.score(), 25);
    assert!(player.check_busted());
    assert_eq!(player.bet(), 0);
    assert_eq!(player.hand().len(), 3);
    assert_eq!(player.hand()[2], card(Rank::King));
}

#[test]
fn dealer_score_follows_the_hand() {
    let mut dealer = generate_dealer();
    assert_eq!(dealer.score(), 0);
    assert!(dealer.get_last_card().is_none());
    assert!(!dealer.has_won());
    dealer.add_card(card(Rank::Ace));
    assert_eq!(dealer.get_last_card(), Some(&card(Rank::Ace)));
    dealer.hit(card(Rank::Seven));
    assert_eq!(dealer.score(), 18);
    assert_eq!(dealer.calc_score(), 18);
    assert_eq!(dealer.get_last_card(), Some(&card(Rank::Seven)));
    assert!(!dealer.check_busted());
    dealer.hit(card(Rank::Five));
    assert_eq!(dealer.score(), 23);
    assert!(dealer.check_busted());
    assert_eq!(dealer.hand().len(), 3);
    dealer.set_won(true);
    assert!(dealer.has_won());
    assert_eq!(dealer.score(), 23);
}

#[test]
fn cards_are_counted_against_the_running_total() {
    assert_eq!(blackjack::score::count_card(0, 11), 11);
    assert_eq!(blackjack::score::count_card(10, 11), 21);
    assert_eq!(blackjack::score::count_card(11, 11), 12);
    assert_eq!(blackjack::score::count_card(20, 11), 21);
    assert_eq!(blackjack::score::count_card(15, 10), 25);
    assert_eq!(blackjack::score::count_card(21, 2), 23);
}
