use blackjack::card::{card_name, generate_card_names, Card, Rank, Suit};
use blackjack::deck::Deck;
use blackjack::event::{push_card_events, Event, Seat};
use blackjack::game::Round;
use blackjack::input::{blank, digit, has_letter, parse_bet, parse_decision, MAX_BET};
use blackjack::policy::dealer_hits_against;
use blackjack::round::{Decision, Outcome, Phase};

fn spade(rank: usize) -> Card {
    Card { rank: Rank::from_index(rank), suit: Suit::Spades, drawn: true }
}

#[test]
fn card_names_follow_rank_and_suit() {
    let suits = ["Spades", "Hearts", "Diamonds", "Clubs"];
    let ranks = [
        "2nd", "3rd", "4th", "5th", "6th", "7th", "8th", "9th", "10th", "Jack", "Queen", "King",
        "Ace",
    ];
    let names = generate_card_names(suits, ranks);
    assert_eq!(names.len(), 52);
    assert_eq!(names[0], "2nd of Spades");
    assert_eq!(names[12], "Ace of Spades");
    assert_eq!(names[13], "2nd of Hearts");
    assert_eq!(names[36], "Queen of Diamonds");
    assert_eq!(names[51], "Ace of Clubs");
    let deck = Deck::new();
    for (i, card) in deck.cards().iter().enumerate() {
        assert_eq!(card.name(), names[i]);
        assert_eq!(card.name(), format!("{} of {}", card.rank.label(), card.suit.label()));
    }
    assert_eq!(card_name("King", "Clubs"), "King of Clubs");
}

#[test]
fn decisions_are_read_from_letters() {
    assert_eq!(parse_decision("H\n"), Some(Decision::Hit));
    assert_eq!(parse_decision("h"), Some(Decision::Hit));
    assert_eq!(parse_decision("hit me"), Some(Decision::Hit));
    assert_eq!(parse_decision("S\n"), Some(Decision::Stand));
    assert_eq!(parse_decision("s"), Some(Decision::Stand));
    assert_eq!(parse_decision("Q"), Some(Decision::Quit));
    assert_eq!(parse_decision("q\n"), Some(Decision::Quit));
    // A Q wins over the other letters, and an H over an S.
    assert_eq!(parse_decision("squash"), Some(Decision::Quit));
    assert_eq!(parse_decision("sh"), Some(Decision::Hit));
    assert_eq!(parse_decision(""), None);
    assert_eq!(parse_decision("\n"), None);
    assert_eq!(parse_decision("42 x"), None);
    assert!(has_letter("abc", 'C', 'c'));
    assert!(!has_letter("abc", 'D', 'd'));
}

#[test]
fn stricter_policy_chases_a_standing_player() {
    for roll in 1..=100u8 {
        assert!(dealer_hits_against(14, 17, roll));
        assert!(dealer_hits_against(16, 21, roll));
        assert!(!dealer_hits_against(17, 20, roll));
        assert!(dealer_hits_against(10, 5, roll));
    }
    assert!(!dealer_hits_against(15, 16, 65));
    assert!(dealer_hits_against(15, 16, 66));
    assert!(!dealer_hits_against(12, 20, 30));
    assert!(dealer_hits_against(12, 20, 31));
}

#[test]
fn events_of_a_hand() {
    let hand = vec![spade(8), spade(4), spade(11)];
    let mut events = Vec::new();
    push_card_events(&mut events, Seat::Player, &hand, 0);
    assert_eq!(
        events,
        vec![
            Event::CardDealt { seat: Seat::Player, card: spade(8), is_first_card: true },
            Event::ScoreUpdated { seat: Seat::Player, score: 10 },
            Event::CardDealt { seat: Seat::Player, card: spade(4), is_first_card: false },
            Event::ScoreUpdated { seat: Seat::Player, score: 16 },
            Event::CardDealt { seat: Seat::Player, card: spade(11), is_first_card: false },
            Event::ScoreUpdated { seat: Seat::Player, score: 26 },
            Event::Busted { seat: Seat::Player },
        ]
    );
    let mut later = vec![Event::Busted { seat: Seat::Dealer }];
    push_card_events(&mut later, Seat::Dealer, &hand, 2);
    assert_eq!(
        later,
        vec![
            Event::Busted { seat: Seat::Dealer },
            Event::CardDealt { seat: Seat::Dealer, card: spade(11), is_first_card: false },
            Event::ScoreUpdated { seat: Seat::Dealer, score: 26 },
            Event::Busted { seat: Seat::Dealer },
        ]
    );
    let mut none = Vec::new();
    push_card_events(&mut none, Seat::Dealer, &hand, 3);
    assert!(none.is_empty());
    push_card_events(&mut none, Seat::Dealer, &hand, 7);
    assert!(none.is_empty());
}

#[test]
fn events_of_a_round() {
    let mut round = Round::new(10);
    assert!(round.events_since(0, 0).is_empty());
    // Fresh shoe: nine, then seven, then (two slots gone) six and five of spades.
    assert_eq!(round.deal_with(7, 5, 4, 3), Ok(()));
    assert_eq!(
        round.events_since(0, 0),
        vec![
            Event::CardDealt { seat: Seat::Dealer, card: spade(7), is_first_card: true },
            Event::ScoreUpdated { seat: Seat::Dealer, score: 9 },
            Event::CardDealt { seat: Seat::Dealer, card: spade(5), is_first_card: false },
            Event::ScoreUpdated { seat: Seat::Dealer, score: 16 },
            Event::CardDealt { seat: Seat::Player, card: spade(4), is_first_card: true },
            Event::ScoreUpdated { seat: Seat::Player, score: 6 },
            Event::CardDealt { seat: Seat::Player, card: spade(3), is_first_card: false },
            Event::ScoreUpdated { seat: Seat::Player, score: 11 },
        ]
    );
    assert!(round.events_since(2, 2).is_empty());
    // Undrawn now: slots 0, 1, 2, 6, 8, ...: number 4 is the ten.
    assert_eq!(round.player_move_with(Decision::Hit, 4), Ok(()));
    assert_eq!(
        round.events_since(2, 2),
        vec![
            Event::CardDealt { seat: Seat::Player, card: spade(8), is_first_card: false },
            Event::ScoreUpdated { seat: Seat::Player, score: 21 },
        ]
    );
    assert_eq!(round.player_move_with(Decision::Stand, 0), Ok(()));
    assert!(round.events_since(3, 2).is_empty());
    // Number 3 is the eight: the dealer goes from 16 to 24.
    assert_eq!(round.dealer_move_with(100, 3), Ok(()));
    assert_eq!(round.phase(), Phase::Resolved(Outcome::PlayerWin));
    assert_eq!(
        round.events_since(3, 2),
        vec![
            Event::CardDealt { seat: Seat::Dealer, card: spade(6), is_first_card: false },
            Event::ScoreUpdated { seat: Seat::Dealer, score: 24 },
            Event::Busted { seat: Seat::Dealer },
            Event::RoundResolved { outcome: Outcome::PlayerWin, player_score: 21, dealer_score: 24 },
        ]
    );
}

#[test]
fn stakes_are_read_from_digits() {
    assert_eq!(parse_bet("25\n"), Some(25));
    assert_eq!(parse_bet("  100 \r\n"), Some(100));
    assert_eq!(parse_bet("\t7"), Some(7));
    assert_eq!(parse_bet("1"), Some(1));
    assert_eq!(parse_bet("007"), Some(7));
    assert_eq!(parse_bet("65535"), Some(65535));
    assert_eq!(MAX_BET, 65535);
}

#[test]
fn other_lines_are_no_stake() {
    assert_eq!(parse_bet(""), None);
    assert_eq!(parse_bet("\n"), None);
    assert_eq!(parse_bet("0"), None);
    assert_eq!(parse_bet("000"), None);
    assert_eq!(parse_bet("65536"), None);
    assert_eq!(parse_bet("99999999999999999999999"), None);
    assert_eq!(parse_bet("-5"), None);
    assert_eq!(parse_bet("$5"), None);
    assert_eq!(parse_bet("5 5"), None);
    assert_eq!(parse_bet("12a"), None);
    assert_eq!(parse_bet("ten"), None);
    assert_eq!(parse_bet("4.5"), None);
    assert_eq!(parse_bet("\u{663}"), None);
}

#[test]
fn blanks_and_digits() {
    for c in [' ', '\t', '\n', '\r'] {
        assert!(blank(c));
    }
    assert!(!blank('0'));
    assert!(!blank('x'));
    for (i, c) in "0123456789".chars().enumerate() {
        assert_eq!(digit(c), Some(i as u32));
    }
    assert_eq!(digit('/'), None);
    assert_eq!(digit(':'), None);
    assert_eq!(digit('a'), None);
}
