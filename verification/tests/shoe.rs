use blackjack::card::{Card, Rank, Suit};
use blackjack::deck::{DealError, Deck};

fn undrawn_slots(deck: &Deck) -> Vec<usize> {
    deck.cards().iter().enumerate().filter(|(_, c)| !c.drawn).map(|(i, _)| i).collect()
}

#[test]
fn fresh_shoe_has_fifty_two_undrawn() {
    let deck = Deck::new();
    assert_eq!(deck.cards().len(), 52);
    assert_eq!(deck.count_undrawn(), 52);
    assert_eq!(undrawn_slots(&deck).len(), 52);
}

#[test]
fn deal_nth_takes_the_nth_undrawn_card() {
    let mut deck = Deck::new();
    let first = deck.deal_nth(0);
    assert_eq!(first, Card { rank: Rank::Two, suit: Suit::Spades, drawn: true });
    assert!(deck.cards()[0].drawn);
    // Slot 0 is gone, so the undrawn card number 0 is now slot 1.
    let second = deck.deal_nth(0);
    assert_eq!(second, Card { rank: Rank::Three, suit: Suit::Spades, drawn: true });
    // Slots 0 and 1 are gone: number 11 is slot 13, the two of hearts.
    let third = deck.deal_nth(11);
    assert_eq!(third, Card { rank: Rank::Two, suit: Suit::Hearts, drawn: true });
    let last = deck.deal_nth(48);
    assert_eq!(last, Card { rank: Rank::Ace, suit: Suit::Clubs, drawn: true });
    assert_eq!(deck.count_undrawn(), 48);
    assert_eq!(deck.cards()[2].drawn, false);
}

#[test]
fn each_draw_leaves_one_card_fewer() {
    let mut deck = Deck::new();
    let mut k = 52;
    while k > 0 {
        let before = undrawn_slots(&deck);
        let n = (k * 7 + 3) % k;
        let card = deck.deal_nth(n);
        let slot = before[n];
        assert!(card.drawn);
        assert_eq!(card.rank, Rank::from_index(slot % 13));
        assert_eq!(card.suit, Suit::from_index(slot / 13));
        assert_eq!(deck.count_undrawn(), k - 1);
        let after = undrawn_slots(&deck);
        assert!(!after.contains(&slot));
        for s in &after {
            assert!(before.contains(s));
        }
        k -= 1;
    }
}

#[test]
fn deal_pick_reduces_the_sample() {
    let mut deck = Deck::new();
    // 60 % 52 = 8: slot 8, the ten of spades.
    assert_eq!(deck.deal_pick(60), Ok(Card { rank: Rank::Ten, suit: Suit::Spades, drawn: true }));
    // 51 % 51 = 0: slot 0.
    assert_eq!(deck.deal_pick(51), Ok(Card { rank: Rank::Two, suit: Suit::Spades, drawn: true }));
    assert_eq!(deck.count_undrawn(), 50);
}

#[test]
fn exhausted_shoe_fails() {
    let mut deck = Deck::new();
    for _ in 0..52 {
        assert!(deck.deal_pick(0).is_ok());
    }
    assert_eq!(deck.count_undrawn(), 0);
    assert_eq!(deck.deal_pick(0), Err(DealError::ShoeExhausted));
    assert_eq!(deck.deal_pick(17), Err(DealError::ShoeExhausted));
    assert_eq!(deck.deal_card(), Err(DealError::ShoeExhausted));
    assert_eq!(deck.count_undrawn(), 0);
    assert!(deck.cards().iter().all(|c| c.drawn));
}

#[test]
fn random_deals_never_repeat_a_card() {
    let mut deck = Deck::new();
    let mut seen: Vec<(Rank, Suit)> = Vec::new();
    for k in (1..=52).rev() {
        assert_eq!(deck.count_undrawn(), k);
        let pick = deck.random_pick();
        assert!(pick < k);
        let card = deck.deal_card().unwrap();
        assert!(card.drawn);
        assert!(!seen.contains(&(card.rank, card.suit)));
        seen.push((card.rank, card.suit));
        assert_eq!(deck.count_undrawn(), k - 1);
    }
    assert_eq!(seen.len(), 52);
    assert_eq!(deck.deal_card(), Err(DealError::ShoeExhausted));
    assert_eq!(deck.random_pick(), 0);
}

#[test]
fn random_picks_vary() {
    let deck = Deck::new();
    let first = deck.random_pick();
    let mut differs = false;
    for _ in 0..500 {
        let pick = deck.random_pick();
        assert!(pick < 52);
        if pick != first {
            differs = true;
        }
    }
    assert!(differs);
}
