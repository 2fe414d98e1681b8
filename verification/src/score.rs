//! Hand scoring: cards are counted in hand order, and an ace counts 11 unless
//! that would take the running total past 21, in which case it counts 1.

use vstd::prelude::*;
use crate::card::Card;

verus! {

/// What a card of value `value` adds to the running total `total`.
pub open spec fn card_points(total: int, value: int) -> int {
    if value != 11 {
        value
    } else if total + 11 > 21 {
        1
    } else {
        11
    }
}

/// The score of a hand: the cards taken one by one in hand order, each adding
/// `card_points` of the total reached so far. An ace is judged when it is
/// met and never revalued afterwards.
pub open spec fn hand_score(hand: Seq<Card>) -> int
    decreases hand.len(),
{
    if hand.len() == 0 {
        0
    } else {
        let before = hand_score(hand.drop_last());
        before + card_points(before, hand.last().points())
    }
}

/// The plain sum of the cards' values, every ace taken as 11.
pub open spec fn value_sum(hand: Seq<Card>) -> int
    decreases hand.len(),
{
    if hand.len() == 0 {
        0
    } else {
        value_sum(hand.drop_last()) + hand.last().points()
    }
}

/// A hand with one more card scores at least one more and at most eleven more.
pub proof fn score_grows(hand: Seq<Card>, card: Card)
    ensures
        hand_score(hand.push(card)) == hand_score(hand) + card_points(
            hand_score(hand),
            card.points(),
        ),
        hand_score(hand) + 1 <= hand_score(hand.push(card)) <= hand_score(hand) + 11,
{
    assert(hand.push(card).drop_last() =~= hand);
}

/// The first `n` cards of a hand score no more than the whole hand.
pub proof fn prefix_scores_less(hand: Seq<Card>, n: int)
    requires
        0 <= n <= hand.len(),
    ensures
        0 <= hand_score(hand.take(n)) <= hand_score(hand),
    decreases hand.len(),
{
    if n == hand.len() {
        assert(hand.take(n) =~= hand);
        if hand.len() > 0 {
            prefix_scores_less(hand.drop_last(), n - 1);
            assert(hand.drop_last().take(n - 1) =~= hand.drop_last());
        }
    } else {
        prefix_scores_less(hand.drop_last(), n);
        assert(hand.drop_last().take(n) =~= hand.take(n));
    }
}

/// The running total `total` after a card of value `value` was counted.
pub fn count_card(total: u8, value: u8) -> (next: u8)
    requires
        total + card_points(total as int, value as int) <= u8::MAX,
    ensures
        next == total + card_points(total as int, value as int),
{
    if value != 11 {
        total + value
    } else if total > 10 {
        total + 1
    } else {
        total + 11
    }
}

/// The score of a hand, by the sequential ace rule.
pub fn score(hand: &Vec<Card>) -> (total: u8)
    requires
        hand_score(hand@) <= u8::MAX,
    ensures
        total == hand_score(hand@),
{
    let mut total: u8 = 0;
    let mut i: usize = 0;
    while i < hand.len()
        invariant
            i <= hand.len(),
            total == hand_score(hand@.take(i as int)),
            hand_score(hand@) <= u8::MAX,
        decreases hand.len() - i,
    {
        let value: u8 = hand[i].value();
        proof {
            prefix_scores_less(hand@, i + 1);
            assert(hand@.take(i + 1).drop_last() =~= hand@.take(i as int));
        }
        total = count_card(total, value);
        i += 1;
    }
    proof {
        assert(hand@.take(i as int) =~= hand@);
    }
    total
}

/// A hand without an ace scores the sum of its cards' values.
pub proof fn score_without_aces(hand: Seq<Card>)
    requires
        forall|i: int| 0 <= i < hand.len() ==> hand[i].points() != 11,
    ensures
        hand_score(hand) == value_sum(hand),
    decreases hand.len(),
{
    if hand.len() > 0 {
        score_without_aces(hand.drop_last());
    }
}

/// In a hand whose only ace stands at position `ace`, every other card counts
/// its value and the ace counts by the total of the cards before it.
pub proof fn score_with_one_ace(hand: Seq<Card>, ace: int)
    requires
        0 <= ace < hand.len(),
        hand[ace].points() == 11,
        forall|i: int| 0 <= i < hand.len() && i != ace ==> hand[i].points() != 11,
    ensures
        hand_score(hand) == value_sum(hand) - 11 + card_points(value_sum(hand.take(ace)), 11),
        0 <= value_sum(hand.take(ace)) <= value_sum(hand) - 11,
    decreases hand.len(),
{
    let rest = hand.drop_last();
    if ace == hand.len() - 1 {
        assert(hand.take(ace) =~= rest);
        score_without_aces(rest);
        values_are_positive(rest);
    } else {
        score_with_one_ace(rest, ace);
        assert(rest.take(ace) =~= hand.take(ace));
    }
}

/// A hand with exactly one ace that is met while the cards before it sum to
/// 10 or less counts the ace as 11, whatever follows: with more than 10 in
/// the other cards such a hand is over 21.
pub proof fn early_ace_stays_eleven(hand: Seq<Card>, ace: int)
    requires
        0 <= ace < hand.len(),
        hand[ace].points() == 11,
        forall|i: int| 0 <= i < hand.len() && i != ace ==> hand[i].points() != 11,
        value_sum(hand.take(ace)) <= 10,
    ensures
        hand_score(hand) == value_sum(hand),
        value_sum(hand) - 11 > 10 ==> hand_score(hand) > 21,
{
    score_with_one_ace(hand, ace);
}

/// The sum of a hand's values is never negative.
pub proof fn values_are_positive(hand: Seq<Card>)
    ensures
        value_sum(hand) >= 0,
    decreases hand.len(),
{
    if hand.len() > 0 {
        values_are_positive(hand.drop_last());
    }
}

/// A hand with exactly one ace whose other cards sum to 10 or less counts the
/// ace as 11, wherever the ace stands.
pub proof fn soft_ace_counts_eleven(hand: Seq<Card>, ace: int)
    requires
        0 <= ace < hand.len(),
        hand[ace].points() == 11,
        forall|i: int| 0 <= i < hand.len() && i != ace ==> hand[i].points() != 11,
        value_sum(hand) - 11 <= 10,
    ensures
        hand_score(hand) == (value_sum(hand) - 11) + 11,
{
    score_with_one_ace(hand, ace);
}

/// A hand with exactly one ace whose other cards sum to more than 10 counts
/// the ace as 1, provided that the cards before the ace already sum to more
/// than 10: an ace is judged by what came before it, and cards that follow
/// do not change how it counted.
pub proof fn hard_ace_counts_one(hand: Seq<Card>, ace: int)
    requires
        0 <= ace < hand.len(),
        hand[ace].points() == 11,
        forall|i: int| 0 <= i < hand.len() && i != ace ==> hand[i].points() != 11,
        value_sum(hand) - 11 > 10,
        value_sum(hand.take(ace)) > 10,
    ensures
        hand_score(hand) == (value_sum(hand) - 11) + 1,
{
    score_with_one_ace(hand, ace);
}

} // verus!
