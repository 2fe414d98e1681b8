//! One round: the initial deal with its blackjack check, the player's
//! decisions, the dealer's turn and the final comparison.

use vstd::prelude::*;
use crate::card::Card;
use crate::deck::{Deck, DealError, cards_after_pick, picked_card, undrawn_count};
use crate::participant::{Dealer, DealerView, Player, PlayerView};
use crate::policy::{dealer_hits, policy_hits, roll_die};
use crate::score::score_grows;
use vstd::arithmetic::div_mod::lemma_small_mod;

verus! {

/// How a round ended.
#[derive(Clone, Copy, Debug, PartialEq, Eq, Structural)]
pub enum Outcome {
    /// The player alone holds 21 after the initial deal.
    PlayerBlackjackWin,
    /// The dealer alone holds 21 after the initial deal.
    DealerBlackjackWin,
    /// The dealer busted, or the player finished with the higher score.
    PlayerWin,
    /// The player busted, or the dealer finished with the higher score.
    DealerWin,
    /// Both finished with the same score.
    Push,
}

/// What the player may decide on a turn.
#[derive(Clone, Copy, Debug, PartialEq, Eq, Structural)]
pub enum Decision {
    Hit,
    Stand,
    Quit,
}

/// Where a round stands.
#[derive(Clone, Copy, Debug, PartialEq, Eq, Structural)]
pub enum Phase {
    /// No card has been dealt yet.
    Dealing,
    /// The player is to decide.
    PlayerTurn,
    /// The player stood; the dealer is to play.
    DealerTurn,
    /// The round is over.
    Resolved(Outcome),
    /// The player quit.
    Aborted,
}

/// The blackjack check after the initial deal: a lone 21 wins at once, two
/// 21s are a push, anything else lets the round go on.
pub open spec fn blackjack_outcome(player: int, dealer: int) -> Option<Outcome> {
    if player == 21 && dealer != 21 {
        Some(Outcome::PlayerBlackjackWin)
    } else if dealer == 21 && player != 21 {
        Some(Outcome::DealerBlackjackWin)
    } else if player == 21 && dealer == 21 {
        Some(Outcome::Push)
    } else {
        None
    }
}

/// The comparison once the dealer has finished: a busted dealer loses, else
/// the higher score wins, and equal scores are a push.
pub open spec fn showdown(player: int, dealer: int) -> Outcome {
    if dealer > 21 {
        Outcome::PlayerWin
    } else if player > dealer {
        Outcome::PlayerWin
    } else if dealer > player {
        Outcome::DealerWin
    } else {
        Outcome::Push
    }
}

/// Whether the outcome is a win for the dealer.
pub open spec fn dealer_wins(outcome: Outcome) -> bool {
    outcome == Outcome::DealerWin || outcome == Outcome::DealerBlackjackWin
}

impl Outcome {
    /// Whether the outcome is a win for the dealer.
    pub fn is_dealer_win(self) -> (won: bool)
        ensures
            won == dealer_wins(self),
    {
        match self {
            Outcome::DealerWin => true,
            Outcome::DealerBlackjackWin => true,
            _ => false,
        }
    }
}

/// Whether the dealer takes a card at `score` on the roll `roll`: only below
/// 17, and then as the policy says.
pub open spec fn dealer_draws(score: int, roll: int) -> bool {
    score < 17 && policy_hits(score, roll)
}

/// The player after a hit with the sample `pick` on the shoe `cards`.
pub open spec fn player_after_hit(player: PlayerView, cards: Seq<Card>, pick: nat) -> PlayerView {
    if undrawn_count(cards) == 0 {
        player
    } else {
        player.with_card(picked_card(cards, pick))
    }
}

/// What a hit reports: failure exactly when the shoe is exhausted.
pub open spec fn hit_report(cards: Seq<Card>) -> Result<(), DealError> {
    if undrawn_count(cards) == 0 {
        Err(DealError::ShoeExhausted)
    } else {
        Ok(())
    }
}

/// The dealer after one decision with the samples `roll` and `pick`.
pub open spec fn dealer_after_action(
    dealer: DealerView,
    cards: Seq<Card>,
    roll: int,
    pick: nat,
) -> DealerView {
    if dealer_draws(dealer.score(), roll) && undrawn_count(cards) > 0 {
        dealer.with_card(picked_card(cards, pick))
    } else {
        dealer
    }
}

/// The shoe after one decision of the dealer with the samples `roll` and `pick`.
pub open spec fn cards_after_action(dealer: DealerView, cards: Seq<Card>, roll: int, pick: nat) -> Seq<
    Card,
> {
    if dealer_draws(dealer.score(), roll) {
        cards_after_pick(cards, pick)
    } else {
        cards
    }
}

/// What one decision of the dealer reports: whether a card was taken, or
/// failure exactly when one was due and the shoe is exhausted.
pub open spec fn action_report(dealer: DealerView, cards: Seq<Card>, roll: int) -> Result<
    bool,
    DealError,
> {
    if !dealer_draws(dealer.score(), roll) {
        Ok(false)
    } else if undrawn_count(cards) == 0 {
        Err(DealError::ShoeExhausted)
    } else {
        Ok(true)
    }
}

/// The shoe after the four cards of the initial deal were taken with the
/// samples `s0` to `s3`, in that order.
pub open spec fn cards_after_first_round(cards: Seq<Card>, s0: nat, s1: nat, s2: nat, s3: nat) -> Seq<
    Card,
> {
    cards_after_pick(cards_after_pick(cards_after_pick(cards_after_pick(cards, s0), s1), s2), s3)
}

/// The dealer after the initial deal: the first two cards dealt.
pub open spec fn dealer_after_first_round(
    dealer: DealerView,
    cards: Seq<Card>,
    s0: nat,
    s1: nat,
) -> DealerView {
    let c1 = cards_after_pick(cards, s0);
    dealer.with_card(picked_card(cards, s0)).with_card(picked_card(c1, s1))
}

/// The player after the initial deal: the third and fourth card dealt.
pub open spec fn player_after_first_round(
    player: PlayerView,
    cards: Seq<Card>,
    s0: nat,
    s1: nat,
    s2: nat,
    s3: nat,
) -> PlayerView {
    let c2 = cards_after_pick(cards_after_pick(cards, s0), s1);
    let c3 = cards_after_pick(c2, s2);
    player.with_card(picked_card(c2, s2)).with_card(picked_card(c3, s3))
}

/// The blackjack check on two hands.
pub fn check_blackjack(player: &Player, dealer: &Dealer) -> (outcome: Option<Outcome>)
    requires
        player.wf(),
        dealer.wf(),
    ensures
        outcome == blackjack_outcome(player@.score(), dealer@.score()),
{
    let p: u8 = player.score();
    let d: u8 = dealer.score();
    if p == 21 && d != 21 {
        Some(Outcome::PlayerBlackjackWin)
    } else if d == 21 && p != 21 {
        Some(Outcome::DealerBlackjackWin)
    } else if p == 21 && d == 21 {
        Some(Outcome::Push)
    } else {
        None
    }
}

/// The final comparison of two hands.
pub fn settle(player: &Player, dealer: &Dealer) -> (outcome: Outcome)
    requires
        player.wf(),
        dealer.wf(),
    ensures
        outcome == showdown(player@.score(), dealer@.score()),
{
    let p: u8 = player.score();
    let d: u8 = dealer.score();
    if d > 21 {
        Outcome::PlayerWin
    } else if p > d {
        Outcome::PlayerWin
    } else if d > p {
        Outcome::DealerWin
    } else {
        Outcome::Push
    }
}

/// The player takes the card that the sample `pick` selects. With an
/// exhausted shoe nothing changes and the failure is reported.
pub fn hit_with(player: &mut Player, deck: &mut Deck, pick: usize) -> (done: Result<(), DealError>)
    requires
        old(player).wf(),
        old(deck).wf(),
        !old(player)@.busted(),
    ensures
        final(player).wf(),
        final(deck).wf(),
        done == hit_report(old(deck)@),
        final(player)@ == player_after_hit(old(player)@, old(deck)@, pick as nat),
        final(deck)@ == cards_after_pick(old(deck)@, pick as nat),
        undrawn_count(final(deck)@) == undrawn_count(old(deck)@) - if done is Ok {
            1int
        } else {
            0int
        },
{
    match deck.deal_pick(pick) {
        Ok(card) => {
            proof {
                score_grows(player@.hand, card);
            }
            player.add_card(card);
            Ok(())
        },
        Err(e) => Err(e),
    }
}

/// The player takes a card drawn at random from the shoe: some sample below
/// the number of undrawn cards decides which.
pub fn hit(player: &mut Player, deck: &mut Deck) -> (done: Result<(), DealError>)
    requires
        old(player).wf(),
        old(deck).wf(),
        !old(player)@.busted(),
    ensures
        final(player).wf(),
        final(deck).wf(),
        done == hit_report(old(deck)@),
        exists|pick: nat|
            (undrawn_count(old(deck)@) > 0 ==> pick < undrawn_count(old(deck)@)) && final(player)@
                == #[trigger] player_after_hit(old(player)@, old(deck)@, pick) && final(deck)@
                == cards_after_pick(old(deck)@, pick),
        undrawn_count(final(deck)@) == undrawn_count(old(deck)@) - if done is Ok {
            1int
        } else {
            0int
        },
{
    let pick: usize = deck.random_pick();
    hit_with(player, deck, pick)
}

/// One decision of the dealer with the samples `roll` and `pick`: below 17
/// the policy is asked, and where it says so the dealer takes the card that
/// `pick` selects. Reports whether a card was taken.
pub fn dealer_action_with(dealer: &mut Dealer, deck: &mut Deck, roll: u8, pick: usize) -> (done:
    Result<bool, DealError>)
    requires
        old(dealer).wf(),
        old(deck).wf(),
    ensures
        final(dealer).wf(),
        final(deck).wf(),
        done == action_report(old(dealer)@, old(deck)@, roll as int),
        final(dealer)@ == dealer_after_action(old(dealer)@, old(deck)@, roll as int, pick as nat),
        final(deck)@ == cards_after_action(old(dealer)@, old(deck)@, roll as int, pick as nat),
        undrawn_count(final(deck)@) == undrawn_count(old(deck)@) - if done == Ok::<bool, DealError>(
            true,
        ) {
            1int
        } else {
            0int
        },
{
    let total: u8 = dealer.score();
    if total < 17 && dealer_hits(total, roll) {
        match deck.deal_pick(pick) {
            Ok(card) => {
                proof {
                    score_grows(dealer@.hand, card);
                }
                dealer.hit(card);
                Ok(true)
            },
            Err(e) => Err(e),
        }
    } else {
        Ok(false)
    }
}

/// One decision of the dealer on a fresh roll, with a card drawn at random
/// where one is taken. At 17 or more nothing changes.
pub fn dealer_action(dealer: &mut Dealer, deck: &mut Deck) -> (done: Result<bool, DealError>)
    requires
        old(dealer).wf(),
        old(deck).wf(),
    ensures
        final(dealer).wf(),
        final(deck).wf(),
        exists|roll: int, pick: nat|
            1 <= roll <= 100 && (undrawn_count(old(deck)@) > 0 ==> pick < undrawn_count(
                old(deck)@,
            )) && done == action_report(old(dealer)@, old(deck)@, roll) && final(dealer)@
                == #[trigger] dealer_after_action(old(dealer)@, old(deck)@, roll, pick)
                && final(deck)@ == cards_after_action(old(dealer)@, old(deck)@, roll, pick),
        old(dealer)@.score() >= 17 ==> done == Ok::<bool, DealError>(false) && final(dealer)@
            == old(dealer)@ && final(deck)@ == old(deck)@,
        old(dealer)@.score() <= 10 && undrawn_count(old(deck)@) > 0 ==> done == Ok::<
            bool,
            DealError,
        >(true) && undrawn_count(final(deck)@) == undrawn_count(old(deck)@) - 1,
{
    let roll: u8 = roll_die();
    let pick: usize = deck.random_pick();
    let done = dealer_action_with(dealer, deck, roll, pick);
    assert(final(dealer)@ == dealer_after_action(
        old(dealer)@,
        old(deck)@,
        roll as int,
        pick as nat,
    ));
    done
}

/// The initial deal with the samples `s0` to `s3`: two cards to the dealer,
/// then two to the player, then the blackjack check. With fewer than four
/// cards in the shoe nothing is dealt and the failure is reported.
pub fn play_first_round_with(
    player: &mut Player,
    dealer: &mut Dealer,
    deck: &mut Deck,
    s0: usize,
    s1: usize,
    s2: usize,
    s3: usize,
) -> (dealt: Result<Option<Outcome>, DealError>)
    requires
        old(player).wf(),
        old(dealer).wf(),
        old(deck).wf(),
        old(player)@.hand.len() == 0,
        old(dealer)@.hand.len() == 0,
    ensures
        final(player).wf(),
        final(dealer).wf(),
        final(deck).wf(),
        undrawn_count(old(deck)@) < 4 ==> dealt == Err::<Option<Outcome>, DealError>(
            DealError::ShoeExhausted,
        ) && final(player)@ == old(player)@ && final(dealer)@ == old(dealer)@ && final(deck)@
            == old(deck)@,
        undrawn_count(old(deck)@) >= 4 ==> final(deck)@ == cards_after_first_round(
            old(deck)@,
            s0 as nat,
            s1 as nat,
            s2 as nat,
            s3 as nat,
        ) && final(dealer)@ == dealer_after_first_round(
            old(dealer)@,
            old(deck)@,
            s0 as nat,
            s1 as nat,
        ) && final(player)@ == player_after_first_round(
            old(player)@,
            old(deck)@,
            s0 as nat,
            s1 as nat,
            s2 as nat,
            s3 as nat,
        ) && dealt == Ok::<Option<Outcome>, DealError>(
            blackjack_outcome(final(player)@.score(), final(dealer)@.score()),
        ) && final(player)@.score() <= 21 && final(dealer)@.score() <= 21
            && undrawn_count(final(deck)@) == undrawn_count(old(deck)@) - 4,
{
    let left: usize = deck.count_undrawn();
    if left < 4 {
        return Err(DealError::ShoeExhausted);
    }
    let a = deck.deal_nth(s0 % left);
    let b = deck.deal_nth(s1 % (left - 1));
    let c = deck.deal_nth(s2 % (left - 2));
    let d = deck.deal_nth(s3 % (left - 3));
    Ok(seat_first_round(player, dealer, a, b, c, d))
}

/// Hands out the four cards of the initial deal, the first two to the dealer
/// and the other two to the player, and makes the blackjack check.
fn seat_first_round(
    player: &mut Player,
    dealer: &mut Dealer,
    a: Card,
    b: Card,
    c: Card,
    d: Card,
) -> (outcome: Option<Outcome>)
    requires
        old(player).wf(),
        old(dealer).wf(),
        old(player)@.hand.len() == 0,
        old(dealer)@.hand.len() == 0,
    ensures
        final(player).wf(),
        final(dealer).wf(),
        final(dealer)@ == old(dealer)@.with_card(a).with_card(b),
        final(player)@ == old(player)@.with_card(c).with_card(d),
        final(player)@.score() <= 21,
        final(dealer)@.score() <= 21,
        outcome == blackjack_outcome(final(player)@.score(), final(dealer)@.score()),
{
    proof {
        two_cards_stay_under(dealer@.hand, a, b);
        two_cards_stay_under(player@.hand, c, d);
    }
    dealer.add_card(a);
    dealer.add_card(b);
    player.add_card(c);
    player.add_card(d);
    check_blackjack(player, dealer)
}

/// The initial deal with four cards drawn at random: some four samples
/// decide which. With fewer than four cards in the shoe nothing is dealt and
/// the failure is reported.
pub fn play_first_round(player: &mut Player, dealer: &mut Dealer, deck: &mut Deck) -> (dealt:
    Result<Option<Outcome>, DealError>)
    requires
        old(player).wf(),
        old(dealer).wf(),
        old(deck).wf(),
        old(player)@.hand.len() == 0,
        old(dealer)@.hand.len() == 0,
    ensures
        final(player).wf(),
        final(dealer).wf(),
        final(deck).wf(),
        undrawn_count(old(deck)@) < 4 ==> dealt == Err::<Option<Outcome>, DealError>(
            DealError::ShoeExhausted,
        ) && final(player)@ == old(player)@ && final(dealer)@ == old(dealer)@ && final(deck)@
            == old(deck)@,
        undrawn_count(old(deck)@) >= 4 ==> exists|s0: nat, s1: nat, s2: nat, s3: nat|
            final(deck)@ == #[trigger] cards_after_first_round(old(deck)@, s0, s1, s2, s3)
                && final(dealer)@ == dealer_after_first_round(old(dealer)@, old(deck)@, s0, s1)
                && final(player)@ == player_after_first_round(
                old(player)@,
                old(deck)@,
                s0,
                s1,
                s2,
                s3,
            ),
        undrawn_count(old(deck)@) >= 4 ==> dealt == Ok::<Option<Outcome>, DealError>(
            blackjack_outcome(final(player)@.score(), final(dealer)@.score()),
        ) && final(player)@.score() <= 21 && final(dealer)@.score() <= 21 && undrawn_count(
            final(deck)@,
        ) == undrawn_count(old(deck)@) - 4,
{
    let left: usize = deck.count_undrawn();
    if left < 4 {
        return Err(DealError::ShoeExhausted);
    }
    let ghost c0 = deck@;
    let s0: usize = deck.random_pick();
    let a = deck.deal_nth(s0);
    let ghost c1 = deck@;
    let s1: usize = deck.random_pick();
    let b = deck.deal_nth(s1);
    let ghost c2 = deck@;
    let s2: usize = deck.random_pick();
    let c = deck.deal_nth(s2);
    let ghost c3 = deck@;
    let s3: usize = deck.random_pick();
    let d = deck.deal_nth(s3);
    proof {
        lemma_small_mod(s0 as nat, undrawn_count(c0));
        lemma_small_mod(s1 as nat, undrawn_count(c1));
        lemma_small_mod(s2 as nat, undrawn_count(c2));
        lemma_small_mod(s3 as nat, undrawn_count(c3));
        assert(deck@ == cards_after_first_round(c0, s0 as nat, s1 as nat, s2 as nat, s3 as nat));
    }
    Ok(seat_first_round(player, dealer, a, b, c, d))
}

/// Two cards on an empty hand score at most 21.
pub proof fn two_cards_stay_under(hand: Seq<Card>, a: Card, b: Card)
    requires
        hand.len() == 0,
    ensures
        crate::score::hand_score(hand.push(a)) <= 11,
        crate::score::hand_score(hand.push(a).push(b)) <= 21,
{
    score_grows(hand, a);
    score_grows(hand.push(a), b);
}

} // verus!
