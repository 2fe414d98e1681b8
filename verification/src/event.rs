//! What a round reports to its caller: cards dealt, scores, busts and the
//! outcome, as plain values for the caller to render.

use vstd::prelude::*;
use crate::card::Card;
use crate::game::{Round, RoundView};
use crate::round::{Outcome, Phase};
use crate::score::{count_card, hand_score, prefix_scores_less};

verus! {

/// Who an event is about.
#[derive(Clone, Copy, Debug, PartialEq, Eq, Structural)]
pub enum Seat {
    Player,
    Dealer,
}

/// One thing that happened in a round.
#[derive(Clone, Copy, Debug, PartialEq, Eq, Structural)]
pub enum Event {
    /// A card went to a hand; `is_first_card` marks the first card of that hand.
    CardDealt { seat: Seat, card: Card, is_first_card: bool },
    /// The hand's score after the card just dealt.
    ScoreUpdated { seat: Seat, score: u8 },
    /// The hand went over 21.
    Busted { seat: Seat },
    /// The round is over.
    RoundResolved { outcome: Outcome, player_score: u8, dealer_score: u8 },
}

/// The events of the card at position `at` of a hand: the card, the score
/// with it, and the bust if that score is over 21.
pub open spec fn events_of_card(seat: Seat, hand: Seq<Card>, at: int) -> Seq<Event> {
    let total = hand_score(hand.take(at + 1));
    let dealt = seq![
        Event::CardDealt { seat: seat, card: hand[at], is_first_card: at == 0 },
        Event::ScoreUpdated { seat: seat, score: total as u8 },
    ];
    if total > 21 {
        dealt.push(Event::Busted { seat: seat })
    } else {
        dealt
    }
}

/// The events of the cards of a hand from position `from` on, in hand order.
pub open spec fn card_events(seat: Seat, hand: Seq<Card>, from: int) -> Seq<Event>
    decreases hand.len() - from,
{
    if from < 0 || from >= hand.len() {
        Seq::empty()
    } else {
        events_of_card(seat, hand, from) + card_events(seat, hand, from + 1)
    }
}

/// The closing event of a round that is resolved; nothing for one that is not.
pub open spec fn closing_events(round: RoundView) -> Seq<Event> {
    match round.phase {
        Phase::Resolved(outcome) => seq![
            Event::RoundResolved {
                outcome: outcome,
                player_score: round.player.score() as u8,
                dealer_score: round.dealer.score() as u8,
            },
        ],
        _ => Seq::empty(),
    }
}

/// What happened in a round since the player held `player_cards` cards and
/// the dealer `dealer_cards`: the dealer's new cards, the player's new cards,
/// and the outcome if the round is now resolved.
pub open spec fn events_since(round: RoundView, player_cards: int, dealer_cards: int) -> Seq<Event> {
    card_events(Seat::Dealer, round.dealer.hand, dealer_cards) + card_events(
        Seat::Player,
        round.player.hand,
        player_cards,
    ) + closing_events(round)
}

/// Appends to `events` the events of the cards of `hand` from position `from` on.
pub fn push_card_events(events: &mut Vec<Event>, seat: Seat, hand: &Vec<Card>, from: usize)
    requires
        hand_score(hand@) <= u8::MAX,
    ensures
        final(events)@ == old(events)@ + card_events(seat, hand@, from as int),
{
    let mut total: u8 = 0;
    let mut i: usize = 0;
    while i < hand.len()
        invariant
            i <= hand.len(),
            total == hand_score(hand@.take(i as int)),
            hand_score(hand@) <= u8::MAX,
            events@ + card_events(seat, hand@, if i < from {
                from as int
            } else {
                i as int
            }) == old(events)@ + card_events(seat, hand@, from as int),
        decreases hand.len() - i,
    {
        let value: u8 = hand[i].value();
        proof {
            prefix_scores_less(hand@, i + 1);
            assert(hand@.take(i + 1).drop_last() =~= hand@.take(i as int));
        }
        total = count_card(total, value);
        if i >= from {
            let ghost before = events@;
            events.push(Event::CardDealt { seat: seat, card: hand[i], is_first_card: i == 0 });
            events.push(Event::ScoreUpdated { seat: seat, score: total });
            if total > 21 {
                events.push(Event::Busted { seat: seat });
            }
            proof {
                assert(events@ =~= before + events_of_card(seat, hand@, i as int));
                assert(events@ + card_events(seat, hand@, i + 1) =~= before + card_events(
                    seat,
                    hand@,
                    i as int,
                ));
            }
        }
        i += 1;
    }
    proof {
        assert(events@ + card_events(seat, hand@, if i < from {
            from as int
        } else {
            i as int
        }) =~= events@);
    }
}

impl Round {
    /// What happened since the player held `player_cards` cards and the
    /// dealer `dealer_cards`.
    pub fn events_since(&self, player_cards: usize, dealer_cards: usize) -> (events: Vec<Event>)
        requires
            self.wf(),
        ensures
            events@ == events_since(self@, player_cards as int, dealer_cards as int),
    {
        let player_score: u8 = self.player().score();
        let dealer_score: u8 = self.dealer().score();
        let mut events: Vec<Event> = Vec::new();
        push_card_events(&mut events, Seat::Dealer, self.dealer().hand(), dealer_cards);
        push_card_events(&mut events, Seat::Player, self.player().hand(), player_cards);
        match self.phase() {
            Phase::Resolved(outcome) => {
                events.push(
                    Event::RoundResolved {
                        outcome: outcome,
                        player_score: player_score,
                        dealer_score: dealer_score,
                    },
                );
            },
            _ => {},
        }
        proof {
            assert(events@ =~= events_since(self@, player_cards as int, dealer_cards as int));
        }
        events
    }
}

} // verus!
