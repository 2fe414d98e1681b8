//! The shoe: all 52 cards, each either still in the shoe or drawn, dealt
//! without replacement.

use vstd::prelude::*;
use crate::card::{Card, card_at, fresh_cards, generate_cards};
use crate::chance::random_in;

verus! {

/// Why a card could not be dealt.
#[derive(Clone, Copy, Debug, PartialEq, Eq, Structural)]
pub enum DealError {
    /// Every card of the shoe has been drawn.
    ShoeExhausted,
}

/// How many of `cards` are not drawn.
pub open spec fn undrawn_count(cards: Seq<Card>) -> nat
    decreases cards.len(),
{
    if cards.len() == 0 {
        0
    } else {
        undrawn_count(cards.drop_last()) + if cards.last().drawn {
            0nat
        } else {
            1nat
        }
    }
}

/// Whether slot `slot` holds the undrawn card that has exactly `n` undrawn
/// cards before it.
pub open spec fn is_nth_undrawn(cards: Seq<Card>, n: nat, slot: int) -> bool {
    &&& 0 <= slot < cards.len()
    &&& !cards[slot].drawn
    &&& undrawn_count(cards.take(slot)) == n
}

/// The slot of the undrawn card that has exactly `n` undrawn cards before it
/// (0 where there are not that many).
pub open spec fn nth_undrawn(cards: Seq<Card>, n: nat) -> int
    decreases cards.len(),
{
    if cards.len() == 0 {
        0
    } else if !cards.last().drawn && undrawn_count(cards.drop_last()) == n {
        cards.len() - 1
    } else {
        nth_undrawn(cards.drop_last(), n)
    }
}

/// The shoe after the undrawn card number `n` was dealt: that slot is marked
/// drawn, every other slot is as before.
pub open spec fn cards_after_deal(cards: Seq<Card>, n: nat) -> Seq<Card> {
    let slot = nth_undrawn(cards, n);
    cards.update(slot, cards[slot].marked())
}

/// The card handed out when the undrawn card number `n` is dealt: the card of
/// that slot, marked drawn.
pub open spec fn card_dealt(cards: Seq<Card>, n: nat) -> Card {
    cards[nth_undrawn(cards, n)].marked()
}

/// The card that the sample `pick` selects in a shoe with `k > 0` undrawn
/// cards: the undrawn card number `pick % k`, marked drawn.
pub open spec fn picked_card(cards: Seq<Card>, pick: nat) -> Card {
    card_dealt(cards, pick % undrawn_count(cards))
}

/// What a deal with the sample `pick` hands out: nothing from an exhausted
/// shoe, else the card that `picked_card` names.
pub open spec fn picked(cards: Seq<Card>, pick: nat) -> Result<Card, DealError> {
    if undrawn_count(cards) == 0 {
        Err(DealError::ShoeExhausted)
    } else {
        Ok(picked_card(cards, pick))
    }
}

/// The shoe after a deal with the sample `pick`: unchanged if it was
/// exhausted, else without the card that `picked` names.
pub open spec fn cards_after_pick(cards: Seq<Card>, pick: nat) -> Seq<Card> {
    if undrawn_count(cards) == 0 {
        cards
    } else {
        cards_after_deal(cards, pick % undrawn_count(cards))
    }
}

/// A prefix holds no more undrawn cards than the whole.
pub proof fn undrawn_count_of_prefix(cards: Seq<Card>, n: int)
    requires
        0 <= n <= cards.len(),
    ensures
        undrawn_count(cards.take(n)) <= undrawn_count(cards) <= cards.len(),
    decreases cards.len(),
{
    if cards.len() == 0 {
        assert(cards.take(n) =~= cards);
    } else if n == cards.len() {
        assert(cards.take(n) =~= cards);
        undrawn_count_of_prefix(cards.drop_last(), n - 1);
    } else {
        undrawn_count_of_prefix(cards.drop_last(), n);
        assert(cards.drop_last().take(n) =~= cards.take(n));
    }
}

/// The slot that `is_nth_undrawn` describes is the one `nth_undrawn` names.
pub proof fn nth_undrawn_is_unique(cards: Seq<Card>, n: nat, slot: int)
    requires
        is_nth_undrawn(cards, n, slot),
    ensures
        nth_undrawn(cards, n) == slot,
    decreases cards.len(),
{
    let rest = cards.drop_last();
    if slot == cards.len() - 1 {
        assert(cards.take(slot) =~= rest);
    } else {
        undrawn_count_of_prefix(rest, slot + 1);
        assert(rest.take(slot + 1).drop_last() =~= cards.take(slot));
        assert(rest.take(slot + 1).last() == cards[slot]);
        assert(rest.take(slot) =~= cards.take(slot));
        nth_undrawn_is_unique(rest, n, slot);
    }
}

/// For every `n` below the number of undrawn cards there is an undrawn card
/// with exactly `n` undrawn cards before it.
pub proof fn nth_undrawn_exists(cards: Seq<Card>, n: nat)
    requires
        n < undrawn_count(cards),
    ensures
        is_nth_undrawn(cards, n, nth_undrawn(cards, n)),
    decreases cards.len(),
{
    let rest = cards.drop_last();
    if !cards.last().drawn && undrawn_count(rest) == n {
        assert(cards.take(cards.len() - 1) =~= rest);
    } else {
        nth_undrawn_exists(rest, n);
        assert(rest.take(nth_undrawn(rest, n)) =~= cards.take(nth_undrawn(rest, n)));
    }
}

/// Marking one undrawn card as drawn leaves exactly one undrawn card fewer.
pub proof fn marking_removes_one(cards: Seq<Card>, slot: int)
    requires
        0 <= slot < cards.len(),
        !cards[slot].drawn,
    ensures
        undrawn_count(cards.update(slot, cards[slot].marked())) + 1 == undrawn_count(cards),
    decreases cards.len(),
{
    let after = cards.update(slot, cards[slot].marked());
    if slot == cards.len() - 1 {
        assert(after.drop_last() =~= cards.drop_last());
    } else {
        marking_removes_one(cards.drop_last(), slot);
        assert(after.drop_last() =~= cards.drop_last().update(slot, cards[slot].marked()));
    }
}

/// A draw from a shoe with `k` undrawn cards takes a card that was undrawn
/// and leaves exactly `k - 1` undrawn, whichever of the `k` is chosen.
pub proof fn deal_takes_one_undrawn(cards: Seq<Card>, n: nat)
    requires
        n < undrawn_count(cards),
    ensures
        0 <= nth_undrawn(cards, n) < cards.len(),
        !cards[nth_undrawn(cards, n)].drawn,
        undrawn_count(cards_after_deal(cards, n)) == undrawn_count(cards) - 1,
        cards_after_deal(cards, n).len() == cards.len(),
{
    nth_undrawn_exists(cards, n);
    marking_removes_one(cards, nth_undrawn(cards, n));
}

/// The shoe.
pub struct Deck {
    cards: Vec<Card>,
}

impl View for Deck {
    type V = Seq<Card>;

    /// The 52 slots, in order.
    closed spec fn view(&self) -> Seq<Card> {
        self.cards@
    }
}

impl Deck {
    /// A shoe holds 52 slots, and slot `i` holds for ever the card that a
    /// fresh shoe has there; only its `drawn` flag changes.
    pub open spec fn wf(&self) -> bool {
        &&& self@.len() == 52
        &&& forall|i: int|
            0 <= i < 52 ==> self@[i].rank == card_at(i).rank && self@[i].suit == card_at(i).suit
    }

    /// A fresh shoe: all 52 cards, none drawn.
    pub fn new() -> (deck: Deck)
        ensures
            deck.wf(),
            deck@ == fresh_cards(),
            undrawn_count(deck@) == 52,
    {
        let deck = Deck { cards: generate_cards() };
        proof {
            assert forall|i: int| 0 <= i < 52 implies !deck@[i].drawn by {
                assert(deck@[i] == card_at(i));
            }
            all_undrawn(deck@, 52);
            assert(deck@.take(52) =~= deck@);
        }
        deck
    }

    /// The 52 slots of the shoe.
    pub fn cards(&self) -> (cards: &Vec<Card>)
        ensures
            cards@ == self@,
    {
        &self.cards
    }

    /// How many cards are still in the shoe.
    pub fn count_undrawn(&self) -> (count: usize)
        ensures
            count == undrawn_count(self@),
            count <= self@.len(),
    {
        let mut count: usize = 0;
        let mut i: usize = 0;
        while i < self.cards.len()
            invariant
                i <= self.cards@.len(),
                count == undrawn_count(self.cards@.take(i as int)),
                count <= i,
            decreases self.cards@.len() - i,
        {
            proof {
                assert(self.cards@.take(i + 1).drop_last() =~= self.cards@.take(i as int));
            }
            if !self.cards[i].drawn {
                count += 1;
            }
            i += 1;
        }
        proof {
            assert(self.cards@.take(i as int) =~= self.cards@);
        }
        count
    }

    /// Deals the undrawn card that has exactly `n` undrawn cards before it:
    /// marks its slot drawn and returns a copy, marked drawn too.
    pub fn deal_nth(&mut self, n: usize) -> (card: Card)
        requires
            old(self).wf(),
            n < undrawn_count(old(self)@),
        ensures
            final(self).wf(),
            final(self)@ == cards_after_deal(old(self)@, n as nat),
            card == card_dealt(old(self)@, n as nat),
            !old(self)@[nth_undrawn(old(self)@, n as nat)].drawn,
            undrawn_count(final(self)@) == undrawn_count(old(self)@) - 1,
    {
        let mut i: usize = 0;
        let mut seen: usize = 0;
        while i < self.cards.len() && (self.cards[i].drawn || seen != n)
            invariant
                self.cards@.len() == 52,
                i <= 52,
                seen == undrawn_count(self.cards@.take(i as int)),
                seen <= n,
                n < undrawn_count(self.cards@),
            decreases 52 - i,
        {
            proof {
                assert(self.cards@.take(i + 1).drop_last() =~= self.cards@.take(i as int));
            }
            if !self.cards[i].drawn {
                seen += 1;
            }
            i += 1;
        }
        proof {
            assert(self.cards@.take(52) =~= self.cards@);
            nth_undrawn_is_unique(self.cards@, n as nat, i as int);
            marking_removes_one(self.cards@, i as int);
        }
        let card = Card { rank: self.cards[i].rank, suit: self.cards[i].suit, drawn: true };
        self.cards.set(i, card);
        card
    }

    /// Deals the card that the sample `pick` selects: the undrawn card number
    /// `pick % k` of the `k` undrawn ones. Fails, and leaves the shoe as it
    /// was, exactly when no card is left.
    pub fn deal_pick(&mut self, pick: usize) -> (dealt: Result<Card, DealError>)
        requires
            old(self).wf(),
        ensures
            final(self).wf(),
            dealt == picked(old(self)@, pick as nat),
            final(self)@ == cards_after_pick(old(self)@, pick as nat),
            undrawn_count(old(self)@) > 0 ==> undrawn_count(final(self)@) == undrawn_count(
                old(self)@,
            ) - 1,
    {
        let left: usize = self.count_undrawn();
        if left == 0 {
            return Err(DealError::ShoeExhausted);
        }
        let card = self.deal_nth(pick % left);
        Ok(card)
    }

    /// A sample for `deal_pick`, drawn at random: below the number of undrawn
    /// cards whenever there is one, and 0, with nothing drawn at random, for
    /// an exhausted shoe.
    pub fn random_pick(&self) -> (pick: usize)
        ensures
            undrawn_count(self@) > 0 ==> pick < undrawn_count(self@),
            undrawn_count(self@) == 0 ==> pick == 0,
    {
        let left: usize = self.count_undrawn();
        if left == 0 {
            0
        } else {
            random_in(0, left)
        }
    }

    /// Deals one card chosen at random among the undrawn ones, each equally
    /// likely. Fails, and leaves the shoe as it was, exactly when no card is
    /// left.
    pub fn deal_card(&mut self) -> (dealt: Result<Card, DealError>)
        requires
            old(self).wf(),
        ensures
            final(self).wf(),
            undrawn_count(old(self)@) == 0 ==> dealt == Err::<Card, DealError>(
                DealError::ShoeExhausted,
            ) && final(self)@ == old(self)@,
            exists|n: nat|
                (undrawn_count(old(self)@) > 0 ==> n < undrawn_count(old(self)@)) && dealt
                    == #[trigger] picked(old(self)@, n) && final(self)@ == cards_after_pick(
                    old(self)@,
                    n,
                ),
            undrawn_count(old(self)@) > 0 ==> undrawn_count(final(self)@) == undrawn_count(
                old(self)@,
            ) - 1,
    {
        let pick: usize = self.random_pick();
        self.deal_pick(pick)
    }
}

/// A sequence of which the first `n` cards are all undrawn has `n` undrawn
/// cards among them.
pub proof fn all_undrawn(cards: Seq<Card>, n: int)
    requires
        0 <= n <= cards.len(),
        forall|i: int| 0 <= i < n ==> !cards[i].drawn,
    ensures
        undrawn_count(cards.take(n)) == n,
    decreases n,
{
    if n > 0 {
        all_undrawn(cards, n - 1);
        assert(cards.take(n).drop_last() =~= cards.take(n - 1));
    }
}

} // verus!
