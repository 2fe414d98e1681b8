//! The two participants of a round. Each holds a hand; score and bust flag
//! are always those of the hand, and a player who busts forfeits the stake.

use vstd::prelude::*;
use crate::card::Card;
use crate::score::{hand_score, score};

verus! {

/// What a player is, to a contract: the hand in the order dealt, and the stake.
pub struct PlayerView {
    pub hand: Seq<Card>,
    pub bet: u32,
}

/// What a dealer is, to a contract: the hand in the order dealt, and whether
/// the dealer was declared the winner.
pub struct DealerView {
    pub hand: Seq<Card>,
    pub won: bool,
}

impl PlayerView {
    /// The score of the hand.
    pub open spec fn score(self) -> int {
        hand_score(self.hand)
    }

    /// Whether the hand is over 21.
    pub open spec fn busted(self) -> bool {
        self.score() > 21
    }

    /// The player after receiving `card`: the card is appended, and the
    /// stake is forfeited if the hand is now over 21.
    pub open spec fn with_card(self, card: Card) -> PlayerView {
        PlayerView {
            hand: self.hand.push(card),
            bet: if hand_score(self.hand.push(card)) > 21 {
                0
            } else {
                self.bet
            },
        }
    }
}

impl DealerView {
    /// The score of the hand.
    pub open spec fn score(self) -> int {
        hand_score(self.hand)
    }

    /// Whether the hand is over 21.
    pub open spec fn busted(self) -> bool {
        self.score() > 21
    }

    /// The dealer after receiving `card`.
    pub open spec fn with_card(self, card: Card) -> DealerView {
        DealerView { hand: self.hand.push(card), won: self.won }
    }
}

/// The player.
#[derive(Debug)]
pub struct Player {
    bet: u32,
    score: u8,
    busted: bool,
    hand: Vec<Card>,
}

/// The dealer.
#[derive(Debug)]
pub struct Dealer {
    score: u8,
    busted: bool,
    won: bool,
    hand: Vec<Card>,
}

impl View for Player {
    type V = PlayerView;

    closed spec fn view(&self) -> PlayerView {
        PlayerView { hand: self.hand@, bet: self.bet }
    }
}

impl View for Dealer {
    type V = DealerView;

    closed spec fn view(&self) -> DealerView {
        DealerView { hand: self.hand@, won: self.won }
    }
}

impl Player {
    /// The stored score and bust flag are those of the hand.
    pub closed spec fn wf(&self) -> bool {
        &&& self.score == hand_score(self.hand@)
        &&& self.busted == (self.score > 21)
    }

    /// Appends `card` to the hand and brings score and bust flag up to date;
    /// a player who is now over 21 loses the stake.
    pub fn add_card(&mut self, card: Card)
        requires
            old(self).wf(),
            hand_score(old(self)@.hand.push(card)) <= u8::MAX,
        ensures
            final(self).wf(),
            final(self)@ == old(self)@.with_card(card),
    {
        self.hand.push(card);
        self.score = self.calc_score();
        self.busted = self.score > 21;
        if self.busted {
            self.bet = 0;
        }
    }

    /// The score of the hand, computed from its cards.
    pub fn calc_score(&self) -> (total: u8)
        requires
            hand_score(self@.hand) <= u8::MAX,
        ensures
            total == self@.score(),
    {
        score(&self.hand)
    }

    /// Whether the player is over 21.
    pub fn check_busted(&self) -> (busted: bool)
        requires
            self.wf(),
        ensures
            busted == self@.busted(),
    {
        self.score > 21
    }

    /// The score as of the last card received.
    pub fn score(&self) -> (total: u8)
        requires
            self.wf(),
        ensures
            total == self@.score(),
    {
        self.score
    }

    /// The stake: what was bet, or 0 once the player has busted.
    pub fn bet(&self) -> (bet: u32)
        ensures
            bet == self@.bet,
    {
        self.bet
    }

    /// The cards of the hand, in the order dealt.
    pub fn hand(&self) -> (hand: &Vec<Card>)
        ensures
            hand@ == self@.hand,
    {
        &self.hand
    }
}

impl Dealer {
    /// The stored score and bust flag are those of the hand.
    pub closed spec fn wf(&self) -> bool {
        &&& self.score == hand_score(self.hand@)
        &&& self.busted == (self.score > 21)
    }

    /// Appends `card` to the hand and brings score and bust flag up to date.
    pub fn add_card(&mut self, card: Card)
        requires
            old(self).wf(),
            hand_score(old(self)@.hand.push(card)) <= u8::MAX,
        ensures
            final(self).wf(),
            final(self)@ == old(self)@.with_card(card),
    {
        self.hand.push(card);
        self.score = self.calc_score();
        self.busted = self.score > 21;
    }

    /// The dealer takes `card`.
    pub fn hit(&mut self, card: Card)
        requires
            old(self).wf(),
            hand_score(old(self)@.hand.push(card)) <= u8::MAX,
        ensures
            final(self).wf(),
            final(self)@ == old(self)@.with_card(card),
    {
        self.add_card(card);
    }

    /// The card received last, if any.
    pub fn get_last_card(&self) -> (last: Option<&Card>)
        ensures
            self@.hand.len() == 0 ==> last.is_none(),
            self@.hand.len() > 0 ==> last == Some(&self@.hand.last()),
    {
        let n: usize = self.hand.len();
        if n == 0 {
            None
        } else {
            Some(&self.hand[n - 1])
        }
    }

    /// The score of the hand, computed from its cards.
    pub fn calc_score(&self) -> (total: u8)
        requires
            hand_score(self@.hand) <= u8::MAX,
        ensures
            total == self@.score(),
    {
        score(&self.hand)
    }

    /// Whether the dealer is over 21.
    pub fn check_busted(&self) -> (busted: bool)
        requires
            self.wf(),
        ensures
            busted == self@.busted(),
    {
        self.score > 21
    }

    /// The score as of the last card received.
    pub fn score(&self) -> (total: u8)
        requires
            self.wf(),
        ensures
            total == self@.score(),
    {
        self.score
    }

    /// Whether the dealer was declared the winner of the round.
    pub fn has_won(&self) -> (won: bool)
        ensures
            won == self@.won,
    {
        self.won
    }

    /// Records whether the dealer won the round.
    pub fn set_won(&mut self, won: bool)
        requires
            old(self).wf(),
        ensures
            final(self).wf(),
            final(self)@ == (DealerView { hand: old(self)@.hand, won: won }),
    {
        self.won = won;
    }

    /// The cards of the hand, in the order dealt.
    pub fn hand(&self) -> (hand: &Vec<Card>)
        ensures
            hand@ == self@.hand,
    {
        &self.hand
    }
}

/// A player with the stake `bet` and no cards.
pub fn generate_player(bet: u32) -> (player: Player)
    ensures
        player.wf(),
        player@ == (PlayerView { hand: Seq::empty(), bet: bet }),
{
    Player { bet: bet, score: 0, busted: false, hand: Vec::new() }
}

/// A dealer with no cards, not yet a winner.
pub fn generate_dealer() -> (dealer: Dealer)
    ensures
        dealer.wf(),
        dealer@ == (DealerView { hand: Seq::empty(), won: false }),
{
    Dealer { score: 0, busted: false, won: false, hand: Vec::new() }
}

} // verus!
