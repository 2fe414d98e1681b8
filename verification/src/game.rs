//! The round as a state machine: dealing, the player's turn, the dealer's
//! turn, and the resolved round.

use vstd::prelude::*;
use crate::card::{Card, fresh_cards};
use crate::deck::{Deck, DealError, cards_after_pick, undrawn_count};
use crate::participant::{Dealer, DealerView, Player, PlayerView, generate_dealer, generate_player};
use crate::round::{
    Decision,
    Outcome,
    Phase,
    action_report,
    blackjack_outcome,
    cards_after_action,
    cards_after_first_round,
    dealer_action_with,
    dealer_after_action,
    dealer_after_first_round,
    dealer_wins,
    hit_report,
    hit_with,
    play_first_round,
    play_first_round_with,
    player_after_first_round,
    player_after_hit,
    settle,
    showdown,
};
use crate::policy::roll_die;

verus! {

/// What a round is, to a contract: the two participants, the shoe and the phase.
pub struct RoundView {
    pub player: PlayerView,
    pub dealer: DealerView,
    pub deck: Seq<Card>,
    pub phase: Phase,
}

impl RoundView {
    /// Every card is either in the shoe or in a hand.
    pub open spec fn holds_all_cards(self) -> bool {
        undrawn_count(self.deck) + self.player.hand.len() + self.dealer.hand.len() == 52
    }

    /// What holds of a round in each phase: every card is either in the shoe
    /// or in a hand, before the deal both hands are empty, and while either
    /// side is still to play neither has busted.
    pub open spec fn inv(self) -> bool {
        &&& self.holds_all_cards()
        &&& self.phase == Phase::Dealing ==> self.player.hand.len() == 0 && self.dealer.hand.len()
            == 0
        &&& self.phase == Phase::PlayerTurn || self.phase == Phase::DealerTurn
            ==> self.player.score() <= 21 && self.dealer.score() <= 21
    }

    /// The round in another phase, all else equal.
    pub open spec fn in_phase(self, phase: Phase) -> RoundView {
        RoundView { player: self.player, dealer: self.dealer, deck: self.deck, phase: phase }
    }

    /// The round resolved with `outcome`; the dealer is marked as the winner
    /// exactly when the outcome is a win for the dealer.
    pub open spec fn resolved(self, outcome: Outcome) -> RoundView {
        RoundView {
            player: self.player,
            dealer: DealerView { hand: self.dealer.hand, won: dealer_wins(outcome) },
            deck: self.deck,
            phase: Phase::Resolved(outcome),
        }
    }

    /// The round after the initial deal with the samples `s0` to `s3`. With
    /// fewer than four cards in the shoe nothing changes. Otherwise two cards
    /// go to the dealer and two to the player, and the round is resolved at
    /// once if either holds 21, else it is the player's turn.
    pub open spec fn after_deal(self, s0: nat, s1: nat, s2: nat, s3: nat) -> RoundView {
        if undrawn_count(self.deck) < 4 {
            self
        } else {
            let dealt = RoundView {
                player: player_after_first_round(self.player, self.deck, s0, s1, s2, s3),
                dealer: dealer_after_first_round(self.dealer, self.deck, s0, s1),
                deck: cards_after_first_round(self.deck, s0, s1, s2, s3),
                phase: Phase::PlayerTurn,
            };
            match blackjack_outcome(dealt.player.score(), dealt.dealer.score()) {
                Some(outcome) => dealt.resolved(outcome),
                None => dealt,
            }
        }
    }

    /// What the initial deal reports: failure exactly when fewer than four
    /// cards are left.
    pub open spec fn deal_report(self) -> Result<(), DealError> {
        if undrawn_count(self.deck) < 4 {
            Err(DealError::ShoeExhausted)
        } else {
            Ok(())
        }
    }

    /// The round after the player's decision, with the sample `pick` for the
    /// card of a hit. Quitting aborts the round, standing hands the turn to
    /// the dealer. A hit gives the player one card: if the player is then
    /// over 21 the dealer has won, else it is the player's turn again. A hit
    /// on an exhausted shoe changes nothing.
    pub open spec fn after_player_move(self, decision: Decision, pick: nat) -> RoundView {
        match decision {
            Decision::Quit => self.in_phase(Phase::Aborted),
            Decision::Stand => self.in_phase(Phase::DealerTurn),
            Decision::Hit => {
                let drawn = RoundView {
                    player: player_after_hit(self.player, self.deck, pick),
                    dealer: self.dealer,
                    deck: cards_after_pick(self.deck, pick),
                    phase: self.phase,
                };
                if drawn.player.busted() {
                    drawn.resolved(Outcome::DealerWin)
                } else {
                    drawn
                }
            },
        }
    }

    /// What the player's move reports: failure exactly for a hit on an
    /// exhausted shoe.
    pub open spec fn player_move_report(self, decision: Decision) -> Result<(), DealError> {
        if decision == Decision::Hit {
            hit_report(self.deck)
        } else {
            Ok(())
        }
    }

    /// The round after one step of the dealer's turn with the samples `roll`
    /// and `pick`. Below 17 the dealer asks the policy and may take a card.
    /// Once the dealer stands at 17 or more, or is over 21, the round is
    /// resolved by the comparison of the scores; else the dealer's turn goes
    /// on. Where a card is due and the shoe is exhausted nothing changes.
    pub open spec fn after_dealer_move(self, roll: int, pick: nat) -> RoundView {
        if action_report(self.dealer, self.deck, roll) is Err {
            self
        } else {
            let moved = RoundView {
                player: self.player,
                dealer: dealer_after_action(self.dealer, self.deck, roll, pick),
                deck: cards_after_action(self.dealer, self.deck, roll, pick),
                phase: self.phase,
            };
            if moved.dealer.score() >= 17 {
                moved.resolved(showdown(moved.player.score(), moved.dealer.score()))
            } else {
                moved
            }
        }
    }

    /// What a step of the dealer's turn reports: failure exactly when a card
    /// is due and the shoe is exhausted.
    pub open spec fn dealer_move_report(self, roll: int) -> Result<(), DealError> {
        if action_report(self.dealer, self.deck, roll) is Err {
            Err(DealError::ShoeExhausted)
        } else {
            Ok(())
        }
    }

    /// The round after the dealer's turn was played with the samples of
    /// `samples`, one pair of roll and pick for each step, until the round is
    /// resolved, a card is due from an exhausted shoe, or the samples run out.
    pub open spec fn after_dealer_turn(self, samples: Seq<(u8, usize)>) -> RoundView
        decreases samples.len(),
    {
        if samples.len() == 0 || self.phase != Phase::DealerTurn || self.dealer_move_report(
            samples[0].0 as int,
        ) is Err {
            self
        } else {
            self.after_dealer_move(samples[0].0 as int, samples[0].1 as nat).after_dealer_turn(
                samples.skip(1),
            )
        }
    }

    /// What the dealer's turn with the samples of `samples` reports: failure
    /// exactly when some step of it finds a card due and the shoe exhausted.
    pub open spec fn dealer_turn_report(self, samples: Seq<(u8, usize)>) -> Result<(), DealError>
        decreases samples.len(),
    {
        if samples.len() == 0 || self.phase != Phase::DealerTurn {
            Ok(())
        } else if self.dealer_move_report(samples[0].0 as int) is Err {
            Err(DealError::ShoeExhausted)
        } else {
            self.after_dealer_move(samples[0].0 as int, samples[0].1 as nat).dealer_turn_report(
                samples.skip(1),
            )
        }
    }
}

/// The player's turn goes on exactly while the player hits without busting:
/// a stand hands over to the dealer, a quit aborts, and a hit that busts
/// ends the round as the dealer's win, with the stake lost and the dealer's
/// hand untouched.
pub proof fn player_move_phases(round: RoundView, decision: Decision, pick: nat)
    requires
        round.inv(),
        round.phase == Phase::PlayerTurn,
    ensures
        ({
            let after = round.after_player_move(decision, pick);
            match after.phase {
                Phase::PlayerTurn => decision == Decision::Hit && !after.player.busted(),
                Phase::DealerTurn => decision == Decision::Stand && after == round.in_phase(
                    Phase::DealerTurn,
                ),
                Phase::Aborted => decision == Decision::Quit,
                Phase::Resolved(outcome) => decision == Decision::Hit && outcome
                    == Outcome::DealerWin && after.player.busted() && after.player.bet == 0
                    && after.dealer.hand == round.dealer.hand,
                Phase::Dealing => false,
            }
        }),
{
}

/// The dealer's turn goes on only while the dealer is below 17, and ends
/// with the comparison of the two scores as they then stand.
pub proof fn dealer_move_phases(round: RoundView, roll: int, pick: nat)
    requires
        round.phase == Phase::DealerTurn,
    ensures
        ({
            let after = round.after_dealer_move(roll, pick);
            match after.phase {
                Phase::DealerTurn => after.dealer.score() < 17,
                Phase::Resolved(outcome) => after.dealer.score() >= 17 && outcome == showdown(
                    round.player.score(),
                    after.dealer.score(),
                ) && after.player == round.player,
                _ => false,
            }
        }),
{
}

/// One round of blackjack.
pub struct Round {
    player: Player,
    dealer: Dealer,
    deck: Deck,
    phase: Phase,
}

impl View for Round {
    type V = RoundView;

    closed spec fn view(&self) -> RoundView {
        RoundView {
            player: self.player@,
            dealer: self.dealer@,
            deck: self.deck@,
            phase: self.phase,
        }
    }
}

impl Round {
    /// The participants and the shoe are each well formed.
    pub closed spec fn parts_wf(&self) -> bool {
        &&& self.player.wf()
        &&& self.dealer.wf()
        &&& self.deck.wf()
    }

    /// A round is well formed when its parts are and its phase fits the hands.
    pub open spec fn wf(&self) -> bool {
        &&& self.parts_wf()
        &&& self@.inv()
    }

    /// A new round: a player with the stake `bet`, a dealer, a fresh shoe,
    /// and no card dealt yet.
    pub fn new(bet: u32) -> (round: Round)
        ensures
            round.wf(),
            round@.phase == Phase::Dealing,
            round@.player == (PlayerView { hand: Seq::empty(), bet: bet }),
            round@.dealer == (DealerView { hand: Seq::empty(), won: false }),
            round@.deck == fresh_cards(),
            undrawn_count(round@.deck) == 52,
    {
        Round {
            player: generate_player(bet),
            dealer: generate_dealer(),
            deck: Deck::new(),
            phase: Phase::Dealing,
        }
    }

    /// The phase of the round.
    pub fn phase(&self) -> (phase: Phase)
        ensures
            phase == self@.phase,
    {
        self.phase
    }

    /// The player.
    pub fn player(&self) -> (player: &Player)
        ensures
            player@ == self@.player,
            self.parts_wf() ==> player.wf(),
    {
        &self.player
    }

    /// The dealer.
    pub fn dealer(&self) -> (dealer: &Dealer)
        ensures
            dealer@ == self@.dealer,
            self.parts_wf() ==> dealer.wf(),
    {
        &self.dealer
    }

    /// The shoe.
    pub fn deck(&self) -> (deck: &Deck)
        ensures
            deck@ == self@.deck,
            self.parts_wf() ==> deck.wf(),
    {
        &self.deck
    }

    /// Ends the round with `outcome`.
    fn resolve(&mut self, outcome: Outcome)
        requires
            old(self).parts_wf(),
        ensures
            final(self).parts_wf(),
            final(self)@ == old(self)@.resolved(outcome),
    {
        self.dealer.set_won(outcome.is_dealer_win());
        self.phase = Phase::Resolved(outcome);
    }

    /// The initial deal with the samples `s0` to `s3`.
    pub fn deal_with(&mut self, s0: usize, s1: usize, s2: usize, s3: usize) -> (done: Result<
        (),
        DealError,
    >)
        requires
            old(self).wf(),
            old(self)@.phase == Phase::Dealing,
        ensures
            final(self).wf(),
            final(self)@ == old(self)@.after_deal(s0 as nat, s1 as nat, s2 as nat, s3 as nat),
            done == old(self)@.deal_report(),
    {
        let dealt = play_first_round_with(
            &mut self.player,
            &mut self.dealer,
            &mut self.deck,
            s0,
            s1,
            s2,
            s3,
        );
        self.after_first_round(dealt)
    }

    /// Moves on from the initial deal: to the outcome of the blackjack check
    /// if there is one, else to the player's turn; nowhere if the deal failed.
    fn after_first_round(&mut self, dealt: Result<Option<Outcome>, DealError>) -> (done: Result<
        (),
        DealError,
    >)
        requires
            old(self).parts_wf(),
            old(self)@.holds_all_cards(),
            dealt is Ok ==> old(self)@.player.score() <= 21 && old(self)@.dealer.score() <= 21,
            dealt is Err ==> old(self).wf(),
        ensures
            final(self).wf(),
            dealt is Err ==> final(self)@ == old(self)@,
            dealt == Ok::<Option<Outcome>, DealError>(None) ==> final(self)@ == old(self)@.in_phase(
                Phase::PlayerTurn,
            ),
            forall|outcome: Outcome|
                dealt == Ok::<Option<Outcome>, DealError>(Some(outcome)) ==> final(self)@ == old(
                    self,
                )@.in_phase(Phase::PlayerTurn).resolved(outcome),
            done == match dealt {
                Ok(_) => Ok::<(), DealError>(()),
                Err(e) => Err(e),
            },
    {
        match dealt {
            Ok(Some(outcome)) => {
                self.phase = Phase::PlayerTurn;
                self.resolve(outcome);
                Ok(())
            },
            Ok(None) => {
                self.phase = Phase::PlayerTurn;
                Ok(())
            },
            Err(e) => Err(e),
        }
    }

    /// The initial deal with four cards drawn at random.
    pub fn deal(&mut self) -> (done: Result<(), DealError>)
        requires
            old(self).wf(),
            old(self)@.phase == Phase::Dealing,
        ensures
            final(self).wf(),
            exists|s0: nat, s1: nat, s2: nat, s3: nat|
                final(self)@ == #[trigger] old(self)@.after_deal(s0, s1, s2, s3),
            done == old(self)@.deal_report(),
    {
        let ghost before = self@;
        let dealt = play_first_round(&mut self.player, &mut self.dealer, &mut self.deck);
        let ghost mid = self@;
        let done = self.after_first_round(dealt);
        proof {
            if undrawn_count(before.deck) >= 4 {
                let (s0, s1, s2, s3) = choose|s0: nat, s1: nat, s2: nat, s3: nat|
                    mid.deck == #[trigger] cards_after_first_round(before.deck, s0, s1, s2, s3)
                        && mid.dealer == dealer_after_first_round(
                        before.dealer,
                        before.deck,
                        s0,
                        s1,
                    ) && mid.player == player_after_first_round(
                        before.player,
                        before.deck,
                        s0,
                        s1,
                        s2,
                        s3,
                    );
                assert(self@ == before.after_deal(s0, s1, s2, s3));
            } else {
                assert(self@ == before.after_deal(0, 0, 0, 0));
            }
        }
        done
    }

    /// The player's decision, with the sample `pick` for the card of a hit.
    pub fn player_move_with(&mut self, decision: Decision, pick: usize) -> (done: Result<
        (),
        DealError,
    >)
        requires
            old(self).wf(),
            old(self)@.phase == Phase::PlayerTurn,
        ensures
            final(self).wf(),
            final(self)@ == old(self)@.after_player_move(decision, pick as nat),
            done == old(self)@.player_move_report(decision),
    {
        match decision {
            Decision::Quit => {
                self.phase = Phase::Aborted;
                Ok(())
            },
            Decision::Stand => {
                self.phase = Phase::DealerTurn;
                Ok(())
            },
            Decision::Hit => {
                match hit_with(&mut self.player, &mut self.deck, pick) {
                    Ok(()) => {
                        if self.player.check_busted() {
                            self.resolve(Outcome::DealerWin);
                        }
                        Ok(())
                    },
                    Err(e) => Err(e),
                }
            },
        }
    }

    /// The player's decision, with the card of a hit drawn at random.
    pub fn player_move(&mut self, decision: Decision) -> (done: Result<(), DealError>)
        requires
            old(self).wf(),
            old(self)@.phase == Phase::PlayerTurn,
        ensures
            final(self).wf(),
            exists|pick: nat|
                (undrawn_count(old(self)@.deck) > 0 ==> pick < undrawn_count(old(self)@.deck))
                    && final(self)@ == #[trigger] old(self)@.after_player_move(decision, pick),
            done == old(self)@.player_move_report(decision),
    {
        let pick: usize = match decision {
            Decision::Hit => self.deck.random_pick(),
            _ => 0,
        };
        let done = self.player_move_with(decision, pick);
        assert(final(self)@ == old(self)@.after_player_move(decision, pick as nat));
        done
    }

    /// One step of the dealer's turn with the samples `roll` and `pick`.
    pub fn dealer_move_with(&mut self, roll: u8, pick: usize) -> (done: Result<(), DealError>)
        requires
            old(self).wf(),
            old(self)@.phase == Phase::DealerTurn,
        ensures
            final(self).wf(),
            final(self)@ == old(self)@.after_dealer_move(roll as int, pick as nat),
            done == old(self)@.dealer_move_report(roll as int),
    {
        match dealer_action_with(&mut self.dealer, &mut self.deck, roll, pick) {
            Ok(_) => {
                if self.dealer.score() >= 17 {
                    let outcome = settle(&self.player, &self.dealer);
                    self.resolve(outcome);
                }
                Ok(())
            },
            Err(e) => Err(e),
        }
    }

    /// The dealer's turn, step by step with the samples of `samples`, until
    /// the round is resolved, a card is due from an exhausted shoe, or the
    /// samples run out; in the last case the phase is still the dealer's turn.
    pub fn dealer_turn_with(&mut self, samples: &Vec<(u8, usize)>) -> (done: Result<(), DealError>)
        requires
            old(self).wf(),
            old(self)@.phase == Phase::DealerTurn,
        ensures
            final(self).wf(),
            final(self)@ == old(self)@.after_dealer_turn(samples@),
            done == old(self)@.dealer_turn_report(samples@),
    {
        let ghost start = self@;
        let mut i: usize = 0;
        proof {
            assert(samples@.skip(0) =~= samples@);
        }
        while i < samples.len() && self.phase == Phase::DealerTurn
            invariant
                self.wf(),
                i <= samples@.len(),
                start == old(self)@,
                start.after_dealer_turn(samples@) == self@.after_dealer_turn(
                    samples@.skip(i as int),
                ),
                start.dealer_turn_report(samples@) == self@.dealer_turn_report(
                    samples@.skip(i as int),
                ),
            decreases samples@.len() - i,
        {
            let roll: u8 = samples[i].0;
            let pick: usize = samples[i].1;
            proof {
                assert(samples@.skip(i as int).skip(1) =~= samples@.skip(i + 1));
            }
            match self.dealer_move_with(roll, pick) {
                Ok(()) => {},
                Err(e) => {
                    return Err(e);
                },
            }
            i += 1;
        }
        Ok(())
    }

    /// One step of the dealer's turn on a fresh roll, with a card drawn at
    /// random where one is taken.
    pub fn dealer_move(&mut self) -> (done: Result<(), DealError>)
        requires
            old(self).wf(),
            old(self)@.phase == Phase::DealerTurn,
        ensures
            final(self).wf(),
            exists|roll: int, pick: nat|
                1 <= roll <= 100 && (undrawn_count(old(self)@.deck) > 0 ==> pick < undrawn_count(
                    old(self)@.deck,
                )) && final(self)@ == #[trigger] old(self)@.after_dealer_move(roll, pick) && done
                    == old(self)@.dealer_move_report(roll),
    {
        let roll: u8 = roll_die();
        let pick: usize = self.deck.random_pick();
        let done = self.dealer_move_with(roll, pick);
        assert(final(self)@ == old(self)@.after_dealer_move(roll as int, pick as nat));
        done
    }
}

} // verus!
