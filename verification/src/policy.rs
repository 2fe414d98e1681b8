//! The dealer's policy: whether the dealer takes another card, decided from
//! the dealer's score and one roll of a hundred-sided die.

use vstd::prelude::*;
use crate::chance::random_in;

verus! {

/// Out of a hundred, how often the dealer draws at this score: always up to
/// 10, 70 times from 11 to 13, 35 times from 14 to 16, never from 17 on.
pub open spec fn hit_chance(score: int) -> int {
    if score <= 10 {
        100
    } else if score <= 13 {
        70
    } else if score <= 16 {
        35
    } else {
        0
    }
}

/// Whether the dealer draws at `score` when the die shows `roll`: the top
/// `hit_chance(score)` faces of the die are the ones that hit.
pub open spec fn policy_hits(score: int, roll: int) -> bool {
    roll > 100 - hit_chance(score)
}

/// The stricter variant of the policy, which also looks at the player: from
/// 14 to 16 the dealer draws on every roll when the player holds 17 or more,
/// and otherwise decides as `policy_hits` does.
pub open spec fn policy_hits_against(score: int, player: int, roll: int) -> bool {
    if 14 <= score <= 16 && player >= 17 {
        true
    } else {
        policy_hits(score, roll)
    }
}

/// How many of the faces 1 to `upto` make the dealer draw at `score`.
pub open spec fn hitting_rolls(score: int, upto: int) -> int
    decreases upto,
{
    if upto <= 0 {
        0
    } else {
        hitting_rolls(score, upto - 1) + if policy_hits(score, upto) {
            1int
        } else {
            0int
        }
    }
}

/// The dealer's decision at `score` for the roll `roll`.
pub fn dealer_hits(score: u8, roll: u8) -> (hits: bool)
    ensures
        hits == policy_hits(score as int, roll as int),
{
    let chance: u8 = if score <= 10 {
        100
    } else if score <= 13 {
        70
    } else if score <= 16 {
        35
    } else {
        0
    };
    roll > 100 - chance
}

/// The dealer's decision at `score` against a player at `player`, for the
/// roll `roll`, by the stricter variant of the policy.
pub fn dealer_hits_against(score: u8, player: u8, roll: u8) -> (hits: bool)
    ensures
        hits == policy_hits_against(score as int, player as int, roll as int),
{
    if 14 <= score && score <= 16 && player >= 17 {
        true
    } else {
        dealer_hits(score, roll)
    }
}

/// One roll of the die: a number from 1 to 100.
pub fn roll_die() -> (roll: u8)
    ensures
        1 <= roll <= 100,
{
    let sample: usize = random_in(1, 101);
    sample as u8
}

/// The dealer's decision at `score`, on a fresh roll of the die. Whatever the
/// die shows, the dealer draws at 10 or less and stands at 17 or more.
pub fn dealer_decides(score: u8) -> (hits: bool)
    ensures
        exists|roll: int| 1 <= roll <= 100 && hits == #[trigger] policy_hits(score as int, roll),
        score <= 10 ==> hits,
        score >= 17 ==> !hits,
{
    let roll: u8 = roll_die();
    let hits = dealer_hits(score, roll);
    assert(hits == policy_hits(score as int, roll as int));
    hits
}

/// At a score of 10 or less the dealer draws on every roll.
pub proof fn low_scores_always_hit(score: int, roll: int)
    requires
        score <= 10,
        1 <= roll <= 100,
    ensures
        policy_hits(score, roll),
{
}

/// At a score of 17 or more the dealer draws on no roll.
pub proof fn high_scores_never_hit(score: int, roll: int)
    requires
        score >= 17,
        1 <= roll <= 100,
    ensures
        !policy_hits(score, roll),
{
}

/// Of the faces 1 to `upto`, those above `100 - hit_chance(score)` hit.
proof fn count_hitting_rolls(score: int, upto: int)
    requires
        0 <= upto <= 100,
    ensures
        hitting_rolls(score, upto) == if upto > 100 - hit_chance(score) {
            upto - (100 - hit_chance(score))
        } else {
            0
        },
    decreases upto,
{
    if upto > 0 {
        count_hitting_rolls(score, upto - 1);
    }
}

/// Of the hundred faces of the die exactly `hit_chance(score)` make the
/// dealer draw: with a fair die the dealer draws with that chance in a
/// hundred.
pub proof fn hit_chance_is_exact(score: int)
    ensures
        hitting_rolls(score, 100) == hit_chance(score),
{
    count_hitting_rolls(score, 100);
}

} // verus!
